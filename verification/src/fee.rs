//! The fee policy: the rate charged on a swap, and the part of the fee that
//! goes to a treasury instead of staying in the pool.

use crate::error::Error;
use crate::types::{AccountId, Balance};
use vstd::prelude::*;

verus! {

/// The treasury's cut of every swap fee, and who receives it.
#[derive(Clone, Copy, Debug, PartialEq, Eq, Structural)]
pub struct DexTreasury {
    /// Recipient of the treasury's cut.
    pub dex_account: AccountId,
    /// Nominator of the part of the fee that goes to the treasury.
    pub treasury_fee_rate_nominator: Balance,
    /// Denominator of the part of the fee that goes to the treasury.
    pub treasury_fee_rate_denominator: Balance,
}

/// The swap fee rate, and the treasury's cut where one is configured.
#[derive(Clone, Copy, Debug, PartialEq, Eq, Structural)]
pub struct FeePolicy {
    /// Nominator of the fee charged on the amount paid in.
    pub fee_rate_nominator: Balance,
    /// Denominator of the fee charged on the amount paid in.
    pub fee_rate_denominator: Balance,
    /// The treasury; without one the whole fee stays in the pool.
    pub treasury: Option<DexTreasury>,
}

/// A swap fee, divided between the pool and the treasury.
#[derive(Clone, Copy, Debug, PartialEq, Eq)]
pub struct FeeSplit {
    /// The whole fee charged on the amount paid in.
    pub fee: Balance,
    /// The part of the fee that stays in the pool.
    pub exchange_fee: Balance,
    /// The part of the fee that leaves the pool, with its recipient.
    pub treasury_fee: Option<(Balance, AccountId)>,
}

/// `nominator * amount / denominator`, rounded down; nothing where the
/// product does not fit a balance or the denominator is zero.
pub open spec fn spec_portion(nominator: Balance, denominator: Balance, amount: Balance) -> Option<
    Balance,
> {
    if nominator * amount > Balance::MAX || denominator == 0 {
        None
    } else {
        Some((nominator * amount / denominator as int) as Balance)
    }
}

/// `nominator * amount / denominator`, rounded down.
pub fn portion(nominator: Balance, denominator: Balance, amount: Balance) -> (part: Option<Balance>)
    ensures
        part == spec_portion(nominator, denominator, amount),
{
    match nominator.checked_mul(amount) {
        Some(product) => product.checked_div(denominator),
        None => None,
    }
}

impl FeeSplit {
    /// What leaves the pool for the treasury: zero without a treasury.
    pub open spec fn treasury_amount(self) -> Balance {
        match self.treasury_fee {
            Some((amount, _)) => amount,
            None => 0,
        }
    }
}

impl FeePolicy {
    /// The fee on `amount` and how it is divided.
    pub open spec fn spec_split(self, amount: Balance) -> Result<FeeSplit, Error> {
        match spec_portion(self.fee_rate_nominator, self.fee_rate_denominator, amount) {
            None => Err(Error::UnderflowOrOverflowOccured),
            Some(fee) => match self.treasury {
                None => Ok(FeeSplit { fee, exchange_fee: fee, treasury_fee: None }),
                Some(treasury) => match spec_portion(
                    treasury.treasury_fee_rate_nominator,
                    treasury.treasury_fee_rate_denominator,
                    fee,
                ) {
                    None => Err(Error::UnderflowOrOverflowOccured),
                    Some(cut) => if cut > fee {
                        Err(Error::UnderflowOccured)
                    } else {
                        Ok(
                            FeeSplit {
                                fee,
                                exchange_fee: (fee - cut) as Balance,
                                treasury_fee: Some((cut, treasury.dex_account)),
                            },
                        )
                    },
                },
            },
        }
    }

    /// Computes the fee on `amount` and divides it between the pool and the
    /// treasury. Nothing of the fee is lost: the two parts add up to it.
    pub fn split(&self, amount: Balance) -> (res: Result<FeeSplit, Error>)
        ensures
            res == self.spec_split(amount),
            res matches Ok(s) ==> s.exchange_fee + s.treasury_amount() == s.fee,
            res matches Ok(s) ==> (s.treasury_fee is Some <==> self.treasury is Some),
    {
        let fee = match portion(self.fee_rate_nominator, self.fee_rate_denominator, amount) {
            Some(fee) => fee,
            None => { return Err(Error::UnderflowOrOverflowOccured); },
        };
        match self.treasury {
            None => Ok(FeeSplit { fee, exchange_fee: fee, treasury_fee: None }),
            Some(treasury) => {
                let cut = match portion(
                    treasury.treasury_fee_rate_nominator,
                    treasury.treasury_fee_rate_denominator,
                    fee,
                ) {
                    Some(cut) => cut,
                    None => { return Err(Error::UnderflowOrOverflowOccured); },
                };
                match fee.checked_sub(cut) {
                    Some(exchange_fee) => Ok(
                        FeeSplit { fee, exchange_fee, treasury_fee: Some((cut, treasury.dex_account)) },
                    ),
                    None => Err(Error::UnderflowOccured),
                }
            },
        }
    }
}

} // verus!
