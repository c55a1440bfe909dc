//! The mathematical model of a pool: its state as plain values and a map,
//! and what each operation makes of that state.

use crate::error::Error;
use crate::exchange::SwapDelta;
use crate::fee::{spec_portion, FeePolicy};
use crate::math::sqrt_floor;
use crate::shares::{balance_of, sum_shares};
use crate::types::{AccountId, Balance, Moment};
use vstd::prelude::*;

verus! {

/// The state of a pool.
pub struct ExchangeView {
    /// Reserve of the first asset.
    pub first_asset_pool: Balance,
    /// Reserve of the second asset.
    pub second_asset_pool: Balance,
    /// The constant product that swaps are priced against.
    pub invariant: Balance,
    /// All issued shares.
    pub total_shares: Balance,
    /// When the price accumulators were last brought up to date.
    pub last_timestamp: Moment,
    /// Running sum of `first reserve / second reserve * elapsed time`.
    pub price1_cumulative_last: Balance,
    /// Running sum of `second reserve / first reserve * elapsed time`.
    pub price2_cumulative_last: Balance,
    /// What each owner holds.
    pub shares: Map<AccountId, Balance>,
}

/// The deduction from the first shares of a pool, by the number of bits of
/// the balance type.
pub open spec fn spec_min_fee_for_bits(bits: u32) -> Balance {
    if bits <= 64 {
        1
    } else if bits < 128 {
        10
    } else {
        1000
    }
}

/// The deduction from the first shares of a pool.
pub open spec fn spec_min_fee() -> Balance {
    spec_min_fee_for_bits(Balance::BITS)
}

/// The reserves after `amount_in` is paid into the pool on the side of
/// `reserve_in`, of which `exchange_fee` is left out of the pricing, and
/// the amount paid out on the other side: the new reserve coming in, the
/// new reserve going out, the amount going out.
pub open spec fn spec_swap(
    reserve_in: Balance,
    reserve_out: Balance,
    constant_product: Balance,
    exchange_fee: Balance,
    amount_in: Balance,
) -> Result<(Balance, Balance, Balance), Error> {
    let new_reserve_in = reserve_in + amount_in;
    let priced = new_reserve_in - exchange_fee;
    let new_reserve_out = constant_product as int / priced;
    if new_reserve_in > Balance::MAX {
        Err(Error::OverflowOccured)
    } else if priced < 0 {
        Err(Error::UnderflowOccured)
    } else if priced == 0 {
        Err(Error::UnderflowOrOverflowOccured)
    } else if new_reserve_out > reserve_out {
        Err(Error::UnderflowOccured)
    } else {
        Ok(
            (
                new_reserve_in as Balance,
                new_reserve_out as Balance,
                (reserve_out - new_reserve_out) as Balance,
            ),
        )
    }
}

impl ExchangeView {
    /// The pool that nobody has launched yet: every number zero, no shares.
    pub open spec fn empty() -> ExchangeView {
        ExchangeView {
            first_asset_pool: 0,
            second_asset_pool: 0,
            invariant: 0,
            total_shares: 0,
            last_timestamp: 0,
            price1_cumulative_last: 0,
            price2_cumulative_last: 0,
            shares: Map::empty(),
        }
    }

    /// What must hold of a pool after every operation: the shares of all
    /// owners add up to the total, and the constant product is the product
    /// of the reserves, or zero in a pool without shares.
    pub open spec fn wf(self) -> bool {
        &&& self.shares.dom().finite()
        &&& self.total_shares == sum_shares(self.shares)
        &&& (self.invariant == self.first_asset_pool * self.second_asset_pool || (
        self.total_shares == 0 && self.invariant == 0))
    }

    /// The pool can be launched: no product and no shares are left in it.
    pub open spec fn launchable(self) -> bool {
        self.invariant == 0 && self.total_shares == 0
    }

    /// The pool that `sender` launches at `now` with the two amounts, and
    /// the shares issued for them: the square root of the product of the
    /// amounts, less the minimum fee. Nothing is launched where the product
    /// does not fit a balance, or where no share would be left to issue.
    pub open spec fn spec_initialize_new(
        first_asset_amount: Balance,
        second_asset_amount: Balance,
        sender: AccountId,
        now: Moment,
    ) -> Result<(ExchangeView, Balance), Error> {
        let product = first_asset_amount * second_asset_amount;
        if product > Balance::MAX || sqrt_floor(product as nat) <= spec_min_fee() {
            Err(Error::UnderflowOccured)
        } else {
            let initial_shares = (sqrt_floor(product as nat) - spec_min_fee()) as Balance;
            Ok(
                (
                    ExchangeView {
                        first_asset_pool: first_asset_amount,
                        second_asset_pool: second_asset_amount,
                        invariant: product as Balance,
                        total_shares: initial_shares,
                        last_timestamp: now,
                        price1_cumulative_last: 0,
                        price2_cumulative_last: 0,
                        shares: Map::empty().insert(sender, initial_shares),
                    },
                    initial_shares,
                ),
            )
        }
    }

    /// A swap of `first_asset_amount` of the first asset for the second:
    /// the reserves after it, the amount of the second asset paid out, and
    /// the treasury's cut of the fee with its recipient.
    pub open spec fn spec_first_to_second(
        self,
        first_asset_amount: Balance,
        policy: FeePolicy,
    ) -> Result<(SwapDelta, Option<(Balance, AccountId)>), Error> {
        match policy.spec_split(first_asset_amount) {
            Err(e) => Err(e),
            Ok(split) => match spec_swap(
                self.first_asset_pool,
                self.second_asset_pool,
                self.invariant,
                split.exchange_fee,
                first_asset_amount,
            ) {
                Err(e) => Err(e),
                Ok((new_first, new_second, second_asset_amount)) => Ok(
                    (
                        SwapDelta {
                            first_asset_pool: new_first,
                            second_asset_pool: new_second,
                            amount: second_asset_amount,
                        },
                        split.treasury_fee,
                    ),
                ),
            },
        }
    }

    /// A swap of `second_asset_amount` of the second asset for the first:
    /// the reserves after it, the amount of the first asset paid out, and
    /// the treasury's cut of the fee with its recipient.
    pub open spec fn spec_second_to_first(
        self,
        second_asset_amount: Balance,
        policy: FeePolicy,
    ) -> Result<(SwapDelta, Option<(Balance, AccountId)>), Error> {
        match policy.spec_split(second_asset_amount) {
            Err(e) => Err(e),
            Ok(split) => match spec_swap(
                self.second_asset_pool,
                self.first_asset_pool,
                self.invariant,
                split.exchange_fee,
                second_asset_amount,
            ) {
                Err(e) => Err(e),
                Ok((new_second, new_first, first_asset_amount)) => Ok(
                    (
                        SwapDelta {
                            first_asset_pool: new_first,
                            second_asset_pool: new_second,
                            amount: first_asset_amount,
                        },
                        split.treasury_fee,
                    ),
                ),
            },
        }
    }

    /// What `shares` cost in the first and in the second asset, at the
    /// pool's present reserves.
    pub open spec fn spec_calculate_costs(self, shares: Balance) -> Result<
        (Balance, Balance),
        Error,
    > {
        match (
            spec_portion(shares, self.total_shares, self.first_asset_pool),
            spec_portion(shares, self.total_shares, self.second_asset_pool),
        ) {
            (Some(first_asset_cost), Some(second_asset_cost)) => Ok(
                (first_asset_cost, second_asset_cost),
            ),
            _ => Err(Error::UnderflowOrOverflowOccured),
        }
    }

    /// The pool after `sender` has paid in the two amounts for `shares` new
    /// shares.
    pub open spec fn spec_invest(
        self,
        first_asset_amount: Balance,
        second_asset_amount: Balance,
        shares: Balance,
        sender: AccountId,
    ) -> Result<ExchangeView, Error> {
        let owned = balance_of(self.shares, sender) + shares;
        let total = self.total_shares + shares;
        let first = self.first_asset_pool + first_asset_amount;
        let second = self.second_asset_pool + second_asset_amount;
        if owned > Balance::MAX || total > Balance::MAX || first > Balance::MAX || second
            > Balance::MAX {
            Err(Error::OverflowOccured)
        } else if first * second > Balance::MAX {
            Err(Error::UnderflowOrOverflowOccured)
        } else {
            Ok(
                ExchangeView {
                    first_asset_pool: first as Balance,
                    second_asset_pool: second as Balance,
                    invariant: (first * second) as Balance,
                    total_shares: total as Balance,
                    shares: self.shares.insert(sender, owned as Balance),
                    ..self
                },
            )
        }
    }

    /// The pool after `sender` has taken out the two amounts for `shares`
    /// of their shares. An owner without an entry holds nothing.
    pub open spec fn spec_divest(
        self,
        first_asset_amount: Balance,
        second_asset_amount: Balance,
        shares: Balance,
        sender: AccountId,
    ) -> Result<ExchangeView, Error> {
        let owned = balance_of(self.shares, sender) - shares;
        let total = self.total_shares - shares;
        let first = self.first_asset_pool - first_asset_amount;
        let second = self.second_asset_pool - second_asset_amount;
        if owned < 0 || total < 0 || first < 0 || second < 0 {
            Err(Error::UnderflowOccured)
        } else if total != 0 && first * second > Balance::MAX {
            Err(Error::UnderflowOrOverflowOccured)
        } else {
            Ok(
                ExchangeView {
                    first_asset_pool: first as Balance,
                    second_asset_pool: second as Balance,
                    invariant: if total == 0 {
                        0
                    } else {
                        (first * second) as Balance
                    },
                    total_shares: total as Balance,
                    shares: if self.shares.contains_key(sender) {
                        self.shares.insert(sender, owned as Balance)
                    } else {
                        self.shares
                    },
                    ..self
                },
            )
        }
    }

    /// The pool after its reserves were set to the two amounts at `now`:
    /// each price accumulator has grown by the rounded-down price times the
    /// time since the last update. A `now` before the last update is an
    /// underflow; a reserve of zero, an accumulator or a product that does
    /// not fit a balance is an underflow or overflow.
    pub open spec fn spec_update_pools(
        self,
        first_asset_pool: Balance,
        second_asset_pool: Balance,
        now: Moment,
    ) -> Result<ExchangeView, Error> {
        let elapsed = now - self.last_timestamp;
        if elapsed < 0 {
            Err(Error::UnderflowOccured)
        } else if first_asset_pool == 0 || second_asset_pool == 0 {
            Err(Error::UnderflowOrOverflowOccured)
        } else {
            let price1 = self.price1_cumulative_last + (first_asset_pool / second_asset_pool)
                * elapsed;
            let price2 = self.price2_cumulative_last + (second_asset_pool / first_asset_pool)
                * elapsed;
            let product = first_asset_pool * second_asset_pool;
            if price1 > Balance::MAX || price2 > Balance::MAX || product > Balance::MAX {
                Err(Error::UnderflowOrOverflowOccured)
            } else {
                Ok(
                    ExchangeView {
                        first_asset_pool,
                        second_asset_pool,
                        invariant: product as Balance,
                        last_timestamp: now,
                        price1_cumulative_last: price1 as Balance,
                        price2_cumulative_last: price2 as Balance,
                        ..self
                    },
                )
            }
        }
    }

    /// Whether the pool may be launched, and why not.
    pub open spec fn spec_ensure_launch(self) -> Result<(), Error> {
        if self.invariant != 0 {
            Err(Error::InvariantNotNull)
        } else if self.total_shares != 0 {
            Err(Error::TotalSharesNotNull)
        } else {
            Ok(())
        }
    }

    /// Whether `sender` may burn `shares_burned` shares, and why not.
    pub open spec fn spec_ensure_burned_shares(
        self,
        sender: AccountId,
        shares_burned: Balance,
    ) -> Result<(), Error> {
        if shares_burned == 0 {
            Err(Error::InvalidShares)
        } else if !self.shares.contains_key(sender) {
            Err(Error::DoesNotOwnShare)
        } else if self.shares[sender] < shares_burned {
            Err(Error::InsufficientShares)
        } else {
            Ok(())
        }
    }
}

/// Whether an amount paid out is acceptable: not below the least amount
/// that the caller accepts, and not more than the reserve it is paid from.
pub open spec fn spec_ensure_asset_amount(
    reserve: Balance,
    asset_out_amount: Balance,
    min_asset_out_amount: Balance,
) -> Result<(), Error> {
    if asset_out_amount < min_asset_out_amount {
        Err(Error::SecondAssetAmountBelowExpectation)
    } else if asset_out_amount > reserve {
        Err(Error::InsufficientPool)
    } else {
        Ok(())
    }
}

} // verus!
