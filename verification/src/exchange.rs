//! The pool itself: its state, and the operations that price swaps, issue
//! and burn shares, and keep the price accumulators.

use crate::error::Error;
use crate::fee::{portion, FeePolicy};
use crate::laws::lemma_initialize_new;
use crate::math::{integer_sqrt, sqrt_floor};
use crate::model::{
    spec_ensure_asset_amount, spec_min_fee, spec_min_fee_for_bits, spec_swap, ExchangeView,
};
use crate::shares::{lemma_sum_empty, lemma_sum_insert};
use crate::types::{AccountId, Balance, Moment};
use std::collections::BTreeMap;
use vstd::prelude::*;

verus! {

/// The reserves after a swap, and the amount that the swap pays out.
#[derive(Clone, Copy, Debug, PartialEq, Eq, Structural)]
pub struct SwapDelta {
    /// Reserve of the first asset after the swap.
    pub first_asset_pool: Balance,
    /// Reserve of the second asset after the swap.
    pub second_asset_pool: Balance,
    /// Amount paid out: of the second asset for a swap from the first to the
    /// second, of the first asset for a swap in the other direction.
    pub amount: Balance,
}

/// A liquidity pool of two assets.
#[derive(Debug, PartialEq, Eq)]
pub struct Exchange {
    /// Reserve of the first asset.
    pub first_asset_pool: Balance,
    /// Reserve of the second asset.
    pub second_asset_pool: Balance,
    /// The constant product that swaps are priced against.
    pub invariant: Balance,
    /// All issued shares.
    pub total_shares: Balance,
    /// When the price accumulators were last brought up to date.
    pub last_timestamp: Moment,
    /// Running sum of `first reserve / second reserve * elapsed time`.
    pub price1_cumulative_last: Balance,
    /// Running sum of `second reserve / first reserve * elapsed time`.
    pub price2_cumulative_last: Balance,
    /// What each owner holds.
    pub shares: BTreeMap<AccountId, Balance>,
}

impl View for Exchange {
    type V = ExchangeView;

    open spec fn view(&self) -> ExchangeView {
        ExchangeView {
            first_asset_pool: self.first_asset_pool,
            second_asset_pool: self.second_asset_pool,
            invariant: self.invariant,
            total_shares: self.total_shares,
            last_timestamp: self.last_timestamp,
            price1_cumulative_last: self.price1_cumulative_last,
            price2_cumulative_last: self.price2_cumulative_last,
            shares: self.shares@,
        }
    }
}

impl SwapDelta {
    /// The record of a swap.
    pub fn new(first_asset_pool: Balance, second_asset_pool: Balance, amount: Balance) -> (delta:
        Self)
        ensures
            delta == (SwapDelta { first_asset_pool, second_asset_pool, amount }),
    {
        Self { first_asset_pool, second_asset_pool, amount }
    }
}

/// The deduction from the first shares of a pool whose balances have `bits`
/// bits: the wider the balance, the larger the deduction.
pub fn min_fee_for_bits(bits: u32) -> (fee: Balance)
    ensures
        fee == spec_min_fee_for_bits(bits),
{
    if bits <= 64 {
        1
    } else if bits < 128 {
        10
    } else {
        1000
    }
}

/// Prices a swap: `amount_in` comes into the pool on the side of
/// `reserve_in`, the constant product is divided by the new reserve less
/// the fee that stays in the pool, and what the other reserve holds above
/// that quotient is paid out.
pub fn swap_reserves(
    reserve_in: Balance,
    reserve_out: Balance,
    constant_product: Balance,
    exchange_fee: Balance,
    amount_in: Balance,
) -> (res: Result<(Balance, Balance, Balance), Error>)
    ensures
        res == spec_swap(reserve_in, reserve_out, constant_product, exchange_fee, amount_in),
{
    let new_reserve_in = match reserve_in.checked_add(amount_in) {
        Some(sum) => sum,
        None => { return Err(Error::OverflowOccured); },
    };
    let priced = match new_reserve_in.checked_sub(exchange_fee) {
        Some(difference) => difference,
        None => { return Err(Error::UnderflowOccured); },
    };
    let new_reserve_out = match constant_product.checked_div(priced) {
        Some(quotient) => quotient,
        None => { return Err(Error::UnderflowOrOverflowOccured); },
    };
    let amount_out = match reserve_out.checked_sub(new_reserve_out) {
        Some(difference) => difference,
        None => { return Err(Error::UnderflowOccured); },
    };
    Ok((new_reserve_in, new_reserve_out, amount_out))
}

impl Exchange {
    /// The deduction from the first shares of a pool.
    pub fn get_min_fee() -> (fee: Balance)
        ensures
            fee == spec_min_fee(),
            fee == 1,
    {
        min_fee_for_bits(Balance::BITS)
    }

    /// Launches a pool with the two amounts at `now`. The shares issued for
    /// them, the square root of their product less the minimum fee, all go
    /// to `sender`. A launch that would issue no share is refused, and so is
    /// one whose product does not fit a balance.
    pub fn initialize_new(
        first_asset_amount: Balance,
        second_asset_amount: Balance,
        sender: AccountId,
        now: Moment,
    ) -> (res: Result<(Self, Balance), Error>)
        ensures
            match res {
                Ok((exchange, initial_shares)) => ExchangeView::spec_initialize_new(
                    first_asset_amount,
                    second_asset_amount,
                    sender,
                    now,
                ) == Ok::<_, Error>((exchange@, initial_shares)) && exchange@.wf(),
                Err(e) => ExchangeView::spec_initialize_new(
                    first_asset_amount,
                    second_asset_amount,
                    sender,
                    now,
                ) == Err::<(ExchangeView, Balance), _>(e),
            },
            res is Ok <==> first_asset_amount * second_asset_amount <= Balance::MAX && sqrt_floor(
                (first_asset_amount * second_asset_amount) as nat,
            ) > spec_min_fee(),
            res matches Ok((exchange, initial_shares)) ==> {
                &&& exchange.first_asset_pool == first_asset_amount
                &&& exchange.second_asset_pool == second_asset_amount
                &&& exchange.invariant == first_asset_amount * second_asset_amount
                &&& exchange.total_shares == sqrt_floor(
                    (first_asset_amount * second_asset_amount) as nat,
                ) - spec_min_fee()
                &&& exchange.total_shares > 0
                &&& initial_shares == exchange.total_shares
                &&& exchange.shares@ =~= map![sender => initial_shares]
                &&& exchange.last_timestamp == now
                &&& exchange.price1_cumulative_last == 0
                &&& exchange.price2_cumulative_last == 0
            },
            res matches Err(e) ==> e == Error::UnderflowOccured,
    {
        proof {
            lemma_initialize_new(first_asset_amount, second_asset_amount, sender, now);
        }
        let min_fee = Self::get_min_fee();
        let product = match first_asset_amount.checked_mul(second_asset_amount) {
            Some(product) => product,
            None => { return Err(Error::UnderflowOccured); },
        };
        let initial_shares = match integer_sqrt(product).checked_sub(min_fee) {
            Some(initial_shares) => initial_shares,
            None => { return Err(Error::UnderflowOccured); },
        };
        if initial_shares == 0 {
            return Err(Error::UnderflowOccured);
        }
        let mut shares_map = BTreeMap::new();
        shares_map.insert(sender, initial_shares);
        let exchange = Self {
            first_asset_pool: first_asset_amount,
            second_asset_pool: second_asset_amount,
            invariant: product,
            total_shares: initial_shares,
            shares: shares_map,
            last_timestamp: now,
            price1_cumulative_last: 0,
            price2_cumulative_last: 0,
        };
        proof {
            lemma_sum_empty();
            lemma_sum_insert(Map::empty(), sender, initial_shares);
        }
        Ok((exchange, initial_shares))
    }

    /// Prices a swap of the first asset for the second, given the fee that
    /// stays in the pool.
    fn perform_first_to_second_asset_swap_calculation(
        &self,
        exchange_fee: Balance,
        first_asset_amount: Balance,
    ) -> (res: Result<SwapDelta, Error>)
        ensures
            match res {
                Ok(delta) => spec_swap(
                    self.first_asset_pool,
                    self.second_asset_pool,
                    self.invariant,
                    exchange_fee,
                    first_asset_amount,
                ) == Ok::<_, Error>(
                    (delta.first_asset_pool, delta.second_asset_pool, delta.amount),
                ),
                Err(e) => spec_swap(
                    self.first_asset_pool,
                    self.second_asset_pool,
                    self.invariant,
                    exchange_fee,
                    first_asset_amount,
                ) == Err::<(Balance, Balance, Balance), _>(e),
            },
    {
        match swap_reserves(
            self.first_asset_pool,
            self.second_asset_pool,
            self.invariant,
            exchange_fee,
            first_asset_amount,
        ) {
            Ok((new_first_asset_pool, new_second_asset_pool, second_asset_amount)) => Ok(
                SwapDelta::new(new_first_asset_pool, new_second_asset_pool, second_asset_amount),
            ),
            Err(e) => Err(e),
        }
    }

    /// Prices a swap of `first_asset_amount` of the first asset for the
    /// second under `fee_policy`: the reserves after the swap, the amount
    /// of the second asset to pay out, and the treasury's cut of the fee
    /// with its recipient where a treasury is configured. The pool itself
    /// is left as it is.
    pub fn calculate_first_to_second_asset_swap(
        &self,
        first_asset_amount: Balance,
        fee_policy: &FeePolicy,
    ) -> (res: Result<(SwapDelta, Option<(Balance, AccountId)>), Error>)
        ensures
            res == self@.spec_first_to_second(first_asset_amount, *fee_policy),
    {
        let split = match fee_policy.split(first_asset_amount) {
            Ok(split) => split,
            Err(e) => { return Err(e); },
        };
        match self.perform_first_to_second_asset_swap_calculation(
            split.exchange_fee,
            first_asset_amount,
        ) {
            Ok(swap_delta) => Ok((swap_delta, split.treasury_fee)),
            Err(e) => Err(e),
        }
    }

    /// Prices a swap of the second asset for the first, given the fee that
    /// stays in the pool.
    fn perform_second_to_first_asset_swap_calculation(
        &self,
        exchange_fee: Balance,
        second_asset_amount: Balance,
    ) -> (res: Result<SwapDelta, Error>)
        ensures
            match res {
                Ok(delta) => spec_swap(
                    self.second_asset_pool,
                    self.first_asset_pool,
                    self.invariant,
                    exchange_fee,
                    second_asset_amount,
                ) == Ok::<_, Error>(
                    (delta.second_asset_pool, delta.first_asset_pool, delta.amount),
                ),
                Err(e) => spec_swap(
                    self.second_asset_pool,
                    self.first_asset_pool,
                    self.invariant,
                    exchange_fee,
                    second_asset_amount,
                ) == Err::<(Balance, Balance, Balance), _>(e),
            },
    {
        match swap_reserves(
            self.second_asset_pool,
            self.first_asset_pool,
            self.invariant,
            exchange_fee,
            second_asset_amount,
        ) {
            Ok((new_second_asset_pool, new_first_asset_pool, first_asset_amount)) => Ok(
                SwapDelta::new(new_first_asset_pool, new_second_asset_pool, first_asset_amount),
            ),
            Err(e) => Err(e),
        }
    }

    /// Prices a swap of `second_asset_amount` of the second asset for the
    /// first under `fee_policy`: the reserves after the swap, the amount of
    /// the first asset to pay out, and the treasury's cut of the fee with
    /// its recipient where a treasury is configured. The pool itself is
    /// left as it is.
    pub fn calculate_second_to_first_asset_swap(
        &self,
        second_asset_amount: Balance,
        fee_policy: &FeePolicy,
    ) -> (res: Result<(SwapDelta, Option<(Balance, AccountId)>), Error>)
        ensures
            res == self@.spec_second_to_first(second_asset_amount, *fee_policy),
    {
        let split = match fee_policy.split(second_asset_amount) {
            Ok(split) => split,
            Err(e) => { return Err(e); },
        };
        match self.perform_second_to_first_asset_swap_calculation(
            split.exchange_fee,
            second_asset_amount,
        ) {
            Ok(swap_delta) => Ok((swap_delta, split.treasury_fee)),
            Err(e) => Err(e),
        }
    }

    /// What `shares` shares cost in the first and in the second asset: the
    /// same part of each reserve as `shares` is of all shares, rounded
    /// down.
    pub fn calculate_costs(&self, shares: Balance) -> (res: Result<(Balance, Balance), Error>)
        ensures
            res == self@.spec_calculate_costs(shares),
    {
        let first_asset_cost = match portion(shares, self.total_shares, self.first_asset_pool) {
            Some(cost) => cost,
            None => { return Err(Error::UnderflowOrOverflowOccured); },
        };
        let second_asset_cost = match portion(shares, self.total_shares, self.second_asset_pool) {
            Some(cost) => cost,
            None => { return Err(Error::UnderflowOrOverflowOccured); },
        };
        Ok((first_asset_cost, second_asset_cost))
    }

    /// Adds liquidity: `sender` pays in the two amounts and is credited
    /// `shares` new shares. Either every number of the pool is updated, or
    /// an error is returned and the pool is left as it was.
    pub fn invest(
        &mut self,
        first_asset_amount: Balance,
        second_asset_amount: Balance,
        shares: Balance,
        sender: &AccountId,
    ) -> (res: Result<(), Error>)
        ensures
            match res {
                Ok(()) => old(self)@.spec_invest(
                    first_asset_amount,
                    second_asset_amount,
                    shares,
                    *sender,
                ) == Ok::<_, Error>(final(self)@),
                Err(e) => old(self)@.spec_invest(
                    first_asset_amount,
                    second_asset_amount,
                    shares,
                    *sender,
                ) == Err::<ExchangeView, _>(e) && *final(self) == *old(self),
            },
            old(self)@.wf() ==> final(self)@.wf(),
    {
        let updated_shares = match self.shares.get(sender) {
            Some(prev_shares) => match prev_shares.checked_add(shares) {
                Some(sum) => sum,
                None => { return Err(Error::OverflowOccured); },
            },
            None => shares,
        };
        let total_shares = match self.total_shares.checked_add(shares) {
            Some(sum) => sum,
            None => { return Err(Error::OverflowOccured); },
        };
        let first_asset_pool = match self.first_asset_pool.checked_add(first_asset_amount) {
            Some(sum) => sum,
            None => { return Err(Error::OverflowOccured); },
        };
        let second_asset_pool = match self.second_asset_pool.checked_add(second_asset_amount) {
            Some(sum) => sum,
            None => { return Err(Error::OverflowOccured); },
        };
        let constant_product = match first_asset_pool.checked_mul(second_asset_pool) {
            Some(product) => product,
            None => { return Err(Error::UnderflowOrOverflowOccured); },
        };
        proof {
            lemma_sum_insert(self.shares@, *sender, updated_shares);
        }
        self.shares.insert(*sender, updated_shares);
        self.total_shares = total_shares;
        self.first_asset_pool = first_asset_pool;
        self.second_asset_pool = second_asset_pool;
        self.invariant = constant_product;
        Ok(())
    }

    /// Removes liquidity: `sender` takes out the two amounts and gives up
    /// `shares` of their shares. When no shares are left in the pool, its
    /// constant product is set to zero, whatever the reserves still hold.
    /// Either every number of the pool is updated, or an error is returned
    /// and the pool is left as it was.
    pub fn divest(
        &mut self,
        first_asset_amount: Balance,
        second_asset_amount: Balance,
        shares: Balance,
        sender: &AccountId,
    ) -> (res: Result<(), Error>)
        ensures
            match res {
                Ok(()) => old(self)@.spec_divest(
                    first_asset_amount,
                    second_asset_amount,
                    shares,
                    *sender,
                ) == Ok::<_, Error>(final(self)@),
                Err(e) => old(self)@.spec_divest(
                    first_asset_amount,
                    second_asset_amount,
                    shares,
                    *sender,
                ) == Err::<ExchangeView, _>(e) && *final(self) == *old(self),
            },
            old(self)@.wf() ==> final(self)@.wf(),
            res is Ok && shares == old(self).total_shares ==> final(self).total_shares == 0
                && final(self).invariant == 0,
    {
        let remaining_shares = match self.shares.get(sender) {
            Some(share) => match share.checked_sub(shares) {
                Some(difference) => Some(difference),
                None => { return Err(Error::UnderflowOccured); },
            },
            None => {
                if shares > 0 {
                    return Err(Error::UnderflowOccured);
                }
                None
            },
        };
        let total_shares = match self.total_shares.checked_sub(shares) {
            Some(difference) => difference,
            None => { return Err(Error::UnderflowOccured); },
        };
        let first_asset_pool = match self.first_asset_pool.checked_sub(first_asset_amount) {
            Some(difference) => difference,
            None => { return Err(Error::UnderflowOccured); },
        };
        let second_asset_pool = match self.second_asset_pool.checked_sub(second_asset_amount) {
            Some(difference) => difference,
            None => { return Err(Error::UnderflowOccured); },
        };
        let constant_product = if total_shares == 0 {
            0
        } else {
            match first_asset_pool.checked_mul(second_asset_pool) {
                Some(product) => product,
                None => { return Err(Error::UnderflowOrOverflowOccured); },
            }
        };
        if let Some(share) = remaining_shares {
            proof {
                lemma_sum_insert(self.shares@, *sender, share);
            }
            self.shares.insert(*sender, share);
        }
        self.total_shares = total_shares;
        self.first_asset_pool = first_asset_pool;
        self.second_asset_pool = second_asset_pool;
        self.invariant = constant_product;
        Ok(())
    }

    /// Sets the reserves to the two amounts, which the caller has from a
    /// completed transfer, and brings the price accumulators up to `now`:
    /// each grows by the rounded-down price of one asset in the other,
    /// times the time since the last update. A `now` before the last update
    /// is refused first, as an underflow. Either every number of the pool
    /// is updated, or an error is returned and the pool is left as it was.
    pub fn update_pools(
        &mut self,
        first_asset_pool: Balance,
        second_asset_pool: Balance,
        now: Moment,
    ) -> (res: Result<(), Error>)
        ensures
            match res {
                Ok(()) => old(self)@.spec_update_pools(first_asset_pool, second_asset_pool, now)
                    == Ok::<_, Error>(final(self)@),
                Err(e) => old(self)@.spec_update_pools(first_asset_pool, second_asset_pool, now)
                    == Err::<ExchangeView, _>(e) && *final(self) == *old(self),
            },
            old(self)@.wf() ==> final(self)@.wf(),
            final(self).price1_cumulative_last >= old(self).price1_cumulative_last,
            final(self).price2_cumulative_last >= old(self).price2_cumulative_last,
            final(self).last_timestamp >= old(self).last_timestamp,
            now < old(self).last_timestamp ==> res == Err::<(), _>(Error::UnderflowOccured),
    {
        let time_elapsed = match now.checked_sub(self.last_timestamp) {
            Some(difference) => difference,
            None => { return Err(Error::UnderflowOccured); },
        };
        let price1_cumulative = match first_asset_pool.checked_div(second_asset_pool) {
            Some(price) => match price.checked_mul(time_elapsed) {
                Some(product) => product,
                None => { return Err(Error::UnderflowOrOverflowOccured); },
            },
            None => { return Err(Error::UnderflowOrOverflowOccured); },
        };
        let price1_cumulative_last = match self.price1_cumulative_last.checked_add(
            price1_cumulative,
        ) {
            Some(sum) => sum,
            None => { return Err(Error::UnderflowOrOverflowOccured); },
        };
        let price2_cumulative = match second_asset_pool.checked_div(first_asset_pool) {
            Some(price) => match price.checked_mul(time_elapsed) {
                Some(product) => product,
                None => { return Err(Error::UnderflowOrOverflowOccured); },
            },
            None => { return Err(Error::UnderflowOrOverflowOccured); },
        };
        let price2_cumulative_last = match self.price2_cumulative_last.checked_add(
            price2_cumulative,
        ) {
            Some(sum) => sum,
            None => { return Err(Error::UnderflowOrOverflowOccured); },
        };
        let constant_product = match first_asset_pool.checked_mul(second_asset_pool) {
            Some(product) => product,
            None => { return Err(Error::UnderflowOrOverflowOccured); },
        };
        self.first_asset_pool = first_asset_pool;
        self.second_asset_pool = second_asset_pool;
        self.price1_cumulative_last = price1_cumulative_last;
        self.price2_cumulative_last = price2_cumulative_last;
        self.last_timestamp = now;
        self.invariant = constant_product;
        Ok(())
    }

    /// Checks that the pool can be launched: it has no constant product
    /// and no shares.
    pub fn ensure_launch(&self) -> (res: Result<(), Error>)
        ensures
            res == self@.spec_ensure_launch(),
            res is Ok <==> self@.launchable(),
    {
        if self.invariant != 0 {
            return Err(Error::InvariantNotNull);
        }
        if self.total_shares != 0 {
            return Err(Error::TotalSharesNotNull);
        }
        Ok(())
    }

    /// Checks that an amount of the second asset can be paid out: it is
    /// not below the least amount that the caller accepts, and the pool
    /// holds it.
    pub fn ensure_second_asset_amount(
        &self,
        second_asset_out_amount: Balance,
        min_asset_out_amount: Balance,
    ) -> (res: Result<(), Error>)
        ensures
            res == spec_ensure_asset_amount(
                self.second_asset_pool,
                second_asset_out_amount,
                min_asset_out_amount,
            ),
            res is Ok <==> min_asset_out_amount <= second_asset_out_amount
                <= self.second_asset_pool,
    {
        if second_asset_out_amount < min_asset_out_amount {
            return Err(Error::SecondAssetAmountBelowExpectation);
        }
        if second_asset_out_amount > self.second_asset_pool {
            return Err(Error::InsufficientPool);
        }
        Ok(())
    }

    /// Checks that `sender` can burn `shares_burned` shares: the number is
    /// not zero, the pool has an entry for `sender`, and the entry holds
    /// at least that many.
    pub fn ensure_burned_shares(&self, sender: &AccountId, shares_burned: Balance) -> (res: Result<
        (),
        Error,
    >)
        ensures
            res == self@.spec_ensure_burned_shares(*sender, shares_burned),
            res is Ok <==> shares_burned > 0 && self@.shares.contains_key(*sender)
                && self@.shares[*sender] >= shares_burned,
    {
        if shares_burned == 0 {
            return Err(Error::InvalidShares);
        }
        match self.shares.get(sender) {
            Some(shares) => {
                if *shares < shares_burned {
                    return Err(Error::InsufficientShares);
                }
                Ok(())
            },
            None => Err(Error::DoesNotOwnShare),
        }
    }

    /// Checks that an amount of the first asset can be paid out: it is not
    /// below the least amount that the caller accepts, and the pool holds
    /// it.
    pub fn ensure_first_asset_amount(
        &self,
        first_asset_out_amount: Balance,
        min_first_asset_out_amount: Balance,
    ) -> (res: Result<(), Error>)
        ensures
            res == spec_ensure_asset_amount(
                self.first_asset_pool,
                first_asset_out_amount,
                min_first_asset_out_amount,
            ),
            res is Ok <==> min_first_asset_out_amount <= first_asset_out_amount
                <= self.first_asset_pool,
    {
        if first_asset_out_amount < min_first_asset_out_amount {
            return Err(Error::SecondAssetAmountBelowExpectation);
        }
        if first_asset_out_amount > self.first_asset_pool {
            return Err(Error::InsufficientPool);
        }
        Ok(())
    }
}

impl Default for Exchange {
    /// The pool that nobody has launched yet.
    fn default() -> (exchange: Self)
        ensures
            exchange@ == ExchangeView::empty(),
            exchange@.wf(),
            exchange@.launchable(),
    {
        proof {
            lemma_sum_empty();
        }
        Self {
            first_asset_pool: 0,
            second_asset_pool: 0,
            invariant: 0,
            total_shares: 0,
            last_timestamp: 0,
            price1_cumulative_last: 0,
            price2_cumulative_last: 0,
            shares: BTreeMap::new(),
        }
    }
}

impl Clone for Exchange {
    /// A second pool in the same state.
    fn clone(&self) -> (copy: Self)
        ensures
            copy@ == self@,
    {
        Self {
            first_asset_pool: self.first_asset_pool,
            second_asset_pool: self.second_asset_pool,
            invariant: self.invariant,
            total_shares: self.total_shares,
            last_timestamp: self.last_timestamp,
            price1_cumulative_last: self.price1_cumulative_last,
            price2_cumulative_last: self.price2_cumulative_last,
            shares: self.shares.clone(),
        }
    }
}

} // verus!
