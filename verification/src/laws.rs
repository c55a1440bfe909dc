//! What holds of the pool across operations: how a swap moves the product
//! of the reserves, that adding and removing the same liquidity cancel
//! out, and that the price accumulators never fall.

use crate::error::Error;
use crate::exchange::SwapDelta;
use crate::fee::FeePolicy;
use crate::math::{lemma_sqrt_floor, lemma_sqrt_floor_at_most, sqrt_floor};
use crate::model::{spec_ensure_asset_amount, spec_min_fee, spec_swap, ExchangeView};
use crate::shares::{balance_of, lemma_balance_at_most_sum, lemma_sum_insert};
use crate::types::{AccountId, Balance, Moment};
use vstd::arithmetic::div_mod::{lemma_fundamental_div_mod, lemma_mod_bound};
use vstd::prelude::*;

verus! {

/// The part of the fee on `amount` that stays in the pool under `policy`;
/// zero where the fee cannot be computed.
pub open spec fn spec_exchange_fee(policy: FeePolicy, amount: Balance) -> Balance {
    match policy.spec_split(amount) {
        Ok(split) => split.exchange_fee,
        Err(_) => 0,
    }
}

/// What the division in a swap rounds away: the remainder of the constant
/// product by the reserve that the swap is priced on.
pub open spec fn spec_rounding_loss(
    constant_product: Balance,
    reserve_in: Balance,
    exchange_fee: Balance,
    amount_in: Balance,
) -> int {
    constant_product as int % (reserve_in + amount_in - exchange_fee)
}

/// A successful launch issues the square root of the product of the two
/// amounts, less the minimum fee of one, and records that product; it
/// succeeds exactly when the product fits a balance and its square root is
/// above the minimum fee, so that a launched pool always has shares.
pub proof fn lemma_initialize_new(
    first_asset_amount: Balance,
    second_asset_amount: Balance,
    sender: AccountId,
    now: Moment,
)
    ensures
        spec_min_fee() == 1,
        ExchangeView::spec_initialize_new(first_asset_amount, second_asset_amount, sender, now)
            is Ok <==> first_asset_amount * second_asset_amount <= Balance::MAX && sqrt_floor(
            (first_asset_amount * second_asset_amount) as nat,
        ) > spec_min_fee(),
        ExchangeView::spec_initialize_new(
            first_asset_amount,
            second_asset_amount,
            sender,
            now,
        ) matches Err(e) ==> e == Error::UnderflowOccured,
        ExchangeView::spec_initialize_new(
            first_asset_amount,
            second_asset_amount,
            sender,
            now,
        ) matches Ok((pool, initial_shares)) ==> {
            &&& pool.invariant == first_asset_amount * second_asset_amount
            &&& pool.total_shares == sqrt_floor((first_asset_amount * second_asset_amount) as nat)
                - spec_min_fee()
            &&& pool.total_shares > 0
            &&& initial_shares == pool.total_shares
            &&& pool.shares =~= map![sender => initial_shares]
            &&& first_asset_amount > 0
            &&& second_asset_amount > 0
        },
{
    let product = first_asset_amount * second_asset_amount;
    lemma_sqrt_floor_at_most(product as nat);
    if first_asset_amount == 0 || second_asset_amount == 0 {
        assert(product == 0) by (nonlinear_arith)
            requires
                product == first_asset_amount * second_asset_amount,
                first_asset_amount == 0 || second_asset_amount == 0,
        ;
        assert(0 * 0 <= 0 < (0 + 1) * (0 + 1)) by (nonlinear_arith);
        lemma_sqrt_floor(0, 0);
    }
}

/// A pool that was just launched cannot be launched again: it has shares,
/// and its constant product is not zero.
pub proof fn lemma_launched_pool_is_not_launchable(
    first_asset_amount: Balance,
    second_asset_amount: Balance,
    sender: AccountId,
    now: Moment,
    pool: ExchangeView,
    initial_shares: Balance,
)
    requires
        ExchangeView::spec_initialize_new(first_asset_amount, second_asset_amount, sender, now)
            == Ok::<_, Error>((pool, initial_shares)),
    ensures
        !pool.launchable(),
        pool.invariant > 0,
        pool.total_shares > 0,
        pool.spec_ensure_launch() == Err::<(), _>(Error::InvariantNotNull),
{
    lemma_initialize_new(first_asset_amount, second_asset_amount, sender, now);
    assert(first_asset_amount * second_asset_amount > 0) by (nonlinear_arith)
        requires
            first_asset_amount > 0,
            second_asset_amount > 0,
    ;
}

/// The accounts of a swap. What comes in is added to one reserve and what
/// goes out is taken from the other. The new reserve going out is the
/// constant product divided by the priced reserve and rounded down. The
/// product of the new reserves is the constant product, less what the
/// division rounded away, plus the fee kept by the pool times the new
/// reserve going out.
pub proof fn lemma_swap_accounts(
    reserve_in: Balance,
    reserve_out: Balance,
    constant_product: Balance,
    exchange_fee: Balance,
    amount_in: Balance,
    new_reserve_in: Balance,
    new_reserve_out: Balance,
    amount_out: Balance,
)
    requires
        spec_swap(reserve_in, reserve_out, constant_product, exchange_fee, amount_in) == Ok::<
            _,
            Error,
        >((new_reserve_in, new_reserve_out, amount_out)),
    ensures
        new_reserve_in == reserve_in + amount_in,
        new_reserve_out + amount_out == reserve_out,
        exchange_fee < new_reserve_in,
        (new_reserve_in - exchange_fee) * new_reserve_out <= constant_product < (new_reserve_in
            - exchange_fee) * (new_reserve_out + 1),
        0 <= spec_rounding_loss(constant_product, reserve_in, exchange_fee, amount_in)
            < new_reserve_in - exchange_fee,
        new_reserve_in * new_reserve_out == constant_product - spec_rounding_loss(
            constant_product,
            reserve_in,
            exchange_fee,
            amount_in,
        ) + exchange_fee * new_reserve_out,
{
    let priced = new_reserve_in - exchange_fee;
    let loss = constant_product as int % priced;
    lemma_fundamental_div_mod(constant_product as int, priced);
    lemma_mod_bound(constant_product as int, priced);
    assert(new_reserve_in * new_reserve_out == constant_product - loss + exchange_fee
        * new_reserve_out && priced * new_reserve_out <= constant_product < priced * (
    new_reserve_out + 1)) by (nonlinear_arith)
        requires
            constant_product == priced * new_reserve_out + loss,
            0 <= loss < priced,
            priced == new_reserve_in - exchange_fee,
    ;
}

/// Without a fee kept by the pool, no swap makes the product of the
/// reserves larger than the constant product it was priced against: the
/// product grows only where a fee was applied.
pub proof fn lemma_swap_without_fee_never_grows_product(
    reserve_in: Balance,
    reserve_out: Balance,
    constant_product: Balance,
    amount_in: Balance,
    new_reserve_in: Balance,
    new_reserve_out: Balance,
    amount_out: Balance,
)
    requires
        spec_swap(reserve_in, reserve_out, constant_product, 0, amount_in) == Ok::<_, Error>(
            (new_reserve_in, new_reserve_out, amount_out),
        ),
    ensures
        new_reserve_in * new_reserve_out <= constant_product,
{
    lemma_swap_accounts(
        reserve_in,
        reserve_out,
        constant_product,
        0,
        amount_in,
        new_reserve_in,
        new_reserve_out,
        amount_out,
    );
    assert(0 * new_reserve_out == 0) by (nonlinear_arith);
}

/// A swap does not make the product of the reserves smaller than the
/// constant product it was priced against, provided that the fee kept by
/// the pool, times the new reserve going out, covers what the division
/// rounded away.
pub proof fn lemma_swap_keeps_product(
    reserve_in: Balance,
    reserve_out: Balance,
    constant_product: Balance,
    exchange_fee: Balance,
    amount_in: Balance,
    new_reserve_in: Balance,
    new_reserve_out: Balance,
    amount_out: Balance,
)
    requires
        spec_swap(reserve_in, reserve_out, constant_product, exchange_fee, amount_in) == Ok::<
            _,
            Error,
        >((new_reserve_in, new_reserve_out, amount_out)),
        exchange_fee * new_reserve_out >= spec_rounding_loss(
            constant_product,
            reserve_in,
            exchange_fee,
            amount_in,
        ),
    ensures
        new_reserve_in * new_reserve_out >= constant_product,
{
    lemma_swap_accounts(
        reserve_in,
        reserve_out,
        constant_product,
        exchange_fee,
        amount_in,
        new_reserve_in,
        new_reserve_out,
        amount_out,
    );
}

/// A swap of the first asset for the second, committed, and then a swap of
/// the second asset for the first that pays back exactly the amount of the
/// first swap, committed too. The first reserve is then what it was, the
/// second reserve has changed by what came in less what went out, and the
/// constant product has changed by the fees kept by the pool less what the
/// two divisions rounded away. So the constant product after the round trip
/// is not below the one before, provided that the fees kept cover the
/// rounding.
pub proof fn lemma_round_trip(
    pool: ExchangeView,
    policy: FeePolicy,
    first_asset_amount: Balance,
    second_asset_amount: Balance,
    committed_there: Moment,
    committed_back: Moment,
    there: SwapDelta,
    middle: ExchangeView,
    back: SwapDelta,
    after: ExchangeView,
)
    requires
        pool.spec_first_to_second(first_asset_amount, policy) matches Ok((delta, _)) && delta
            == there,
        pool.spec_update_pools(there.first_asset_pool, there.second_asset_pool, committed_there)
            == Ok::<_, Error>(middle),
        middle.spec_second_to_first(second_asset_amount, policy) matches Ok((delta, _)) && delta
            == back,
        back.amount == first_asset_amount,
        middle.spec_update_pools(back.first_asset_pool, back.second_asset_pool, committed_back)
            == Ok::<_, Error>(after),
        spec_exchange_fee(policy, first_asset_amount) * there.second_asset_pool
            + spec_exchange_fee(policy, second_asset_amount) * back.first_asset_pool
            >= spec_rounding_loss(
            pool.invariant,
            pool.first_asset_pool,
            spec_exchange_fee(policy, first_asset_amount),
            first_asset_amount,
        ) + spec_rounding_loss(
            middle.invariant,
            middle.second_asset_pool,
            spec_exchange_fee(policy, second_asset_amount),
            second_asset_amount,
        ),
    ensures
        after.first_asset_pool == pool.first_asset_pool,
        after.second_asset_pool == pool.second_asset_pool - there.amount + second_asset_amount,
        after.invariant == pool.invariant + spec_exchange_fee(policy, first_asset_amount)
            * there.second_asset_pool + spec_exchange_fee(policy, second_asset_amount)
            * back.first_asset_pool - spec_rounding_loss(
            pool.invariant,
            pool.first_asset_pool,
            spec_exchange_fee(policy, first_asset_amount),
            first_asset_amount,
        ) - spec_rounding_loss(
            middle.invariant,
            middle.second_asset_pool,
            spec_exchange_fee(policy, second_asset_amount),
            second_asset_amount,
        ),
        after.invariant >= pool.invariant,
{
    lemma_swap_accounts(
        pool.first_asset_pool,
        pool.second_asset_pool,
        pool.invariant,
        spec_exchange_fee(policy, first_asset_amount),
        first_asset_amount,
        there.first_asset_pool,
        there.second_asset_pool,
        there.amount,
    );
    lemma_swap_accounts(
        middle.second_asset_pool,
        middle.first_asset_pool,
        middle.invariant,
        spec_exchange_fee(policy, second_asset_amount),
        second_asset_amount,
        back.second_asset_pool,
        back.first_asset_pool,
        back.amount,
    );
    assert(back.second_asset_pool * back.first_asset_pool == back.first_asset_pool
        * back.second_asset_pool) by (nonlinear_arith);
}

/// Adding liquidity and then removing the same amounts for the same shares
/// brings the pool back to where it was: the reserves, the total of
/// shares, the time and the price accumulators are what they were, the
/// owner holds what they held, and nobody else's shares are touched. Two
/// things may differ. The owner now has an entry in the table of shares,
/// with nothing in it where they had none. And a pool that had a constant
/// product while no shares were issued has none afterwards.
pub proof fn lemma_invest_then_divest(
    pool: ExchangeView,
    first_asset_amount: Balance,
    second_asset_amount: Balance,
    shares: Balance,
    sender: AccountId,
    invested: ExchangeView,
)
    requires
        pool.wf(),
        pool.spec_invest(first_asset_amount, second_asset_amount, shares, sender) == Ok::<
            _,
            Error,
        >(invested),
    ensures
        invested.spec_divest(first_asset_amount, second_asset_amount, shares, sender) == Ok::<
            _,
            Error,
        >(
            ExchangeView {
                invariant: if pool.total_shares == 0 {
                    0
                } else {
                    pool.invariant
                },
                shares: pool.shares.insert(sender, balance_of(pool.shares, sender) as Balance),
                ..pool
            },
        ),
        balance_of(pool.shares.insert(sender, balance_of(pool.shares, sender) as Balance), sender)
            == balance_of(pool.shares, sender),
        invested.wf(),
{
    let owned = (balance_of(pool.shares, sender) + shares) as Balance;
    let held = balance_of(pool.shares, sender) as Balance;
    lemma_sum_insert(pool.shares, sender, owned);
    assert(invested.shares.insert(sender, held) =~= pool.shares.insert(sender, held));
}

/// What shares cost is the part of each reserve that the shares are of all
/// shares, rounded down: never more than that part, and less than one unit
/// short of it. Shares within the total never cost more than the reserves.
pub proof fn lemma_costs_are_proportional(pool: ExchangeView, shares: Balance)
    requires
        pool.spec_calculate_costs(shares) is Ok,
    ensures
        ({
            let (first_asset_cost, second_asset_cost) = pool.spec_calculate_costs(shares)->Ok_0;
            &&& pool.total_shares > 0
            &&& first_asset_cost * pool.total_shares <= shares * pool.first_asset_pool < (
            first_asset_cost + 1) * pool.total_shares
            &&& second_asset_cost * pool.total_shares <= shares * pool.second_asset_pool < (
            second_asset_cost + 1) * pool.total_shares
            &&& shares <= pool.total_shares ==> first_asset_cost <= pool.first_asset_pool
                && second_asset_cost <= pool.second_asset_pool
        }),
{
    let total = pool.total_shares as int;
    let first = shares * pool.first_asset_pool;
    let second = shares * pool.second_asset_pool;
    lemma_fundamental_div_mod(first, total);
    lemma_mod_bound(first, total);
    lemma_fundamental_div_mod(second, total);
    lemma_mod_bound(second, total);
    let first_cost = first / total;
    let second_cost = second / total;
    assert(first_cost * total <= first < (first_cost + 1) * total && second_cost * total <= second
        < (second_cost + 1) * total) by (nonlinear_arith)
        requires
            first == total * first_cost + first % total,
            0 <= first % total < total,
            second == total * second_cost + second % total,
            0 <= second % total < total,
    ;
    if shares <= pool.total_shares {
        assert(first_cost <= pool.first_asset_pool && second_cost <= pool.second_asset_pool)
            by (nonlinear_arith)
            requires
                first_cost * total <= shares * pool.first_asset_pool,
                second_cost * total <= shares * pool.second_asset_pool,
                0 <= shares <= total,
                total > 0,
                first_cost >= 0,
                second_cost >= 0,
        ;
    }
}

/// What the guards check before liquidity is removed is enough for the
/// removal to go through: the owner may burn the shares, and neither
/// amount is more than its reserve.
pub proof fn lemma_guarded_divest_succeeds(
    pool: ExchangeView,
    first_asset_amount: Balance,
    second_asset_amount: Balance,
    shares: Balance,
    sender: AccountId,
)
    requires
        pool.wf(),
        pool.spec_ensure_burned_shares(sender, shares) is Ok,
        spec_ensure_asset_amount(pool.first_asset_pool, first_asset_amount, 0) is Ok,
        spec_ensure_asset_amount(pool.second_asset_pool, second_asset_amount, 0) is Ok,
    ensures
        pool.spec_divest(first_asset_amount, second_asset_amount, shares, sender) is Ok,
{
    lemma_balance_at_most_sum(pool.shares, sender);
    let first = pool.first_asset_pool - first_asset_amount;
    let second = pool.second_asset_pool - second_asset_amount;
    if pool.total_shares - shares != 0 {
        assert(first * second <= pool.first_asset_pool * pool.second_asset_pool)
            by (nonlinear_arith)
            requires
                0 <= first <= pool.first_asset_pool,
                0 <= second <= pool.second_asset_pool,
        ;
    }
}

/// Burning all shares of the pool leaves it without shares and without a
/// constant product, whatever stays in the reserves: it can be launched
/// again.
pub proof fn lemma_divest_all(
    pool: ExchangeView,
    first_asset_amount: Balance,
    second_asset_amount: Balance,
    sender: AccountId,
    divested: ExchangeView,
)
    requires
        pool.spec_divest(first_asset_amount, second_asset_amount, pool.total_shares, sender)
            == Ok::<_, Error>(divested),
    ensures
        divested.total_shares == 0,
        divested.invariant == 0,
        divested.launchable(),
        divested.spec_ensure_launch() == Ok::<(), Error>(()),
        divested.first_asset_pool == pool.first_asset_pool - first_asset_amount,
        divested.second_asset_pool == pool.second_asset_pool - second_asset_amount,
{
}

/// The pool after a run of updates of its reserves, each given as the two
/// reserves and the time of the update. An update that is rejected leaves
/// the pool as it was.
pub open spec fn spec_update_all(
    pool: ExchangeView,
    updates: Seq<(Balance, Balance, Moment)>,
) -> ExchangeView
    decreases updates.len(),
{
    if updates.len() == 0 {
        pool
    } else {
        let before = spec_update_all(pool, updates.drop_last());
        let (first_asset_pool, second_asset_pool, now) = updates.last();
        match before.spec_update_pools(first_asset_pool, second_asset_pool, now) {
            Ok(after) => after,
            Err(_) => before,
        }
    }
}

/// Over any run of updates, neither price accumulator ever falls, and the
/// time of the last update never goes back: what the pool holds after the
/// first `later` updates is at least what it held after the first
/// `earlier` of them.
pub proof fn lemma_cumulative_prices_never_fall(
    pool: ExchangeView,
    updates: Seq<(Balance, Balance, Moment)>,
    earlier: int,
    later: int,
)
    requires
        0 <= earlier <= later <= updates.len(),
    ensures
        spec_update_all(pool, updates.take(earlier)).price1_cumulative_last <= spec_update_all(
            pool,
            updates.take(later),
        ).price1_cumulative_last,
        spec_update_all(pool, updates.take(earlier)).price2_cumulative_last <= spec_update_all(
            pool,
            updates.take(later),
        ).price2_cumulative_last,
        spec_update_all(pool, updates.take(earlier)).last_timestamp <= spec_update_all(
            pool,
            updates.take(later),
        ).last_timestamp,
    decreases later - earlier,
{
    if earlier < later {
        lemma_cumulative_prices_never_fall(pool, updates, earlier, later - 1);
        assert(updates.take(later).drop_last() =~= updates.take(later - 1));
        let before = spec_update_all(pool, updates.take(later - 1));
        let (first_asset_pool, second_asset_pool, now) = updates.take(later).last();
        if before.spec_update_pools(first_asset_pool, second_asset_pool, now) is Ok {
            let elapsed = now - before.last_timestamp;
            assert((first_asset_pool / second_asset_pool) * elapsed >= 0
                && (second_asset_pool / first_asset_pool) * elapsed >= 0) by (nonlinear_arith)
                requires
                    elapsed >= 0,
                    first_asset_pool / second_asset_pool >= 0,
                    second_asset_pool / first_asset_pool >= 0,
            ;
        }
    }
}

} // verus!
