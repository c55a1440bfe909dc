//! The table of ownership shares as a mathematical map, and the sum of what
//! it holds.

use crate::types::{AccountId, Balance};
use vstd::prelude::*;

verus! {

/// What `owner` holds in `table`: the recorded balance, or nothing where
/// the table has no entry.
pub open spec fn balance_of(table: Map<AccountId, Balance>, owner: AccountId) -> nat {
    if table.contains_key(owner) {
        table[owner] as nat
    } else {
        0
    }
}

/// The sum of all balances in `table`.
pub open spec fn sum_shares(table: Map<AccountId, Balance>) -> nat
    decreases table.dom().len(),
    when table.dom().finite()
{
    if table.dom().is_empty() {
        0
    } else {
        let owner = table.dom().choose();
        table[owner] as nat + sum_shares(table.remove(owner))
    }
}

/// An empty table sums to zero.
pub proof fn lemma_sum_empty()
    ensures
        sum_shares(Map::<AccountId, Balance>::empty()) == 0,
{
    assert(Map::<AccountId, Balance>::empty().dom() =~= Set::<AccountId>::empty());
}

/// Any one entry can be split off the sum.
pub proof fn lemma_sum_split(table: Map<AccountId, Balance>, owner: AccountId)
    requires
        table.dom().finite(),
        table.contains_key(owner),
    ensures
        sum_shares(table) == table[owner] as nat + sum_shares(table.remove(owner)),
    decreases table.dom().len(),
{
    let first = table.dom().choose();
    if first != owner {
        let rest = table.remove(first);
        let other = table.remove(owner);
        lemma_sum_split(rest, owner);
        lemma_sum_split(other, first);
        assert(rest.remove(owner) =~= other.remove(first));
    }
}

/// Writing `amount` under `owner` changes the sum by the difference to what
/// the owner held before.
pub proof fn lemma_sum_insert(table: Map<AccountId, Balance>, owner: AccountId, amount: Balance)
    requires
        table.dom().finite(),
    ensures
        sum_shares(table.insert(owner, amount)) + balance_of(table, owner) == sum_shares(table)
            + amount as nat,
{
    let updated = table.insert(owner, amount);
    lemma_sum_split(updated, owner);
    assert(updated.remove(owner) =~= table.remove(owner));
    if table.contains_key(owner) {
        lemma_sum_split(table, owner);
    } else {
        assert(table.remove(owner) =~= table);
    }
}

/// No owner holds more than the sum of all balances.
pub proof fn lemma_balance_at_most_sum(table: Map<AccountId, Balance>, owner: AccountId)
    requires
        table.dom().finite(),
    ensures
        balance_of(table, owner) <= sum_shares(table),
{
    if table.contains_key(owner) {
        lemma_sum_split(table, owner);
    }
}

} // verus!
