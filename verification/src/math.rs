//! Integer square roots and the few facts about floor division that the
//! pool's contracts rest on.

use crate::types::Balance;
use sp_arithmetic::traits::IntegerSquareRoot;
use vstd::prelude::*;

verus! {

/// `r` is the square root of `n`, rounded down.
pub open spec fn is_sqrt_floor(n: nat, r: nat) -> bool {
    r * r <= n && n < (r + 1) * (r + 1)
}

/// The square root of `n`, rounded down.
pub open spec fn sqrt_floor(n: nat) -> nat {
    choose|r: nat| is_sqrt_floor(n, r)
}

/// Every natural number has a rounded-down square root.
pub proof fn lemma_sqrt_floor_exists(n: nat) -> (r: nat)
    ensures
        is_sqrt_floor(n, r),
    decreases n,
{
    if n == 0 {
        assert(is_sqrt_floor(0, 0)) by (nonlinear_arith);
        0
    } else {
        let p = lemma_sqrt_floor_exists((n - 1) as nat);
        let q = p + 1;
        if q * q <= n {
            assert(n < (q + 1) * (q + 1)) by (nonlinear_arith)
                requires
                    n - 1 < q * q,
            ;
            assert(is_sqrt_floor(n, q));
            q
        } else {
            assert(is_sqrt_floor(n, p));
            p
        }
    }
}

/// At most one number is the rounded-down square root of `n`.
pub proof fn lemma_sqrt_floor_unique(n: nat, r: nat, s: nat)
    requires
        is_sqrt_floor(n, r),
        is_sqrt_floor(n, s),
    ensures
        r == s,
{
    if r < s {
        assert((r + 1) * (r + 1) <= s * s) by (nonlinear_arith)
            requires
                r + 1 <= s,
        ;
    } else if s < r {
        assert((s + 1) * (s + 1) <= r * r) by (nonlinear_arith)
            requires
                s + 1 <= r,
        ;
    }
}

/// `sqrt_floor(n)` is the one number whose square is at most `n` while the
/// square of its successor is more than `n`.
pub proof fn lemma_sqrt_floor(n: nat, r: nat)
    ensures
        is_sqrt_floor(n, sqrt_floor(n)),
        is_sqrt_floor(n, r) ==> r == sqrt_floor(n),
{
    let w = lemma_sqrt_floor_exists(n);
    if is_sqrt_floor(n, r) {
        lemma_sqrt_floor_unique(n, r, sqrt_floor(n));
    }
}

/// The square root of a number is not more than the number.
pub proof fn lemma_sqrt_floor_at_most(n: nat)
    ensures
        sqrt_floor(n) <= n,
{
    lemma_sqrt_floor(n, 0);
    let r = sqrt_floor(n);
    assert(r <= r * r) by (nonlinear_arith);
}

/// Calls `IntegerSquareRoot::integer_sqrt_checked`, which sp-arithmetic
/// re-exports from integer-sqrt, on an unsigned 64-bit number. Unproved
/// claim: for an unsigned argument the call always returns a value, and
/// that value is the square root rounded down.
#[verifier::external_body]
fn integer_sqrt_checked(n: Balance) -> (root: Option<Balance>)
    ensures
        root is Some,
        is_sqrt_floor(n as nat, root.unwrap() as nat),
{
    IntegerSquareRoot::integer_sqrt_checked(&n)
}

/// The square root of `n`, rounded down.
pub fn integer_sqrt(n: Balance) -> (root: Balance)
    ensures
        root == sqrt_floor(n as nat),
        is_sqrt_floor(n as nat, root as nat),
{
    let root = integer_sqrt_checked(n).unwrap();
    proof {
        lemma_sqrt_floor(n as nat, root as nat);
    }
    root
}

} // verus!
