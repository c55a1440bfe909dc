//! The error kinds reported by the pool engine and its guards.

use vstd::prelude::*;

verus! {

/// Everything that can go wrong in an operation of this library.
#[derive(Clone, Copy, Debug, PartialEq, Eq, Structural)]
pub enum Error {
    /// An addition or a multiplication left the range of the balance type.
    OverflowOccured,
    /// A subtraction would have gone below zero.
    UnderflowOccured,
    /// A division, or a multiplication followed by a division or a square
    /// root, could not be computed.
    UnderflowOrOverflowOccured,
    /// The pool cannot be launched: its invariant is not zero.
    InvariantNotNull,
    /// The pool cannot be launched: shares are still issued.
    TotalSharesNotNull,
    /// The requested output is more than the pool holds.
    InsufficientPool,
    /// The output is below the minimum that the caller accepts.
    SecondAssetAmountBelowExpectation,
    /// The number of shares to burn is zero.
    InvalidShares,
    /// The owner holds fewer shares than are to be burned.
    InsufficientShares,
    /// The owner has no entry in the pool's share table.
    DoesNotOwnShare,
    /// A transferred amount must be greater than zero.
    AmountShouldBeGreaterThanZero,
    /// No asset is registered under the given parachain asset id.
    AssetIdDoesNotExist,
}

} // verus!
