//! The plain number types that the pool works on.

use vstd::prelude::*;

verus! {

/// Balance of an asset, and every quantity derived from balances: reserves,
/// shares, fees, the constant product and the price accumulators.
pub type Balance = u64;

/// A point in time, as the host's clock counts it.
pub type Moment = u64;

/// Identity of a share owner or of a treasury. It is only ever compared.
pub type AccountId = u64;

/// Identity of a parachain.
pub type ParaId = u32;

/// Identity of an asset.
pub type AssetId = u64;

} // verus!
