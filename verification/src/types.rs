//! The concrete types the composed runtime instantiates the modules with.
use vstd::prelude::*;

verus! {

/// Identifies a principal; used as a map key everywhere.
pub type AccountId = String;

/// A non-negative integral quantity, owned exclusively by the ledger module.
pub type Balance = u128;

/// A per-account monotonically increasing replay counter.
pub type Nonce = u32;

/// The strictly increasing height counter, advanced once per executed block.
pub type BlockNumber = u32;

/// Identifies a piece of claimable content.
pub type Content = String;

/// An operation paired with the account originating it.
pub type Extrinsic = crate::support::Extrinsic<AccountId, crate::RuntimeCall>;

/// The header of a submitted block.
pub type Header = crate::support::Header<BlockNumber>;

/// A height plus the ordered extrinsics to execute at it.
pub type Block = crate::support::Block<Header, Extrinsic>;

} // verus!
