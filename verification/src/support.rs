//! Shared plumbing: the block and extrinsic containers, the result type of a
//! dispatched operation, and the capability contract a routable module meets.
use vstd::prelude::*;

verus! {

/// A block: a header naming the height it claims, plus the ordered list of
/// extrinsics to apply at that height.
pub struct Block<Header, Extrinsic> {
    /// Metadata about the block; here, only the claimed height.
    pub header: Header,
    /// The state transitions to execute, strictly in this order.
    pub extrinsics: Vec<Extrinsic>,
}

/// Block metadata: the height the block claims to advance the chain to.
pub struct Header<BlockNumber> {
    pub block_number: BlockNumber,
}

/// An externally supplied operation paired with the account that originates it.
pub struct Extrinsic<Caller, Call> {
    pub caller: Caller,
    pub call: Call,
}

/// The reasons an individual operation can fail. Each leaves the state
/// of the owning module unchanged.
#[derive(Clone, Copy, Debug, PartialEq, Eq, Structural)]
pub enum DispatchError {
    /// A transfer asked for more than the caller holds.
    InsufficientFunds,
    /// A transfer would push the recipient past the balance type's range.
    Overflow,
    /// The content is already claimed by some owner.
    AlreadyClaimed,
    /// No claim is recorded for the content.
    ClaimNotFound,
    /// The recorded owner of the claim differs from the caller.
    NotOwner,
}

impl DispatchError {
    /// The reason as text, one fixed message per variant.
    pub open spec fn spec_message(self) -> Seq<char> {
        match self {
            DispatchError::InsufficientFunds => "Not enough funds."@,
            DispatchError::Overflow => "Overflow occured"@,
            DispatchError::AlreadyClaimed => "this content is already claimed"@,
            DispatchError::ClaimNotFound => "claim does not exist"@,
            DispatchError::NotOwner => "this content is owned by someone else"@,
        }
    }

    /// A short human-readable reason, for reporting at the boundary.
    pub fn message(&self) -> (result: &'static str)
        ensures
            result@ == self.spec_message(),
    {
        match self {
            DispatchError::InsufficientFunds => "Not enough funds.",
            DispatchError::Overflow => "Overflow occured",
            DispatchError::AlreadyClaimed => "this content is already claimed",
            DispatchError::ClaimNotFound => "claim does not exist",
            DispatchError::NotOwner => "this content is owned by someone else",
        }
    }
}

/// The one block-level failure: the submitted header names a height other
/// than the one the chain is advancing to. It aborts the whole block.
#[derive(Clone, Copy, Debug, PartialEq, Eq, Structural)]
pub enum BlockError {
    BlockNumberMismatch,
}

/// The outcome of one dispatched operation.
pub type DispatchResult = Result<(), DispatchError>;

/// One failed extrinsic, reported at the block boundary: the height and the
/// position at which it ran, and the reason its owning module refused it.
#[derive(Clone, Copy, Debug, PartialEq, Eq, Structural)]
pub struct ExtrinsicFailure {
    /// The height of the block the extrinsic ran in.
    pub block_number: u32,
    /// The extrinsic's position in that block, counted from zero.
    pub extrinsic_index: usize,
    /// The reason the owning module refused it.
    pub error: DispatchError,
}

/// The capability contract of a routable module: anything that can receive a
/// (caller, operation) pair and apply it, reporting success or a reason for
/// failure, can be driven by the runtime.
pub trait Dispatch {
    /// The type identifying the originator of an operation.
    type Caller;
    /// The closed set of operations this component routes.
    type Call;

    fn dispatch(&mut self, caller: Self::Caller, call: Self::Call) -> DispatchResult;
}

} // verus!
