//! Common types shared by the runtime modules: blocks, extrinsics, and the
//! dispatch capability that routes a call to the module implementing it.

use vstd::prelude::*;

verus! {

/// The uniform result of dispatching a call: `Ok` when the state transition
/// completed, otherwise a short static description of what went wrong.
pub type DispatchResult = Result<(), &'static str>;

/// The most primitive representation of a block: a header with metadata,
/// and the state transitions to be executed in this block, in order.
pub struct Block<Header, Extrinsic> {
    /// The block header contains metadata about the block.
    pub header: Header,
    /// The extrinsics represent the state transitions to be executed.
    pub extrinsics: Vec<Extrinsic>,
}

/// An extremely simplified header which only contains the claimed block
/// number.
pub struct Header<BlockNumber> {
    pub block_number: BlockNumber,
}

/// An "extrinsic": an external message from outside of the blockchain,
/// telling us who is making the call and which call they are making.
pub struct Extrinsic<Caller, Call> {
    pub caller: Caller,
    pub call: Call,
}

/// The capability to dispatch an incoming extrinsic to the appropriate
/// state transition function.
pub trait Dispatch: Sized {
    /// The type used to identify the caller of the function.
    type Caller;

    /// The state transition function call the caller is trying to access.
    type Call;

    /// What a completed dispatch guarantees: how the state after the call
    /// (`post`) relates to the state before it, and what the returned
    /// result means. Each implementor states this exactly, so routing adds
    /// nothing of its own to the handler's contract.
    spec fn dispatch_ens(self, post: Self, caller: Self::Caller, call: Self::Call, r: DispatchResult) -> bool;

    /// Route `call` to the one handler its tag names, executing it on
    /// behalf of `caller`, and return exactly what the handler returned.
    fn dispatch(&mut self, caller: Self::Caller, call: Self::Call) -> (r: DispatchResult)
        ensures
            old(self).dispatch_ens(*final(self), caller, call, r),
    ;
}

} // verus!
