//! The invocation context handed to every entry point.
use vstd::prelude::*;
use crate::address::ProgramId;

verus! {

/// What the host supplies besides the call's arguments: the identifier of the
/// program being executed and the accounts the call may touch.
pub struct Context<T> {
    /// Identifier of the currently executing program.
    pub program_id: ProgramId,
    /// The validated accounts of this entry point.
    pub accounts: T,
}

impl<T> Context<T> {
    /// Builds the context of one invocation.
    pub fn new(program_id: ProgramId, accounts: T) -> (ctx: Context<T>)
        ensures
            ctx.program_id == program_id,
            ctx.accounts == accounts,
    {
        Context { program_id, accounts }
    }
}

} // verus!
