//! Native functions: host code that scripts call through the stack.
use vstd::prelude::*;
use crate::abi::JSTAR_MIN_NATIVE_STACK_SZ;
use crate::error::Result;

verus! {

/// The minimum size of the stack, in slots, when a native function is
/// entered.
///
/// A native function that needs more slots than this has to make room
/// before it pushes them.
pub const MIN_NATIVE_STACK_SZ: usize = JSTAR_MIN_NATIVE_STACK_SZ;

/// The status that a native function reports to the runtime: `true` when
/// its body succeeded, `false` when it failed, in which case the exception
/// that the failure left on the stack is raised in the calling script.
pub fn native_status(outcome: Result<()>) -> (ok: bool)
    ensures
        ok == (outcome is Ok),
{
    match outcome {
        Err(_) => false,
        Ok(_) => true,
    }
}

} // verus!
