//! The shared record a debug session exposes for inspection.
//!
//! The record is owned by the engine and mutated only from within the
//! engine's own operations, which run synchronously inside the command the
//! front end is blocked on; a reader therefore always sees a consistent
//! snapshot and no lock is needed.

use vstd::prelude::*;
use crate::stack::CallStackTracker;

verus! {

/// Snapshot of an in-flight invocation: pause flag, step counter, the
/// function and argument summary the host reported last, and the call
/// stack.
pub struct ExecutionState {
    pub paused: bool,
    pub step_count: u64,
    pub current_function: Option<String>,
    pub current_args: Option<String>,
    pub call_stack: CallStackTracker,
}

impl ExecutionState {
    /// A paused session always exposes the function it is paused in: the
    /// pause flag set means the stack is non-empty and the current function
    /// is the top frame's.
    pub open spec fn wf(&self) -> bool {
        self.paused ==> {
            &&& self.call_stack@.len() > 0
            &&& match self.current_function {
                Some(f) => f@ == self.call_stack@.last().function@,
                None => false,
            }
        }
    }

    /// A fresh, not paused, empty-stack state with the step counter at
    /// zero.
    pub fn new() -> (r: ExecutionState)
        ensures
            r.wf(),
            !r.paused,
            r.step_count == 0,
            r.current_function is None,
            r.current_args is None,
            r.call_stack@ =~= Seq::<crate::stack::Frame>::empty(),
    {
        ExecutionState {
            paused: false,
            step_count: 0,
            current_function: None,
            current_args: None,
            call_stack: CallStackTracker::new(),
        }
    }

    /// Non-blocking read of the pause flag.
    pub fn is_paused(&self) -> (r: bool)
        ensures
            r == self.paused,
    {
        self.paused
    }

    /// The number of completed single-step commands this session.
    pub fn steps(&self) -> (r: u64)
        ensures
            r == self.step_count,
    {
        self.step_count
    }
}

} // verus!
