//! The execution controller: the state machine that drives a contract
//! invocation while interleaving breakpoint checks, step counting and
//! call-stack maintenance.
//!
//! The host's dispatch loop is an external collaborator.  The front end
//! starts an invocation with [`DebuggerEngine::begin_execute`], hands the
//! requested function to the host, and forwards every callback the host
//! makes — synchronously, in the order the host executes them — to
//! [`DebuggerEngine::on_function_entry`] and
//! [`DebuggerEngine::on_function_exit`].  When a handler answers
//! [`HostSignal::Suspend`], the host's dispatch is suspended and control
//! returns to the front end with the session paused; [`step`] and
//! [`continue_execution`] clear the pause so the front end can resume the
//! host from the exact point it was suspended at.  A host fault is reported
//! through [`on_host_fault`], which captures the stack for display and
//! moves the session to the terminal finished phase.
//!
//! One controller-visible step unit is one function call boundary (an
//! entry or an exit); a single-step command runs the host up to the next
//! such boundary and re-pauses there.  `step_count` counts single-step
//! commands, incremented by exactly one per [`step`] call.
//!
//! [`step`]: DebuggerEngine::step
//! [`continue_execution`]: DebuggerEngine::continue_execution
//! [`on_host_fault`]: DebuggerEngine::on_host_fault

use vstd::prelude::*;
use vstd::pervasive::unreached;
use crate::breakpoints::BreakpointRegistry;
use crate::stack::Frame;
use crate::state::ExecutionState;

verus! {

/// A usage error: the operation does not fit the session's current phase.
/// The session's state is left unchanged.
#[derive(Clone, Copy, Debug, PartialEq, Eq, Structural)]
pub enum EngineError {
    /// A new invocation was requested while one is still in flight.
    AlreadyRunning,
    /// A resume operation was requested while nothing is paused.
    NotPaused,
}

/// The controller's answer to a host callback: keep dispatching, or
/// suspend at this exact point and return control to the front end.
#[derive(Clone, Copy, Debug, PartialEq, Eq, Structural)]
pub enum HostSignal {
    Proceed,
    Suspend,
}

/// Phase of the debug session: no invocation in flight, one in flight
/// (running or paused), or terminally finished after a host fault.
#[derive(Clone, Copy, Debug, PartialEq, Eq, Structural)]
pub enum RunPhase {
    Idle,
    Running,
    Finished,
}

/// The execution controller.  It owns the execution state and the
/// breakpoint registry; a session supports exactly one in-flight
/// invocation at a time.
pub struct DebuggerEngine {
    state: ExecutionState,
    breakpoints: BreakpointRegistry,
    phase: RunPhase,
    single_step: bool,
}

impl DebuggerEngine {
    /// The inspectable execution state.
    pub closed spec fn spec_state(&self) -> ExecutionState {
        self.state
    }

    /// The breakpoint registry.
    pub closed spec fn spec_breakpoints(&self) -> BreakpointRegistry {
        self.breakpoints
    }

    /// The session phase.
    pub closed spec fn spec_phase(&self) -> RunPhase {
        self.phase
    }

    /// Whether the next call boundary must re-pause (a single-step command
    /// is in progress).
    pub closed spec fn spec_single_step(&self) -> bool {
        self.single_step
    }

    /// Session invariant, established by the constructor and preserved by
    /// every operation.
    pub open spec fn wf(&self) -> bool {
        &&& self.spec_state().wf()
        &&& self.spec_breakpoints().wf()
        &&& (self.spec_state().paused ==> self.spec_phase() is Running)
        &&& (self.spec_single_step() ==> self.spec_phase() is Running
            && !self.spec_state().paused)
        &&& (!(self.spec_phase() is Running) ==> self.spec_state().call_stack@.len() == 0)
    }

    /// A fresh session: idle, empty stack, no breakpoints, step counter at
    /// zero.
    pub fn new() -> (r: DebuggerEngine)
        ensures
            r.wf(),
            r.spec_phase() is Idle,
            !r.spec_state().paused,
            r.spec_state().step_count == 0,
            r.spec_state().call_stack@ =~= Seq::<Frame>::empty(),
            r.spec_breakpoints()@ =~= Set::<Seq<char>>::empty(),
    {
        DebuggerEngine {
            state: ExecutionState::new(),
            breakpoints: BreakpointRegistry::new(),
            phase: RunPhase::Idle,
            single_step: false,
        }
    }

    /// Begins a fresh invocation.  The requested function and its decoded
    /// arguments go to the host's dispatch; they reach this state machine
    /// through the entry callback the host then makes.  While an
    /// invocation is still in flight — in particular while the session is
    /// paused — this is a usage error and nothing changes.
    pub fn begin_execute(&mut self) -> (r: Result<(), EngineError>)
        requires
            old(self).wf(),
        ensures
            final(self).wf(),
            r is Err <==> old(self).spec_phase() is Running,
            r matches Err(e) ==> e is AlreadyRunning && *final(self) == *old(self),
            r is Ok ==> {
                &&& final(self).spec_phase() is Running
                &&& !final(self).spec_state().paused
                &&& !final(self).spec_single_step()
                &&& final(self).spec_state().call_stack@ =~= Seq::<Frame>::empty()
                &&& final(self).spec_state().step_count == old(self).spec_state().step_count
                &&& final(self).spec_state().current_function is None
                &&& final(self).spec_state().current_args is None
                &&& final(self).spec_breakpoints() == old(self).spec_breakpoints()
            },
    {
        match self.phase {
            RunPhase::Running => Err(EngineError::AlreadyRunning),
            _ => {
                self.phase = RunPhase::Running;
                self.state.paused = false;
                self.state.current_function = None;
                self.state.current_args = None;
                self.single_step = false;
                Ok(())
            },
        }
    }

    /// Entry callback: the host is about to run `function`'s body.  A
    /// frame is pushed and the current function and arguments are set; the
    /// host is told to suspend — before any instruction of the body has
    /// run — exactly when `function` has a breakpoint or a single-step
    /// command is in progress.
    pub fn on_function_entry(&mut self, function: String, args: String) -> (sig: HostSignal)
        requires
            old(self).wf(),
            old(self).spec_phase() is Running,
            !old(self).spec_state().paused,
        ensures
            final(self).wf(),
            final(self).spec_phase() is Running,
            final(self).spec_state().call_stack@ == old(self).spec_state().call_stack@.push(
                Frame { function: function, args: args },
            ),
            final(self).spec_state().current_function == Some(function),
            final(self).spec_state().current_args == Some(args),
            final(self).spec_state().step_count == old(self).spec_state().step_count,
            final(self).spec_breakpoints() == old(self).spec_breakpoints(),
            final(self).spec_state().paused <==> sig is Suspend,
            sig is Suspend <==> (old(self).spec_breakpoints()@.contains(function@) || old(
                self,
            ).spec_single_step()),
            !final(self).spec_single_step(),
    {
        let hit = self.breakpoints.contains(function.as_str());
        self.state.call_stack.push(Frame::new(function.clone(), args.clone()));
        self.state.current_function = Some(function);
        self.state.current_args = Some(args);
        if hit || self.single_step {
            self.single_step = false;
            self.state.paused = true;
            HostSignal::Suspend
        } else {
            HostSignal::Proceed
        }
    }

    /// Exit callback: the function whose frame is on top has returned.
    /// The frame is popped; when the outermost frame returns the
    /// invocation is complete and the session becomes idle, otherwise the
    /// current function reverts to the caller's frame and a single-step
    /// command in progress re-pauses here.
    pub fn on_function_exit(&mut self) -> (sig: HostSignal)
        requires
            old(self).wf(),
            old(self).spec_phase() is Running,
            !old(self).spec_state().paused,
            old(self).spec_state().call_stack@.len() > 0,
        ensures
            final(self).wf(),
            final(self).spec_state().call_stack@ == old(self).spec_state().call_stack@.drop_last(),
            final(self).spec_state().step_count == old(self).spec_state().step_count,
            final(self).spec_breakpoints() == old(self).spec_breakpoints(),
            old(self).spec_state().call_stack@.len() == 1 ==> {
                &&& final(self).spec_phase() is Idle
                &&& !final(self).spec_state().paused
                &&& sig is Proceed
                &&& final(self).spec_state().current_function is None
                &&& final(self).spec_state().current_args is None
                &&& !final(self).spec_single_step()
            },
            old(self).spec_state().call_stack@.len() > 1 ==> {
                &&& final(self).spec_phase() is Running
                &&& (final(self).spec_state().current_function matches Some(f) && f@ == old(
                    self,
                ).spec_state().call_stack@[old(self).spec_state().call_stack@.len() - 2].function@)
                &&& (final(self).spec_state().current_args matches Some(a) && a@ == old(
                    self,
                ).spec_state().call_stack@[old(self).spec_state().call_stack@.len() - 2].args@)
                &&& (final(self).spec_state().paused <==> sig is Suspend)
                &&& (sig is Suspend <==> old(self).spec_single_step())
                &&& !final(self).spec_single_step()
            },
    {
        let _popped = self.state.call_stack.pop();
        if self.state.call_stack.depth() == 0 {
            self.phase = RunPhase::Idle;
            self.state.paused = false;
            self.single_step = false;
            self.state.current_function = None;
            self.state.current_args = None;
            HostSignal::Proceed
        } else {
            let (f, a) = match self.state.call_stack.top() {
                Some(frame) => (frame.function.clone(), frame.args.clone()),
                None => unreached(),
            };
            self.state.current_function = Some(f);
            self.state.current_args = Some(a);
            if self.single_step {
                self.single_step = false;
                self.state.paused = true;
                HostSignal::Suspend
            } else {
                HostSignal::Proceed
            }
        }
    }

    /// Fault callback: the host reported an execution fault.  The call
    /// stack at the moment of failure is handed back for display; the
    /// session transitions to the terminal finished phase, not paused and
    /// not resumable, with the stack at depth zero.
    pub fn on_host_fault(&mut self) -> (trace: Vec<Frame>)
        requires
            old(self).wf(),
            old(self).spec_phase() is Running,
        ensures
            final(self).wf(),
            trace@ == old(self).spec_state().call_stack@,
            final(self).spec_phase() is Finished,
            !final(self).spec_state().paused,
            final(self).spec_state().call_stack@ =~= Seq::<Frame>::empty(),
            final(self).spec_state().current_function is None,
            final(self).spec_state().current_args is None,
            final(self).spec_state().step_count == old(self).spec_state().step_count,
            final(self).spec_breakpoints() == old(self).spec_breakpoints(),
            !final(self).spec_single_step(),
    {
        let trace = self.state.call_stack.snapshot();
        self.state.call_stack.clear();
        self.state.paused = false;
        self.state.current_function = None;
        self.state.current_args = None;
        self.single_step = false;
        self.phase = RunPhase::Finished;
        trace
    }

    /// Advances execution by exactly one call boundary.  Requires a paused
    /// session (else `NotPaused`, nothing changed); increments
    /// `step_count` by exactly one per call, clears the pause and asks the
    /// front end to resume the host, whose next boundary callback
    /// re-pauses — or completes the invocation.
    pub fn step(&mut self) -> (r: Result<(), EngineError>)
        requires
            old(self).wf(),
            old(self).spec_state().paused ==> old(self).spec_state().step_count < u64::MAX,
        ensures
            final(self).wf(),
            r is Ok <==> old(self).spec_state().paused,
            r matches Err(e) ==> e is NotPaused && *final(self) == *old(self),
            r is Ok ==> {
                &&& final(self).spec_state().step_count == old(self).spec_state().step_count + 1
                &&& !final(self).spec_state().paused
                &&& final(self).spec_single_step()
                &&& final(self).spec_phase() is Running
                &&& final(self).spec_state().call_stack@ == old(self).spec_state().call_stack@
                &&& final(self).spec_state().current_function == old(
                    self,
                ).spec_state().current_function
                &&& final(self).spec_state().current_args == old(self).spec_state().current_args
                &&& final(self).spec_breakpoints() == old(self).spec_breakpoints()
            },
    {
        if !self.state.paused {
            return Err(EngineError::NotPaused);
        }
        self.state.step_count = self.state.step_count + 1;
        self.state.paused = false;
        self.single_step = true;
        Ok(())
    }

    /// Resumes running until the next breakpoint match re-pauses, the
    /// invocation completes, or the host faults.  Requires a paused
    /// session (else `NotPaused`, nothing changed); the outcome is decided
    /// by the entry, exit and fault callbacks, each of which leaves the
    /// session consistent again.
    pub fn continue_execution(&mut self) -> (r: Result<(), EngineError>)
        requires
            old(self).wf(),
        ensures
            final(self).wf(),
            r is Ok <==> old(self).spec_state().paused,
            r matches Err(e) ==> e is NotPaused && *final(self) == *old(self),
            r is Ok ==> {
                &&& !final(self).spec_state().paused
                &&& !final(self).spec_single_step()
                &&& final(self).spec_phase() is Running
                &&& final(self).spec_state().step_count == old(self).spec_state().step_count
                &&& final(self).spec_state().call_stack@ == old(self).spec_state().call_stack@
                &&& final(self).spec_state().current_function == old(
                    self,
                ).spec_state().current_function
                &&& final(self).spec_state().current_args == old(self).spec_state().current_args
                &&& final(self).spec_breakpoints() == old(self).spec_breakpoints()
            },
    {
        if !self.state.paused {
            return Err(EngineError::NotPaused);
        }
        self.state.paused = false;
        self.single_step = false;
        Ok(())
    }

    /// The session phase.
    pub fn phase(&self) -> (r: RunPhase)
        ensures
            r == self.spec_phase(),
    {
        self.phase
    }

    /// Non-blocking read of the pause flag.
    pub fn is_paused(&self) -> (r: bool)
        ensures
            r == self.spec_state().paused,
    {
        self.state.is_paused()
    }

    /// Read-only access to the execution state for inspection.
    pub fn state(&self) -> (r: &ExecutionState)
        ensures
            *r == self.spec_state(),
    {
        &self.state
    }

    /// The breakpoint registry, for add, remove and list commands.
    pub fn breakpoints_mut(&mut self) -> (r: &mut BreakpointRegistry)
        ensures
            *r == old(self).spec_breakpoints(),
            final(self).spec_breakpoints() == *final(r),
            final(self).spec_state() == old(self).spec_state(),
            final(self).spec_phase() == old(self).spec_phase(),
            final(self).spec_single_step() == old(self).spec_single_step(),
            old(self).wf() && (*final(r)).wf() ==> final(self).wf(),
    {
        &mut self.breakpoints
    }
}

/// One callback of the host's dispatch, as the front end forwards them in
/// the order the host executes them.
pub enum HostEvent {
    /// The host is about to run a function's body.
    Enter { function: String, args: String },
    /// The function whose frame is on top has returned.
    Exit,
    /// The host reported an execution fault.
    Fault,
}

/// The call stack left by a stretch of host callbacks: an entry pushes
/// its frame, an exit pops the top frame (and on an empty stack changes
/// nothing, the case [`DebuggerEngine::drive`] refuses), a fault clears
/// the stack.
pub open spec fn stack_after_callbacks(s: Seq<Frame>, evs: Seq<HostEvent>) -> Seq<Frame>
    decreases evs.len(),
{
    if evs.len() == 0 {
        s
    } else {
        let prev = stack_after_callbacks(s, evs.drop_last());
        match evs.last() {
            HostEvent::Enter { function, args } => prev.push(Frame { function, args }),
            HostEvent::Exit => if prev.len() == 0 {
                prev
            } else {
                prev.drop_last()
            },
            HostEvent::Fault => Seq::<Frame>::empty(),
        }
    }
}

/// Where delivering a stretch of host callbacks stopped.
pub enum DriveOutcome {
    /// A handler asked to suspend: the session is paused.
    Suspended,
    /// The outermost frame returned: the invocation is complete.
    Completed,
    /// The host faulted; the call stack at the moment of failure is
    /// carried for display.
    Faulted(Vec<Frame>),
    /// Every event was delivered and the invocation is still running.
    OutOfEvents,
    /// The host reported an exit with no frame on the stack: its
    /// entry/exit pairing contract is broken, and nothing was changed by
    /// the offending event.
    ProtocolViolation,
}

impl DebuggerEngine {
    /// Delivers `events[start..]` to the handlers in order, stopping at
    /// the first suspension, completion or fault; the second component of
    /// the result is the position of the first event not delivered, from
    /// which dispatch resumes after a pause.  This is the running half of
    /// `execute`, `step` and `continue_execution`: the front end obtains
    /// the callbacks from the host and hands them over unchanged.
    pub fn drive(&mut self, events: &Vec<HostEvent>, start: usize) -> (r: (DriveOutcome, usize))
        requires
            old(self).wf(),
            old(self).spec_phase() is Running,
            !old(self).spec_state().paused,
            start <= events@.len(),
        ensures
            final(self).wf(),
            start <= r.1 <= events@.len(),
            final(self).spec_breakpoints() == old(self).spec_breakpoints(),
            final(self).spec_state().step_count == old(self).spec_state().step_count,
            final(self).spec_state().call_stack@ == stack_after_callbacks(
                old(self).spec_state().call_stack@,
                events@.subrange(start as int, r.1 as int),
            ),
            r.0 is Suspended ==> final(self).spec_state().paused && final(self).spec_phase()
                is Running,
            r.0 is Completed ==> final(self).spec_phase() is Idle
                && !final(self).spec_state().paused
                && final(self).spec_state().call_stack@.len() == 0,
            r.0 matches DriveOutcome::Faulted(t) ==> final(self).spec_phase() is Finished
                && !final(self).spec_state().paused
                && final(self).spec_state().call_stack@.len() == 0,
            r.0 is OutOfEvents ==> r.1 == events@.len() && final(self).spec_phase() is Running
                && !final(self).spec_state().paused,
            r.0 is Suspended ==> start < r.1 && (events@[r.1 - 1] is Enter || events@[r.1 - 1]
                is Exit),
            r.0 is Completed ==> start < r.1 && events@[r.1 - 1] is Exit,
            r.0 matches DriveOutcome::Faulted(t) ==> start < r.1 && events@[r.1 - 1] is Fault
                && t@ == stack_after_callbacks(
                old(self).spec_state().call_stack@,
                events@.subrange(start as int, r.1 - 1),
            ),
            r.0 is ProtocolViolation ==> final(self).spec_phase() is Running
                && !final(self).spec_state().paused && r.1 < events@.len() && events@[r.1 as int]
                is Exit && final(self).spec_state().call_stack@.len() == 0,
    {
        let mut i: usize = start;
        proof {
            assert(events@.subrange(start as int, start as int) =~= Seq::<HostEvent>::empty());
        }
        while i < events.len()
            invariant
                self.wf(),
                self.spec_phase() is Running,
                !self.spec_state().paused,
                start <= i <= events@.len(),
                self.spec_breakpoints() == old(self).spec_breakpoints(),
                self.spec_state().step_count == old(self).spec_state().step_count,
                self.spec_state().call_stack@ == stack_after_callbacks(
                    old(self).spec_state().call_stack@,
                    events@.subrange(start as int, i as int),
                ),
            decreases events@.len() - i,
        {
            proof {
                assert(events@.subrange(start as int, i + 1).drop_last() =~= events@.subrange(
                    start as int,
                    i as int,
                ));
                assert(events@.subrange(start as int, i + 1).last() == events@[i as int]);
            }
            match &events[i] {
                HostEvent::Enter { function, args } => {
                    let sig = self.on_function_entry(function.clone(), args.clone());
                    if let HostSignal::Suspend = sig {
                        return (DriveOutcome::Suspended, i + 1);
                    }
                },
                HostEvent::Exit => {
                    if self.state.call_stack.depth() == 0 {
                        return (DriveOutcome::ProtocolViolation, i);
                    }
                    let sig = self.on_function_exit();
                    if let RunPhase::Idle = self.phase() {
                        return (DriveOutcome::Completed, i + 1);
                    }
                    if let HostSignal::Suspend = sig {
                        return (DriveOutcome::Suspended, i + 1);
                    }
                },
                HostEvent::Fault => {
                    let trace = self.on_host_fault();
                    return (DriveOutcome::Faulted(trace), i + 1);
                },
            }
            i = i + 1;
        }
        (DriveOutcome::OutOfEvents, i)
    }
}

/// A paused session is never inconsistent: whenever the invariant holds
/// and the pause flag is set, the stack is non-empty and the exposed
/// current function is the top frame's.
pub proof fn lemma_pause_is_consistent(e: DebuggerEngine)
    requires
        e.wf(),
        e.spec_state().paused,
    ensures
        e.spec_state().call_stack@.len() > 0,
        e.spec_state().current_function matches Some(f) && f@
            == e.spec_state().call_stack@.last().function@,
{
}

} // verus!
