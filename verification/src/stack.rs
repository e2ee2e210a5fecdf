//! The ordered sequence of active call frames.
//!
//! A frame is pushed when the host reports entry into a contract function
//! and popped when the host reports its exit; frames form a strict stack,
//! so only the top frame can ever be removed.  The depth after any
//! well-nested sequence of pushes and pops equals pushes minus pops and is
//! never negative; [`lemma_depth_is_pushes_minus_pops`] states that law
//! over the same sequence model the tracker's own contracts use.

use vstd::prelude::*;

verus! {

/// One active function invocation: its name and an opaque summary of its
/// arguments, as the host reported them on entry.
pub struct Frame {
    pub function: String,
    pub args: String,
}

impl Frame {
    /// A frame with the given name and argument summary.
    pub fn new(function: String, args: String) -> (r: Frame)
        ensures
            r.function == function,
            r.args == args,
    {
        Frame { function, args }
    }

    /// A copy of this frame.
    pub fn duplicate(&self) -> (r: Frame)
        ensures
            r == *self,
    {
        Frame { function: self.function.clone(), args: self.args.clone() }
    }
}

/// The active call frames, outermost first; the last element is the top.
pub struct CallStackTracker {
    frames: Vec<Frame>,
}

impl View for CallStackTracker {
    type V = Seq<Frame>;

    closed spec fn view(&self) -> Seq<Frame> {
        self.frames@
    }
}

impl CallStackTracker {
    /// An empty stack.
    pub fn new() -> (r: CallStackTracker)
        ensures
            r@ =~= Seq::<Frame>::empty(),
    {
        CallStackTracker { frames: Vec::new() }
    }

    /// Pushes a frame on entry into a function.
    pub fn push(&mut self, frame: Frame)
        ensures
            final(self)@ == old(self)@.push(frame),
            final(self)@.len() == old(self)@.len() + 1,
    {
        self.frames.push(frame);
    }

    /// Pops the top frame on exit from a function; on an empty stack
    /// nothing changes and `None` is returned.
    pub fn pop(&mut self) -> (r: Option<Frame>)
        ensures
            old(self)@.len() == 0 ==> r is None && final(self)@ == old(self)@,
            old(self)@.len() > 0 ==> r == Some(old(self)@.last()) && final(self)@ == old(
                self,
            )@.drop_last(),
    {
        self.frames.pop()
    }

    /// The top (innermost) frame, if any.
    pub fn top(&self) -> (r: Option<&Frame>)
        ensures
            r is Some <==> self@.len() > 0,
            r matches Some(f) ==> *f == self@.last(),
    {
        if self.frames.len() == 0 {
            None
        } else {
            Some(&self.frames[self.frames.len() - 1])
        }
    }

    /// The number of active frames.
    pub fn depth(&self) -> (r: usize)
        ensures
            r == self@.len(),
    {
        self.frames.len()
    }

    /// The frames in order, outermost first.
    pub fn get_stack(&self) -> (r: &Vec<Frame>)
        ensures
            r@ == self@,
    {
        &self.frames
    }

    /// A copy of the frames, e.g. to annotate a fault report.
    pub fn snapshot(&self) -> (r: Vec<Frame>)
        ensures
            r@ == self@,
    {
        let mut out: Vec<Frame> = Vec::new();
        let mut i: usize = 0;
        while i < self.frames.len()
            invariant
                i <= self.frames@.len(),
                out@ == self.frames@.subrange(0, i as int),
            decreases self.frames@.len() - i,
        {
            out.push(self.frames[i].duplicate());
            proof {
                assert(out@ =~= self.frames@.subrange(0, i + 1));
            }
            i = i + 1;
        }
        proof {
            assert(out@ =~= self.frames@);
        }
        out
    }

    /// Removes every frame, e.g. when a session is torn down after a fault.
    pub fn clear(&mut self)
        ensures
            final(self)@ =~= Seq::<Frame>::empty(),
    {
        self.frames = Vec::new();
    }
}

/// One stack operation, as driven by the host's entry and exit callbacks.
pub enum StackOp {
    Push(Frame),
    Pop,
}

/// The number of pushes in a sequence of operations.
pub open spec fn pushes(ops: Seq<StackOp>) -> int
    decreases ops.len(),
{
    if ops.len() == 0 {
        0
    } else {
        pushes(ops.drop_last()) + if ops.last() is Push {
            1int
        } else {
            0int
        }
    }
}

/// The number of pops in a sequence of operations.
pub open spec fn pops(ops: Seq<StackOp>) -> int
    decreases ops.len(),
{
    if ops.len() == 0 {
        0
    } else {
        pops(ops.drop_last()) + if ops.last() is Pop {
            1int
        } else {
            0int
        }
    }
}

/// The stack left by applying the operations in order to an empty stack,
/// exactly as `push` and `pop` transform the tracker's view.
pub open spec fn stack_after(ops: Seq<StackOp>) -> Seq<Frame>
    decreases ops.len(),
{
    if ops.len() == 0 {
        Seq::<Frame>::empty()
    } else {
        let prev = stack_after(ops.drop_last());
        match ops.last() {
            StackOp::Push(f) => prev.push(f),
            StackOp::Pop => prev.drop_last(),
        }
    }
}

/// A sequence of operations matches the host's entry/exit callback order
/// when no prefix pops more than it has pushed.
pub open spec fn well_nested(ops: Seq<StackOp>) -> bool {
    forall|k: int| 0 <= k <= ops.len() ==> pops(#[trigger] ops.take(k)) <= pushes(ops.take(k))
}

/// After any well-nested sequence of pushes and pops the depth equals
/// pushes minus pops, and is never negative.
pub proof fn lemma_depth_is_pushes_minus_pops(ops: Seq<StackOp>)
    requires
        well_nested(ops),
    ensures
        stack_after(ops).len() == pushes(ops) - pops(ops),
        pushes(ops) - pops(ops) >= 0,
    decreases ops.len(),
{
    assert(ops.take(ops.len() as int) =~= ops);
    if ops.len() > 0 {
        let dl = ops.drop_last();
        assert forall|k: int| 0 <= k <= dl.len() implies pops(#[trigger] dl.take(k)) <= pushes(
            dl.take(k),
        ) by {
            assert(dl.take(k) =~= ops.take(k));
        }
        lemma_depth_is_pushes_minus_pops(dl);
        assert(dl.take(dl.len() as int) =~= dl);
    }
}

} // verus!
