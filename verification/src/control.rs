//! The control stack: one frame per active block, loop, if-arm or call, each
//! holding its block type, its body, a base pointer into the operand stack
//! and a program counter.

use vstd::prelude::*;

use crate::instruction::Expr;
use crate::module::FuncType;

verus! {

/// The kind of construct a control frame belongs to.
#[derive(Clone, Copy, PartialEq, Eq, Structural, Debug)]
pub enum FrameKind {
    Block,
    Loop,
    If,
    Call,
}

/// One active frame: its kind, block type, body, operand-stack base pointer
/// and program counter.
pub struct ControlFrame {
    pub opcode: FrameKind,
    pub block_type: FuncType,
    pub instrs: Expr,
    pub bp: usize,
    pub pc: usize,
}

impl ControlFrame {
    /// A frame at the start of its body.
    pub fn new(opcode: FrameKind, block_type: FuncType, instrs: Expr, bp: usize) -> (r:
        ControlFrame)
        ensures
            r.opcode == opcode,
            r.block_type == block_type,
            r.instrs@ == instrs@,
            r.bp == bp,
            r.pc == 0,
    {
        ControlFrame { opcode, block_type, instrs, bp, pc: 0 }
    }
}

/// The index of the topmost frame of kind `Call`, if any.
pub open spec fn spec_top_call(frames: Seq<ControlFrame>) -> Option<int>
    decreases frames.len(),
{
    if frames.len() == 0 {
        Option::None
    } else if frames.last().opcode == FrameKind::Call {
        Option::Some(frames.len() - 1)
    } else {
        spec_top_call(frames.drop_last())
    }
}

/// Facts about `spec_top_call`: the index it yields is a call frame above
/// which no other call frame stands, and it yields nothing only when no call
/// frame is active.
pub proof fn lemma_top_call(frames: Seq<ControlFrame>)
    ensures
        match spec_top_call(frames) {
            Option::Some(i) => 0 <= i < frames.len() && frames[i].opcode == FrameKind::Call
                && forall|j: int| i < j < frames.len() ==> frames[j].opcode != FrameKind::Call,
            Option::None => forall|j: int|
                0 <= j < frames.len() ==> frames[j].opcode != FrameKind::Call,
        },
    decreases frames.len(),
{
    if frames.len() > 0 && frames.last().opcode != FrameKind::Call {
        lemma_top_call(frames.drop_last());
        assert(forall|j: int|
            0 <= j < frames.len() - 1 ==> frames[j] == frames.drop_last()[j]);
    }
}

/// The stack of active control frames; the bottom frame is the outermost
/// active call.
pub struct ControlStack {
    pub frames: Vec<ControlFrame>,
}

impl ControlStack {
    /// An empty control stack.
    pub fn new() -> (r: ControlStack)
        ensures
            r.frames@ == Seq::<ControlFrame>::empty(),
    {
        ControlStack { frames: Vec::new() }
    }

    /// Push a frame.
    pub fn push_control_frame(&mut self, cf: ControlFrame)
        ensures
            final(self).frames@ == old(self).frames@.push(cf),
    {
        self.frames.push(cf);
    }

    /// Pop the top frame.
    pub fn pop_control_frame(&mut self) -> (r: ControlFrame)
        requires
            old(self).frames@.len() > 0,
        ensures
            r == old(self).frames@.last(),
            final(self).frames@ == old(self).frames@.drop_last(),
    {
        self.frames.pop().unwrap()
    }

    /// Discard all frames above the first `len`.
    pub fn truncate_frames(&mut self, len: usize)
        requires
            len <= old(self).frames@.len(),
        ensures
            final(self).frames@ == old(self).frames@.take(len as int),
    {
        self.frames.truncate(len);
    }

    /// Number of active frames.
    pub fn control_depth(&self) -> (r: usize)
        ensures
            r == self.frames@.len(),
    {
        self.frames.len()
    }

    /// Mutable access to the top frame.
    pub fn top_control_frame(&mut self) -> (r: &mut ControlFrame)
        requires
            old(self).frames@.len() > 0,
        ensures
            *r == old(self).frames@.last(),
            final(self).frames@ == old(self).frames@.update(
                old(self).frames@.len() - 1,
                *final(r),
            ),
    {
        let idx = self.frames.len() - 1;
        vstd::std_specs::vec::vec_index_mut(&mut self.frames, idx)
    }

    /// Shared access to the top frame.
    pub fn top_frame_ref(&self) -> (r: &ControlFrame)
        requires
            self.frames@.len() > 0,
        ensures
            *r == self.frames@.last(),
    {
        &self.frames[self.frames.len() - 1]
    }

    /// The topmost call frame, scanned from the top down, together with its
    /// distance from the top; yields no frame, and distance `usize::MAX`,
    /// when no call frame is active.
    pub fn top_call_frame(&self) -> (r: (Option<&ControlFrame>, usize))
        ensures
            match spec_top_call(self.frames@) {
                Option::Some(i) => r.0 matches Some(cf) && *cf == self.frames@[i] && r.1
                    == self.frames@.len() - 1 - i,
                Option::None => r.0 is None && r.1 == usize::MAX,
            },
    {
        proof {
            lemma_top_call(self.frames@);
        }
        let mut k: usize = self.frames.len();
        while k > 0
            invariant
                k <= self.frames@.len(),
                forall|j: int| k <= j < self.frames@.len() ==> self.frames@[j].opcode
                    != FrameKind::Call,
            decreases k,
        {
            k -= 1;
            if matches!(self.frames[k].opcode, FrameKind::Call) {
                proof {
                    lemma_top_call(self.frames@);
                }
                return (Option::Some(&self.frames[k]), self.frames.len() - 1 - k);
            }
        }
        (Option::None, usize::MAX)
    }
}

} // verus!
