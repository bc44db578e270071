//! The execution engine: engine state, frame discipline, branching, function
//! calls, the host-call bridge and the main interpreter loop.
//!
//! Float arithmetic is delegated to a host-supplied float unit, a function
//! from an operation tag and two operand bit patterns to a result bit
//! pattern; the engine states how the stack changes whatever value the unit
//! returns.

use vstd::prelude::*;

use crate::control::{lemma_top_call, spec_top_call, ControlFrame, ControlStack, FrameKind};
use crate::error::{Fault, Trap};
use crate::globals::GlobalVar;
use crate::instruction::{Expr, Instruction};
use crate::memory::Memory;
use crate::module::{
    spec_local_count, Data, Elem, FuncType, Global, Import, ImportDesc, Limits, Locals, Module,
    ValType,
};
use crate::rc_clone;
use crate::stack::OperandStack;
use crate::table::{HostFunc, Table, VMFunc};
use crate::vm_mem::{
    spec_f32_load_result, spec_f32_store_result, spec_f64_load_result, spec_f64_store_result,
    spec_global_get_result, spec_global_set_result, spec_i32_load_16s_result,
    spec_i32_load_16u_result, spec_i32_load_8s_result, spec_i32_load_8u_result,
    spec_i32_load_result, spec_i32_store_16_result, spec_i32_store_8_result,
    spec_i32_store_result, spec_i64_load_16s_result, spec_i64_load_16u_result,
    spec_i64_load_32s_result, spec_i64_load_32u_result, spec_i64_load_8s_result,
    spec_i64_load_8u_result, spec_i64_load_result, spec_i64_store_16_result,
    spec_i64_store_32_result, spec_i64_store_8_result, spec_i64_store_result,
    spec_local_get_result, spec_local_set_result, spec_local_tee_result, spec_memory_grow_result,
};
use crate::vm_num::{
    spec_binop_result, spec_cmp_result, spec_i32_divs_result, spec_i32_divu_result,
    spec_i32_rems_result, spec_i32_remu_result, spec_i64_divs_result, spec_i64_divu_result,
    spec_i64_rems_result, spec_i64_remu_result, spec_popcnt, spec_rotl32, spec_rotl64,
    spec_rotr32, spec_rotr64, spec_select_result, spec_shl32, spec_shl64, spec_shr_s32,
    spec_shr_s64, spec_shr_u32, spec_shr_u64, spec_test_result, spec_unop_result,
};
use vstd::std_specs::bits::{
    u32_leading_zeros, u32_trailing_zeros, u64_leading_zeros, u64_trailing_zeros,
};

verus! {

/// Tags for the operations a host float unit must provide. Unary operations
/// receive their operand first and 0 second; comparisons yield 0 or 1.
#[derive(Clone, Copy, PartialEq, Eq, Structural, Debug)]
pub enum FloatOp {
    F32Eq,
    F32Ne,
    F32Lt,
    F32Gt,
    F32Le,
    F32Ge,
    F64Eq,
    F64Ne,
    F64Lt,
    F64Gt,
    F64Le,
    F64Ge,
    F32Abs,
    F32Neg,
    F32Ceil,
    F32Floor,
    F32Trunc,
    F32Nearest,
    F32Sqrt,
    F64Abs,
    F64Neg,
    F64Ceil,
    F64Floor,
    F64Trunc,
    F64Nearest,
    F64Sqrt,
    F32Add,
    F32Sub,
    F32Mul,
    F32Div,
    F32Min,
    F32Max,
    F32CopySign,
    F64Add,
    F64Sub,
    F64Mul,
    F64Div,
    F64Min,
    F64Max,
    F64CopySign,
    I32TruncF32S,
    I32TruncF32U,
    I32TruncF64S,
    I32TruncF64U,
    I64TruncF32S,
    I64TruncF32U,
    I64TruncF64S,
    I64TruncF64U,
    F32ConvertI32S,
    F32ConvertI32U,
    F32ConvertI64S,
    F32ConvertI64U,
    F64ConvertI32S,
    F64ConvertI32U,
    F64ConvertI64S,
    F64ConvertI64U,
    F32DemoteF64,
    F64PromoteF32,
    I32TruncSatF32S,
    I32TruncSatF32U,
    I32TruncSatF64S,
    I32TruncSatF64U,
    I64TruncSatF32S,
    I64TruncSatF32U,
    I64TruncSatF64S,
    I64TruncSatF64U,
}

/// Every argument tuple is accepted by the float unit.
pub open spec fn spec_float_unit_total<F: Fn(FloatOp, u64, u64) -> Option<u64>>(fu: &F) -> bool {
    forall|args: (FloatOp, u64, u64)| #[trigger] call_requires(*fu, args)
}

/// Result shape of a two-operand float-unit handler: on success the two top
/// slots are replaced by a value the unit can yield for `op`; a unit verdict
/// of nothing traps as an invalid conversion; underflow leaves the stack.
pub open spec fn spec_float_binop_result<F: Fn(FloatOp, u64, u64) -> Option<u64>>(
    a: &VM,
    b: &VM,
    r: Result<(), Fault>,
    op: FloatOp,
    fu: &F,
) -> bool {
    let s = a.operand_stack@;
    let n = s.len() as int;
    match r {
        Ok(()) => a.spec_avail() >= 2 && (exists|x: u64|
            #![auto]
            call_ensures(*fu, (op, s[n - 2], s[n - 1]), Option::Some(x)) && b.operand_stack@
                == s.take(n - 2).push(x)),
        Err(e) => (e == Fault::StackUnderflow && a.spec_avail() < 2 && b.operand_stack@ == s) || (e
            == Fault::Trap(Trap::InvalidConversion) && a.spec_avail() >= 2 && call_ensures(
            *fu,
            (op, s[n - 2], s[n - 1]),
            Option::None::<u64>,
        ) && b.operand_stack@ == s.take(n - 2)),
    }
}

/// Result shape of a one-operand float-unit handler; the unit's second
/// argument is 0.
pub open spec fn spec_float_unop_result<F: Fn(FloatOp, u64, u64) -> Option<u64>>(
    a: &VM,
    b: &VM,
    r: Result<(), Fault>,
    op: FloatOp,
    fu: &F,
) -> bool {
    let s = a.operand_stack@;
    match r {
        Ok(()) => a.spec_avail() >= 1 && (exists|x: u64|
            #![auto]
            call_ensures(*fu, (op, s.last(), 0u64), Option::Some(x)) && b.operand_stack@
                == s.drop_last().push(x)),
        Err(e) => (e == Fault::StackUnderflow && a.spec_avail() < 1 && b.operand_stack@ == s) || (e
            == Fault::Trap(Trap::InvalidConversion) && a.spec_avail() >= 1 && call_ensures(
            *fu,
            (op, s.last(), 0u64),
            Option::None::<u64>,
        ) && b.operand_stack@ == s.drop_last()),
    }
}

/// Result shape of a float-unit comparison: the two top slots are replaced
/// by 1 or 0 as the unit's verdict for `op` is non-zero or zero.
pub open spec fn spec_float_cmp_result<F: Fn(FloatOp, u64, u64) -> Option<u64>>(
    a: &VM,
    b: &VM,
    r: Result<(), Fault>,
    op: FloatOp,
    fu: &F,
) -> bool {
    let s = a.operand_stack@;
    let n = s.len() as int;
    match r {
        Ok(()) => a.spec_avail() >= 2 && (exists|x: u64|
            #![auto]
            call_ensures(*fu, (op, s[n - 2], s[n - 1]), Option::Some(x)) && b.operand_stack@
                == s.take(n - 2).push(
                if x != 0 {
                    1u64
                } else {
                    0u64
                },
            )),
        Err(e) => (e == Fault::StackUnderflow && a.spec_avail() < 2 && b.operand_stack@ == s) || (e
            == Fault::Trap(Trap::InvalidConversion) && a.spec_avail() >= 2 && call_ensures(
            *fu,
            (op, s[n - 2], s[n - 1]),
            Option::None::<u64>,
        ) && b.operand_stack@ == s.take(n - 2)),
    }
}

/// Frame discipline over a frame stack and an operand-stack depth: every base
/// pointer is at most the depth, every program counter is within its body,
/// and base pointers never decrease from the bottom of the stack to the top.
pub open spec fn spec_frames_wf(frames: Seq<ControlFrame>, stack_len: int) -> bool {
    &&& forall|i: int|
        0 <= i < frames.len() ==> ((#[trigger] frames[i]).bp <= stack_len && frames[i].pc
            <= frames[i].instrs@.len())
    &&& forall|i: int, j: int|
        0 <= i <= j < frames.len() ==> (#[trigger] frames[i]).bp <= (#[trigger] frames[j]).bp
}

/// The operand floor of the innermost frame; 0 when no frame is active.
pub open spec fn spec_cur_bp(frames: Seq<ControlFrame>) -> int {
    if frames.len() == 0 {
        0
    } else {
        frames.last().bp as int
    }
}

/// Frame discipline survives any change of the operand-stack depth that does
/// not go below the innermost base pointer.
pub proof fn lemma_frames_wf_depth(frames: Seq<ControlFrame>, old_len: int, new_len: int)
    requires
        spec_frames_wf(frames, old_len),
        spec_cur_bp(frames) <= new_len,
    ensures
        spec_frames_wf(frames, new_len),
{
    assert forall|i: int| 0 <= i < frames.len() implies (#[trigger] frames[i]).bp <= new_len by {
        assert(frames[i].bp <= frames[frames.len() - 1].bp);
    }
}

/// Frame discipline survives popping the innermost frame.
pub proof fn lemma_frames_wf_pop(frames: Seq<ControlFrame>, stack_len: int)
    requires
        spec_frames_wf(frames, stack_len),
        frames.len() > 0,
    ensures
        spec_frames_wf(frames.drop_last(), stack_len),
{
    assert(forall|i: int|
        0 <= i < frames.len() - 1 ==> frames.drop_last()[i] == frames[i]);
}

/// The execution engine. It borrows the decoded module immutably and owns
/// every piece of run-time state.
pub struct VM<'a> {
    pub operand_stack: OperandStack,
    pub module: &'a Module,
    pub memory: Memory,
    pub control_stack: ControlStack,
    pub local_0_idx: usize,
    pub globals: Vec<GlobalVar>,
    pub vm_funcs: Vec<VMFunc>,
    pub table: Option<Table>,
    pub output: Vec<u8>,
}

impl<'a> VM<'a> {
    /// The operand floor of the innermost frame.
    pub open spec fn spec_bp(&self) -> int {
        spec_cur_bp(self.control_stack.frames@)
    }

    /// Operand slots above the innermost frame's floor: what the current
    /// block may consume.
    pub open spec fn spec_avail(&self) -> int {
        self.operand_stack@.len() - self.spec_bp()
    }

    /// The base pointer of the topmost call frame tracks `local_0_idx`.
    pub open spec fn spec_local0_ok(&self) -> bool {
        match spec_top_call(self.control_stack.frames@) {
            Option::Some(i) => self.local_0_idx == self.control_stack.frames@[i].bp,
            Option::None => true,
        }
    }

    /// Engine well-formedness: frame discipline over the operand stack,
    /// `local_0_idx` at the topmost call frame's base pointer, and a
    /// well-formed memory.
    pub open spec fn wf(&self) -> bool {
        &&& spec_frames_wf(self.control_stack.frames@, self.operand_stack@.len() as int)
        &&& self.spec_local0_ok()
        &&& self.memory.wf()
    }

    /// Everything but the operand stack is unchanged.
    pub open spec fn spec_only_stack(a: &VM<'a>, b: &VM<'a>) -> bool {
        &&& a.module == b.module
        &&& a.memory == b.memory
        &&& a.control_stack.frames@ == b.control_stack.frames@
        &&& a.local_0_idx == b.local_0_idx
        &&& a.globals@ == b.globals@
        &&& a.vm_funcs@ == b.vm_funcs@
        &&& a.table == b.table
        &&& a.output@ == b.output@
    }

    /// Everything but the operand stack and the memory is unchanged.
    pub open spec fn spec_only_stack_and_mem(a: &VM<'a>, b: &VM<'a>) -> bool {
        &&& a.module == b.module
        &&& a.control_stack.frames@ == b.control_stack.frames@
        &&& a.local_0_idx == b.local_0_idx
        &&& a.globals@ == b.globals@
        &&& a.vm_funcs@ == b.vm_funcs@
        &&& a.table == b.table
        &&& a.output@ == b.output@
    }

    /// Everything but the operand stack and the globals is unchanged.
    pub open spec fn spec_only_stack_and_globals(a: &VM<'a>, b: &VM<'a>) -> bool {
        &&& a.module == b.module
        &&& a.memory == b.memory
        &&& a.control_stack.frames@ == b.control_stack.frames@
        &&& a.local_0_idx == b.local_0_idx
        &&& a.vm_funcs@ == b.vm_funcs@
        &&& a.table == b.table
        &&& a.output@ == b.output@
    }

    /// The module reference, functions, table and output are unchanged.
    pub open spec fn spec_env_unchanged(a: &VM<'a>, b: &VM<'a>) -> bool {
        &&& a.module == b.module
        &&& a.vm_funcs@ == b.vm_funcs@
        &&& a.table == b.table
        &&& a.output@ == b.output@
    }

    /// Operand slots available to the current block.
    pub fn avail(&self) -> (r: usize)
        requires
            self.wf(),
        ensures
            r == self.spec_avail(),
    {
        let bp = if self.control_stack.control_depth() > 0 {
            self.control_stack.top_frame_ref().bp
        } else {
            0
        };
        self.operand_stack.length() - bp
    }

    /// Pop one slot of the current block.
    pub fn pop1(&mut self) -> (r: u64)
        requires
            old(self).wf(),
            old(self).spec_avail() >= 1,
        ensures
            final(self).wf(),
            VM::spec_only_stack(old(self), final(self)),
            r == old(self).operand_stack@.last(),
            final(self).operand_stack@ == old(self).operand_stack@.drop_last(),
    {
        let r = self.operand_stack.pop_u64();
        proof {
            lemma_frames_wf_depth(
                self.control_stack.frames@,
                old(self).operand_stack@.len() as int,
                self.operand_stack@.len() as int,
            );
        }
        r
    }

    /// Pop two slots of the current block; the first result lay below the
    /// second.
    pub fn pop2(&mut self) -> (r: (u64, u64))
        requires
            old(self).wf(),
            old(self).spec_avail() >= 2,
        ensures
            final(self).wf(),
            VM::spec_only_stack(old(self), final(self)),
            r.0 == old(self).operand_stack@[old(self).operand_stack@.len() - 2],
            r.1 == old(self).operand_stack@.last(),
            final(self).operand_stack@ == old(self).operand_stack@.take(
                old(self).operand_stack@.len() - 2,
            ),
    {
        let v2 = self.operand_stack.pop_u64();
        let v1 = self.operand_stack.pop_u64();
        proof {
            lemma_frames_wf_depth(
                self.control_stack.frames@,
                old(self).operand_stack@.len() as int,
                self.operand_stack@.len() as int,
            );
            assert(self.operand_stack@ =~= old(self).operand_stack@.take(
                old(self).operand_stack@.len() - 2,
            ));
        }
        (v1, v2)
    }

    /// Push one slot.
    pub fn push_val(&mut self, v: u64)
        requires
            old(self).wf(),
        ensures
            final(self).wf(),
            VM::spec_only_stack(old(self), final(self)),
            final(self).operand_stack@ == old(self).operand_stack@.push(v),
    {
        self.operand_stack.push_u64(v);
        proof {
            lemma_frames_wf_depth(
                self.control_stack.frames@,
                old(self).operand_stack@.len() as int,
                self.operand_stack@.len() as int,
            );
        }
    }

    /// Recompute `local_0_idx` from the topmost call frame; `usize::MAX`
    /// when no call frame is active.
    fn refresh_local_0(&mut self)
        ensures
            final(self).spec_local0_ok(),
            final(self).operand_stack == old(self).operand_stack,
            final(self).memory == old(self).memory,
            final(self).control_stack.frames@ == old(self).control_stack.frames@,
            final(self).globals@ == old(self).globals@,
            VM::spec_env_unchanged(old(self), final(self)),
    {
        let (cf, _) = self.control_stack.top_call_frame();
        proof {
            lemma_top_call(self.control_stack.frames@);
        }
        match cf {
            Option::Some(f) => {
                let bp = f.bp;
                self.local_0_idx = bp;
            },
            Option::None => {
                self.local_0_idx = usize::MAX;
            },
        }
    }

    /// Pop `k` result slots, drop the block's remaining operands down to
    /// `bp`, and push the results back: the operand-stack half of leaving a
    /// block. Fails only when fewer than `k` slots stand above `bp`.
    fn stack_exit(&mut self, bp: usize, k: usize) -> (r: Result<(), Fault>)
        ensures
            VM::spec_only_stack_and_frames(old(self), final(self)),
            final(self).control_stack.frames@ == old(self).control_stack.frames@,
            final(self).local_0_idx == old(self).local_0_idx,
            match r {
                Ok(()) => bp + k <= old(self).operand_stack@.len() && final(self).operand_stack@
                    == old(self).operand_stack@.take(bp as int) + old(self).operand_stack@.subrange(
                    old(self).operand_stack@.len() - k,
                    old(self).operand_stack@.len() as int,
                ),
                Err(e) => e == Fault::StackUnderflow && bp + k > old(self).operand_stack@.len()
                    && final(self).operand_stack@ == old(self).operand_stack@,
            },
    {
        let len = self.operand_stack.length();
        if k > len || bp > len - k {
            return Result::Err(Fault::StackUnderflow);
        }
        let mut results = self.operand_stack.pop_u64s(k);
        let drop_n = self.operand_stack.length() - bp;
        let _ = self.operand_stack.pop_u64s(drop_n);
        self.operand_stack.push_u64s(&mut results);
        proof {
            assert(self.operand_stack@ =~= old(self).operand_stack@.take(bp as int) + old(self).operand_stack@.subrange(
                old(self).operand_stack@.len() - k,
                old(self).operand_stack@.len() as int,
            ));
        }
        Result::Ok(())
    }

    /// Everything but the operand stack and the control frames is unchanged.
    pub open spec fn spec_only_stack_and_frames(a: &VM<'a>, b: &VM<'a>) -> bool {
        &&& a.module == b.module
        &&& a.memory == b.memory
        &&& a.globals@ == b.globals@
        &&& VM::spec_env_unchanged(a, b)
    }

    /// Enter a block: the frame's base pointer is the current depth minus the
    /// block type's parameter count, and for a call frame `local_0_idx` moves
    /// to that base pointer. Fails only when the parameters are not on the
    /// stack.
    pub fn enter_block(&mut self, opcode: FrameKind, bt: FuncType, instrs: Expr) -> (r: Result<
        (),
        Fault,
    >)
        requires
            old(self).wf(),
        ensures
            final(self).wf(),
            VM::spec_only_stack_and_frames(old(self), final(self)),
            final(self).operand_stack@ == old(self).operand_stack@,
            spec_enter_result(
                old(self).control_stack.frames@,
                old(self).local_0_idx as int,
                old(self).operand_stack@,
                final(self),
                r,
                opcode,
                bt.params_types@,
                bt.result_types@,
                instrs@,
            ),
            match r {
                Ok(()) => old(self).spec_avail() >= bt.params_types@.len() && {
                    let nf = final(self).control_stack.frames@.last();
                    &&& final(self).control_stack.frames@ == old(self).control_stack.frames@.push(nf)
                    &&& nf.opcode == opcode
                    &&& nf.block_type == bt
                    &&& nf.instrs@ == instrs@
                    &&& nf.bp == old(self).operand_stack@.len() - bt.params_types@.len()
                    &&& nf.pc == 0
                    &&& final(self).local_0_idx as int == if opcode == FrameKind::Call {
                        nf.bp as int
                    } else {
                        old(self).local_0_idx as int
                    }
                },
                Err(e) => e == Fault::StackUnderflow && old(self).spec_avail()
                    < bt.params_types@.len() && final(self).control_stack.frames@ == old(self).control_stack.frames@ && final(self).local_0_idx == old(self).local_0_idx,
            },
    {
        let params = bt.params_types.len();
        if self.avail() < params {
            return Result::Err(Fault::StackUnderflow);
        }
        let bp = self.operand_stack.length() - params;
        let is_call = matches!(opcode, FrameKind::Call);
        let cf = ControlFrame::new(opcode, bt, instrs, bp);
        self.control_stack.push_control_frame(cf);
        if is_call {
            self.local_0_idx = bp;
        }
        proof {
            let of = old(self).control_stack.frames@;
            let frames = self.control_stack.frames@;
            let n = of.len() as int;
            assert(forall|i: int| 0 <= i < n ==> frames[i] == of[i]);
            assert(frames[n].bp == bp);
            assert forall|i: int, j: int|
                0 <= i <= j < frames.len() implies (#[trigger] frames[i]).bp <= (
            #[trigger] frames[j]).bp by {
                if j < n {
                    assert(of[i].bp <= of[j].bp);
                } else if i < n {
                    assert(of[i].bp <= of[n - 1].bp);
                    assert(of[n - 1].bp == spec_cur_bp(of));
                }
            }
            assert(frames.drop_last() =~= of);
            if opcode == FrameKind::Call {
                assert(frames.last().opcode == FrameKind::Call);
                assert(spec_top_call(frames) == Option::Some(n));
                assert(self.local_0_idx == frames[n].bp);
            } else {
                assert(spec_top_call(frames) == spec_top_call(of));
                lemma_top_call(of);
                match spec_top_call(of) {
                    Option::Some(i) => {
                        assert(frames[i] == of[i]);
                        assert(self.local_0_idx == frames[i].bp);
                    },
                    Option::None => {},
                }
            }
        }
        Result::Ok(())
    }

    /// Pop the top frame and perform its exit: keep its results, discard its
    /// other operands, and restore `local_0_idx` from the remaining topmost
    /// call frame.
    pub fn exit_block(&mut self) -> (r: Result<(), Fault>)
        requires
            spec_frames_wf(
                old(self).control_stack.frames@,
                old(self).operand_stack@.len() as int,
            ),
            old(self).memory.wf(),
            old(self).control_stack.frames@.len() > 0,
        ensures
            final(self).wf(),
            spec_exit_result(old(self), final(self), r),
    {
        let cf = self.control_stack.pop_control_frame();
        proof {
            lemma_frames_wf_pop(
                old(self).control_stack.frames@,
                old(self).operand_stack@.len() as int,
            );
        }
        self.clear_block(cf)
    }

    /// The operand-stack half of leaving the already-popped frame `cf`, then
    /// the `local_0_idx` restore.
    fn clear_block(&mut self, cf: ControlFrame) -> (r: Result<(), Fault>)
        requires
            spec_frames_wf(
                old(self).control_stack.frames@,
                old(self).operand_stack@.len() as int,
            ),
            old(self).memory.wf(),
            spec_cur_bp(old(self).control_stack.frames@) <= cf.bp,
        ensures
            final(self).wf(),
            VM::spec_only_stack_and_frames(old(self), final(self)),
            final(self).control_stack.frames@ == old(self).control_stack.frames@,
            match r {
                Ok(()) => ({
                    let k = cf.block_type.result_types@.len() as int;
                    let n = old(self).operand_stack@.len() as int;
                    &&& cf.bp + k <= n
                    &&& final(self).operand_stack@ == old(self).operand_stack@.take(cf.bp as int)
                        + old(self).operand_stack@.subrange(n - k, n)
                }),
                Err(e) => ({
                    let k = cf.block_type.result_types@.len() as int;
                    &&& e == Fault::StackUnderflow
                    &&& cf.bp + k > old(self).operand_stack@.len()
                    &&& final(self).operand_stack@ == old(self).operand_stack@
                }),
            },
    {
        let k = cf.block_type.result_types.len();
        let res = self.stack_exit(cf.bp, k);
        match res {
            Result::Ok(()) => {},
            Result::Err(e) => {
                self.refresh_local_0();
                return Result::Err(e);
            },
        }
        self.refresh_local_0();
        proof {
            lemma_frames_wf_depth(
                self.control_stack.frames@,
                old(self).operand_stack@.len() as int,
                self.operand_stack@.len() as int,
            );
        }
        Result::Ok(())
    }
}

/// Frame discipline and the top-call tracking survive replacing the top
/// frame by one that differs at most in its program counter.
pub proof fn lemma_wf_pc_update(frames: Seq<ControlFrame>, frames2: Seq<ControlFrame>, stack_len: int)
    requires
        frames.len() > 0,
        frames2.len() == frames.len(),
        forall|i: int| 0 <= i < frames.len() - 1 ==> frames2[i] == frames[i],
        frames2.last().opcode == frames.last().opcode,
        frames2.last().bp == frames.last().bp,
        frames2.last().pc <= frames2.last().instrs@.len(),
        spec_frames_wf(frames, stack_len),
    ensures
        spec_frames_wf(frames2, stack_len),
        match spec_top_call(frames2) {
            Option::Some(i) => spec_top_call(frames) == Option::Some(i) && frames2[i].bp
                == frames[i].bp,
            Option::None => spec_top_call(frames) is None,
        },
{
    let n = frames.len() as int;
    assert(frames2.drop_last() =~= frames.drop_last());
    assert forall|i: int, j: int|
        0 <= i <= j < frames2.len() implies (#[trigger] frames2[i]).bp <= (
    #[trigger] frames2[j]).bp by {
        assert(frames2[i].bp == frames[i].bp);
        assert(frames2[j].bp == frames[j].bp);
    }
    if frames2.last().opcode == FrameKind::Call {
        assert(spec_top_call(frames2) == Option::Some(n - 1));
        assert(spec_top_call(frames) == Option::Some(n - 1));
    } else {
        assert(spec_top_call(frames2) == spec_top_call(frames2.drop_last()));
        assert(spec_top_call(frames) == spec_top_call(frames.drop_last()));
        lemma_top_call(frames.drop_last());
    }
}

/// What a branch to relative depth `d` does, as a relation between the
/// frame and operand stacks before it and the engine after it: a label not
/// inside the stack is refused; a loop target is re-entered at its head
/// keeping its parameters; any other target frame is exited keeping its
/// results; and the branch fails exactly when those parameters or results
/// do not fit above the target's base pointer.
pub open spec fn spec_br_result(
    frames: Seq<ControlFrame>,
    s: Seq<u64>,
    b: &VM,
    r: Result<(), Fault>,
    d: int,
) -> bool {
    let depth = frames.len() as int;
    let n = s.len() as int;
    if d >= depth {
        r == Result::<(), Fault>::Err(Fault::BadLabel) && b.control_stack.frames@ == frames
            && b.operand_stack@ == s
    } else {
        let top = frames[depth - 1 - d];
        if top.opcode == FrameKind::Loop {
            let k = top.block_type.params_types@.len() as int;
            if top.bp + k > n {
                r == Result::<(), Fault>::Err(Fault::StackUnderflow)
            } else {
                r is Ok && ({
                    let bf = b.control_stack.frames@;
                    &&& bf.len() == depth - d
                    &&& bf.last().opcode == FrameKind::Loop
                    &&& bf.last().pc == 0
                    &&& bf.last().bp == top.bp
                    &&& bf.last().instrs@ == top.instrs@
                    &&& bf.last().block_type == top.block_type
                    &&& (forall|i: int| 0 <= i < depth - d - 1 ==> bf[i] == frames[i])
                    &&& b.operand_stack@ == s.take(top.bp as int) + s.subrange(n - k, n)
                })
            }
        } else {
            let k = top.block_type.result_types@.len() as int;
            if top.bp + k > n {
                r == Result::<(), Fault>::Err(Fault::StackUnderflow)
            } else {
                r is Ok && b.control_stack.frames@ == frames.take(depth - d - 1)
                    && b.operand_stack@ == s.take(top.bp as int) + s.subrange(n - k, n)
            }
        }
    }
}

/// What entering a module-defined function does, as a relation between the
/// frame stack, `local_0_idx` and operand stack before it and the engine
/// after it: refused exactly when the declared local count cannot fit in 32
/// bits, or the parameters are not above the current operand floor;
/// otherwise a call frame carrying the function's type and body is pushed
/// and one zero slot per declared local follows the arguments.
pub open spec fn spec_enter_function_result(
    frames: Seq<ControlFrame>,
    l0: int,
    s: Seq<u64>,
    b: &VM,
    r: Result<(), Fault>,
    ftp: Seq<ValType>,
    ftr: Seq<ValType>,
    locals: Seq<Locals>,
    body: Seq<Instruction>,
) -> bool {
    let cnt = spec_local_count(locals);
    let params = ftp.len() as int;
    let avail = s.len() - spec_cur_bp(frames);
    if cnt >= 0xFFFF_FFFF {
        r == Result::<(), Fault>::Err(Fault::TooManyLocals) && b.control_stack.frames@ == frames
            && b.operand_stack@ == s && b.local_0_idx as int == l0
    } else if avail < params {
        r == Result::<(), Fault>::Err(Fault::StackUnderflow) && b.control_stack.frames@ == frames
            && b.operand_stack@ == s && b.local_0_idx as int == l0
    } else {
        r is Ok && ({
            let nf = b.control_stack.frames@.last();
            &&& b.control_stack.frames@ == frames.push(nf)
            &&& nf.opcode == FrameKind::Call
            &&& nf.pc == 0
            &&& nf.instrs@ == body
            &&& nf.block_type.params_types@ == ftp
            &&& nf.block_type.result_types@ == ftr
            &&& nf.bp == s.len() - params
            &&& b.local_0_idx == nf.bp
            &&& b.operand_stack@ == s + Seq::new(cnt as nat, |i: int| 0u64)
        })
    }
}

/// What host `print_char` does to a stack and output: pop one slot and
/// append its low byte; fails only on an empty block.
pub open spec fn spec_print_char_result(
    s: Seq<u64>,
    avail: int,
    out: Seq<u8>,
    b: &VM,
    r: Result<(), Fault>,
) -> bool {
    if avail < 1 {
        r == Result::<(), Fault>::Err(Fault::StackUnderflow) && b.operand_stack@ == s && b.output@
            == out
    } else {
        r is Ok && b.operand_stack@ == s.drop_last() && b.output@ == out.push(s.last() as u8)
    }
}

/// What host `assert_true` does: pop one slot; fails as an assertion
/// exactly when its low 32 bits are zero.
pub open spec fn spec_assert_true_result(
    s: Seq<u64>,
    avail: int,
    out: Seq<u8>,
    b: &VM,
    r: Result<(), Fault>,
) -> bool {
    &&& b.output@ == out
    &&& if avail < 1 {
        r == Result::<(), Fault>::Err(Fault::StackUnderflow) && b.operand_stack@ == s
    } else if s.last() as u32 != 0 {
        r is Ok && b.operand_stack@ == s.drop_last()
    } else {
        r == Result::<(), Fault>::Err(Fault::AssertFailed) && b.operand_stack@ == s.drop_last()
    }
}

/// What host `assert_false` does: pop one slot; fails as an assertion
/// exactly when its low 32 bits are non-zero.
pub open spec fn spec_assert_false_result(
    s: Seq<u64>,
    avail: int,
    out: Seq<u8>,
    b: &VM,
    r: Result<(), Fault>,
) -> bool {
    &&& b.output@ == out
    &&& if avail < 1 {
        r == Result::<(), Fault>::Err(Fault::StackUnderflow) && b.operand_stack@ == s
    } else if s.last() as u32 == 0 {
        r is Ok && b.operand_stack@ == s.drop_last()
    } else {
        r == Result::<(), Fault>::Err(Fault::AssertFailed) && b.operand_stack@ == s.drop_last()
    }
}

/// What host `assert_eq_i32` does: pop two slots; fails as an assertion
/// exactly when their low 32 bits differ.
pub open spec fn spec_assert_eq_i32_result(
    s: Seq<u64>,
    avail: int,
    out: Seq<u8>,
    b: &VM,
    r: Result<(), Fault>,
) -> bool {
    let n = s.len() as int;
    &&& b.output@ == out
    &&& if avail < 2 {
        r == Result::<(), Fault>::Err(Fault::StackUnderflow) && b.operand_stack@ == s
    } else if s[n - 2] as u32 == s[n - 1] as u32 {
        r is Ok && b.operand_stack@ == s.take(n - 2)
    } else {
        r == Result::<(), Fault>::Err(Fault::AssertFailed) && b.operand_stack@ == s.take(n - 2)
    }
}

/// What host `assert_eq_i64` does: pop two slots; fails as an assertion
/// exactly when they differ.
pub open spec fn spec_assert_eq_i64_result(
    s: Seq<u64>,
    avail: int,
    out: Seq<u8>,
    b: &VM,
    r: Result<(), Fault>,
) -> bool {
    let n = s.len() as int;
    &&& b.output@ == out
    &&& if avail < 2 {
        r == Result::<(), Fault>::Err(Fault::StackUnderflow) && b.operand_stack@ == s
    } else if s[n - 2] == s[n - 1] {
        r is Ok && b.operand_stack@ == s.take(n - 2)
    } else {
        r == Result::<(), Fault>::Err(Fault::AssertFailed) && b.operand_stack@ == s.take(n - 2)
    }
}

/// What host `assert_eq_f32` does: pop two slots and put their low 32 bits
/// to the float unit as an equality question; passes exactly on a non-zero
/// verdict, fails as an assertion on a zero or absent one.
pub open spec fn spec_assert_eq_f32_result<F: Fn(FloatOp, u64, u64) -> Option<u64>>(
    s: Seq<u64>,
    avail: int,
    out: Seq<u8>,
    b: &VM,
    r: Result<(), Fault>,
    fu: &F,
) -> bool {
    let n = s.len() as int;
    &&& b.output@ == out
    &&& if avail < 2 {
        r == Result::<(), Fault>::Err(Fault::StackUnderflow) && b.operand_stack@ == s
    } else {
        let args = (FloatOp::F32Eq, (s[n - 2] as u32) as u64, (s[n - 1] as u32) as u64);
        &&& b.operand_stack@ == s.take(n - 2)
        &&& match r {
            Ok(()) => exists|x: u64| #![auto] x != 0 && call_ensures(*fu, args, Option::Some(x)),
            Err(e) => e == Fault::AssertFailed && (call_ensures(*fu, args, Option::Some(0u64))
                || call_ensures(*fu, args, Option::None::<u64>)),
        }
    }
}

/// What host `assert_eq_f64` does: pop two slots and put them to the float
/// unit as an equality question; passes exactly on a non-zero verdict,
/// fails as an assertion on a zero or absent one.
pub open spec fn spec_assert_eq_f64_result<F: Fn(FloatOp, u64, u64) -> Option<u64>>(
    s: Seq<u64>,
    avail: int,
    out: Seq<u8>,
    b: &VM,
    r: Result<(), Fault>,
    fu: &F,
) -> bool {
    let n = s.len() as int;
    &&& b.output@ == out
    &&& if avail < 2 {
        r == Result::<(), Fault>::Err(Fault::StackUnderflow) && b.operand_stack@ == s
    } else {
        let args = (FloatOp::F64Eq, s[n - 2], s[n - 1]);
        &&& b.operand_stack@ == s.take(n - 2)
        &&& match r {
            Ok(()) => exists|x: u64| #![auto] x != 0 && call_ensures(*fu, args, Option::Some(x)),
            Err(e) => e == Fault::AssertFailed && (call_ensures(*fu, args, Option::Some(0u64))
                || call_ensures(*fu, args, Option::None::<u64>)),
        }
    }
}

/// What running a host function does, by its kind.
pub open spec fn spec_host_call_result<F: Fn(FloatOp, u64, u64) -> Option<u64>>(
    h: HostFunc,
    s: Seq<u64>,
    avail: int,
    out: Seq<u8>,
    b: &VM,
    r: Result<(), Fault>,
    fu: &F,
) -> bool {
    match h {
        HostFunc::PrintChar => spec_print_char_result(s, avail, out, b, r),
        HostFunc::AssertTrue => spec_assert_true_result(s, avail, out, b, r),
        HostFunc::AssertFalse => spec_assert_false_result(s, avail, out, b, r),
        HostFunc::AssertEqI32 => spec_assert_eq_i32_result(s, avail, out, b, r),
        HostFunc::AssertEqI64 => spec_assert_eq_i64_result(s, avail, out, b, r),
        HostFunc::AssertEqF32 => spec_assert_eq_f32_result(s, avail, out, b, r, fu),
        HostFunc::AssertEqF64 => spec_assert_eq_f64_result(s, avail, out, b, r, fu),
    }
}

/// What calling the function at `f_idx` of the unified index space does: an
/// index outside the space is refused; a module function is entered; a host
/// function runs at once; an unbound entry traps.
pub open spec fn spec_call_result<F: Fn(FloatOp, u64, u64) -> Option<u64>>(
    a: &VM,
    b: &VM,
    r: Result<(), Fault>,
    f_idx: u32,
    fu: &F,
) -> bool {
    let fs = a.vm_funcs@;
    if f_idx >= fs.len() {
        r == Result::<(), Fault>::Err(Fault::FunctionIndexOutOfRange) && *b == *a
    } else {
        let f = fs[f_idx as int];
        match f.code {
            Option::Some(code) => spec_enter_function_result(
                a.control_stack.frames@,
                a.local_0_idx as int,
                a.operand_stack@,
                b,
                r,
                f.func_type.params_types@,
                f.func_type.result_types@,
                code.locals@,
                code.expr@,
            ) && b.output@ == a.output@,
            Option::None => match f.host {
                Option::Some(h) => spec_host_call_result(
                    h,
                    a.operand_stack@,
                    a.spec_avail(),
                    a.output@,
                    b,
                    r,
                    fu,
                ) && b.control_stack.frames@ == a.control_stack.frames@ && b.local_0_idx
                    == a.local_0_idx,
                Option::None => r == Result::<(), Fault>::Err(Fault::Trap(Trap::UndefinedElement))
                    && *b == *a,
            },
        }
    }
}

/// What an indirect call through the table does: the popped index must lie
/// inside the table, the entry must be bound, the type index must be valid
/// and the entry's type structurally equal to it; then the entry is invoked
/// exactly like a direct call.
pub open spec fn spec_call_indirect_result<F: Fn(FloatOp, u64, u64) -> Option<u64>>(
    a: &VM,
    b: &VM,
    r: Result<(), Fault>,
    type_idx: u32,
    fu: &F,
) -> bool {
    let s = a.operand_stack@;
    if a.spec_avail() < 1 {
        r == Result::<(), Fault>::Err(Fault::StackUnderflow) && *b == *a
    } else {
        let i = s.last() as u32;
        let s0 = s.drop_last();
        let popped_ok = b.operand_stack@ == s0 && b.control_stack.frames@
            == a.control_stack.frames@ && b.output@ == a.output@;
        match a.table {
            Option::None => r == Result::<(), Fault>::Err(Fault::Trap(Trap::UndefinedElement))
                && popped_ok,
            Option::Some(t) => if i >= t.elems@.len() {
                r == Result::<(), Fault>::Err(Fault::Trap(Trap::UndefinedElement)) && popped_ok
            } else {
                let f = t.elems@[i as int];
                if f.code is None && f.host is None {
                    r == Result::<(), Fault>::Err(Fault::Trap(Trap::UndefinedElement)) && popped_ok
                } else if type_idx >= a.module.type_sec@.len() {
                    r == Result::<(), Fault>::Err(Fault::TypeIndexOutOfRange) && popped_ok
                } else if !(f.func_type.params_types@ == a.module.type_sec@[
                    type_idx as int].params_types@ && f.func_type.result_types@
                    == a.module.type_sec@[type_idx as int].result_types@) {
                    r == Result::<(), Fault>::Err(Fault::Trap(Trap::IndirectCallTypeMismatch))
                        && popped_ok
                } else {
                    match f.code {
                        Option::Some(code) => spec_enter_function_result(
                            a.control_stack.frames@,
                            a.local_0_idx as int,
                            s0,
                            b,
                            r,
                            f.func_type.params_types@,
                            f.func_type.result_types@,
                            code.locals@,
                            code.expr@,
                        ) && b.output@ == a.output@,
                        Option::None => spec_host_call_result(
                            f.host->Some_0,
                            s0,
                            s0.len() - spec_cur_bp(a.control_stack.frames@),
                            a.output@,
                            b,
                            r,
                            fu,
                        ) && b.control_stack.frames@ == a.control_stack.frames@ && b.local_0_idx
                            == a.local_0_idx,
                    }
                }
            },
        }
    }
}

/// What entering a block, loop, if-arm or call frame does: refused exactly
/// when the block type's parameters are not above the current operand
/// floor; otherwise a frame of the given kind, type and body is pushed,
/// with its base pointer under the parameters, and for a call frame
/// `local_0_idx` moves to that base pointer.
pub open spec fn spec_enter_result(
    frames: Seq<ControlFrame>,
    l0: int,
    s: Seq<u64>,
    b: &VM,
    r: Result<(), Fault>,
    kind: FrameKind,
    ftp: Seq<ValType>,
    ftr: Seq<ValType>,
    body: Seq<Instruction>,
) -> bool {
    let params = ftp.len() as int;
    let avail = s.len() - spec_cur_bp(frames);
    if avail < params {
        r == Result::<(), Fault>::Err(Fault::StackUnderflow) && b.control_stack.frames@ == frames
            && b.operand_stack@ == s && b.local_0_idx as int == l0
    } else {
        r is Ok && ({
            let nf = b.control_stack.frames@.last();
            &&& b.control_stack.frames@ == frames.push(nf)
            &&& nf.opcode == kind
            &&& nf.pc == 0
            &&& nf.instrs@ == body
            &&& nf.block_type.params_types@ == ftp
            &&& nf.block_type.result_types@ == ftr
            &&& nf.bp == s.len() - params
            &&& b.operand_stack@ == s
            &&& b.local_0_idx as int == if kind == FrameKind::Call {
                nf.bp as int
            } else {
                l0
            }
        })
    }
}

/// What the saturating float-to-integer family does, by sub-selector; an
/// unknown selector is a malformed module.
pub open spec fn spec_trunc_sat_result<F: Fn(FloatOp, u64, u64) -> Option<u64>>(
    a: &VM,
    b: &VM,
    r: Result<(), Fault>,
    sel: u8,
    fu: &F,
) -> bool {
    if sel == 0 {
        spec_float_unop_result(a, b, r, FloatOp::I32TruncSatF32S, fu)
    } else if sel == 1 {
        spec_float_unop_result(a, b, r, FloatOp::I32TruncSatF32U, fu)
    } else if sel == 2 {
        spec_float_unop_result(a, b, r, FloatOp::I32TruncSatF64S, fu)
    } else if sel == 3 {
        spec_float_unop_result(a, b, r, FloatOp::I32TruncSatF64U, fu)
    } else if sel == 4 {
        spec_float_unop_result(a, b, r, FloatOp::I64TruncSatF32S, fu)
    } else if sel == 5 {
        spec_float_unop_result(a, b, r, FloatOp::I64TruncSatF32U, fu)
    } else if sel == 6 {
        spec_float_unop_result(a, b, r, FloatOp::I64TruncSatF64S, fu)
    } else if sel == 7 {
        spec_float_unop_result(a, b, r, FloatOp::I64TruncSatF64U, fu)
    } else {
        r == Result::<(), Fault>::Err(Fault::UnknownOpcode) && *b == *a
    }
}

/// One dispatch step of the interpreter: for every instruction, how the
/// engine after the step and the step's result relate to the engine before
/// it, phrased through the operation contracts.
#[verifier::opaque]
pub open spec fn spec_step<F: Fn(FloatOp, u64, u64) -> Option<u64>>(
    a: &VM,
    b: &VM,
    r: Result<(), Fault>,
    instr: Instruction,
    fu: &F,
) -> bool {
    match instr {
        Instruction::Unreachable => r == Result::<(), Fault>::Err(Fault::Trap(Trap::Unreachable)) && *b == *a,
        Instruction::Nop => r is Ok && *b == *a,
        Instruction::Block(ba) => if !crate::module::spec_valid_block_type(a.module, ba.block_type) {
            r == Result::<(), Fault>::Err(Fault::BadBlockType) && *b == *a
        } else {
            spec_enter_result(
                a.control_stack.frames@,
                a.local_0_idx as int,
                a.operand_stack@,
                b,
                r,
                FrameKind::Block,
                crate::module::spec_block_params(a.module, ba.block_type),
                crate::module::spec_block_results(a.module, ba.block_type),
                ba.instructions@,
            ) && VM::spec_only_stack_and_frames(a, b)
        },
        Instruction::Loop(ba) => if !crate::module::spec_valid_block_type(a.module, ba.block_type) {
            r == Result::<(), Fault>::Err(Fault::BadBlockType) && *b == *a
        } else {
            spec_enter_result(
                a.control_stack.frames@,
                a.local_0_idx as int,
                a.operand_stack@,
                b,
                r,
                FrameKind::Loop,
                crate::module::spec_block_params(a.module, ba.block_type),
                crate::module::spec_block_results(a.module, ba.block_type),
                ba.instructions@,
            ) && VM::spec_only_stack_and_frames(a, b)
        },
        Instruction::If(ia) => if !crate::module::spec_valid_block_type(a.module, ia.block_type) {
            r == Result::<(), Fault>::Err(Fault::BadBlockType) && *b == *a
        } else if a.spec_avail() < 1 {
            r == Result::<(), Fault>::Err(Fault::StackUnderflow) && *b == *a
        } else {
            spec_enter_result(
                a.control_stack.frames@,
                a.local_0_idx as int,
                a.operand_stack@.drop_last(),
                b,
                r,
                FrameKind::If,
                crate::module::spec_block_params(a.module, ia.block_type),
                crate::module::spec_block_results(a.module, ia.block_type),
                if a.operand_stack@.last() != 0 {
                    ia.instructions_1@
                } else {
                    ia.instructions_2@
                },
            ) && VM::spec_only_stack_and_frames(a, b)
        },
        Instruction::Br(d) => spec_br_result(
            a.control_stack.frames@,
            a.operand_stack@,
            b,
            r,
            d as int,
        ) && VM::spec_only_stack_and_frames(a, b),
        Instruction::BrIf(d) => VM::spec_only_stack_and_frames(a, b) && (if a.spec_avail() < 1 {
            r == Result::<(), Fault>::Err(Fault::StackUnderflow) && *b == *a
        } else if a.operand_stack@.last() == 0 {
            r is Ok && b.operand_stack@ == a.operand_stack@.drop_last()
                && b.control_stack.frames@ == a.control_stack.frames@
        } else {
            spec_br_result(a.control_stack.frames@, a.operand_stack@.drop_last(), b, r, d as int)
        }),
        Instruction::BrTable(args) => VM::spec_only_stack_and_frames(a, b) && (if a.spec_avail() < 1 {
            r == Result::<(), Fault>::Err(Fault::StackUnderflow) && *b == *a
        } else {
            let s = a.operand_stack@;
            let idx = s.last() as u32;
            let lab = if idx < args.labels@.len() {
                args.labels@[idx as int]
            } else {
                args.default
            };
            spec_br_result(a.control_stack.frames@, s.drop_last(), b, r, lab as int)
        }),
        Instruction::Return => VM::spec_only_stack_and_frames(a, b) && (match spec_top_call(
            a.control_stack.frames@,
        ) {
            Option::Some(i) => spec_br_result(
                a.control_stack.frames@,
                a.operand_stack@,
                b,
                r,
                a.control_stack.frames@.len() - 1 - i,
            ),
            Option::None => r == Result::<(), Fault>::Err(Fault::BadLabel) && *b == *a,
        }),
        Instruction::Call(idx) => spec_call_result(a, b, r, idx, fu) && b.module == a.module && b.memory == a.memory && b.globals@
            == a.globals@ && b.vm_funcs@ == a.vm_funcs@ && b.table == a.table,
        Instruction::CallIndirect(ti) => spec_call_indirect_result(a, b, r, ti, fu) && b.module == a.module && b.memory == a.memory && b.globals@
            == a.globals@ && b.vm_funcs@ == a.vm_funcs@ && b.table == a.table,
        Instruction::Drop => VM::spec_only_stack(a, b) && (if a.spec_avail() < 1 {
            r == Result::<(), Fault>::Err(Fault::StackUnderflow) && b.operand_stack@
                == a.operand_stack@
        } else {
            r is Ok && b.operand_stack@ == a.operand_stack@.drop_last()
        }),
        Instruction::Select => spec_select_result(a, b, r) && VM::spec_only_stack(a, b),
        Instruction::LocalGet(idx) => spec_local_get_result(a, b, r, idx) && VM::spec_only_stack(a, b),
        Instruction::LocalSet(idx) => spec_local_set_result(a, b, r, idx) && VM::spec_only_stack(a, b),
        Instruction::LocalTee(idx) => spec_local_tee_result(a, b, r, idx) && VM::spec_only_stack(a, b),
        Instruction::GlobalGet(idx) => spec_global_get_result(a, b, r, idx) && VM::spec_only_stack(a, b),
        Instruction::GlobalSet(idx) => spec_global_set_result(a, b, r, idx) && VM::spec_only_stack_and_globals(a, b),
        Instruction::I32Load(arg) => spec_i32_load_result(a, b, r, arg) && VM::spec_only_stack(a, b),
        Instruction::I64Load(arg) => spec_i64_load_result(a, b, r, arg) && VM::spec_only_stack(a, b),
        Instruction::F32Load(arg) => spec_f32_load_result(a, b, r, arg) && VM::spec_only_stack(a, b),
        Instruction::F64Load(arg) => spec_f64_load_result(a, b, r, arg) && VM::spec_only_stack(a, b),
        Instruction::I32Load8S(arg) => spec_i32_load_8s_result(a, b, r, arg) && VM::spec_only_stack(a, b),
        Instruction::I32Load8U(arg) => spec_i32_load_8u_result(a, b, r, arg) && VM::spec_only_stack(a, b),
        Instruction::I32Load16S(arg) => spec_i32_load_16s_result(a, b, r, arg) && VM::spec_only_stack(a, b),
        Instruction::I32Load16U(arg) => spec_i32_load_16u_result(a, b, r, arg) && VM::spec_only_stack(a, b),
        Instruction::I64Load8S(arg) => spec_i64_load_8s_result(a, b, r, arg) && VM::spec_only_stack(a, b),
        Instruction::I64Load8U(arg) => spec_i64_load_8u_result(a, b, r, arg) && VM::spec_only_stack(a, b),
        Instruction::I64Load16S(arg) => spec_i64_load_16s_result(a, b, r, arg) && VM::spec_only_stack(a, b),
        Instruction::I64Load16U(arg) => spec_i64_load_16u_result(a, b, r, arg) && VM::spec_only_stack(a, b),
        Instruction::I64Load32S(arg) => spec_i64_load_32s_result(a, b, r, arg) && VM::spec_only_stack(a, b),
        Instruction::I64Load32U(arg) => spec_i64_load_32u_result(a, b, r, arg) && VM::spec_only_stack(a, b),
        Instruction::I32Store(arg) => spec_i32_store_result(a, b, r, arg) && VM::spec_only_stack_and_mem(a, b),
        Instruction::I64Store(arg) => spec_i64_store_result(a, b, r, arg) && VM::spec_only_stack_and_mem(a, b),
        Instruction::F32Store(arg) => spec_f32_store_result(a, b, r, arg) && VM::spec_only_stack_and_mem(a, b),
        Instruction::F64Store(arg) => spec_f64_store_result(a, b, r, arg) && VM::spec_only_stack_and_mem(a, b),
        Instruction::I32Store8(arg) => spec_i32_store_8_result(a, b, r, arg) && VM::spec_only_stack_and_mem(a, b),
        Instruction::I32Store16(arg) => spec_i32_store_16_result(a, b, r, arg) && VM::spec_only_stack_and_mem(a, b),
        Instruction::I64Store8(arg) => spec_i64_store_8_result(a, b, r, arg) && VM::spec_only_stack_and_mem(a, b),
        Instruction::I64Store16(arg) => spec_i64_store_16_result(a, b, r, arg) && VM::spec_only_stack_and_mem(a, b),
        Instruction::I64Store32(arg) => spec_i64_store_32_result(a, b, r, arg) && VM::spec_only_stack_and_mem(a, b),
        Instruction::MemorySize => r is Ok && b.operand_stack@ == a.operand_stack@.push(
            ((a.memory.spec_size() as u32) as u64),
        ) && VM::spec_only_stack(a, b),
        Instruction::MemoryGrow => spec_memory_grow_result(a, b, r) && VM::spec_only_stack_and_mem(a, b),
        Instruction::I32Const(v) => r is Ok && b.operand_stack@ == a.operand_stack@.push(
            ((v as u32) as u64),
        ) && VM::spec_only_stack(a, b),
        Instruction::I64Const(v) => r is Ok && b.operand_stack@ == a.operand_stack@.push(
            (v as u64),
        ) && VM::spec_only_stack(a, b),
        Instruction::F32Const(bits) => r is Ok && b.operand_stack@ == a.operand_stack@.push(
            (bits as u64),
        ) && VM::spec_only_stack(a, b),
        Instruction::F64Const(bits) => r is Ok && b.operand_stack@ == a.operand_stack@.push(
            bits,
        ) && VM::spec_only_stack(a, b),
        Instruction::I32Eqz => spec_test_result(a, b, r, (|a: u64| a as u32 == 0)) && VM::spec_only_stack(a, b),
        Instruction::I32Eq => spec_cmp_result(a, b, r, (|a: u64, b: u64| (a as u32) == (b as u32))) && VM::spec_only_stack(a, b),
        Instruction::I32Ne => spec_cmp_result(a, b, r, (|a: u64, b: u64| (a as u32) != (b as u32))) && VM::spec_only_stack(a, b),
        Instruction::I32LtS => spec_cmp_result(a, b, r, (|a: u64, b: u64| ((a as u32) as i32) < ((b as u32) as i32))) && VM::spec_only_stack(a, b),
        Instruction::I32LtU => spec_cmp_result(a, b, r, (|a: u64, b: u64| (a as u32) < (b as u32))) && VM::spec_only_stack(a, b),
        Instruction::I32GtS => spec_cmp_result(a, b, r, (|a: u64, b: u64| ((a as u32) as i32) > ((b as u32) as i32))) && VM::spec_only_stack(a, b),
        Instruction::I32GtU => spec_cmp_result(a, b, r, (|a: u64, b: u64| (a as u32) > (b as u32))) && VM::spec_only_stack(a, b),
        Instruction::I32LeS => spec_cmp_result(a, b, r, (|a: u64, b: u64| ((a as u32) as i32) <= ((b as u32) as i32))) && VM::spec_only_stack(a, b),
        Instruction::I32LeU => spec_cmp_result(a, b, r, (|a: u64, b: u64| (a as u32) <= (b as u32))) && VM::spec_only_stack(a, b),
        Instruction::I32GeS => spec_cmp_result(a, b, r, (|a: u64, b: u64| ((a as u32) as i32) >= ((b as u32) as i32))) && VM::spec_only_stack(a, b),
        Instruction::I32GeU => spec_cmp_result(a, b, r, (|a: u64, b: u64| (a as u32) >= (b as u32))) && VM::spec_only_stack(a, b),
        Instruction::I64Eqz => spec_test_result(a, b, r, (|a: u64| a == 0)) && VM::spec_only_stack(a, b),
        Instruction::I64Eq => spec_cmp_result(a, b, r, (|a: u64, b: u64| a == b)) && VM::spec_only_stack(a, b),
        Instruction::I64Ne => spec_cmp_result(a, b, r, (|a: u64, b: u64| a != b)) && VM::spec_only_stack(a, b),
        Instruction::I64LtS => spec_cmp_result(a, b, r, (|a: u64, b: u64| (a as i64) < (b as i64))) && VM::spec_only_stack(a, b),
        Instruction::I64LtU => spec_cmp_result(a, b, r, (|a: u64, b: u64| a < b)) && VM::spec_only_stack(a, b),
        Instruction::I64GtS => spec_cmp_result(a, b, r, (|a: u64, b: u64| (a as i64) > (b as i64))) && VM::spec_only_stack(a, b),
        Instruction::I64GtU => spec_cmp_result(a, b, r, (|a: u64, b: u64| a > b)) && VM::spec_only_stack(a, b),
        Instruction::I64LeS => spec_cmp_result(a, b, r, (|a: u64, b: u64| (a as i64) <= (b as i64))) && VM::spec_only_stack(a, b),
        Instruction::I64LeU => spec_cmp_result(a, b, r, (|a: u64, b: u64| a <= b)) && VM::spec_only_stack(a, b),
        Instruction::I64GeS => spec_cmp_result(a, b, r, (|a: u64, b: u64| (a as i64) >= (b as i64))) && VM::spec_only_stack(a, b),
        Instruction::I64GeU => spec_cmp_result(a, b, r, (|a: u64, b: u64| a >= b)) && VM::spec_only_stack(a, b),
        Instruction::F32Eq => spec_float_cmp_result(a, b, r, FloatOp::F32Eq, fu) && VM::spec_only_stack(a, b),
        Instruction::F32Ne => spec_float_cmp_result(a, b, r, FloatOp::F32Ne, fu) && VM::spec_only_stack(a, b),
        Instruction::F32Lt => spec_float_cmp_result(a, b, r, FloatOp::F32Lt, fu) && VM::spec_only_stack(a, b),
        Instruction::F32Gt => spec_float_cmp_result(a, b, r, FloatOp::F32Gt, fu) && VM::spec_only_stack(a, b),
        Instruction::F32Le => spec_float_cmp_result(a, b, r, FloatOp::F32Le, fu) && VM::spec_only_stack(a, b),
        Instruction::F32Ge => spec_float_cmp_result(a, b, r, FloatOp::F32Ge, fu) && VM::spec_only_stack(a, b),
        Instruction::F64Eq => spec_float_cmp_result(a, b, r, FloatOp::F64Eq, fu) && VM::spec_only_stack(a, b),
        Instruction::F64Ne => spec_float_cmp_result(a, b, r, FloatOp::F64Ne, fu) && VM::spec_only_stack(a, b),
        Instruction::F64Lt => spec_float_cmp_result(a, b, r, FloatOp::F64Lt, fu) && VM::spec_only_stack(a, b),
        Instruction::F64Gt => spec_float_cmp_result(a, b, r, FloatOp::F64Gt, fu) && VM::spec_only_stack(a, b),
        Instruction::F64Le => spec_float_cmp_result(a, b, r, FloatOp::F64Le, fu) && VM::spec_only_stack(a, b),
        Instruction::F64Ge => spec_float_cmp_result(a, b, r, FloatOp::F64Ge, fu) && VM::spec_only_stack(a, b),
        Instruction::I32Clz => spec_unop_result(a, b, r, (|a: u64| u32_leading_zeros(a as u32) as u64)) && VM::spec_only_stack(a, b),
        Instruction::I32Ctz => spec_unop_result(a, b, r, (|a: u64| u32_trailing_zeros(a as u32) as u64)) && VM::spec_only_stack(a, b),
        Instruction::I32PopCnt => spec_unop_result(a, b, r, (|a: u64| spec_popcnt((a as u32) as u64) as u64)) && VM::spec_only_stack(a, b),
        Instruction::I32Add => spec_binop_result(a, b, r, (|a: u64, b: u64| (((a as u32) + (b as u32)) as u32) as u64)) && VM::spec_only_stack(a, b),
        Instruction::I32Sub => spec_binop_result(a, b, r, (|a: u64, b: u64| (((a as u32) - (b as u32)) as u32) as u64)) && VM::spec_only_stack(a, b),
        Instruction::I32Mul => spec_binop_result(a, b, r, (|a: u64, b: u64| (((a as u32) * (b as u32)) as u32) as u64)) && VM::spec_only_stack(a, b),
        Instruction::I32DivS => spec_i32_divs_result(a, b, r) && VM::spec_only_stack(a, b),
        Instruction::I32DivU => spec_i32_divu_result(a, b, r) && VM::spec_only_stack(a, b),
        Instruction::I32RemS => spec_i32_rems_result(a, b, r) && VM::spec_only_stack(a, b),
        Instruction::I32RemU => spec_i32_remu_result(a, b, r) && VM::spec_only_stack(a, b),
        Instruction::I32And => spec_binop_result(a, b, r, (|a: u64, b: u64| ((a as u32) & (b as u32)) as u64)) && VM::spec_only_stack(a, b),
        Instruction::I32Or => spec_binop_result(a, b, r, (|a: u64, b: u64| ((a as u32) | (b as u32)) as u64)) && VM::spec_only_stack(a, b),
        Instruction::I32Xor => spec_binop_result(a, b, r, (|a: u64, b: u64| ((a as u32) ^ (b as u32)) as u64)) && VM::spec_only_stack(a, b),
        Instruction::I32Shl => spec_binop_result(a, b, r, (|a: u64, b: u64| spec_shl32(a as u32, b as u32) as u64)) && VM::spec_only_stack(a, b),
        Instruction::I32ShrS => spec_binop_result(a, b, r, (|a: u64, b: u64| spec_shr_s32(a as u32, b as u32) as u64)) && VM::spec_only_stack(a, b),
        Instruction::I32ShrU => spec_binop_result(a, b, r, (|a: u64, b: u64| spec_shr_u32(a as u32, b as u32) as u64)) && VM::spec_only_stack(a, b),
        Instruction::I32Rotl => spec_binop_result(a, b, r, (|a: u64, b: u64| spec_rotl32(a as u32, b as u32) as u64)) && VM::spec_only_stack(a, b),
        Instruction::I32Rotr => spec_binop_result(a, b, r, (|a: u64, b: u64| spec_rotr32(a as u32, b as u32) as u64)) && VM::spec_only_stack(a, b),
        Instruction::I64Clz => spec_unop_result(a, b, r, (|a: u64| u64_leading_zeros(a) as u64)) && VM::spec_only_stack(a, b),
        Instruction::I64Ctz => spec_unop_result(a, b, r, (|a: u64| u64_trailing_zeros(a) as u64)) && VM::spec_only_stack(a, b),
        Instruction::I64PopCnt => spec_unop_result(a, b, r, (|a: u64| spec_popcnt(a) as u64)) && VM::spec_only_stack(a, b),
        Instruction::I64Add => spec_binop_result(a, b, r, (|a: u64, b: u64| (a + b) as u64)) && VM::spec_only_stack(a, b),
        Instruction::I64Sub => spec_binop_result(a, b, r, (|a: u64, b: u64| (a - b) as u64)) && VM::spec_only_stack(a, b),
        Instruction::I64Mul => spec_binop_result(a, b, r, (|a: u64, b: u64| (a * b) as u64)) && VM::spec_only_stack(a, b),
        Instruction::I64DivS => spec_i64_divs_result(a, b, r) && VM::spec_only_stack(a, b),
        Instruction::I64DivU => spec_i64_divu_result(a, b, r) && VM::spec_only_stack(a, b),
        Instruction::I64RemS => spec_i64_rems_result(a, b, r) && VM::spec_only_stack(a, b),
        Instruction::I64RemU => spec_i64_remu_result(a, b, r) && VM::spec_only_stack(a, b),
        Instruction::I64And => spec_binop_result(a, b, r, (|a: u64, b: u64| a & b)) && VM::spec_only_stack(a, b),
        Instruction::I64Or => spec_binop_result(a, b, r, (|a: u64, b: u64| a | b)) && VM::spec_only_stack(a, b),
        Instruction::I64Xor => spec_binop_result(a, b, r, (|a: u64, b: u64| a ^ b)) && VM::spec_only_stack(a, b),
        Instruction::I64Shl => spec_binop_result(a, b, r, (|a: u64, b: u64| spec_shl64(a, b))) && VM::spec_only_stack(a, b),
        Instruction::I64ShrS => spec_binop_result(a, b, r, (|a: u64, b: u64| spec_shr_s64(a, b))) && VM::spec_only_stack(a, b),
        Instruction::I64ShrU => spec_binop_result(a, b, r, (|a: u64, b: u64| spec_shr_u64(a, b))) && VM::spec_only_stack(a, b),
        Instruction::I64Rotl => spec_binop_result(a, b, r, (|a: u64, b: u64| spec_rotl64(a, b))) && VM::spec_only_stack(a, b),
        Instruction::I64Rotr => spec_binop_result(a, b, r, (|a: u64, b: u64| spec_rotr64(a, b))) && VM::spec_only_stack(a, b),
        Instruction::F32Abs => spec_float_unop_result(a, b, r, FloatOp::F32Abs, fu) && VM::spec_only_stack(a, b),
        Instruction::F32Neg => spec_float_unop_result(a, b, r, FloatOp::F32Neg, fu) && VM::spec_only_stack(a, b),
        Instruction::F32Ceil => spec_float_unop_result(a, b, r, FloatOp::F32Ceil, fu) && VM::spec_only_stack(a, b),
        Instruction::F32Floor => spec_float_unop_result(a, b, r, FloatOp::F32Floor, fu) && VM::spec_only_stack(a, b),
        Instruction::F32Trunc => spec_float_unop_result(a, b, r, FloatOp::F32Trunc, fu) && VM::spec_only_stack(a, b),
        Instruction::F32Nearest => spec_float_unop_result(a, b, r, FloatOp::F32Nearest, fu) && VM::spec_only_stack(a, b),
        Instruction::F32Sqrt => spec_float_unop_result(a, b, r, FloatOp::F32Sqrt, fu) && VM::spec_only_stack(a, b),
        Instruction::F64Abs => spec_float_unop_result(a, b, r, FloatOp::F64Abs, fu) && VM::spec_only_stack(a, b),
        Instruction::F64Neg => spec_float_unop_result(a, b, r, FloatOp::F64Neg, fu) && VM::spec_only_stack(a, b),
        Instruction::F64Ceil => spec_float_unop_result(a, b, r, FloatOp::F64Ceil, fu) && VM::spec_only_stack(a, b),
        Instruction::F64Floor => spec_float_unop_result(a, b, r, FloatOp::F64Floor, fu) && VM::spec_only_stack(a, b),
        Instruction::F64Trunc => spec_float_unop_result(a, b, r, FloatOp::F64Trunc, fu) && VM::spec_only_stack(a, b),
        Instruction::F64Nearest => spec_float_unop_result(a, b, r, FloatOp::F64Nearest, fu) && VM::spec_only_stack(a, b),
        Instruction::F64Sqrt => spec_float_unop_result(a, b, r, FloatOp::F64Sqrt, fu) && VM::spec_only_stack(a, b),
        Instruction::F32Add => spec_float_binop_result(a, b, r, FloatOp::F32Add, fu) && VM::spec_only_stack(a, b),
        Instruction::F32Sub => spec_float_binop_result(a, b, r, FloatOp::F32Sub, fu) && VM::spec_only_stack(a, b),
        Instruction::F32Mul => spec_float_binop_result(a, b, r, FloatOp::F32Mul, fu) && VM::spec_only_stack(a, b),
        Instruction::F32Div => spec_float_binop_result(a, b, r, FloatOp::F32Div, fu) && VM::spec_only_stack(a, b),
        Instruction::F32Min => spec_float_binop_result(a, b, r, FloatOp::F32Min, fu) && VM::spec_only_stack(a, b),
        Instruction::F32Max => spec_float_binop_result(a, b, r, FloatOp::F32Max, fu) && VM::spec_only_stack(a, b),
        Instruction::F32CopySign => spec_float_binop_result(a, b, r, FloatOp::F32CopySign, fu) && VM::spec_only_stack(a, b),
        Instruction::F64Add => spec_float_binop_result(a, b, r, FloatOp::F64Add, fu) && VM::spec_only_stack(a, b),
        Instruction::F64Sub => spec_float_binop_result(a, b, r, FloatOp::F64Sub, fu) && VM::spec_only_stack(a, b),
        Instruction::F64Mul => spec_float_binop_result(a, b, r, FloatOp::F64Mul, fu) && VM::spec_only_stack(a, b),
        Instruction::F64Div => spec_float_binop_result(a, b, r, FloatOp::F64Div, fu) && VM::spec_only_stack(a, b),
        Instruction::F64Min => spec_float_binop_result(a, b, r, FloatOp::F64Min, fu) && VM::spec_only_stack(a, b),
        Instruction::F64Max => spec_float_binop_result(a, b, r, FloatOp::F64Max, fu) && VM::spec_only_stack(a, b),
        Instruction::F64CopySign => spec_float_binop_result(a, b, r, FloatOp::F64CopySign, fu) && VM::spec_only_stack(a, b),
        Instruction::I32WrapI64 => spec_unop_result(a, b, r, (|a: u64| (a as u32) as u64)) && VM::spec_only_stack(a, b),
        Instruction::I32TruncF32S => spec_float_unop_result(a, b, r, FloatOp::I32TruncF32S, fu) && VM::spec_only_stack(a, b),
        Instruction::I32TruncF32U => spec_float_unop_result(a, b, r, FloatOp::I32TruncF32U, fu) && VM::spec_only_stack(a, b),
        Instruction::I32TruncF64S => spec_float_unop_result(a, b, r, FloatOp::I32TruncF64S, fu) && VM::spec_only_stack(a, b),
        Instruction::I32TruncF64U => spec_float_unop_result(a, b, r, FloatOp::I32TruncF64U, fu) && VM::spec_only_stack(a, b),
        Instruction::I64ExtendI32S => spec_unop_result(a, b, r, (|a: u64| (((a as u32) as i32) as i64) as u64)) && VM::spec_only_stack(a, b),
        Instruction::I64ExtendI32U => spec_unop_result(a, b, r, (|a: u64| (a as u32) as u64)) && VM::spec_only_stack(a, b),
        Instruction::I64TruncF32S => spec_float_unop_result(a, b, r, FloatOp::I64TruncF32S, fu) && VM::spec_only_stack(a, b),
        Instruction::I64TruncF32U => spec_float_unop_result(a, b, r, FloatOp::I64TruncF32U, fu) && VM::spec_only_stack(a, b),
        Instruction::I64TruncF64S => spec_float_unop_result(a, b, r, FloatOp::I64TruncF64S, fu) && VM::spec_only_stack(a, b),
        Instruction::I64TruncF64U => spec_float_unop_result(a, b, r, FloatOp::I64TruncF64U, fu) && VM::spec_only_stack(a, b),
        Instruction::F32ConvertI32S => spec_float_unop_result(a, b, r, FloatOp::F32ConvertI32S, fu) && VM::spec_only_stack(a, b),
        Instruction::F32ConvertI32U => spec_float_unop_result(a, b, r, FloatOp::F32ConvertI32U, fu) && VM::spec_only_stack(a, b),
        Instruction::F32ConvertI64S => spec_float_unop_result(a, b, r, FloatOp::F32ConvertI64S, fu) && VM::spec_only_stack(a, b),
        Instruction::F32ConvertI64U => spec_float_unop_result(a, b, r, FloatOp::F32ConvertI64U, fu) && VM::spec_only_stack(a, b),
        Instruction::F32DemoteF64 => spec_float_unop_result(a, b, r, FloatOp::F32DemoteF64, fu) && VM::spec_only_stack(a, b),
        Instruction::F64ConvertI32S => spec_float_unop_result(a, b, r, FloatOp::F64ConvertI32S, fu) && VM::spec_only_stack(a, b),
        Instruction::F64ConvertI32U => spec_float_unop_result(a, b, r, FloatOp::F64ConvertI32U, fu) && VM::spec_only_stack(a, b),
        Instruction::F64ConvertI64S => spec_float_unop_result(a, b, r, FloatOp::F64ConvertI64S, fu) && VM::spec_only_stack(a, b),
        Instruction::F64ConvertI64U => spec_float_unop_result(a, b, r, FloatOp::F64ConvertI64U, fu) && VM::spec_only_stack(a, b),
        Instruction::F64PromoteF32 => spec_float_unop_result(a, b, r, FloatOp::F64PromoteF32, fu) && VM::spec_only_stack(a, b),
        Instruction::I32ReinterpretF32 => r is Ok && *b == *a,
        Instruction::I64ReinterpretF64 => r is Ok && *b == *a,
        Instruction::F32ReinterpretI32 => r is Ok && *b == *a,
        Instruction::F64ReinterpretI64 => r is Ok && *b == *a,
        Instruction::I32Extend8S => spec_unop_result(a, b, r, (|a: u64| (((((a as u8) as i8) as i32) as u32) as u64))) && VM::spec_only_stack(a, b),
        Instruction::I32Extend16S => spec_unop_result(a, b, r, (|a: u64| (((((a as u16) as i16) as i32) as u32) as u64))) && VM::spec_only_stack(a, b),
        Instruction::I64Extend8S => spec_unop_result(a, b, r, (|a: u64| ((((a as u8) as i8) as i64) as u64))) && VM::spec_only_stack(a, b),
        Instruction::I64Extend16S => spec_unop_result(a, b, r, (|a: u64| ((((a as u16) as i16) as i64) as u64))) && VM::spec_only_stack(a, b),
        Instruction::I64Extend32S => spec_unop_result(a, b, r, (|a: u64| ((((a as u32) as i32) as i64) as u64))) && VM::spec_only_stack(a, b),
        Instruction::TruncSat(sel) => spec_trunc_sat_result(a, b, r, sel, fu) && VM::spec_only_stack(a, b),
    }
}

/// What a normal block exit does: pop the top frame, keep exactly its
/// results, discard its other operands; fails exactly when the results do
/// not fit above the frame's base pointer.
pub open spec fn spec_exit_result(a: &VM, b: &VM, r: Result<(), Fault>) -> bool {
    let frames = a.control_stack.frames@;
    let s = a.operand_stack@;
    let n = s.len() as int;
    let cf = frames.last();
    let k = cf.block_type.result_types@.len() as int;
    &&& VM::spec_only_stack_and_frames(a, b)
    &&& b.control_stack.frames@ == frames.drop_last()
    &&& if cf.bp + k > n {
        r == Result::<(), Fault>::Err(Fault::StackUnderflow) && b.operand_stack@ == s
    } else {
        r is Ok && b.operand_stack@ == s.take(cf.bp as int) + s.subrange(n - k, n)
    }
}

/// Whether the top frame's body is exhausted.
pub open spec fn spec_top_done(a: &VM) -> bool {
    a.control_stack.frames@.last().pc >= a.control_stack.frames@.last().instrs@.len()
}

/// The frame stack with the top frame's program counter moved past the
/// instruction just fetched.
pub open spec fn spec_bump_pc(frames: Seq<ControlFrame>) -> Seq<ControlFrame> {
    let f = frames.last();
    frames.update(
        frames.len() - 1,
        ControlFrame {
            opcode: f.opcode,
            block_type: f.block_type,
            instrs: f.instrs,
            bp: f.bp,
            pc: (f.pc + 1) as usize,
        },
    )
}

/// One iteration of the main interpreter loop: with at least one active
/// frame, either the top frame's body is done and the frame is exited, or
/// the next instruction is fetched, the program counter advances, and the
/// instruction is dispatched per `spec_step`.
pub open spec fn spec_loop_iteration<'a, F: Fn(FloatOp, u64, u64) -> Option<u64>>(
    a: VM<'a>,
    b: VM<'a>,
    r: Result<(), Fault>,
    fu: &F,
) -> bool {
    &&& a.control_stack.frames@.len() >= 1
    &&& if spec_top_done(&a) {
        spec_exit_result(&a, &b, r)
    } else {
        exists|mid: VM<'a>|
            {
                &&& mid.operand_stack == a.operand_stack
                &&& mid.module == a.module
                &&& mid.memory == a.memory
                &&& mid.local_0_idx == a.local_0_idx
                &&& mid.globals == a.globals
                &&& mid.vm_funcs == a.vm_funcs
                &&& mid.table == a.table
                &&& mid.output == a.output
                &&& mid.control_stack.frames@ == spec_bump_pc(a.control_stack.frames@)
                &&& #[trigger] spec_step(
                    &mid,
                    &b,
                    r,
                    a.control_stack.frames@.last().instrs@[a.control_stack.frames@.last().pc as int],
                    fu,
                )
            }
    }
}

/// A trace of legal loop iterations (each an exit of a finished frame or a
/// fetch-and-dispatch per `spec_step`) from engine `a` to engine `b`,
/// ending when the entry frame has been left (success), when the iteration
/// budget is spent, or at the first failing iteration.
pub open spec fn spec_run_reaches<'a, F: Fn(FloatOp, u64, u64) -> Option<u64>>(
    a: VM<'a>,
    b: VM<'a>,
    r: Result<(), Fault>,
    fuel: u64,
    fu: &F,
    tr: Seq<VM<'a>>,
) -> bool {
    let depth0 = a.control_stack.frames@.len() as int;
    &&& tr.len() >= 1
    &&& tr.first() == a
    &&& (forall|i: int|
        #![auto]
        0 <= i < tr.len() - 1 ==> spec_loop_iteration(
            tr[i],
            tr[i + 1],
            Result::<(), Fault>::Ok(()),
            fu,
        ) && tr[i].control_stack.frames@.len() >= depth0)
    &&& match r {
        Ok(()) => b == tr.last() && tr.last().control_stack.frames@.len() < depth0,
        Err(e) => (e == Fault::OutOfFuel && b == tr.last()
            && tr.last().control_stack.frames@.len() >= depth0 && tr.len() == fuel + 1) || (
        tr.last().control_stack.frames@.len() >= depth0 && spec_loop_iteration(
            tr.last(),
            b,
            r,
            fu,
        )),
    }
}

/// What a bounded run of the main loop does: some legal iteration trace
/// connects the engine before it to the engine after it.
pub open spec fn spec_main_loop_result<'a, F: Fn(FloatOp, u64, u64) -> Option<u64>>(
    a: &VM<'a>,
    b: &VM<'a>,
    r: Result<(), Fault>,
    fuel: u64,
    fu: &F,
) -> bool {
    let depth0 = a.control_stack.frames@.len() as int;
    if depth0 == 0 {
        r is Ok && *b == *a
    } else {
        exists|tr: Seq<VM<'a>>| #[trigger] spec_run_reaches(*a, *b, r, fuel, fu, tr)
    }
}

/// The host function a member name of the `env` module resolves to.
pub open spec fn spec_host_of_name(name: Seq<char>) -> Option<HostFunc> {
    if name == "print_char"@ {
        Option::Some(HostFunc::PrintChar)
    } else if name == "assert_true"@ {
        Option::Some(HostFunc::AssertTrue)
    } else if name == "assert_false"@ {
        Option::Some(HostFunc::AssertFalse)
    } else if name == "assert_eq_i32"@ {
        Option::Some(HostFunc::AssertEqI32)
    } else if name == "assert_eq_i64"@ {
        Option::Some(HostFunc::AssertEqI64)
    } else if name == "assert_eq_f32"@ {
        Option::Some(HostFunc::AssertEqF32)
    } else if name == "assert_eq_f64"@ {
        Option::Some(HostFunc::AssertEqF64)
    } else {
        Option::None
    }
}

/// The host bindings the `env` function imports demand, with their type
/// indices, in import order; or the fault the first unresolvable import
/// raises. Imports of other modules, and non-function imports, are passed
/// over.
pub open spec fn spec_link_env(imports: Seq<Import>, types: Seq<FuncType>) -> Result<
    Seq<(HostFunc, int)>,
    Fault,
>
    decreases imports.len(),
{
    if imports.len() == 0 {
        Result::Ok(Seq::empty())
    } else {
        let imp = imports[0];
        let rest = spec_link_env(imports.drop_first(), types);
        match imp.desc {
            ImportDesc::Func(ti) => if imp.module_name@ == "env"@ {
                if ti >= types.len() {
                    Result::Err(Fault::TypeIndexOutOfRange)
                } else {
                    match spec_host_of_name(imp.member_name@) {
                        Option::Some(h) => match rest {
                            Result::Ok(tail) => Result::Ok(seq![(h, ti as int)] + tail),
                            Result::Err(e) => Result::Err(e),
                        },
                        Option::None => Result::Err(Fault::UnknownImport),
                    }
                }
            } else {
                rest
            },
            _ => rest,
        }
    }
}

/// The fault the internal function section raises, walking it from `pos`: a
/// type index outside the type section, or a function without a code entry.
pub open spec fn spec_internal_funcs_error(
    func_sec: Seq<u32>,
    types_len: int,
    code_len: int,
    pos: int,
) -> Option<Fault>
    decreases func_sec.len(),
{
    if func_sec.len() == 0 {
        Option::None
    } else if func_sec[0] >= types_len {
        Option::Some(Fault::TypeIndexOutOfRange)
    } else if pos >= code_len {
        Option::Some(Fault::FunctionIndexOutOfRange)
    } else {
        spec_internal_funcs_error(func_sec.drop_first(), types_len, code_len, pos + 1)
    }
}

/// Whether `e` is the engine's form of the module's `j`-th internal
/// function: no host binding, the function's declared type, and the
/// code-section body.
pub open spec fn spec_internal_entry(m: &Module, e: VMFunc, j: int) -> bool {
    let ty = m.type_sec@[m.func_sec@[j] as int];
    &&& e.host is None
    &&& e.code matches Some(c) && c.locals@ == m.code_sec@[j].locals@ && c.expr@ == m.code_sec@[
        j].expr@
    &&& e.func_type.params_types@ == ty.params_types@
    &&& e.func_type.result_types@ == ty.result_types@
}

/// The slot a single constant instruction pushes, if it is one.
pub open spec fn spec_const_instr_value(i: Instruction) -> Option<u64> {
    match i {
        Instruction::I32Const(v) => Option::Some((v as u32) as u64),
        Instruction::I64Const(v) => Option::Some(v as u64),
        Instruction::F32Const(b) => Option::Some(b as u64),
        Instruction::F64Const(b) => Option::Some(b),
        _ => Option::None,
    }
}

/// Whether every global's initialiser is a single constant instruction, the
/// canonical form the binary format produces.
pub open spec fn spec_const_global_exprs(globals: Seq<Global>) -> bool {
    forall|i: int|
        0 <= i < globals.len() ==> (#[trigger] globals[i]).init_expr@.len() == 1
            && spec_const_instr_value(globals[i].init_expr@[0]) is Some
}

/// What populating the globals does: one global per declaration, carrying
/// its declared type; and when every initialiser is a single constant (the
/// canonical form), the run succeeds, stores exactly those constants, and
/// touches nothing else.
pub open spec fn spec_init_globals_result(a: &VM, b: &VM, r: Result<(), Fault>) -> bool {
    &&& b.module == a.module
    &&& b.vm_funcs@ == a.vm_funcs@
    &&& b.table == a.table
    &&& (r is Ok ==> b.globals@.len() == a.globals@.len() + a.module.global_sec@.len() && (forall|
        i: int,
    |
        0 <= i < a.module.global_sec@.len() ==> (#[trigger] b.globals@[a.globals@.len()
            + i]).global_type == a.module.global_sec@[i].global_type))
    &&& (spec_const_global_exprs(a.module.global_sec@) ==> ({
        &&& r is Ok
        &&& b.operand_stack@ == a.operand_stack@
        &&& b.memory == a.memory
        &&& b.control_stack.frames@ == a.control_stack.frames@
        &&& b.local_0_idx == a.local_0_idx
        &&& b.output@ == a.output@
        &&& forall|i: int|
            0 <= i < a.module.global_sec@.len() ==> (#[trigger] b.globals@[a.globals@.len()
                + i]).val == spec_const_instr_value(
                a.module.global_sec@[i].init_expr@[0],
            )->Some_0
    }))
}

/// Memory after writing the data segments in order, each at its constant
/// offset, when every segment has a single-constant offset expression and
/// fits; nothing otherwise.
pub open spec fn spec_apply_data_segs(mem: Seq<u8>, segs: Seq<Data>) -> Option<Seq<u8>>
    decreases segs.len(),
{
    if segs.len() == 0 {
        Option::Some(mem)
    } else {
        let d = segs[0];
        if d.offset@.len() == 1 && spec_const_instr_value(d.offset@[0]) is Some {
            let off = spec_const_instr_value(d.offset@[0])->Some_0 as int;
            if off + d.init@.len() <= mem.len() {
                spec_apply_data_segs(
                    mem.take(off) + d.init@ + mem.skip(off + d.init@.len()),
                    segs.drop_first(),
                )
            } else {
                Option::None
            }
        } else {
            Option::None
        }
    }
}

/// What populating linear memory does: when the data segments are in the
/// canonical constant-offset form and all fit, the run succeeds, the bytes
/// land at their offsets in order, and nothing else changes.
pub open spec fn spec_init_memory_result(a: &VM, b: &VM, r: Result<(), Fault>) -> bool {
    &&& b.module == a.module
    &&& b.vm_funcs@ == a.vm_funcs@
    &&& b.table == a.table
    &&& b.globals@.len() == a.globals@.len()
    &&& match spec_apply_data_segs(a.memory.data@, a.module.data_sec@) {
        Option::Some(m2) => {
            &&& r is Ok
            &&& b.memory.data@ == m2
            &&& b.memory.mem_type == a.memory.mem_type
            &&& b.operand_stack@ == a.operand_stack@
            &&& b.control_stack.frames@ == a.control_stack.frames@
            &&& b.local_0_idx == a.local_0_idx
            &&& b.globals@ == a.globals@
            &&& b.output@ == a.output@
        },
        Option::None => true,
    }
}

/// Whether every element segment has a single-constant offset, lies inside
/// a table of `table_size` entries, and names functions inside the space.
pub open spec fn spec_elem_segs_ok(segs: Seq<Elem>, table_size: int, funcs_len: int) -> bool {
    forall|i: int|
        0 <= i < segs.len() ==> {
            let d = #[trigger] segs[i];
            &&& d.offset@.len() == 1
            &&& spec_const_instr_value(d.offset@[0]) is Some
            &&& ((spec_const_instr_value(d.offset@[0])->Some_0 as u32) as int) + d.init@.len()
                <= table_size
            &&& forall|j: int| 0 <= j < d.init@.len() ==> (#[trigger] d.init@[j]) < funcs_len
        }
}

/// The function index the last element segment covering slot `j` writes
/// there, if any.
pub open spec fn spec_elem_slot(segs: Seq<Elem>, j: int) -> Option<int>
    decreases segs.len(),
{
    if segs.len() == 0 {
        Option::None
    } else {
        let d = segs.last();
        if d.offset@.len() == 1 && spec_const_instr_value(d.offset@[0]) is Some && ((
        spec_const_instr_value(d.offset@[0])->Some_0 as u32) as int) <= j < ((
        spec_const_instr_value(d.offset@[0])->Some_0 as u32) as int) + d.init@.len() {
            Option::Some(d.init@[j - ((spec_const_instr_value(d.offset@[0])->Some_0 as u32) as int)] as int)
        } else {
            spec_elem_slot(segs.drop_last(), j)
        }
    }
}

/// What building and filling the table does: without a table section
/// nothing happens; with one, and element segments in the canonical
/// constant-offset form that lie inside the table and the function space,
/// the run succeeds and each slot holds the function the last segment
/// covering it names, every other slot staying unbound.
pub open spec fn spec_init_table_result(a: &VM, b: &VM, r: Result<(), Fault>) -> bool {
    &&& b.module == a.module
    &&& b.vm_funcs@ == a.vm_funcs@
    &&& b.globals@.len() == a.globals@.len()
    &&& (a.module.table_sec@.len() == 0 ==> r is Ok && *b == *a)
    &&& ((a.module.table_sec@.len() > 0 && spec_elem_segs_ok(
        a.module.elem_sec@,
        a.module.table_sec@[0].limits.min as int,
        a.vm_funcs@.len() as int,
    )) ==> ({
        &&& r is Ok
        &&& b.table matches Some(t) && t.elems@.len() == a.module.table_sec@[0].limits.min && (
        forall|j: int|
            #![trigger t.elems@[j]]
            0 <= j < t.elems@.len() ==> match spec_elem_slot(a.module.elem_sec@, j) {
                Option::Some(fi) => crate::table::spec_func_eq(&a.vm_funcs@[fi], &t.elems@[j]),
                Option::None => t.elems@[j].code is None && t.elems@[j].host is None,
            })
        &&& b.operand_stack@ == a.operand_stack@
        &&& b.memory == a.memory
        &&& b.control_stack.frames@ == a.control_stack.frames@
        &&& b.local_0_idx == a.local_0_idx
        &&& b.globals@ == a.globals@
        &&& b.output@ == a.output@
    }))
}

/// The engine `VM::new` yields for `module`: empty run-time state and a
/// memory of the declared minimum page count, zero-filled.
pub open spec fn spec_fresh_vm<'a>(module: &'a Module, vm: VM<'a>) -> bool {
    let mt = if module.mem_sec@.len() > 0 {
        module.mem_sec@[0]
    } else {
        (Limits { min: 0, max: Option::None })
    };
    &&& vm.wf()
    &&& vm.module == module
    &&& vm.operand_stack@ == Seq::<u64>::empty()
    &&& vm.control_stack.frames@ == Seq::<ControlFrame>::empty()
    &&& vm.globals@.len() == 0
    &&& vm.vm_funcs@.len() == 0
    &&& vm.table is None
    &&& vm.output@.len() == 0
    &&& vm.memory.mem_type == mt
    &&& vm.memory.data@ == Seq::new(
        (mt.min * crate::memory::spec_page_size()) as nat,
        |i: int| 0u8,
    )
}

/// What calling the entry function and running the loop does: the call's
/// contract, then on success a bounded run whose printed bytes are the
/// result.
pub open spec fn spec_entry_run<'a, F: Fn(FloatOp, u64, u64) -> Option<u64>>(
    v: VM<'a>,
    entry: u32,
    r: Result<Vec<u8>, Fault>,
    fuel: u64,
    fu: &F,
) -> bool {
    exists|v5: VM<'a>, r5: Result<(), Fault>|
        #[trigger] spec_call_result(&v, &v5, r5, entry, fu) && match r5 {
            Result::Err(e) => r == Result::<Vec<u8>, Fault>::Err(e),
            Result::Ok(()) => exists|v6: VM<'a>, r6: Result<(), Fault>|
                #[trigger] spec_main_loop_result(&v5, &v6, r6, fuel, fu) && match r6 {
                    Result::Ok(()) => r matches Ok(out) && out@ == v6.output@,
                    Result::Err(e) => r == Result::<Vec<u8>, Fault>::Err(e),
                },
        }
}

/// What a whole run does: a fresh engine, the four initialisation phases in
/// order, the entry function (the start section's, else the first export
/// named `main`), and the interpreter loop; the result is the first fault,
/// or the printed bytes.
pub open spec fn spec_exec_main_result<'a, F: Fn(FloatOp, u64, u64) -> Option<u64>>(
    module: &'a Module,
    r: Result<Vec<u8>, Fault>,
    fuel: u64,
    fu: &F,
) -> bool {
    let mt = if module.mem_sec@.len() > 0 {
        module.mem_sec@[0]
    } else {
        (Limits { min: 0, max: Option::None })
    };
    if mt.min > crate::memory::spec_page_limit(mt) || mt.min * crate::memory::spec_page_size()
        > usize::MAX {
        r == Result::<Vec<u8>, Fault>::Err(Fault::BadMemoryLimits)
    } else {
        exists|v0: VM<'a>, v1: VM<'a>, r1: Result<(), Fault>|
            {
                &&& #[trigger] spec_init_memory_result(&v0, &v1, r1)
                &&& spec_fresh_vm(module, v0)
                &&& match r1 {
                    Result::Err(e) => r == Result::<Vec<u8>, Fault>::Err(e),
                    Result::Ok(()) => exists|v2: VM<'a>, r2: Result<(), Fault>|
                        #[trigger] spec_init_globals_result(&v1, &v2, r2) && match r2 {
                            Result::Err(e) => r == Result::<Vec<u8>, Fault>::Err(e),
                            Result::Ok(()) => exists|v3: VM<'a>, r3: Result<(), Fault>|
                                #[trigger] spec_init_funcs_result(&v2, &v3, r3) && match r3 {
                                    Result::Err(e) => r == Result::<Vec<u8>, Fault>::Err(e),
                                    Result::Ok(()) => exists|v4: VM<'a>, r4: Result<(), Fault>|
                                        #[trigger] spec_init_table_result(&v3, &v4, r4) && match r4 {
                                            Result::Err(e) => r == Result::<Vec<u8>, Fault>::Err(
                                                e,
                                            ),
                                            Result::Ok(()) => match module.start_sec {
                                                Option::Some(idx) => spec_entry_run(
                                                    v4,
                                                    idx,
                                                    r,
                                                    fuel,
                                                    fu,
                                                ),
                                                Option::None => if (exists|i: int|
                                                    0 <= i < module.export_sec@.len()
                                                        && spec_is_main_func(
                                                        #[trigger] &module.export_sec@[i],
                                                    )) {
                                                    exists|idx: u32, i: int|
                                                        #![auto]
                                                        {
                                                            &&& 0 <= i < module.export_sec@.len()
                                                            &&& spec_is_main_func(
                                                                &module.export_sec@[i],
                                                            )
                                                            &&& module.export_sec@[i].desc
                                                                == crate::module::ExportDesc::Func(
                                                                idx,
                                                            )
                                                            &&& spec_entry_run(
                                                                v4,
                                                                idx,
                                                                r,
                                                                fuel,
                                                                fu,
                                                            )
                                                        }
                                                } else {
                                                    r == Result::<Vec<u8>, Fault>::Err(
                                                        Fault::NoEntryFunction,
                                                    )
                                                },
                                            },
                                        },
                                },
                        },
                }
            }
    }
}

/// Nothing but the function space changed.
pub open spec fn spec_only_funcs(a: &VM, b: &VM) -> bool {
    &&& b.module == a.module
    &&& b.operand_stack == a.operand_stack
    &&& b.memory == a.memory
    &&& b.control_stack.frames@ == a.control_stack.frames@
    &&& b.local_0_idx == a.local_0_idx
    &&& b.globals@ == a.globals@
    &&& b.table == a.table
    &&& b.output@ == a.output@
}

/// What linking the host imports does: one entry per `env` function import,
/// resolved by member name, in order, each carrying its declared type;
/// refused at the first unknown `env` member or invalid type index.
pub open spec fn spec_link_result(a: &VM, b: &VM, r: Result<(), Fault>) -> bool {
    &&& spec_only_funcs(a, b)
    &&& match spec_link_env(a.module.import_sec@, a.module.type_sec@) {
        Result::Ok(pairs) => r is Ok && b.vm_funcs@.len() == a.vm_funcs@.len() + pairs.len() && (
        forall|k: int| 0 <= k < a.vm_funcs@.len() ==> (#[trigger] b.vm_funcs@[k]) == a.vm_funcs@[
            k]) && (forall|k: int|
            #![trigger pairs[k]]
            0 <= k < pairs.len() ==> {
                let e = b.vm_funcs@[a.vm_funcs@.len() + k];
                &&& e.host == Option::Some(pairs[k].0)
                &&& e.code is None
                &&& e.func_type.params_types@ == a.module.type_sec@[pairs[k].1].params_types@
                &&& e.func_type.result_types@ == a.module.type_sec@[pairs[k].1].result_types@
            }),
        Result::Err(e) => r == Result::<(), Fault>::Err(e),
    }
}

/// What building the function space does: the linked host imports first,
/// then the module's own functions in code-section order, each carrying its
/// declared type and body.
pub open spec fn spec_init_funcs_result(a: &VM, b: &VM, r: Result<(), Fault>) -> bool {
    &&& spec_only_funcs(a, b)
    &&& match spec_link_env(a.module.import_sec@, a.module.type_sec@) {
        Result::Err(e) => r == Result::<(), Fault>::Err(e),
        Result::Ok(pairs) => {
            let base = a.vm_funcs@.len() + pairs.len();
            match spec_internal_funcs_error(
                a.module.func_sec@,
                a.module.type_sec@.len() as int,
                a.module.code_sec@.len() as int,
                0,
            ) {
                Option::Some(e) => r == Result::<(), Fault>::Err(e),
                Option::None => r is Ok && b.vm_funcs@.len() == base + a.module.func_sec@.len()
                    && (forall|k: int|
                    0 <= k < a.vm_funcs@.len() ==> (#[trigger] b.vm_funcs@[k]) == a.vm_funcs@[k])
                    && (forall|k: int|
                    #![trigger pairs[k]]
                    0 <= k < pairs.len() ==> {
                        let e = b.vm_funcs@[a.vm_funcs@.len() + k];
                        &&& e.host == Option::Some(pairs[k].0)
                        &&& e.code is None
                        &&& e.func_type.params_types@ == a.module.type_sec@[pairs[k].1].params_types@
                        &&& e.func_type.result_types@ == a.module.type_sec@[pairs[k].1].result_types@
                    }) && (forall|j: int|
                    0 <= j < a.module.func_sec@.len() ==> #[trigger] spec_internal_entry(
                        a.module,
                        b.vm_funcs@[base + j],
                        j,
                    )),
            }
        },
    }
}

impl<'a> VM<'a> {
    /// Branch to relative depth `d`: pop `d` frames; then a loop head is
    /// re-entered (program counter reset, parameters kept), any other frame
    /// is exited normally. A label not strictly inside the control stack is
    /// refused.
    /// Branch to relative depth `d`: pop `d` frames; then a loop head is
    /// re-entered (program counter reset, parameters kept), any other frame
    /// is exited normally. A label not strictly inside the control stack is
    /// refused; otherwise the branch fails only when the target frame's
    /// parameters or results do not fit above its base pointer.
    pub fn br(&mut self, label_idx: u32) -> (r: Result<(), Fault>)
        requires
            old(self).wf(),
        ensures
            final(self).wf(),
            VM::spec_only_stack_and_frames(old(self), final(self)),
            spec_br_result(
                old(self).control_stack.frames@,
                old(self).operand_stack@,
                final(self),
                r,
                label_idx as int,
            ),
    {
        self.br_depth(label_idx as usize)
    }

    /// The branch itself, over a machine-sized depth.
    fn br_depth(&mut self, d: usize) -> (r: Result<(), Fault>)
        requires
            old(self).wf(),
        ensures
            final(self).wf(),
            VM::spec_only_stack_and_frames(old(self), final(self)),
            spec_br_result(
                old(self).control_stack.frames@,
                old(self).operand_stack@,
                final(self),
                r,
                d as int,
            ),
    {
        let depth = self.control_stack.control_depth();
        if d >= depth {
            return Result::Err(Fault::BadLabel);
        }
        let target = depth - d;
        self.control_stack.truncate_frames(target);
        proof {
            let of = old(self).control_stack.frames@;
            let frames = self.control_stack.frames@;
            assert(forall|i: int| 0 <= i < frames.len() ==> frames[i] == of[i]);
            assert forall|i: int, j: int|
                0 <= i <= j < frames.len() implies (#[trigger] frames[i]).bp <= (
            #[trigger] frames[j]).bp by {
                assert(of[i].bp <= of[j].bp);
            }
        }
        let is_loop = matches!(self.control_stack.top_frame_ref().opcode, FrameKind::Loop);
        if !is_loop {
            let res = self.exit_block();
            proof {
                assert(old(self).control_stack.frames@.take(target as int).drop_last() =~= old(self).control_stack.frames@.take(target - 1));
            }
            res
        } else {
            let (bp, params) = {
                let cf = self.control_stack.top_frame_ref();
                (cf.bp, cf.block_type.params_types.len())
            };
            {
                let ghost pre = self.control_stack.frames@;
                let cf = self.control_stack.top_control_frame();
                cf.pc = 0;
                proof {
                    lemma_wf_pc_update(
                        pre,
                        self.control_stack.frames@,
                        self.operand_stack@.len() as int,
                    );
                    assert(forall|i: int|
                        0 <= i < pre.len() - 1 ==> self.control_stack.frames@[i] == pre[i]);
                }
            }
            let res = self.stack_exit(bp, params);
            self.refresh_local_0();
            match res {
                Result::Ok(()) => {
                    proof {
                        lemma_frames_wf_depth(
                            self.control_stack.frames@,
                            old(self).operand_stack@.len() as int,
                            self.operand_stack@.len() as int,
                        );
                    }
                    Result::Ok(())
                },
                Result::Err(e) => Result::Err(e),
            }
        }
    }

    /// Branch iff the popped condition is non-zero.
    pub fn br_if(&mut self, label_idx: u32) -> (r: Result<(), Fault>)
        requires
            old(self).wf(),
        ensures
            final(self).wf(),
            VM::spec_only_stack_and_frames(old(self), final(self)),
            old(self).spec_avail() < 1 ==> r == Result::<(), Fault>::Err(Fault::StackUnderflow)
                && *final(self) == *old(self),
            old(self).spec_avail() >= 1 && old(self).operand_stack@.last() == 0 ==> r is Ok
                && final(self).operand_stack@ == old(self).operand_stack@.drop_last()
                && final(self).control_stack.frames@ == old(self).control_stack.frames@,
            old(self).spec_avail() >= 1 && old(self).operand_stack@.last() != 0
                ==> spec_br_result(
                old(self).control_stack.frames@,
                old(self).operand_stack@.drop_last(),
                final(self),
                r,
                label_idx as int,
            ),
    {
        if self.avail() < 1 {
            return Result::Err(Fault::StackUnderflow);
        }
        let cond = self.pop1();
        if cond != 0 {
            self.br(label_idx)
        } else {
            Result::Ok(())
        }
    }

    /// Branch through a label vector: the popped index selects a label, or
    /// the default past the end.
    pub fn br_table(&mut self, labels: &Vec<u32>, default: u32) -> (r: Result<(), Fault>)
        requires
            old(self).wf(),
        ensures
            final(self).wf(),
            VM::spec_only_stack_and_frames(old(self), final(self)),
            old(self).spec_avail() < 1 ==> r == Result::<(), Fault>::Err(Fault::StackUnderflow)
                && *final(self) == *old(self),
            old(self).spec_avail() >= 1 ==> ({
                let s = old(self).operand_stack@;
                let idx = s.last() as u32;
                let lab = if idx < labels@.len() {
                    labels@[idx as int]
                } else {
                    default
                };
                spec_br_result(
                    old(self).control_stack.frames@,
                    s.drop_last(),
                    final(self),
                    r,
                    lab as int,
                )
            }),
    {
        if self.avail() < 1 {
            return Result::Err(Fault::StackUnderflow);
        }
        let idx = self.pop1() as u32;
        let label = if (idx as usize) < labels.len() {
            labels[idx as usize]
        } else {
            default
        };
        self.br(label)
    }

    /// Return from the current function: branch to the topmost call frame,
    /// which is exited with its results.
    pub fn return_instr(&mut self) -> (r: Result<(), Fault>)
        requires
            old(self).wf(),
        ensures
            final(self).wf(),
            VM::spec_only_stack_and_frames(old(self), final(self)),
            ({
                let frames = old(self).control_stack.frames@;
                match spec_top_call(frames) {
                    Option::Some(i) => spec_br_result(
                        frames,
                        old(self).operand_stack@,
                        final(self),
                        r,
                        frames.len() - 1 - i,
                    ),
                    Option::None => r == Result::<(), Fault>::Err(Fault::BadLabel) && *final(self) == *old(self),
                }
            }),
    {
        let (cf, label_idx) = self.control_stack.top_call_frame();
        proof {
            lemma_top_call(self.control_stack.frames@);
        }
        match cf {
            Option::Some(_) => self.br_depth(label_idx),
            Option::None => Result::Err(Fault::BadLabel),
        }
    }

    /// Pop two slots and push what the float unit yields for `op`; a unit
    /// that yields nothing traps.
    pub fn float_binop<F: Fn(FloatOp, u64, u64) -> Option<u64>>(
        &mut self,
        op: FloatOp,
        fu: &F,
    ) -> (r: Result<(), Fault>)
        requires
            old(self).wf(),
            spec_float_unit_total(fu),
        ensures
            final(self).wf(),
            VM::spec_only_stack(old(self), final(self)),
            ({
                let s = old(self).operand_stack@;
                let n = s.len() as int;
                match r {
                    Ok(()) => old(self).spec_avail() >= 2 && (exists|x: u64|
                        #![auto]
                        call_ensures(*fu, (op, s[n - 2], s[n - 1]), Option::Some(x)) && final(self).operand_stack@ == s.take(n - 2).push(x)),
                    Err(e) => (e == Fault::StackUnderflow && old(self).spec_avail() < 2 && final(self).operand_stack@ == s) || (e == Fault::Trap(Trap::InvalidConversion) && old(self).spec_avail() >= 2 && call_ensures(
                        *fu,
                        (op, s[n - 2], s[n - 1]),
                        Option::None::<u64>,
                    ) && final(self).operand_stack@ == s.take(n - 2)),
                }
            }),
    {
        if self.avail() < 2 {
            return Result::Err(Fault::StackUnderflow);
        }
        let (a, b) = self.pop2();
        match fu(op, a, b) {
            Option::Some(x) => {
                self.push_val(x);
                Result::Ok(())
            },
            Option::None => Result::Err(Fault::Trap(Trap::InvalidConversion)),
        }
    }

    /// Pop one slot and push what the float unit yields for `op` applied to
    /// it (the unit's second argument is 0); a unit that yields nothing
    /// traps.
    pub fn float_unop<F: Fn(FloatOp, u64, u64) -> Option<u64>>(
        &mut self,
        op: FloatOp,
        fu: &F,
    ) -> (r: Result<(), Fault>)
        requires
            old(self).wf(),
            spec_float_unit_total(fu),
        ensures
            final(self).wf(),
            VM::spec_only_stack(old(self), final(self)),
            ({
                let s = old(self).operand_stack@;
                match r {
                    Ok(()) => old(self).spec_avail() >= 1 && (exists|x: u64|
                        #![auto]
                        call_ensures(*fu, (op, s.last(), 0u64), Option::Some(x)) && final(self).operand_stack@ == s.drop_last().push(x)),
                    Err(e) => (e == Fault::StackUnderflow && old(self).spec_avail() < 1 && final(self).operand_stack@ == s) || (e == Fault::Trap(Trap::InvalidConversion) && old(self).spec_avail() >= 1 && call_ensures(
                        *fu,
                        (op, s.last(), 0u64),
                        Option::None::<u64>,
                    ) && final(self).operand_stack@ == s.drop_last()),
                }
            }),
    {
        if self.avail() < 1 {
            return Result::Err(Fault::StackUnderflow);
        }
        let a = self.pop1();
        match fu(op, a, 0u64) {
            Option::Some(x) => {
                self.push_val(x);
                Result::Ok(())
            },
            Option::None => Result::Err(Fault::Trap(Trap::InvalidConversion)),
        }
    }

    /// Pop two slots and push 1 or 0 as the float unit's comparison verdict
    /// for `op` is non-zero or zero.
    pub fn float_cmp<F: Fn(FloatOp, u64, u64) -> Option<u64>>(
        &mut self,
        op: FloatOp,
        fu: &F,
    ) -> (r: Result<(), Fault>)
        requires
            old(self).wf(),
            spec_float_unit_total(fu),
        ensures
            final(self).wf(),
            VM::spec_only_stack(old(self), final(self)),
            ({
                let s = old(self).operand_stack@;
                let n = s.len() as int;
                match r {
                    Ok(()) => old(self).spec_avail() >= 2 && (exists|x: u64|
                        #![auto]
                        call_ensures(*fu, (op, s[n - 2], s[n - 1]), Option::Some(x)) && final(self).operand_stack@ == s.take(n - 2).push(
                            if x != 0 {
                                1u64
                            } else {
                                0u64
                            },
                        )),
                    Err(e) => (e == Fault::StackUnderflow && old(self).spec_avail() < 2 && final(self).operand_stack@ == s) || (e == Fault::Trap(Trap::InvalidConversion) && old(self).spec_avail() >= 2 && call_ensures(
                        *fu,
                        (op, s[n - 2], s[n - 1]),
                        Option::None::<u64>,
                    ) && final(self).operand_stack@ == s.take(n - 2)),
                }
            }),
    {
        if self.avail() < 2 {
            return Result::Err(Fault::StackUnderflow);
        }
        let (a, b) = self.pop2();
        match fu(op, a, b) {
            Option::Some(x) => {
                if x != 0 {
                    self.push_val(1);
                } else {
                    self.push_val(0);
                }
                Result::Ok(())
            },
            Option::None => Result::Err(Fault::Trap(Trap::InvalidConversion)),
        }
    }

    /// Host `print_char`: pop one value and append its low byte to the
    /// output.
    pub fn print_char(&mut self) -> (r: Result<(), Fault>)
        requires
            old(self).wf(),
        ensures
            final(self).wf(),
            final(self).module == old(self).module,
            final(self).memory == old(self).memory,
            final(self).control_stack.frames@ == old(self).control_stack.frames@,
            final(self).local_0_idx == old(self).local_0_idx,
            final(self).globals@ == old(self).globals@,
            final(self).vm_funcs@ == old(self).vm_funcs@,
            final(self).table == old(self).table,
            spec_print_char_result(
                old(self).operand_stack@,
                old(self).spec_avail(),
                old(self).output@,
                final(self),
                r,
            ),
    {
        if self.avail() < 1 {
            return Result::Err(Fault::StackUnderflow);
        }
        let v = self.pop1();
        self.output.push(v as u8);
        Result::Ok(())
    }

    /// Host `assert_true`: pop one value; fails unless its low 32 bits are
    /// non-zero.
    pub fn assert_true(&mut self) -> (r: Result<(), Fault>)
        requires
            old(self).wf(),
        ensures
            final(self).wf(),
            VM::spec_only_stack(old(self), final(self)),
            spec_assert_true_result(
                old(self).operand_stack@,
                old(self).spec_avail(),
                old(self).output@,
                final(self),
                r,
            ),
    {
        if self.avail() < 1 {
            return Result::Err(Fault::StackUnderflow);
        }
        let v = self.pop1();
        if v as u32 != 0 {
            Result::Ok(())
        } else {
            Result::Err(Fault::AssertFailed)
        }
    }

    /// Host `assert_false`: pop one value; fails unless its low 32 bits are
    /// zero.
    pub fn assert_false(&mut self) -> (r: Result<(), Fault>)
        requires
            old(self).wf(),
        ensures
            final(self).wf(),
            VM::spec_only_stack(old(self), final(self)),
            spec_assert_false_result(
                old(self).operand_stack@,
                old(self).spec_avail(),
                old(self).output@,
                final(self),
                r,
            ),
    {
        if self.avail() < 1 {
            return Result::Err(Fault::StackUnderflow);
        }
        let v = self.pop1();
        if v as u32 == 0 {
            Result::Ok(())
        } else {
            Result::Err(Fault::AssertFailed)
        }
    }

    /// Host `assert_eq_i32`: pop two values; fails unless their low 32 bits
    /// agree.
    pub fn assert_eq_i32(&mut self) -> (r: Result<(), Fault>)
        requires
            old(self).wf(),
        ensures
            final(self).wf(),
            VM::spec_only_stack(old(self), final(self)),
            spec_assert_eq_i32_result(
                old(self).operand_stack@,
                old(self).spec_avail(),
                old(self).output@,
                final(self),
                r,
            ),
    {
        if self.avail() < 2 {
            return Result::Err(Fault::StackUnderflow);
        }
        let (a, b) = self.pop2();
        if a as u32 == b as u32 {
            Result::Ok(())
        } else {
            Result::Err(Fault::AssertFailed)
        }
    }

    /// Host `assert_eq_i64`: pop two values; fails unless they agree.
    pub fn assert_eq_i64(&mut self) -> (r: Result<(), Fault>)
        requires
            old(self).wf(),
        ensures
            final(self).wf(),
            VM::spec_only_stack(old(self), final(self)),
            spec_assert_eq_i64_result(
                old(self).operand_stack@,
                old(self).spec_avail(),
                old(self).output@,
                final(self),
                r,
            ),
    {
        if self.avail() < 2 {
            return Result::Err(Fault::StackUnderflow);
        }
        let (a, b) = self.pop2();
        if a == b {
            Result::Ok(())
        } else {
            Result::Err(Fault::AssertFailed)
        }
    }

    /// Host `assert_eq_f32`: pop two values and fail unless the float unit
    /// finds their low 32 bits equal as floats.
    pub fn assert_eq_f32<F: Fn(FloatOp, u64, u64) -> Option<u64>>(&mut self, fu: &F) -> (r: Result<
        (),
        Fault,
    >)
        requires
            old(self).wf(),
            spec_float_unit_total(fu),
        ensures
            final(self).wf(),
            VM::spec_only_stack(old(self), final(self)),
            spec_assert_eq_f32_result(
                old(self).operand_stack@,
                old(self).spec_avail(),
                old(self).output@,
                final(self),
                r,
                fu,
            ),
    {
        if self.avail() < 2 {
            return Result::Err(Fault::StackUnderflow);
        }
        let (a, b) = self.pop2();
        match fu(FloatOp::F32Eq, (a as u32) as u64, (b as u32) as u64) {
            Option::Some(x) => {
                if x != 0 {
                    Result::Ok(())
                } else {
                    Result::Err(Fault::AssertFailed)
                }
            },
            Option::None => Result::Err(Fault::AssertFailed),
        }
    }

    /// Host `assert_eq_f64`: pop two values and fail unless the float unit
    /// finds them equal as doubles.
    pub fn assert_eq_f64<F: Fn(FloatOp, u64, u64) -> Option<u64>>(&mut self, fu: &F) -> (r: Result<
        (),
        Fault,
    >)
        requires
            old(self).wf(),
            spec_float_unit_total(fu),
        ensures
            final(self).wf(),
            VM::spec_only_stack(old(self), final(self)),
            spec_assert_eq_f64_result(
                old(self).operand_stack@,
                old(self).spec_avail(),
                old(self).output@,
                final(self),
                r,
                fu,
            ),
    {
        if self.avail() < 2 {
            return Result::Err(Fault::StackUnderflow);
        }
        let (a, b) = self.pop2();
        match fu(FloatOp::F64Eq, a, b) {
            Option::Some(x) => {
                if x != 0 {
                    Result::Ok(())
                } else {
                    Result::Err(Fault::AssertFailed)
                }
            },
            Option::None => Result::Err(Fault::AssertFailed),
        }
    }

    /// Enter a module-defined function: a call frame whose block type is the
    /// function's type, with one zero slot pushed per declared local.
    pub fn call_internal_func(&mut self, f: &VMFunc) -> (r: Result<(), Fault>)
        requires
            old(self).wf(),
            f.code is Some,
        ensures
            final(self).wf(),
            VM::spec_only_stack_and_frames(old(self), final(self)),
            spec_enter_function_result(
                old(self).control_stack.frames@,
                old(self).local_0_idx as int,
                old(self).operand_stack@,
                final(self),
                r,
                f.func_type.params_types@,
                f.func_type.result_types@,
                f.code->Some_0.locals@,
                f.code->Some_0.expr@,
            ),
    {
        let code = match &f.code {
            Option::Some(c) => c,
            Option::None => {
                return Result::Err(Fault::TooManyLocals);
            },
        };
        let local_cnt = code.get_local_count();
        if local_cnt >= 0xFFFF_FFFFu64 {
            return Result::Err(Fault::TooManyLocals);
        }
        let res = self.enter_block(
            FrameKind::Call,
            f.func_type.clone_type(),
            rc_clone(&code.expr),
        );
        match res {
            Result::Ok(()) => {},
            Result::Err(e) => {
                return Result::Err(e);
            },
        }
        let ghost mid = self.operand_stack@;
        let ghost mid_frames = self.control_stack.frames@;
        let ghost mid_l0 = self.local_0_idx;
        let mut i: u64 = 0;
        while i < local_cnt
            invariant
                self.wf(),
                i <= local_cnt,
                self.module == old(self).module,
                self.memory == old(self).memory,
                self.globals@ == old(self).globals@,
                self.vm_funcs@ == old(self).vm_funcs@,
                self.table == old(self).table,
                self.output@ == old(self).output@,
                self.control_stack.frames@ == mid_frames,
                self.operand_stack@ == mid + Seq::new(i as nat, |k: int| 0u64),
                self.local_0_idx == mid_l0,
            decreases local_cnt - i,
        {
            self.push_val(0);
            proof {
                assert(self.operand_stack@ =~= mid + Seq::new((i + 1) as nat, |k: int| 0u64));
            }
            i += 1;
        }
        proof {
            assert(self.operand_stack@ =~= old(self).operand_stack@ + Seq::new(
                local_cnt as nat,
                |k: int| 0u64,
            ));
        }
        Result::Ok(())
    }

    /// Run a host function: its arguments leave the stack and its effect is
    /// the host's (an output byte, or a failed assertion).
    pub fn call_external_func<F: Fn(FloatOp, u64, u64) -> Option<u64>>(
        &mut self,
        f: &VMFunc,
        fu: &F,
    ) -> (r: Result<(), Fault>)
        requires
            old(self).wf(),
            spec_float_unit_total(fu),
        ensures
            final(self).wf(),
            final(self).module == old(self).module,
            final(self).memory == old(self).memory,
            final(self).control_stack.frames@ == old(self).control_stack.frames@,
            final(self).local_0_idx == old(self).local_0_idx,
            final(self).globals@ == old(self).globals@,
            final(self).vm_funcs@ == old(self).vm_funcs@,
            final(self).table == old(self).table,
            match f.host {
                Option::Some(h) => spec_host_call_result(
                    h,
                    old(self).operand_stack@,
                    old(self).spec_avail(),
                    old(self).output@,
                    final(self),
                    r,
                    fu,
                ),
                Option::None => r == Result::<(), Fault>::Err(Fault::Trap(Trap::UndefinedElement))
                    && *final(self) == *old(self),
            },
    {
        match &f.host {
            Option::Some(h) => match h {
                HostFunc::PrintChar => self.print_char(),
                HostFunc::AssertTrue => self.assert_true(),
                HostFunc::AssertFalse => self.assert_false(),
                HostFunc::AssertEqI32 => self.assert_eq_i32(),
                HostFunc::AssertEqI64 => self.assert_eq_i64(),
                HostFunc::AssertEqF32 => self.assert_eq_f32(fu),
                HostFunc::AssertEqF64 => self.assert_eq_f64(fu),
            },
            Option::None => Result::Err(Fault::Trap(Trap::UndefinedElement)),
        }
    }

    /// Call the function at `f_idx` in the unified index space: a module
    /// function enters a new call frame, a host function runs at once.
    pub fn call<F: Fn(FloatOp, u64, u64) -> Option<u64>>(&mut self, f_idx: u32, fu: &F) -> (r:
        Result<(), Fault>)
        requires
            old(self).wf(),
            spec_float_unit_total(fu),
        ensures
            final(self).wf(),
            final(self).module == old(self).module,
            final(self).memory == old(self).memory,
            final(self).globals@ == old(self).globals@,
            final(self).vm_funcs@ == old(self).vm_funcs@,
            final(self).table == old(self).table,
            spec_call_result(old(self), final(self), r, f_idx, fu),
    {
        if f_idx as usize >= self.vm_funcs.len() {
            return Result::Err(Fault::FunctionIndexOutOfRange);
        }
        let f = self.vm_funcs[f_idx as usize].clone_func();
        proof {
            let orig = self.vm_funcs@[f_idx as int];
            assert(crate::table::spec_func_eq(&orig, &f));
            match (&orig.code, &f.code) {
                (Option::Some(oc), Option::Some(fc)) => {
                    assert(oc.locals@ == fc.locals@);
                    assert(oc.expr@ == fc.expr@);
                },
                _ => {},
            }
        }
        if f.code.is_some() {
            self.call_internal_func(&f)
        } else if f.host.is_some() {
            self.call_external_func(&f, fu)
        } else {
            Result::Err(Fault::Trap(Trap::UndefinedElement))
        }
    }

    /// Indirect call through the table: the popped index must lie inside the
    /// table, the entry must be bound, and its type must structurally equal
    /// the expected type; otherwise the call traps.
    pub fn call_indirect<F: Fn(FloatOp, u64, u64) -> Option<u64>>(
        &mut self,
        type_idx: u32,
        fu: &F,
    ) -> (r: Result<(), Fault>)
        requires
            old(self).wf(),
            spec_float_unit_total(fu),
        ensures
            final(self).wf(),
            final(self).module == old(self).module,
            final(self).memory == old(self).memory,
            final(self).globals@ == old(self).globals@,
            final(self).vm_funcs@ == old(self).vm_funcs@,
            final(self).table == old(self).table,
            spec_call_indirect_result(old(self), final(self), r, type_idx, fu),
    {
        if self.avail() < 1 {
            return Result::Err(Fault::StackUnderflow);
        }
        let i = self.pop1() as u32;
        let f = match &self.table {
            Option::None => {
                return Result::Err(Fault::Trap(Trap::UndefinedElement));
            },
            Option::Some(t) => {
                if i as usize >= t.size() {
                    return Result::Err(Fault::Trap(Trap::UndefinedElement));
                }
                t.get_elem(i as usize)
            },
        };
        proof {
            let entry = old(self).table->Some_0.elems@[i as int];
            assert(crate::table::spec_func_eq(&entry, &f));
            match (&entry.code, &f.code) {
                (Option::Some(oc), Option::Some(fc)) => {
                    assert(oc.locals@ == fc.locals@);
                    assert(oc.expr@ == fc.expr@);
                },
                _ => {},
            }
        }
        if f.code.is_none() && f.host.is_none() {
            return Result::Err(Fault::Trap(Trap::UndefinedElement));
        }
        if type_idx as usize >= self.module.type_sec.len() {
            return Result::Err(Fault::TypeIndexOutOfRange);
        }
        let expected = &self.module.type_sec[type_idx as usize];
        if !f.func_type.same_signature(expected) {
            return Result::Err(Fault::Trap(Trap::IndirectCallTypeMismatch));
        }
        if f.code.is_some() {
            self.call_internal_func(&f)
        } else {
            self.call_external_func(&f, fu)
        }
    }
}

/// Relies on str's equality: two string slices are equal exactly when their
/// character sequences are.
#[verifier::external_body]
fn str_eq(a: &str, b: &str) -> (r: bool)
    ensures
        r == (a@ == b@),
{
    a == b
}

/// Whether an export names the function entry point `main`.
pub open spec fn spec_is_main_func(e: &crate::module::Export) -> bool {
    e.name@ == "main"@ && e.desc is Func
}

impl<'a> VM<'a> {
    /// A fresh engine for `module`: an empty operand and control stack, no
    /// globals, functions or table yet, and a memory sized from the module's
    /// memory section (zero pages when it has none). Refused when the
    /// declared limits are unsatisfiable or unrepresentable here.
    pub fn new(module: &'a Module) -> (r: Result<VM<'a>, Fault>)
        ensures
            ({
                let mt = if module.mem_sec@.len() > 0 {
                    module.mem_sec@[0]
                } else {
                    (Limits { min: 0, max: Option::None })
                };
                if mt.min > crate::memory::spec_page_limit(mt) || mt.min
                    * crate::memory::spec_page_size() > usize::MAX {
                    r == Result::<VM<'a>, Fault>::Err(Fault::BadMemoryLimits)
                } else {
                    r matches Ok(vm) && spec_fresh_vm(module, vm)
                }
            }),
    {
        let mt = if module.mem_sec.len() > 0 {
            module.mem_sec[0]
        } else {
            Limits { min: 0, max: Option::None }
        };
        let limit = match mt.max {
            Option::Some(m) => m,
            Option::None => crate::module::MAX_PAGE_COUNT,
        };
        if mt.min > limit {
            return Result::Err(Fault::BadMemoryLimits);
        }
        proof {
            assert((mt.min as u128) * 65536u128 <= 0xFFFF_FFFF_FFFF_FFFFu128 * 65536u128)
                by (nonlinear_arith)
                requires
                    mt.min as u128 <= 0xFFFF_FFFF_FFFF_FFFFu128,
            ;
        }
        if (mt.min as u128) * 65536u128 > usize::MAX as u128 {
            return Result::Err(Fault::BadMemoryLimits);
        }
        let memory = Memory::new(mt);
        Result::Ok(
            VM {
                operand_stack: OperandStack::new(),
                module,
                memory,
                control_stack: ControlStack::new(),
                local_0_idx: usize::MAX,
                globals: Vec::new(),
                vm_funcs: Vec::new(),
                table: Option::None,
                output: Vec::new(),
            },
        )
    }

    /// The function index of the export named `main`, if one exists; the
    /// first such export wins.
    pub fn get_main_idx(&self) -> (r: Option<u32>)
        ensures
            match r {
                Option::Some(idx) => exists|i: int|
                    #![auto]
                    0 <= i < self.module.export_sec@.len() && spec_is_main_func(
                        &self.module.export_sec@[i],
                    ) && self.module.export_sec@[i].desc == crate::module::ExportDesc::Func(idx)
                        && (forall|j: int|
                        0 <= j < i ==> !spec_is_main_func(#[trigger] &self.module.export_sec@[j])),
                Option::None => forall|i: int|
                    0 <= i < self.module.export_sec@.len() ==> !spec_is_main_func(
                        #[trigger] &self.module.export_sec@[i],
                    ),
            },
    {
        let exports = &self.module.export_sec;
        let mut i: usize = 0;
        while i < exports.len()
            invariant
                i <= exports@.len(),
                exports@ == self.module.export_sec@,
                forall|j: int| 0 <= j < i ==> !spec_is_main_func(#[trigger] &exports@[j]),
            decreases exports@.len() - i,
        {
            let exp = &exports[i];
            match exp.desc {
                crate::module::ExportDesc::Func(idx) => {
                    if str_eq(exp.name.as_str(), "main") {
                        proof {
                            let ii = i as int;
                            assert(exports@ == self.module.export_sec@);
                            assert(exports@[ii] == *exp);
                            assert(exp.name@ == "main"@);
                            assert(exp.desc == crate::module::ExportDesc::Func(idx));
                            assert(spec_is_main_func(&self.module.export_sec@[ii]));
                        }
                        return Option::Some(idx);
                    }
                },
                _ => {},
            }
            i += 1;
        }
        Option::None
    }

    /// Execute one instruction against the engine state.
    pub fn exec_instr<F: Fn(FloatOp, u64, u64) -> Option<u64>>(
        &mut self,
        instr: &Instruction,
        fu: &F,
    ) -> (r: Result<(), Fault>)
        requires
            old(self).wf(),
            spec_float_unit_total(fu),
        ensures
            final(self).wf(),
            final(self).module == old(self).module,
            final(self).vm_funcs@ == old(self).vm_funcs@,
            final(self).table == old(self).table,
            final(self).globals@.len() == old(self).globals@.len(),
            forall|i: int|
                0 <= i < old(self).globals@.len() ==> (#[trigger] final(self).globals@[i]).global_type
                    == old(self).globals@[i].global_type,
            spec_step(old(self), final(self), r, *instr, fu),
    {
        proof {
            reveal(spec_step);
        }
        match instr {
            Instruction::Unreachable => Result::Err(Fault::Trap(Trap::Unreachable)),
            Instruction::Nop => Result::Ok(()),
            Instruction::Block(ba) => {
                let bt = match self.module.get_block_type(ba.block_type) {
                    Option::Some(ft) => ft,
                    Option::None => {
                        return Result::Err(Fault::BadBlockType);
                    },
                };
                self.enter_block(FrameKind::Block, bt, rc_clone(&ba.instructions))
            },
            Instruction::Loop(ba) => {
                let bt = match self.module.get_block_type(ba.block_type) {
                    Option::Some(ft) => ft,
                    Option::None => {
                        return Result::Err(Fault::BadBlockType);
                    },
                };
                self.enter_block(FrameKind::Loop, bt, rc_clone(&ba.instructions))
            },
            Instruction::If(ia) => {
                let bt = match self.module.get_block_type(ia.block_type) {
                    Option::Some(ft) => ft,
                    Option::None => {
                        return Result::Err(Fault::BadBlockType);
                    },
                };
                if self.avail() < 1 {
                    return Result::Err(Fault::StackUnderflow);
                }
                let cond = self.pop1();
                let body = if cond != 0 {
                    rc_clone(&ia.instructions_1)
                } else {
                    rc_clone(&ia.instructions_2)
                };
                self.enter_block(FrameKind::If, bt, body)
            },
            Instruction::Br(d) => self.br(*d),
            Instruction::BrIf(d) => self.br_if(*d),
            Instruction::BrTable(args) => self.br_table(&args.labels, args.default),
            Instruction::Return => self.return_instr(),
            Instruction::Call(idx) => self.call(*idx, fu),
            Instruction::CallIndirect(ti) => self.call_indirect(*ti, fu),
            Instruction::Drop => self.drop_value(),
            Instruction::Select => self.select(),
            Instruction::LocalGet(i) => self.local_get(*i),
            Instruction::LocalSet(i) => self.local_set(*i),
            Instruction::LocalTee(i) => self.local_tee(*i),
            Instruction::GlobalGet(i) => self.global_get(*i),
            Instruction::GlobalSet(i) => self.global_set(*i),
            Instruction::I32Load(arg) => self.i32_load(arg),
            Instruction::I64Load(arg) => self.i64_load(arg),
            Instruction::F32Load(arg) => self.f32_load(arg),
            Instruction::F64Load(arg) => self.f64_load(arg),
            Instruction::I32Load8S(arg) => self.i32_load_8s(arg),
            Instruction::I32Load8U(arg) => self.i32_load_8u(arg),
            Instruction::I32Load16S(arg) => self.i32_load_16s(arg),
            Instruction::I32Load16U(arg) => self.i32_load_16u(arg),
            Instruction::I64Load8S(arg) => self.i64_load_8s(arg),
            Instruction::I64Load8U(arg) => self.i64_load_8u(arg),
            Instruction::I64Load16S(arg) => self.i64_load_16s(arg),
            Instruction::I64Load16U(arg) => self.i64_load_16u(arg),
            Instruction::I64Load32S(arg) => self.i64_load_32s(arg),
            Instruction::I64Load32U(arg) => self.i64_load_32u(arg),
            Instruction::I32Store(arg) => self.i32_store(arg),
            Instruction::I64Store(arg) => self.i64_store(arg),
            Instruction::F32Store(arg) => self.f32_store(arg),
            Instruction::F64Store(arg) => self.f64_store(arg),
            Instruction::I32Store8(arg) => self.i32_store_8(arg),
            Instruction::I32Store16(arg) => self.i32_store_16(arg),
            Instruction::I64Store8(arg) => self.i64_store_8(arg),
            Instruction::I64Store16(arg) => self.i64_store_16(arg),
            Instruction::I64Store32(arg) => self.i64_store_32(arg),
            Instruction::MemorySize => {
                self.memory_size();
                Result::Ok(())
            },
            Instruction::MemoryGrow => self.memory_grow(),
            Instruction::I32Const(v) => {
                self.i32_const(*v);
                Result::Ok(())
            },
            Instruction::I64Const(v) => {
                self.i64_const(*v);
                Result::Ok(())
            },
            Instruction::F32Const(bits) => {
                self.f32_const(*bits);
                Result::Ok(())
            },
            Instruction::F64Const(bits) => {
                self.f64_const(*bits);
                Result::Ok(())
            },
            Instruction::I32Eqz => self.i32_eqz(),
            Instruction::I32Eq => self.i32_eq(),
            Instruction::I32Ne => self.i32_neq(),
            Instruction::I32LtS => self.i32_lts(),
            Instruction::I32LtU => self.i32_ltu(),
            Instruction::I32GtS => self.i32_gts(),
            Instruction::I32GtU => self.i32_gtu(),
            Instruction::I32LeS => self.i32_les(),
            Instruction::I32LeU => self.i32_leu(),
            Instruction::I32GeS => self.i32_ges(),
            Instruction::I32GeU => self.i32_geu(),
            Instruction::I64Eqz => self.i64_eqz(),
            Instruction::I64Eq => self.i64_eq(),
            Instruction::I64Ne => self.i64_neq(),
            Instruction::I64LtS => self.i64_lts(),
            Instruction::I64LtU => self.i64_ltu(),
            Instruction::I64GtS => self.i64_gts(),
            Instruction::I64GtU => self.i64_gtu(),
            Instruction::I64LeS => self.i64_les(),
            Instruction::I64LeU => self.i64_leu(),
            Instruction::I64GeS => self.i64_ges(),
            Instruction::I64GeU => self.i64_geu(),
            Instruction::F32Eq => self.f32_eq(fu),
            Instruction::F32Ne => self.f32_neq(fu),
            Instruction::F32Lt => self.f32_lt(fu),
            Instruction::F32Gt => self.f32_gt(fu),
            Instruction::F32Le => self.f32_le(fu),
            Instruction::F32Ge => self.f32_ge(fu),
            Instruction::F64Eq => self.f64_eq(fu),
            Instruction::F64Ne => self.f64_neq(fu),
            Instruction::F64Lt => self.f64_lt(fu),
            Instruction::F64Gt => self.f64_gt(fu),
            Instruction::F64Le => self.f64_le(fu),
            Instruction::F64Ge => self.f64_ge(fu),
            Instruction::I32Clz => self.i32_clz(),
            Instruction::I32Ctz => self.i32_ctz(),
            Instruction::I32PopCnt => self.i32_pop_cnt(),
            Instruction::I32Add => self.i32_add(),
            Instruction::I32Sub => self.i32_sub(),
            Instruction::I32Mul => self.i32_mul(),
            Instruction::I32DivS => self.i32_divs(),
            Instruction::I32DivU => self.i32_divu(),
            Instruction::I32RemS => self.i32_rems(),
            Instruction::I32RemU => self.i32_remu(),
            Instruction::I32And => self.i32_and(),
            Instruction::I32Or => self.i32_or(),
            Instruction::I32Xor => self.i32_xor(),
            Instruction::I32Shl => self.i32_shl(),
            Instruction::I32ShrS => self.i32_shrs(),
            Instruction::I32ShrU => self.i32_shru(),
            Instruction::I32Rotl => self.i32_rotl(),
            Instruction::I32Rotr => self.i32_rotr(),
            Instruction::I64Clz => self.i64_clz(),
            Instruction::I64Ctz => self.i64_ctz(),
            Instruction::I64PopCnt => self.i64_pop_cnt(),
            Instruction::I64Add => self.i64_add(),
            Instruction::I64Sub => self.i64_sub(),
            Instruction::I64Mul => self.i64_mul(),
            Instruction::I64DivS => self.i64_divs(),
            Instruction::I64DivU => self.i64_divu(),
            Instruction::I64RemS => self.i64_rems(),
            Instruction::I64RemU => self.i64_remu(),
            Instruction::I64And => self.i64_and(),
            Instruction::I64Or => self.i64_or(),
            Instruction::I64Xor => self.i64_xor(),
            Instruction::I64Shl => self.i64_shl(),
            Instruction::I64ShrS => self.i64_shrs(),
            Instruction::I64ShrU => self.i64_shru(),
            Instruction::I64Rotl => self.i64_rotl(),
            Instruction::I64Rotr => self.i64_rotr(),
            Instruction::F32Abs => self.f32_abs(fu),
            Instruction::F32Neg => self.f32_neg(fu),
            Instruction::F32Ceil => self.f32_ceil(fu),
            Instruction::F32Floor => self.f32_floor(fu),
            Instruction::F32Trunc => self.f32_trunc(fu),
            Instruction::F32Nearest => self.f32_nearest(fu),
            Instruction::F32Sqrt => self.f32_sqrt(fu),
            Instruction::F64Abs => self.f64_abs(fu),
            Instruction::F64Neg => self.f64_neg(fu),
            Instruction::F64Ceil => self.f64_ceil(fu),
            Instruction::F64Floor => self.f64_floor(fu),
            Instruction::F64Trunc => self.f64_trunc(fu),
            Instruction::F64Nearest => self.f64_nearest(fu),
            Instruction::F64Sqrt => self.f64_sqrt(fu),
            Instruction::F32Add => self.f32_add(fu),
            Instruction::F32Sub => self.f32_sub(fu),
            Instruction::F32Mul => self.f32_mul(fu),
            Instruction::F32Div => self.f32_div(fu),
            Instruction::F32Min => self.f32_min(fu),
            Instruction::F32Max => self.f32_max(fu),
            Instruction::F32CopySign => self.f32_copy_sign(fu),
            Instruction::F64Add => self.f64_add(fu),
            Instruction::F64Sub => self.f64_sub(fu),
            Instruction::F64Mul => self.f64_mul(fu),
            Instruction::F64Div => self.f64_div(fu),
            Instruction::F64Min => self.f64_min(fu),
            Instruction::F64Max => self.f64_max(fu),
            Instruction::F64CopySign => self.f64_copy_sign(fu),
            Instruction::I32WrapI64 => self.i32_wrap_i64(),
            Instruction::I32TruncF32S => self.i32_trunc_f32(fu),
            Instruction::I32TruncF32U => self.u32_trunc_f32(fu),
            Instruction::I32TruncF64S => self.i32_trunc_f64(fu),
            Instruction::I32TruncF64U => self.u32_trunc_f64(fu),
            Instruction::I64ExtendI32S => self.i64_extend_i32(),
            Instruction::I64ExtendI32U => self.i64_extend_u32(),
            Instruction::I64TruncF32S => self.i64_trunc_f32(fu),
            Instruction::I64TruncF32U => self.u64_trunc_f32(fu),
            Instruction::I64TruncF64S => self.i64_trunc_f64(fu),
            Instruction::I64TruncF64U => self.u64_trunc_f64(fu),
            Instruction::F32ConvertI32S => self.f32_convert_i32(fu),
            Instruction::F32ConvertI32U => self.f32_convert_u32(fu),
            Instruction::F32ConvertI64S => self.f32_convert_i64(fu),
            Instruction::F32ConvertI64U => self.f32_convert_u64(fu),
            Instruction::F32DemoteF64 => self.f32_demote_f64(fu),
            Instruction::F64ConvertI32S => self.f64_convert_i32(fu),
            Instruction::F64ConvertI32U => self.f64_convert_u32(fu),
            Instruction::F64ConvertI64S => self.f64_convert_i64(fu),
            Instruction::F64ConvertI64U => self.f64_convert_u64(fu),
            Instruction::F64PromoteF32 => self.f64_promote_f32(fu),
            Instruction::I32ReinterpretF32 => {
                self.i32_reinterpret_f32();
                Result::Ok(())
            },
            Instruction::I64ReinterpretF64 => {
                self.i64_reinterpret_f64();
                Result::Ok(())
            },
            Instruction::F32ReinterpretI32 => {
                self.f32_reinterpret_i32();
                Result::Ok(())
            },
            Instruction::F64ReinterpretI64 => {
                self.f64_reinterpret_i64();
                Result::Ok(())
            },
            Instruction::I32Extend8S => self.i32_extend_8(),
            Instruction::I32Extend16S => self.i32_extend_16(),
            Instruction::I64Extend8S => self.i64_extend_8(),
            Instruction::I64Extend16S => self.i64_extend_16(),
            Instruction::I64Extend32S => self.i64_extend_32(),
            Instruction::TruncSat(sel) => self.trunc_sat(*sel, fu),
        }
    }

    /// The main interpreter loop: as long as the frame that was on top at
    /// entry has not been left, finish the current frame when its body is
    /// done, else fetch the next instruction and dispatch it. `fuel` bounds
    /// the number of iterations.
    pub fn main_loop<F: Fn(FloatOp, u64, u64) -> Option<u64>>(&mut self, fu: &F, fuel: u64) -> (r:
        Result<(), Fault>)
        requires
            old(self).wf(),
            spec_float_unit_total(fu),
        ensures
            final(self).wf(),
            final(self).module == old(self).module,
            final(self).vm_funcs@ == old(self).vm_funcs@,
            final(self).table == old(self).table,
            final(self).globals@.len() == old(self).globals@.len(),
            forall|i: int|
                0 <= i < old(self).globals@.len() ==> (#[trigger] final(self).globals@[i]).global_type
                    == old(self).globals@[i].global_type,
            spec_main_loop_result(old(self), final(self), r, fuel, fu),
    {
        let depth = self.control_stack.control_depth();
        if depth == 0 {
            return Result::Ok(());
        }
        let ghost mut tr: Seq<VM<'a>> = seq![*old(self)];
        let mut remaining = fuel;
        while self.control_stack.control_depth() >= depth
            invariant
                self.wf(),
                spec_float_unit_total(fu),
                self.module == old(self).module,
                self.vm_funcs@ == old(self).vm_funcs@,
                self.table == old(self).table,
                self.globals@.len() == old(self).globals@.len(),
                forall|i: int|
                    0 <= i < old(self).globals@.len() ==> (#[trigger] self.globals@[i]).global_type
                        == old(self).globals@[i].global_type,
                depth >= 1,
                depth == old(self).control_stack.frames@.len(),
                remaining <= fuel,
                tr.len() == fuel - remaining + 1,
                tr.first() == *old(self),
                tr.last() == *self,
                forall|i: int|
                    #![auto]
                    0 <= i < tr.len() - 1 ==> spec_loop_iteration(
                        tr[i],
                        tr[i + 1],
                        Result::<(), Fault>::Ok(()),
                        fu,
                    ) && tr[i].control_stack.frames@.len() >= depth,
            decreases remaining,
        {
            if remaining == 0 {
                proof {
                    assert(spec_run_reaches(
                        *old(self),
                        *self,
                        Result::<(), Fault>::Err(Fault::OutOfFuel),
                        fuel,
                        fu,
                        tr,
                    ));
                }
                return Result::Err(Fault::OutOfFuel);
            }
            remaining = remaining - 1;
            let ghost pre_vm = *self;
            let done = {
                let cf = self.control_stack.top_frame_ref();
                cf.pc >= cf.instrs.len()
            };
            let step_res = if done {
                let res = self.exit_block();
                proof {
                    assert(spec_loop_iteration(pre_vm, *self, res, fu));
                }
                res
            } else {
                let ghost pre = self.control_stack.frames@;
                let (body, pc) = {
                    let cf = self.control_stack.top_control_frame();
                    let body = rc_clone(&cf.instrs);
                    let pc = cf.pc;
                    cf.pc = pc + 1;
                    (body, pc)
                };
                proof {
                    lemma_wf_pc_update(
                        pre,
                        self.control_stack.frames@,
                        self.operand_stack@.len() as int,
                    );
                    assert(self.control_stack.frames@ =~= spec_bump_pc(pre));
                }
                let ghost mid_vm = *self;
                let res = self.exec_instr(&body[pc], fu);
                proof {
                    assert(spec_step(
                        &mid_vm,
                        &*self,
                        res,
                        pre.last().instrs@[pre.last().pc as int],
                        fu,
                    ));
                    assert(spec_loop_iteration(pre_vm, *self, res, fu));
                }
                res
            };
            let ghost post_vm = *self;
            proof {
                assert(spec_loop_iteration(pre_vm, post_vm, step_res, fu));
            }
            match step_res {
                Result::Ok(u) => {
                    proof {
                        assert(step_res == Result::<(), Fault>::Ok(u));
                        assert(step_res == Result::<(), Fault>::Ok(()));
                    }
                },
                Result::Err(e) => {
                    proof {
                        assert(tr.last() == pre_vm);
                        if e != Fault::OutOfFuel {
                            assert(spec_run_reaches(*old(self), *self, step_res, fuel, fu, tr));
                        } else {
                            assert(spec_run_reaches(*old(self), *self, step_res, fuel, fu, tr));
                        }
                    }
                    return Result::Err(e);
                },
            }
            proof {
                let prev = tr;
                tr = tr.push(post_vm);
                assert(tr.last() == post_vm);
                assert(tr.first() == *old(self));
                assert(spec_loop_iteration(pre_vm, post_vm, Result::<(), Fault>::Ok(()), fu));
                assert forall|i: int| #![auto] 0 <= i < tr.len() - 1 implies spec_loop_iteration(
                    tr[i],
                    tr[i + 1],
                    Result::<(), Fault>::Ok(()),
                    fu,
                ) && tr[i].control_stack.frames@.len() >= depth by {
                    if i < prev.len() - 1 {
                        assert(tr[i] == prev[i]);
                        assert(tr[i + 1] == prev[i + 1]);
                        assert(spec_loop_iteration(
                            prev[i],
                            prev[i + 1],
                            Result::<(), Fault>::Ok(()),
                            fu,
                        ));
                    } else {
                        assert(tr[i] == pre_vm);
                        assert(tr[i + 1] == post_vm);
                    }
                }
            }
        }
        proof {
            assert(spec_run_reaches(*old(self), *self, Result::<(), Fault>::Ok(()), fuel, fu, tr));
        }
        Result::Ok(())
    }

    /// Initialise the function space: link the host imports, then append the
    /// module's own functions in code-section order.
    pub fn init_funcs(&mut self) -> (r: Result<(), Fault>)
        requires
            old(self).wf(),
        ensures
            final(self).wf(),
            final(self).module == old(self).module,
            spec_init_funcs_result(old(self), final(self), r),
    {
        let res = self.link_native_funcs();
        match res {
            Result::Ok(()) => {},
            Result::Err(e) => {
                return Result::Err(e);
            },
        }
        let n = self.module.func_sec.len();
        let ghost func_sec = self.module.func_sec@;
        let ghost types_len = self.module.type_sec@.len() as int;
        let ghost code_len = self.module.code_sec@.len() as int;
        let ghost linked = *self;
        let ghost base = self.vm_funcs@.len() as int;
        proof {
            assert(func_sec.skip(0) =~= func_sec);
        }
        let mut i: usize = 0;
        while i < n
            invariant
                self.wf(),
                self.module == old(self).module,
                n == func_sec.len(),
                i <= n,
                func_sec == old(self).module.func_sec@,
                types_len == old(self).module.type_sec@.len() as int,
                code_len == old(self).module.code_sec@.len() as int,
                spec_only_funcs(&linked, self),
                spec_link_result(old(self), &linked, Result::<(), Fault>::Ok(())),
                base == linked.vm_funcs@.len() as int,
                self.vm_funcs@.len() == base + i,
                forall|k: int| 0 <= k < base ==> self.vm_funcs@[k] == linked.vm_funcs@[k],
                forall|j: int|
                    0 <= j < i ==> #[trigger] spec_internal_entry(
                        old(self).module,
                        self.vm_funcs@[base + j],
                        j,
                    ),
                spec_internal_funcs_error(func_sec, types_len, code_len, 0)
                    == spec_internal_funcs_error(func_sec.skip(i as int), types_len, code_len, i as int),
            decreases n - i,
        {
            let ghost tail = func_sec.skip(i as int);
            proof {
                assert(tail[0] == func_sec[i as int]);
                assert(tail.drop_first() =~= func_sec.skip(i + 1));
            }
            let type_idx = self.module.func_sec[i];
            if type_idx as usize >= self.module.type_sec.len() {
                return Result::Err(Fault::TypeIndexOutOfRange);
            }
            if i >= self.module.code_sec.len() {
                return Result::Err(Fault::FunctionIndexOutOfRange);
            }
            let ft = self.module.type_sec[type_idx as usize].clone_type();
            let code = self.module.code_sec[i].clone_code();
            let ghost prev_funcs = self.vm_funcs@;
            self.vm_funcs.push(VMFunc::new_internal_func(ft, code));
            proof {
                assert(forall|k: int|
                    0 <= k < prev_funcs.len() ==> #[trigger] self.vm_funcs@[k] == prev_funcs[k]);
                assert(spec_internal_entry(
                    old(self).module,
                    self.vm_funcs@[base + i as int],
                    i as int,
                ));
            }
            i += 1;
        }
        proof {
            assert(func_sec.skip(n as int).len() == 0);
            match spec_link_env(old(self).module.import_sec@, old(self).module.type_sec@) {
                Result::Ok(pairs) => {
                    assert(base == old(self).vm_funcs@.len() + pairs.len());
                    assert forall|k: int|
                        0 <= k < old(self).vm_funcs@.len() implies (#[trigger] self.vm_funcs@[k])
                        == old(self).vm_funcs@[k] by {
                        assert(self.vm_funcs@[k] == linked.vm_funcs@[k]);
                        assert(linked.vm_funcs@[k] == old(self).vm_funcs@[k]);
                    }
                    assert forall|k: int| #![trigger pairs[k]] 0 <= k < pairs.len() implies {
                        let e = self.vm_funcs@[old(self).vm_funcs@.len() + k];
                        &&& e.host == Option::Some(pairs[k].0)
                        &&& e.code is None
                        &&& e.func_type.params_types@ == old(self).module.type_sec@[pairs[
                            k].1].params_types@
                        &&& e.func_type.result_types@ == old(self).module.type_sec@[pairs[
                            k].1].result_types@
                    } by {
                        assert(self.vm_funcs@[old(self).vm_funcs@.len() + k] == linked.vm_funcs@[
                            old(self).vm_funcs@.len() + k]);
                    }
                },
                Result::Err(_) => {},
            }
        }
        Result::Ok(())
    }

    /// Resolve the host imports from the logical module `env` by member
    /// name; an unrecognised `env` function import is fatal. Imports of
    /// other modules, and non-function imports, are passed over.
    pub fn link_native_funcs(&mut self) -> (r: Result<(), Fault>)
        requires
            old(self).wf(),
        ensures
            final(self).wf(),
            final(self).module == old(self).module,
            spec_link_result(old(self), final(self), r),
    {
        let n = self.module.import_sec.len();
        let ghost imports = self.module.import_sec@;
        let ghost types = self.module.type_sec@;
        let ghost base = old(self).vm_funcs@.len() as int;
        let ghost mut done: Seq<(HostFunc, int)> = Seq::empty();
        proof {
            assert(imports.skip(0) =~= imports);
        }
        let mut i: usize = 0;
        while i < n
            invariant
                self.wf(),
                self.module == old(self).module,
                n == imports.len(),
                i <= n,
                imports == old(self).module.import_sec@,
                types == old(self).module.type_sec@,
                base == old(self).vm_funcs@.len() as int,
                spec_only_funcs(old(self), self),
                self.vm_funcs@.len() == base + done.len(),
                forall|k: int| 0 <= k < base ==> self.vm_funcs@[k] == old(self).vm_funcs@[k],
                forall|k: int|
                    #![trigger done[k]]
                    0 <= k < done.len() ==> {
                        let e = self.vm_funcs@[base + k];
                        &&& e.host == Option::Some(done[k].0)
                        &&& e.code is None
                        &&& 0 <= done[k].1 < types.len()
                        &&& e.func_type.params_types@ == types[done[k].1].params_types@
                        &&& e.func_type.result_types@ == types[done[k].1].result_types@
                    },
                ({
                    match spec_link_env(imports.skip(i as int), types) {
                        Result::Ok(tail) => spec_link_env(imports, types) == Result::<
                            Seq<(HostFunc, int)>,
                            Fault,
                        >::Ok(done + tail),
                        Result::Err(e) => spec_link_env(imports, types) == Result::<
                            Seq<(HostFunc, int)>,
                            Fault,
                        >::Err(e),
                    }
                }),
            decreases n - i,
        {
            let ghost tail_imports = imports.skip(i as int);
            proof {
                assert(tail_imports[0] == imports[i as int]);
                assert(tail_imports.drop_first() =~= imports.skip(i + 1));
            }
            let imp = &self.module.import_sec[i];
            match &imp.desc {
                crate::module::ImportDesc::Func(ti) => {
                    if str_eq(imp.module_name.as_str(), "env") {
                        if *ti as usize >= self.module.type_sec.len() {
                            return Result::Err(Fault::TypeIndexOutOfRange);
                        }
                        let ft = self.module.type_sec[*ti as usize].clone_type();
                        let host = if str_eq(imp.member_name.as_str(), "print_char") {
                            HostFunc::PrintChar
                        } else if str_eq(imp.member_name.as_str(), "assert_true") {
                            HostFunc::AssertTrue
                        } else if str_eq(imp.member_name.as_str(), "assert_false") {
                            HostFunc::AssertFalse
                        } else if str_eq(imp.member_name.as_str(), "assert_eq_i32") {
                            HostFunc::AssertEqI32
                        } else if str_eq(imp.member_name.as_str(), "assert_eq_i64") {
                            HostFunc::AssertEqI64
                        } else if str_eq(imp.member_name.as_str(), "assert_eq_f32") {
                            HostFunc::AssertEqF32
                        } else if str_eq(imp.member_name.as_str(), "assert_eq_f64") {
                            HostFunc::AssertEqF64
                        } else {
                            return Result::Err(Fault::UnknownImport);
                        };
                        proof {
                            assert(spec_host_of_name(imports[i as int].member_name@)
                                == Option::Some(host));
                        }
                        self.vm_funcs.push(VMFunc::new_external_func(ft, host));
                        proof {
                            let pair = (host, *ti as int);
                            let old_done = done;
                            done = done.push(pair);
                            match spec_link_env(imports.skip(i + 1), types) {
                                Result::Ok(tail2) => {
                                    assert(spec_link_env(tail_imports, types) == Result::<
                                        Seq<(HostFunc, int)>,
                                        Fault,
                                    >::Ok(seq![pair] + tail2));
                                    assert(old_done + (seq![pair] + tail2) =~= done + tail2);
                                },
                                Result::Err(_) => {},
                            }
                        }
                    }
                },
                _ => {},
            }
            i += 1;
        }
        proof {
            assert(imports.skip(n as int).len() == 0);
            assert(done + Seq::<(HostFunc, int)>::empty() =~= done);
        }
        Result::Ok(())
    }

    /// Populate the globals: run each declaration's constant expression and
    /// take its single result as the initial value.
    pub fn init_globals<F: Fn(FloatOp, u64, u64) -> Option<u64>>(&mut self, fu: &F) -> (r: Result<
        (),
        Fault,
    >)
        requires
            old(self).wf(),
            spec_float_unit_total(fu),
        ensures
            final(self).wf(),
            final(self).module == old(self).module,
            spec_init_globals_result(old(self), final(self), r),
    {
        let m: &Module = self.module;
        let n = m.global_sec.len();
        let ghost base = old(self).globals@.len() as int;
        let ghost canon = spec_const_global_exprs(m.global_sec@);
        let mut gi: usize = 0;
        while gi < n
            invariant
                self.wf(),
                spec_float_unit_total(fu),
                self.module == old(self).module,
                m == old(self).module,
                n == m.global_sec@.len(),
                gi <= n,
                base == old(self).globals@.len() as int,
                canon == spec_const_global_exprs(m.global_sec@),
                self.vm_funcs@ == old(self).vm_funcs@,
                self.table == old(self).table,
                self.globals@.len() == base + gi,
                forall|i: int|
                    0 <= i < gi ==> (#[trigger] self.globals@[base + i]).global_type
                        == m.global_sec@[i].global_type,
                forall|i: int|
                    0 <= i < base ==> (#[trigger] self.globals@[i]).global_type == old(
                        self,
                    ).globals@[i].global_type,
                canon ==> ({
                    &&& self.operand_stack@ == old(self).operand_stack@
                    &&& self.memory == old(self).memory
                    &&& self.control_stack.frames@ == old(self).control_stack.frames@
                    &&& self.local_0_idx == old(self).local_0_idx
                    &&& self.output@ == old(self).output@
                    &&& forall|i: int|
                        0 <= i < gi ==> (#[trigger] self.globals@[base + i]).val
                            == spec_const_instr_value(m.global_sec@[i].init_expr@[0])->Some_0
                }),
            decreases n - gi,
        {
            let expr = &m.global_sec[gi].init_expr;
            let cnt = expr.len();
            let ghost pre_loop = *self;
            let mut k: usize = 0;
            while k < cnt
                invariant
                    self.wf(),
                    spec_float_unit_total(fu),
                    self.module == old(self).module,
                    cnt == expr@.len(),
                    k <= cnt,
                    expr@ == pre_loop.module.global_sec@[gi as int].init_expr@,
                    gi < pre_loop.module.global_sec@.len(),
                    pre_loop.module == old(self).module,
                    pre_loop.vm_funcs@ == old(self).vm_funcs@,
                    pre_loop.table == old(self).table,
                    pre_loop.globals@.len() == base + gi,
                    base == old(self).globals@.len() as int,
                    gi < n,
                    n == m.global_sec@.len(),
                    m == old(self).module,
                    forall|i: int|
                        0 <= i < gi ==> (#[trigger] pre_loop.globals@[base + i]).global_type
                            == m.global_sec@[i].global_type,
                    forall|i: int|
                        0 <= i < base ==> (#[trigger] pre_loop.globals@[i]).global_type == old(
                            self,
                        ).globals@[i].global_type,
                    canon ==> ({
                        &&& pre_loop.operand_stack@ == old(self).operand_stack@
                        &&& pre_loop.memory == old(self).memory
                        &&& pre_loop.control_stack.frames@ == old(self).control_stack.frames@
                        &&& pre_loop.local_0_idx == old(self).local_0_idx
                        &&& pre_loop.output@ == old(self).output@
                        &&& forall|i: int|
                            0 <= i < gi ==> (#[trigger] pre_loop.globals@[base + i]).val
                                == spec_const_instr_value(
                                m.global_sec@[i].init_expr@[0],
                            )->Some_0
                    }),
                    self.vm_funcs@ == pre_loop.vm_funcs@,
                    self.table == pre_loop.table,
                    self.globals@.len() == pre_loop.globals@.len(),
                    forall|i: int|
                        0 <= i < self.globals@.len() ==> (#[trigger] self.globals@[i]).global_type
                            == pre_loop.globals@[i].global_type,
                    canon == spec_const_global_exprs(pre_loop.module.global_sec@),
                    canon ==> cnt == 1,
                    canon && k == 0 ==> *self == pre_loop,
                    canon && k == 1 ==> ({
                        &&& self.operand_stack@ == pre_loop.operand_stack@.push(
                            spec_const_instr_value(expr@[0])->Some_0,
                        )
                        &&& self.memory == pre_loop.memory
                        &&& self.control_stack.frames@ == pre_loop.control_stack.frames@
                        &&& self.local_0_idx == pre_loop.local_0_idx
                        &&& self.globals@ == pre_loop.globals@
                        &&& self.output@ == pre_loop.output@
                    }),
                decreases cnt - k,
            {
                let ghost step_pre = *self;
                let res = self.exec_instr(&expr[k], fu);
                proof {
                    reveal(spec_step);
                    assert(spec_step(&step_pre, &*self, res, expr@[k as int], fu));
                }
                match res {
                    Result::Ok(()) => {},
                    Result::Err(e) => {
                        proof {
                            if canon {
                                reveal(spec_step);
                                assert(false);
                            }
                        }
                        return Result::Err(e);
                    },
                }
                k += 1;
            }
            if self.avail() < 1 {
                return Result::Err(Fault::StackUnderflow);
            }
            let val = self.pop1();
            let gt = m.global_sec[gi].global_type;
            self.globals.push(GlobalVar::new(gt, val));
            proof {
                if canon {
                    assert(self.operand_stack@ =~= old(self).operand_stack@);
                }
            }
            gi += 1;
        }
        Result::Ok(())
    }

    /// Populate linear memory: for each data segment, run its offset
    /// expression and write the initialiser bytes there; a segment past the
    /// end of memory traps.
    pub fn init_memory<F: Fn(FloatOp, u64, u64) -> Option<u64>>(&mut self, fu: &F) -> (r: Result<
        (),
        Fault,
    >)
        requires
            old(self).wf(),
            spec_float_unit_total(fu),
        ensures
            final(self).wf(),
            final(self).module == old(self).module,
            spec_init_memory_result(old(self), final(self), r),
    {
        let m: &Module = self.module;
        let n = m.data_sec.len();
        let ghost target = spec_apply_data_segs(old(self).memory.data@, m.data_sec@);
        proof {
            assert(m.data_sec@.skip(0) =~= m.data_sec@);
        }
        let mut di: usize = 0;
        while di < n
            invariant
                self.wf(),
                spec_float_unit_total(fu),
                self.module == old(self).module,
                m == old(self).module,
                n == m.data_sec@.len(),
                di <= n,
                target == spec_apply_data_segs(old(self).memory.data@, m.data_sec@),
                self.vm_funcs@ == old(self).vm_funcs@,
                self.table == old(self).table,
                self.globals@.len() == old(self).globals@.len(),
                target matches Some(t) ==> ({
                    &&& spec_apply_data_segs(self.memory.data@, m.data_sec@.skip(di as int))
                        == target
                    &&& self.memory.mem_type == old(self).memory.mem_type
                    &&& self.operand_stack@ == old(self).operand_stack@
                    &&& self.control_stack.frames@ == old(self).control_stack.frames@
                    &&& self.local_0_idx == old(self).local_0_idx
                    &&& self.globals@ == old(self).globals@
                    &&& self.output@ == old(self).output@
                }),
            decreases n - di,
        {
            let ghost pre_loop = *self;
            let ghost tail_segs = m.data_sec@.skip(di as int);
            proof {
                assert(tail_segs[0] == m.data_sec@[di as int]);
                assert(tail_segs.drop_first() =~= m.data_sec@.skip(di + 1));
            }
            let expr = &m.data_sec[di].offset;
            let cnt = expr.len();
            let mut k: usize = 0;
            while k < cnt
                invariant
                    self.wf(),
                    spec_float_unit_total(fu),
                    self.module == old(self).module,
                    cnt == expr@.len(),
                    k <= cnt,
                    m == old(self).module,
                    di < n,
                    n == m.data_sec@.len(),
                    expr@ == m.data_sec@[di as int].offset@,
                    target == spec_apply_data_segs(old(self).memory.data@, m.data_sec@),
                    pre_loop.vm_funcs@ == old(self).vm_funcs@,
                    pre_loop.table == old(self).table,
                    pre_loop.globals@.len() == old(self).globals@.len(),
                    target matches Some(t) ==> ({
                        &&& spec_apply_data_segs(
                            pre_loop.memory.data@,
                            m.data_sec@.skip(di as int),
                        ) == target
                        &&& pre_loop.memory.mem_type == old(self).memory.mem_type
                        &&& pre_loop.operand_stack@ == old(self).operand_stack@
                        &&& pre_loop.control_stack.frames@ == old(self).control_stack.frames@
                        &&& pre_loop.local_0_idx == old(self).local_0_idx
                        &&& pre_loop.globals@ == old(self).globals@
                        &&& pre_loop.output@ == old(self).output@
                    }),
                    self.vm_funcs@ == pre_loop.vm_funcs@,
                    self.table == pre_loop.table,
                    self.globals@.len() == pre_loop.globals@.len(),
                    target is Some ==> cnt == 1,
                    target is Some && k == 0 ==> *self == pre_loop,
                    target is Some && k == 1 ==> ({
                        &&& self.operand_stack@ == pre_loop.operand_stack@.push(
                            spec_const_instr_value(expr@[0])->Some_0,
                        )
                        &&& self.memory == pre_loop.memory
                        &&& self.control_stack.frames@ == pre_loop.control_stack.frames@
                        &&& self.local_0_idx == pre_loop.local_0_idx
                        &&& self.globals@ == pre_loop.globals@
                        &&& self.output@ == pre_loop.output@
                    }),
                decreases cnt - k,
            {
                let ghost step_pre = *self;
                let res = self.exec_instr(&expr[k], fu);
                proof {
                    reveal(spec_step);
                    assert(spec_step(&step_pre, &*self, res, expr@[k as int], fu));
                }
                match res {
                    Result::Ok(()) => {},
                    Result::Err(e) => {
                        proof {
                            if target is Some {
                                reveal(spec_step);
                                assert(false);
                            }
                        }
                        return Result::Err(e);
                    },
                }
                k += 1;
            }
            if self.avail() < 1 {
                return Result::Err(Fault::StackUnderflow);
            }
            let offset = self.pop1();
            let bytes = &m.data_sec[di].init;
            if !self.memory.check_offset(offset, bytes.len() as u64) {
                proof {
                    if target is Some {
                        assert(false);
                    }
                }
                return Result::Err(Fault::Trap(Trap::MemoryOutOfBounds));
            }
            proof {
                vstd::std_specs::vec::axiom_spec_len(&self.memory.data);
            }
            self.memory.write(offset as usize, bytes);
            proof {
                if target is Some {
                    assert(self.operand_stack@ =~= old(self).operand_stack@);
                    assert(spec_apply_data_segs(self.memory.data@, m.data_sec@.skip(di + 1))
                        == target);
                }
            }
            di += 1;
        }
        proof {
            assert(m.data_sec@.skip(n as int).len() == 0);
        }
        Result::Ok(())
    }

    /// Build the table and fill it from the element segments: each segment
    /// runs its offset expression and installs function references from that
    /// slot on; a slot past the table traps.
    pub fn init_table<F: Fn(FloatOp, u64, u64) -> Option<u64>>(&mut self, fu: &F) -> (r: Result<
        (),
        Fault,
    >)
        requires
            old(self).wf(),
            spec_float_unit_total(fu),
        ensures
            final(self).wf(),
            final(self).module == old(self).module,
            spec_init_table_result(old(self), final(self), r),
    {
        let m: &Module = self.module;
        if m.table_sec.len() == 0 {
            return Result::Ok(());
        }
        let ghost min = m.table_sec@[0].limits.min as int;
        let ghost okp = spec_elem_segs_ok(m.elem_sec@, min, old(self).vm_funcs@.len() as int);
        self.table = Option::Some(Table::new(m.table_sec[0]));
        let n = m.elem_sec.len();
        proof {
            assert(m.elem_sec@.take(0) =~= Seq::<Elem>::empty());
            assert forall|j: int| true implies spec_elem_slot(m.elem_sec@.take(0), j) is None by {
                assert(m.elem_sec@.take(0).len() == 0);
            }
        }
        let mut ei: usize = 0;
        while ei < n
            invariant
                self.wf(),
                spec_float_unit_total(fu),
                self.module == old(self).module,
                m == old(self).module,
                n == m.elem_sec@.len(),
                ei <= n,
                min == m.table_sec@[0].limits.min as int,
                m.table_sec@.len() > 0,
                okp == spec_elem_segs_ok(m.elem_sec@, min, old(self).vm_funcs@.len() as int),
                self.vm_funcs@ == old(self).vm_funcs@,
                self.globals@.len() == old(self).globals@.len(),
                self.table matches Some(t) && t.elems@.len() == min,
                okp ==> ({
                    &&& self.operand_stack@ == old(self).operand_stack@
                    &&& self.memory == old(self).memory
                    &&& self.control_stack.frames@ == old(self).control_stack.frames@
                    &&& self.local_0_idx == old(self).local_0_idx
                    &&& self.globals@ == old(self).globals@
                    &&& self.output@ == old(self).output@
                    &&& forall|j: int|
                        #![trigger self.table->Some_0.elems@[j]]
                        0 <= j < min ==> match spec_elem_slot(m.elem_sec@.take(ei as int), j) {
                            Option::Some(fi) => 0 <= fi < old(self).vm_funcs@.len()
                                && crate::table::spec_func_eq(
                                &old(self).vm_funcs@[fi],
                                &self.table->Some_0.elems@[j],
                            ),
                            Option::None => self.table->Some_0.elems@[j].code is None
                                && self.table->Some_0.elems@[j].host is None,
                        }
                }),
            decreases n - ei,
        {
            let ghost pre_loop = *self;
            let expr = &m.elem_sec[ei].offset;
            let cnt = expr.len();
            let mut k: usize = 0;
            while k < cnt
                invariant
                    self.wf(),
                    spec_float_unit_total(fu),
                    self.module == old(self).module,
                    cnt == expr@.len(),
                    k <= cnt,
                    m == old(self).module,
                    ei < n,
                    n == m.elem_sec@.len(),
                    expr@ == m.elem_sec@[ei as int].offset@,
                    m.table_sec@.len() > 0,
                    min == m.table_sec@[0].limits.min as int,
                    okp == spec_elem_segs_ok(m.elem_sec@, min, old(self).vm_funcs@.len() as int),
                    pre_loop.vm_funcs@ == old(self).vm_funcs@,
                    pre_loop.globals@.len() == old(self).globals@.len(),
                    pre_loop.table matches Some(t) && t.elems@.len() == min,
                    self.vm_funcs@ == pre_loop.vm_funcs@,
                    self.globals@.len() == pre_loop.globals@.len(),
                    self.table == pre_loop.table,
                    okp ==> cnt == 1,
                    okp && k == 0 ==> *self == pre_loop,
                    okp && k == 1 ==> ({
                        &&& self.operand_stack@ == pre_loop.operand_stack@.push(
                            spec_const_instr_value(expr@[0])->Some_0,
                        )
                        &&& self.memory == pre_loop.memory
                        &&& self.control_stack.frames@ == pre_loop.control_stack.frames@
                        &&& self.local_0_idx == pre_loop.local_0_idx
                        &&& self.globals@ == pre_loop.globals@
                        &&& self.output@ == pre_loop.output@
                        &&& self.table == pre_loop.table
                    }),
                decreases cnt - k,
            {
                let ghost step_pre = *self;
                let res = self.exec_instr(&expr[k], fu);
                proof {
                    reveal(spec_step);
                    assert(spec_step(&step_pre, &*self, res, expr@[k as int], fu));
                }
                match res {
                    Result::Ok(()) => {},
                    Result::Err(e) => {
                        proof {
                            if okp {
                                reveal(spec_step);
                                assert(false);
                            }
                        }
                        return Result::Err(e);
                    },
                }
                k += 1;
            }
            if self.avail() < 1 {
                return Result::Err(Fault::StackUnderflow);
            }
            let offset = self.pop1() as u32;
            let inits = &m.elem_sec[ei].init;
            let icnt = inits.len();
            let ghost seg_pre = *self;
            let mut j: usize = 0;
            while j < icnt
                invariant
                    self.wf(),
                    self.module == old(self).module,
                    icnt == inits@.len(),
                    j <= icnt,
                    m == old(self).module,
                    ei < n,
                    n == m.elem_sec@.len(),
                    inits@ == m.elem_sec@[ei as int].init@,
                    m.table_sec@.len() > 0,
                    min == m.table_sec@[0].limits.min as int,
                    okp == spec_elem_segs_ok(m.elem_sec@, min, old(self).vm_funcs@.len() as int),
                    seg_pre.vm_funcs@ == old(self).vm_funcs@,
                    seg_pre.globals@.len() == old(self).globals@.len(),
                    seg_pre.table matches Some(t) && t.elems@.len() == min,
                    self.vm_funcs@ == seg_pre.vm_funcs@,
                    self.globals@.len() == seg_pre.globals@.len(),
                    self.operand_stack == seg_pre.operand_stack,
                    self.memory == seg_pre.memory,
                    self.control_stack.frames@ == seg_pre.control_stack.frames@,
                    self.local_0_idx == seg_pre.local_0_idx,
                    self.globals@ == seg_pre.globals@,
                    self.output@ == seg_pre.output@,
                    self.table matches Some(t) && t.elems@.len() == min,
                    okp ==> offset == (spec_const_instr_value(
                        m.elem_sec@[ei as int].offset@[0],
                    )->Some_0 as u32),
                    okp ==> ({
                        &&& seg_pre.operand_stack@ == old(self).operand_stack@
                        &&& seg_pre.memory == old(self).memory
                        &&& seg_pre.control_stack.frames@ == old(self).control_stack.frames@
                        &&& seg_pre.local_0_idx == old(self).local_0_idx
                        &&& seg_pre.globals@ == old(self).globals@
                        &&& seg_pre.output@ == old(self).output@
                    }),
                    okp ==> (forall|s: int|
                        #![trigger self.table->Some_0.elems@[s]]
                        0 <= s < min ==> if offset <= s < offset + j {
                            0 <= inits@[s - offset] < old(self).vm_funcs@.len()
                                && crate::table::spec_func_eq(
                                &old(self).vm_funcs@[inits@[s - offset] as int],
                                &self.table->Some_0.elems@[s],
                            )
                        } else {
                            match spec_elem_slot(m.elem_sec@.take(ei as int), s) {
                                Option::Some(fi) => 0 <= fi < old(self).vm_funcs@.len()
                                    && crate::table::spec_func_eq(
                                    &old(self).vm_funcs@[fi],
                                    &self.table->Some_0.elems@[s],
                                ),
                                Option::None => self.table->Some_0.elems@[s].code is None
                                    && self.table->Some_0.elems@[s].host is None,
                            }
                        }),
                decreases icnt - j,
            {
                let func_idx = inits[j];
                if func_idx as usize >= self.vm_funcs.len() {
                    proof {
                        if okp {
                            let d = m.elem_sec@[ei as int];
                            assert(d.init@[j as int] < old(self).vm_funcs@.len());
                            assert(false);
                        }
                    }
                    return Result::Err(Fault::FunctionIndexOutOfRange);
                }
                let f = self.vm_funcs[func_idx as usize].clone_func();
                let dst = (offset as u128) + (j as u128);
                match &mut self.table {
                    Option::Some(t) => {
                        if dst >= t.size() as u128 {
                            proof {
                                if okp {
                                    let d = m.elem_sec@[ei as int];
                                    assert(((spec_const_instr_value(d.offset@[0])->Some_0
                                        as u32) as int) + d.init@.len() <= min);
                                    assert(false);
                                }
                            }
                            return Result::Err(Fault::Trap(Trap::UndefinedElement));
                        }
                        t.set_elem(dst as usize, f);
                    },
                    Option::None => {
                        proof {
                            assert(false);
                        }
                        return Result::Err(Fault::Trap(Trap::UndefinedElement));
                    },
                }
                j += 1;
            }
            proof {
                if okp {
                    let segs1 = m.elem_sec@.take(ei + 1);
                    assert(segs1.last() == m.elem_sec@[ei as int]);
                    assert(segs1.drop_last() =~= m.elem_sec@.take(ei as int));
                    assert forall|s: int|
                        #![trigger self.table->Some_0.elems@[s]]
                        0 <= s < min implies match spec_elem_slot(segs1, s) {
                        Option::Some(fi) => 0 <= fi < old(self).vm_funcs@.len()
                            && crate::table::spec_func_eq(
                            &old(self).vm_funcs@[fi],
                            &self.table->Some_0.elems@[s],
                        ),
                        Option::None => self.table->Some_0.elems@[s].code is None
                            && self.table->Some_0.elems@[s].host is None,
                    } by {
                        assert(spec_elem_segs_ok(m.elem_sec@, min, old(self).vm_funcs@.len() as int));
                        assert(m.elem_sec@[ei as int].offset@.len() == 1);
                    }
                }
            }
            ei += 1;
        }
        proof {
            assert(m.elem_sec@.take(n as int) =~= m.elem_sec@);
        }
        Result::Ok(())
    }

    /// Decode-to-completion driver: build an engine for the module, run its
    /// initialisation phases, call the start function (or the export named
    /// `main`), and interpret until the entry frame pops or `fuel` runs out.
    /// Yields the bytes the program printed.
    pub fn exec_main<F: Fn(FloatOp, u64, u64) -> Option<u64>>(
        module: &Module,
        fu: &F,
        fuel: u64,
    ) -> (r: Result<Vec<u8>, Fault>)
        requires
            spec_float_unit_total(fu),
        ensures
            spec_exec_main_result(module, r, fuel, fu),
            (module.start_sec is None && (forall|i: int|
                0 <= i < module.export_sec@.len() ==> !spec_is_main_func(
                    #[trigger] &module.export_sec@[i],
                ))) ==> !(r is Ok),
    {
        let mut vm = match VM::new(module) {
            Result::Ok(vm) => vm,
            Result::Err(e) => {
                return Result::Err(e);
            },
        };
        let ghost g0 = vm;
        proof {
            assert(spec_fresh_vm(module, g0));
        }
        let r1 = vm.init_memory(fu);
        let ghost g1 = vm;
        proof {
            assert(spec_init_memory_result(&g0, &g1, r1));
        }
        match r1 {
            Result::Ok(()) => {},
            Result::Err(e) => {
                return Result::Err(e);
            },
        }
        let r2 = vm.init_globals(fu);
        let ghost g2 = vm;
        proof {
            assert(spec_init_globals_result(&g1, &g2, r2));
        }
        match r2 {
            Result::Ok(()) => {},
            Result::Err(e) => {
                return Result::Err(e);
            },
        }
        let r3 = vm.init_funcs();
        let ghost g3 = vm;
        proof {
            assert(spec_init_funcs_result(&g2, &g3, r3));
        }
        match r3 {
            Result::Ok(()) => {},
            Result::Err(e) => {
                return Result::Err(e);
            },
        }
        let r4 = vm.init_table(fu);
        let ghost g4 = vm;
        proof {
            assert(spec_init_table_result(&g3, &g4, r4));
        }
        match r4 {
            Result::Ok(()) => {},
            Result::Err(e) => {
                return Result::Err(e);
            },
        }
        let entry = match module.start_sec {
            Option::Some(idx) => idx,
            Option::None => match vm.get_main_idx() {
                Option::Some(idx) => idx,
                Option::None => {
                    return Result::Err(Fault::NoEntryFunction);
                },
            },
        };
        let r5 = vm.call(entry, fu);
        let ghost g5 = vm;
        proof {
            assert(spec_call_result(&g4, &g5, r5, entry, fu));
        }
        match r5 {
            Result::Ok(()) => {},
            Result::Err(e) => {
                proof {
                    assert(spec_entry_run(
                        g4,
                        entry,
                        Result::<Vec<u8>, Fault>::Err(e),
                        fuel,
                        fu,
                    ));
                }
                return Result::Err(e);
            },
        }
        let r6 = vm.main_loop(fu, fuel);
        let ghost g6 = vm;
        proof {
            assert(spec_main_loop_result(&g5, &g6, r6, fuel, fu));
        }
        match r6 {
            Result::Ok(()) => {},
            Result::Err(e) => {
                proof {
                    assert(spec_entry_run(
                        g4,
                        entry,
                        Result::<Vec<u8>, Fault>::Err(e),
                        fuel,
                        fu,
                    ));
                }
                return Result::Err(e);
            },
        }
        let out = vm.output;
        proof {
            assert(out@ == g6.output@);
            assert(spec_entry_run(g4, entry, Result::<Vec<u8>, Fault>::Ok(out), fuel, fu));
        }
        Result::Ok(out)
    }
}

} // verus!
