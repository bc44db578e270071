//! Instruction representation: a tagged enum whose variants carry exactly the
//! immediate shape of their opcode family.

use vstd::prelude::*;

use std::rc::Rc;

verus! {

/// Immediate of a memory access instruction: an alignment hint and a static
/// byte offset added to the dynamic address operand.
pub struct MemArg {
    pub align: u32,
    pub offset: u32,
}

/// Encoded block type of a structured instruction: a negative short form for a
/// single result (or none), or a non-negative index into the module's type
/// section.
pub type BlockType = i32;

pub const BLOCK_TYPE_I32: BlockType = -1;

pub const BLOCK_TYPE_I64: BlockType = -2;

pub const BLOCK_TYPE_F32: BlockType = -3;

pub const BLOCK_TYPE_F64: BlockType = -4;

pub const BLOCK_TYPE_EMPTY: BlockType = -64;

/// A sequence of instructions, shared so that control frames can refer to a
/// body without duplicating it.
pub type Expr = Rc<Vec<Instruction>>;

/// Immediate of `block` and `loop`: the block type and the nested body.
pub struct BlockArgs {
    pub block_type: BlockType,
    pub instructions: Expr,
}

/// Immediate of `if`: the block type, the consequent body and the alternative
/// body (empty when the `else` arm is absent).
pub struct IfArgs {
    pub block_type: BlockType,
    pub instructions_1: Expr,
    pub instructions_2: Expr,
}

/// Immediate of `br_table`: the label vector and the default label.
pub struct BrTableArgs {
    pub labels: Vec<u32>,
    pub default: u32,
}

/// One decoded instruction. Float immediates are carried as their IEEE-754
/// bit patterns; the engine moves them through 64-bit slots untouched.
pub enum Instruction {
    Unreachable,
    Nop,
    Block(BlockArgs),
    Loop(BlockArgs),
    If(IfArgs),
    Br(u32),
    BrIf(u32),
    BrTable(BrTableArgs),
    Return,
    Call(u32),
    CallIndirect(u32),
    Drop,
    Select,
    LocalGet(u32),
    LocalSet(u32),
    LocalTee(u32),
    GlobalGet(u32),
    GlobalSet(u32),
    I32Load(MemArg),
    I64Load(MemArg),
    F32Load(MemArg),
    F64Load(MemArg),
    I32Load8S(MemArg),
    I32Load8U(MemArg),
    I32Load16S(MemArg),
    I32Load16U(MemArg),
    I64Load8S(MemArg),
    I64Load8U(MemArg),
    I64Load16S(MemArg),
    I64Load16U(MemArg),
    I64Load32S(MemArg),
    I64Load32U(MemArg),
    I32Store(MemArg),
    I64Store(MemArg),
    F32Store(MemArg),
    F64Store(MemArg),
    I32Store8(MemArg),
    I32Store16(MemArg),
    I64Store8(MemArg),
    I64Store16(MemArg),
    I64Store32(MemArg),
    MemorySize,
    MemoryGrow,
    I32Const(i32),
    I64Const(i64),
    F32Const(u32),
    F64Const(u64),
    I32Eqz,
    I32Eq,
    I32Ne,
    I32LtS,
    I32LtU,
    I32GtS,
    I32GtU,
    I32LeS,
    I32LeU,
    I32GeS,
    I32GeU,
    I64Eqz,
    I64Eq,
    I64Ne,
    I64LtS,
    I64LtU,
    I64GtS,
    I64GtU,
    I64LeS,
    I64LeU,
    I64GeS,
    I64GeU,
    F32Eq,
    F32Ne,
    F32Lt,
    F32Gt,
    F32Le,
    F32Ge,
    F64Eq,
    F64Ne,
    F64Lt,
    F64Gt,
    F64Le,
    F64Ge,
    I32Clz,
    I32Ctz,
    I32PopCnt,
    I32Add,
    I32Sub,
    I32Mul,
    I32DivS,
    I32DivU,
    I32RemS,
    I32RemU,
    I32And,
    I32Or,
    I32Xor,
    I32Shl,
    I32ShrS,
    I32ShrU,
    I32Rotl,
    I32Rotr,
    I64Clz,
    I64Ctz,
    I64PopCnt,
    I64Add,
    I64Sub,
    I64Mul,
    I64DivS,
    I64DivU,
    I64RemS,
    I64RemU,
    I64And,
    I64Or,
    I64Xor,
    I64Shl,
    I64ShrS,
    I64ShrU,
    I64Rotl,
    I64Rotr,
    F32Abs,
    F32Neg,
    F32Ceil,
    F32Floor,
    F32Trunc,
    F32Nearest,
    F32Sqrt,
    F32Add,
    F32Sub,
    F32Mul,
    F32Div,
    F32Min,
    F32Max,
    F32CopySign,
    F64Abs,
    F64Neg,
    F64Ceil,
    F64Floor,
    F64Trunc,
    F64Nearest,
    F64Sqrt,
    F64Add,
    F64Sub,
    F64Mul,
    F64Div,
    F64Min,
    F64Max,
    F64CopySign,
    I32WrapI64,
    I32TruncF32S,
    I32TruncF32U,
    I32TruncF64S,
    I32TruncF64U,
    I64ExtendI32S,
    I64ExtendI32U,
    I64TruncF32S,
    I64TruncF32U,
    I64TruncF64S,
    I64TruncF64U,
    F32ConvertI32S,
    F32ConvertI32U,
    F32ConvertI64S,
    F32ConvertI64U,
    F32DemoteF64,
    F64ConvertI32S,
    F64ConvertI32U,
    F64ConvertI64S,
    F64ConvertI64U,
    F64PromoteF32,
    I32ReinterpretF32,
    I64ReinterpretF64,
    F32ReinterpretI32,
    F64ReinterpretI64,
    I32Extend8S,
    I32Extend16S,
    I64Extend8S,
    I64Extend16S,
    I64Extend32S,
    TruncSat(u8),
}

impl Instruction {
    /// The mnemonic of this instruction's opcode, as a character sequence.
    pub open spec fn op_name(&self) -> Seq<char> {
        match self {
            Instruction::Unreachable => "unreachable"@,
            Instruction::Nop => "nop"@,
            Instruction::Block(..) => "block"@,
            Instruction::Loop(..) => "loop"@,
            Instruction::If(..) => "if"@,
            Instruction::Br(..) => "br"@,
            Instruction::BrIf(..) => "br_if"@,
            Instruction::BrTable(..) => "br_table"@,
            Instruction::Return => "return"@,
            Instruction::Call(..) => "call"@,
            Instruction::CallIndirect(..) => "call_indirect"@,
            Instruction::Drop => "drop"@,
            Instruction::Select => "select"@,
            Instruction::LocalGet(..) => "local.get"@,
            Instruction::LocalSet(..) => "local.set"@,
            Instruction::LocalTee(..) => "local.tee"@,
            Instruction::GlobalGet(..) => "global.get"@,
            Instruction::GlobalSet(..) => "global.set"@,
            Instruction::I32Load(..) => "i32.load"@,
            Instruction::I64Load(..) => "i64.load"@,
            Instruction::F32Load(..) => "f32.load"@,
            Instruction::F64Load(..) => "f64.load"@,
            Instruction::I32Load8S(..) => "i32.load8_s"@,
            Instruction::I32Load8U(..) => "i32.load8_u"@,
            Instruction::I32Load16S(..) => "i32.load16_s"@,
            Instruction::I32Load16U(..) => "i32.load16_u"@,
            Instruction::I64Load8S(..) => "i64.load8_s"@,
            Instruction::I64Load8U(..) => "i64.load8_u"@,
            Instruction::I64Load16S(..) => "i64.load16_s"@,
            Instruction::I64Load16U(..) => "i64.load16_u"@,
            Instruction::I64Load32S(..) => "i64.load32_s"@,
            Instruction::I64Load32U(..) => "i64.load32_u"@,
            Instruction::I32Store(..) => "i32.store"@,
            Instruction::I64Store(..) => "i64.store"@,
            Instruction::F32Store(..) => "f32.store"@,
            Instruction::F64Store(..) => "f64.store"@,
            Instruction::I32Store8(..) => "i32.store8"@,
            Instruction::I32Store16(..) => "i32.store16"@,
            Instruction::I64Store8(..) => "i64.store8"@,
            Instruction::I64Store16(..) => "i64.store16"@,
            Instruction::I64Store32(..) => "i64.store32"@,
            Instruction::MemorySize => "memory.size"@,
            Instruction::MemoryGrow => "memory.grow"@,
            Instruction::I32Const(..) => "i32.const"@,
            Instruction::I64Const(..) => "i64.const"@,
            Instruction::F32Const(..) => "f32.const"@,
            Instruction::F64Const(..) => "f64.const"@,
            Instruction::I32Eqz => "i32.eqz"@,
            Instruction::I32Eq => "i32.eq"@,
            Instruction::I32Ne => "i32.ne"@,
            Instruction::I32LtS => "i32.lt_s"@,
            Instruction::I32LtU => "i32.lt_u"@,
            Instruction::I32GtS => "i32.gt_s"@,
            Instruction::I32GtU => "i32.gt_u"@,
            Instruction::I32LeS => "i32.le_s"@,
            Instruction::I32LeU => "i32.le_u"@,
            Instruction::I32GeS => "i32.ge_s"@,
            Instruction::I32GeU => "i32.ge_u"@,
            Instruction::I64Eqz => "i64.eqz"@,
            Instruction::I64Eq => "i64.eq"@,
            Instruction::I64Ne => "i64.ne"@,
            Instruction::I64LtS => "i64.lt_s"@,
            Instruction::I64LtU => "i64.lt_u"@,
            Instruction::I64GtS => "i64.gt_s"@,
            Instruction::I64GtU => "i64.gt_u"@,
            Instruction::I64LeS => "i64.le_s"@,
            Instruction::I64LeU => "i64.le_u"@,
            Instruction::I64GeS => "i64.ge_s"@,
            Instruction::I64GeU => "i64.ge_u"@,
            Instruction::F32Eq => "f32.eq"@,
            Instruction::F32Ne => "f32.ne"@,
            Instruction::F32Lt => "f32.lt"@,
            Instruction::F32Gt => "f32.gt"@,
            Instruction::F32Le => "f32.le"@,
            Instruction::F32Ge => "f32.ge"@,
            Instruction::F64Eq => "f64.eq"@,
            Instruction::F64Ne => "f64.ne"@,
            Instruction::F64Lt => "f64.lt"@,
            Instruction::F64Gt => "f64.gt"@,
            Instruction::F64Le => "f64.le"@,
            Instruction::F64Ge => "f64.ge"@,
            Instruction::I32Clz => "i32.clz"@,
            Instruction::I32Ctz => "i32.ctz"@,
            Instruction::I32PopCnt => "i32.popcnt"@,
            Instruction::I32Add => "i32.add"@,
            Instruction::I32Sub => "i32.sub"@,
            Instruction::I32Mul => "i32.mul"@,
            Instruction::I32DivS => "i32.div_s"@,
            Instruction::I32DivU => "i32.div_u"@,
            Instruction::I32RemS => "i32.rem_s"@,
            Instruction::I32RemU => "i32.rem_u"@,
            Instruction::I32And => "i32.and"@,
            Instruction::I32Or => "i32.or"@,
            Instruction::I32Xor => "i32.xor"@,
            Instruction::I32Shl => "i32.shl"@,
            Instruction::I32ShrS => "i32.shr_s"@,
            Instruction::I32ShrU => "i32.shr_u"@,
            Instruction::I32Rotl => "i32.rotl"@,
            Instruction::I32Rotr => "i32.rotr"@,
            Instruction::I64Clz => "i64.clz"@,
            Instruction::I64Ctz => "i64.ctz"@,
            Instruction::I64PopCnt => "i64.popcnt"@,
            Instruction::I64Add => "i64.add"@,
            Instruction::I64Sub => "i64.sub"@,
            Instruction::I64Mul => "i64.mul"@,
            Instruction::I64DivS => "i64.div_s"@,
            Instruction::I64DivU => "i64.div_u"@,
            Instruction::I64RemS => "i64.rem_s"@,
            Instruction::I64RemU => "i64.rem_u"@,
            Instruction::I64And => "i64.and"@,
            Instruction::I64Or => "i64.or"@,
            Instruction::I64Xor => "i64.xor"@,
            Instruction::I64Shl => "i64.shl"@,
            Instruction::I64ShrS => "i64.shr_s"@,
            Instruction::I64ShrU => "i64.shr_u"@,
            Instruction::I64Rotl => "i64.rotl"@,
            Instruction::I64Rotr => "i64.rotr"@,
            Instruction::F32Abs => "f32.abs"@,
            Instruction::F32Neg => "f32.neg"@,
            Instruction::F32Ceil => "f32.ceil"@,
            Instruction::F32Floor => "f32.floor"@,
            Instruction::F32Trunc => "f32.trunc"@,
            Instruction::F32Nearest => "f32.nearest"@,
            Instruction::F32Sqrt => "f32.sqrt"@,
            Instruction::F32Add => "f32.add"@,
            Instruction::F32Sub => "f32.sub"@,
            Instruction::F32Mul => "f32.mul"@,
            Instruction::F32Div => "f32.div"@,
            Instruction::F32Min => "f32.min"@,
            Instruction::F32Max => "f32.max"@,
            Instruction::F32CopySign => "f32.copysign"@,
            Instruction::F64Abs => "f64.abs"@,
            Instruction::F64Neg => "f64.neg"@,
            Instruction::F64Ceil => "f64.ceil"@,
            Instruction::F64Floor => "f64.floor"@,
            Instruction::F64Trunc => "f64.trunc"@,
            Instruction::F64Nearest => "f64.nearest"@,
            Instruction::F64Sqrt => "f64.sqrt"@,
            Instruction::F64Add => "f64.add"@,
            Instruction::F64Sub => "f64.sub"@,
            Instruction::F64Mul => "f64.mul"@,
            Instruction::F64Div => "f64.div"@,
            Instruction::F64Min => "f64.min"@,
            Instruction::F64Max => "f64.max"@,
            Instruction::F64CopySign => "f64.copysign"@,
            Instruction::I32WrapI64 => "i32.wrap_i64"@,
            Instruction::I32TruncF32S => "i32.trunc_f32_s"@,
            Instruction::I32TruncF32U => "i32.trunc_f32_u"@,
            Instruction::I32TruncF64S => "i32.trunc_f64_s"@,
            Instruction::I32TruncF64U => "i32.trunc_f64_u"@,
            Instruction::I64ExtendI32S => "i64.extend_i32_s"@,
            Instruction::I64ExtendI32U => "i64.extend_i32_u"@,
            Instruction::I64TruncF32S => "i64.trunc_f32_s"@,
            Instruction::I64TruncF32U => "i64.trunc_f32_u"@,
            Instruction::I64TruncF64S => "i64.trunc_f64_s"@,
            Instruction::I64TruncF64U => "i64.trunc_f64_u"@,
            Instruction::F32ConvertI32S => "f32.convert_i32_s"@,
            Instruction::F32ConvertI32U => "f32.convert_i32_u"@,
            Instruction::F32ConvertI64S => "f32.convert_i64_s"@,
            Instruction::F32ConvertI64U => "f32.convert_i64_u"@,
            Instruction::F32DemoteF64 => "f32.demote_f64"@,
            Instruction::F64ConvertI32S => "f64.convert_i32_s"@,
            Instruction::F64ConvertI32U => "f64.convert_i32_u"@,
            Instruction::F64ConvertI64S => "f64.convert_i64_s"@,
            Instruction::F64ConvertI64U => "f64.convert_i64_u"@,
            Instruction::F64PromoteF32 => "f64.promote_f32"@,
            Instruction::I32ReinterpretF32 => "i32.reinterpret_f32"@,
            Instruction::I64ReinterpretF64 => "i64.reinterpret_f64"@,
            Instruction::F32ReinterpretI32 => "f32.reinterpret_i32"@,
            Instruction::F64ReinterpretI64 => "f64.reinterpret_i64"@,
            Instruction::I32Extend8S => "i32.extend8_s"@,
            Instruction::I32Extend16S => "i32.extend16_s"@,
            Instruction::I64Extend8S => "i64.extend8_s"@,
            Instruction::I64Extend16S => "i64.extend16_s"@,
            Instruction::I64Extend32S => "i64.extend32_s"@,
            Instruction::TruncSat(..) => "trunc_sat"@,
        }
    }

    /// The text-format mnemonic of this instruction's opcode.
    pub fn get_op_name(&self) -> (r: String)
        ensures
            r@ == self.op_name(),
    {
        let s: &str = match self {
            Instruction::Unreachable => "unreachable",
            Instruction::Nop => "nop",
            Instruction::Block(..) => "block",
            Instruction::Loop(..) => "loop",
            Instruction::If(..) => "if",
            Instruction::Br(..) => "br",
            Instruction::BrIf(..) => "br_if",
            Instruction::BrTable(..) => "br_table",
            Instruction::Return => "return",
            Instruction::Call(..) => "call",
            Instruction::CallIndirect(..) => "call_indirect",
            Instruction::Drop => "drop",
            Instruction::Select => "select",
            Instruction::LocalGet(..) => "local.get",
            Instruction::LocalSet(..) => "local.set",
            Instruction::LocalTee(..) => "local.tee",
            Instruction::GlobalGet(..) => "global.get",
            Instruction::GlobalSet(..) => "global.set",
            Instruction::I32Load(..) => "i32.load",
            Instruction::I64Load(..) => "i64.load",
            Instruction::F32Load(..) => "f32.load",
            Instruction::F64Load(..) => "f64.load",
            Instruction::I32Load8S(..) => "i32.load8_s",
            Instruction::I32Load8U(..) => "i32.load8_u",
            Instruction::I32Load16S(..) => "i32.load16_s",
            Instruction::I32Load16U(..) => "i32.load16_u",
            Instruction::I64Load8S(..) => "i64.load8_s",
            Instruction::I64Load8U(..) => "i64.load8_u",
            Instruction::I64Load16S(..) => "i64.load16_s",
            Instruction::I64Load16U(..) => "i64.load16_u",
            Instruction::I64Load32S(..) => "i64.load32_s",
            Instruction::I64Load32U(..) => "i64.load32_u",
            Instruction::I32Store(..) => "i32.store",
            Instruction::I64Store(..) => "i64.store",
            Instruction::F32Store(..) => "f32.store",
            Instruction::F64Store(..) => "f64.store",
            Instruction::I32Store8(..) => "i32.store8",
            Instruction::I32Store16(..) => "i32.store16",
            Instruction::I64Store8(..) => "i64.store8",
            Instruction::I64Store16(..) => "i64.store16",
            Instruction::I64Store32(..) => "i64.store32",
            Instruction::MemorySize => "memory.size",
            Instruction::MemoryGrow => "memory.grow",
            Instruction::I32Const(..) => "i32.const",
            Instruction::I64Const(..) => "i64.const",
            Instruction::F32Const(..) => "f32.const",
            Instruction::F64Const(..) => "f64.const",
            Instruction::I32Eqz => "i32.eqz",
            Instruction::I32Eq => "i32.eq",
            Instruction::I32Ne => "i32.ne",
            Instruction::I32LtS => "i32.lt_s",
            Instruction::I32LtU => "i32.lt_u",
            Instruction::I32GtS => "i32.gt_s",
            Instruction::I32GtU => "i32.gt_u",
            Instruction::I32LeS => "i32.le_s",
            Instruction::I32LeU => "i32.le_u",
            Instruction::I32GeS => "i32.ge_s",
            Instruction::I32GeU => "i32.ge_u",
            Instruction::I64Eqz => "i64.eqz",
            Instruction::I64Eq => "i64.eq",
            Instruction::I64Ne => "i64.ne",
            Instruction::I64LtS => "i64.lt_s",
            Instruction::I64LtU => "i64.lt_u",
            Instruction::I64GtS => "i64.gt_s",
            Instruction::I64GtU => "i64.gt_u",
            Instruction::I64LeS => "i64.le_s",
            Instruction::I64LeU => "i64.le_u",
            Instruction::I64GeS => "i64.ge_s",
            Instruction::I64GeU => "i64.ge_u",
            Instruction::F32Eq => "f32.eq",
            Instruction::F32Ne => "f32.ne",
            Instruction::F32Lt => "f32.lt",
            Instruction::F32Gt => "f32.gt",
            Instruction::F32Le => "f32.le",
            Instruction::F32Ge => "f32.ge",
            Instruction::F64Eq => "f64.eq",
            Instruction::F64Ne => "f64.ne",
            Instruction::F64Lt => "f64.lt",
            Instruction::F64Gt => "f64.gt",
            Instruction::F64Le => "f64.le",
            Instruction::F64Ge => "f64.ge",
            Instruction::I32Clz => "i32.clz",
            Instruction::I32Ctz => "i32.ctz",
            Instruction::I32PopCnt => "i32.popcnt",
            Instruction::I32Add => "i32.add",
            Instruction::I32Sub => "i32.sub",
            Instruction::I32Mul => "i32.mul",
            Instruction::I32DivS => "i32.div_s",
            Instruction::I32DivU => "i32.div_u",
            Instruction::I32RemS => "i32.rem_s",
            Instruction::I32RemU => "i32.rem_u",
            Instruction::I32And => "i32.and",
            Instruction::I32Or => "i32.or",
            Instruction::I32Xor => "i32.xor",
            Instruction::I32Shl => "i32.shl",
            Instruction::I32ShrS => "i32.shr_s",
            Instruction::I32ShrU => "i32.shr_u",
            Instruction::I32Rotl => "i32.rotl",
            Instruction::I32Rotr => "i32.rotr",
            Instruction::I64Clz => "i64.clz",
            Instruction::I64Ctz => "i64.ctz",
            Instruction::I64PopCnt => "i64.popcnt",
            Instruction::I64Add => "i64.add",
            Instruction::I64Sub => "i64.sub",
            Instruction::I64Mul => "i64.mul",
            Instruction::I64DivS => "i64.div_s",
            Instruction::I64DivU => "i64.div_u",
            Instruction::I64RemS => "i64.rem_s",
            Instruction::I64RemU => "i64.rem_u",
            Instruction::I64And => "i64.and",
            Instruction::I64Or => "i64.or",
            Instruction::I64Xor => "i64.xor",
            Instruction::I64Shl => "i64.shl",
            Instruction::I64ShrS => "i64.shr_s",
            Instruction::I64ShrU => "i64.shr_u",
            Instruction::I64Rotl => "i64.rotl",
            Instruction::I64Rotr => "i64.rotr",
            Instruction::F32Abs => "f32.abs",
            Instruction::F32Neg => "f32.neg",
            Instruction::F32Ceil => "f32.ceil",
            Instruction::F32Floor => "f32.floor",
            Instruction::F32Trunc => "f32.trunc",
            Instruction::F32Nearest => "f32.nearest",
            Instruction::F32Sqrt => "f32.sqrt",
            Instruction::F32Add => "f32.add",
            Instruction::F32Sub => "f32.sub",
            Instruction::F32Mul => "f32.mul",
            Instruction::F32Div => "f32.div",
            Instruction::F32Min => "f32.min",
            Instruction::F32Max => "f32.max",
            Instruction::F32CopySign => "f32.copysign",
            Instruction::F64Abs => "f64.abs",
            Instruction::F64Neg => "f64.neg",
            Instruction::F64Ceil => "f64.ceil",
            Instruction::F64Floor => "f64.floor",
            Instruction::F64Trunc => "f64.trunc",
            Instruction::F64Nearest => "f64.nearest",
            Instruction::F64Sqrt => "f64.sqrt",
            Instruction::F64Add => "f64.add",
            Instruction::F64Sub => "f64.sub",
            Instruction::F64Mul => "f64.mul",
            Instruction::F64Div => "f64.div",
            Instruction::F64Min => "f64.min",
            Instruction::F64Max => "f64.max",
            Instruction::F64CopySign => "f64.copysign",
            Instruction::I32WrapI64 => "i32.wrap_i64",
            Instruction::I32TruncF32S => "i32.trunc_f32_s",
            Instruction::I32TruncF32U => "i32.trunc_f32_u",
            Instruction::I32TruncF64S => "i32.trunc_f64_s",
            Instruction::I32TruncF64U => "i32.trunc_f64_u",
            Instruction::I64ExtendI32S => "i64.extend_i32_s",
            Instruction::I64ExtendI32U => "i64.extend_i32_u",
            Instruction::I64TruncF32S => "i64.trunc_f32_s",
            Instruction::I64TruncF32U => "i64.trunc_f32_u",
            Instruction::I64TruncF64S => "i64.trunc_f64_s",
            Instruction::I64TruncF64U => "i64.trunc_f64_u",
            Instruction::F32ConvertI32S => "f32.convert_i32_s",
            Instruction::F32ConvertI32U => "f32.convert_i32_u",
            Instruction::F32ConvertI64S => "f32.convert_i64_s",
            Instruction::F32ConvertI64U => "f32.convert_i64_u",
            Instruction::F32DemoteF64 => "f32.demote_f64",
            Instruction::F64ConvertI32S => "f64.convert_i32_s",
            Instruction::F64ConvertI32U => "f64.convert_i32_u",
            Instruction::F64ConvertI64S => "f64.convert_i64_s",
            Instruction::F64ConvertI64U => "f64.convert_i64_u",
            Instruction::F64PromoteF32 => "f64.promote_f32",
            Instruction::I32ReinterpretF32 => "i32.reinterpret_f32",
            Instruction::I64ReinterpretF64 => "i64.reinterpret_f64",
            Instruction::F32ReinterpretI32 => "f32.reinterpret_i32",
            Instruction::F64ReinterpretI64 => "f64.reinterpret_i64",
            Instruction::I32Extend8S => "i32.extend8_s",
            Instruction::I32Extend16S => "i32.extend16_s",
            Instruction::I64Extend8S => "i64.extend8_s",
            Instruction::I64Extend16S => "i64.extend16_s",
            Instruction::I64Extend32S => "i64.extend32_s",
            Instruction::TruncSat(..) => "trunc_sat",
        };
        s.to_owned()
    }
}

} // verus!
