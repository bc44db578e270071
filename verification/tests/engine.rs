//! Unit tests for the engine's components: the operand stack, globals and
//! linear memory.

use std::rc::Rc;

use wasm_vm::globals::GlobalVar;
use wasm_vm::instruction::{BlockArgs, Instruction};
use wasm_vm::memory::Memory;
use wasm_vm::module::{Code, FuncType, GlobalType, Limits, Locals, Module, ValType};
use wasm_vm::stack::OperandStack;

#[test]
fn test_operand_stack() {
    let mut stack = OperandStack::new();
    stack.push_bool(true);
    stack.push_bool(false);
    stack.push_u32(1);
    stack.push_i32(-2);
    stack.push_u64(3);
    stack.push_i64(-4);
    stack.push_u32(5.5f32.to_bits());
    stack.push_u64(6.5f64.to_bits());

    assert_eq!(f64::from_bits(stack.pop_u64()), 6.5);
    assert_eq!(f32::from_bits(stack.pop_u32()), 5.5);
    assert_eq!(stack.pop_i64(), -4);
    assert_eq!(stack.pop_u64(), 3);
    assert_eq!(stack.pop_i32(), -2);
    assert_eq!(stack.pop_u32(), 1);
    assert_eq!(stack.pop_bool(), false);
    assert_eq!(stack.pop_bool(), true);
    assert_eq!(stack.length(), 0);
}

#[test]
fn test_local_var() {
    let mut operand_stack = OperandStack::new();
    operand_stack.push_u32(1);
    operand_stack.push_u32(3);
    operand_stack.push_u32(5);
    assert_eq!(3, operand_stack.get_operand(1));
    operand_stack.set_operand(1, 7);
    assert_eq!(7, operand_stack.get_operand(1));
}

#[test]
fn test_global_var() {
    let mut g = GlobalVar::new(
        GlobalType { val_type: ValType::I32, mutable: true },
        0,
    );
    g.set_as_u64(100).unwrap();
    assert_eq!(100, g.get_as_u64());
}

#[test]
fn test_memory() {
    // memory size and grow
    let mut mem = Memory::new(Limits { min: 2, max: None });
    assert_eq!(mem.size(), 2);
    assert_eq!(mem.grow(3), 2);
    assert_eq!(mem.size(), 5);
}

#[test]
fn test_immutable_global_rejects_write() {
    let mut g = GlobalVar::new(
        GlobalType { val_type: ValType::I64, mutable: false },
        41,
    );
    assert!(g.set_as_u64(42).is_err());
    assert_eq!(41, g.get_as_u64());
}

#[test]
fn test_memory_grow_past_max_is_refused() {
    let mut mem = Memory::new(Limits { min: 1, max: Some(1) });
    assert_eq!(mem.size(), 1);
    assert_eq!(mem.grow(1), 0xFFFF_FFFF);
    assert_eq!(mem.size(), 1);
}

#[test]
fn test_memory_grow_zeroes_new_pages() {
    let mut mem = Memory::new(Limits { min: 1, max: None });
    mem.write_u8(0, 0xAB);
    assert_eq!(mem.grow(1), 1);
    assert_eq!(mem.size(), 2);
    assert_eq!(mem.read_u8(0), 0xAB);
    assert_eq!(mem.read_u8(65536), 0);
    assert_eq!(mem.read_u8(2 * 65536 - 1), 0);
}

#[test]
fn test_memory_store_then_load_round_trip() {
    let mut mem = Memory::new(Limits { min: 1, max: None });
    mem.write_u32(100, 0x1234_5678);
    assert_eq!(mem.read_u32(100), 0x1234_5678);
    mem.write_u16(200, 0xBEEF);
    assert_eq!(mem.read_u16(200), 0xBEEF);
    mem.write_u64(300, 0xDEAD_BEEF_0BAD_F00D);
    assert_eq!(mem.read_u64(300), 0xDEAD_BEEF_0BAD_F00D);
}

#[test]
fn test_memory_check_offset() {
    let mem = Memory::new(Limits { min: 1, max: None });
    assert!(mem.check_offset(65532, 4));
    assert!(!mem.check_offset(65533, 4));
    assert!(!mem.check_offset(65536, 1));
    assert!(mem.check_offset(65536, 0));
}

#[test]
fn test_stack_pop_n_preserves_order() {
    let mut stack = OperandStack::new();
    stack.push_u64(10);
    stack.push_u64(20);
    stack.push_u64(30);
    let top2 = stack.pop_u64s(2);
    assert_eq!(top2, vec![20, 30]);
    assert_eq!(stack.length(), 1);
    assert_eq!(stack.get_operand(0), 10);
}

#[test]
fn test_op_names() {
    assert_eq!(Instruction::I32Add.get_op_name(), "i32.add");
    assert_eq!(Instruction::F64CopySign.get_op_name(), "f64.copysign");
    assert_eq!(Instruction::LocalGet(3).get_op_name(), "local.get");
    assert_eq!(
        Instruction::Loop(BlockArgs { block_type: -64, instructions: Rc::new(vec![]) })
            .get_op_name(),
        "loop"
    );
    assert_eq!(Instruction::I64Extend32S.get_op_name(), "i64.extend32_s");
}

#[test]
fn test_block_type_resolution() {
    let m = Module {
        magic: 0x6d736100,
        version: 1,
        custom_sec: vec![],
        type_sec: vec![FuncType {
            params_types: vec![ValType::I32],
            result_types: vec![ValType::I64],
        }],
        import_sec: vec![],
        func_sec: vec![],
        table_sec: vec![],
        mem_sec: vec![],
        global_sec: vec![],
        export_sec: vec![],
        start_sec: None,
        elem_sec: vec![],
        code_sec: vec![Code { locals: vec![], expr: Rc::new(vec![]) }],
        data_sec: vec![],
    };
    let short = m.get_block_type(-1).unwrap();
    assert!(short.params_types.is_empty());
    assert_eq!(short.result_types, vec![ValType::I32]);
    let empty = m.get_block_type(-64).unwrap();
    assert!(empty.result_types.is_empty());
    let indexed = m.get_block_type(0).unwrap();
    assert_eq!(indexed.params_types, vec![ValType::I32]);
    assert_eq!(indexed.result_types, vec![ValType::I64]);
    assert!(m.get_block_type(1).is_none());
    assert!(m.get_block_type(-5).is_none());
}

#[test]
fn test_local_count_sums_groups() {
    let code = Code {
        locals: vec![
            Locals { n: 3, val_type: ValType::I32 },
            Locals { n: 4, val_type: ValType::I64 },
        ],
        expr: Rc::new(vec![]),
    };
    assert_eq!(code.get_local_count(), 7);
}

#[test]
fn test_signature_equality_is_structural() {
    let a = FuncType {
        params_types: vec![ValType::I32, ValType::F64],
        result_types: vec![ValType::I64],
    };
    let b = FuncType {
        params_types: vec![ValType::I32, ValType::F64],
        result_types: vec![ValType::I64],
    };
    let c = FuncType { params_types: vec![ValType::I32], result_types: vec![ValType::I64] };
    assert!(a.same_signature(&b));
    assert!(b.same_signature(&a));
    assert!(!a.same_signature(&c));
}
