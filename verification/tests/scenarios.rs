//! End-to-end scenarios: hand-built modules run through the engine.

use std::rc::Rc;

use wasm_vm::error::{Fault, Trap};
use wasm_vm::instruction::{BlockArgs, Instruction, MemArg};
use wasm_vm::module::{
    Code, Elem, Export, ExportDesc, FuncType, Global, GlobalType, Import, ImportDesc, Limits,
    Locals, Module, TableType, ValType,
};
use wasm_vm::vm::{FloatOp, VM};

/// A host float unit over the IEEE-754 operations the scenarios need.
fn float_unit(op: FloatOp, a: u64, b: u64) -> Option<u64> {
    let a32 = f32::from_bits(a as u32);
    let b32 = f32::from_bits(b as u32);
    let a64 = f64::from_bits(a);
    let b64 = f64::from_bits(b);
    match op {
        FloatOp::F32Eq => Some((a32 == b32) as u64),
        FloatOp::F32Ne => Some((a32 != b32) as u64),
        FloatOp::F32Lt => Some((a32 < b32) as u64),
        FloatOp::F32Gt => Some((a32 > b32) as u64),
        FloatOp::F32Le => Some((a32 <= b32) as u64),
        FloatOp::F32Ge => Some((a32 >= b32) as u64),
        FloatOp::F64Eq => Some((a64 == b64) as u64),
        FloatOp::F64Ne => Some((a64 != b64) as u64),
        FloatOp::F64Lt => Some((a64 < b64) as u64),
        FloatOp::F64Gt => Some((a64 > b64) as u64),
        FloatOp::F64Le => Some((a64 <= b64) as u64),
        FloatOp::F64Ge => Some((a64 >= b64) as u64),
        FloatOp::F32Abs => Some(a32.abs().to_bits() as u64),
        FloatOp::F32Neg => Some((-a32).to_bits() as u64),
        FloatOp::F32Sqrt => Some(a32.sqrt().to_bits() as u64),
        FloatOp::F32Add => Some((a32 + b32).to_bits() as u64),
        FloatOp::F32Sub => Some((a32 - b32).to_bits() as u64),
        FloatOp::F32Mul => Some((a32 * b32).to_bits() as u64),
        FloatOp::F32Div => Some((a32 / b32).to_bits() as u64),
        FloatOp::F64Add => Some((a64 + b64).to_bits()),
        FloatOp::F64Sub => Some((a64 - b64).to_bits()),
        FloatOp::F64Mul => Some((a64 * b64).to_bits()),
        FloatOp::F64Div => Some((a64 / b64).to_bits()),
        FloatOp::I32TruncF32S => {
            let t = a32.trunc();
            if t.is_nan() || t < -2147483648.0 || t > 2147483647.0 {
                None
            } else {
                Some(((t as i32) as u32) as u64)
            }
        }
        FloatOp::F32ConvertI32S => Some((((a as u32) as i32) as f32).to_bits() as u64),
        FloatOp::F64PromoteF32 => Some((a32 as f64).to_bits()),
        FloatOp::F32DemoteF64 => Some((a64 as f32).to_bits() as u64),
        _ => None,
    }
}

fn empty_module() -> Module {
    Module {
        magic: 0x6d736100,
        version: 1,
        custom_sec: vec![],
        type_sec: vec![],
        import_sec: vec![],
        func_sec: vec![],
        table_sec: vec![],
        mem_sec: vec![],
        global_sec: vec![],
        export_sec: vec![],
        start_sec: None,
        elem_sec: vec![],
        code_sec: vec![],
        data_sec: vec![],
    }
}

fn ft(params: Vec<ValType>, results: Vec<ValType>) -> FuncType {
    FuncType { params_types: params, result_types: results }
}

/// A module importing `env.assert_eq_i32` as function 0, with one internal
/// function (index 1) of type `() -> ()` holding `body`, declared as the
/// start function.
fn assert_module(body: Vec<Instruction>) -> Module {
    let mut m = empty_module();
    m.type_sec = vec![
        ft(vec![ValType::I32, ValType::I32], vec![]),
        ft(vec![], vec![]),
    ];
    m.import_sec = vec![Import {
        module_name: "env".to_string(),
        member_name: "assert_eq_i32".to_string(),
        desc: ImportDesc::Func(0),
    }];
    m.func_sec = vec![1];
    m.code_sec = vec![Code { locals: vec![], expr: Rc::new(body) }];
    m.start_sec = Some(1);
    m
}

fn run(m: &Module) -> Result<Vec<u8>, Fault> {
    VM::exec_main(m, &float_unit, 1_000_000)
}

#[test]
fn scenario_arithmetic() {
    let m = assert_module(vec![
        Instruction::I32Const(40),
        Instruction::I32Const(2),
        Instruction::I32Add,
        Instruction::I32Const(42),
        Instruction::Call(0),
    ]);
    assert!(run(&m).is_ok());
}

#[test]
fn scenario_loop_sum() {
    // iterative sum of 1..=10: accumulator in local 0, counter in local 1
    let loop_body = vec![
        Instruction::LocalGet(1),
        Instruction::I32Const(1),
        Instruction::I32Add,
        Instruction::LocalSet(1),
        Instruction::LocalGet(0),
        Instruction::LocalGet(1),
        Instruction::I32Add,
        Instruction::LocalSet(0),
        Instruction::LocalGet(1),
        Instruction::I32Const(10),
        Instruction::I32LtS,
        Instruction::BrIf(0),
    ];
    let mut m = assert_module(vec![
        Instruction::Loop(BlockArgs { block_type: -64, instructions: Rc::new(loop_body) }),
        Instruction::LocalGet(0),
        Instruction::I32Const(55),
        Instruction::Call(0),
    ]);
    m.code_sec[0].locals = vec![Locals { n: 2, val_type: ValType::I32 }];
    assert!(run(&m).is_ok());
}

#[test]
fn scenario_memory_store_load() {
    let mut m = assert_module(vec![
        Instruction::I32Const(16),
        Instruction::I32Const(0x12345678),
        Instruction::I32Store(MemArg { align: 2, offset: 0 }),
        Instruction::I32Const(16),
        Instruction::I32Load(MemArg { align: 2, offset: 0 }),
        Instruction::I32Const(0x12345678),
        Instruction::Call(0),
    ]);
    m.mem_sec = vec![Limits { min: 1, max: None }];
    assert!(run(&m).is_ok());
}

/// A module whose element segment places `square(i32) -> i32` at table
/// index 3; the start function pushes 7, pushes 3, and calls indirectly
/// through `type_idx`.
fn indirect_module(type_idx: u32) -> Module {
    let mut m = empty_module();
    m.type_sec = vec![
        ft(vec![ValType::I32, ValType::I32], vec![]),
        ft(vec![], vec![]),
        ft(vec![ValType::I32], vec![ValType::I32]),
        ft(vec![ValType::I64], vec![ValType::I32]),
    ];
    m.import_sec = vec![Import {
        module_name: "env".to_string(),
        member_name: "assert_eq_i32".to_string(),
        desc: ImportDesc::Func(0),
    }];
    m.func_sec = vec![1, 2];
    m.table_sec = vec![TableType {
        elem_type: ValType::FuncRef,
        limits: Limits { min: 4, max: None },
    }];
    m.elem_sec = vec![Elem {
        table: 0,
        offset: Rc::new(vec![Instruction::I32Const(3)]),
        init: vec![2],
    }];
    m.code_sec = vec![
        Code {
            locals: vec![],
            expr: Rc::new(vec![
                Instruction::I32Const(7),
                Instruction::I32Const(3),
                Instruction::CallIndirect(type_idx),
                Instruction::I32Const(49),
                Instruction::Call(0),
            ]),
        },
        Code {
            locals: vec![],
            expr: Rc::new(vec![
                Instruction::LocalGet(0),
                Instruction::LocalGet(0),
                Instruction::I32Mul,
            ]),
        },
    ];
    m.start_sec = Some(1);
    m
}

#[test]
fn scenario_indirect_call() {
    assert!(run(&indirect_module(2)).is_ok());
}

#[test]
fn scenario_indirect_call_type_mismatch() {
    assert_eq!(
        run(&indirect_module(3)),
        Err(Fault::Trap(Trap::IndirectCallTypeMismatch))
    );
}

#[test]
fn scenario_indirect_call_out_of_table() {
    let mut m = indirect_module(2);
    m.code_sec[0] = Code {
        locals: vec![],
        expr: Rc::new(vec![
            Instruction::I32Const(99),
            Instruction::CallIndirect(2),
        ]),
    };
    assert_eq!(run(&m), Err(Fault::Trap(Trap::UndefinedElement)));
}

#[test]
fn scenario_divide_trap() {
    let m = assert_module(vec![
        Instruction::I32Const(1),
        Instruction::I32Const(0),
        Instruction::I32DivS,
    ]);
    let e = run(&m).unwrap_err();
    assert_eq!(e, Fault::Trap(Trap::DivideByZero));
    assert_eq!(e.message(), "divide by zero");
}

#[test]
fn scenario_signed_overflow_traps_unsigned_does_not() {
    let m = assert_module(vec![
        Instruction::I32Const(i32::MIN),
        Instruction::I32Const(-1),
        Instruction::I32DivS,
    ]);
    assert_eq!(run(&m), Err(Fault::Trap(Trap::IntegerOverflow)));

    let m = assert_module(vec![
        Instruction::I32Const(i32::MIN),
        Instruction::I32Const(-1),
        Instruction::I32DivU,
        Instruction::I32Const(0),
        Instruction::Call(0),
    ]);
    assert!(run(&m).is_ok());
}

#[test]
fn scenario_grow_bounds() {
    let mut m = assert_module(vec![
        Instruction::I32Const(1),
        Instruction::MemoryGrow,
        Instruction::I32Const(-1),
        Instruction::Call(0),
        Instruction::MemorySize,
        Instruction::I32Const(1),
        Instruction::Call(0),
    ]);
    m.mem_sec = vec![Limits { min: 1, max: Some(1) }];
    assert!(run(&m).is_ok());
}

#[test]
fn scenario_memory_access_out_of_bounds_traps() {
    let mut m = assert_module(vec![
        Instruction::I32Const(65533),
        Instruction::I32Load(MemArg { align: 2, offset: 0 }),
    ]);
    m.mem_sec = vec![Limits { min: 1, max: None }];
    assert_eq!(run(&m), Err(Fault::Trap(Trap::MemoryOutOfBounds)));
}

#[test]
fn scenario_shift_amount_counts_modulo_width() {
    let m = assert_module(vec![
        Instruction::I32Const(1),
        Instruction::I32Const(33),
        Instruction::I32Shl,
        Instruction::I32Const(2),
        Instruction::Call(0),
    ]);
    assert!(run(&m).is_ok());
}

#[test]
fn scenario_reinterpret_round_trip_preserves_nan() {
    let nan_bits = 0x7FC0_0001u32 as i32;
    let m = assert_module(vec![
        Instruction::I32Const(nan_bits),
        Instruction::F32ReinterpretI32,
        Instruction::I32ReinterpretF32,
        Instruction::I32Const(nan_bits),
        Instruction::Call(0),
    ]);
    assert!(run(&m).is_ok());
}

#[test]
fn scenario_narrow_store_then_signed_load() {
    let mut m = assert_module(vec![
        Instruction::I32Const(8),
        Instruction::I32Const(0xFF),
        Instruction::I32Store8(MemArg { align: 0, offset: 0 }),
        Instruction::I32Const(8),
        Instruction::I32Load8S(MemArg { align: 0, offset: 0 }),
        Instruction::I32Const(-1),
        Instruction::Call(0),
    ]);
    m.mem_sec = vec![Limits { min: 1, max: None }];
    assert!(run(&m).is_ok());
}

#[test]
fn scenario_tee_then_get_yields_value_twice() {
    let mut m = assert_module(vec![
        Instruction::I32Const(7),
        Instruction::LocalTee(0),
        Instruction::LocalGet(0),
        Instruction::Call(0),
    ]);
    m.code_sec[0].locals = vec![Locals { n: 1, val_type: ValType::I32 }];
    assert!(run(&m).is_ok());
}

#[test]
fn scenario_immutable_global_write_is_fatal() {
    let mut m = assert_module(vec![
        Instruction::I32Const(9),
        Instruction::GlobalSet(0),
    ]);
    m.global_sec = vec![Global {
        global_type: GlobalType { val_type: ValType::I32, mutable: false },
        init_expr: Rc::new(vec![Instruction::I32Const(5)]),
    }];
    assert_eq!(run(&m), Err(Fault::ImmutableGlobal));
}

#[test]
fn scenario_mutable_global_round_trip() {
    let mut m = assert_module(vec![
        Instruction::I32Const(9),
        Instruction::GlobalSet(0),
        Instruction::GlobalGet(0),
        Instruction::I32Const(9),
        Instruction::Call(0),
    ]);
    m.global_sec = vec![Global {
        global_type: GlobalType { val_type: ValType::I32, mutable: true },
        init_expr: Rc::new(vec![Instruction::I32Const(5)]),
    }];
    assert!(run(&m).is_ok());
}

#[test]
fn scenario_float_add_through_unit() {
    let mut m = empty_module();
    m.type_sec = vec![
        ft(vec![ValType::F32, ValType::F32], vec![]),
        ft(vec![], vec![]),
    ];
    m.import_sec = vec![Import {
        module_name: "env".to_string(),
        member_name: "assert_eq_f32".to_string(),
        desc: ImportDesc::Func(0),
    }];
    m.func_sec = vec![1];
    m.code_sec = vec![Code {
        locals: vec![],
        expr: Rc::new(vec![
            Instruction::F32Const(1.5f32.to_bits()),
            Instruction::F32Const(2.25f32.to_bits()),
            Instruction::F32Add,
            Instruction::F32Const(3.75f32.to_bits()),
            Instruction::Call(0),
        ]),
    }];
    m.start_sec = Some(1);
    assert!(run(&m).is_ok());
}

#[test]
fn scenario_print_char_collects_output() {
    let mut m = empty_module();
    m.type_sec = vec![ft(vec![ValType::I32], vec![]), ft(vec![], vec![])];
    m.import_sec = vec![Import {
        module_name: "env".to_string(),
        member_name: "print_char".to_string(),
        desc: ImportDesc::Func(0),
    }];
    m.func_sec = vec![1];
    m.code_sec = vec![Code {
        locals: vec![],
        expr: Rc::new(vec![
            Instruction::I32Const(72),
            Instruction::Call(0),
            Instruction::I32Const(105),
            Instruction::Call(0),
        ]),
    }];
    m.start_sec = Some(1);
    assert_eq!(run(&m).unwrap(), b"Hi".to_vec());
}

#[test]
fn scenario_main_export_is_the_entry() {
    let mut m = assert_module(vec![
        Instruction::I32Const(3),
        Instruction::I32Const(3),
        Instruction::Call(0),
    ]);
    m.start_sec = None;
    m.export_sec = vec![Export { name: "main".to_string(), desc: ExportDesc::Func(1) }];
    assert!(run(&m).is_ok());
}

#[test]
fn scenario_no_entry_function_is_fatal() {
    let m = empty_module();
    assert_eq!(run(&m), Err(Fault::NoEntryFunction));
}

#[test]
fn scenario_unknown_env_import_is_fatal() {
    let mut m = assert_module(vec![]);
    m.import_sec[0].member_name = "launch_missiles".to_string();
    assert_eq!(run(&m), Err(Fault::UnknownImport));
}

#[test]
fn scenario_unreachable_traps() {
    let m = assert_module(vec![Instruction::Unreachable]);
    assert_eq!(run(&m), Err(Fault::Trap(Trap::Unreachable)));
}

#[test]
fn scenario_stack_underflow_is_fatal() {
    let m = assert_module(vec![Instruction::I32Add]);
    assert_eq!(run(&m), Err(Fault::StackUnderflow));
}

#[test]
fn scenario_runaway_loop_exhausts_fuel() {
    let m = assert_module(vec![Instruction::Loop(BlockArgs {
        block_type: -64,
        instructions: Rc::new(vec![Instruction::Br(0)]),
    })]);
    assert_eq!(VM::exec_main(&m, &float_unit, 10_000), Err(Fault::OutOfFuel));
}

#[test]
fn scenario_assert_failure_is_fatal() {
    let m = assert_module(vec![
        Instruction::I32Const(1),
        Instruction::I32Const(2),
        Instruction::Call(0),
    ]);
    assert_eq!(run(&m), Err(Fault::AssertFailed));
}

#[test]
fn scenario_trunc_traps_on_nan() {
    let mut m = empty_module();
    m.type_sec = vec![ft(vec![], vec![])];
    m.func_sec = vec![0];
    m.code_sec = vec![Code {
        locals: vec![],
        expr: Rc::new(vec![
            Instruction::F32Const(f32::NAN.to_bits()),
            Instruction::I32TruncF32S,
        ]),
    }];
    m.start_sec = Some(0);
    assert_eq!(run(&m), Err(Fault::Trap(Trap::InvalidConversion)));
}

#[test]
fn scenario_data_segment_fills_memory() {
    let mut m = assert_module(vec![
        Instruction::I32Const(5),
        Instruction::I32Load8U(MemArg { align: 0, offset: 0 }),
        Instruction::I32Const(0xAB),
        Instruction::Call(0),
    ]);
    m.mem_sec = vec![Limits { min: 1, max: None }];
    m.data_sec = vec![wasm_vm::module::Data {
        mem: 0,
        offset: Rc::new(vec![Instruction::I32Const(5)]),
        init: vec![0xAB],
    }];
    assert!(run(&m).is_ok());
}

#[test]
fn scenario_decoded_module_runs() {
    // `i32.const 40; i32.const 2; i32.add; drop` as a decoded start function
    let data = vec![
        0x00, 0x61, 0x73, 0x6D, 0x01, 0x00, 0x00, 0x00, // header
        0x01, 0x04, 0x01, 0x60, 0x00, 0x00, // type section
        0x03, 0x02, 0x01, 0x00, // function section
        0x08, 0x01, 0x00, // start section
        0x0A, 0x0A, 0x01, 0x08, 0x00, 0x41, 0x28, 0x41, 0x02, 0x6A, 0x1A,
        0x0B, // code section
    ];
    let m = wasm_vm::reader::WasmReader::decode(&data).unwrap();
    assert!(run(&m).is_ok());
}

#[test]
fn scenario_block_and_if_control_flow() {
    // if 1 != 0 push 10 else push 20; compare with 10
    let m = assert_module(vec![
        Instruction::I32Const(1),
        Instruction::If(wasm_vm::instruction::IfArgs {
            block_type: -1,
            instructions_1: Rc::new(vec![Instruction::I32Const(10)]),
            instructions_2: Rc::new(vec![Instruction::I32Const(20)]),
        }),
        Instruction::I32Const(10),
        Instruction::Call(0),
    ]);
    assert!(run(&m).is_ok());
}

#[test]
fn scenario_local_index_out_of_range() {
    let m = assert_module(vec![Instruction::LocalGet(5)]);
    assert_eq!(run(&m), Err(Fault::LocalIndexOutOfRange));
}

#[test]
fn scenario_global_index_out_of_range() {
    let m = assert_module(vec![Instruction::I32Const(1), Instruction::GlobalSet(3)]);
    assert_eq!(run(&m), Err(Fault::GlobalIndexOutOfRange));
}

#[test]
fn scenario_function_index_out_of_range() {
    let m = assert_module(vec![Instruction::Call(9)]);
    assert_eq!(run(&m), Err(Fault::FunctionIndexOutOfRange));
}

#[test]
fn scenario_type_index_out_of_range() {
    assert_eq!(run(&indirect_module(7)), Err(Fault::TypeIndexOutOfRange));
}

#[test]
fn scenario_branch_label_out_of_range() {
    let m = assert_module(vec![Instruction::Br(5)]);
    assert_eq!(run(&m), Err(Fault::BadLabel));
}

#[test]
fn scenario_bad_block_type() {
    let m = assert_module(vec![Instruction::Block(BlockArgs {
        block_type: 77,
        instructions: Rc::new(vec![]),
    })]);
    assert_eq!(run(&m), Err(Fault::BadBlockType));
}

#[test]
fn scenario_unsatisfiable_memory_limits() {
    let mut m = assert_module(vec![]);
    m.mem_sec = vec![Limits { min: 2, max: Some(1) }];
    assert_eq!(run(&m), Err(Fault::BadMemoryLimits));
}

#[test]
fn scenario_local_count_overflow() {
    let mut m = assert_module(vec![]);
    m.code_sec[0].locals = vec![
        Locals { n: u32::MAX, val_type: ValType::I32 },
        Locals { n: 1, val_type: ValType::I32 },
    ];
    assert_eq!(run(&m), Err(Fault::TooManyLocals));
}

#[test]
fn scenario_bit_counting_and_rotation() {
    let m = assert_module(vec![
        Instruction::I32Const(0b1011),
        Instruction::I32PopCnt,
        Instruction::I32Const(3),
        Instruction::Call(0),
        Instruction::I32Const(0b1000),
        Instruction::I32Ctz,
        Instruction::I32Const(3),
        Instruction::Call(0),
        Instruction::I32Const(1),
        Instruction::I32Clz,
        Instruction::I32Const(31),
        Instruction::Call(0),
        Instruction::I32Const(0x8000_0001u32 as i32),
        Instruction::I32Const(1),
        Instruction::I32Rotl,
        Instruction::I32Const(3),
        Instruction::Call(0),
    ]);
    assert!(run(&m).is_ok());
}

#[test]
fn scenario_br_table_takes_default() {
    // br_table with an index past the labels takes the default label and
    // leaves the block, skipping the unreachable instruction
    let body = vec![
        Instruction::Block(BlockArgs {
            block_type: -64,
            instructions: Rc::new(vec![
                Instruction::I32Const(7),
                Instruction::BrTable(wasm_vm::instruction::BrTableArgs {
                    labels: vec![],
                    default: 0,
                }),
                Instruction::Unreachable,
            ]),
        }),
        Instruction::I32Const(1),
        Instruction::I32Const(1),
        Instruction::Call(0),
    ];
    let m = assert_module(body);
    assert!(run(&m).is_ok());
}

#[test]
fn scenario_internal_call_with_params() {
    // square(7) through a direct call, then assert the result
    let mut m = empty_module();
    m.type_sec = vec![
        ft(vec![ValType::I32, ValType::I32], vec![]),
        ft(vec![], vec![]),
        ft(vec![ValType::I32], vec![ValType::I32]),
    ];
    m.import_sec = vec![Import {
        module_name: "env".to_string(),
        member_name: "assert_eq_i32".to_string(),
        desc: ImportDesc::Func(0),
    }];
    m.func_sec = vec![1, 2];
    m.code_sec = vec![
        Code {
            locals: vec![],
            expr: Rc::new(vec![
                Instruction::I32Const(7),
                Instruction::Call(2),
                Instruction::I32Const(49),
                Instruction::Call(0),
            ]),
        },
        Code {
            locals: vec![],
            expr: Rc::new(vec![
                Instruction::LocalGet(0),
                Instruction::LocalGet(0),
                Instruction::I32Mul,
            ]),
        },
    ];
    m.start_sec = Some(1);
    assert!(run(&m).is_ok());
}

#[test]
fn scenario_return_leaves_the_function() {
    // return before the failing assertion; the result below the return
    // stays as the function's value
    let mut m = empty_module();
    m.type_sec = vec![
        ft(vec![ValType::I32, ValType::I32], vec![]),
        ft(vec![], vec![]),
        ft(vec![], vec![ValType::I32]),
    ];
    m.import_sec = vec![Import {
        module_name: "env".to_string(),
        member_name: "assert_eq_i32".to_string(),
        desc: ImportDesc::Func(0),
    }];
    m.func_sec = vec![1, 2];
    m.code_sec = vec![
        Code {
            locals: vec![],
            expr: Rc::new(vec![
                Instruction::Call(2),
                Instruction::I32Const(11),
                Instruction::Call(0),
            ]),
        },
        Code {
            locals: vec![],
            expr: Rc::new(vec![
                Instruction::I32Const(11),
                Instruction::Return,
                Instruction::Unreachable,
            ]),
        },
    ];
    m.start_sec = Some(1);
    assert!(run(&m).is_ok());
}

#[test]
fn scenario_unknown_saturating_selector_is_fatal() {
    let m = assert_module(vec![
        Instruction::F32Const(1.0f32.to_bits()),
        Instruction::TruncSat(99),
    ]);
    assert_eq!(run(&m), Err(Fault::UnknownOpcode));
}
