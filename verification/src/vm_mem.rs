//! Memory-access, variable and memory-management instruction handlers.
//!
//! Every load and store computes its effective address in 64-bit width and
//! traps exactly when the accessed span passes the end of linear memory.

use vstd::prelude::*;

use vstd::bytes::{
    spec_u16_from_le_bytes, spec_u16_to_le_bytes, spec_u32_from_le_bytes, spec_u32_to_le_bytes,
    spec_u64_from_le_bytes, spec_u64_to_le_bytes,
};

use crate::error::{Fault, Trap};
use crate::globals::GlobalVar;
use crate::instruction::MemArg;
use crate::memory::{spec_page_limit, spec_page_size};
use crate::vm::VM;

verus! {

/// The contract of the `i32_load` handler, as a relation between the
/// engine before and after it.
pub open spec fn spec_i32_load_result(a: &VM, b: &VM, r: Result<(), Fault>, arg: MemArg) -> bool {
    ({
                let s = a.operand_stack@;
                let m = a.memory.data@;
                let addr = (s.last() as u32) as int + arg.offset as int;
                match r {
                    Ok(()) => a.spec_avail() >= 1 && addr + 4 <= m.len()
                        && b.operand_stack@ == s.drop_last().push(spec_u32_from_le_bytes(m.subrange(addr, addr + 4)) as u64),
                    Err(e) => (e == Fault::StackUnderflow && a.spec_avail() < 1
                        && b.operand_stack@ == s) || (e == Fault::Trap(
                        Trap::MemoryOutOfBounds,
                    ) && a.spec_avail() >= 1 && addr + 4 > m.len()
                        && b.operand_stack@ == s.drop_last()),
                }
    })
}

/// The contract of the `i64_load` handler, as a relation between the
/// engine before and after it.
pub open spec fn spec_i64_load_result(a: &VM, b: &VM, r: Result<(), Fault>, arg: MemArg) -> bool {
    ({
                let s = a.operand_stack@;
                let m = a.memory.data@;
                let addr = (s.last() as u32) as int + arg.offset as int;
                match r {
                    Ok(()) => a.spec_avail() >= 1 && addr + 8 <= m.len()
                        && b.operand_stack@ == s.drop_last().push(spec_u64_from_le_bytes(m.subrange(addr, addr + 8))),
                    Err(e) => (e == Fault::StackUnderflow && a.spec_avail() < 1
                        && b.operand_stack@ == s) || (e == Fault::Trap(
                        Trap::MemoryOutOfBounds,
                    ) && a.spec_avail() >= 1 && addr + 8 > m.len()
                        && b.operand_stack@ == s.drop_last()),
                }
    })
}

/// The contract of the `f32_load` handler, as a relation between the
/// engine before and after it.
pub open spec fn spec_f32_load_result(a: &VM, b: &VM, r: Result<(), Fault>, arg: MemArg) -> bool {
    ({
                let s = a.operand_stack@;
                let m = a.memory.data@;
                let addr = (s.last() as u32) as int + arg.offset as int;
                match r {
                    Ok(()) => a.spec_avail() >= 1 && addr + 4 <= m.len()
                        && b.operand_stack@ == s.drop_last().push(spec_u32_from_le_bytes(m.subrange(addr, addr + 4)) as u64),
                    Err(e) => (e == Fault::StackUnderflow && a.spec_avail() < 1
                        && b.operand_stack@ == s) || (e == Fault::Trap(
                        Trap::MemoryOutOfBounds,
                    ) && a.spec_avail() >= 1 && addr + 4 > m.len()
                        && b.operand_stack@ == s.drop_last()),
                }
    })
}

/// The contract of the `f64_load` handler, as a relation between the
/// engine before and after it.
pub open spec fn spec_f64_load_result(a: &VM, b: &VM, r: Result<(), Fault>, arg: MemArg) -> bool {
    ({
                let s = a.operand_stack@;
                let m = a.memory.data@;
                let addr = (s.last() as u32) as int + arg.offset as int;
                match r {
                    Ok(()) => a.spec_avail() >= 1 && addr + 8 <= m.len()
                        && b.operand_stack@ == s.drop_last().push(spec_u64_from_le_bytes(m.subrange(addr, addr + 8))),
                    Err(e) => (e == Fault::StackUnderflow && a.spec_avail() < 1
                        && b.operand_stack@ == s) || (e == Fault::Trap(
                        Trap::MemoryOutOfBounds,
                    ) && a.spec_avail() >= 1 && addr + 8 > m.len()
                        && b.operand_stack@ == s.drop_last()),
                }
    })
}

/// The contract of the `i32_load_8s` handler, as a relation between the
/// engine before and after it.
pub open spec fn spec_i32_load_8s_result(a: &VM, b: &VM, r: Result<(), Fault>, arg: MemArg) -> bool {
    ({
                let s = a.operand_stack@;
                let m = a.memory.data@;
                let addr = (s.last() as u32) as int + arg.offset as int;
                match r {
                    Ok(()) => a.spec_avail() >= 1 && addr + 1 <= m.len()
                        && b.operand_stack@ == s.drop_last().push(((((m[addr] as i8) as i32) as u32) as u64)),
                    Err(e) => (e == Fault::StackUnderflow && a.spec_avail() < 1
                        && b.operand_stack@ == s) || (e == Fault::Trap(
                        Trap::MemoryOutOfBounds,
                    ) && a.spec_avail() >= 1 && addr + 1 > m.len()
                        && b.operand_stack@ == s.drop_last()),
                }
    })
}

/// The contract of the `i32_load_8u` handler, as a relation between the
/// engine before and after it.
pub open spec fn spec_i32_load_8u_result(a: &VM, b: &VM, r: Result<(), Fault>, arg: MemArg) -> bool {
    ({
                let s = a.operand_stack@;
                let m = a.memory.data@;
                let addr = (s.last() as u32) as int + arg.offset as int;
                match r {
                    Ok(()) => a.spec_avail() >= 1 && addr + 1 <= m.len()
                        && b.operand_stack@ == s.drop_last().push(m[addr] as u64),
                    Err(e) => (e == Fault::StackUnderflow && a.spec_avail() < 1
                        && b.operand_stack@ == s) || (e == Fault::Trap(
                        Trap::MemoryOutOfBounds,
                    ) && a.spec_avail() >= 1 && addr + 1 > m.len()
                        && b.operand_stack@ == s.drop_last()),
                }
    })
}

/// The contract of the `i32_load_16s` handler, as a relation between the
/// engine before and after it.
pub open spec fn spec_i32_load_16s_result(a: &VM, b: &VM, r: Result<(), Fault>, arg: MemArg) -> bool {
    ({
                let s = a.operand_stack@;
                let m = a.memory.data@;
                let addr = (s.last() as u32) as int + arg.offset as int;
                match r {
                    Ok(()) => a.spec_avail() >= 1 && addr + 2 <= m.len()
                        && b.operand_stack@ == s.drop_last().push(((((spec_u16_from_le_bytes(m.subrange(addr, addr + 2)) as i16) as i32) as u32) as u64)),
                    Err(e) => (e == Fault::StackUnderflow && a.spec_avail() < 1
                        && b.operand_stack@ == s) || (e == Fault::Trap(
                        Trap::MemoryOutOfBounds,
                    ) && a.spec_avail() >= 1 && addr + 2 > m.len()
                        && b.operand_stack@ == s.drop_last()),
                }
    })
}

/// The contract of the `i32_load_16u` handler, as a relation between the
/// engine before and after it.
pub open spec fn spec_i32_load_16u_result(a: &VM, b: &VM, r: Result<(), Fault>, arg: MemArg) -> bool {
    ({
                let s = a.operand_stack@;
                let m = a.memory.data@;
                let addr = (s.last() as u32) as int + arg.offset as int;
                match r {
                    Ok(()) => a.spec_avail() >= 1 && addr + 2 <= m.len()
                        && b.operand_stack@ == s.drop_last().push(spec_u16_from_le_bytes(m.subrange(addr, addr + 2)) as u64),
                    Err(e) => (e == Fault::StackUnderflow && a.spec_avail() < 1
                        && b.operand_stack@ == s) || (e == Fault::Trap(
                        Trap::MemoryOutOfBounds,
                    ) && a.spec_avail() >= 1 && addr + 2 > m.len()
                        && b.operand_stack@ == s.drop_last()),
                }
    })
}

/// The contract of the `i64_load_8s` handler, as a relation between the
/// engine before and after it.
pub open spec fn spec_i64_load_8s_result(a: &VM, b: &VM, r: Result<(), Fault>, arg: MemArg) -> bool {
    ({
                let s = a.operand_stack@;
                let m = a.memory.data@;
                let addr = (s.last() as u32) as int + arg.offset as int;
                match r {
                    Ok(()) => a.spec_avail() >= 1 && addr + 1 <= m.len()
                        && b.operand_stack@ == s.drop_last().push((((m[addr] as i8) as i64) as u64)),
                    Err(e) => (e == Fault::StackUnderflow && a.spec_avail() < 1
                        && b.operand_stack@ == s) || (e == Fault::Trap(
                        Trap::MemoryOutOfBounds,
                    ) && a.spec_avail() >= 1 && addr + 1 > m.len()
                        && b.operand_stack@ == s.drop_last()),
                }
    })
}

/// The contract of the `i64_load_8u` handler, as a relation between the
/// engine before and after it.
pub open spec fn spec_i64_load_8u_result(a: &VM, b: &VM, r: Result<(), Fault>, arg: MemArg) -> bool {
    ({
                let s = a.operand_stack@;
                let m = a.memory.data@;
                let addr = (s.last() as u32) as int + arg.offset as int;
                match r {
                    Ok(()) => a.spec_avail() >= 1 && addr + 1 <= m.len()
                        && b.operand_stack@ == s.drop_last().push(m[addr] as u64),
                    Err(e) => (e == Fault::StackUnderflow && a.spec_avail() < 1
                        && b.operand_stack@ == s) || (e == Fault::Trap(
                        Trap::MemoryOutOfBounds,
                    ) && a.spec_avail() >= 1 && addr + 1 > m.len()
                        && b.operand_stack@ == s.drop_last()),
                }
    })
}

/// The contract of the `i64_load_16s` handler, as a relation between the
/// engine before and after it.
pub open spec fn spec_i64_load_16s_result(a: &VM, b: &VM, r: Result<(), Fault>, arg: MemArg) -> bool {
    ({
                let s = a.operand_stack@;
                let m = a.memory.data@;
                let addr = (s.last() as u32) as int + arg.offset as int;
                match r {
                    Ok(()) => a.spec_avail() >= 1 && addr + 2 <= m.len()
                        && b.operand_stack@ == s.drop_last().push((((spec_u16_from_le_bytes(m.subrange(addr, addr + 2)) as i16) as i64) as u64)),
                    Err(e) => (e == Fault::StackUnderflow && a.spec_avail() < 1
                        && b.operand_stack@ == s) || (e == Fault::Trap(
                        Trap::MemoryOutOfBounds,
                    ) && a.spec_avail() >= 1 && addr + 2 > m.len()
                        && b.operand_stack@ == s.drop_last()),
                }
    })
}

/// The contract of the `i64_load_16u` handler, as a relation between the
/// engine before and after it.
pub open spec fn spec_i64_load_16u_result(a: &VM, b: &VM, r: Result<(), Fault>, arg: MemArg) -> bool {
    ({
                let s = a.operand_stack@;
                let m = a.memory.data@;
                let addr = (s.last() as u32) as int + arg.offset as int;
                match r {
                    Ok(()) => a.spec_avail() >= 1 && addr + 2 <= m.len()
                        && b.operand_stack@ == s.drop_last().push(spec_u16_from_le_bytes(m.subrange(addr, addr + 2)) as u64),
                    Err(e) => (e == Fault::StackUnderflow && a.spec_avail() < 1
                        && b.operand_stack@ == s) || (e == Fault::Trap(
                        Trap::MemoryOutOfBounds,
                    ) && a.spec_avail() >= 1 && addr + 2 > m.len()
                        && b.operand_stack@ == s.drop_last()),
                }
    })
}

/// The contract of the `i64_load_32s` handler, as a relation between the
/// engine before and after it.
pub open spec fn spec_i64_load_32s_result(a: &VM, b: &VM, r: Result<(), Fault>, arg: MemArg) -> bool {
    ({
                let s = a.operand_stack@;
                let m = a.memory.data@;
                let addr = (s.last() as u32) as int + arg.offset as int;
                match r {
                    Ok(()) => a.spec_avail() >= 1 && addr + 4 <= m.len()
                        && b.operand_stack@ == s.drop_last().push((((spec_u32_from_le_bytes(m.subrange(addr, addr + 4)) as i32) as i64) as u64)),
                    Err(e) => (e == Fault::StackUnderflow && a.spec_avail() < 1
                        && b.operand_stack@ == s) || (e == Fault::Trap(
                        Trap::MemoryOutOfBounds,
                    ) && a.spec_avail() >= 1 && addr + 4 > m.len()
                        && b.operand_stack@ == s.drop_last()),
                }
    })
}

/// The contract of the `i64_load_32u` handler, as a relation between the
/// engine before and after it.
pub open spec fn spec_i64_load_32u_result(a: &VM, b: &VM, r: Result<(), Fault>, arg: MemArg) -> bool {
    ({
                let s = a.operand_stack@;
                let m = a.memory.data@;
                let addr = (s.last() as u32) as int + arg.offset as int;
                match r {
                    Ok(()) => a.spec_avail() >= 1 && addr + 4 <= m.len()
                        && b.operand_stack@ == s.drop_last().push(spec_u32_from_le_bytes(m.subrange(addr, addr + 4)) as u64),
                    Err(e) => (e == Fault::StackUnderflow && a.spec_avail() < 1
                        && b.operand_stack@ == s) || (e == Fault::Trap(
                        Trap::MemoryOutOfBounds,
                    ) && a.spec_avail() >= 1 && addr + 4 > m.len()
                        && b.operand_stack@ == s.drop_last()),
                }
    })
}

/// The contract of the `i32_store` handler, as a relation between the
/// engine before and after it.
pub open spec fn spec_i32_store_result(a: &VM, b: &VM, r: Result<(), Fault>, arg: MemArg) -> bool {
    ({
                let s = a.operand_stack@;
                let m = a.memory.data@;
                let n = s.len() as int;
                let addr = (s[n - 2] as u32) as int + arg.offset as int;
                let val = s[n - 1];
                match r {
                    Ok(()) => a.spec_avail() >= 2 && addr + 4 <= m.len()
                        && b.operand_stack@ == s.take(n - 2)
                        && b.memory.data@ == m.take(addr) + spec_u32_to_le_bytes(val as u32) + m.skip(addr + 4)
                        && b.memory.mem_type == a.memory.mem_type,
                    Err(e) => b.memory == a.memory && ((e
                        == Fault::StackUnderflow && a.spec_avail() < 2
                        && b.operand_stack@ == s) || (e == Fault::Trap(
                        Trap::MemoryOutOfBounds,
                    ) && a.spec_avail() >= 2 && addr + 4 > m.len()
                        && b.operand_stack@ == s.take(n - 2))),
                }
    })
}

/// The contract of the `i64_store` handler, as a relation between the
/// engine before and after it.
pub open spec fn spec_i64_store_result(a: &VM, b: &VM, r: Result<(), Fault>, arg: MemArg) -> bool {
    ({
                let s = a.operand_stack@;
                let m = a.memory.data@;
                let n = s.len() as int;
                let addr = (s[n - 2] as u32) as int + arg.offset as int;
                let val = s[n - 1];
                match r {
                    Ok(()) => a.spec_avail() >= 2 && addr + 8 <= m.len()
                        && b.operand_stack@ == s.take(n - 2)
                        && b.memory.data@ == m.take(addr) + spec_u64_to_le_bytes(val) + m.skip(addr + 8)
                        && b.memory.mem_type == a.memory.mem_type,
                    Err(e) => b.memory == a.memory && ((e
                        == Fault::StackUnderflow && a.spec_avail() < 2
                        && b.operand_stack@ == s) || (e == Fault::Trap(
                        Trap::MemoryOutOfBounds,
                    ) && a.spec_avail() >= 2 && addr + 8 > m.len()
                        && b.operand_stack@ == s.take(n - 2))),
                }
    })
}

/// The contract of the `f32_store` handler, as a relation between the
/// engine before and after it.
pub open spec fn spec_f32_store_result(a: &VM, b: &VM, r: Result<(), Fault>, arg: MemArg) -> bool {
    ({
                let s = a.operand_stack@;
                let m = a.memory.data@;
                let n = s.len() as int;
                let addr = (s[n - 2] as u32) as int + arg.offset as int;
                let val = s[n - 1];
                match r {
                    Ok(()) => a.spec_avail() >= 2 && addr + 4 <= m.len()
                        && b.operand_stack@ == s.take(n - 2)
                        && b.memory.data@ == m.take(addr) + spec_u32_to_le_bytes(val as u32) + m.skip(addr + 4)
                        && b.memory.mem_type == a.memory.mem_type,
                    Err(e) => b.memory == a.memory && ((e
                        == Fault::StackUnderflow && a.spec_avail() < 2
                        && b.operand_stack@ == s) || (e == Fault::Trap(
                        Trap::MemoryOutOfBounds,
                    ) && a.spec_avail() >= 2 && addr + 4 > m.len()
                        && b.operand_stack@ == s.take(n - 2))),
                }
    })
}

/// The contract of the `f64_store` handler, as a relation between the
/// engine before and after it.
pub open spec fn spec_f64_store_result(a: &VM, b: &VM, r: Result<(), Fault>, arg: MemArg) -> bool {
    ({
                let s = a.operand_stack@;
                let m = a.memory.data@;
                let n = s.len() as int;
                let addr = (s[n - 2] as u32) as int + arg.offset as int;
                let val = s[n - 1];
                match r {
                    Ok(()) => a.spec_avail() >= 2 && addr + 8 <= m.len()
                        && b.operand_stack@ == s.take(n - 2)
                        && b.memory.data@ == m.take(addr) + spec_u64_to_le_bytes(val) + m.skip(addr + 8)
                        && b.memory.mem_type == a.memory.mem_type,
                    Err(e) => b.memory == a.memory && ((e
                        == Fault::StackUnderflow && a.spec_avail() < 2
                        && b.operand_stack@ == s) || (e == Fault::Trap(
                        Trap::MemoryOutOfBounds,
                    ) && a.spec_avail() >= 2 && addr + 8 > m.len()
                        && b.operand_stack@ == s.take(n - 2))),
                }
    })
}

/// The contract of the `i32_store_8` handler, as a relation between the
/// engine before and after it.
pub open spec fn spec_i32_store_8_result(a: &VM, b: &VM, r: Result<(), Fault>, arg: MemArg) -> bool {
    ({
                let s = a.operand_stack@;
                let m = a.memory.data@;
                let n = s.len() as int;
                let addr = (s[n - 2] as u32) as int + arg.offset as int;
                let val = s[n - 1];
                match r {
                    Ok(()) => a.spec_avail() >= 2 && addr + 1 <= m.len()
                        && b.operand_stack@ == s.take(n - 2)
                        && b.memory.data@ == m.update(addr, val as u8)
                        && b.memory.mem_type == a.memory.mem_type,
                    Err(e) => b.memory == a.memory && ((e
                        == Fault::StackUnderflow && a.spec_avail() < 2
                        && b.operand_stack@ == s) || (e == Fault::Trap(
                        Trap::MemoryOutOfBounds,
                    ) && a.spec_avail() >= 2 && addr + 1 > m.len()
                        && b.operand_stack@ == s.take(n - 2))),
                }
    })
}

/// The contract of the `i32_store_16` handler, as a relation between the
/// engine before and after it.
pub open spec fn spec_i32_store_16_result(a: &VM, b: &VM, r: Result<(), Fault>, arg: MemArg) -> bool {
    ({
                let s = a.operand_stack@;
                let m = a.memory.data@;
                let n = s.len() as int;
                let addr = (s[n - 2] as u32) as int + arg.offset as int;
                let val = s[n - 1];
                match r {
                    Ok(()) => a.spec_avail() >= 2 && addr + 2 <= m.len()
                        && b.operand_stack@ == s.take(n - 2)
                        && b.memory.data@ == m.take(addr) + spec_u16_to_le_bytes(val as u16) + m.skip(addr + 2)
                        && b.memory.mem_type == a.memory.mem_type,
                    Err(e) => b.memory == a.memory && ((e
                        == Fault::StackUnderflow && a.spec_avail() < 2
                        && b.operand_stack@ == s) || (e == Fault::Trap(
                        Trap::MemoryOutOfBounds,
                    ) && a.spec_avail() >= 2 && addr + 2 > m.len()
                        && b.operand_stack@ == s.take(n - 2))),
                }
    })
}

/// The contract of the `i64_store_8` handler, as a relation between the
/// engine before and after it.
pub open spec fn spec_i64_store_8_result(a: &VM, b: &VM, r: Result<(), Fault>, arg: MemArg) -> bool {
    ({
                let s = a.operand_stack@;
                let m = a.memory.data@;
                let n = s.len() as int;
                let addr = (s[n - 2] as u32) as int + arg.offset as int;
                let val = s[n - 1];
                match r {
                    Ok(()) => a.spec_avail() >= 2 && addr + 1 <= m.len()
                        && b.operand_stack@ == s.take(n - 2)
                        && b.memory.data@ == m.update(addr, val as u8)
                        && b.memory.mem_type == a.memory.mem_type,
                    Err(e) => b.memory == a.memory && ((e
                        == Fault::StackUnderflow && a.spec_avail() < 2
                        && b.operand_stack@ == s) || (e == Fault::Trap(
                        Trap::MemoryOutOfBounds,
                    ) && a.spec_avail() >= 2 && addr + 1 > m.len()
                        && b.operand_stack@ == s.take(n - 2))),
                }
    })
}

/// The contract of the `i64_store_16` handler, as a relation between the
/// engine before and after it.
pub open spec fn spec_i64_store_16_result(a: &VM, b: &VM, r: Result<(), Fault>, arg: MemArg) -> bool {
    ({
                let s = a.operand_stack@;
                let m = a.memory.data@;
                let n = s.len() as int;
                let addr = (s[n - 2] as u32) as int + arg.offset as int;
                let val = s[n - 1];
                match r {
                    Ok(()) => a.spec_avail() >= 2 && addr + 2 <= m.len()
                        && b.operand_stack@ == s.take(n - 2)
                        && b.memory.data@ == m.take(addr) + spec_u16_to_le_bytes(val as u16) + m.skip(addr + 2)
                        && b.memory.mem_type == a.memory.mem_type,
                    Err(e) => b.memory == a.memory && ((e
                        == Fault::StackUnderflow && a.spec_avail() < 2
                        && b.operand_stack@ == s) || (e == Fault::Trap(
                        Trap::MemoryOutOfBounds,
                    ) && a.spec_avail() >= 2 && addr + 2 > m.len()
                        && b.operand_stack@ == s.take(n - 2))),
                }
    })
}

/// The contract of the `i64_store_32` handler, as a relation between the
/// engine before and after it.
pub open spec fn spec_i64_store_32_result(a: &VM, b: &VM, r: Result<(), Fault>, arg: MemArg) -> bool {
    ({
                let s = a.operand_stack@;
                let m = a.memory.data@;
                let n = s.len() as int;
                let addr = (s[n - 2] as u32) as int + arg.offset as int;
                let val = s[n - 1];
                match r {
                    Ok(()) => a.spec_avail() >= 2 && addr + 4 <= m.len()
                        && b.operand_stack@ == s.take(n - 2)
                        && b.memory.data@ == m.take(addr) + spec_u32_to_le_bytes(val as u32) + m.skip(addr + 4)
                        && b.memory.mem_type == a.memory.mem_type,
                    Err(e) => b.memory == a.memory && ((e
                        == Fault::StackUnderflow && a.spec_avail() < 2
                        && b.operand_stack@ == s) || (e == Fault::Trap(
                        Trap::MemoryOutOfBounds,
                    ) && a.spec_avail() >= 2 && addr + 4 > m.len()
                        && b.operand_stack@ == s.take(n - 2))),
                }
    })
}

/// The contract of the `memory_grow` handler, as a relation between the
/// engine before and after it.
pub open spec fn spec_memory_grow_result(a: &VM, b: &VM, r: Result<(), Fault>) -> bool {
    ({
                let s = a.operand_stack@;
                let g = s.last() as u32;
                let would = a.memory.spec_size() + g;
                match r {
                    Ok(()) => a.spec_avail() >= 1 && if would > spec_page_limit(
                        a.memory.mem_type,
                    ) || would * spec_page_size() > usize::MAX {
                        b.memory == a.memory && b.operand_stack@
                            == s.drop_last().push(0xFFFF_FFFFu64)
                    } else {
                        b.memory.mem_type == a.memory.mem_type && b.memory.data@ == a.memory.data@ + Seq::new(
                            (g * spec_page_size()) as nat,
                            |i: int| 0u8,
                        ) && b.operand_stack@ == s.drop_last().push(
                            ((a.memory.spec_size() as u32) as u64),
                        )
                    },
                    Err(e) => e == Fault::StackUnderflow && a.spec_avail() < 1 && *b == *a,
                }
    })
}

/// The contract of the `local_get` handler, as a relation between the
/// engine before and after it.
pub open spec fn spec_local_get_result(a: &VM, b: &VM, r: Result<(), Fault>, idx: u32) -> bool {
    ({
                let s = a.operand_stack@;
                let p = a.local_0_idx + idx;
                match r {
                    Ok(()) => p < s.len() && b.operand_stack@ == s.push(s[p as int]),
                    Err(e) => e == Fault::LocalIndexOutOfRange && p >= s.len() && *b
                        == *a,
                }
    })
}

/// The contract of the `local_set` handler, as a relation between the
/// engine before and after it.
pub open spec fn spec_local_set_result(a: &VM, b: &VM, r: Result<(), Fault>, idx: u32) -> bool {
    ({
                let s = a.operand_stack@;
                let p = a.local_0_idx + idx;
                match r {
                    Ok(()) => a.spec_avail() >= 1 && p < s.len() - 1 && b.operand_stack@ == s.drop_last().update(p as int, s.last()),
                    Err(e) => (e == Fault::StackUnderflow && a.spec_avail() < 1 && *b == *a) || (e == Fault::LocalIndexOutOfRange && a.spec_avail() >= 1 && p >= s.len() - 1 && b.operand_stack@
                        == s.drop_last()),
                }
    })
}

/// The contract of the `local_tee` handler, as a relation between the
/// engine before and after it.
pub open spec fn spec_local_tee_result(a: &VM, b: &VM, r: Result<(), Fault>, idx: u32) -> bool {
    ({
                let s = a.operand_stack@;
                let p = a.local_0_idx + idx;
                match r {
                    Ok(()) => a.spec_avail() >= 1 && p < s.len() && b.operand_stack@ == s.update(p as int, s.last()),
                    Err(e) => (e == Fault::StackUnderflow && a.spec_avail() < 1 && *b == *a) || (e == Fault::LocalIndexOutOfRange && a.spec_avail() >= 1 && p >= s.len() && b.operand_stack@ == s),
                }
    })
}

/// The contract of the `global_get` handler, as a relation between the
/// engine before and after it.
pub open spec fn spec_global_get_result(a: &VM, b: &VM, r: Result<(), Fault>, idx: u32) -> bool {
    ({
                let s = a.operand_stack@;
                let gs = a.globals@;
                match r {
                    Ok(()) => idx < gs.len() && b.operand_stack@ == s.push(
                        gs[idx as int].val,
                    ),
                    Err(e) => e == Fault::GlobalIndexOutOfRange && idx >= gs.len() && *b
                        == *a,
                }
    })
}

/// The contract of the `global_set` handler, as a relation between the
/// engine before and after it.
pub open spec fn spec_global_set_result(a: &VM, b: &VM, r: Result<(), Fault>, idx: u32) -> bool {
    ({
                let s = a.operand_stack@;
                let gs = a.globals@;
                match r {
                    Ok(()) => a.spec_avail() >= 1 && idx < gs.len() && gs[
                        idx as int].global_type.mutable && b.globals@ == gs.update(
                        idx as int,
                        (GlobalVar { global_type: gs[idx as int].global_type, val: s.last() }),
                    ) && b.operand_stack@ == s.drop_last(),
                    Err(e) => (e == Fault::StackUnderflow && a.spec_avail() < 1 && *b == *a) || (e == Fault::GlobalIndexOutOfRange && a.spec_avail() >= 1 && idx >= gs.len() && b.globals@ == gs && b.operand_stack@ == s.drop_last()) || (e == Fault::ImmutableGlobal && a.spec_avail() >= 1 && idx < gs.len() && !gs[idx as int].global_type.mutable
                        && b.globals@ == gs && b.operand_stack@
                        == s.drop_last()),
                }
    })
}

impl<'a> VM<'a> {
    /// `i32.load`: four little-endian bytes, zero-extended into a slot.
    pub fn i32_load(&mut self, arg: &MemArg) -> (r: Result<(), Fault>)
        requires
            old(self).wf(),
        ensures
            final(self).wf(),
            VM::spec_only_stack(old(self), final(self)),
            spec_i32_load_result(old(self), final(self), r, *arg),
    {
        if self.avail() < 1 {
            return Result::Err(Fault::StackUnderflow);
        }
        let a = self.pop1();
        let addr = ((a as u32) as u64) + (arg.offset as u64);
        if !self.memory.check_offset(addr, 4) {
            return Result::Err(Fault::Trap(Trap::MemoryOutOfBounds));
        }
        proof {
            vstd::std_specs::vec::axiom_spec_len(&self.memory.data);
        }
        let v = self.memory.read_u32(addr as usize);
        self.push_val(v as u64);
        Result::Ok(())
    }

    /// `i64.load`: eight little-endian bytes.
    pub fn i64_load(&mut self, arg: &MemArg) -> (r: Result<(), Fault>)
        requires
            old(self).wf(),
        ensures
            final(self).wf(),
            VM::spec_only_stack(old(self), final(self)),
            spec_i64_load_result(old(self), final(self), r, *arg),
    {
        if self.avail() < 1 {
            return Result::Err(Fault::StackUnderflow);
        }
        let a = self.pop1();
        let addr = ((a as u32) as u64) + (arg.offset as u64);
        if !self.memory.check_offset(addr, 8) {
            return Result::Err(Fault::Trap(Trap::MemoryOutOfBounds));
        }
        proof {
            vstd::std_specs::vec::axiom_spec_len(&self.memory.data);
        }
        let v = self.memory.read_u64(addr as usize);
        self.push_val(v);
        Result::Ok(())
    }

    /// `f32.load`: four little-endian bytes as a float bit pattern, zero-extended.
    pub fn f32_load(&mut self, arg: &MemArg) -> (r: Result<(), Fault>)
        requires
            old(self).wf(),
        ensures
            final(self).wf(),
            VM::spec_only_stack(old(self), final(self)),
            spec_f32_load_result(old(self), final(self), r, *arg),
    {
        if self.avail() < 1 {
            return Result::Err(Fault::StackUnderflow);
        }
        let a = self.pop1();
        let addr = ((a as u32) as u64) + (arg.offset as u64);
        if !self.memory.check_offset(addr, 4) {
            return Result::Err(Fault::Trap(Trap::MemoryOutOfBounds));
        }
        proof {
            vstd::std_specs::vec::axiom_spec_len(&self.memory.data);
        }
        let v = self.memory.read_u32(addr as usize);
        self.push_val(v as u64);
        Result::Ok(())
    }

    /// `f64.load`: eight little-endian bytes as a double bit pattern.
    pub fn f64_load(&mut self, arg: &MemArg) -> (r: Result<(), Fault>)
        requires
            old(self).wf(),
        ensures
            final(self).wf(),
            VM::spec_only_stack(old(self), final(self)),
            spec_f64_load_result(old(self), final(self), r, *arg),
    {
        if self.avail() < 1 {
            return Result::Err(Fault::StackUnderflow);
        }
        let a = self.pop1();
        let addr = ((a as u32) as u64) + (arg.offset as u64);
        if !self.memory.check_offset(addr, 8) {
            return Result::Err(Fault::Trap(Trap::MemoryOutOfBounds));
        }
        proof {
            vstd::std_specs::vec::axiom_spec_len(&self.memory.data);
        }
        let v = self.memory.read_u64(addr as usize);
        self.push_val(v);
        Result::Ok(())
    }

    /// `i32.load8_s`: one byte, sign-extended to 32 bits.
    pub fn i32_load_8s(&mut self, arg: &MemArg) -> (r: Result<(), Fault>)
        requires
            old(self).wf(),
        ensures
            final(self).wf(),
            VM::spec_only_stack(old(self), final(self)),
            spec_i32_load_8s_result(old(self), final(self), r, *arg),
    {
        if self.avail() < 1 {
            return Result::Err(Fault::StackUnderflow);
        }
        let a = self.pop1();
        let addr = ((a as u32) as u64) + (arg.offset as u64);
        if !self.memory.check_offset(addr, 1) {
            return Result::Err(Fault::Trap(Trap::MemoryOutOfBounds));
        }
        proof {
            vstd::std_specs::vec::axiom_spec_len(&self.memory.data);
        }
        let v = self.memory.read_u8(addr as usize);
        self.push_val((((v as i8) as i32) as u32) as u64);
        Result::Ok(())
    }

    /// `i32.load8_u`: one byte, zero-extended.
    pub fn i32_load_8u(&mut self, arg: &MemArg) -> (r: Result<(), Fault>)
        requires
            old(self).wf(),
        ensures
            final(self).wf(),
            VM::spec_only_stack(old(self), final(self)),
            spec_i32_load_8u_result(old(self), final(self), r, *arg),
    {
        if self.avail() < 1 {
            return Result::Err(Fault::StackUnderflow);
        }
        let a = self.pop1();
        let addr = ((a as u32) as u64) + (arg.offset as u64);
        if !self.memory.check_offset(addr, 1) {
            return Result::Err(Fault::Trap(Trap::MemoryOutOfBounds));
        }
        proof {
            vstd::std_specs::vec::axiom_spec_len(&self.memory.data);
        }
        let v = self.memory.read_u8(addr as usize);
        self.push_val(v as u64);
        Result::Ok(())
    }

    /// `i32.load16_s`: two little-endian bytes, sign-extended to 32 bits.
    pub fn i32_load_16s(&mut self, arg: &MemArg) -> (r: Result<(), Fault>)
        requires
            old(self).wf(),
        ensures
            final(self).wf(),
            VM::spec_only_stack(old(self), final(self)),
            spec_i32_load_16s_result(old(self), final(self), r, *arg),
    {
        if self.avail() < 1 {
            return Result::Err(Fault::StackUnderflow);
        }
        let a = self.pop1();
        let addr = ((a as u32) as u64) + (arg.offset as u64);
        if !self.memory.check_offset(addr, 2) {
            return Result::Err(Fault::Trap(Trap::MemoryOutOfBounds));
        }
        proof {
            vstd::std_specs::vec::axiom_spec_len(&self.memory.data);
        }
        let v = self.memory.read_u16(addr as usize);
        self.push_val((((v as i16) as i32) as u32) as u64);
        Result::Ok(())
    }

    /// `i32.load16_u`: two little-endian bytes, zero-extended.
    pub fn i32_load_16u(&mut self, arg: &MemArg) -> (r: Result<(), Fault>)
        requires
            old(self).wf(),
        ensures
            final(self).wf(),
            VM::spec_only_stack(old(self), final(self)),
            spec_i32_load_16u_result(old(self), final(self), r, *arg),
    {
        if self.avail() < 1 {
            return Result::Err(Fault::StackUnderflow);
        }
        let a = self.pop1();
        let addr = ((a as u32) as u64) + (arg.offset as u64);
        if !self.memory.check_offset(addr, 2) {
            return Result::Err(Fault::Trap(Trap::MemoryOutOfBounds));
        }
        proof {
            vstd::std_specs::vec::axiom_spec_len(&self.memory.data);
        }
        let v = self.memory.read_u16(addr as usize);
        self.push_val(v as u64);
        Result::Ok(())
    }

    /// `i64.load8_s`: one byte, sign-extended to 64 bits.
    pub fn i64_load_8s(&mut self, arg: &MemArg) -> (r: Result<(), Fault>)
        requires
            old(self).wf(),
        ensures
            final(self).wf(),
            VM::spec_only_stack(old(self), final(self)),
            spec_i64_load_8s_result(old(self), final(self), r, *arg),
    {
        if self.avail() < 1 {
            return Result::Err(Fault::StackUnderflow);
        }
        let a = self.pop1();
        let addr = ((a as u32) as u64) + (arg.offset as u64);
        if !self.memory.check_offset(addr, 1) {
            return Result::Err(Fault::Trap(Trap::MemoryOutOfBounds));
        }
        proof {
            vstd::std_specs::vec::axiom_spec_len(&self.memory.data);
        }
        let v = self.memory.read_u8(addr as usize);
        self.push_val(((v as i8) as i64) as u64);
        Result::Ok(())
    }

    /// `i64.load8_u`: one byte, zero-extended.
    pub fn i64_load_8u(&mut self, arg: &MemArg) -> (r: Result<(), Fault>)
        requires
            old(self).wf(),
        ensures
            final(self).wf(),
            VM::spec_only_stack(old(self), final(self)),
            spec_i64_load_8u_result(old(self), final(self), r, *arg),
    {
        if self.avail() < 1 {
            return Result::Err(Fault::StackUnderflow);
        }
        let a = self.pop1();
        let addr = ((a as u32) as u64) + (arg.offset as u64);
        if !self.memory.check_offset(addr, 1) {
            return Result::Err(Fault::Trap(Trap::MemoryOutOfBounds));
        }
        proof {
            vstd::std_specs::vec::axiom_spec_len(&self.memory.data);
        }
        let v = self.memory.read_u8(addr as usize);
        self.push_val(v as u64);
        Result::Ok(())
    }

    /// `i64.load16_s`: two little-endian bytes, sign-extended to 64 bits.
    pub fn i64_load_16s(&mut self, arg: &MemArg) -> (r: Result<(), Fault>)
        requires
            old(self).wf(),
        ensures
            final(self).wf(),
            VM::spec_only_stack(old(self), final(self)),
            spec_i64_load_16s_result(old(self), final(self), r, *arg),
    {
        if self.avail() < 1 {
            return Result::Err(Fault::StackUnderflow);
        }
        let a = self.pop1();
        let addr = ((a as u32) as u64) + (arg.offset as u64);
        if !self.memory.check_offset(addr, 2) {
            return Result::Err(Fault::Trap(Trap::MemoryOutOfBounds));
        }
        proof {
            vstd::std_specs::vec::axiom_spec_len(&self.memory.data);
        }
        let v = self.memory.read_u16(addr as usize);
        self.push_val(((v as i16) as i64) as u64);
        Result::Ok(())
    }

    /// `i64.load16_u`: two little-endian bytes, zero-extended.
    pub fn i64_load_16u(&mut self, arg: &MemArg) -> (r: Result<(), Fault>)
        requires
            old(self).wf(),
        ensures
            final(self).wf(),
            VM::spec_only_stack(old(self), final(self)),
            spec_i64_load_16u_result(old(self), final(self), r, *arg),
    {
        if self.avail() < 1 {
            return Result::Err(Fault::StackUnderflow);
        }
        let a = self.pop1();
        let addr = ((a as u32) as u64) + (arg.offset as u64);
        if !self.memory.check_offset(addr, 2) {
            return Result::Err(Fault::Trap(Trap::MemoryOutOfBounds));
        }
        proof {
            vstd::std_specs::vec::axiom_spec_len(&self.memory.data);
        }
        let v = self.memory.read_u16(addr as usize);
        self.push_val(v as u64);
        Result::Ok(())
    }

    /// `i64.load32_s`: four little-endian bytes, sign-extended to 64 bits.
    pub fn i64_load_32s(&mut self, arg: &MemArg) -> (r: Result<(), Fault>)
        requires
            old(self).wf(),
        ensures
            final(self).wf(),
            VM::spec_only_stack(old(self), final(self)),
            spec_i64_load_32s_result(old(self), final(self), r, *arg),
    {
        if self.avail() < 1 {
            return Result::Err(Fault::StackUnderflow);
        }
        let a = self.pop1();
        let addr = ((a as u32) as u64) + (arg.offset as u64);
        if !self.memory.check_offset(addr, 4) {
            return Result::Err(Fault::Trap(Trap::MemoryOutOfBounds));
        }
        proof {
            vstd::std_specs::vec::axiom_spec_len(&self.memory.data);
        }
        let v = self.memory.read_u32(addr as usize);
        self.push_val(((v as i32) as i64) as u64);
        Result::Ok(())
    }

    /// `i64.load32_u`: four little-endian bytes, zero-extended.
    pub fn i64_load_32u(&mut self, arg: &MemArg) -> (r: Result<(), Fault>)
        requires
            old(self).wf(),
        ensures
            final(self).wf(),
            VM::spec_only_stack(old(self), final(self)),
            spec_i64_load_32u_result(old(self), final(self), r, *arg),
    {
        if self.avail() < 1 {
            return Result::Err(Fault::StackUnderflow);
        }
        let a = self.pop1();
        let addr = ((a as u32) as u64) + (arg.offset as u64);
        if !self.memory.check_offset(addr, 4) {
            return Result::Err(Fault::Trap(Trap::MemoryOutOfBounds));
        }
        proof {
            vstd::std_specs::vec::axiom_spec_len(&self.memory.data);
        }
        let v = self.memory.read_u32(addr as usize);
        self.push_val(v as u64);
        Result::Ok(())
    }

    /// `i32.store`: the low 32 bits as four little-endian bytes.
    pub fn i32_store(&mut self, arg: &MemArg) -> (r: Result<(), Fault>)
        requires
            old(self).wf(),
        ensures
            final(self).wf(),
            VM::spec_only_stack_and_mem(old(self), final(self)),
            spec_i32_store_result(old(self), final(self), r, *arg),
    {
        if self.avail() < 2 {
            return Result::Err(Fault::StackUnderflow);
        }
        let (a, b) = self.pop2();
        let addr = ((a as u32) as u64) + (arg.offset as u64);
        if !self.memory.check_offset(addr, 4) {
            return Result::Err(Fault::Trap(Trap::MemoryOutOfBounds));
        }
        proof {
            vstd::std_specs::vec::axiom_spec_len(&self.memory.data);
        }
        self.memory.write_u32(addr as usize, #[verifier::truncate] (b as u32));
        Result::Ok(())
    }

    /// `i64.store`: the slot as eight little-endian bytes.
    pub fn i64_store(&mut self, arg: &MemArg) -> (r: Result<(), Fault>)
        requires
            old(self).wf(),
        ensures
            final(self).wf(),
            VM::spec_only_stack_and_mem(old(self), final(self)),
            spec_i64_store_result(old(self), final(self), r, *arg),
    {
        if self.avail() < 2 {
            return Result::Err(Fault::StackUnderflow);
        }
        let (a, b) = self.pop2();
        let addr = ((a as u32) as u64) + (arg.offset as u64);
        if !self.memory.check_offset(addr, 8) {
            return Result::Err(Fault::Trap(Trap::MemoryOutOfBounds));
        }
        proof {
            vstd::std_specs::vec::axiom_spec_len(&self.memory.data);
        }
        self.memory.write_u64(addr as usize, b);
        Result::Ok(())
    }

    /// `f32.store`: the low 32 bits as a float bit pattern, four little-endian bytes.
    pub fn f32_store(&mut self, arg: &MemArg) -> (r: Result<(), Fault>)
        requires
            old(self).wf(),
        ensures
            final(self).wf(),
            VM::spec_only_stack_and_mem(old(self), final(self)),
            spec_f32_store_result(old(self), final(self), r, *arg),
    {
        if self.avail() < 2 {
            return Result::Err(Fault::StackUnderflow);
        }
        let (a, b) = self.pop2();
        let addr = ((a as u32) as u64) + (arg.offset as u64);
        if !self.memory.check_offset(addr, 4) {
            return Result::Err(Fault::Trap(Trap::MemoryOutOfBounds));
        }
        proof {
            vstd::std_specs::vec::axiom_spec_len(&self.memory.data);
        }
        self.memory.write_u32(addr as usize, #[verifier::truncate] (b as u32));
        Result::Ok(())
    }

    /// `f64.store`: the slot as a double bit pattern, eight little-endian bytes.
    pub fn f64_store(&mut self, arg: &MemArg) -> (r: Result<(), Fault>)
        requires
            old(self).wf(),
        ensures
            final(self).wf(),
            VM::spec_only_stack_and_mem(old(self), final(self)),
            spec_f64_store_result(old(self), final(self), r, *arg),
    {
        if self.avail() < 2 {
            return Result::Err(Fault::StackUnderflow);
        }
        let (a, b) = self.pop2();
        let addr = ((a as u32) as u64) + (arg.offset as u64);
        if !self.memory.check_offset(addr, 8) {
            return Result::Err(Fault::Trap(Trap::MemoryOutOfBounds));
        }
        proof {
            vstd::std_specs::vec::axiom_spec_len(&self.memory.data);
        }
        self.memory.write_u64(addr as usize, b);
        Result::Ok(())
    }

    /// `i32.store8`: the low byte only.
    pub fn i32_store_8(&mut self, arg: &MemArg) -> (r: Result<(), Fault>)
        requires
            old(self).wf(),
        ensures
            final(self).wf(),
            VM::spec_only_stack_and_mem(old(self), final(self)),
            spec_i32_store_8_result(old(self), final(self), r, *arg),
    {
        if self.avail() < 2 {
            return Result::Err(Fault::StackUnderflow);
        }
        let (a, b) = self.pop2();
        let addr = ((a as u32) as u64) + (arg.offset as u64);
        if !self.memory.check_offset(addr, 1) {
            return Result::Err(Fault::Trap(Trap::MemoryOutOfBounds));
        }
        proof {
            vstd::std_specs::vec::axiom_spec_len(&self.memory.data);
        }
        self.memory.write_u8(addr as usize, #[verifier::truncate] (b as u8));
        Result::Ok(())
    }

    /// `i32.store16`: the low two bytes, little-endian.
    pub fn i32_store_16(&mut self, arg: &MemArg) -> (r: Result<(), Fault>)
        requires
            old(self).wf(),
        ensures
            final(self).wf(),
            VM::spec_only_stack_and_mem(old(self), final(self)),
            spec_i32_store_16_result(old(self), final(self), r, *arg),
    {
        if self.avail() < 2 {
            return Result::Err(Fault::StackUnderflow);
        }
        let (a, b) = self.pop2();
        let addr = ((a as u32) as u64) + (arg.offset as u64);
        if !self.memory.check_offset(addr, 2) {
            return Result::Err(Fault::Trap(Trap::MemoryOutOfBounds));
        }
        proof {
            vstd::std_specs::vec::axiom_spec_len(&self.memory.data);
        }
        self.memory.write_u16(addr as usize, #[verifier::truncate] (b as u16));
        Result::Ok(())
    }

    /// `i64.store8`: the low byte only.
    pub fn i64_store_8(&mut self, arg: &MemArg) -> (r: Result<(), Fault>)
        requires
            old(self).wf(),
        ensures
            final(self).wf(),
            VM::spec_only_stack_and_mem(old(self), final(self)),
            spec_i64_store_8_result(old(self), final(self), r, *arg),
    {
        if self.avail() < 2 {
            return Result::Err(Fault::StackUnderflow);
        }
        let (a, b) = self.pop2();
        let addr = ((a as u32) as u64) + (arg.offset as u64);
        if !self.memory.check_offset(addr, 1) {
            return Result::Err(Fault::Trap(Trap::MemoryOutOfBounds));
        }
        proof {
            vstd::std_specs::vec::axiom_spec_len(&self.memory.data);
        }
        self.memory.write_u8(addr as usize, #[verifier::truncate] (b as u8));
        Result::Ok(())
    }

    /// `i64.store16`: the low two bytes, little-endian.
    pub fn i64_store_16(&mut self, arg: &MemArg) -> (r: Result<(), Fault>)
        requires
            old(self).wf(),
        ensures
            final(self).wf(),
            VM::spec_only_stack_and_mem(old(self), final(self)),
            spec_i64_store_16_result(old(self), final(self), r, *arg),
    {
        if self.avail() < 2 {
            return Result::Err(Fault::StackUnderflow);
        }
        let (a, b) = self.pop2();
        let addr = ((a as u32) as u64) + (arg.offset as u64);
        if !self.memory.check_offset(addr, 2) {
            return Result::Err(Fault::Trap(Trap::MemoryOutOfBounds));
        }
        proof {
            vstd::std_specs::vec::axiom_spec_len(&self.memory.data);
        }
        self.memory.write_u16(addr as usize, #[verifier::truncate] (b as u16));
        Result::Ok(())
    }

    /// `i64.store32`: the low four bytes, little-endian.
    pub fn i64_store_32(&mut self, arg: &MemArg) -> (r: Result<(), Fault>)
        requires
            old(self).wf(),
        ensures
            final(self).wf(),
            VM::spec_only_stack_and_mem(old(self), final(self)),
            spec_i64_store_32_result(old(self), final(self), r, *arg),
    {
        if self.avail() < 2 {
            return Result::Err(Fault::StackUnderflow);
        }
        let (a, b) = self.pop2();
        let addr = ((a as u32) as u64) + (arg.offset as u64);
        if !self.memory.check_offset(addr, 4) {
            return Result::Err(Fault::Trap(Trap::MemoryOutOfBounds));
        }
        proof {
            vstd::std_specs::vec::axiom_spec_len(&self.memory.data);
        }
        self.memory.write_u32(addr as usize, #[verifier::truncate] (b as u32));
        Result::Ok(())
    }

    /// `memory.size`: push the current page count.
    pub fn memory_size(&mut self)
        requires
            old(self).wf(),
        ensures
            final(self).wf(),
            VM::spec_only_stack(old(self), final(self)),
            final(self).operand_stack@ == old(self).operand_stack@.push(
                ((old(self).memory.spec_size() as u32) as u64),
            ),
    {
        let pages = self.memory.size();
        self.push_val((#[verifier::truncate] (pages as u32)) as u64);
    }

    /// `memory.grow`: pop a page count and try to grow; push the old page
    /// count, or the failure sentinel when the ceiling or the machine would
    /// be passed, leaving memory unchanged.
    pub fn memory_grow(&mut self) -> (r: Result<(), Fault>)
        requires
            old(self).wf(),
        ensures
            final(self).wf(),
            VM::spec_only_stack_and_mem(old(self), final(self)),
            spec_memory_grow_result(old(self), final(self), r),
    {
        if self.avail() < 1 {
            return Result::Err(Fault::StackUnderflow);
        }
        let g = self.pop1() as u32;
        let old_pages = self.memory.grow(g as usize);
        self.push_val((#[verifier::truncate] (old_pages as u32)) as u64);
        proof {
            if !(old(self).memory.spec_size() + g > spec_page_limit(old(self).memory.mem_type)
                || (old(self).memory.spec_size() + g) * spec_page_size() > usize::MAX) {
                assert(old_pages == old(self).memory.spec_size());
                assert(old_pages < 0x1_0000_0000_0000);
            }
        }
        Result::Ok(())
    }

    /// `local.get`: push the slot at `local_0_idx + idx`.
    pub fn local_get(&mut self, idx: u32) -> (r: Result<(), Fault>)
        requires
            old(self).wf(),
        ensures
            final(self).wf(),
            VM::spec_only_stack(old(self), final(self)),
            spec_local_get_result(old(self), final(self), r, idx),
    {
        let pos = (self.local_0_idx as u128) + (idx as u128);
        if pos >= self.operand_stack.length() as u128 {
            return Result::Err(Fault::LocalIndexOutOfRange);
        }
        let v = self.operand_stack.get_operand(pos as usize);
        self.push_val(v);
        Result::Ok(())
    }

    /// `local.set`: pop a value into the slot at `local_0_idx + idx`.
    pub fn local_set(&mut self, idx: u32) -> (r: Result<(), Fault>)
        requires
            old(self).wf(),
        ensures
            final(self).wf(),
            VM::spec_only_stack(old(self), final(self)),
            spec_local_set_result(old(self), final(self), r, idx),
    {
        if self.avail() < 1 {
            return Result::Err(Fault::StackUnderflow);
        }
        let v = self.pop1();
        let pos = (self.local_0_idx as u128) + (idx as u128);
        if pos >= self.operand_stack.length() as u128 {
            return Result::Err(Fault::LocalIndexOutOfRange);
        }
        self.operand_stack.set_operand(pos as usize, v);
        Result::Ok(())
    }

    /// `local.tee`: write the top value into the slot at `local_0_idx + idx`
    /// and leave it on the stack.
    pub fn local_tee(&mut self, idx: u32) -> (r: Result<(), Fault>)
        requires
            old(self).wf(),
        ensures
            final(self).wf(),
            VM::spec_only_stack(old(self), final(self)),
            spec_local_tee_result(old(self), final(self), r, idx),
    {
        if self.avail() < 1 {
            return Result::Err(Fault::StackUnderflow);
        }
        let v = self.pop1();
        self.push_val(v);
        proof {
            assert(self.operand_stack@ =~= old(self).operand_stack@);
        }
        let pos = (self.local_0_idx as u128) + (idx as u128);
        if pos >= self.operand_stack.length() as u128 {
            return Result::Err(Fault::LocalIndexOutOfRange);
        }
        self.operand_stack.set_operand(pos as usize, v);
        Result::Ok(())
    }

    /// `global.get`: push the value of the global at `idx`.
    pub fn global_get(&mut self, idx: u32) -> (r: Result<(), Fault>)
        requires
            old(self).wf(),
        ensures
            final(self).wf(),
            VM::spec_only_stack(old(self), final(self)),
            spec_global_get_result(old(self), final(self), r, idx),
    {
        if idx as usize >= self.globals.len() {
            return Result::Err(Fault::GlobalIndexOutOfRange);
        }
        let v = self.globals[idx as usize].get_as_u64();
        self.push_val(v);
        Result::Ok(())
    }

    /// `global.set`: pop a value into the global at `idx`. A global declared
    /// non-mutable never changes: such a write is refused.
    pub fn global_set(&mut self, idx: u32) -> (r: Result<(), Fault>)
        requires
            old(self).wf(),
        ensures
            final(self).wf(),
            VM::spec_only_stack_and_globals(old(self), final(self)),
            spec_global_set_result(old(self), final(self), r, idx),
    {
        if self.avail() < 1 {
            return Result::Err(Fault::StackUnderflow);
        }
        let v = self.pop1();
        if idx as usize >= self.globals.len() {
            return Result::Err(Fault::GlobalIndexOutOfRange);
        }
        let g = vstd::std_specs::vec::vec_index_mut(&mut self.globals, idx as usize);
        let res = g.set_as_u64(v);
        proof {
            if res is Err {
                assert(self.globals@ =~= old(self).globals@);
            }
        }
        match res {
            Result::Ok(()) => Result::Ok(()),
            Result::Err(e) => Result::Err(e),
        }
    }
}

} // verus!
