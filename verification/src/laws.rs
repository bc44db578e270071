//! Laws of the engine that relate several operations, stated over the same
//! spec functions the operation contracts use.

use vstd::prelude::*;

use vstd::bytes::{
    lemma_auto_spec_u16_to_from_le_bytes, lemma_auto_spec_u32_to_from_le_bytes,
    lemma_auto_spec_u64_to_from_le_bytes, spec_u16_from_le_bytes, spec_u16_to_le_bytes,
    spec_u32_from_le_bytes, spec_u32_to_le_bytes, spec_u64_from_le_bytes, spec_u64_to_le_bytes,
};

use crate::control::{lemma_top_call, spec_top_call, FrameKind};
use crate::memory::{spec_page_limit, spec_page_size, Memory};
use crate::vm::{spec_frames_wf, VM};
use crate::vm_num::{
    spec_rotl32, spec_rotl64, spec_rotr32, spec_rotr64, spec_shl32, spec_shl64, spec_shr_s32,
    spec_shr_s64, spec_shr_u32, spec_shr_u64,
};

verus! {

/// A shift or rotation with amount `a` is the same operation with amount
/// `a` reduced modulo the bit width: 32-bit family.
pub proof fn lemma_shift_amount_mod_32(v: u32, a: u32)
    ensures
        spec_shl32(v, a) == spec_shl32(v, a % 32),
        spec_shr_s32(v, a) == spec_shr_s32(v, a % 32),
        spec_shr_u32(v, a) == spec_shr_u32(v, a % 32),
        spec_rotl32(v, a) == spec_rotl32(v, a % 32),
        spec_rotr32(v, a) == spec_rotr32(v, a % 32),
{
    assert((a % 32) % 32 == a % 32);
}

/// A shift or rotation with amount `a` is the same operation with amount
/// `a` reduced modulo the bit width: 64-bit family.
pub proof fn lemma_shift_amount_mod_64(v: u64, a: u64)
    ensures
        spec_shl64(v, a) == spec_shl64(v, a % 64),
        spec_shr_s64(v, a) == spec_shr_s64(v, a % 64),
        spec_shr_u64(v, a) == spec_shr_u64(v, a % 64),
        spec_rotl64(v, a) == spec_rotl64(v, a % 64),
        spec_rotr64(v, a) == spec_rotr64(v, a % 64),
{
    assert((a % 64) % 64 == a % 64);
}

/// Bit reinterpretation is the identity on a 64-bit slot, so the two
/// directions of any reinterpret pair compose to the identity on every bit
/// pattern, NaN payloads included.
pub open spec fn spec_reinterpret(slot: u64) -> u64 {
    slot
}

/// Composing the two directions of a reinterpret pair yields the original
/// slot.
pub proof fn lemma_reinterpret_round_trip(slot: u64)
    ensures
        spec_reinterpret(spec_reinterpret(slot)) == slot,
{
}

/// Storing two little-endian bytes and loading them back at the same
/// address yields the stored value.
pub proof fn lemma_store_then_load_u16(m: Seq<u8>, addr: int, v: u16)
    requires
        0 <= addr,
        addr + 2 <= m.len(),
    ensures
        spec_u16_from_le_bytes(
            (m.take(addr) + spec_u16_to_le_bytes(v) + m.skip(addr + 2)).subrange(addr, addr + 2),
        ) == v,
{
    lemma_auto_spec_u16_to_from_le_bytes();
    assert((m.take(addr) + spec_u16_to_le_bytes(v) + m.skip(addr + 2)).subrange(addr, addr + 2)
        =~= spec_u16_to_le_bytes(v));
}

/// Storing four little-endian bytes and loading them back at the same
/// address yields the stored value.
pub proof fn lemma_store_then_load_u32(m: Seq<u8>, addr: int, v: u32)
    requires
        0 <= addr,
        addr + 4 <= m.len(),
    ensures
        spec_u32_from_le_bytes(
            (m.take(addr) + spec_u32_to_le_bytes(v) + m.skip(addr + 4)).subrange(addr, addr + 4),
        ) == v,
{
    lemma_auto_spec_u32_to_from_le_bytes();
    assert((m.take(addr) + spec_u32_to_le_bytes(v) + m.skip(addr + 4)).subrange(addr, addr + 4)
        =~= spec_u32_to_le_bytes(v));
}

/// Storing eight little-endian bytes and loading them back at the same
/// address yields the stored value.
pub proof fn lemma_store_then_load_u64(m: Seq<u8>, addr: int, v: u64)
    requires
        0 <= addr,
        addr + 8 <= m.len(),
    ensures
        spec_u64_from_le_bytes(
            (m.take(addr) + spec_u64_to_le_bytes(v) + m.skip(addr + 8)).subrange(addr, addr + 8),
        ) == v,
{
    lemma_auto_spec_u64_to_from_le_bytes();
    assert((m.take(addr) + spec_u64_to_le_bytes(v) + m.skip(addr + 8)).subrange(addr, addr + 8)
        =~= spec_u64_to_le_bytes(v));
}

/// Storing one byte and loading it back sign-extended yields the sign
/// extension of the stored value's low byte.
pub proof fn lemma_store_then_load_u8(m: Seq<u8>, addr: int, v: u8)
    requires
        0 <= addr < m.len(),
    ensures
        m.update(addr, v)[addr] == v,
{
}

/// After `local.tee` writes the top value into a slot, reading that slot
/// pushes the teed value: the value then stands on top twice. The stack
/// after the tee is `s.update(k, s.last())`, as the tee handler ensures,
/// and the get handler pushes the slot it reads.
pub proof fn lemma_tee_then_get(s: Seq<u64>, k: int)
    requires
        s.len() > 0,
        0 <= k < s.len(),
    ensures
        ({
            let teed = s.update(k, s.last());
            let got = teed.push(teed[k]);
            got[got.len() - 1] == s.last() && got[got.len() - 2] == s.last()
        }),
{
    let teed = s.update(k, s.last());
    if k == s.len() - 1 {
        assert(teed.last() == s.last());
    }
}

/// Signed division has no representable quotient exactly at the most
/// negative value divided by minus one, and none at a zero divisor; the
/// unsigned division of the same bit patterns is defined.
pub proof fn lemma_signed_division_overflow()
    ensures
        i32::MIN.checked_div(-1i32) is None,
        i64::MIN.checked_div(-1i64) is None,
        1i32.checked_div(0i32) is None,
        0x8000_0000u32 / 0xFFFF_FFFFu32 == 0,
{
    vstd::arithmetic::div_mod::lemma_fundamental_div_mod(0x8000_0000, 1);
    vstd::arithmetic::div_mod::lemma_fundamental_div_mod(0x8000_0000_0000_0000, 1);
    vstd::arithmetic::div_mod::lemma_basic_div(0x8000_0000, 0xFFFF_FFFF);
}

/// Page discipline of a well-formed memory: its byte length is always a
/// whole number of pages, at least the declared minimum and at most the
/// declared maximum (or 65,536 pages when none is declared).
pub proof fn lemma_memory_page_discipline(m: &Memory)
    requires
        m.wf(),
    ensures
        m.data@.len() as int % spec_page_size() == 0,
        m.mem_type.min * spec_page_size() <= m.data@.len(),
        m.data@.len() <= spec_page_limit(m.mem_type) * spec_page_size(),
{
}

/// Frame discipline of a well-formed engine: every active frame's base
/// pointer is at most the operand-stack depth, and `local_0_idx` is the
/// topmost call frame's base pointer.
pub proof fn lemma_wf_frame_discipline(vm: &VM)
    requires
        vm.wf(),
    ensures
        forall|i: int|
            0 <= i < vm.control_stack.frames@.len() ==> (#[trigger] vm.control_stack.frames@[i]).bp
                <= vm.operand_stack@.len(),
        match spec_top_call(vm.control_stack.frames@) {
            Option::Some(i) => 0 <= i < vm.control_stack.frames@.len()
                && vm.control_stack.frames@[i].opcode == FrameKind::Call && vm.local_0_idx
                == vm.control_stack.frames@[i].bp && forall|j: int|
                i < j < vm.control_stack.frames@.len()
                    ==> vm.control_stack.frames@[j].opcode != FrameKind::Call,
            Option::None => forall|j: int|
                0 <= j < vm.control_stack.frames@.len() ==> vm.control_stack.frames@[j].opcode
                    != FrameKind::Call,
        },
{
    lemma_top_call(vm.control_stack.frames@);
}

} // verus!
