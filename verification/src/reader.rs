//! The binary decoder: LEB128 integers, primitive reads over a byte slice,
//! and the section walk that produces a decoded module.

use vstd::prelude::*;

use std::rc::Rc;

use vstd::bytes::{
    spec_u32_from_le_bytes, spec_u64_from_le_bytes, u32_from_le_bytes, u64_from_le_bytes,
};
use vstd::slice::{slice_subrange, slice_to_vec};

use crate::instruction::{
    BlockArgs, BlockType, BrTableArgs, Expr, IfArgs, Instruction, MemArg, BLOCK_TYPE_EMPTY,
    BLOCK_TYPE_F32, BLOCK_TYPE_F64, BLOCK_TYPE_I32, BLOCK_TYPE_I64,
};
use crate::module::{
    spec_val_type_of_byte, Code, CustomSec, Data, Elem, Export, ExportDesc, FuncType, Global,
    GlobalType, Import, ImportDesc, Limits, Locals, Module, TableType, ValType,
};

verus! {

/// Why a byte stream failed to decode.
#[derive(Clone, Copy, PartialEq, Eq, Structural, Debug)]
pub enum DecodeError {
    UnexpectedEnd,
    IntegerTooLong,
    InvalidMagic,
    InvalidVersion,
    InvalidSectionId,
    SectionLengthMismatch,
    InvalidValType,
    InvalidFuncTypeTag,
    InvalidImportTag,
    InvalidExportTag,
    InvalidTableElemType,
    InvalidBlockType,
    InvalidBlockEnd,
    UnknownOpcode,
    ZeroFlagExpected,
    InvalidUtf8,
    LocalCountOverflow,
}

/// The value and width of the unsigned LEB128 encoding at the head of
/// `data`, little-endian in base 128; nothing when the bytes run out before
/// a terminating byte.
pub open spec fn spec_decode_var_uint(data: Seq<u8>) -> Option<(int, int)>
    decreases data.len(),
{
    if data.len() == 0 {
        Option::None
    } else {
        let b = data[0];
        if b < 0x80 {
            Option::Some((b as int, 1))
        } else {
            match spec_decode_var_uint(data.drop_first()) {
                Option::Some((v, w)) => Option::Some(((b - 0x80) + v * 0x80, w + 1)),
                Option::None => Option::None,
            }
        }
    }
}

/// The value and width of the signed LEB128 encoding at the head of `data`,
/// for a `size`-bit integer, with `depth` payload groups already consumed;
/// the terminating byte's sign bit extends the value downward while its
/// group still lies within `size` bits.
pub open spec fn spec_decode_var_int_at(data: Seq<u8>, size: int, depth: int) -> Option<(int, int)>
    decreases data.len(),
{
    if data.len() == 0 {
        Option::None
    } else {
        let b = data[0];
        if b < 0x80 {
            let v = if depth * 7 < size && (b & 0x40) != 0 {
                b - 0x80
            } else {
                b as int
            };
            Option::Some((v, 1))
        } else {
            match spec_decode_var_int_at(data.drop_first(), size, depth + 1) {
                Option::Some((v, w)) => Option::Some(((b - 0x80) + v * 0x80, w + 1)),
                Option::None => Option::None,
            }
        }
    }
}

/// The signed LEB128 encoding at the head of `data`, for `size`-bit values.
pub open spec fn spec_decode_var_int(data: Seq<u8>, size: int) -> Option<(int, int)> {
    spec_decode_var_int_at(data, size, 0)
}

/// A signed LEB128 width lies between one byte and the whole input.
proof fn lemma_var_int_width(data: Seq<u8>, size: int, depth: int)
    ensures
        match spec_decode_var_int_at(data, size, depth) {
            Option::Some((v, w)) => 1 <= w <= data.len(),
            Option::None => true,
        },
    decreases data.len(),
{
    if data.len() > 0 && data[0] >= 0x80 {
        lemma_var_int_width(data.drop_first(), size, depth + 1);
    }
}

/// An unsigned LEB128 value is never negative, and its width lies between
/// one byte and the whole input.
proof fn lemma_var_uint_nonneg(data: Seq<u8>)
    ensures
        match spec_decode_var_uint(data) {
            Option::Some((v, w)) => v >= 0 && 1 <= w <= data.len(),
            Option::None => true,
        },
    decreases data.len(),
{
    if data.len() > 0 && data[0] >= 0x80 {
        lemma_var_uint_nonneg(data.drop_first());
        match spec_decode_var_uint(data.drop_first()) {
            Option::Some((v, w)) => {
                assert((data[0] - 0x80) + v * 0x80 >= 0) by (nonlinear_arith)
                    requires
                        v >= 0,
                        data[0] >= 0x80,
                ;
            },
            Option::None => {},
        }
    }
}

/// A decoding whose first `k` bytes all carry continuation bits is more
/// than `k` bytes wide.
proof fn lemma_var_uint_wide(data: Seq<u8>, k: int)
    requires
        0 <= k <= data.len(),
        forall|j: int| 0 <= j < k ==> data[j] >= 0x80,
    ensures
        match spec_decode_var_uint(data) {
            Option::Some((v, w)) => w > k,
            Option::None => true,
        },
    decreases k,
{
    lemma_var_uint_nonneg(data);
    if k > 0 {
        assert(data[0] >= 0x80);
        assert(forall|j: int| 0 <= j < k - 1 ==> data.drop_first()[j] == data[j + 1]);
        lemma_var_uint_wide(data.drop_first(), k - 1);
        match spec_decode_var_uint(data.drop_first()) {
            Option::Some((v, w)) => {
                assert(spec_decode_var_uint(data) == Option::Some(
                    ((data[0] - 0x80) + v * 0x80, w + 1),
                ));
            },
            Option::None => {
                assert(spec_decode_var_uint(data) is None);
            },
        }
    }
}

/// Powers of 128.
pub open spec fn spec_pow128(k: int) -> int
    decreases k,
{
    if k <= 0 {
        1
    } else {
        0x80 * spec_pow128(k - 1)
    }
}

proof fn lemma_pow128_values()
    ensures
        spec_pow128(0) == 1,
        spec_pow128(1) == 0x80,
        spec_pow128(2) == 0x4000,
        spec_pow128(3) == 0x20_0000,
        spec_pow128(4) == 0x1000_0000,
        spec_pow128(5) == 0x8_0000_0000,
        spec_pow128(6) == 0x400_0000_0000,
        spec_pow128(7) == 0x2_0000_0000_0000,
        spec_pow128(8) == 0x100_0000_0000_0000,
        spec_pow128(9) == 0x8000_0000_0000_0000,
{
    assert(spec_pow128(0) == 1);
    assert(spec_pow128(1) == 0x80);
    assert(spec_pow128(2) == 0x4000);
    assert(spec_pow128(3) == 0x20_0000);
    assert(spec_pow128(4) == 0x1000_0000);
    assert(spec_pow128(5) == 0x8_0000_0000);
    assert(spec_pow128(6) == 0x400_0000_0000);
    assert(spec_pow128(7) == 0x2_0000_0000_0000);
    assert(spec_pow128(8) == 0x100_0000_0000_0000);
    assert(spec_pow128(9) == 0x8000_0000_0000_0000);
}

proof fn lemma_pow128_bound(k: int)
    requires
        0 <= k <= 9,
    ensures
        spec_pow128(k) >= 1,
        spec_pow128(k) <= 0x8000_0000_0000_0000,
        k <= 8 ==> spec_pow128(k) <= 0x100_0000_0000_0000,
{
    lemma_pow128_values();
    if k == 0 {
    } else if k == 1 {
    } else if k == 2 {
    } else if k == 3 {
    } else if k == 4 {
    } else if k == 5 {
    } else if k == 6 {
    } else if k == 7 {
    } else if k == 8 {
    } else {
    }
}

/// Decode the unsigned LEB128 integer at the head of `data`. Exact for any
/// value that fits in 64 bits; an encoding that runs out of bytes is
/// refused, as is one that spans more than ten groups or encodes a larger
/// value.
pub fn decode_var_uint(data: &[u8]) -> (r: Result<(u64, usize), DecodeError>)
    ensures
        match r {
            Ok((v, w)) => spec_decode_var_uint(data@) == Option::Some((v as int, w as int)),
            Err(e) => (e == DecodeError::UnexpectedEnd && spec_decode_var_uint(data@) is None) || (
            e == DecodeError::IntegerTooLong && (spec_decode_var_uint(data@) is None
                || spec_decode_var_uint(data@)->Some_0.0 > u64::MAX
                || spec_decode_var_uint(data@)->Some_0.1 > 9)),
        },
{
    let mut value: u64 = 0;
    let mut mult: u64 = 1;
    let mut idx: usize = 0;
    proof {
        assert(data@.skip(0) =~= data@);
    }
    loop
        invariant
            idx <= data@.len(),
            idx <= 9,
            mult == spec_pow128(idx as int),
            mult >= 1,
            forall|j: int| 0 <= j < idx ==> data@[j] >= 0x80,
            ({
                match spec_decode_var_uint(data@.skip(idx as int)) {
                    Option::Some((v, w)) => spec_decode_var_uint(data@) == Option::Some(
                        (value + mult * v, idx + w),
                    ),
                    Option::None => spec_decode_var_uint(data@) is None,
                }
            }),
        decreases data@.len() - idx,
    {
        let ghost tail = data@.skip(idx as int);
        if idx >= data.len() {
            proof {
                assert(tail.len() == 0);
            }
            return Result::Err(DecodeError::UnexpectedEnd);
        }
        let b = data[idx];
        proof {
            assert(tail[0] == data@[idx as int]);
            assert(tail.drop_first() =~= data@.skip(idx + 1));
            lemma_var_uint_nonneg(tail);
            lemma_var_uint_nonneg(tail.drop_first());
        }
        if b < 0x80 {
            // terminating group: the suffix value is exactly b
            let add = match (b as u64).checked_mul(mult) {
                Option::Some(m) => m,
                Option::None => {
                    proof {
                        assert(value + mult * (b as int) > u64::MAX) by (nonlinear_arith)
                            requires
                                value >= 0,
                                (b as u64) * mult > u64::MAX,
                        ;
                    }
                    return Result::Err(DecodeError::IntegerTooLong);
                },
            };
            let total = match value.checked_add(add) {
                Option::Some(t) => t,
                Option::None => {
                    return Result::Err(DecodeError::IntegerTooLong);
                },
            };
            proof {
                assert(total == value + mult * (b as int)) by (nonlinear_arith)
                    requires
                        total == value + (b as u64) * mult,
                ;
            }
            return Result::Ok((total, idx + 1));
        }
        // continuation group
        let ghost rest = spec_decode_var_uint(tail.drop_first());
        proof {
            if rest is Some {
                let (v2, w2) = rest->Some_0;
                assert(spec_decode_var_uint(tail) == Option::Some(
                    (((b - 0x80) as int) + v2 * 0x80, w2 + 1),
                ));
                assert(((b - 0x80) as int) + v2 * 0x80 >= (b - 0x80) as int) by (nonlinear_arith)
                    requires
                        v2 >= 0,
                ;
            }
        }
        if idx == 9 {
            proof {
                lemma_var_uint_wide(data@, 9);
                lemma_var_uint_nonneg(data@);
            }
            return Result::Err(DecodeError::IntegerTooLong);
        }
        let payload = (b - 0x80) as u64;
        let add = match payload.checked_mul(mult) {
            Option::Some(m) => m,
            Option::None => {
                proof {
                    assert(payload == (data@.skip(idx as int)[0] - 0x80) as u64);
                    assert(value + mult * (payload as int) > u64::MAX) by (nonlinear_arith)
                        requires
                            value >= 0,
                            (payload as int) * (mult as int) > u64::MAX,
                    ;
                    lemma_overflow_propagates(data@, idx as int, value as int, mult as int);
                }
                return Result::Err(DecodeError::IntegerTooLong);
            },
        };
        let total = match value.checked_add(add) {
            Option::Some(t) => t,
            Option::None => {
                proof {
                    assert(payload == (data@.skip(idx as int)[0] - 0x80) as u64);
                    assert(value + mult * (payload as int) > u64::MAX) by (nonlinear_arith)
                        requires
                            value + (payload as int) * (mult as int) > u64::MAX,
                    ;
                    lemma_overflow_propagates(data@, idx as int, value as int, mult as int);
                }
                return Result::Err(DecodeError::IntegerTooLong);
            },
        };
        proof {
            lemma_pow128_bound(idx as int);
        }
        let new_mult = mult * 0x80;
        proof {
            let b0 = data@[idx as int];
            if rest is Some {
                let (v2, w2) = rest->Some_0;
                assert(total + new_mult * v2 == value + mult * (((b0 - 0x80) as int) + v2 * 0x80))
                    by (nonlinear_arith)
                    requires
                        total == value + mult * ((b0 - 0x80) as int),
                        new_mult == mult * 0x80,
                ;
            }
        }
        value = total;
        mult = new_mult;
        idx = idx + 1;
    }
}

/// When the running total can no longer grow within a 64-bit word, the full
/// value (if any) passes `u64::MAX`.
proof fn lemma_overflow_propagates(data: Seq<u8>, idx: int, value: int, mult: int)
    requires
        0 <= idx < data.len(),
        value >= 0,
        mult >= 1,
        data.skip(idx)[0] >= 0x80,
        match spec_decode_var_uint(data.skip(idx)) {
            Option::Some((v, w)) => spec_decode_var_uint(data) == Option::Some(
                (value + mult * v, idx + w),
            ),
            Option::None => spec_decode_var_uint(data) is None,
        },
        value + mult * ((data.skip(idx)[0] - 0x80) as int) > u64::MAX,
    ensures
        spec_decode_var_uint(data) is None || spec_decode_var_uint(data)->Some_0.0 > u64::MAX,
{
    let tail = data.skip(idx);
    let b = tail[0];
    match spec_decode_var_uint(tail) {
        Option::Some((v, w)) => {
            match spec_decode_var_uint(tail.drop_first()) {
                Option::Some((v2, w2)) => {
                    lemma_var_uint_nonneg(tail.drop_first());
                    assert(v == ((b - 0x80) as int) + v2 * 0x80);
                    assert(v >= (b - 0x80) as int) by (nonlinear_arith)
                        requires
                            v == ((b - 0x80) as int) + v2 * 0x80,
                            v2 >= 0,
                    ;
                    assert(value + mult * v > u64::MAX) by (nonlinear_arith)
                        requires
                            mult >= 1,
                            v >= (b - 0x80) as int,
                            value + mult * ((b - 0x80) as int) > u64::MAX,
                    ;
                },
                Option::None => {},
            }
        },
        Option::None => {},
    }
}

/// Decode the signed LEB128 integer at the head of `data` for a `size`-bit
/// width (32 or 64). Exact whenever the value fits in 64 bits signed.
pub fn decode_var_int(data: &[u8], size: usize) -> (r: Result<(i64, usize), DecodeError>)
    requires
        size == 32 || size == 64,
    ensures
        match r {
            Ok((v, w)) => spec_decode_var_int(data@, size as int) == Option::Some(
                (v as int, w as int),
            ),
            Err(e) => e == DecodeError::UnexpectedEnd && spec_decode_var_int(data@, size as int)
                is None || e == DecodeError::IntegerTooLong,
        },
{
    let mut value: i64 = 0;
    let mut mult: u64 = 1;
    let mut idx: usize = 0;
    proof {
        assert(data@.skip(0) =~= data@);
    }
    loop
        invariant
            size == 32 || size == 64,
            idx <= data@.len(),
            idx <= 9,
            mult == spec_pow128(idx as int),
            mult >= 1,
            0 <= value < mult,
            ({
                match spec_decode_var_int_at(data@.skip(idx as int), size as int, idx as int) {
                    Option::Some((v, w)) => spec_decode_var_int(data@, size as int)
                        == Option::Some((value + mult * v, idx + w)),
                    Option::None => spec_decode_var_int(data@, size as int) is None,
                }
            }),
        decreases data@.len() - idx,
    {
        let ghost tail = data@.skip(idx as int);
        if idx >= data.len() {
            proof {
                assert(tail.len() == 0);
            }
            return Result::Err(DecodeError::UnexpectedEnd);
        }
        let b = data[idx];
        proof {
            assert(tail[0] == data@[idx as int]);
            assert(tail.drop_first() =~= data@.skip(idx + 1));
            lemma_pow128_values();
        }
        if b < 0x80 {
            let group: i64 = if (idx * 7 < size) && (b & 0x40) != 0 {
                (b as i64) - 0x80
            } else {
                b as i64
            };
            proof {
                lemma_pow128_bound(idx as int);
                assert((group as int) * (mult as int) <= 0x80 * 0x8000_0000_0000_0000 && (
                group as int) * (mult as int) >= -0x80 * 0x8000_0000_0000_0000)
                    by (nonlinear_arith)
                    requires
                        -0x80 <= group <= 0x7F,
                        1 <= mult <= 0x8000_0000_0000_0000,
                ;
            }
            let scaled: i128 = (group as i128) * (mult as i128);
            let total: i128 = (value as i128) + scaled;
            if total > i64::MAX as i128 || total < i64::MIN as i128 {
                return Result::Err(DecodeError::IntegerTooLong);
            }
            return Result::Ok((total as i64, idx + 1));
        }
        if idx == 9 {
            return Result::Err(DecodeError::IntegerTooLong);
        }
        let payload = (b - 0x80) as u64;
        let ghost rest = spec_decode_var_int_at(tail.drop_first(), size as int, idx + 1);
        proof {
            lemma_pow128_bound(idx as int);
            assert(payload * mult <= 0x7F * 0x100_0000_0000_0000) by (nonlinear_arith)
                requires
                    payload <= 0x7F,
                    1 <= mult <= 0x100_0000_0000_0000,
            ;
            assert(value + payload * mult < mult * 0x80) by (nonlinear_arith)
                requires
                    0 <= value < mult,
                    payload <= 0x7F,
                    mult >= 1,
            ;
        }
        let add: u64 = payload * mult;
        let total: u64 = (value as u64) + add;
        let new_mult = mult * 0x80;
        proof {
            let b0 = data@[idx as int];
            if rest is Some {
                let (v2, w2) = rest->Some_0;
                assert(spec_decode_var_int_at(tail, size as int, idx as int) == Option::Some(
                    (((b0 - 0x80) as int) + v2 * 0x80, w2 + 1),
                ));
                assert(total + new_mult * v2 == value + mult * (((b0 - 0x80) as int) + v2 * 0x80))
                    by (nonlinear_arith)
                    requires
                        total == value + mult * ((b0 - 0x80) as int),
                        new_mult == mult * 0x80,
                ;
            }
        }
        value = total as i64;
        mult = new_mult;
        idx = idx + 1;
    }
}


/// What one instruction read yields: a real instruction, or one of the two
/// structured terminators.
pub enum InstrItem {
    Instr(Instruction),
    Else,
    End,
}

/// Which terminator ended an instruction sequence.
#[derive(Clone, Copy, PartialEq, Eq, Structural, Debug)]
pub enum Terminator {
    End,
    Else,
}

/// Relies on String::from_utf8: accepts exactly the valid UTF-8 byte
/// strings and decodes them.
#[verifier::external_body]
fn string_from_utf8(bytes: Vec<u8>) -> (r: Option<String>)
    ensures
        match r {
            Option::Some(s) => vstd::utf8::valid_utf8(bytes@) && s@ == vstd::utf8::decode_utf8(
                bytes@,
            ),
            Option::None => !vstd::utf8::valid_utf8(bytes@),
        },
{
    match String::from_utf8(bytes) {
        Ok(s) => Option::Some(s),
        Err(_) => Option::None,
    }
}

/// A cursor over the undecoded bytes of a module.
pub struct WasmReader<'a> {
    pub data: &'a [u8],
    pub pos: usize,
}

impl<'a> WasmReader<'a> {
    /// The cursor never passes the end of the data.
    pub open spec fn wf(&self) -> bool {
        self.pos <= self.data@.len()
    }

    /// A reader at the start of `data`.
    pub fn new(data: &'a [u8]) -> (r: WasmReader<'a>)
        ensures
            r.wf(),
            r.data@ == data@,
            r.pos == 0,
    {
        WasmReader { data, pos: 0 }
    }

    /// Bytes not yet consumed.
    pub fn remaining(&self) -> (r: usize)
        requires
            self.wf(),
        ensures
            r == self.data@.len() - self.pos,
    {
        self.data.len() - self.pos
    }

    /// Read one byte.
    pub fn read_byte(&mut self) -> (r: Result<u8, DecodeError>)
        requires
            old(self).wf(),        ensures
            final(self).wf(),
            final(self).data@ == old(self).data@,
            old(self).pos <= final(self).pos,
            r is Ok ==> old(self).pos < final(self).pos,
            match r {
                Ok(b) => old(self).pos < old(self).data@.len() && b == old(self).data@[old(self).pos as int] && final(self).pos == old(self).pos + 1,
                Err(e) => e == DecodeError::UnexpectedEnd && old(self).pos == old(self).data@.len() && final(self).pos == old(self).pos,
            },
    {
        if self.pos >= self.data.len() {
            return Result::Err(DecodeError::UnexpectedEnd);
        }
        let b = *vstd::slice::slice_index_get(self.data, self.pos);
        self.pos = self.pos + 1;
        Result::Ok(b)
    }

    /// Read four bytes as a little-endian 32-bit integer.
    pub fn read_u32(&mut self) -> (r: Result<u32, DecodeError>)
        requires
            old(self).wf(),        ensures
            final(self).wf(),
            final(self).data@ == old(self).data@,
            old(self).pos <= final(self).pos,
            match r {
                Ok(v) => old(self).pos + 4 <= old(self).data@.len() && v == spec_u32_from_le_bytes(
                    old(self).data@.subrange(old(self).pos as int, old(self).pos + 4),
                ) && final(self).pos == old(self).pos + 4,
                Err(e) => e == DecodeError::UnexpectedEnd && old(self).pos + 4 > old(self).data@.len() && final(self).pos == old(self).pos,
            },
    {
        if self.data.len() - self.pos < 4 {
            return Result::Err(DecodeError::UnexpectedEnd);
        }
        let s = slice_subrange(self.data, self.pos, self.pos + 4);
        let v = u32_from_le_bytes(s);
        self.pos = self.pos + 4;
        Result::Ok(v)
    }

    /// Read four bytes as the bit pattern of a 32-bit float immediate.
    pub fn read_f32_bits(&mut self) -> (r: Result<u32, DecodeError>)
        requires
            old(self).wf(),        ensures
            final(self).wf(),
            final(self).data@ == old(self).data@,
            old(self).pos <= final(self).pos,
            match r {
                Ok(v) => old(self).pos + 4 <= old(self).data@.len() && v == spec_u32_from_le_bytes(
                    old(self).data@.subrange(old(self).pos as int, old(self).pos + 4),
                ) && final(self).pos == old(self).pos + 4,
                Err(e) => e == DecodeError::UnexpectedEnd && old(self).pos + 4 > old(self).data@.len() && final(self).pos == old(self).pos,
            },
    {
        self.read_u32()
    }

    /// Read eight bytes as the bit pattern of a 64-bit float immediate.
    pub fn read_f64_bits(&mut self) -> (r: Result<u64, DecodeError>)
        requires
            old(self).wf(),        ensures
            final(self).wf(),
            final(self).data@ == old(self).data@,
            old(self).pos <= final(self).pos,
            match r {
                Ok(v) => old(self).pos + 8 <= old(self).data@.len() && v == spec_u64_from_le_bytes(
                    old(self).data@.subrange(old(self).pos as int, old(self).pos + 8),
                ) && final(self).pos == old(self).pos + 8,
                Err(e) => e == DecodeError::UnexpectedEnd && old(self).pos + 8 > old(self).data@.len() && final(self).pos == old(self).pos,
            },
    {
        if self.data.len() - self.pos < 8 {
            return Result::Err(DecodeError::UnexpectedEnd);
        }
        let s = slice_subrange(self.data, self.pos, self.pos + 8);
        let v = u64_from_le_bytes(s);
        self.pos = self.pos + 8;
        Result::Ok(v)
    }

    /// Read an unsigned LEB128 integer, truncated to 32 bits.
    pub fn read_var_u32(&mut self) -> (r: Result<u32, DecodeError>)
        requires
            old(self).wf(),        ensures
            final(self).wf(),
            final(self).data@ == old(self).data@,
            old(self).pos <= final(self).pos,
            r is Ok ==> old(self).pos < final(self).pos,
            match r {
                Ok(v) => ({
                    let d = spec_decode_var_uint(old(self).data@.skip(old(self).pos as int));
                    d is Some && v == (d->Some_0.0 as u64) as u32 && final(self).pos == old(self).pos + d->Some_0.1
                }),
                Err(_) => final(self).pos == old(self).pos,
            },
    {
        let s = slice_subrange(self.data, self.pos, self.data.len());
        proof {
            lemma_var_uint_nonneg(s@);
        }
        match decode_var_uint(s) {
            Result::Ok((v, w)) => {
                self.pos = self.pos + w;
                Result::Ok(#[verifier::truncate] (v as u32))
            },
            Result::Err(e) => Result::Err(e),
        }
    }

    /// Read a signed LEB128 integer of 32-bit width.
    pub fn read_var_i32(&mut self) -> (r: Result<i32, DecodeError>)
        requires
            old(self).wf(),        ensures
            final(self).wf(),
            final(self).data@ == old(self).data@,
            old(self).pos <= final(self).pos,
            r is Ok ==> old(self).pos < final(self).pos,
            match r {
                Ok(v) => ({
                    let d = spec_decode_var_int(old(self).data@.skip(old(self).pos as int), 32);
                    d is Some && v == (d->Some_0.0 as i64) as i32 && final(self).pos == old(self).pos + d->Some_0.1
                }),
                Err(_) => final(self).pos == old(self).pos,
            },
    {
        let s = slice_subrange(self.data, self.pos, self.data.len());
        proof {
            lemma_var_int_width(s@, 32, 0);
        }
        match decode_var_int(s, 32) {
            Result::Ok((v, w)) => {
                self.pos = self.pos + w;
                Result::Ok(#[verifier::truncate] (v as i32))
            },
            Result::Err(e) => Result::Err(e),
        }
    }

    /// Read a signed LEB128 integer of 64-bit width.
    pub fn read_var_i64(&mut self) -> (r: Result<i64, DecodeError>)
        requires
            old(self).wf(),        ensures
            final(self).wf(),
            final(self).data@ == old(self).data@,
            old(self).pos <= final(self).pos,
            r is Ok ==> old(self).pos < final(self).pos,
            match r {
                Ok(v) => ({
                    let d = spec_decode_var_int(old(self).data@.skip(old(self).pos as int), 64);
                    d is Some && v == d->Some_0.0 as i64 && final(self).pos == old(self).pos
                        + d->Some_0.1
                }),
                Err(_) => final(self).pos == old(self).pos,
            },
    {
        let s = slice_subrange(self.data, self.pos, self.data.len());
        proof {
            lemma_var_int_width(s@, 64, 0);
        }
        match decode_var_int(s, 64) {
            Result::Ok((v, w)) => {
                self.pos = self.pos + w;
                Result::Ok(v)
            },
            Result::Err(e) => Result::Err(e),
        }
    }

    /// Read a length-prefixed run of bytes.
    pub fn read_bytes(&mut self) -> (r: Result<Vec<u8>, DecodeError>)
        requires
            old(self).wf(),        ensures
            final(self).wf(),
            final(self).data@ == old(self).data@,
            old(self).pos <= final(self).pos,
            r is Ok ==> old(self).pos < final(self).pos,
            r matches Ok(v) ==> v@ == old(self).data@.subrange(
                final(self).pos - v@.len(),
                final(self).pos as int,
            ),
    {
        let n = match self.read_var_u32() {
            Result::Ok(n) => n,
            Result::Err(e) => {
                return Result::Err(e);
            },
        };
        if ((self.data.len() - self.pos) as u64) < n as u64 {
            return Result::Err(DecodeError::UnexpectedEnd);
        }
        let s = slice_subrange(self.data, self.pos, self.pos + (n as usize));
        let v = slice_to_vec(s);
        self.pos = self.pos + (n as usize);
        Result::Ok(v)
    }

    /// Read a length-prefixed UTF-8 name.
    pub fn read_name(&mut self) -> (r: Result<String, DecodeError>)
        requires
            old(self).wf(),        ensures
            final(self).wf(),
            final(self).data@ == old(self).data@,
            old(self).pos <= final(self).pos,
            r is Ok ==> old(self).pos < final(self).pos,
    {
        let bytes = match self.read_bytes() {
            Result::Ok(b) => b,
            Result::Err(e) => {
                return Result::Err(e);
            },
        };
        match string_from_utf8(bytes) {
            Option::Some(s) => Result::Ok(s),
            Option::None => Result::Err(DecodeError::InvalidUtf8),
        }
    }

    /// Read a value type.
    pub fn read_val_type(&mut self) -> (r: Result<ValType, DecodeError>)
        requires
            old(self).wf(),        ensures
            final(self).wf(),
            final(self).data@ == old(self).data@,
            old(self).pos <= final(self).pos,
            r is Ok ==> old(self).pos < final(self).pos,
            match r {
                Ok(v) => old(self).pos < old(self).data@.len() && spec_val_type_of_byte(
                    old(self).data@[old(self).pos as int],
                ) == Option::Some(v) && final(self).pos == old(self).pos + 1,
                Err(_) => true,
            },
    {
        let b = match self.read_byte() {
            Result::Ok(b) => b,
            Result::Err(e) => {
                return Result::Err(e);
            },
        };
        match ValType::from_byte(b) {
            Option::Some(v) => Result::Ok(v),
            Option::None => Result::Err(DecodeError::InvalidValType),
        }
    }

    /// Read a count-prefixed vector of value types.
    pub fn read_val_types(&mut self) -> (r: Result<Vec<ValType>, DecodeError>)
        requires
            old(self).wf(),        ensures
            final(self).wf(),
            final(self).data@ == old(self).data@,
            old(self).pos <= final(self).pos,
    {
        let n = match self.read_var_u32() {
            Result::Ok(n) => n,
            Result::Err(e) => {
                return Result::Err(e);
            },
        };
        let mut result: Vec<ValType> = Vec::new();
        let mut i: u32 = 0;
        while i < n
            invariant
                self.wf(),
                self.data@ == old(self).data@,
                old(self).pos <= self.pos,
            decreases n - i,
        {
            let v = match self.read_val_type() {
                Result::Ok(v) => v,
                Result::Err(e) => {
                    return Result::Err(e);
                },
            };
            result.push(v);
            i = i + 1;
        }
        Result::Ok(result)
    }

    /// Read a function type: the 0x60 tag, then parameters and results.
    pub fn read_func_type(&mut self) -> (r: Result<FuncType, DecodeError>)
        requires
            old(self).wf(),        ensures
            final(self).wf(),
            final(self).data@ == old(self).data@,
            old(self).pos <= final(self).pos,
            r is Ok ==> old(self).pos < final(self).pos,
    {
        let tag = match self.read_byte() {
            Result::Ok(b) => b,
            Result::Err(e) => {
                return Result::Err(e);
            },
        };
        if tag != 0x60 {
            return Result::Err(DecodeError::InvalidFuncTypeTag);
        }
        let params_types = match self.read_val_types() {
            Result::Ok(v) => v,
            Result::Err(e) => {
                return Result::Err(e);
            },
        };
        let result_types = match self.read_val_types() {
            Result::Ok(v) => v,
            Result::Err(e) => {
                return Result::Err(e);
            },
        };
        Result::Ok(FuncType { params_types, result_types })
    }

    /// Read table or memory limits: a flag byte, the minimum, and the
    /// maximum when the flag is non-zero.
    pub fn read_limits(&mut self) -> (r: Result<Limits, DecodeError>)
        requires
            old(self).wf(),        ensures
            final(self).wf(),
            final(self).data@ == old(self).data@,
            old(self).pos <= final(self).pos,
            r is Ok ==> old(self).pos < final(self).pos,
    {
        let tag = match self.read_byte() {
            Result::Ok(b) => b,
            Result::Err(e) => {
                return Result::Err(e);
            },
        };
        let min = match self.read_var_u32() {
            Result::Ok(v) => v,
            Result::Err(e) => {
                return Result::Err(e);
            },
        };
        let max = if tag == 0x00 {
            Option::None
        } else {
            match self.read_var_u32() {
                Result::Ok(v) => Option::Some(v as usize),
                Result::Err(e) => {
                    return Result::Err(e);
                },
            }
        };
        Result::Ok(Limits { min: min as usize, max })
    }

    /// Read a table type: the element type must be a function reference.
    pub fn read_table_type(&mut self) -> (r: Result<TableType, DecodeError>)
        requires
            old(self).wf(),        ensures
            final(self).wf(),
            final(self).data@ == old(self).data@,
            old(self).pos <= final(self).pos,
            r is Ok ==> old(self).pos < final(self).pos,
    {
        let elem_type = match self.read_val_type() {
            Result::Ok(v) => v,
            Result::Err(e) => {
                return Result::Err(e);
            },
        };
        match elem_type {
            ValType::FuncRef => {},
            _ => {
                return Result::Err(DecodeError::InvalidTableElemType);
            },
        }
        let limits = match self.read_limits() {
            Result::Ok(l) => l,
            Result::Err(e) => {
                return Result::Err(e);
            },
        };
        Result::Ok(TableType { elem_type, limits })
    }

    /// Read a global type: a value type and a mutability byte.
    pub fn read_global_type(&mut self) -> (r: Result<GlobalType, DecodeError>)
        requires
            old(self).wf(),        ensures
            final(self).wf(),
            final(self).data@ == old(self).data@,
            old(self).pos <= final(self).pos,
            r is Ok ==> old(self).pos < final(self).pos,
    {
        let val_type = match self.read_val_type() {
            Result::Ok(v) => v,
            Result::Err(e) => {
                return Result::Err(e);
            },
        };
        let b = match self.read_byte() {
            Result::Ok(b) => b,
            Result::Err(e) => {
                return Result::Err(e);
            },
        };
        Result::Ok(GlobalType { val_type, mutable: b == 0x01 })
    }

    /// Read an import description by its tag.
    pub fn read_import_desc(&mut self) -> (r: Result<ImportDesc, DecodeError>)
        requires
            old(self).wf(),        ensures
            final(self).wf(),
            final(self).data@ == old(self).data@,
            old(self).pos <= final(self).pos,
            r is Ok ==> old(self).pos < final(self).pos,
    {
        let tag = match self.read_byte() {
            Result::Ok(b) => b,
            Result::Err(e) => {
                return Result::Err(e);
            },
        };
        if tag == 0x00 {
            match self.read_var_u32() {
                Result::Ok(v) => Result::Ok(ImportDesc::Func(v)),
                Result::Err(e) => Result::Err(e),
            }
        } else if tag == 0x01 {
            match self.read_table_type() {
                Result::Ok(v) => Result::Ok(ImportDesc::Table(v)),
                Result::Err(e) => Result::Err(e),
            }
        } else if tag == 0x02 {
            match self.read_limits() {
                Result::Ok(v) => Result::Ok(ImportDesc::Mem(v)),
                Result::Err(e) => Result::Err(e),
            }
        } else if tag == 0x03 {
            match self.read_global_type() {
                Result::Ok(v) => Result::Ok(ImportDesc::Global(v)),
                Result::Err(e) => Result::Err(e),
            }
        } else {
            Result::Err(DecodeError::InvalidImportTag)
        }
    }

    /// Read one import entry.
    pub fn read_import(&mut self) -> (r: Result<Import, DecodeError>)
        requires
            old(self).wf(),        ensures
            final(self).wf(),
            final(self).data@ == old(self).data@,
            old(self).pos <= final(self).pos,
            r is Ok ==> old(self).pos < final(self).pos,
    {
        let module_name = match self.read_name() {
            Result::Ok(s) => s,
            Result::Err(e) => {
                return Result::Err(e);
            },
        };
        let member_name = match self.read_name() {
            Result::Ok(s) => s,
            Result::Err(e) => {
                return Result::Err(e);
            },
        };
        let desc = match self.read_import_desc() {
            Result::Ok(d) => d,
            Result::Err(e) => {
                return Result::Err(e);
            },
        };
        Result::Ok(Import { module_name, member_name, desc })
    }

    /// Read an export description by its tag.
    pub fn read_export_desc(&mut self) -> (r: Result<ExportDesc, DecodeError>)
        requires
            old(self).wf(),        ensures
            final(self).wf(),
            final(self).data@ == old(self).data@,
            old(self).pos <= final(self).pos,
            r is Ok ==> old(self).pos < final(self).pos,
    {
        let tag = match self.read_byte() {
            Result::Ok(b) => b,
            Result::Err(e) => {
                return Result::Err(e);
            },
        };
        let value = match self.read_var_u32() {
            Result::Ok(v) => v,
            Result::Err(e) => {
                return Result::Err(e);
            },
        };
        if tag == 0x00 {
            Result::Ok(ExportDesc::Func(value))
        } else if tag == 0x01 {
            Result::Ok(ExportDesc::Table(value))
        } else if tag == 0x02 {
            Result::Ok(ExportDesc::Mem(value))
        } else if tag == 0x03 {
            Result::Ok(ExportDesc::Global(value))
        } else {
            Result::Err(DecodeError::InvalidExportTag)
        }
    }

    /// Read one export entry.
    pub fn read_export(&mut self) -> (r: Result<Export, DecodeError>)
        requires
            old(self).wf(),        ensures
            final(self).wf(),
            final(self).data@ == old(self).data@,
            old(self).pos <= final(self).pos,
            r is Ok ==> old(self).pos < final(self).pos,
    {
        let name = match self.read_name() {
            Result::Ok(s) => s,
            Result::Err(e) => {
                return Result::Err(e);
            },
        };
        let desc = match self.read_export_desc() {
            Result::Ok(d) => d,
            Result::Err(e) => {
                return Result::Err(e);
            },
        };
        Result::Ok(Export { name, desc })
    }

    /// Read a count-prefixed vector of indices.
    pub fn read_indices(&mut self) -> (r: Result<Vec<u32>, DecodeError>)
        requires
            old(self).wf(),        ensures
            final(self).wf(),
            final(self).data@ == old(self).data@,
            old(self).pos <= final(self).pos,
    {
        let n = match self.read_var_u32() {
            Result::Ok(n) => n,
            Result::Err(e) => {
                return Result::Err(e);
            },
        };
        let mut result: Vec<u32> = Vec::new();
        let mut i: u32 = 0;
        while i < n
            invariant
                self.wf(),
                self.data@ == old(self).data@,
                old(self).pos <= self.pos,
            decreases n - i,
        {
            let v = match self.read_var_u32() {
                Result::Ok(v) => v,
                Result::Err(e) => {
                    return Result::Err(e);
                },
            };
            result.push(v);
            i = i + 1;
        }
        Result::Ok(result)
    }

    /// Read a block type immediate: a negative short form or a type index.
    pub fn read_block_type(&mut self) -> (r: Result<BlockType, DecodeError>)
        requires
            old(self).wf(),        ensures
            final(self).wf(),
            final(self).data@ == old(self).data@,
            old(self).pos <= final(self).pos,
            r is Ok ==> old(self).pos < final(self).pos,
            r matches Ok(bt) ==> bt >= 0 || bt == BLOCK_TYPE_I32 || bt == BLOCK_TYPE_I64 || bt
                == BLOCK_TYPE_F32 || bt == BLOCK_TYPE_F64 || bt == BLOCK_TYPE_EMPTY,
    {
        let block_type = match self.read_var_i32() {
            Result::Ok(v) => v,
            Result::Err(e) => {
                return Result::Err(e);
            },
        };
        if block_type < 0 {
            if block_type == BLOCK_TYPE_I32 || block_type == BLOCK_TYPE_I64 || block_type
                == BLOCK_TYPE_F32 || block_type == BLOCK_TYPE_F64 || block_type
                == BLOCK_TYPE_EMPTY {
            } else {
                return Result::Err(DecodeError::InvalidBlockType);
            }
        }
        Result::Ok(block_type)
    }

    /// Read a memory-access immediate: alignment hint and static offset.
    pub fn read_mem_arg(&mut self) -> (r: Result<MemArg, DecodeError>)
        requires
            old(self).wf(),        ensures
            final(self).wf(),
            final(self).data@ == old(self).data@,
            old(self).pos <= final(self).pos,
            r is Ok ==> old(self).pos < final(self).pos,
    {
        let align = match self.read_var_u32() {
            Result::Ok(v) => v,
            Result::Err(e) => {
                return Result::Err(e);
            },
        };
        let offset = match self.read_var_u32() {
            Result::Ok(v) => v,
            Result::Err(e) => {
                return Result::Err(e);
            },
        };
        Result::Ok(MemArg { align, offset })
    }

    /// Read a byte that must be zero.
    pub fn read_zero(&mut self) -> (r: Result<u8, DecodeError>)
        requires
            old(self).wf(),        ensures
            final(self).wf(),
            final(self).data@ == old(self).data@,
            old(self).pos <= final(self).pos,
            r is Ok ==> old(self).pos < final(self).pos,
            r matches Ok(b) ==> b == 0,
    {
        let b = match self.read_byte() {
            Result::Ok(b) => b,
            Result::Err(e) => {
                return Result::Err(e);
            },
        };
        if b != 0 {
            return Result::Err(DecodeError::ZeroFlagExpected);
        }
        Result::Ok(b)
    }

    /// Read the immediate of `call_indirect`: a type index and a zero flag.
    pub fn read_call_indirect_args(&mut self) -> (r: Result<u32, DecodeError>)
        requires
            old(self).wf(),        ensures
            final(self).wf(),
            final(self).data@ == old(self).data@,
            old(self).pos <= final(self).pos,
            r is Ok ==> old(self).pos < final(self).pos,
    {
        let type_idx = match self.read_var_u32() {
            Result::Ok(v) => v,
            Result::Err(e) => {
                return Result::Err(e);
            },
        };
        match self.read_zero() {
            Result::Ok(_) => Result::Ok(type_idx),
            Result::Err(e) => Result::Err(e),
        }
    }

    /// Read the immediate of `br_table`: a label vector and a default.
    pub fn read_br_table_args(&mut self) -> (r: Result<BrTableArgs, DecodeError>)
        requires
            old(self).wf(),        ensures
            final(self).wf(),
            final(self).data@ == old(self).data@,
            old(self).pos <= final(self).pos,
    {
        let labels = match self.read_indices() {
            Result::Ok(v) => v,
            Result::Err(e) => {
                return Result::Err(e);
            },
        };
        let default = match self.read_var_u32() {
            Result::Ok(v) => v,
            Result::Err(e) => {
                return Result::Err(e);
            },
        };
        Result::Ok(BrTableArgs { labels, default })
    }
}

impl<'a> WasmReader<'a> {
    /// Read one instruction, or one of the structured terminators.
    pub fn read_instruction(&mut self) -> (r: Result<InstrItem, DecodeError>)
        requires
            old(self).wf(),
        ensures
            final(self).wf(),
            final(self).data@ == old(self).data@,
            old(self).pos <= final(self).pos,
            r is Ok ==> old(self).pos < final(self).pos,
        decreases self.data@.len() - self.pos, 1int,
    {
        let b = match self.read_byte() {
            Result::Ok(b) => b,
            Result::Err(e) => {
                return Result::Err(e);
            },
        };
        match b {
            0x00 => Result::Ok(InstrItem::Instr(Instruction::Unreachable)),
            0x01 => Result::Ok(InstrItem::Instr(Instruction::Nop)),
            0x02 => match self.read_block_args() {
                Result::Ok(a) => Result::Ok(InstrItem::Instr(Instruction::Block(a))),
                Result::Err(e) => Result::Err(e),
            },
            0x03 => match self.read_block_args() {
                Result::Ok(a) => Result::Ok(InstrItem::Instr(Instruction::Loop(a))),
                Result::Err(e) => Result::Err(e),
            },
            0x04 => match self.read_if_args() {
                Result::Ok(a) => Result::Ok(InstrItem::Instr(Instruction::If(a))),
                Result::Err(e) => Result::Err(e),
            },
            0x05 => Result::Ok(InstrItem::Else),
            0x0B => Result::Ok(InstrItem::End),
            0x0C => match self.read_var_u32() {
                Result::Ok(v) => Result::Ok(InstrItem::Instr(Instruction::Br(v))),
                Result::Err(e) => Result::Err(e),
            },
            0x0D => match self.read_var_u32() {
                Result::Ok(v) => Result::Ok(InstrItem::Instr(Instruction::BrIf(v))),
                Result::Err(e) => Result::Err(e),
            },
            0x10 => match self.read_var_u32() {
                Result::Ok(v) => Result::Ok(InstrItem::Instr(Instruction::Call(v))),
                Result::Err(e) => Result::Err(e),
            },
            0x20 => match self.read_var_u32() {
                Result::Ok(v) => Result::Ok(InstrItem::Instr(Instruction::LocalGet(v))),
                Result::Err(e) => Result::Err(e),
            },
            0x21 => match self.read_var_u32() {
                Result::Ok(v) => Result::Ok(InstrItem::Instr(Instruction::LocalSet(v))),
                Result::Err(e) => Result::Err(e),
            },
            0x22 => match self.read_var_u32() {
                Result::Ok(v) => Result::Ok(InstrItem::Instr(Instruction::LocalTee(v))),
                Result::Err(e) => Result::Err(e),
            },
            0x23 => match self.read_var_u32() {
                Result::Ok(v) => Result::Ok(InstrItem::Instr(Instruction::GlobalGet(v))),
                Result::Err(e) => Result::Err(e),
            },
            0x24 => match self.read_var_u32() {
                Result::Ok(v) => Result::Ok(InstrItem::Instr(Instruction::GlobalSet(v))),
                Result::Err(e) => Result::Err(e),
            },
            0x0E => match self.read_br_table_args() {
                Result::Ok(a) => Result::Ok(InstrItem::Instr(Instruction::BrTable(a))),
                Result::Err(e) => Result::Err(e),
            },
            0x0F => Result::Ok(InstrItem::Instr(Instruction::Return)),
            0x11 => match self.read_call_indirect_args() {
                Result::Ok(v) => Result::Ok(InstrItem::Instr(Instruction::CallIndirect(v))),
                Result::Err(e) => Result::Err(e),
            },
            0x28 => match self.read_mem_arg() {
                Result::Ok(a) => Result::Ok(InstrItem::Instr(Instruction::I32Load(a))),
                Result::Err(e) => Result::Err(e),
            },
            0x29 => match self.read_mem_arg() {
                Result::Ok(a) => Result::Ok(InstrItem::Instr(Instruction::I64Load(a))),
                Result::Err(e) => Result::Err(e),
            },
            0x2A => match self.read_mem_arg() {
                Result::Ok(a) => Result::Ok(InstrItem::Instr(Instruction::F32Load(a))),
                Result::Err(e) => Result::Err(e),
            },
            0x2B => match self.read_mem_arg() {
                Result::Ok(a) => Result::Ok(InstrItem::Instr(Instruction::F64Load(a))),
                Result::Err(e) => Result::Err(e),
            },
            0x2C => match self.read_mem_arg() {
                Result::Ok(a) => Result::Ok(InstrItem::Instr(Instruction::I32Load8S(a))),
                Result::Err(e) => Result::Err(e),
            },
            0x2D => match self.read_mem_arg() {
                Result::Ok(a) => Result::Ok(InstrItem::Instr(Instruction::I32Load8U(a))),
                Result::Err(e) => Result::Err(e),
            },
            0x2E => match self.read_mem_arg() {
                Result::Ok(a) => Result::Ok(InstrItem::Instr(Instruction::I32Load16S(a))),
                Result::Err(e) => Result::Err(e),
            },
            0x2F => match self.read_mem_arg() {
                Result::Ok(a) => Result::Ok(InstrItem::Instr(Instruction::I32Load16U(a))),
                Result::Err(e) => Result::Err(e),
            },
            0x30 => match self.read_mem_arg() {
                Result::Ok(a) => Result::Ok(InstrItem::Instr(Instruction::I64Load8S(a))),
                Result::Err(e) => Result::Err(e),
            },
            0x31 => match self.read_mem_arg() {
                Result::Ok(a) => Result::Ok(InstrItem::Instr(Instruction::I64Load8U(a))),
                Result::Err(e) => Result::Err(e),
            },
            0x32 => match self.read_mem_arg() {
                Result::Ok(a) => Result::Ok(InstrItem::Instr(Instruction::I64Load16S(a))),
                Result::Err(e) => Result::Err(e),
            },
            0x33 => match self.read_mem_arg() {
                Result::Ok(a) => Result::Ok(InstrItem::Instr(Instruction::I64Load16U(a))),
                Result::Err(e) => Result::Err(e),
            },
            0x34 => match self.read_mem_arg() {
                Result::Ok(a) => Result::Ok(InstrItem::Instr(Instruction::I64Load32S(a))),
                Result::Err(e) => Result::Err(e),
            },
            0x35 => match self.read_mem_arg() {
                Result::Ok(a) => Result::Ok(InstrItem::Instr(Instruction::I64Load32U(a))),
                Result::Err(e) => Result::Err(e),
            },
            0x36 => match self.read_mem_arg() {
                Result::Ok(a) => Result::Ok(InstrItem::Instr(Instruction::I32Store(a))),
                Result::Err(e) => Result::Err(e),
            },
            0x37 => match self.read_mem_arg() {
                Result::Ok(a) => Result::Ok(InstrItem::Instr(Instruction::I64Store(a))),
                Result::Err(e) => Result::Err(e),
            },
            0x38 => match self.read_mem_arg() {
                Result::Ok(a) => Result::Ok(InstrItem::Instr(Instruction::F32Store(a))),
                Result::Err(e) => Result::Err(e),
            },
            0x39 => match self.read_mem_arg() {
                Result::Ok(a) => Result::Ok(InstrItem::Instr(Instruction::F64Store(a))),
                Result::Err(e) => Result::Err(e),
            },
            0x3A => match self.read_mem_arg() {
                Result::Ok(a) => Result::Ok(InstrItem::Instr(Instruction::I32Store8(a))),
                Result::Err(e) => Result::Err(e),
            },
            0x3B => match self.read_mem_arg() {
                Result::Ok(a) => Result::Ok(InstrItem::Instr(Instruction::I32Store16(a))),
                Result::Err(e) => Result::Err(e),
            },
            0x3C => match self.read_mem_arg() {
                Result::Ok(a) => Result::Ok(InstrItem::Instr(Instruction::I64Store8(a))),
                Result::Err(e) => Result::Err(e),
            },
            0x3D => match self.read_mem_arg() {
                Result::Ok(a) => Result::Ok(InstrItem::Instr(Instruction::I64Store16(a))),
                Result::Err(e) => Result::Err(e),
            },
            0x3E => match self.read_mem_arg() {
                Result::Ok(a) => Result::Ok(InstrItem::Instr(Instruction::I64Store32(a))),
                Result::Err(e) => Result::Err(e),
            },
            0x3F => match self.read_zero() {
                Result::Ok(_) => Result::Ok(InstrItem::Instr(Instruction::MemorySize)),
                Result::Err(e) => Result::Err(e),
            },
            0x40 => match self.read_zero() {
                Result::Ok(_) => Result::Ok(InstrItem::Instr(Instruction::MemoryGrow)),
                Result::Err(e) => Result::Err(e),
            },
            0x41 => match self.read_var_i32() {
                Result::Ok(v) => Result::Ok(InstrItem::Instr(Instruction::I32Const(v))),
                Result::Err(e) => Result::Err(e),
            },
            0x42 => match self.read_var_i64() {
                Result::Ok(v) => Result::Ok(InstrItem::Instr(Instruction::I64Const(v))),
                Result::Err(e) => Result::Err(e),
            },
            0x43 => match self.read_f32_bits() {
                Result::Ok(v) => Result::Ok(InstrItem::Instr(Instruction::F32Const(v))),
                Result::Err(e) => Result::Err(e),
            },
            0x44 => match self.read_f64_bits() {
                Result::Ok(v) => Result::Ok(InstrItem::Instr(Instruction::F64Const(v))),
                Result::Err(e) => Result::Err(e),
            },
            0x1A => Result::Ok(InstrItem::Instr(Instruction::Drop)),
            0x1B => Result::Ok(InstrItem::Instr(Instruction::Select)),
            0x45 => Result::Ok(InstrItem::Instr(Instruction::I32Eqz)),
            0x46 => Result::Ok(InstrItem::Instr(Instruction::I32Eq)),
            0x47 => Result::Ok(InstrItem::Instr(Instruction::I32Ne)),
            0x48 => Result::Ok(InstrItem::Instr(Instruction::I32LtS)),
            0x49 => Result::Ok(InstrItem::Instr(Instruction::I32LtU)),
            0x4A => Result::Ok(InstrItem::Instr(Instruction::I32GtS)),
            0x4B => Result::Ok(InstrItem::Instr(Instruction::I32GtU)),
            0x4C => Result::Ok(InstrItem::Instr(Instruction::I32LeS)),
            0x4D => Result::Ok(InstrItem::Instr(Instruction::I32LeU)),
            0x4E => Result::Ok(InstrItem::Instr(Instruction::I32GeS)),
            0x4F => Result::Ok(InstrItem::Instr(Instruction::I32GeU)),
            0x50 => Result::Ok(InstrItem::Instr(Instruction::I64Eqz)),
            0x51 => Result::Ok(InstrItem::Instr(Instruction::I64Eq)),
            0x52 => Result::Ok(InstrItem::Instr(Instruction::I64Ne)),
            0x53 => Result::Ok(InstrItem::Instr(Instruction::I64LtS)),
            0x54 => Result::Ok(InstrItem::Instr(Instruction::I64LtU)),
            0x55 => Result::Ok(InstrItem::Instr(Instruction::I64GtS)),
            0x56 => Result::Ok(InstrItem::Instr(Instruction::I64GtU)),
            0x57 => Result::Ok(InstrItem::Instr(Instruction::I64LeS)),
            0x58 => Result::Ok(InstrItem::Instr(Instruction::I64LeU)),
            0x59 => Result::Ok(InstrItem::Instr(Instruction::I64GeS)),
            0x5A => Result::Ok(InstrItem::Instr(Instruction::I64GeU)),
            0x5B => Result::Ok(InstrItem::Instr(Instruction::F32Eq)),
            0x5C => Result::Ok(InstrItem::Instr(Instruction::F32Ne)),
            0x5D => Result::Ok(InstrItem::Instr(Instruction::F32Lt)),
            0x5E => Result::Ok(InstrItem::Instr(Instruction::F32Gt)),
            0x5F => Result::Ok(InstrItem::Instr(Instruction::F32Le)),
            0x60 => Result::Ok(InstrItem::Instr(Instruction::F32Ge)),
            0x61 => Result::Ok(InstrItem::Instr(Instruction::F64Eq)),
            0x62 => Result::Ok(InstrItem::Instr(Instruction::F64Ne)),
            0x63 => Result::Ok(InstrItem::Instr(Instruction::F64Lt)),
            0x64 => Result::Ok(InstrItem::Instr(Instruction::F64Gt)),
            0x65 => Result::Ok(InstrItem::Instr(Instruction::F64Le)),
            0x66 => Result::Ok(InstrItem::Instr(Instruction::F64Ge)),
            0x67 => Result::Ok(InstrItem::Instr(Instruction::I32Clz)),
            0x68 => Result::Ok(InstrItem::Instr(Instruction::I32Ctz)),
            0x69 => Result::Ok(InstrItem::Instr(Instruction::I32PopCnt)),
            0x6A => Result::Ok(InstrItem::Instr(Instruction::I32Add)),
            0x6B => Result::Ok(InstrItem::Instr(Instruction::I32Sub)),
            0x6C => Result::Ok(InstrItem::Instr(Instruction::I32Mul)),
            0x6D => Result::Ok(InstrItem::Instr(Instruction::I32DivS)),
            0x6E => Result::Ok(InstrItem::Instr(Instruction::I32DivU)),
            0x6F => Result::Ok(InstrItem::Instr(Instruction::I32RemS)),
            0x70 => Result::Ok(InstrItem::Instr(Instruction::I32RemU)),
            0x71 => Result::Ok(InstrItem::Instr(Instruction::I32And)),
            0x72 => Result::Ok(InstrItem::Instr(Instruction::I32Or)),
            0x73 => Result::Ok(InstrItem::Instr(Instruction::I32Xor)),
            0x74 => Result::Ok(InstrItem::Instr(Instruction::I32Shl)),
            0x75 => Result::Ok(InstrItem::Instr(Instruction::I32ShrS)),
            0x76 => Result::Ok(InstrItem::Instr(Instruction::I32ShrU)),
            0x77 => Result::Ok(InstrItem::Instr(Instruction::I32Rotl)),
            0x78 => Result::Ok(InstrItem::Instr(Instruction::I32Rotr)),
            0x79 => Result::Ok(InstrItem::Instr(Instruction::I64Clz)),
            0x7A => Result::Ok(InstrItem::Instr(Instruction::I64Ctz)),
            0x7B => Result::Ok(InstrItem::Instr(Instruction::I64PopCnt)),
            0x7C => Result::Ok(InstrItem::Instr(Instruction::I64Add)),
            0x7D => Result::Ok(InstrItem::Instr(Instruction::I64Sub)),
            0x7E => Result::Ok(InstrItem::Instr(Instruction::I64Mul)),
            0x7F => Result::Ok(InstrItem::Instr(Instruction::I64DivS)),
            0x80 => Result::Ok(InstrItem::Instr(Instruction::I64DivU)),
            0x81 => Result::Ok(InstrItem::Instr(Instruction::I64RemS)),
            0x82 => Result::Ok(InstrItem::Instr(Instruction::I64RemU)),
            0x83 => Result::Ok(InstrItem::Instr(Instruction::I64And)),
            0x84 => Result::Ok(InstrItem::Instr(Instruction::I64Or)),
            0x85 => Result::Ok(InstrItem::Instr(Instruction::I64Xor)),
            0x86 => Result::Ok(InstrItem::Instr(Instruction::I64Shl)),
            0x87 => Result::Ok(InstrItem::Instr(Instruction::I64ShrS)),
            0x88 => Result::Ok(InstrItem::Instr(Instruction::I64ShrU)),
            0x89 => Result::Ok(InstrItem::Instr(Instruction::I64Rotl)),
            0x8A => Result::Ok(InstrItem::Instr(Instruction::I64Rotr)),
            0x8B => Result::Ok(InstrItem::Instr(Instruction::F32Abs)),
            0x8C => Result::Ok(InstrItem::Instr(Instruction::F32Neg)),
            0x8D => Result::Ok(InstrItem::Instr(Instruction::F32Ceil)),
            0x8E => Result::Ok(InstrItem::Instr(Instruction::F32Floor)),
            0x8F => Result::Ok(InstrItem::Instr(Instruction::F32Trunc)),
            0x90 => Result::Ok(InstrItem::Instr(Instruction::F32Nearest)),
            0x91 => Result::Ok(InstrItem::Instr(Instruction::F32Sqrt)),
            0x92 => Result::Ok(InstrItem::Instr(Instruction::F32Add)),
            0x93 => Result::Ok(InstrItem::Instr(Instruction::F32Sub)),
            0x94 => Result::Ok(InstrItem::Instr(Instruction::F32Mul)),
            0x95 => Result::Ok(InstrItem::Instr(Instruction::F32Div)),
            0x96 => Result::Ok(InstrItem::Instr(Instruction::F32Min)),
            0x97 => Result::Ok(InstrItem::Instr(Instruction::F32Max)),
            0x98 => Result::Ok(InstrItem::Instr(Instruction::F32CopySign)),
            0x99 => Result::Ok(InstrItem::Instr(Instruction::F64Abs)),
            0x9A => Result::Ok(InstrItem::Instr(Instruction::F64Neg)),
            0x9B => Result::Ok(InstrItem::Instr(Instruction::F64Ceil)),
            0x9C => Result::Ok(InstrItem::Instr(Instruction::F64Floor)),
            0x9D => Result::Ok(InstrItem::Instr(Instruction::F64Trunc)),
            0x9E => Result::Ok(InstrItem::Instr(Instruction::F64Nearest)),
            0x9F => Result::Ok(InstrItem::Instr(Instruction::F64Sqrt)),
            0xA0 => Result::Ok(InstrItem::Instr(Instruction::F64Add)),
            0xA1 => Result::Ok(InstrItem::Instr(Instruction::F64Sub)),
            0xA2 => Result::Ok(InstrItem::Instr(Instruction::F64Mul)),
            0xA3 => Result::Ok(InstrItem::Instr(Instruction::F64Div)),
            0xA4 => Result::Ok(InstrItem::Instr(Instruction::F64Min)),
            0xA5 => Result::Ok(InstrItem::Instr(Instruction::F64Max)),
            0xA6 => Result::Ok(InstrItem::Instr(Instruction::F64CopySign)),
            0xA7 => Result::Ok(InstrItem::Instr(Instruction::I32WrapI64)),
            0xA8 => Result::Ok(InstrItem::Instr(Instruction::I32TruncF32S)),
            0xA9 => Result::Ok(InstrItem::Instr(Instruction::I32TruncF32U)),
            0xAA => Result::Ok(InstrItem::Instr(Instruction::I32TruncF64S)),
            0xAB => Result::Ok(InstrItem::Instr(Instruction::I32TruncF64U)),
            0xAC => Result::Ok(InstrItem::Instr(Instruction::I64ExtendI32S)),
            0xAD => Result::Ok(InstrItem::Instr(Instruction::I64ExtendI32U)),
            0xAE => Result::Ok(InstrItem::Instr(Instruction::I64TruncF32S)),
            0xAF => Result::Ok(InstrItem::Instr(Instruction::I64TruncF32U)),
            0xB0 => Result::Ok(InstrItem::Instr(Instruction::I64TruncF64S)),
            0xB1 => Result::Ok(InstrItem::Instr(Instruction::I64TruncF64U)),
            0xB2 => Result::Ok(InstrItem::Instr(Instruction::F32ConvertI32S)),
            0xB3 => Result::Ok(InstrItem::Instr(Instruction::F32ConvertI32U)),
            0xB4 => Result::Ok(InstrItem::Instr(Instruction::F32ConvertI64S)),
            0xB5 => Result::Ok(InstrItem::Instr(Instruction::F32ConvertI64U)),
            0xB6 => Result::Ok(InstrItem::Instr(Instruction::F32DemoteF64)),
            0xB7 => Result::Ok(InstrItem::Instr(Instruction::F64ConvertI32S)),
            0xB8 => Result::Ok(InstrItem::Instr(Instruction::F64ConvertI32U)),
            0xB9 => Result::Ok(InstrItem::Instr(Instruction::F64ConvertI64S)),
            0xBA => Result::Ok(InstrItem::Instr(Instruction::F64ConvertI64U)),
            0xBB => Result::Ok(InstrItem::Instr(Instruction::F64PromoteF32)),
            0xBC => Result::Ok(InstrItem::Instr(Instruction::I32ReinterpretF32)),
            0xBD => Result::Ok(InstrItem::Instr(Instruction::I64ReinterpretF64)),
            0xBE => Result::Ok(InstrItem::Instr(Instruction::F32ReinterpretI32)),
            0xBF => Result::Ok(InstrItem::Instr(Instruction::F64ReinterpretI64)),
            0xC0 => Result::Ok(InstrItem::Instr(Instruction::I32Extend8S)),
            0xC1 => Result::Ok(InstrItem::Instr(Instruction::I32Extend16S)),
            0xC2 => Result::Ok(InstrItem::Instr(Instruction::I64Extend8S)),
            0xC3 => Result::Ok(InstrItem::Instr(Instruction::I64Extend16S)),
            0xC4 => Result::Ok(InstrItem::Instr(Instruction::I64Extend32S)),
            0xFC => match self.read_byte() {
                Result::Ok(sel) => if sel <= 7 {
                    Result::Ok(InstrItem::Instr(Instruction::TruncSat(sel)))
                } else {
                    Result::Err(DecodeError::UnknownOpcode)
                },
                Result::Err(e) => Result::Err(e),
            },
            _ => Result::Err(DecodeError::UnknownOpcode),
        }
    }

    /// Read instructions up to a terminator, which is consumed.
    pub fn read_instructions(&mut self) -> (r: Result<(Vec<Instruction>, Terminator), DecodeError>)
        requires
            old(self).wf(),
        ensures
            final(self).wf(),
            final(self).data@ == old(self).data@,
            old(self).pos <= final(self).pos,
            r is Ok ==> old(self).pos < final(self).pos,
        decreases self.data@.len() - self.pos, 2int,
    {
        let mut instructions: Vec<Instruction> = Vec::new();
        loop
            invariant
                self.wf(),
                self.data@ == old(self).data@,
                old(self).pos <= self.pos,
            decreases self.data@.len() - self.pos,
        {
            let item = match self.read_instruction() {
                Result::Ok(it) => it,
            Result::Err(e) => {
                return Result::Err(e);
            },
            };
            match item {
                InstrItem::End => {
                    return Result::Ok((instructions, Terminator::End));
                },
                InstrItem::Else => {
                    return Result::Ok((instructions, Terminator::Else));
                },
                InstrItem::Instr(ins) => {
                    instructions.push(ins);
                },
            }
        }
    }

    /// Read the immediate of `block` and `loop`: a block type and a body
    /// closed by `end`.
    pub fn read_block_args(&mut self) -> (r: Result<BlockArgs, DecodeError>)
        requires
            old(self).wf(),
        ensures
            final(self).wf(),
            final(self).data@ == old(self).data@,
            old(self).pos <= final(self).pos,
            r is Ok ==> old(self).pos < final(self).pos,
        decreases self.data@.len() - self.pos, 0int,
    {
        let block_type = match self.read_block_type() {
            Result::Ok(v) => v,
            Result::Err(e) => {
                return Result::Err(e);
            },
        };
        let (instructions, end) = match self.read_instructions() {
            Result::Ok(p) => p,
            Result::Err(e) => {
                return Result::Err(e);
            },
        };
        match end {
            Terminator::End => Result::Ok(
                BlockArgs { block_type, instructions: Rc::new(instructions) },
            ),
            Terminator::Else => Result::Err(DecodeError::InvalidBlockEnd),
        }
    }

    /// Read the immediate of `if`: a block type, a consequent body, and an
    /// alternative body when an `else` arm is present.
    pub fn read_if_args(&mut self) -> (r: Result<IfArgs, DecodeError>)
        requires
            old(self).wf(),
        ensures
            final(self).wf(),
            final(self).data@ == old(self).data@,
            old(self).pos <= final(self).pos,
            r is Ok ==> old(self).pos < final(self).pos,
        decreases self.data@.len() - self.pos, 0int,
    {
        let block_type = match self.read_block_type() {
            Result::Ok(v) => v,
            Result::Err(e) => {
                return Result::Err(e);
            },
        };
        let (instructions_1, end) = match self.read_instructions() {
            Result::Ok(p) => p,
            Result::Err(e) => {
                return Result::Err(e);
            },
        };
        let instructions_2: Vec<Instruction> = match end {
            Terminator::Else => {
                let (i2, end2) = match self.read_instructions() {
                    Result::Ok(p) => p,
            Result::Err(e) => {
                return Result::Err(e);
            },
                };
                match end2 {
                    Terminator::End => i2,
                    Terminator::Else => {
                        return Result::Err(DecodeError::InvalidBlockEnd);
                    },
                }
            },
            Terminator::End => Vec::new(),
        };
        Result::Ok(
            IfArgs {
                block_type,
                instructions_1: Rc::new(instructions_1),
                instructions_2: Rc::new(instructions_2),
            },
        )
    }

    /// Read an expression: instructions closed by `end`.
    pub fn read_expr(&mut self) -> (r: Result<Expr, DecodeError>)
        requires
            old(self).wf(),
        ensures
            final(self).wf(),
            final(self).data@ == old(self).data@,
            old(self).pos <= final(self).pos,
            r is Ok ==> old(self).pos < final(self).pos,
    {
        let (instructions, end) = match self.read_instructions() {
            Result::Ok(p) => p,
            Result::Err(e) => {
                return Result::Err(e);
            },
        };
        match end {
            Terminator::End => Result::Ok(Rc::new(instructions)),
            Terminator::Else => Result::Err(DecodeError::InvalidBlockEnd),
        }
    }

    /// Read one run of locals: a count and a shared value type.
    pub fn read_locals(&mut self) -> (r: Result<Locals, DecodeError>)
        requires
            old(self).wf(),
        ensures
            final(self).wf(),
            final(self).data@ == old(self).data@,
            old(self).pos <= final(self).pos,
            r is Ok ==> old(self).pos < final(self).pos,
    {
        let n = match self.read_var_u32() {
            Result::Ok(v) => v,
            Result::Err(e) => {
                return Result::Err(e);
            },
        };
        let val_type = match self.read_val_type() {
            Result::Ok(v) => v,
            Result::Err(e) => {
                return Result::Err(e);
            },
        };
        Result::Ok(Locals { n, val_type })
    }

    /// Read a count-prefixed vector of local runs.
    pub fn read_locals_vec(&mut self) -> (r: Result<Vec<Locals>, DecodeError>)
        requires
            old(self).wf(),
        ensures
            final(self).wf(),
            final(self).data@ == old(self).data@,
            old(self).pos <= final(self).pos,
    {
        let n = match self.read_var_u32() {
            Result::Ok(v) => v,
            Result::Err(e) => {
                return Result::Err(e);
            },
        };
        let mut result: Vec<Locals> = Vec::new();
        let mut i: u32 = 0;
        while i < n
            invariant
                self.wf(),
                self.data@ == old(self).data@,
                old(self).pos <= self.pos,
            decreases n - i,
        {
            let l = match self.read_locals() {
                Result::Ok(v) => v,
            Result::Err(e) => {
                return Result::Err(e);
            },
            };
            result.push(l);
            i = i + 1;
        }
        Result::Ok(result)
    }

    /// Read one code entry: a length-prefixed body holding the local runs
    /// and the expression; a total local count that cannot fit in 32 bits is
    /// refused.
    pub fn read_code(&mut self) -> (r: Result<Code, DecodeError>)
        requires
            old(self).wf(),
        ensures
            final(self).wf(),
            final(self).data@ == old(self).data@,
            old(self).pos <= final(self).pos,
            r is Ok ==> old(self).pos < final(self).pos,
    {
        let code_data = match self.read_bytes() {
            Result::Ok(v) => v,
            Result::Err(e) => {
                return Result::Err(e);
            },
        };
        let mut code_reader = WasmReader::new(code_data.as_slice());
        let locals = match code_reader.read_locals_vec() {
            Result::Ok(v) => v,
            Result::Err(e) => {
                return Result::Err(e);
            },
        };
        let expr = match code_reader.read_expr() {
            Result::Ok(v) => v,
            Result::Err(e) => {
                return Result::Err(e);
            },
        };
        let code = Code { locals, expr };
        if code.get_local_count() >= 0xFFFF_FFFFu64 {
            return Result::Err(DecodeError::LocalCountOverflow);
        }
        Result::Ok(code)
    }

    /// Read a custom section: its name and its uninterpreted payload.
    pub fn read_custom_sec(&mut self) -> (r: Result<CustomSec, DecodeError>)
        requires
            old(self).wf(),
        ensures
            final(self).wf(),
            final(self).data@ == old(self).data@,
            old(self).pos <= final(self).pos,
            r is Ok ==> old(self).pos < final(self).pos,
    {
        let data = match self.read_bytes() {
            Result::Ok(v) => v,
            Result::Err(e) => {
                return Result::Err(e);
            },
        };
        let mut reader = WasmReader::new(data.as_slice());
        let name = match reader.read_name() {
            Result::Ok(v) => v,
            Result::Err(e) => {
                return Result::Err(e);
            },
        };
        let bytes = slice_to_vec(slice_subrange(reader.data, reader.pos, reader.data.len()));
        Result::Ok(CustomSec { name, bytes })
    }

    /// Read one element segment.
    pub fn read_elem(&mut self) -> (r: Result<Elem, DecodeError>)
        requires
            old(self).wf(),
        ensures
            final(self).wf(),
            final(self).data@ == old(self).data@,
            old(self).pos <= final(self).pos,
            r is Ok ==> old(self).pos < final(self).pos,
    {
        let table = match self.read_var_u32() {
            Result::Ok(v) => v,
            Result::Err(e) => {
                return Result::Err(e);
            },
        };
        let offset = match self.read_expr() {
            Result::Ok(v) => v,
            Result::Err(e) => {
                return Result::Err(e);
            },
        };
        let init = match self.read_indices() {
            Result::Ok(v) => v,
            Result::Err(e) => {
                return Result::Err(e);
            },
        };
        Result::Ok(Elem { table, offset, init })
    }

    /// Read one data segment.
    pub fn read_data(&mut self) -> (r: Result<Data, DecodeError>)
        requires
            old(self).wf(),
        ensures
            final(self).wf(),
            final(self).data@ == old(self).data@,
            old(self).pos <= final(self).pos,
            r is Ok ==> old(self).pos < final(self).pos,
    {
        let mem = match self.read_var_u32() {
            Result::Ok(v) => v,
            Result::Err(e) => {
                return Result::Err(e);
            },
        };
        let offset = match self.read_expr() {
            Result::Ok(v) => v,
            Result::Err(e) => {
                return Result::Err(e);
            },
        };
        let init = match self.read_bytes() {
            Result::Ok(v) => v,
            Result::Err(e) => {
                return Result::Err(e);
            },
        };
        Result::Ok(Data { mem, offset, init })
    }

    /// Decode the type section.
    pub fn read_type_sec(&mut self) -> (r: Result<Vec<FuncType>, DecodeError>)
        requires
            old(self).wf(),
        ensures
            final(self).wf(),
            final(self).data@ == old(self).data@,
            old(self).pos <= final(self).pos,
    {
        let n = match self.read_var_u32() {
            Result::Ok(v) => v,
            Result::Err(e) => {
                return Result::Err(e);
            },
        };
        let mut result: Vec<FuncType> = Vec::new();
        let mut i: u32 = 0;
        while i < n
            invariant
                self.wf(),
                self.data@ == old(self).data@,
                old(self).pos <= self.pos,
            decreases n - i,
        {
            let item = match self.read_func_type() {
                Result::Ok(v) => v,
            Result::Err(e) => {
                return Result::Err(e);
            },
            };
            result.push(item);
            i = i + 1;
        }
        Result::Ok(result)
    }

    /// Decode the import section.
    pub fn read_import_sec(&mut self) -> (r: Result<Vec<Import>, DecodeError>)
        requires
            old(self).wf(),
        ensures
            final(self).wf(),
            final(self).data@ == old(self).data@,
            old(self).pos <= final(self).pos,
    {
        let n = match self.read_var_u32() {
            Result::Ok(v) => v,
            Result::Err(e) => {
                return Result::Err(e);
            },
        };
        let mut result: Vec<Import> = Vec::new();
        let mut i: u32 = 0;
        while i < n
            invariant
                self.wf(),
                self.data@ == old(self).data@,
                old(self).pos <= self.pos,
            decreases n - i,
        {
            let item = match self.read_import() {
                Result::Ok(v) => v,
            Result::Err(e) => {
                return Result::Err(e);
            },
            };
            result.push(item);
            i = i + 1;
        }
        Result::Ok(result)
    }

    /// Decode the table section.
    pub fn read_table_sec(&mut self) -> (r: Result<Vec<TableType>, DecodeError>)
        requires
            old(self).wf(),
        ensures
            final(self).wf(),
            final(self).data@ == old(self).data@,
            old(self).pos <= final(self).pos,
    {
        let n = match self.read_var_u32() {
            Result::Ok(v) => v,
            Result::Err(e) => {
                return Result::Err(e);
            },
        };
        let mut result: Vec<TableType> = Vec::new();
        let mut i: u32 = 0;
        while i < n
            invariant
                self.wf(),
                self.data@ == old(self).data@,
                old(self).pos <= self.pos,
            decreases n - i,
        {
            let item = match self.read_table_type() {
                Result::Ok(v) => v,
            Result::Err(e) => {
                return Result::Err(e);
            },
            };
            result.push(item);
            i = i + 1;
        }
        Result::Ok(result)
    }

    /// Decode the memory section.
    pub fn read_mem_sec(&mut self) -> (r: Result<Vec<Limits>, DecodeError>)
        requires
            old(self).wf(),
        ensures
            final(self).wf(),
            final(self).data@ == old(self).data@,
            old(self).pos <= final(self).pos,
    {
        let n = match self.read_var_u32() {
            Result::Ok(v) => v,
            Result::Err(e) => {
                return Result::Err(e);
            },
        };
        let mut result: Vec<Limits> = Vec::new();
        let mut i: u32 = 0;
        while i < n
            invariant
                self.wf(),
                self.data@ == old(self).data@,
                old(self).pos <= self.pos,
            decreases n - i,
        {
            let item = match self.read_limits() {
                Result::Ok(v) => v,
            Result::Err(e) => {
                return Result::Err(e);
            },
            };
            result.push(item);
            i = i + 1;
        }
        Result::Ok(result)
    }

    /// Decode the export section.
    pub fn read_export_sec(&mut self) -> (r: Result<Vec<Export>, DecodeError>)
        requires
            old(self).wf(),
        ensures
            final(self).wf(),
            final(self).data@ == old(self).data@,
            old(self).pos <= final(self).pos,
    {
        let n = match self.read_var_u32() {
            Result::Ok(v) => v,
            Result::Err(e) => {
                return Result::Err(e);
            },
        };
        let mut result: Vec<Export> = Vec::new();
        let mut i: u32 = 0;
        while i < n
            invariant
                self.wf(),
                self.data@ == old(self).data@,
                old(self).pos <= self.pos,
            decreases n - i,
        {
            let item = match self.read_export() {
                Result::Ok(v) => v,
            Result::Err(e) => {
                return Result::Err(e);
            },
            };
            result.push(item);
            i = i + 1;
        }
        Result::Ok(result)
    }

    /// Decode the element section.
    pub fn read_elem_sec(&mut self) -> (r: Result<Vec<Elem>, DecodeError>)
        requires
            old(self).wf(),
        ensures
            final(self).wf(),
            final(self).data@ == old(self).data@,
            old(self).pos <= final(self).pos,
    {
        let n = match self.read_var_u32() {
            Result::Ok(v) => v,
            Result::Err(e) => {
                return Result::Err(e);
            },
        };
        let mut result: Vec<Elem> = Vec::new();
        let mut i: u32 = 0;
        while i < n
            invariant
                self.wf(),
                self.data@ == old(self).data@,
                old(self).pos <= self.pos,
            decreases n - i,
        {
            let item = match self.read_elem() {
                Result::Ok(v) => v,
            Result::Err(e) => {
                return Result::Err(e);
            },
            };
            result.push(item);
            i = i + 1;
        }
        Result::Ok(result)
    }

    /// Decode the code section.
    pub fn read_code_sec(&mut self) -> (r: Result<Vec<Code>, DecodeError>)
        requires
            old(self).wf(),
        ensures
            final(self).wf(),
            final(self).data@ == old(self).data@,
            old(self).pos <= final(self).pos,
    {
        let n = match self.read_var_u32() {
            Result::Ok(v) => v,
            Result::Err(e) => {
                return Result::Err(e);
            },
        };
        let mut result: Vec<Code> = Vec::new();
        let mut i: u32 = 0;
        while i < n
            invariant
                self.wf(),
                self.data@ == old(self).data@,
                old(self).pos <= self.pos,
            decreases n - i,
        {
            let item = match self.read_code() {
                Result::Ok(v) => v,
            Result::Err(e) => {
                return Result::Err(e);
            },
            };
            result.push(item);
            i = i + 1;
        }
        Result::Ok(result)
    }

    /// Decode the data section.
    pub fn read_data_sec(&mut self) -> (r: Result<Vec<Data>, DecodeError>)
        requires
            old(self).wf(),
        ensures
            final(self).wf(),
            final(self).data@ == old(self).data@,
            old(self).pos <= final(self).pos,
    {
        let n = match self.read_var_u32() {
            Result::Ok(v) => v,
            Result::Err(e) => {
                return Result::Err(e);
            },
        };
        let mut result: Vec<Data> = Vec::new();
        let mut i: u32 = 0;
        while i < n
            invariant
                self.wf(),
                self.data@ == old(self).data@,
                old(self).pos <= self.pos,
            decreases n - i,
        {
            let item = match self.read_data() {
                Result::Ok(v) => v,
            Result::Err(e) => {
                return Result::Err(e);
            },
            };
            result.push(item);
            i = i + 1;
        }
        Result::Ok(result)
    }

    /// Decode the function section: type indices of the internal functions.
    pub fn read_func_sec(&mut self) -> (r: Result<Vec<u32>, DecodeError>)
        requires
            old(self).wf(),
        ensures
            final(self).wf(),
            final(self).data@ == old(self).data@,
            old(self).pos <= final(self).pos,
    {
        self.read_indices()
    }

    /// Decode the global section.
    pub fn read_global_sec(&mut self) -> (r: Result<Vec<Global>, DecodeError>)
        requires
            old(self).wf(),
        ensures
            final(self).wf(),
            final(self).data@ == old(self).data@,
            old(self).pos <= final(self).pos,
    {
        let n = match self.read_var_u32() {
            Result::Ok(v) => v,
            Result::Err(e) => {
                return Result::Err(e);
            },
        };
        let mut result: Vec<Global> = Vec::new();
        let mut i: u32 = 0;
        while i < n
            invariant
                self.wf(),
                self.data@ == old(self).data@,
                old(self).pos <= self.pos,
            decreases n - i,
        {
            let global_type = match self.read_global_type() {
                Result::Ok(v) => v,
            Result::Err(e) => {
                return Result::Err(e);
            },
            };
            let init_expr = match self.read_expr() {
                Result::Ok(v) => v,
            Result::Err(e) => {
                return Result::Err(e);
            },
            };
            result.push(Global { global_type, init_expr });
            i = i + 1;
        }
        Result::Ok(result)
    }

    /// Decode the start section: the start function's index.
    pub fn read_start_sec(&mut self) -> (r: Result<Option<u32>, DecodeError>)
        requires
            old(self).wf(),
        ensures
            final(self).wf(),
            final(self).data@ == old(self).data@,
            old(self).pos <= final(self).pos,
    {
        match self.read_var_u32() {
            Result::Ok(v) => Result::Ok(Option::Some(v)),
            Result::Err(e) => Result::Err(e),
        }
    }

    /// Decode one non-custom section into the module by its id.
    pub fn read_non_custom_sec(&mut self, sec_id: u8, module: &mut Module) -> (r: Result<
        (),
        DecodeError,
    >)
        requires
            old(self).wf(),
            1 <= sec_id <= 11,
        ensures
            final(self).wf(),
            final(self).data@ == old(self).data@,
            old(self).pos <= final(self).pos,
            final(module).magic == old(module).magic,
            final(module).version == old(module).version,
    {
        if sec_id == 1 {
            module.type_sec = match self.read_type_sec() {
                Result::Ok(v) => v,
            Result::Err(e) => {
                return Result::Err(e);
            },
            };
        } else if sec_id == 2 {
            module.import_sec = match self.read_import_sec() {
                Result::Ok(v) => v,
            Result::Err(e) => {
                return Result::Err(e);
            },
            };
        } else if sec_id == 3 {
            module.func_sec = match self.read_func_sec() {
                Result::Ok(v) => v,
            Result::Err(e) => {
                return Result::Err(e);
            },
            };
        } else if sec_id == 4 {
            module.table_sec = match self.read_table_sec() {
                Result::Ok(v) => v,
            Result::Err(e) => {
                return Result::Err(e);
            },
            };
        } else if sec_id == 5 {
            module.mem_sec = match self.read_mem_sec() {
                Result::Ok(v) => v,
            Result::Err(e) => {
                return Result::Err(e);
            },
            };
        } else if sec_id == 6 {
            module.global_sec = match self.read_global_sec() {
                Result::Ok(v) => v,
            Result::Err(e) => {
                return Result::Err(e);
            },
            };
        } else if sec_id == 7 {
            module.export_sec = match self.read_export_sec() {
                Result::Ok(v) => v,
            Result::Err(e) => {
                return Result::Err(e);
            },
            };
        } else if sec_id == 8 {
            module.start_sec = match self.read_start_sec() {
                Result::Ok(v) => v,
            Result::Err(e) => {
                return Result::Err(e);
            },
            };
        } else if sec_id == 9 {
            module.elem_sec = match self.read_elem_sec() {
                Result::Ok(v) => v,
            Result::Err(e) => {
                return Result::Err(e);
            },
            };
        } else if sec_id == 10 {
            module.code_sec = match self.read_code_sec() {
                Result::Ok(v) => v,
            Result::Err(e) => {
                return Result::Err(e);
            },
            };
        } else {
            module.data_sec = match self.read_data_sec() {
                Result::Ok(v) => v,
            Result::Err(e) => {
                return Result::Err(e);
            },
            };
        }
        Result::Ok(())
    }

    /// Walk the sections: custom sections may appear anywhere, the others
    /// must come in strictly ascending id order and must consume exactly
    /// their declared length.
    pub fn read_sections(&mut self, module: &mut Module) -> (r: Result<(), DecodeError>)
        requires
            old(self).wf(),
        ensures
            final(self).wf(),
            final(self).data@ == old(self).data@,
            old(self).pos <= final(self).pos,
            final(module).magic == old(module).magic,
            final(module).version == old(module).version,
    {
        let mut prev_sec_id: u8 = 0;
        while self.remaining() > 0
            invariant
                self.wf(),
                self.data@ == old(self).data@,
                old(self).pos <= self.pos,
                module.magic == old(module).magic,
                module.version == old(module).version,
            decreases self.data@.len() - self.pos,
        {
            let sec_id = match self.read_byte() {
                Result::Ok(v) => v,
            Result::Err(e) => {
                return Result::Err(e);
            },
            };
            if sec_id == 0 {
                let sec = match self.read_custom_sec() {
                    Result::Ok(v) => v,
            Result::Err(e) => {
                return Result::Err(e);
            },
                };
                module.custom_sec.push(sec);
                continue ;
            }
            if sec_id > 11 || sec_id <= prev_sec_id {
                return Result::Err(DecodeError::InvalidSectionId);
            }
            prev_sec_id = sec_id;
            let sec_len = match self.read_var_u32() {
                Result::Ok(v) => v,
            Result::Err(e) => {
                return Result::Err(e);
            },
            };
            let before = self.remaining();
            let res = self.read_non_custom_sec(sec_id, module);
            match res {
                Result::Ok(()) => {},
            Result::Err(e) => {
                return Result::Err(e);
            },
            }
            let after = self.remaining();
            if (before - after) as u64 != sec_len as u64 {
                return Result::Err(DecodeError::SectionLengthMismatch);
            }
        }
        Result::Ok(())
    }

    /// Decode a whole module: the magic header and version, then the
    /// sections.
    pub fn read_module(&mut self) -> (r: Result<Module, DecodeError>)
        requires
            old(self).wf(),
        ensures
            final(self).wf(),
            final(self).data@ == old(self).data@,
            old(self).pos <= final(self).pos,
            r matches Ok(m) ==> m.magic == 0x6d736100 && m.version == 1,
    {
        let magic = match self.read_u32() {
            Result::Ok(v) => v,
            Result::Err(e) => {
                return Result::Err(e);
            },
        };
        if magic != 0x6d736100 {
            return Result::Err(DecodeError::InvalidMagic);
        }
        let version = match self.read_u32() {
            Result::Ok(v) => v,
            Result::Err(e) => {
                return Result::Err(e);
            },
        };
        if version != 1 {
            return Result::Err(DecodeError::InvalidVersion);
        }
        let mut module = Module {
            magic,
            version,
            custom_sec: Vec::new(),
            type_sec: Vec::new(),
            import_sec: Vec::new(),
            func_sec: Vec::new(),
            table_sec: Vec::new(),
            mem_sec: Vec::new(),
            global_sec: Vec::new(),
            export_sec: Vec::new(),
            start_sec: Option::None,
            elem_sec: Vec::new(),
            code_sec: Vec::new(),
            data_sec: Vec::new(),
        };
        let res = self.read_sections(&mut module);
        match res {
            Result::Ok(()) => Result::Ok(module),
            Result::Err(e) => Result::Err(e),
        }
    }

    /// Decode a byte string into a module, consuming it entirely.
    pub fn decode(data: &[u8]) -> (r: Result<Module, DecodeError>)
        ensures
            r matches Ok(m) ==> m.magic == 0x6d736100 && m.version == 1,
    {
        let mut reader = WasmReader::new(data);
        reader.read_module()
    }
}

} // verus!
