//! Numeric instruction handlers: constants, tests, comparisons, integer and
//! float arithmetic, and conversions.
//!
//! Every integer handler pins the exact result value; float handlers pin the
//! stack shape and tie the pushed value to the host float unit's verdict.

use vstd::prelude::*;

use vstd::std_specs::bits::{
    u32_leading_zeros, u32_trailing_zeros, u64_leading_zeros, u64_trailing_zeros,
};

use crate::error::{Fault, Trap};
use crate::vm::{
    spec_float_binop_result, spec_float_cmp_result, spec_float_unop_result, spec_float_unit_total,
    spec_trunc_sat_result, FloatOp, VM,
};

verus! {

/// Number of set bits in a 64-bit value.
pub open spec fn spec_popcnt(v: u64) -> int
    decreases v,
{
    if v == 0 {
        0
    } else {
        (v % 2) as int + spec_popcnt(v / 2)
    }
}

/// Relies on u32::count_ones: the number of set bits.
pub assume_specification[ u32::count_ones ](x: u32) -> (r: u32)
    ensures
        r == spec_popcnt(x as u64),
;

/// Relies on u64::count_ones: the number of set bits.
pub assume_specification[ u64::count_ones ](x: u64) -> (r: u32)
    ensures
        r == spec_popcnt(x),
;

/// Left rotation of a 32-bit value; the amount counts modulo 32.
pub open spec fn spec_rotl32(v: u32, amt: u32) -> u32 {
    let k = amt % 32;
    if k == 0 {
        v
    } else {
        (v << k) | (v >> (32 - k))
    }
}

/// Right rotation of a 32-bit value; the amount counts modulo 32.
pub open spec fn spec_rotr32(v: u32, amt: u32) -> u32 {
    let k = amt % 32;
    if k == 0 {
        v
    } else {
        (v >> k) | (v << (32 - k))
    }
}

/// Left rotation of a 64-bit value; the amount counts modulo 64.
pub open spec fn spec_rotl64(v: u64, amt: u64) -> u64 {
    let k = amt % 64;
    if k == 0 {
        v
    } else {
        (v << k) | (v >> (64 - k))
    }
}

/// Right rotation of a 64-bit value; the amount counts modulo 64.
pub open spec fn spec_rotr64(v: u64, amt: u64) -> u64 {
    let k = amt % 64;
    if k == 0 {
        v
    } else {
        (v >> k) | (v << (64 - k))
    }
}

/// 32-bit shift left; the amount counts modulo 32.
pub open spec fn spec_shl32(v: u32, amt: u32) -> u32 {
    v << (amt % 32)
}

/// Arithmetic 32-bit shift right; the amount counts modulo 32.
pub open spec fn spec_shr_s32(v: u32, amt: u32) -> u32 {
    ((v as i32) >> (amt % 32)) as u32
}

/// Logical 32-bit shift right; the amount counts modulo 32.
pub open spec fn spec_shr_u32(v: u32, amt: u32) -> u32 {
    v >> (amt % 32)
}

/// 64-bit shift left; the amount counts modulo 64.
pub open spec fn spec_shl64(v: u64, amt: u64) -> u64 {
    v << (amt % 64)
}

/// Arithmetic 64-bit shift right; the amount counts modulo 64.
pub open spec fn spec_shr_s64(v: u64, amt: u64) -> u64 {
    ((v as i64) >> (amt % 64)) as u64
}

/// Logical 64-bit shift right; the amount counts modulo 64.
pub open spec fn spec_shr_u64(v: u64, amt: u64) -> u64 {
    v >> (amt % 64)
}

/// Result shape of a two-operand handler: on success the two top slots are
/// replaced by `f` of them; the only failure is an operand-stack underflow,
/// which leaves the stack as it was.
pub open spec fn spec_binop_result(
    a: &VM,
    b: &VM,
    r: Result<(), Fault>,
    f: spec_fn(u64, u64) -> u64,
) -> bool {
    let s = a.operand_stack@;
    let n = s.len() as int;
    match r {
        Ok(()) => a.spec_avail() >= 2 && b.operand_stack@ == s.take(n - 2).push(
            f(s[n - 2], s[n - 1]),
        ),
        Err(e) => e == Fault::StackUnderflow && a.spec_avail() < 2 && b.operand_stack@ == s,
    }
}

/// Result shape of a one-operand handler: on success the top slot is
/// replaced by `f` of it.
pub open spec fn spec_unop_result(
    a: &VM,
    b: &VM,
    r: Result<(), Fault>,
    f: spec_fn(u64) -> u64,
) -> bool {
    let s = a.operand_stack@;
    match r {
        Ok(()) => a.spec_avail() >= 1 && b.operand_stack@ == s.drop_last().push(f(s.last())),
        Err(e) => e == Fault::StackUnderflow && a.spec_avail() < 1 && b.operand_stack@ == s,
    }
}

/// Result shape of a two-operand comparison: on success the two top slots
/// are replaced by 1 or 0 as `f` holds of them or not.
pub open spec fn spec_cmp_result(
    a: &VM,
    b: &VM,
    r: Result<(), Fault>,
    f: spec_fn(u64, u64) -> bool,
) -> bool {
    let s = a.operand_stack@;
    let n = s.len() as int;
    match r {
        Ok(()) => a.spec_avail() >= 2 && b.operand_stack@ == s.take(n - 2).push(
            if f(s[n - 2], s[n - 1]) {
                1u64
            } else {
                0u64
            },
        ),
        Err(e) => e == Fault::StackUnderflow && a.spec_avail() < 2 && b.operand_stack@ == s,
    }
}

/// Result shape of a one-operand test: on success the top slot is replaced
/// by 1 or 0 as `f` holds of it or not.
pub open spec fn spec_test_result(
    a: &VM,
    b: &VM,
    r: Result<(), Fault>,
    f: spec_fn(u64) -> bool,
) -> bool {
    let s = a.operand_stack@;
    match r {
        Ok(()) => a.spec_avail() >= 1 && b.operand_stack@ == s.drop_last().push(
            if f(s.last()) {
                1u64
            } else {
                0u64
            },
        ),
        Err(e) => e == Fault::StackUnderflow && a.spec_avail() < 1 && b.operand_stack@ == s,
    }
}

/// Truncating signed division stays within an `n`-bit two's-complement
/// range except at the most negative value divided by minus one.
proof fn lemma_div_in_range(x: int, d: int, min: int, max: int)
    requires
        min < 0,
        max == -min - 1,
        min <= x <= max,
        min <= d <= max,
        d != 0,
        !(x == min && d == -1),
    ensures
        ({
            let output = if x == 0 {
                0
            } else if x > 0 && d > 0 {
                x / d
            } else if x < 0 && d < 0 {
                ((x * -1) / (d * -1))
            } else if x < 0 {
                ((x * -1) / d) * -1
            } else {
                (x / (d * -1)) * -1
            };
            min <= output <= max
        }),
{
    if x == 0 {
    } else if x > 0 && d > 0 {
        vstd::arithmetic::div_mod::lemma_div_pos_is_pos(x, d);
        vstd::arithmetic::div_mod::lemma_div_nonincreasing(x, d);
    } else if x < 0 && d < 0 {
        let nx = x * -1;
        let nd = d * -1;
        vstd::arithmetic::div_mod::lemma_div_pos_is_pos(nx, nd);
        if d == -1 {
            vstd::arithmetic::div_mod::lemma_fundamental_div_mod(nx, 1);
        } else {
            vstd::arithmetic::div_mod::lemma_div_is_ordered_by_denominator(nx, 2, nd);
            vstd::arithmetic::div_mod::lemma_div_is_ordered(nx, -min, 2);
            vstd::arithmetic::div_mod::lemma_div_is_ordered(-min, 2 * max, 2);
            vstd::arithmetic::div_mod::lemma_div_by_multiple(max, 2);
            assert(max * 2 == 2 * max);
        }
    } else if x < 0 {
        let nx = x * -1;
        vstd::arithmetic::div_mod::lemma_div_pos_is_pos(nx, d);
        vstd::arithmetic::div_mod::lemma_div_nonincreasing(nx, d);
    } else {
        let nd = d * -1;
        vstd::arithmetic::div_mod::lemma_div_pos_is_pos(x, nd);
        vstd::arithmetic::div_mod::lemma_div_nonincreasing(x, nd);
    }
}

/// The contract of the `i32_divs` handler, as a relation between the
/// engine before and after it.
pub open spec fn spec_i32_divs_result(a: &VM, b: &VM, r: Result<(), Fault>) -> bool {
    ({
                let s = a.operand_stack@;
                let n = s.len() as int;
                let x = (s[n - 2] as u32) as i32;
                let y = (s[n - 1] as u32) as i32;
                match r {
                    Ok(()) => a.spec_avail() >= 2 && y != 0 && !(x == i32::MIN && y == -1)
                        && b.operand_stack@ == s.take(n - 2).push((((x.checked_div(y))->Some_0 as u32) as u64)),
                    Err(e) => (e == Fault::StackUnderflow && a.spec_avail() < 2
                        && b.operand_stack@ == s) || (e == Fault::Trap(
                        Trap::DivideByZero,
                    ) && a.spec_avail() >= 2 && y == 0 && b.operand_stack@
                        == s.take(n - 2)) || (e == Fault::Trap(Trap::IntegerOverflow) && a.spec_avail() >= 2 && x == i32::MIN && y == -1 && b.operand_stack@
                        == s.take(n - 2)),
                }
    })
}

/// The contract of the `i32_divu` handler, as a relation between the
/// engine before and after it.
pub open spec fn spec_i32_divu_result(a: &VM, b: &VM, r: Result<(), Fault>) -> bool {
    ({
                let s = a.operand_stack@;
                let n = s.len() as int;
                match r {
                    Ok(()) => a.spec_avail() >= 2 && s[n - 1] as u32 != 0 && b.operand_stack@ == s.take(n - 2).push((((s[n - 2] as u32) / (s[n - 1] as u32)) as u64)),
                    Err(e) => (e == Fault::StackUnderflow && a.spec_avail() < 2
                        && b.operand_stack@ == s) || (e == Fault::Trap(
                        Trap::DivideByZero,
                    ) && a.spec_avail() >= 2 && s[n - 1] as u32 == 0 && b.operand_stack@
                        == s.take(n - 2)),
                }
    })
}

/// The contract of the `i32_rems` handler, as a relation between the
/// engine before and after it.
pub open spec fn spec_i32_rems_result(a: &VM, b: &VM, r: Result<(), Fault>) -> bool {
    ({
                let s = a.operand_stack@;
                let n = s.len() as int;
                let x = (s[n - 2] as u32) as i32;
                let y = (s[n - 1] as u32) as i32;
                match r {
                    Ok(()) => a.spec_avail() >= 2 && y != 0 && !(x == i32::MIN && y == -1)
                        && b.operand_stack@ == s.take(n - 2).push((((x.checked_rem(y))->Some_0 as u32) as u64)),
                    Err(e) => (e == Fault::StackUnderflow && a.spec_avail() < 2
                        && b.operand_stack@ == s) || (e == Fault::Trap(
                        Trap::DivideByZero,
                    ) && a.spec_avail() >= 2 && y == 0 && b.operand_stack@
                        == s.take(n - 2)) || (e == Fault::Trap(Trap::IntegerOverflow) && a.spec_avail() >= 2 && x == i32::MIN && y == -1 && b.operand_stack@
                        == s.take(n - 2)),
                }
    })
}

/// The contract of the `i32_remu` handler, as a relation between the
/// engine before and after it.
pub open spec fn spec_i32_remu_result(a: &VM, b: &VM, r: Result<(), Fault>) -> bool {
    ({
                let s = a.operand_stack@;
                let n = s.len() as int;
                match r {
                    Ok(()) => a.spec_avail() >= 2 && s[n - 1] as u32 != 0 && b.operand_stack@ == s.take(n - 2).push((((s[n - 2] as u32) % (s[n - 1] as u32)) as u64)),
                    Err(e) => (e == Fault::StackUnderflow && a.spec_avail() < 2
                        && b.operand_stack@ == s) || (e == Fault::Trap(
                        Trap::DivideByZero,
                    ) && a.spec_avail() >= 2 && s[n - 1] as u32 == 0 && b.operand_stack@
                        == s.take(n - 2)),
                }
    })
}

/// The contract of the `i64_divs` handler, as a relation between the
/// engine before and after it.
pub open spec fn spec_i64_divs_result(a: &VM, b: &VM, r: Result<(), Fault>) -> bool {
    ({
                let s = a.operand_stack@;
                let n = s.len() as int;
                let x = s[n - 2] as i64;
                let y = s[n - 1] as i64;
                match r {
                    Ok(()) => a.spec_avail() >= 2 && y != 0 && !(x == i64::MIN && y == -1)
                        && b.operand_stack@ == s.take(n - 2).push((((x.checked_div(y))->Some_0) as u64)),
                    Err(e) => (e == Fault::StackUnderflow && a.spec_avail() < 2
                        && b.operand_stack@ == s) || (e == Fault::Trap(
                        Trap::DivideByZero,
                    ) && a.spec_avail() >= 2 && y == 0 && b.operand_stack@
                        == s.take(n - 2)) || (e == Fault::Trap(Trap::IntegerOverflow) && a.spec_avail() >= 2 && x == i64::MIN && y == -1 && b.operand_stack@
                        == s.take(n - 2)),
                }
    })
}

/// The contract of the `i64_divu` handler, as a relation between the
/// engine before and after it.
pub open spec fn spec_i64_divu_result(a: &VM, b: &VM, r: Result<(), Fault>) -> bool {
    ({
                let s = a.operand_stack@;
                let n = s.len() as int;
                match r {
                    Ok(()) => a.spec_avail() >= 2 && s[n - 1] != 0 && b.operand_stack@ == s.take(n - 2).push(((s[n - 2] / s[n - 1]) as u64)),
                    Err(e) => (e == Fault::StackUnderflow && a.spec_avail() < 2
                        && b.operand_stack@ == s) || (e == Fault::Trap(
                        Trap::DivideByZero,
                    ) && a.spec_avail() >= 2 && s[n - 1] == 0 && b.operand_stack@
                        == s.take(n - 2)),
                }
    })
}

/// The contract of the `i64_rems` handler, as a relation between the
/// engine before and after it.
pub open spec fn spec_i64_rems_result(a: &VM, b: &VM, r: Result<(), Fault>) -> bool {
    ({
                let s = a.operand_stack@;
                let n = s.len() as int;
                let x = s[n - 2] as i64;
                let y = s[n - 1] as i64;
                match r {
                    Ok(()) => a.spec_avail() >= 2 && y != 0 && !(x == i64::MIN && y == -1)
                        && b.operand_stack@ == s.take(n - 2).push((((x.checked_rem(y))->Some_0) as u64)),
                    Err(e) => (e == Fault::StackUnderflow && a.spec_avail() < 2
                        && b.operand_stack@ == s) || (e == Fault::Trap(
                        Trap::DivideByZero,
                    ) && a.spec_avail() >= 2 && y == 0 && b.operand_stack@
                        == s.take(n - 2)) || (e == Fault::Trap(Trap::IntegerOverflow) && a.spec_avail() >= 2 && x == i64::MIN && y == -1 && b.operand_stack@
                        == s.take(n - 2)),
                }
    })
}

/// The contract of the `i64_remu` handler, as a relation between the
/// engine before and after it.
pub open spec fn spec_i64_remu_result(a: &VM, b: &VM, r: Result<(), Fault>) -> bool {
    ({
                let s = a.operand_stack@;
                let n = s.len() as int;
                match r {
                    Ok(()) => a.spec_avail() >= 2 && s[n - 1] != 0 && b.operand_stack@ == s.take(n - 2).push(((s[n - 2] % s[n - 1]) as u64)),
                    Err(e) => (e == Fault::StackUnderflow && a.spec_avail() < 2
                        && b.operand_stack@ == s) || (e == Fault::Trap(
                        Trap::DivideByZero,
                    ) && a.spec_avail() >= 2 && s[n - 1] == 0 && b.operand_stack@
                        == s.take(n - 2)),
                }
    })
}

/// The contract of the `select` handler, as a relation between the
/// engine before and after it.
pub open spec fn spec_select_result(a: &VM, b: &VM, r: Result<(), Fault>) -> bool {
    ({
                let s = a.operand_stack@;
                let n = s.len() as int;
                match r {
                    Ok(()) => a.spec_avail() >= 3 && b.operand_stack@ == s.take(
                        n - 3,
                    ).push(
                        if s[n - 1] != 0 {
                            s[n - 3]
                        } else {
                            s[n - 2]
                        },
                    ),
                    Err(e) => e == Fault::StackUnderflow && a.spec_avail() < 3 && b.operand_stack@ == s,
                }
    })
}

impl<'a> VM<'a> {
    /// `i32.const`: push the immediate, zero-extended from its low 32 bits.
    pub fn i32_const(&mut self, v: i32)
        requires
            old(self).wf(),
        ensures
            final(self).wf(),
            VM::spec_only_stack(old(self), final(self)),
            final(self).operand_stack@ == old(self).operand_stack@.push(((v as u32) as u64)),
    {
        self.push_val((v as u32) as u64);
    }

    /// `i64.const`: push the immediate's bit pattern.
    pub fn i64_const(&mut self, v: i64)
        requires
            old(self).wf(),
        ensures
            final(self).wf(),
            VM::spec_only_stack(old(self), final(self)),
            final(self).operand_stack@ == old(self).operand_stack@.push((v as u64)),
    {
        self.push_val(v as u64);
    }

    /// `f32.const`: push the immediate's bit pattern, zero-extended.
    pub fn f32_const(&mut self, bits: u32)
        requires
            old(self).wf(),
        ensures
            final(self).wf(),
            VM::spec_only_stack(old(self), final(self)),
            final(self).operand_stack@ == old(self).operand_stack@.push((bits as u64)),
    {
        self.push_val(bits as u64);
    }

    /// `f64.const`: push the immediate's bit pattern.
    pub fn f64_const(&mut self, bits: u64)
        requires
            old(self).wf(),
        ensures
            final(self).wf(),
            VM::spec_only_stack(old(self), final(self)),
            final(self).operand_stack@ == old(self).operand_stack@.push(bits),
    {
        self.push_val(bits);
    }

    /// `drop`: pop one slot.
    pub fn drop_value(&mut self) -> (r: Result<(), Fault>)
        requires
            old(self).wf(),
        ensures
            final(self).wf(),
            VM::spec_only_stack(old(self), final(self)),
            match r {
                Ok(()) => old(self).spec_avail() >= 1 && final(self).operand_stack@ == old(self).operand_stack@.drop_last(),
                Err(e) => e == Fault::StackUnderflow && old(self).spec_avail() < 1 && final(self).operand_stack@ == old(self).operand_stack@,
            },
    {
        if self.avail() < 1 {
            return Result::Err(Fault::StackUnderflow);
        }
        let _ = self.pop1();
        Result::Ok(())
    }

    /// `select`: pop a condition and two values; push the lower value when
    /// the condition is non-zero, the upper one otherwise.
    pub fn select(&mut self) -> (r: Result<(), Fault>)
        requires
            old(self).wf(),
        ensures
            final(self).wf(),
            VM::spec_only_stack(old(self), final(self)),
            spec_select_result(old(self), final(self), r),
    {
        if self.avail() < 3 {
            return Result::Err(Fault::StackUnderflow);
        }
        let c = self.pop1();
        let v2 = self.pop1();
        let v1 = self.pop1();
        if c != 0 {
            self.push_val(v1);
        } else {
            self.push_val(v2);
        }
        proof {
            assert(final(self).operand_stack@ =~= old(self).operand_stack@.take(
                old(self).operand_stack@.len() - 3,
            ).push(
                if old(self).operand_stack@.last() != 0 {
                    old(self).operand_stack@[old(self).operand_stack@.len() - 3]
                } else {
                    old(self).operand_stack@[old(self).operand_stack@.len() - 2]
                },
            ));
        }
        Result::Ok(())
    }

    /// `i32.eqz`: whether the low 32 bits are zero.
    pub fn i32_eqz(&mut self) -> (r: Result<(), Fault>)
        requires
            old(self).wf(),
        ensures
            final(self).wf(),
            VM::spec_only_stack(old(self), final(self)),
            spec_test_result(old(self), final(self), r, (|a: u64| a as u32 == 0)),
    {
        if self.avail() < 1 {
            return Result::Err(Fault::StackUnderflow);
        }
        let a = self.pop1();
        if a as u32 == 0 {
            self.push_val(1);
        } else {
            self.push_val(0);
        }
        Result::Ok(())
    }

    /// `i64.eqz`: whether the slot is zero.
    pub fn i64_eqz(&mut self) -> (r: Result<(), Fault>)
        requires
            old(self).wf(),
        ensures
            final(self).wf(),
            VM::spec_only_stack(old(self), final(self)),
            spec_test_result(old(self), final(self), r, (|a: u64| a == 0)),
    {
        if self.avail() < 1 {
            return Result::Err(Fault::StackUnderflow);
        }
        let a = self.pop1();
        if a == 0 {
            self.push_val(1);
        } else {
            self.push_val(0);
        }
        Result::Ok(())
    }

    /// `i32.eq`: 32-bit equality.
    pub fn i32_eq(&mut self) -> (r: Result<(), Fault>)
        requires
            old(self).wf(),
        ensures
            final(self).wf(),
            VM::spec_only_stack(old(self), final(self)),
            spec_cmp_result(old(self), final(self), r, (|a: u64, b: u64| (a as u32) == (b as u32))),
    {
        if self.avail() < 2 {
            return Result::Err(Fault::StackUnderflow);
        }
        let (a, b) = self.pop2();
        if (a as u32) == (b as u32) {
            self.push_val(1);
        } else {
            self.push_val(0);
        }
        Result::Ok(())
    }

    /// `i32.ne`: 32-bit inequality.
    pub fn i32_neq(&mut self) -> (r: Result<(), Fault>)
        requires
            old(self).wf(),
        ensures
            final(self).wf(),
            VM::spec_only_stack(old(self), final(self)),
            spec_cmp_result(old(self), final(self), r, (|a: u64, b: u64| (a as u32) != (b as u32))),
    {
        if self.avail() < 2 {
            return Result::Err(Fault::StackUnderflow);
        }
        let (a, b) = self.pop2();
        if (a as u32) != (b as u32) {
            self.push_val(1);
        } else {
            self.push_val(0);
        }
        Result::Ok(())
    }

    /// `i32.lt_s`: signed 32-bit less-than.
    pub fn i32_lts(&mut self) -> (r: Result<(), Fault>)
        requires
            old(self).wf(),
        ensures
            final(self).wf(),
            VM::spec_only_stack(old(self), final(self)),
            spec_cmp_result(old(self), final(self), r, (|a: u64, b: u64| ((a as u32) as i32) < ((b as u32) as i32))),
    {
        if self.avail() < 2 {
            return Result::Err(Fault::StackUnderflow);
        }
        let (a, b) = self.pop2();
        if ((a as u32) as i32) < ((b as u32) as i32) {
            self.push_val(1);
        } else {
            self.push_val(0);
        }
        Result::Ok(())
    }

    /// `i32.lt_u`: unsigned 32-bit less-than.
    pub fn i32_ltu(&mut self) -> (r: Result<(), Fault>)
        requires
            old(self).wf(),
        ensures
            final(self).wf(),
            VM::spec_only_stack(old(self), final(self)),
            spec_cmp_result(old(self), final(self), r, (|a: u64, b: u64| (a as u32) < (b as u32))),
    {
        if self.avail() < 2 {
            return Result::Err(Fault::StackUnderflow);
        }
        let (a, b) = self.pop2();
        if (a as u32) < (b as u32) {
            self.push_val(1);
        } else {
            self.push_val(0);
        }
        Result::Ok(())
    }

    /// `i32.gt_s`: signed 32-bit greater-than.
    pub fn i32_gts(&mut self) -> (r: Result<(), Fault>)
        requires
            old(self).wf(),
        ensures
            final(self).wf(),
            VM::spec_only_stack(old(self), final(self)),
            spec_cmp_result(old(self), final(self), r, (|a: u64, b: u64| ((a as u32) as i32) > ((b as u32) as i32))),
    {
        if self.avail() < 2 {
            return Result::Err(Fault::StackUnderflow);
        }
        let (a, b) = self.pop2();
        if ((a as u32) as i32) > ((b as u32) as i32) {
            self.push_val(1);
        } else {
            self.push_val(0);
        }
        Result::Ok(())
    }

    /// `i32.gt_u`: unsigned 32-bit greater-than.
    pub fn i32_gtu(&mut self) -> (r: Result<(), Fault>)
        requires
            old(self).wf(),
        ensures
            final(self).wf(),
            VM::spec_only_stack(old(self), final(self)),
            spec_cmp_result(old(self), final(self), r, (|a: u64, b: u64| (a as u32) > (b as u32))),
    {
        if self.avail() < 2 {
            return Result::Err(Fault::StackUnderflow);
        }
        let (a, b) = self.pop2();
        if (a as u32) > (b as u32) {
            self.push_val(1);
        } else {
            self.push_val(0);
        }
        Result::Ok(())
    }

    /// `i32.le_s`: signed 32-bit at-most.
    pub fn i32_les(&mut self) -> (r: Result<(), Fault>)
        requires
            old(self).wf(),
        ensures
            final(self).wf(),
            VM::spec_only_stack(old(self), final(self)),
            spec_cmp_result(old(self), final(self), r, (|a: u64, b: u64| ((a as u32) as i32) <= ((b as u32) as i32))),
    {
        if self.avail() < 2 {
            return Result::Err(Fault::StackUnderflow);
        }
        let (a, b) = self.pop2();
        if ((a as u32) as i32) <= ((b as u32) as i32) {
            self.push_val(1);
        } else {
            self.push_val(0);
        }
        Result::Ok(())
    }

    /// `i32.le_u`: unsigned 32-bit at-most.
    pub fn i32_leu(&mut self) -> (r: Result<(), Fault>)
        requires
            old(self).wf(),
        ensures
            final(self).wf(),
            VM::spec_only_stack(old(self), final(self)),
            spec_cmp_result(old(self), final(self), r, (|a: u64, b: u64| (a as u32) <= (b as u32))),
    {
        if self.avail() < 2 {
            return Result::Err(Fault::StackUnderflow);
        }
        let (a, b) = self.pop2();
        if (a as u32) <= (b as u32) {
            self.push_val(1);
        } else {
            self.push_val(0);
        }
        Result::Ok(())
    }

    /// `i32.ge_s`: signed 32-bit at-least.
    pub fn i32_ges(&mut self) -> (r: Result<(), Fault>)
        requires
            old(self).wf(),
        ensures
            final(self).wf(),
            VM::spec_only_stack(old(self), final(self)),
            spec_cmp_result(old(self), final(self), r, (|a: u64, b: u64| ((a as u32) as i32) >= ((b as u32) as i32))),
    {
        if self.avail() < 2 {
            return Result::Err(Fault::StackUnderflow);
        }
        let (a, b) = self.pop2();
        if ((a as u32) as i32) >= ((b as u32) as i32) {
            self.push_val(1);
        } else {
            self.push_val(0);
        }
        Result::Ok(())
    }

    /// `i32.ge_u`: unsigned 32-bit at-least.
    pub fn i32_geu(&mut self) -> (r: Result<(), Fault>)
        requires
            old(self).wf(),
        ensures
            final(self).wf(),
            VM::spec_only_stack(old(self), final(self)),
            spec_cmp_result(old(self), final(self), r, (|a: u64, b: u64| (a as u32) >= (b as u32))),
    {
        if self.avail() < 2 {
            return Result::Err(Fault::StackUnderflow);
        }
        let (a, b) = self.pop2();
        if (a as u32) >= (b as u32) {
            self.push_val(1);
        } else {
            self.push_val(0);
        }
        Result::Ok(())
    }

    /// `i64.eq`: 64-bit equality.
    pub fn i64_eq(&mut self) -> (r: Result<(), Fault>)
        requires
            old(self).wf(),
        ensures
            final(self).wf(),
            VM::spec_only_stack(old(self), final(self)),
            spec_cmp_result(old(self), final(self), r, (|a: u64, b: u64| a == b)),
    {
        if self.avail() < 2 {
            return Result::Err(Fault::StackUnderflow);
        }
        let (a, b) = self.pop2();
        if a == b {
            self.push_val(1);
        } else {
            self.push_val(0);
        }
        Result::Ok(())
    }

    /// `i64.ne`: 64-bit inequality.
    pub fn i64_neq(&mut self) -> (r: Result<(), Fault>)
        requires
            old(self).wf(),
        ensures
            final(self).wf(),
            VM::spec_only_stack(old(self), final(self)),
            spec_cmp_result(old(self), final(self), r, (|a: u64, b: u64| a != b)),
    {
        if self.avail() < 2 {
            return Result::Err(Fault::StackUnderflow);
        }
        let (a, b) = self.pop2();
        if a != b {
            self.push_val(1);
        } else {
            self.push_val(0);
        }
        Result::Ok(())
    }

    /// `i64.lt_s`: signed 64-bit less-than.
    pub fn i64_lts(&mut self) -> (r: Result<(), Fault>)
        requires
            old(self).wf(),
        ensures
            final(self).wf(),
            VM::spec_only_stack(old(self), final(self)),
            spec_cmp_result(old(self), final(self), r, (|a: u64, b: u64| (a as i64) < (b as i64))),
    {
        if self.avail() < 2 {
            return Result::Err(Fault::StackUnderflow);
        }
        let (a, b) = self.pop2();
        if (a as i64) < (b as i64) {
            self.push_val(1);
        } else {
            self.push_val(0);
        }
        Result::Ok(())
    }

    /// `i64.lt_u`: unsigned 64-bit less-than.
    pub fn i64_ltu(&mut self) -> (r: Result<(), Fault>)
        requires
            old(self).wf(),
        ensures
            final(self).wf(),
            VM::spec_only_stack(old(self), final(self)),
            spec_cmp_result(old(self), final(self), r, (|a: u64, b: u64| a < b)),
    {
        if self.avail() < 2 {
            return Result::Err(Fault::StackUnderflow);
        }
        let (a, b) = self.pop2();
        if a < b {
            self.push_val(1);
        } else {
            self.push_val(0);
        }
        Result::Ok(())
    }

    /// `i64.gt_s`: signed 64-bit greater-than.
    pub fn i64_gts(&mut self) -> (r: Result<(), Fault>)
        requires
            old(self).wf(),
        ensures
            final(self).wf(),
            VM::spec_only_stack(old(self), final(self)),
            spec_cmp_result(old(self), final(self), r, (|a: u64, b: u64| (a as i64) > (b as i64))),
    {
        if self.avail() < 2 {
            return Result::Err(Fault::StackUnderflow);
        }
        let (a, b) = self.pop2();
        if (a as i64) > (b as i64) {
            self.push_val(1);
        } else {
            self.push_val(0);
        }
        Result::Ok(())
    }

    /// `i64.gt_u`: unsigned 64-bit greater-than.
    pub fn i64_gtu(&mut self) -> (r: Result<(), Fault>)
        requires
            old(self).wf(),
        ensures
            final(self).wf(),
            VM::spec_only_stack(old(self), final(self)),
            spec_cmp_result(old(self), final(self), r, (|a: u64, b: u64| a > b)),
    {
        if self.avail() < 2 {
            return Result::Err(Fault::StackUnderflow);
        }
        let (a, b) = self.pop2();
        if a > b {
            self.push_val(1);
        } else {
            self.push_val(0);
        }
        Result::Ok(())
    }

    /// `i64.le_s`: signed 64-bit at-most.
    pub fn i64_les(&mut self) -> (r: Result<(), Fault>)
        requires
            old(self).wf(),
        ensures
            final(self).wf(),
            VM::spec_only_stack(old(self), final(self)),
            spec_cmp_result(old(self), final(self), r, (|a: u64, b: u64| (a as i64) <= (b as i64))),
    {
        if self.avail() < 2 {
            return Result::Err(Fault::StackUnderflow);
        }
        let (a, b) = self.pop2();
        if (a as i64) <= (b as i64) {
            self.push_val(1);
        } else {
            self.push_val(0);
        }
        Result::Ok(())
    }

    /// `i64.le_u`: unsigned 64-bit at-most.
    pub fn i64_leu(&mut self) -> (r: Result<(), Fault>)
        requires
            old(self).wf(),
        ensures
            final(self).wf(),
            VM::spec_only_stack(old(self), final(self)),
            spec_cmp_result(old(self), final(self), r, (|a: u64, b: u64| a <= b)),
    {
        if self.avail() < 2 {
            return Result::Err(Fault::StackUnderflow);
        }
        let (a, b) = self.pop2();
        if a <= b {
            self.push_val(1);
        } else {
            self.push_val(0);
        }
        Result::Ok(())
    }

    /// `i64.ge_s`: signed 64-bit at-least.
    pub fn i64_ges(&mut self) -> (r: Result<(), Fault>)
        requires
            old(self).wf(),
        ensures
            final(self).wf(),
            VM::spec_only_stack(old(self), final(self)),
            spec_cmp_result(old(self), final(self), r, (|a: u64, b: u64| (a as i64) >= (b as i64))),
    {
        if self.avail() < 2 {
            return Result::Err(Fault::StackUnderflow);
        }
        let (a, b) = self.pop2();
        if (a as i64) >= (b as i64) {
            self.push_val(1);
        } else {
            self.push_val(0);
        }
        Result::Ok(())
    }

    /// `i64.ge_u`: unsigned 64-bit at-least.
    pub fn i64_geu(&mut self) -> (r: Result<(), Fault>)
        requires
            old(self).wf(),
        ensures
            final(self).wf(),
            VM::spec_only_stack(old(self), final(self)),
            spec_cmp_result(old(self), final(self), r, (|a: u64, b: u64| a >= b)),
    {
        if self.avail() < 2 {
            return Result::Err(Fault::StackUnderflow);
        }
        let (a, b) = self.pop2();
        if a >= b {
            self.push_val(1);
        } else {
            self.push_val(0);
        }
        Result::Ok(())
    }

    /// `i32.clz`: leading zero bits of the low 32 bits.
    pub fn i32_clz(&mut self) -> (r: Result<(), Fault>)
        requires
            old(self).wf(),
        ensures
            final(self).wf(),
            VM::spec_only_stack(old(self), final(self)),
            spec_unop_result(old(self), final(self), r, (|a: u64| u32_leading_zeros(a as u32) as u64)),
    {
        if self.avail() < 1 {
            return Result::Err(Fault::StackUnderflow);
        }
        let a = self.pop1();
        let v = ((a as u32).leading_zeros()) as u64;
        self.push_val(v);
        Result::Ok(())
    }

    /// `i32.ctz`: trailing zero bits of the low 32 bits.
    pub fn i32_ctz(&mut self) -> (r: Result<(), Fault>)
        requires
            old(self).wf(),
        ensures
            final(self).wf(),
            VM::spec_only_stack(old(self), final(self)),
            spec_unop_result(old(self), final(self), r, (|a: u64| u32_trailing_zeros(a as u32) as u64)),
    {
        if self.avail() < 1 {
            return Result::Err(Fault::StackUnderflow);
        }
        let a = self.pop1();
        let v = ((a as u32).trailing_zeros()) as u64;
        self.push_val(v);
        Result::Ok(())
    }

    /// `i32.popcnt`: set bits of the low 32 bits.
    pub fn i32_pop_cnt(&mut self) -> (r: Result<(), Fault>)
        requires
            old(self).wf(),
        ensures
            final(self).wf(),
            VM::spec_only_stack(old(self), final(self)),
            spec_unop_result(old(self), final(self), r, (|a: u64| spec_popcnt((a as u32) as u64) as u64)),
    {
        if self.avail() < 1 {
            return Result::Err(Fault::StackUnderflow);
        }
        let a = self.pop1();
        let v = ((a as u32).count_ones()) as u64;
        self.push_val(v);
        Result::Ok(())
    }

    /// `i64.clz`: leading zero bits.
    pub fn i64_clz(&mut self) -> (r: Result<(), Fault>)
        requires
            old(self).wf(),
        ensures
            final(self).wf(),
            VM::spec_only_stack(old(self), final(self)),
            spec_unop_result(old(self), final(self), r, (|a: u64| u64_leading_zeros(a) as u64)),
    {
        if self.avail() < 1 {
            return Result::Err(Fault::StackUnderflow);
        }
        let a = self.pop1();
        let v = (a.leading_zeros()) as u64;
        self.push_val(v);
        Result::Ok(())
    }

    /// `i64.ctz`: trailing zero bits.
    pub fn i64_ctz(&mut self) -> (r: Result<(), Fault>)
        requires
            old(self).wf(),
        ensures
            final(self).wf(),
            VM::spec_only_stack(old(self), final(self)),
            spec_unop_result(old(self), final(self), r, (|a: u64| u64_trailing_zeros(a) as u64)),
    {
        if self.avail() < 1 {
            return Result::Err(Fault::StackUnderflow);
        }
        let a = self.pop1();
        let v = (a.trailing_zeros()) as u64;
        self.push_val(v);
        Result::Ok(())
    }

    /// `i64.popcnt`: set bits.
    pub fn i64_pop_cnt(&mut self) -> (r: Result<(), Fault>)
        requires
            old(self).wf(),
        ensures
            final(self).wf(),
            VM::spec_only_stack(old(self), final(self)),
            spec_unop_result(old(self), final(self), r, (|a: u64| spec_popcnt(a) as u64)),
    {
        if self.avail() < 1 {
            return Result::Err(Fault::StackUnderflow);
        }
        let a = self.pop1();
        let v = (a.count_ones()) as u64;
        self.push_val(v);
        Result::Ok(())
    }

    /// `i32.add`: 32-bit addition, wrapping on overflow.
    pub fn i32_add(&mut self) -> (r: Result<(), Fault>)
        requires
            old(self).wf(),
        ensures
            final(self).wf(),
            VM::spec_only_stack(old(self), final(self)),
            spec_binop_result(old(self), final(self), r, (|a: u64, b: u64| (((a as u32) + (b as u32)) as u32) as u64)),
    {
        if self.avail() < 2 {
            return Result::Err(Fault::StackUnderflow);
        }
        let (a, b) = self.pop2();
        let v = (#[verifier::truncate] ((((a as u32) as u64) + ((b as u32) as u64)) as u32)) as u64;
        self.push_val(v);
        Result::Ok(())
    }

    /// `i32.sub`: 32-bit subtraction, wrapping on overflow.
    pub fn i32_sub(&mut self) -> (r: Result<(), Fault>)
        requires
            old(self).wf(),
        ensures
            final(self).wf(),
            VM::spec_only_stack(old(self), final(self)),
            spec_binop_result(old(self), final(self), r, (|a: u64, b: u64| (((a as u32) - (b as u32)) as u32) as u64)),
    {
        if self.avail() < 2 {
            return Result::Err(Fault::StackUnderflow);
        }
        let (a, b) = self.pop2();
        let v = (#[verifier::truncate] ((((a as u32) as i64) - ((b as u32) as i64)) as u32)) as u64;
        self.push_val(v);
        Result::Ok(())
    }

    /// `i32.mul`: 32-bit multiplication, wrapping on overflow.
    pub fn i32_mul(&mut self) -> (r: Result<(), Fault>)
        requires
            old(self).wf(),
        ensures
            final(self).wf(),
            VM::spec_only_stack(old(self), final(self)),
            spec_binop_result(old(self), final(self), r, (|a: u64, b: u64| (((a as u32) * (b as u32)) as u32) as u64)),
    {
        if self.avail() < 2 {
            return Result::Err(Fault::StackUnderflow);
        }
        let (a, b) = self.pop2();
        let x = (a as u32) as u64;
        let y = (b as u32) as u64;
        proof {
            assert(x * y <= 0xFFFF_FFFFu64 * 0xFFFF_FFFFu64) by (nonlinear_arith)
                requires
                    x <= 0xFFFF_FFFFu64 && y <= 0xFFFF_FFFFu64,
            ;
        }
        let v = (#[verifier::truncate] ((x * y) as u32)) as u64;
        self.push_val(v);
        Result::Ok(())
    }

    /// `i32.and`: bitwise conjunction of the low 32 bits.
    pub fn i32_and(&mut self) -> (r: Result<(), Fault>)
        requires
            old(self).wf(),
        ensures
            final(self).wf(),
            VM::spec_only_stack(old(self), final(self)),
            spec_binop_result(old(self), final(self), r, (|a: u64, b: u64| ((a as u32) & (b as u32)) as u64)),
    {
        if self.avail() < 2 {
            return Result::Err(Fault::StackUnderflow);
        }
        let (a, b) = self.pop2();
        let v = ((a as u32) & (b as u32)) as u64;
        self.push_val(v);
        Result::Ok(())
    }

    /// `i32.or`: bitwise disjunction of the low 32 bits.
    pub fn i32_or(&mut self) -> (r: Result<(), Fault>)
        requires
            old(self).wf(),
        ensures
            final(self).wf(),
            VM::spec_only_stack(old(self), final(self)),
            spec_binop_result(old(self), final(self), r, (|a: u64, b: u64| ((a as u32) | (b as u32)) as u64)),
    {
        if self.avail() < 2 {
            return Result::Err(Fault::StackUnderflow);
        }
        let (a, b) = self.pop2();
        let v = ((a as u32) | (b as u32)) as u64;
        self.push_val(v);
        Result::Ok(())
    }

    /// `i32.xor`: bitwise exclusive disjunction of the low 32 bits.
    pub fn i32_xor(&mut self) -> (r: Result<(), Fault>)
        requires
            old(self).wf(),
        ensures
            final(self).wf(),
            VM::spec_only_stack(old(self), final(self)),
            spec_binop_result(old(self), final(self), r, (|a: u64, b: u64| ((a as u32) ^ (b as u32)) as u64)),
    {
        if self.avail() < 2 {
            return Result::Err(Fault::StackUnderflow);
        }
        let (a, b) = self.pop2();
        let v = ((a as u32) ^ (b as u32)) as u64;
        self.push_val(v);
        Result::Ok(())
    }

    /// `i32.shl`: 32-bit shift left; the amount counts modulo 32.
    pub fn i32_shl(&mut self) -> (r: Result<(), Fault>)
        requires
            old(self).wf(),
        ensures
            final(self).wf(),
            VM::spec_only_stack(old(self), final(self)),
            spec_binop_result(old(self), final(self), r, (|a: u64, b: u64| spec_shl32(a as u32, b as u32) as u64)),
    {
        if self.avail() < 2 {
            return Result::Err(Fault::StackUnderflow);
        }
        let (a, b) = self.pop2();
        let k = (b as u32) % 32;
        let v = ((a as u32) << k) as u64;
        self.push_val(v);
        Result::Ok(())
    }

    /// `i32.shr_s`: arithmetic 32-bit shift right; the amount counts modulo 32.
    pub fn i32_shrs(&mut self) -> (r: Result<(), Fault>)
        requires
            old(self).wf(),
        ensures
            final(self).wf(),
            VM::spec_only_stack(old(self), final(self)),
            spec_binop_result(old(self), final(self), r, (|a: u64, b: u64| spec_shr_s32(a as u32, b as u32) as u64)),
    {
        if self.avail() < 2 {
            return Result::Err(Fault::StackUnderflow);
        }
        let (a, b) = self.pop2();
        let k = (b as u32) % 32;
        let v = ((((a as u32) as i32) >> k) as u32) as u64;
        self.push_val(v);
        Result::Ok(())
    }

    /// `i32.shr_u`: logical 32-bit shift right; the amount counts modulo 32.
    pub fn i32_shru(&mut self) -> (r: Result<(), Fault>)
        requires
            old(self).wf(),
        ensures
            final(self).wf(),
            VM::spec_only_stack(old(self), final(self)),
            spec_binop_result(old(self), final(self), r, (|a: u64, b: u64| spec_shr_u32(a as u32, b as u32) as u64)),
    {
        if self.avail() < 2 {
            return Result::Err(Fault::StackUnderflow);
        }
        let (a, b) = self.pop2();
        let k = (b as u32) % 32;
        let v = ((a as u32) >> k) as u64;
        self.push_val(v);
        Result::Ok(())
    }

    /// `i32.rotl`: rotate the low 32 bits left; the amount counts modulo 32.
    pub fn i32_rotl(&mut self) -> (r: Result<(), Fault>)
        requires
            old(self).wf(),
        ensures
            final(self).wf(),
            VM::spec_only_stack(old(self), final(self)),
            spec_binop_result(old(self), final(self), r, (|a: u64, b: u64| spec_rotl32(a as u32, b as u32) as u64)),
    {
        if self.avail() < 2 {
            return Result::Err(Fault::StackUnderflow);
        }
        let (a, b) = self.pop2();
        let x = a as u32;
        let k = (b as u32) % 32;
        let v = (if k == 0 { x } else { (x << k) | (x >> (32 - k)) }) as u64;
        self.push_val(v);
        Result::Ok(())
    }

    /// `i32.rotr`: rotate the low 32 bits right; the amount counts modulo 32.
    pub fn i32_rotr(&mut self) -> (r: Result<(), Fault>)
        requires
            old(self).wf(),
        ensures
            final(self).wf(),
            VM::spec_only_stack(old(self), final(self)),
            spec_binop_result(old(self), final(self), r, (|a: u64, b: u64| spec_rotr32(a as u32, b as u32) as u64)),
    {
        if self.avail() < 2 {
            return Result::Err(Fault::StackUnderflow);
        }
        let (a, b) = self.pop2();
        let x = a as u32;
        let k = (b as u32) % 32;
        let v = (if k == 0 { x } else { (x >> k) | (x << (32 - k)) }) as u64;
        self.push_val(v);
        Result::Ok(())
    }

    /// `i64.add`: 64-bit addition, wrapping on overflow.
    pub fn i64_add(&mut self) -> (r: Result<(), Fault>)
        requires
            old(self).wf(),
        ensures
            final(self).wf(),
            VM::spec_only_stack(old(self), final(self)),
            spec_binop_result(old(self), final(self), r, (|a: u64, b: u64| (a + b) as u64)),
    {
        if self.avail() < 2 {
            return Result::Err(Fault::StackUnderflow);
        }
        let (a, b) = self.pop2();
        let v = #[verifier::truncate] (((a as u128) + (b as u128)) as u64);
        self.push_val(v);
        Result::Ok(())
    }

    /// `i64.sub`: 64-bit subtraction, wrapping on overflow.
    pub fn i64_sub(&mut self) -> (r: Result<(), Fault>)
        requires
            old(self).wf(),
        ensures
            final(self).wf(),
            VM::spec_only_stack(old(self), final(self)),
            spec_binop_result(old(self), final(self), r, (|a: u64, b: u64| (a - b) as u64)),
    {
        if self.avail() < 2 {
            return Result::Err(Fault::StackUnderflow);
        }
        let (a, b) = self.pop2();
        let v = #[verifier::truncate] (((a as i128) - (b as i128)) as u64);
        self.push_val(v);
        Result::Ok(())
    }

    /// `i64.mul`: 64-bit multiplication, wrapping on overflow.
    pub fn i64_mul(&mut self) -> (r: Result<(), Fault>)
        requires
            old(self).wf(),
        ensures
            final(self).wf(),
            VM::spec_only_stack(old(self), final(self)),
            spec_binop_result(old(self), final(self), r, (|a: u64, b: u64| (a * b) as u64)),
    {
        if self.avail() < 2 {
            return Result::Err(Fault::StackUnderflow);
        }
        let (a, b) = self.pop2();
        let x = a as u128;
        let y = b as u128;
        proof {
            assert(x * y <= 0xFFFF_FFFF_FFFF_FFFFu128 * 0xFFFF_FFFF_FFFF_FFFFu128)
                by (nonlinear_arith)
                requires
                    x <= 0xFFFF_FFFF_FFFF_FFFFu128 && y <= 0xFFFF_FFFF_FFFF_FFFFu128,
            ;
        }
        let v = #[verifier::truncate] ((x * y) as u64);
        self.push_val(v);
        Result::Ok(())
    }

    /// `i64.and`: bitwise conjunction.
    pub fn i64_and(&mut self) -> (r: Result<(), Fault>)
        requires
            old(self).wf(),
        ensures
            final(self).wf(),
            VM::spec_only_stack(old(self), final(self)),
            spec_binop_result(old(self), final(self), r, (|a: u64, b: u64| a & b)),
    {
        if self.avail() < 2 {
            return Result::Err(Fault::StackUnderflow);
        }
        let (a, b) = self.pop2();
        let v = a & b;
        self.push_val(v);
        Result::Ok(())
    }

    /// `i64.or`: bitwise disjunction.
    pub fn i64_or(&mut self) -> (r: Result<(), Fault>)
        requires
            old(self).wf(),
        ensures
            final(self).wf(),
            VM::spec_only_stack(old(self), final(self)),
            spec_binop_result(old(self), final(self), r, (|a: u64, b: u64| a | b)),
    {
        if self.avail() < 2 {
            return Result::Err(Fault::StackUnderflow);
        }
        let (a, b) = self.pop2();
        let v = a | b;
        self.push_val(v);
        Result::Ok(())
    }

    /// `i64.xor`: bitwise exclusive disjunction.
    pub fn i64_xor(&mut self) -> (r: Result<(), Fault>)
        requires
            old(self).wf(),
        ensures
            final(self).wf(),
            VM::spec_only_stack(old(self), final(self)),
            spec_binop_result(old(self), final(self), r, (|a: u64, b: u64| a ^ b)),
    {
        if self.avail() < 2 {
            return Result::Err(Fault::StackUnderflow);
        }
        let (a, b) = self.pop2();
        let v = a ^ b;
        self.push_val(v);
        Result::Ok(())
    }

    /// `i64.shl`: 64-bit shift left; the amount counts modulo 64.
    pub fn i64_shl(&mut self) -> (r: Result<(), Fault>)
        requires
            old(self).wf(),
        ensures
            final(self).wf(),
            VM::spec_only_stack(old(self), final(self)),
            spec_binop_result(old(self), final(self), r, (|a: u64, b: u64| spec_shl64(a, b))),
    {
        if self.avail() < 2 {
            return Result::Err(Fault::StackUnderflow);
        }
        let (a, b) = self.pop2();
        let k = b % 64;
        let v = a << k;
        self.push_val(v);
        Result::Ok(())
    }

    /// `i64.shr_s`: arithmetic 64-bit shift right; the amount counts modulo 64.
    pub fn i64_shrs(&mut self) -> (r: Result<(), Fault>)
        requires
            old(self).wf(),
        ensures
            final(self).wf(),
            VM::spec_only_stack(old(self), final(self)),
            spec_binop_result(old(self), final(self), r, (|a: u64, b: u64| spec_shr_s64(a, b))),
    {
        if self.avail() < 2 {
            return Result::Err(Fault::StackUnderflow);
        }
        let (a, b) = self.pop2();
        let k = b % 64;
        let v = ((a as i64) >> k) as u64;
        self.push_val(v);
        Result::Ok(())
    }

    /// `i64.shr_u`: logical 64-bit shift right; the amount counts modulo 64.
    pub fn i64_shru(&mut self) -> (r: Result<(), Fault>)
        requires
            old(self).wf(),
        ensures
            final(self).wf(),
            VM::spec_only_stack(old(self), final(self)),
            spec_binop_result(old(self), final(self), r, (|a: u64, b: u64| spec_shr_u64(a, b))),
    {
        if self.avail() < 2 {
            return Result::Err(Fault::StackUnderflow);
        }
        let (a, b) = self.pop2();
        let k = b % 64;
        let v = a >> k;
        self.push_val(v);
        Result::Ok(())
    }

    /// `i64.rotl`: rotate left; the amount counts modulo 64.
    pub fn i64_rotl(&mut self) -> (r: Result<(), Fault>)
        requires
            old(self).wf(),
        ensures
            final(self).wf(),
            VM::spec_only_stack(old(self), final(self)),
            spec_binop_result(old(self), final(self), r, (|a: u64, b: u64| spec_rotl64(a, b))),
    {
        if self.avail() < 2 {
            return Result::Err(Fault::StackUnderflow);
        }
        let (a, b) = self.pop2();
        let k = b % 64;
        let v = if k == 0 { a } else { (a << k) | (a >> (64 - k)) };
        self.push_val(v);
        Result::Ok(())
    }

    /// `i64.rotr`: rotate right; the amount counts modulo 64.
    pub fn i64_rotr(&mut self) -> (r: Result<(), Fault>)
        requires
            old(self).wf(),
        ensures
            final(self).wf(),
            VM::spec_only_stack(old(self), final(self)),
            spec_binop_result(old(self), final(self), r, (|a: u64, b: u64| spec_rotr64(a, b))),
    {
        if self.avail() < 2 {
            return Result::Err(Fault::StackUnderflow);
        }
        let (a, b) = self.pop2();
        let k = b % 64;
        let v = if k == 0 { a } else { (a >> k) | (a << (64 - k)) };
        self.push_val(v);
        Result::Ok(())
    }

    /// `i32.div_s`: signed 32-bit division truncating toward zero; traps on a zero divisor and on overflow.
    pub fn i32_divs(&mut self) -> (r: Result<(), Fault>)
        requires
            old(self).wf(),
        ensures
            final(self).wf(),
            VM::spec_only_stack(old(self), final(self)),
            spec_i32_divs_result(old(self), final(self), r),
    {
        if self.avail() < 2 {
            return Result::Err(Fault::StackUnderflow);
        }
        let (a, b) = self.pop2();
        let x = (a as u32) as i32;
        let y = (b as u32) as i32;
        if y == 0 {
            return Result::Err(Fault::Trap(Trap::DivideByZero));
        }
        match x.checked_div(y) {
            Option::Some(q) => {
                self.push_val(((q as u32) as u64));
                Result::Ok(())
            },
            Option::None => {
                proof {
                    if !(x == i32::MIN && y == -1) {
                        lemma_div_in_range(x as int, y as int, i32::MIN as int, i32::MAX as int);
                    }
                }
                Result::Err(Fault::Trap(Trap::IntegerOverflow))
            },
        }
    }

    /// `i32.div_u`: unsigned 32-bit division; traps on a zero divisor.
    pub fn i32_divu(&mut self) -> (r: Result<(), Fault>)
        requires
            old(self).wf(),
        ensures
            final(self).wf(),
            VM::spec_only_stack(old(self), final(self)),
            spec_i32_divu_result(old(self), final(self), r),
    {
        if self.avail() < 2 {
            return Result::Err(Fault::StackUnderflow);
        }
        let (a, b) = self.pop2();
        let x = a as u32;
        let y = b as u32;
        if y == 0 {
            return Result::Err(Fault::Trap(Trap::DivideByZero));
        }
        let v = x / y;
        self.push_val((v as u64));
        Result::Ok(())
    }

    /// `i32.rem_s`: signed 32-bit remainder; traps on a zero divisor and on overflow.
    pub fn i32_rems(&mut self) -> (r: Result<(), Fault>)
        requires
            old(self).wf(),
        ensures
            final(self).wf(),
            VM::spec_only_stack(old(self), final(self)),
            spec_i32_rems_result(old(self), final(self), r),
    {
        if self.avail() < 2 {
            return Result::Err(Fault::StackUnderflow);
        }
        let (a, b) = self.pop2();
        let x = (a as u32) as i32;
        let y = (b as u32) as i32;
        if y == 0 {
            return Result::Err(Fault::Trap(Trap::DivideByZero));
        }
        match x.checked_rem(y) {
            Option::Some(q) => {
                self.push_val(((q as u32) as u64));
                Result::Ok(())
            },
            Option::None => Result::Err(Fault::Trap(Trap::IntegerOverflow)),
        }
    }

    /// `i32.rem_u`: unsigned 32-bit remainder; traps on a zero divisor.
    pub fn i32_remu(&mut self) -> (r: Result<(), Fault>)
        requires
            old(self).wf(),
        ensures
            final(self).wf(),
            VM::spec_only_stack(old(self), final(self)),
            spec_i32_remu_result(old(self), final(self), r),
    {
        if self.avail() < 2 {
            return Result::Err(Fault::StackUnderflow);
        }
        let (a, b) = self.pop2();
        let x = a as u32;
        let y = b as u32;
        if y == 0 {
            return Result::Err(Fault::Trap(Trap::DivideByZero));
        }
        let v = x % y;
        self.push_val((v as u64));
        Result::Ok(())
    }

    /// `i64.div_s`: signed 64-bit division truncating toward zero; traps on a zero divisor and on overflow.
    pub fn i64_divs(&mut self) -> (r: Result<(), Fault>)
        requires
            old(self).wf(),
        ensures
            final(self).wf(),
            VM::spec_only_stack(old(self), final(self)),
            spec_i64_divs_result(old(self), final(self), r),
    {
        if self.avail() < 2 {
            return Result::Err(Fault::StackUnderflow);
        }
        let (a, b) = self.pop2();
        let x = a as i64;
        let y = b as i64;
        if y == 0 {
            return Result::Err(Fault::Trap(Trap::DivideByZero));
        }
        match x.checked_div(y) {
            Option::Some(q) => {
                self.push_val((q as u64));
                Result::Ok(())
            },
            Option::None => {
                proof {
                    if !(x == i64::MIN && y == -1) {
                        lemma_div_in_range(x as int, y as int, i64::MIN as int, i64::MAX as int);
                    }
                }
                Result::Err(Fault::Trap(Trap::IntegerOverflow))
            },
        }
    }

    /// `i64.div_u`: unsigned 64-bit division; traps on a zero divisor.
    pub fn i64_divu(&mut self) -> (r: Result<(), Fault>)
        requires
            old(self).wf(),
        ensures
            final(self).wf(),
            VM::spec_only_stack(old(self), final(self)),
            spec_i64_divu_result(old(self), final(self), r),
    {
        if self.avail() < 2 {
            return Result::Err(Fault::StackUnderflow);
        }
        let (a, b) = self.pop2();
        let x = a;
        let y = b;
        if y == 0 {
            return Result::Err(Fault::Trap(Trap::DivideByZero));
        }
        let v = x / y;
        self.push_val(v);
        Result::Ok(())
    }

    /// `i64.rem_s`: signed 64-bit remainder; traps on a zero divisor and on overflow.
    pub fn i64_rems(&mut self) -> (r: Result<(), Fault>)
        requires
            old(self).wf(),
        ensures
            final(self).wf(),
            VM::spec_only_stack(old(self), final(self)),
            spec_i64_rems_result(old(self), final(self), r),
    {
        if self.avail() < 2 {
            return Result::Err(Fault::StackUnderflow);
        }
        let (a, b) = self.pop2();
        let x = a as i64;
        let y = b as i64;
        if y == 0 {
            return Result::Err(Fault::Trap(Trap::DivideByZero));
        }
        match x.checked_rem(y) {
            Option::Some(q) => {
                self.push_val((q as u64));
                Result::Ok(())
            },
            Option::None => Result::Err(Fault::Trap(Trap::IntegerOverflow)),
        }
    }

    /// `i64.rem_u`: unsigned 64-bit remainder; traps on a zero divisor.
    pub fn i64_remu(&mut self) -> (r: Result<(), Fault>)
        requires
            old(self).wf(),
        ensures
            final(self).wf(),
            VM::spec_only_stack(old(self), final(self)),
            spec_i64_remu_result(old(self), final(self), r),
    {
        if self.avail() < 2 {
            return Result::Err(Fault::StackUnderflow);
        }
        let (a, b) = self.pop2();
        let x = a;
        let y = b;
        if y == 0 {
            return Result::Err(Fault::Trap(Trap::DivideByZero));
        }
        let v = x % y;
        self.push_val(v);
        Result::Ok(())
    }

    /// `i32.wrap_i64`: the low 32 bits, zero-extended back into a slot.
    pub fn i32_wrap_i64(&mut self) -> (r: Result<(), Fault>)
        requires
            old(self).wf(),
        ensures
            final(self).wf(),
            VM::spec_only_stack(old(self), final(self)),
            spec_unop_result(old(self), final(self), r, (|a: u64| (a as u32) as u64)),
    {
        if self.avail() < 1 {
            return Result::Err(Fault::StackUnderflow);
        }
        let a = self.pop1();
        let v = #[verifier::truncate] ((a as u32)) as u64;
        self.push_val(v);
        Result::Ok(())
    }

    /// `i64.extend_i32_s`: sign-extend the low 32 bits.
    pub fn i64_extend_i32(&mut self) -> (r: Result<(), Fault>)
        requires
            old(self).wf(),
        ensures
            final(self).wf(),
            VM::spec_only_stack(old(self), final(self)),
            spec_unop_result(old(self), final(self), r, (|a: u64| (((a as u32) as i32) as i64) as u64)),
    {
        if self.avail() < 1 {
            return Result::Err(Fault::StackUnderflow);
        }
        let a = self.pop1();
        let v = ((#[verifier::truncate] ((a as u32)) as i32) as i64) as u64;
        self.push_val(v);
        Result::Ok(())
    }

    /// `i64.extend_i32_u`: zero-extend the low 32 bits.
    pub fn i64_extend_u32(&mut self) -> (r: Result<(), Fault>)
        requires
            old(self).wf(),
        ensures
            final(self).wf(),
            VM::spec_only_stack(old(self), final(self)),
            spec_unop_result(old(self), final(self), r, (|a: u64| (a as u32) as u64)),
    {
        if self.avail() < 1 {
            return Result::Err(Fault::StackUnderflow);
        }
        let a = self.pop1();
        let v = #[verifier::truncate] ((a as u32)) as u64;
        self.push_val(v);
        Result::Ok(())
    }

    /// `i32.extend8_s`: sign-extend the low 8 bits to 32 bits.
    pub fn i32_extend_8(&mut self) -> (r: Result<(), Fault>)
        requires
            old(self).wf(),
        ensures
            final(self).wf(),
            VM::spec_only_stack(old(self), final(self)),
            spec_unop_result(old(self), final(self), r, (|a: u64| (((((a as u8) as i8) as i32) as u32) as u64))),
    {
        if self.avail() < 1 {
            return Result::Err(Fault::StackUnderflow);
        }
        let a = self.pop1();
        let v = ((#[verifier::truncate] ((a as u8)) as i8) as i32) as u32 as u64;
        self.push_val(v);
        Result::Ok(())
    }

    /// `i32.extend16_s`: sign-extend the low 16 bits to 32 bits.
    pub fn i32_extend_16(&mut self) -> (r: Result<(), Fault>)
        requires
            old(self).wf(),
        ensures
            final(self).wf(),
            VM::spec_only_stack(old(self), final(self)),
            spec_unop_result(old(self), final(self), r, (|a: u64| (((((a as u16) as i16) as i32) as u32) as u64))),
    {
        if self.avail() < 1 {
            return Result::Err(Fault::StackUnderflow);
        }
        let a = self.pop1();
        let v = ((#[verifier::truncate] ((a as u16)) as i16) as i32) as u32 as u64;
        self.push_val(v);
        Result::Ok(())
    }

    /// `i64.extend8_s`: sign-extend the low 8 bits to 64 bits.
    pub fn i64_extend_8(&mut self) -> (r: Result<(), Fault>)
        requires
            old(self).wf(),
        ensures
            final(self).wf(),
            VM::spec_only_stack(old(self), final(self)),
            spec_unop_result(old(self), final(self), r, (|a: u64| ((((a as u8) as i8) as i64) as u64))),
    {
        if self.avail() < 1 {
            return Result::Err(Fault::StackUnderflow);
        }
        let a = self.pop1();
        let v = ((#[verifier::truncate] ((a as u8)) as i8) as i64) as u64;
        self.push_val(v);
        Result::Ok(())
    }

    /// `i64.extend16_s`: sign-extend the low 16 bits to 64 bits.
    pub fn i64_extend_16(&mut self) -> (r: Result<(), Fault>)
        requires
            old(self).wf(),
        ensures
            final(self).wf(),
            VM::spec_only_stack(old(self), final(self)),
            spec_unop_result(old(self), final(self), r, (|a: u64| ((((a as u16) as i16) as i64) as u64))),
    {
        if self.avail() < 1 {
            return Result::Err(Fault::StackUnderflow);
        }
        let a = self.pop1();
        let v = ((#[verifier::truncate] ((a as u16)) as i16) as i64) as u64;
        self.push_val(v);
        Result::Ok(())
    }

    /// `i64.extend32_s`: sign-extend the low 32 bits to 64 bits.
    pub fn i64_extend_32(&mut self) -> (r: Result<(), Fault>)
        requires
            old(self).wf(),
        ensures
            final(self).wf(),
            VM::spec_only_stack(old(self), final(self)),
            spec_unop_result(old(self), final(self), r, (|a: u64| ((((a as u32) as i32) as i64) as u64))),
    {
        if self.avail() < 1 {
            return Result::Err(Fault::StackUnderflow);
        }
        let a = self.pop1();
        let v = ((#[verifier::truncate] ((a as u32)) as i32) as i64) as u64;
        self.push_val(v);
        Result::Ok(())
    }

    /// `i32.reinterpret_f32`: identity on the slot's bit pattern.
    pub fn i32_reinterpret_f32(&mut self)
        requires
            old(self).wf(),
        ensures
            final(self).wf(),
            *final(self) == *old(self),
    {
    }

    /// `i64.reinterpret_f64`: identity on the slot's bit pattern.
    pub fn i64_reinterpret_f64(&mut self)
        requires
            old(self).wf(),
        ensures
            final(self).wf(),
            *final(self) == *old(self),
    {
    }

    /// `f32.reinterpret_i32`: identity on the slot's bit pattern.
    pub fn f32_reinterpret_i32(&mut self)
        requires
            old(self).wf(),
        ensures
            final(self).wf(),
            *final(self) == *old(self),
    {
    }

    /// `f64.reinterpret_i64`: identity on the slot's bit pattern.
    pub fn f64_reinterpret_i64(&mut self)
        requires
            old(self).wf(),
        ensures
            final(self).wf(),
            *final(self) == *old(self),
    {
    }

    /// `f32.eq`: IEEE-754 32-bit equality, by the float unit.
    pub fn f32_eq<F: Fn(FloatOp, u64, u64) -> Option<u64>>(&mut self, fu: &F) -> (r: Result<
        (),
        Fault,
    >)
        requires
            old(self).wf(),
            spec_float_unit_total(fu),
        ensures
            final(self).wf(),
            VM::spec_only_stack(old(self), final(self)),
            spec_float_cmp_result(old(self), final(self), r, FloatOp::F32Eq, fu),
    {
        self.float_cmp(FloatOp::F32Eq, fu)
    }

    /// `f32.ne`: IEEE-754 32-bit inequality, by the float unit.
    pub fn f32_neq<F: Fn(FloatOp, u64, u64) -> Option<u64>>(&mut self, fu: &F) -> (r: Result<
        (),
        Fault,
    >)
        requires
            old(self).wf(),
            spec_float_unit_total(fu),
        ensures
            final(self).wf(),
            VM::spec_only_stack(old(self), final(self)),
            spec_float_cmp_result(old(self), final(self), r, FloatOp::F32Ne, fu),
    {
        self.float_cmp(FloatOp::F32Ne, fu)
    }

    /// `f32.lt`: IEEE-754 32-bit less-than, by the float unit.
    pub fn f32_lt<F: Fn(FloatOp, u64, u64) -> Option<u64>>(&mut self, fu: &F) -> (r: Result<
        (),
        Fault,
    >)
        requires
            old(self).wf(),
            spec_float_unit_total(fu),
        ensures
            final(self).wf(),
            VM::spec_only_stack(old(self), final(self)),
            spec_float_cmp_result(old(self), final(self), r, FloatOp::F32Lt, fu),
    {
        self.float_cmp(FloatOp::F32Lt, fu)
    }

    /// `f32.gt`: IEEE-754 32-bit greater-than, by the float unit.
    pub fn f32_gt<F: Fn(FloatOp, u64, u64) -> Option<u64>>(&mut self, fu: &F) -> (r: Result<
        (),
        Fault,
    >)
        requires
            old(self).wf(),
            spec_float_unit_total(fu),
        ensures
            final(self).wf(),
            VM::spec_only_stack(old(self), final(self)),
            spec_float_cmp_result(old(self), final(self), r, FloatOp::F32Gt, fu),
    {
        self.float_cmp(FloatOp::F32Gt, fu)
    }

    /// `f32.le`: IEEE-754 32-bit at-most, by the float unit.
    pub fn f32_le<F: Fn(FloatOp, u64, u64) -> Option<u64>>(&mut self, fu: &F) -> (r: Result<
        (),
        Fault,
    >)
        requires
            old(self).wf(),
            spec_float_unit_total(fu),
        ensures
            final(self).wf(),
            VM::spec_only_stack(old(self), final(self)),
            spec_float_cmp_result(old(self), final(self), r, FloatOp::F32Le, fu),
    {
        self.float_cmp(FloatOp::F32Le, fu)
    }

    /// `f32.ge`: IEEE-754 32-bit at-least, by the float unit.
    pub fn f32_ge<F: Fn(FloatOp, u64, u64) -> Option<u64>>(&mut self, fu: &F) -> (r: Result<
        (),
        Fault,
    >)
        requires
            old(self).wf(),
            spec_float_unit_total(fu),
        ensures
            final(self).wf(),
            VM::spec_only_stack(old(self), final(self)),
            spec_float_cmp_result(old(self), final(self), r, FloatOp::F32Ge, fu),
    {
        self.float_cmp(FloatOp::F32Ge, fu)
    }

    /// `f64.eq`: IEEE-754 64-bit equality, by the float unit.
    pub fn f64_eq<F: Fn(FloatOp, u64, u64) -> Option<u64>>(&mut self, fu: &F) -> (r: Result<
        (),
        Fault,
    >)
        requires
            old(self).wf(),
            spec_float_unit_total(fu),
        ensures
            final(self).wf(),
            VM::spec_only_stack(old(self), final(self)),
            spec_float_cmp_result(old(self), final(self), r, FloatOp::F64Eq, fu),
    {
        self.float_cmp(FloatOp::F64Eq, fu)
    }

    /// `f64.ne`: IEEE-754 64-bit inequality, by the float unit.
    pub fn f64_neq<F: Fn(FloatOp, u64, u64) -> Option<u64>>(&mut self, fu: &F) -> (r: Result<
        (),
        Fault,
    >)
        requires
            old(self).wf(),
            spec_float_unit_total(fu),
        ensures
            final(self).wf(),
            VM::spec_only_stack(old(self), final(self)),
            spec_float_cmp_result(old(self), final(self), r, FloatOp::F64Ne, fu),
    {
        self.float_cmp(FloatOp::F64Ne, fu)
    }

    /// `f64.lt`: IEEE-754 64-bit less-than, by the float unit.
    pub fn f64_lt<F: Fn(FloatOp, u64, u64) -> Option<u64>>(&mut self, fu: &F) -> (r: Result<
        (),
        Fault,
    >)
        requires
            old(self).wf(),
            spec_float_unit_total(fu),
        ensures
            final(self).wf(),
            VM::spec_only_stack(old(self), final(self)),
            spec_float_cmp_result(old(self), final(self), r, FloatOp::F64Lt, fu),
    {
        self.float_cmp(FloatOp::F64Lt, fu)
    }

    /// `f64.gt`: IEEE-754 64-bit greater-than, by the float unit.
    pub fn f64_gt<F: Fn(FloatOp, u64, u64) -> Option<u64>>(&mut self, fu: &F) -> (r: Result<
        (),
        Fault,
    >)
        requires
            old(self).wf(),
            spec_float_unit_total(fu),
        ensures
            final(self).wf(),
            VM::spec_only_stack(old(self), final(self)),
            spec_float_cmp_result(old(self), final(self), r, FloatOp::F64Gt, fu),
    {
        self.float_cmp(FloatOp::F64Gt, fu)
    }

    /// `f64.le`: IEEE-754 64-bit at-most, by the float unit.
    pub fn f64_le<F: Fn(FloatOp, u64, u64) -> Option<u64>>(&mut self, fu: &F) -> (r: Result<
        (),
        Fault,
    >)
        requires
            old(self).wf(),
            spec_float_unit_total(fu),
        ensures
            final(self).wf(),
            VM::spec_only_stack(old(self), final(self)),
            spec_float_cmp_result(old(self), final(self), r, FloatOp::F64Le, fu),
    {
        self.float_cmp(FloatOp::F64Le, fu)
    }

    /// `f64.ge`: IEEE-754 64-bit at-least, by the float unit.
    pub fn f64_ge<F: Fn(FloatOp, u64, u64) -> Option<u64>>(&mut self, fu: &F) -> (r: Result<
        (),
        Fault,
    >)
        requires
            old(self).wf(),
            spec_float_unit_total(fu),
        ensures
            final(self).wf(),
            VM::spec_only_stack(old(self), final(self)),
            spec_float_cmp_result(old(self), final(self), r, FloatOp::F64Ge, fu),
    {
        self.float_cmp(FloatOp::F64Ge, fu)
    }

    /// `f32.abs`: IEEE-754 absolute value, by the float unit.
    pub fn f32_abs<F: Fn(FloatOp, u64, u64) -> Option<u64>>(&mut self, fu: &F) -> (r: Result<
        (),
        Fault,
    >)
        requires
            old(self).wf(),
            spec_float_unit_total(fu),
        ensures
            final(self).wf(),
            VM::spec_only_stack(old(self), final(self)),
            spec_float_unop_result(old(self), final(self), r, FloatOp::F32Abs, fu),
    {
        self.float_unop(FloatOp::F32Abs, fu)
    }

    /// `f32.neg`: IEEE-754 negation, by the float unit.
    pub fn f32_neg<F: Fn(FloatOp, u64, u64) -> Option<u64>>(&mut self, fu: &F) -> (r: Result<
        (),
        Fault,
    >)
        requires
            old(self).wf(),
            spec_float_unit_total(fu),
        ensures
            final(self).wf(),
            VM::spec_only_stack(old(self), final(self)),
            spec_float_unop_result(old(self), final(self), r, FloatOp::F32Neg, fu),
    {
        self.float_unop(FloatOp::F32Neg, fu)
    }

    /// `f32.ceil`: round up, by the float unit.
    pub fn f32_ceil<F: Fn(FloatOp, u64, u64) -> Option<u64>>(&mut self, fu: &F) -> (r: Result<
        (),
        Fault,
    >)
        requires
            old(self).wf(),
            spec_float_unit_total(fu),
        ensures
            final(self).wf(),
            VM::spec_only_stack(old(self), final(self)),
            spec_float_unop_result(old(self), final(self), r, FloatOp::F32Ceil, fu),
    {
        self.float_unop(FloatOp::F32Ceil, fu)
    }

    /// `f32.floor`: round down, by the float unit.
    pub fn f32_floor<F: Fn(FloatOp, u64, u64) -> Option<u64>>(&mut self, fu: &F) -> (r: Result<
        (),
        Fault,
    >)
        requires
            old(self).wf(),
            spec_float_unit_total(fu),
        ensures
            final(self).wf(),
            VM::spec_only_stack(old(self), final(self)),
            spec_float_unop_result(old(self), final(self), r, FloatOp::F32Floor, fu),
    {
        self.float_unop(FloatOp::F32Floor, fu)
    }

    /// `f32.trunc`: round toward zero, by the float unit.
    pub fn f32_trunc<F: Fn(FloatOp, u64, u64) -> Option<u64>>(&mut self, fu: &F) -> (r: Result<
        (),
        Fault,
    >)
        requires
            old(self).wf(),
            spec_float_unit_total(fu),
        ensures
            final(self).wf(),
            VM::spec_only_stack(old(self), final(self)),
            spec_float_unop_result(old(self), final(self), r, FloatOp::F32Trunc, fu),
    {
        self.float_unop(FloatOp::F32Trunc, fu)
    }

    /// `f32.nearest`: round to nearest, by the float unit.
    pub fn f32_nearest<F: Fn(FloatOp, u64, u64) -> Option<u64>>(&mut self, fu: &F) -> (r: Result<
        (),
        Fault,
    >)
        requires
            old(self).wf(),
            spec_float_unit_total(fu),
        ensures
            final(self).wf(),
            VM::spec_only_stack(old(self), final(self)),
            spec_float_unop_result(old(self), final(self), r, FloatOp::F32Nearest, fu),
    {
        self.float_unop(FloatOp::F32Nearest, fu)
    }

    /// `f32.sqrt`: square root, by the float unit.
    pub fn f32_sqrt<F: Fn(FloatOp, u64, u64) -> Option<u64>>(&mut self, fu: &F) -> (r: Result<
        (),
        Fault,
    >)
        requires
            old(self).wf(),
            spec_float_unit_total(fu),
        ensures
            final(self).wf(),
            VM::spec_only_stack(old(self), final(self)),
            spec_float_unop_result(old(self), final(self), r, FloatOp::F32Sqrt, fu),
    {
        self.float_unop(FloatOp::F32Sqrt, fu)
    }

    /// `f64.abs`: IEEE-754 absolute value, by the float unit.
    pub fn f64_abs<F: Fn(FloatOp, u64, u64) -> Option<u64>>(&mut self, fu: &F) -> (r: Result<
        (),
        Fault,
    >)
        requires
            old(self).wf(),
            spec_float_unit_total(fu),
        ensures
            final(self).wf(),
            VM::spec_only_stack(old(self), final(self)),
            spec_float_unop_result(old(self), final(self), r, FloatOp::F64Abs, fu),
    {
        self.float_unop(FloatOp::F64Abs, fu)
    }

    /// `f64.neg`: IEEE-754 negation, by the float unit.
    pub fn f64_neg<F: Fn(FloatOp, u64, u64) -> Option<u64>>(&mut self, fu: &F) -> (r: Result<
        (),
        Fault,
    >)
        requires
            old(self).wf(),
            spec_float_unit_total(fu),
        ensures
            final(self).wf(),
            VM::spec_only_stack(old(self), final(self)),
            spec_float_unop_result(old(self), final(self), r, FloatOp::F64Neg, fu),
    {
        self.float_unop(FloatOp::F64Neg, fu)
    }

    /// `f64.ceil`: round up, by the float unit.
    pub fn f64_ceil<F: Fn(FloatOp, u64, u64) -> Option<u64>>(&mut self, fu: &F) -> (r: Result<
        (),
        Fault,
    >)
        requires
            old(self).wf(),
            spec_float_unit_total(fu),
        ensures
            final(self).wf(),
            VM::spec_only_stack(old(self), final(self)),
            spec_float_unop_result(old(self), final(self), r, FloatOp::F64Ceil, fu),
    {
        self.float_unop(FloatOp::F64Ceil, fu)
    }

    /// `f64.floor`: round down, by the float unit.
    pub fn f64_floor<F: Fn(FloatOp, u64, u64) -> Option<u64>>(&mut self, fu: &F) -> (r: Result<
        (),
        Fault,
    >)
        requires
            old(self).wf(),
            spec_float_unit_total(fu),
        ensures
            final(self).wf(),
            VM::spec_only_stack(old(self), final(self)),
            spec_float_unop_result(old(self), final(self), r, FloatOp::F64Floor, fu),
    {
        self.float_unop(FloatOp::F64Floor, fu)
    }

    /// `f64.trunc`: round toward zero, by the float unit.
    pub fn f64_trunc<F: Fn(FloatOp, u64, u64) -> Option<u64>>(&mut self, fu: &F) -> (r: Result<
        (),
        Fault,
    >)
        requires
            old(self).wf(),
            spec_float_unit_total(fu),
        ensures
            final(self).wf(),
            VM::spec_only_stack(old(self), final(self)),
            spec_float_unop_result(old(self), final(self), r, FloatOp::F64Trunc, fu),
    {
        self.float_unop(FloatOp::F64Trunc, fu)
    }

    /// `f64.nearest`: round to nearest, by the float unit.
    pub fn f64_nearest<F: Fn(FloatOp, u64, u64) -> Option<u64>>(&mut self, fu: &F) -> (r: Result<
        (),
        Fault,
    >)
        requires
            old(self).wf(),
            spec_float_unit_total(fu),
        ensures
            final(self).wf(),
            VM::spec_only_stack(old(self), final(self)),
            spec_float_unop_result(old(self), final(self), r, FloatOp::F64Nearest, fu),
    {
        self.float_unop(FloatOp::F64Nearest, fu)
    }

    /// `f64.sqrt`: square root, by the float unit.
    pub fn f64_sqrt<F: Fn(FloatOp, u64, u64) -> Option<u64>>(&mut self, fu: &F) -> (r: Result<
        (),
        Fault,
    >)
        requires
            old(self).wf(),
            spec_float_unit_total(fu),
        ensures
            final(self).wf(),
            VM::spec_only_stack(old(self), final(self)),
            spec_float_unop_result(old(self), final(self), r, FloatOp::F64Sqrt, fu),
    {
        self.float_unop(FloatOp::F64Sqrt, fu)
    }

    /// `f32.add`: IEEE-754 addition, by the float unit.
    pub fn f32_add<F: Fn(FloatOp, u64, u64) -> Option<u64>>(&mut self, fu: &F) -> (r: Result<
        (),
        Fault,
    >)
        requires
            old(self).wf(),
            spec_float_unit_total(fu),
        ensures
            final(self).wf(),
            VM::spec_only_stack(old(self), final(self)),
            spec_float_binop_result(old(self), final(self), r, FloatOp::F32Add, fu),
    {
        self.float_binop(FloatOp::F32Add, fu)
    }

    /// `f32.sub`: IEEE-754 subtraction, by the float unit.
    pub fn f32_sub<F: Fn(FloatOp, u64, u64) -> Option<u64>>(&mut self, fu: &F) -> (r: Result<
        (),
        Fault,
    >)
        requires
            old(self).wf(),
            spec_float_unit_total(fu),
        ensures
            final(self).wf(),
            VM::spec_only_stack(old(self), final(self)),
            spec_float_binop_result(old(self), final(self), r, FloatOp::F32Sub, fu),
    {
        self.float_binop(FloatOp::F32Sub, fu)
    }

    /// `f32.mul`: IEEE-754 multiplication, by the float unit.
    pub fn f32_mul<F: Fn(FloatOp, u64, u64) -> Option<u64>>(&mut self, fu: &F) -> (r: Result<
        (),
        Fault,
    >)
        requires
            old(self).wf(),
            spec_float_unit_total(fu),
        ensures
            final(self).wf(),
            VM::spec_only_stack(old(self), final(self)),
            spec_float_binop_result(old(self), final(self), r, FloatOp::F32Mul, fu),
    {
        self.float_binop(FloatOp::F32Mul, fu)
    }

    /// `f32.div`: IEEE-754 division, by the float unit.
    pub fn f32_div<F: Fn(FloatOp, u64, u64) -> Option<u64>>(&mut self, fu: &F) -> (r: Result<
        (),
        Fault,
    >)
        requires
            old(self).wf(),
            spec_float_unit_total(fu),
        ensures
            final(self).wf(),
            VM::spec_only_stack(old(self), final(self)),
            spec_float_binop_result(old(self), final(self), r, FloatOp::F32Div, fu),
    {
        self.float_binop(FloatOp::F32Div, fu)
    }

    /// `f32.min`: IEEE-754 minimum, by the float unit.
    pub fn f32_min<F: Fn(FloatOp, u64, u64) -> Option<u64>>(&mut self, fu: &F) -> (r: Result<
        (),
        Fault,
    >)
        requires
            old(self).wf(),
            spec_float_unit_total(fu),
        ensures
            final(self).wf(),
            VM::spec_only_stack(old(self), final(self)),
            spec_float_binop_result(old(self), final(self), r, FloatOp::F32Min, fu),
    {
        self.float_binop(FloatOp::F32Min, fu)
    }

    /// `f32.max`: IEEE-754 maximum, by the float unit.
    pub fn f32_max<F: Fn(FloatOp, u64, u64) -> Option<u64>>(&mut self, fu: &F) -> (r: Result<
        (),
        Fault,
    >)
        requires
            old(self).wf(),
            spec_float_unit_total(fu),
        ensures
            final(self).wf(),
            VM::spec_only_stack(old(self), final(self)),
            spec_float_binop_result(old(self), final(self), r, FloatOp::F32Max, fu),
    {
        self.float_binop(FloatOp::F32Max, fu)
    }

    /// `f32.copysign`: copy the sign bit, by the float unit.
    pub fn f32_copy_sign<F: Fn(FloatOp, u64, u64) -> Option<u64>>(&mut self, fu: &F) -> (r: Result<
        (),
        Fault,
    >)
        requires
            old(self).wf(),
            spec_float_unit_total(fu),
        ensures
            final(self).wf(),
            VM::spec_only_stack(old(self), final(self)),
            spec_float_binop_result(old(self), final(self), r, FloatOp::F32CopySign, fu),
    {
        self.float_binop(FloatOp::F32CopySign, fu)
    }

    /// `f64.add`: IEEE-754 addition, by the float unit.
    pub fn f64_add<F: Fn(FloatOp, u64, u64) -> Option<u64>>(&mut self, fu: &F) -> (r: Result<
        (),
        Fault,
    >)
        requires
            old(self).wf(),
            spec_float_unit_total(fu),
        ensures
            final(self).wf(),
            VM::spec_only_stack(old(self), final(self)),
            spec_float_binop_result(old(self), final(self), r, FloatOp::F64Add, fu),
    {
        self.float_binop(FloatOp::F64Add, fu)
    }

    /// `f64.sub`: IEEE-754 subtraction, by the float unit.
    pub fn f64_sub<F: Fn(FloatOp, u64, u64) -> Option<u64>>(&mut self, fu: &F) -> (r: Result<
        (),
        Fault,
    >)
        requires
            old(self).wf(),
            spec_float_unit_total(fu),
        ensures
            final(self).wf(),
            VM::spec_only_stack(old(self), final(self)),
            spec_float_binop_result(old(self), final(self), r, FloatOp::F64Sub, fu),
    {
        self.float_binop(FloatOp::F64Sub, fu)
    }

    /// `f64.mul`: IEEE-754 multiplication, by the float unit.
    pub fn f64_mul<F: Fn(FloatOp, u64, u64) -> Option<u64>>(&mut self, fu: &F) -> (r: Result<
        (),
        Fault,
    >)
        requires
            old(self).wf(),
            spec_float_unit_total(fu),
        ensures
            final(self).wf(),
            VM::spec_only_stack(old(self), final(self)),
            spec_float_binop_result(old(self), final(self), r, FloatOp::F64Mul, fu),
    {
        self.float_binop(FloatOp::F64Mul, fu)
    }

    /// `f64.div`: IEEE-754 division, by the float unit.
    pub fn f64_div<F: Fn(FloatOp, u64, u64) -> Option<u64>>(&mut self, fu: &F) -> (r: Result<
        (),
        Fault,
    >)
        requires
            old(self).wf(),
            spec_float_unit_total(fu),
        ensures
            final(self).wf(),
            VM::spec_only_stack(old(self), final(self)),
            spec_float_binop_result(old(self), final(self), r, FloatOp::F64Div, fu),
    {
        self.float_binop(FloatOp::F64Div, fu)
    }

    /// `f64.min`: IEEE-754 minimum, by the float unit.
    pub fn f64_min<F: Fn(FloatOp, u64, u64) -> Option<u64>>(&mut self, fu: &F) -> (r: Result<
        (),
        Fault,
    >)
        requires
            old(self).wf(),
            spec_float_unit_total(fu),
        ensures
            final(self).wf(),
            VM::spec_only_stack(old(self), final(self)),
            spec_float_binop_result(old(self), final(self), r, FloatOp::F64Min, fu),
    {
        self.float_binop(FloatOp::F64Min, fu)
    }

    /// `f64.max`: IEEE-754 maximum, by the float unit.
    pub fn f64_max<F: Fn(FloatOp, u64, u64) -> Option<u64>>(&mut self, fu: &F) -> (r: Result<
        (),
        Fault,
    >)
        requires
            old(self).wf(),
            spec_float_unit_total(fu),
        ensures
            final(self).wf(),
            VM::spec_only_stack(old(self), final(self)),
            spec_float_binop_result(old(self), final(self), r, FloatOp::F64Max, fu),
    {
        self.float_binop(FloatOp::F64Max, fu)
    }

    /// `f64.copysign`: copy the sign bit, by the float unit.
    pub fn f64_copy_sign<F: Fn(FloatOp, u64, u64) -> Option<u64>>(&mut self, fu: &F) -> (r: Result<
        (),
        Fault,
    >)
        requires
            old(self).wf(),
            spec_float_unit_total(fu),
        ensures
            final(self).wf(),
            VM::spec_only_stack(old(self), final(self)),
            spec_float_binop_result(old(self), final(self), r, FloatOp::F64CopySign, fu),
    {
        self.float_binop(FloatOp::F64CopySign, fu)
    }

    /// `i32.trunc_f32_s`: float-to-signed-32 truncation, by the float unit; traps when no integer fits.
    pub fn i32_trunc_f32<F: Fn(FloatOp, u64, u64) -> Option<u64>>(&mut self, fu: &F) -> (r: Result<
        (),
        Fault,
    >)
        requires
            old(self).wf(),
            spec_float_unit_total(fu),
        ensures
            final(self).wf(),
            VM::spec_only_stack(old(self), final(self)),
            spec_float_unop_result(old(self), final(self), r, FloatOp::I32TruncF32S, fu),
    {
        self.float_unop(FloatOp::I32TruncF32S, fu)
    }

    /// `i32.trunc_f32_u`: float-to-unsigned-32 truncation, by the float unit; traps when no integer fits.
    pub fn u32_trunc_f32<F: Fn(FloatOp, u64, u64) -> Option<u64>>(&mut self, fu: &F) -> (r: Result<
        (),
        Fault,
    >)
        requires
            old(self).wf(),
            spec_float_unit_total(fu),
        ensures
            final(self).wf(),
            VM::spec_only_stack(old(self), final(self)),
            spec_float_unop_result(old(self), final(self), r, FloatOp::I32TruncF32U, fu),
    {
        self.float_unop(FloatOp::I32TruncF32U, fu)
    }

    /// `i32.trunc_f64_s`: double-to-signed-32 truncation, by the float unit; traps when no integer fits.
    pub fn i32_trunc_f64<F: Fn(FloatOp, u64, u64) -> Option<u64>>(&mut self, fu: &F) -> (r: Result<
        (),
        Fault,
    >)
        requires
            old(self).wf(),
            spec_float_unit_total(fu),
        ensures
            final(self).wf(),
            VM::spec_only_stack(old(self), final(self)),
            spec_float_unop_result(old(self), final(self), r, FloatOp::I32TruncF64S, fu),
    {
        self.float_unop(FloatOp::I32TruncF64S, fu)
    }

    /// `i32.trunc_f64_u`: double-to-unsigned-32 truncation, by the float unit; traps when no integer fits.
    pub fn u32_trunc_f64<F: Fn(FloatOp, u64, u64) -> Option<u64>>(&mut self, fu: &F) -> (r: Result<
        (),
        Fault,
    >)
        requires
            old(self).wf(),
            spec_float_unit_total(fu),
        ensures
            final(self).wf(),
            VM::spec_only_stack(old(self), final(self)),
            spec_float_unop_result(old(self), final(self), r, FloatOp::I32TruncF64U, fu),
    {
        self.float_unop(FloatOp::I32TruncF64U, fu)
    }

    /// `i64.trunc_f32_s`: float-to-signed-64 truncation, by the float unit; traps when no integer fits.
    pub fn i64_trunc_f32<F: Fn(FloatOp, u64, u64) -> Option<u64>>(&mut self, fu: &F) -> (r: Result<
        (),
        Fault,
    >)
        requires
            old(self).wf(),
            spec_float_unit_total(fu),
        ensures
            final(self).wf(),
            VM::spec_only_stack(old(self), final(self)),
            spec_float_unop_result(old(self), final(self), r, FloatOp::I64TruncF32S, fu),
    {
        self.float_unop(FloatOp::I64TruncF32S, fu)
    }

    /// `i64.trunc_f32_u`: float-to-unsigned-64 truncation, by the float unit; traps when no integer fits.
    pub fn u64_trunc_f32<F: Fn(FloatOp, u64, u64) -> Option<u64>>(&mut self, fu: &F) -> (r: Result<
        (),
        Fault,
    >)
        requires
            old(self).wf(),
            spec_float_unit_total(fu),
        ensures
            final(self).wf(),
            VM::spec_only_stack(old(self), final(self)),
            spec_float_unop_result(old(self), final(self), r, FloatOp::I64TruncF32U, fu),
    {
        self.float_unop(FloatOp::I64TruncF32U, fu)
    }

    /// `i64.trunc_f64_s`: double-to-signed-64 truncation, by the float unit; traps when no integer fits.
    pub fn i64_trunc_f64<F: Fn(FloatOp, u64, u64) -> Option<u64>>(&mut self, fu: &F) -> (r: Result<
        (),
        Fault,
    >)
        requires
            old(self).wf(),
            spec_float_unit_total(fu),
        ensures
            final(self).wf(),
            VM::spec_only_stack(old(self), final(self)),
            spec_float_unop_result(old(self), final(self), r, FloatOp::I64TruncF64S, fu),
    {
        self.float_unop(FloatOp::I64TruncF64S, fu)
    }

    /// `i64.trunc_f64_u`: double-to-unsigned-64 truncation, by the float unit; traps when no integer fits.
    pub fn u64_trunc_f64<F: Fn(FloatOp, u64, u64) -> Option<u64>>(&mut self, fu: &F) -> (r: Result<
        (),
        Fault,
    >)
        requires
            old(self).wf(),
            spec_float_unit_total(fu),
        ensures
            final(self).wf(),
            VM::spec_only_stack(old(self), final(self)),
            spec_float_unop_result(old(self), final(self), r, FloatOp::I64TruncF64U, fu),
    {
        self.float_unop(FloatOp::I64TruncF64U, fu)
    }

    /// `f32.convert_i32_s`: signed-32-to-float conversion, by the float unit.
    pub fn f32_convert_i32<F: Fn(FloatOp, u64, u64) -> Option<u64>>(&mut self, fu: &F) -> (r: Result<
        (),
        Fault,
    >)
        requires
            old(self).wf(),
            spec_float_unit_total(fu),
        ensures
            final(self).wf(),
            VM::spec_only_stack(old(self), final(self)),
            spec_float_unop_result(old(self), final(self), r, FloatOp::F32ConvertI32S, fu),
    {
        self.float_unop(FloatOp::F32ConvertI32S, fu)
    }

    /// `f32.convert_i32_u`: unsigned-32-to-float conversion, by the float unit.
    pub fn f32_convert_u32<F: Fn(FloatOp, u64, u64) -> Option<u64>>(&mut self, fu: &F) -> (r: Result<
        (),
        Fault,
    >)
        requires
            old(self).wf(),
            spec_float_unit_total(fu),
        ensures
            final(self).wf(),
            VM::spec_only_stack(old(self), final(self)),
            spec_float_unop_result(old(self), final(self), r, FloatOp::F32ConvertI32U, fu),
    {
        self.float_unop(FloatOp::F32ConvertI32U, fu)
    }

    /// `f32.convert_i64_s`: signed-64-to-float conversion, by the float unit.
    pub fn f32_convert_i64<F: Fn(FloatOp, u64, u64) -> Option<u64>>(&mut self, fu: &F) -> (r: Result<
        (),
        Fault,
    >)
        requires
            old(self).wf(),
            spec_float_unit_total(fu),
        ensures
            final(self).wf(),
            VM::spec_only_stack(old(self), final(self)),
            spec_float_unop_result(old(self), final(self), r, FloatOp::F32ConvertI64S, fu),
    {
        self.float_unop(FloatOp::F32ConvertI64S, fu)
    }

    /// `f32.convert_i64_u`: unsigned-64-to-float conversion, by the float unit.
    pub fn f32_convert_u64<F: Fn(FloatOp, u64, u64) -> Option<u64>>(&mut self, fu: &F) -> (r: Result<
        (),
        Fault,
    >)
        requires
            old(self).wf(),
            spec_float_unit_total(fu),
        ensures
            final(self).wf(),
            VM::spec_only_stack(old(self), final(self)),
            spec_float_unop_result(old(self), final(self), r, FloatOp::F32ConvertI64U, fu),
    {
        self.float_unop(FloatOp::F32ConvertI64U, fu)
    }

    /// `f64.convert_i32_s`: signed-32-to-double conversion, by the float unit.
    pub fn f64_convert_i32<F: Fn(FloatOp, u64, u64) -> Option<u64>>(&mut self, fu: &F) -> (r: Result<
        (),
        Fault,
    >)
        requires
            old(self).wf(),
            spec_float_unit_total(fu),
        ensures
            final(self).wf(),
            VM::spec_only_stack(old(self), final(self)),
            spec_float_unop_result(old(self), final(self), r, FloatOp::F64ConvertI32S, fu),
    {
        self.float_unop(FloatOp::F64ConvertI32S, fu)
    }

    /// `f64.convert_i32_u`: unsigned-32-to-double conversion, by the float unit.
    pub fn f64_convert_u32<F: Fn(FloatOp, u64, u64) -> Option<u64>>(&mut self, fu: &F) -> (r: Result<
        (),
        Fault,
    >)
        requires
            old(self).wf(),
            spec_float_unit_total(fu),
        ensures
            final(self).wf(),
            VM::spec_only_stack(old(self), final(self)),
            spec_float_unop_result(old(self), final(self), r, FloatOp::F64ConvertI32U, fu),
    {
        self.float_unop(FloatOp::F64ConvertI32U, fu)
    }

    /// `f64.convert_i64_s`: signed-64-to-double conversion, by the float unit.
    pub fn f64_convert_i64<F: Fn(FloatOp, u64, u64) -> Option<u64>>(&mut self, fu: &F) -> (r: Result<
        (),
        Fault,
    >)
        requires
            old(self).wf(),
            spec_float_unit_total(fu),
        ensures
            final(self).wf(),
            VM::spec_only_stack(old(self), final(self)),
            spec_float_unop_result(old(self), final(self), r, FloatOp::F64ConvertI64S, fu),
    {
        self.float_unop(FloatOp::F64ConvertI64S, fu)
    }

    /// `f64.convert_i64_u`: unsigned-64-to-double conversion, by the float unit.
    pub fn f64_convert_u64<F: Fn(FloatOp, u64, u64) -> Option<u64>>(&mut self, fu: &F) -> (r: Result<
        (),
        Fault,
    >)
        requires
            old(self).wf(),
            spec_float_unit_total(fu),
        ensures
            final(self).wf(),
            VM::spec_only_stack(old(self), final(self)),
            spec_float_unop_result(old(self), final(self), r, FloatOp::F64ConvertI64U, fu),
    {
        self.float_unop(FloatOp::F64ConvertI64U, fu)
    }

    /// `f32.demote_f64`: precision demotion, by the float unit.
    pub fn f32_demote_f64<F: Fn(FloatOp, u64, u64) -> Option<u64>>(&mut self, fu: &F) -> (r: Result<
        (),
        Fault,
    >)
        requires
            old(self).wf(),
            spec_float_unit_total(fu),
        ensures
            final(self).wf(),
            VM::spec_only_stack(old(self), final(self)),
            spec_float_unop_result(old(self), final(self), r, FloatOp::F32DemoteF64, fu),
    {
        self.float_unop(FloatOp::F32DemoteF64, fu)
    }

    /// `f64.promote_f32`: precision promotion, by the float unit.
    pub fn f64_promote_f32<F: Fn(FloatOp, u64, u64) -> Option<u64>>(&mut self, fu: &F) -> (r: Result<
        (),
        Fault,
    >)
        requires
            old(self).wf(),
            spec_float_unit_total(fu),
        ensures
            final(self).wf(),
            VM::spec_only_stack(old(self), final(self)),
            spec_float_unop_result(old(self), final(self), r, FloatOp::F64PromoteF32, fu),
    {
        self.float_unop(FloatOp::F64PromoteF32, fu)
    }

    /// The saturating float-to-integer family, selected by the opcode's
    /// sub-selector byte; an unknown selector is a malformed module.
    pub fn trunc_sat<F: Fn(FloatOp, u64, u64) -> Option<u64>>(&mut self, sel: u8, fu: &F) -> (r:
        Result<(), Fault>)
        requires
            old(self).wf(),
            spec_float_unit_total(fu),
        ensures
            final(self).wf(),
            VM::spec_only_stack(old(self), final(self)),
            spec_trunc_sat_result(old(self), final(self), r, sel, fu),
    {
        if sel == 0 {
            self.float_unop(FloatOp::I32TruncSatF32S, fu)
        } else if sel == 1 {
            self.float_unop(FloatOp::I32TruncSatF32U, fu)
        } else if sel == 2 {
            self.float_unop(FloatOp::I32TruncSatF64S, fu)
        } else if sel == 3 {
            self.float_unop(FloatOp::I32TruncSatF64U, fu)
        } else if sel == 4 {
            self.float_unop(FloatOp::I64TruncSatF32S, fu)
        } else if sel == 5 {
            self.float_unop(FloatOp::I64TruncSatF32U, fu)
        } else if sel == 6 {
            self.float_unop(FloatOp::I64TruncSatF64S, fu)
        } else if sel == 7 {
            self.float_unop(FloatOp::I64TruncSatF64U, fu)
        } else {
            Result::Err(Fault::UnknownOpcode)
        }
    }

}

} // verus!
