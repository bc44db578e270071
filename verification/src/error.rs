//! Runtime error kinds: traps defined by the bytecode specification, and the
//! fatal faults an untrusted module or a failed host assertion can raise.

use vstd::prelude::*;

verus! {

/// A trap: a fatal runtime error defined by the bytecode specification.
#[derive(Clone, Copy, PartialEq, Eq, Structural, Debug)]
pub enum Trap {
    Unreachable,
    DivideByZero,
    IntegerOverflow,
    InvalidConversion,
    MemoryOutOfBounds,
    UndefinedElement,
    IndirectCallTypeMismatch,
}

/// A fatal condition that aborts execution: a trap, a malformed or untrusted
/// module detected at run time, a link failure, a failed host assertion, or
/// an exhausted step budget.
#[derive(Clone, Copy, PartialEq, Eq, Structural, Debug)]
pub enum Fault {
    Trap(Trap),
    StackUnderflow,
    LocalIndexOutOfRange,
    GlobalIndexOutOfRange,
    FunctionIndexOutOfRange,
    TypeIndexOutOfRange,
    BadLabel,
    BadBlockType,
    BadMemoryLimits,
    TooManyLocals,
    ImmutableGlobal,
    UnknownImport,
    NoEntryFunction,
    AssertFailed,
    UnknownOpcode,
    OutOfFuel,
}

impl Trap {
    /// A short diagnostic for this trap.
    pub fn message(&self) -> (r: &'static str)
        ensures
            *self is DivideByZero ==> r@ == "divide by zero"@,
            *self is Unreachable ==> r@ == "unreachable executed"@,
            *self is IntegerOverflow ==> r@ == "integer overflow"@,
            *self is InvalidConversion ==> r@ == "invalid conversion to integer"@,
            *self is MemoryOutOfBounds ==> r@ == "memory out of bounds"@,
            *self is UndefinedElement ==> r@ == "undefined element"@,
            *self is IndirectCallTypeMismatch ==> r@ == "indirect call type mismatch"@,
    {
        match self {
            Trap::Unreachable => "unreachable executed",
            Trap::DivideByZero => "divide by zero",
            Trap::IntegerOverflow => "integer overflow",
            Trap::InvalidConversion => "invalid conversion to integer",
            Trap::MemoryOutOfBounds => "memory out of bounds",
            Trap::UndefinedElement => "undefined element",
            Trap::IndirectCallTypeMismatch => "indirect call type mismatch",
        }
    }
}

impl Fault {
    /// A short diagnostic for this fault.
    pub fn message(&self) -> (r: &'static str)
        ensures
            *self matches Fault::Trap(t) ==> ({
                &&& t is DivideByZero ==> r@ == "divide by zero"@
                &&& t is Unreachable ==> r@ == "unreachable executed"@
            }),
    {
        match self {
            Fault::Trap(t) => t.message(),
            Fault::StackUnderflow => "operand stack underflow",
            Fault::LocalIndexOutOfRange => "local index out of range",
            Fault::GlobalIndexOutOfRange => "global index out of range",
            Fault::FunctionIndexOutOfRange => "function index out of range",
            Fault::TypeIndexOutOfRange => "type index out of range",
            Fault::BadLabel => "branch label out of range",
            Fault::BadBlockType => "malformed block type",
            Fault::BadMemoryLimits => "unsatisfiable memory limits",
            Fault::TooManyLocals => "local count overflow",
            Fault::ImmutableGlobal => "write to immutable global",
            Fault::UnknownImport => "unknown import",
            Fault::NoEntryFunction => "no start function or main export",
            Fault::AssertFailed => "assertion failed",
            Fault::UnknownOpcode => "unknown opcode",
            Fault::OutOfFuel => "step budget exhausted",
        }
    }
}

} // verus!
