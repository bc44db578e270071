//! A verified interpreter for a stack-based, typed bytecode module format:
//! the module data model, a binary decoder, and an execution engine built
//! from an operand stack, a control stack, linear memory, a function table
//! and a global store.

pub mod control;
pub mod error;
pub mod globals;
pub mod instruction;
pub mod laws;
pub mod memory;
pub mod module;
pub mod reader;
pub mod stack;
pub mod vm;
pub mod vm_mem;
pub mod vm_num;
pub mod table;

use vstd::prelude::*;

use std::rc::Rc;

verus! {

/// Relies on Rc::clone: the returned handle refers to the same value.
#[verifier::external_body]
pub(crate) fn rc_clone<T>(rc: &Rc<T>) -> (res: Rc<T>)
    ensures
        res == **rc,
{
    Rc::clone(rc)
}

} // verus!
