//! Engine-side functions and the function table: a bounds-checked vector of
//! function references whose unbound entries trap when called.

use vstd::prelude::*;

use crate::instruction::Expr;
use crate::module::{Code, FuncType, TableType};
use crate::rc_clone;

verus! {

/// One of the fixed host functions the engine can link against.
#[derive(Clone, Copy, PartialEq, Eq, Structural, Debug)]
pub enum HostFunc {
    PrintChar,
    AssertTrue,
    AssertFalse,
    AssertEqI32,
    AssertEqI64,
    AssertEqF32,
    AssertEqF64,
}

/// A callable function as the engine sees it: its type, and either a module
/// body, a host function, or neither (an unbound table placeholder).
pub struct VMFunc {
    pub func_type: FuncType,
    pub code: Option<Code>,
    pub host: Option<HostFunc>,
}

/// Whether two code bodies agree: same local groups and same instruction
/// sequence.
pub open spec fn spec_code_eq(a: &Code, b: &Code) -> bool {
    a.locals@ == b.locals@ && a.expr@ == b.expr@
}

/// Whether two engine functions agree: same signature and the same body or
/// host binding.
pub open spec fn spec_func_eq(a: &VMFunc, b: &VMFunc) -> bool {
    &&& a.func_type.params_types@ == b.func_type.params_types@
    &&& a.func_type.result_types@ == b.func_type.result_types@
    &&& a.host == b.host
    &&& match (&a.code, &b.code) {
        (Option::Some(x), Option::Some(y)) => spec_code_eq(x, y),
        (Option::None, Option::None) => true,
        _ => false,
    }
}

impl Code {
    /// A copy of this body sharing the same instruction sequence.
    pub fn clone_code(&self) -> (r: Code)
        ensures
            spec_code_eq(self, &r),
    {
        Code { locals: self.locals.clone(), expr: rc_clone(&self.expr) }
    }
}

impl VMFunc {
    /// A module-defined function.
    pub fn new_internal_func(func_type: FuncType, code: Code) -> (r: VMFunc)
        ensures
            r.func_type == func_type,
            r.code matches Some(c) && spec_code_eq(&c, &code),
            r.host is None,
    {
        VMFunc { func_type, code: Option::Some(code), host: Option::None }
    }

    /// A host-implemented function.
    pub fn new_external_func(func_type: FuncType, host: HostFunc) -> (r: VMFunc)
        ensures
            r.func_type == func_type,
            r.code is None,
            r.host == Some(host),
    {
        VMFunc { func_type, code: Option::None, host: Option::Some(host) }
    }

    /// An unbound placeholder entry.
    pub fn unbound() -> (r: VMFunc)
        ensures
            r.code is None,
            r.host is None,
            r.func_type.params_types@ == Seq::<crate::module::ValType>::empty(),
            r.func_type.result_types@ == Seq::<crate::module::ValType>::empty(),
    {
        VMFunc {
            func_type: FuncType { params_types: Vec::new(), result_types: Vec::new() },
            code: Option::None,
            host: Option::None,
        }
    }

    /// A copy of this function sharing the same body.
    pub fn clone_func(&self) -> (r: VMFunc)
        ensures
            spec_func_eq(self, &r),
    {
        let code = match &self.code {
            Option::Some(c) => Option::Some(c.clone_code()),
            Option::None => Option::None,
        };
        VMFunc { func_type: self.func_type.clone_type(), code, host: self.host }
    }
}

/// The function table: its declared type and its entries.
pub struct Table {
    pub elem_type: TableType,
    pub elems: Vec<VMFunc>,
}

impl Table {
    /// A table with `min` unbound entries.
    pub fn new(elem_type: TableType) -> (r: Table)
        ensures
            r.elem_type == elem_type,
            r.elems@.len() == elem_type.limits.min,
            forall|i: int|
                0 <= i < r.elems@.len() ==> (#[trigger] r.elems@[i]).code is None
                    && r.elems@[i].host is None,
    {
        let min = elem_type.limits.min;
        let mut elems: Vec<VMFunc> = Vec::new();
        let mut i: usize = 0;
        while i < min
            invariant
                i <= min,
                elems@.len() == i,
                forall|j: int|
                    0 <= j < i ==> (#[trigger] elems@[j]).code is None && elems@[j].host is None,
            decreases min - i,
        {
            elems.push(VMFunc::unbound());
            i += 1;
        }
        Table { elem_type, elems }
    }

    /// The declared table type.
    pub fn get_type(&self) -> (r: TableType)
        ensures
            r == self.elem_type,
    {
        self.elem_type
    }

    /// Number of entries.
    pub fn size(&self) -> (r: usize)
        ensures
            r == self.elems@.len(),
    {
        self.elems.len()
    }

    /// Append `n` unbound entries.
    pub fn grow(&mut self, n: usize)
        requires
            old(self).elems@.len() + n <= usize::MAX,
        ensures
            final(self).elem_type == old(self).elem_type,
            final(self).elems@.len() == old(self).elems@.len() + n,
            forall|i: int|
                0 <= i < old(self).elems@.len() ==> final(self).elems@[i] == old(self).elems@[i],
            forall|i: int|
                old(self).elems@.len() <= i < final(self).elems@.len() ==> ((
                #[trigger] final(self).elems@[i]).code is None && final(self).elems@[i].host
                    is None),
    {
        let mut i: usize = 0;
        while i < n
            invariant
                i <= n,
                self.elem_type == old(self).elem_type,
                self.elems@.len() == old(self).elems@.len() + i,
                forall|j: int|
                    0 <= j < old(self).elems@.len() ==> self.elems@[j] == old(self).elems@[j],
                forall|j: int|
                    old(self).elems@.len() <= j < self.elems@.len() ==> (#[trigger] self.elems@[j]).code
                        is None && self.elems@[j].host is None,
            decreases n - i,
        {
            self.elems.push(VMFunc::unbound());
            i += 1;
        }
    }

    /// A copy of the entry at `idx`.
    pub fn get_elem(&self, idx: usize) -> (r: VMFunc)
        requires
            idx < self.elems@.len(),
        ensures
            spec_func_eq(&self.elems@[idx as int], &r),
    {
        self.elems[idx].clone_func()
    }

    /// Overwrite the entry at `idx`.
    pub fn set_elem(&mut self, idx: usize, elem: VMFunc)
        requires
            idx < old(self).elems@.len(),
        ensures
            final(self).elem_type == old(self).elem_type,
            final(self).elems@ == old(self).elems@.update(idx as int, elem),
    {
        self.elems.set(idx, elem);
    }
}

} // verus!
