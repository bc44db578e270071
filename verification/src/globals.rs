//! The global variable store: one 64-bit slot per global, with mutability
//! enforced on every write.

use vstd::prelude::*;

use crate::error::Fault;
use crate::module::GlobalType;

verus! {

/// One global variable: its declared type and its current 64-bit slot.
pub struct GlobalVar {
    pub global_type: GlobalType,
    pub val: u64,
}

impl GlobalVar {
    /// A global with the given type and initial value.
    pub fn new(global_type: GlobalType, val: u64) -> (r: GlobalVar)
        ensures
            r.global_type == global_type,
            r.val == val,
    {
        GlobalVar { global_type, val }
    }

    /// Read the current value.
    pub fn get_as_u64(&self) -> (r: u64)
        ensures
            r == self.val,
    {
        self.val
    }

    /// Write the value. A global declared non-mutable is never changed: the
    /// write is refused and the stored value stays as it was.
    pub fn set_as_u64(&mut self, val: u64) -> (r: Result<(), Fault>)
        ensures
            old(self).global_type.mutable ==> r is Ok && final(self).val == val,
            !old(self).global_type.mutable ==> r == Result::<(), Fault>::Err(
                Fault::ImmutableGlobal,
            ) && *final(self) == *old(self),
            final(self).global_type == old(self).global_type,
    {
        if !self.global_type.mutable {
            return Result::Err(Fault::ImmutableGlobal);
        }
        self.val = val;
        Result::Ok(())
    }
}

} // verus!
