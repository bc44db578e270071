//! The operand stack: a growable sequence of untyped 64-bit slots with typed
//! push/pop projections.
//!
//! Narrow integers occupy one slot zero-extended; floats travel as their bit
//! patterns; booleans are 0 or 1 on push and "slot is non-zero" on pop.

use vstd::prelude::*;

verus! {

/// The operand stack of the execution engine.
pub struct OperandStack {
    slots: Vec<u64>,
}

impl View for OperandStack {
    type V = Seq<u64>;

    closed spec fn view(&self) -> Seq<u64> {
        self.slots@
    }
}

impl OperandStack {
    /// An empty stack.
    pub fn new() -> (r: OperandStack)
        ensures
            r@ == Seq::<u64>::empty(),
    {
        OperandStack { slots: Vec::new() }
    }

    /// Current depth in slots.
    pub fn length(&self) -> (r: usize)
        ensures
            r == self@.len(),
    {
        self.slots.len()
    }

    /// Read the slot at an absolute index.
    pub fn get_operand(&self, idx: usize) -> (r: u64)
        requires
            idx < self@.len(),
        ensures
            r == self@[idx as int],
    {
        self.slots[idx]
    }

    /// Overwrite the slot at an absolute index.
    pub fn set_operand(&mut self, idx: usize, val: u64)
        requires
            idx < old(self)@.len(),
        ensures
            final(self)@ == old(self)@.update(idx as int, val),
    {
        self.slots.set(idx, val);
    }

    /// Append all slots of `vals`, in order, leaving `vals` empty.
    pub fn push_u64s(&mut self, vals: &mut Vec<u64>)
        ensures
            final(self)@ == old(self)@ + old(vals)@,
            final(vals)@ == Seq::<u64>::empty(),
    {
        self.slots.append(vals);
    }

    /// Remove the top `n` slots and return them in their original order,
    /// bottom of the removed run first.
    pub fn pop_u64s(&mut self, n: usize) -> (r: Vec<u64>)
        requires
            n <= old(self)@.len(),
        ensures
            r@ == old(self)@.subrange(old(self)@.len() - n, old(self)@.len() as int),
            final(self)@ == old(self)@.take(old(self)@.len() - n),
    {
        let start = self.slots.len() - n;
        let mut ret: Vec<u64> = Vec::new();
        let mut i: usize = start;
        while i < self.slots.len()
            invariant
                start <= i <= self.slots@.len(),
                self.slots@.len() == old(self)@.len(),
                self.slots@ == old(self)@,
                ret@ == old(self)@.subrange(start as int, i as int),
            decreases self.slots@.len() - i,
        {
            let v = self.slots[i];
            ret.push(v);
            proof {
                assert(ret@ =~= old(self)@.subrange(start as int, i + 1));
            }
            i += 1;
        }
        self.slots.truncate(start);
        ret
    }

    /// Push one raw slot.
    pub fn push_u64(&mut self, val: u64)
        ensures
            final(self)@ == old(self)@.push(val),
    {
        self.slots.push(val);
    }

    /// Pop one raw slot.
    pub fn pop_u64(&mut self) -> (r: u64)
        requires
            old(self)@.len() > 0,
        ensures
            r == old(self)@.last(),
            final(self)@ == old(self)@.drop_last(),
    {
        self.slots.pop().unwrap()
    }

    /// Push a signed 64-bit value, reinterpreted as a raw slot.
    pub fn push_i64(&mut self, val: i64)
        ensures
            final(self)@ == old(self)@.push(val as u64),
    {
        self.push_u64(val as u64);
    }

    /// Pop a slot and reinterpret it as a signed 64-bit value.
    pub fn pop_i64(&mut self) -> (r: i64)
        requires
            old(self)@.len() > 0,
        ensures
            r == old(self)@.last() as i64,
            final(self)@ == old(self)@.drop_last(),
    {
        self.pop_u64() as i64
    }

    /// Push an unsigned 32-bit value, zero-extended into one slot.
    pub fn push_u32(&mut self, val: u32)
        ensures
            final(self)@ == old(self)@.push(val as u64),
    {
        self.push_u64(val as u64);
    }

    /// Pop a slot, truncated to its low 32 bits.
    pub fn pop_u32(&mut self) -> (r: u32)
        requires
            old(self)@.len() > 0,
        ensures
            r == old(self)@.last() as u32,
            final(self)@ == old(self)@.drop_last(),
    {
        self.pop_u64() as u32
    }

    /// Push a signed 32-bit value: the low 32 bits hold the value, the high
    /// bits are zero.
    pub fn push_i32(&mut self, val: i32)
        ensures
            final(self)@ == old(self)@.push((val as u32) as u64),
    {
        self.push_u64((val as u32) as u64);
    }

    /// Pop a slot, its low 32 bits read as a signed value.
    pub fn pop_i32(&mut self) -> (r: i32)
        requires
            old(self)@.len() > 0,
        ensures
            r == (old(self)@.last() as u32) as i32,
            final(self)@ == old(self)@.drop_last(),
    {
        self.pop_u32() as i32
    }

    /// Push a boolean as 0 or 1.
    pub fn push_bool(&mut self, val: bool)
        ensures
            final(self)@ == old(self)@.push(if val { 1u64 } else { 0u64 }),
    {
        if val {
            self.push_u64(1);
        } else {
            self.push_u64(0);
        }
    }

    /// Pop a slot; true exactly when it is non-zero.
    pub fn pop_bool(&mut self) -> (r: bool)
        requires
            old(self)@.len() > 0,
        ensures
            r == (old(self)@.last() != 0),
            final(self)@ == old(self)@.drop_last(),
    {
        self.pop_u64() != 0
    }
}

} // verus!
