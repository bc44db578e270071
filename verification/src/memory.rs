//! Linear memory: a byte vector paged in 64 KiB units, bounds-checked, with
//! little-endian multi-byte transfers.

use vstd::prelude::*;

use vstd::arithmetic::div_mod::{
    lemma_div_by_multiple, lemma_div_is_ordered, lemma_fundamental_div_mod,
    lemma_mod_multiples_basic,
};
use vstd::bytes::{
    spec_u16_from_le_bytes, spec_u16_to_le_bytes, spec_u32_from_le_bytes, spec_u32_to_le_bytes,
    spec_u64_from_le_bytes, spec_u64_to_le_bytes, u16_from_le_bytes, u16_to_le_bytes,
    u32_from_le_bytes, u32_to_le_bytes, u64_from_le_bytes, u64_to_le_bytes,
};
use vstd::slice::{slice_subrange, slice_to_vec};

use crate::module::{Limits, MAX_PAGE_COUNT, PAGE_SIZE};

verus! {

/// Bytes in one page, as a spec-level int.
pub open spec fn spec_page_size() -> int {
    65536
}

/// The page-count ceiling of a memory: its declared maximum, or 65,536 pages
/// when none is declared.
pub open spec fn spec_page_limit(mem_type: Limits) -> int {
    match mem_type.max {
        Option::Some(m) => m as int,
        Option::None => 65536,
    }
}

/// Linear memory: the declared limits and the current byte contents.
pub struct Memory {
    pub mem_type: Limits,
    pub data: Vec<u8>,
}

impl Memory {
    /// Well-formedness: the byte length is a whole number of pages, at least
    /// the declared minimum and at most the page ceiling.
    pub open spec fn wf(&self) -> bool {
        &&& self.data@.len() as int % spec_page_size() == 0
        &&& self.mem_type.min * spec_page_size() <= self.data@.len()
        &&& self.data@.len() <= spec_page_limit(self.mem_type) * spec_page_size()
    }

    /// Current page count, as a spec-level int.
    pub open spec fn spec_size(&self) -> int {
        self.data@.len() as int / spec_page_size()
    }

    /// A fresh memory holding `min` pages of zero bytes.
    pub fn new(mem_type: Limits) -> (r: Memory)
        requires
            mem_type.min * spec_page_size() <= usize::MAX,
            mem_type.min <= spec_page_limit(mem_type),
        ensures
            r.mem_type == mem_type,
            r.data@ == Seq::new((mem_type.min * spec_page_size()) as nat, |i: int| 0u8),
            r.wf(),
    {
        let bytes: usize = mem_type.min * PAGE_SIZE;
        let r = Memory { mem_type, data: vec![0u8; bytes] };
        proof {
            assert(r.data@ =~= Seq::new((mem_type.min * spec_page_size()) as nat, |i: int| 0u8));
            lemma_mod_multiples_basic(mem_type.min as int, 65536);
            assert(mem_type.min * 65536 <= spec_page_limit(mem_type) * 65536) by (nonlinear_arith)
                requires
                    mem_type.min <= spec_page_limit(mem_type),
            ;
        }
        r
    }

    /// Number of allocated pages.
    pub fn size(&self) -> (r: usize)
        ensures
            r == self.spec_size(),
    {
        self.data.len() / PAGE_SIZE
    }

    /// Grow by `n` pages of zero bytes. Returns the old page count on
    /// success. Fails, returning `0xFFFF_FFFF` and leaving the memory
    /// unchanged, exactly when the new page count would pass the page
    /// ceiling, or the new byte length cannot be represented on this
    /// machine.
    pub fn grow(&mut self, n: usize) -> (r: usize)
        requires
            old(self).wf(),
        ensures
            final(self).wf(),
            final(self).mem_type == old(self).mem_type,
            ({
                let would = old(self).spec_size() + n;
                if would > spec_page_limit(old(self).mem_type) || would * spec_page_size()
                    > usize::MAX {
                    r == 0xFFFF_FFFFusize && *final(self) == *old(self)
                } else {
                    r == old(self).spec_size() && final(self).data@ == old(self).data@ + Seq::new(
                        (n * spec_page_size()) as nat,
                        |i: int| 0u8,
                    )
                }
            }),
    {
        proof {
            vstd::std_specs::vec::axiom_spec_len(&self.data);
            lemma_fundamental_div_mod(old(self).data@.len() as int, 65536);
            lemma_div_is_ordered(
                old(self).data@.len() as int,
                spec_page_limit(old(self).mem_type) * 65536,
                65536,
            );
            lemma_div_by_multiple(spec_page_limit(old(self).mem_type), 65536);
            assert(old(self).spec_size() <= spec_page_limit(old(self).mem_type));
            assert(old(self).spec_size() * 65536 == old(self).data@.len());
        }
        let old_size = self.size();
        if n == 0 {
            proof {
                assert(self.data@ =~= old(self).data@ + Seq::new(0nat, |i: int| 0u8));
            }
            return old_size;
        }
        let max_page_count = match self.mem_type.max {
            Option::Some(m) => m,
            Option::None => MAX_PAGE_COUNT,
        };
        if max_page_count < old_size || n > max_page_count - old_size {
            proof {
                assert(old(self).spec_size() + n > spec_page_limit(old(self).mem_type));
            }
            return 0xFFFF_FFFFusize;
        }
        let new_len_128: u128 = (old_size as u128 + n as u128) * 65536u128;
        if new_len_128 > usize::MAX as u128 {
            proof {
                assert((old(self).spec_size() + n) * spec_page_size() > usize::MAX);
            }
            return 0xFFFF_FFFFusize;
        }
        let new_len: usize = new_len_128 as usize;
        let ghost os: int = old(self).spec_size();
        let ghost pl: int = spec_page_limit(old(self).mem_type);
        self.data.resize(new_len, 0u8);
        proof {
            assert((os + n) * 65536 == os * 65536 + n * 65536) by (nonlinear_arith);
            assert(self.data@ =~= old(self).data@ + Seq::new(
                (n * spec_page_size()) as nat,
                |i: int| 0u8,
            ));
            lemma_mod_multiples_basic(os + n, 65536);
            assert((os + n) * 65536 <= pl * 65536) by (nonlinear_arith)
                requires
                    os + n <= pl,
            ;
            assert(old(self).mem_type.min * 65536 <= old(self).data@.len());
        }
        old_size
    }

    /// Whether a transfer of `length` bytes starting at `offset` lies within
    /// the current byte length.
    pub fn check_offset(&self, offset: u64, length: u64) -> (b: bool)
        ensures
            b <==> offset + length <= self.data@.len(),
    {
        let len = self.data.len();
        offset <= len as u64 && length <= len as u64 - offset
    }

    /// Copy `n` bytes out, starting at `offset`.
    pub fn read(&self, offset: usize, n: usize) -> (r: Vec<u8>)
        requires
            offset + n <= self.data@.len(),
        ensures
            r@ == self.data@.subrange(offset as int, offset + n),
    {
        proof {
            vstd::std_specs::vec::axiom_spec_len(&self.data);
        }
        slice_to_vec(slice_subrange(self.data.as_slice(), offset, offset + n))
    }

    /// Overwrite the bytes starting at `offset` with `bytes`.
    pub fn write(&mut self, offset: usize, bytes: &Vec<u8>)
        requires
            offset + bytes@.len() <= old(self).data@.len(),
        ensures
            final(self).mem_type == old(self).mem_type,
            final(self).data@ == old(self).data@.take(offset as int) + bytes@ + old(
                self,
            ).data@.skip(offset + bytes@.len()),
            final(self).data@.len() == old(self).data@.len(),
            old(self).wf() ==> final(self).wf(),
    {
        proof {
            vstd::std_specs::vec::axiom_spec_len(&self.data);
        }
        let mut i: usize = 0;
        while i < bytes.len()
            invariant
                i <= bytes@.len(),
                offset + bytes@.len() <= self.data@.len(),
                self.data@.len() <= usize::MAX,
                self.data@.len() == old(self).data@.len(),
                self.mem_type == old(self).mem_type,
                forall|j: int|
                    0 <= j < self.data@.len() && !(offset <= j < offset + i) ==> self.data@[j]
                        == old(self).data@[j],
                forall|j: int| 0 <= j < i ==> self.data@[offset + j] == bytes@[j],
            decreases bytes@.len() - i,
        {
            self.data.set(offset + i, bytes[i]);
            i += 1;
        }
        proof {
            assert(self.data@ =~= old(self).data@.take(offset as int) + bytes@ + old(
                self,
            ).data@.skip(offset + bytes@.len()));
        }
    }

    /// Read one byte.
    pub fn read_u8(&self, offset: usize) -> (r: u8)
        requires
            offset + 1 <= self.data@.len(),
        ensures
            r == self.data@[offset as int],
    {
        self.data[offset]
    }

    /// Read two bytes, little-endian.
    pub fn read_u16(&self, offset: usize) -> (r: u16)
        requires
            offset + 2 <= self.data@.len(),
        ensures
            r == spec_u16_from_le_bytes(self.data@.subrange(offset as int, offset + 2)),
    {
        proof {
            vstd::std_specs::vec::axiom_spec_len(&self.data);
        }
        u16_from_le_bytes(slice_subrange(self.data.as_slice(), offset, offset + 2))
    }

    /// Read four bytes, little-endian.
    pub fn read_u32(&self, offset: usize) -> (r: u32)
        requires
            offset + 4 <= self.data@.len(),
        ensures
            r == spec_u32_from_le_bytes(self.data@.subrange(offset as int, offset + 4)),
    {
        proof {
            vstd::std_specs::vec::axiom_spec_len(&self.data);
        }
        u32_from_le_bytes(slice_subrange(self.data.as_slice(), offset, offset + 4))
    }

    /// Read eight bytes, little-endian.
    pub fn read_u64(&self, offset: usize) -> (r: u64)
        requires
            offset + 8 <= self.data@.len(),
        ensures
            r == spec_u64_from_le_bytes(self.data@.subrange(offset as int, offset + 8)),
    {
        proof {
            vstd::std_specs::vec::axiom_spec_len(&self.data);
        }
        u64_from_le_bytes(slice_subrange(self.data.as_slice(), offset, offset + 8))
    }

    /// Write one byte.
    pub fn write_u8(&mut self, offset: usize, v: u8)
        requires
            offset + 1 <= old(self).data@.len(),
        ensures
            final(self).mem_type == old(self).mem_type,
            final(self).data@ == old(self).data@.update(offset as int, v),
            old(self).wf() ==> final(self).wf(),
    {
        self.data.set(offset, v);
    }

    /// Write two bytes, little-endian.
    pub fn write_u16(&mut self, offset: usize, v: u16)
        requires
            offset + 2 <= old(self).data@.len(),
        ensures
            final(self).mem_type == old(self).mem_type,
            final(self).data@ == old(self).data@.take(offset as int) + spec_u16_to_le_bytes(v)
                + old(self).data@.skip(offset + 2),
            final(self).data@.len() == old(self).data@.len(),
            old(self).wf() ==> final(self).wf(),
    {
        let bytes = u16_to_le_bytes(v);
        self.write(offset, &bytes);
    }

    /// Write four bytes, little-endian.
    pub fn write_u32(&mut self, offset: usize, v: u32)
        requires
            offset + 4 <= old(self).data@.len(),
        ensures
            final(self).mem_type == old(self).mem_type,
            final(self).data@ == old(self).data@.take(offset as int) + spec_u32_to_le_bytes(v)
                + old(self).data@.skip(offset + 4),
            final(self).data@.len() == old(self).data@.len(),
            old(self).wf() ==> final(self).wf(),
    {
        let bytes = u32_to_le_bytes(v);
        self.write(offset, &bytes);
    }

    /// Write eight bytes, little-endian.
    pub fn write_u64(&mut self, offset: usize, v: u64)
        requires
            offset + 8 <= old(self).data@.len(),
        ensures
            final(self).mem_type == old(self).mem_type,
            final(self).data@ == old(self).data@.take(offset as int) + spec_u64_to_le_bytes(v)
                + old(self).data@.skip(offset + 8),
            final(self).data@.len() == old(self).data@.len(),
            old(self).wf() ==> final(self).wf(),
    {
        let bytes = u64_to_le_bytes(v);
        self.write(offset, &bytes);
    }
}

} // verus!
