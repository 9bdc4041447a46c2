//! The layout of the extended-page-table pointer (EPTP).

use vstd::prelude::*;
use crate::bitfield::{
    field_get, field_read, field_write, group_field_laws, lemma_field_get_zero,
    lemma_low_mask_values,
};

verus! {

broadcast use group_field_laws;

/// The extended-page-table pointer: bits 0..=2 memory type of the paging
/// structures (0 uncacheable, 6 write-back), 3..=5 page-walk length minus one,
/// 6 enables accessed and dirty flags, 7..=11 ignored, 12..=47 frame number of
/// the 4-KByte aligned PML4 table, 48..=63 ignored.
/// The word is the only field; no `repr` attribute stands on the type, so its
/// place in memory rests on the compiler's default layout of a one-field
/// struct, which the hardware-facing code relies on.
#[derive(Debug, Copy, Clone)]
pub struct EptPointerT(u64);

/// The fields of an [`EptPointerT`], each as a plain value.
pub struct EptPointerFields {
    pub memory_type: u64,
    pub page_walk_len: u64,
    pub enable_access_and_drity: bool,
    pub ignore1: u64,
    pub pfn: u64,
    pub ignore2: u64,
}

impl EptPointerFields {
    /// The fields that the 64-bit word `bits` holds.
    pub open spec fn decode(bits: u64) -> EptPointerFields {
        EptPointerFields {
            memory_type: field_get(bits, 0, 3),
            page_walk_len: field_get(bits, 3, 3),
            enable_access_and_drity: field_get(bits, 6, 1) == 1,
            ignore1: field_get(bits, 7, 5),
            pfn: field_get(bits, 12, 36),
            ignore2: field_get(bits, 48, 16),
        }
    }

    /// The fields of the word in which every bit is clear.
    pub open spec fn zero() -> EptPointerFields {
        EptPointerFields {
            memory_type: 0,
            page_walk_len: 0,
            enable_access_and_drity: false,
            ignore1: 0,
            pfn: 0,
            ignore2: 0,
        }
    }
}

impl View for EptPointerT {
    type V = EptPointerFields;

    open spec fn view(&self) -> EptPointerFields {
        EptPointerFields::decode(self.bits())
    }
}

impl EptPointerT {
    /// The 64-bit word that the hardware reads.
    pub closed spec fn bits(self) -> u64 {
        self.0
    }

    /// Two values with the same fields are the same value.
    pub proof fn lemma_view_injective(a: EptPointerT, b: EptPointerT)
        requires
            a@ == b@,
        ensures
            a == b,
    {
        lemma_low_mask_values();
        let x = a.0;
        let y = b.0;
        assert(x == y) by (bit_vector)
            requires
                (x >> 0u64) & 0x7 == (y >> 0u64) & 0x7,
                (x >> 3u64) & 0x7 == (y >> 3u64) & 0x7,
                (x >> 6u64) & 1 == (y >> 6u64) & 1,
                (x >> 7u64) & 0x1f == (y >> 7u64) & 0x1f,
                (x >> 12u64) & 0xf_ffff_ffff == (y >> 12u64) & 0xf_ffff_ffff,
                (x >> 48u64) & 0xffff == (y >> 48u64) & 0xffff,
        ;
    }

    /// Two values with the same word are the same value.
    pub proof fn lemma_bits_injective(a: EptPointerT, b: EptPointerT)
        requires
            a.bits() == b.bits(),
        ensures
            a == b,
    {
    }

    /// Creates a value with every bit clear.
    pub fn new() -> (r: Self)
        ensures
            r.bits() == 0,
            r@ == EptPointerFields::zero(),
    {
        proof {
            lemma_field_get_zero(0, 3);
            lemma_field_get_zero(3, 3);
            lemma_field_get_zero(6, 1);
            lemma_field_get_zero(7, 5);
            lemma_field_get_zero(12, 36);
            lemma_field_get_zero(48, 16);
        }
        EptPointerT(0)
    }

    /// The value whose word is `bits`.
    pub fn from_bits(bits: u64) -> (r: Self)
        ensures
            r.bits() == bits,
    {
        EptPointerT(bits)
    }

    /// The word of this value.
    pub fn into_bits(self) -> (r: u64)
        ensures
            r == self.bits(),
    {
        self.0
    }

    /// The paging-structure memory type field.
    pub fn memory_type(&self) -> (v: usize)
        ensures
            v == self@.memory_type as usize,
    {
        field_read(self.0, 0, 3) as usize
    }

    /// This value with the paging-structure memory type field set to `value`, which must fit in 3 bits.
    pub fn with_memory_type(self, value: usize) -> (res: Self)
        requires
            value <= 0x7,
        ensures
            res@ == (EptPointerFields { memory_type: value as u64, ..self@ }),
    {
        proof {
            lemma_low_mask_values();
        }
        EptPointerT(field_write(self.0, 0, 3, value as u64))
    }

    /// Sets the paging-structure memory type field to `value`, which must fit in 3 bits.
    pub fn set_memory_type(&mut self, value: usize)
        requires
            value <= 0x7,
        ensures
            final(self)@ == (EptPointerFields { memory_type: value as u64, ..old(self)@ }),
    {
        *self = self.with_memory_type(value);
    }

    /// The page-walk length minus one field.
    pub fn page_walk_len(&self) -> (v: usize)
        ensures
            v == self@.page_walk_len as usize,
    {
        field_read(self.0, 3, 3) as usize
    }

    /// This value with the page-walk length minus one field set to `value`, which must fit in 3 bits.
    pub fn with_page_walk_len(self, value: usize) -> (res: Self)
        requires
            value <= 0x7,
        ensures
            res@ == (EptPointerFields { page_walk_len: value as u64, ..self@ }),
    {
        proof {
            lemma_low_mask_values();
        }
        EptPointerT(field_write(self.0, 3, 3, value as u64))
    }

    /// Sets the page-walk length minus one field to `value`, which must fit in 3 bits.
    pub fn set_page_walk_len(&mut self, value: usize)
        requires
            value <= 0x7,
        ensures
            final(self)@ == (EptPointerFields { page_walk_len: value as u64, ..old(self)@ }),
    {
        *self = self.with_page_walk_len(value);
    }

    /// The "enable accessed and dirty flags" bit.
    pub fn enable_access_and_drity(&self) -> (b: bool)
        ensures
            b == self@.enable_access_and_drity,
    {
        field_read(self.0, 6, 1) == 1
    }

    /// This value with the "enable accessed and dirty flags" bit set to `value`.
    pub fn with_enable_access_and_drity(self, value: bool) -> (res: Self)
        ensures
            res@ == (EptPointerFields { enable_access_and_drity: value, ..self@ }),
    {
        proof {
            lemma_low_mask_values();
        }
        EptPointerT(field_write(self.0, 6, 1, if value { 1 } else { 0 }))
    }

    /// Sets the "enable accessed and dirty flags" bit to `value`.
    pub fn set_enable_access_and_drity(&mut self, value: bool)
        ensures
            final(self)@ == (EptPointerFields { enable_access_and_drity: value, ..old(self)@ }),
    {
        *self = self.with_enable_access_and_drity(value);
    }

    /// The frame number of the PML4 table field.
    pub fn pfn(&self) -> (v: usize)
        ensures
            v == self@.pfn as usize,
    {
        field_read(self.0, 12, 36) as usize
    }

    /// This value with the frame number of the PML4 table field set to `value`, which must fit in 36 bits.
    pub fn with_pfn(self, value: usize) -> (res: Self)
        requires
            value <= 0xf_ffff_ffff,
        ensures
            res@ == (EptPointerFields { pfn: value as u64, ..self@ }),
    {
        proof {
            lemma_low_mask_values();
        }
        EptPointerT(field_write(self.0, 12, 36, value as u64))
    }

    /// Sets the frame number of the PML4 table field to `value`, which must fit in 36 bits.
    pub fn set_pfn(&mut self, value: usize)
        requires
            value <= 0xf_ffff_ffff,
        ensures
            final(self)@ == (EptPointerFields { pfn: value as u64, ..old(self)@ }),
    {
        *self = self.with_pfn(value);
    }

}

} // verus!
