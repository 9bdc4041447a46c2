//! The generic EPT paging-structure entry and the four kinds of EPT tables.

use vstd::prelude::*;
use crate::bitfield::{
    field_get, field_read, field_write, group_field_laws, lemma_field_get_zero,
    lemma_low_mask_values,
};

verus! {

broadcast use group_field_laws;

/// Number of entries in every EPT paging structure.
pub const EPT_ENTRY_COUNT: usize = 512;

/// Layout of a nested paging-structure entry that references another table:
/// bits 0..=2 read, write and execute access, 3..=7 must be zero, 8 accessed,
/// 9 ignored, 10 user execute access, 11 ignored, 12..=51 physical frame
/// number of the referenced table, 52..=63 ignored.
/// The word is the only field; no `repr` attribute stands on the type, so its
/// place in memory rests on the compiler's default layout of a one-field
/// struct, which the hardware-facing code relies on.
#[derive(Debug, Copy, Clone)]
pub struct EptEntryT(u64);

/// The fields of an [`EptEntryT`], each as a plain value.
pub struct EptEntryFields {
    pub r: bool,
    pub w: bool,
    pub e: bool,
    pub mbz: u64,
    pub a: bool,
    pub ignored1: bool,
    pub e_user: bool,
    pub ignored2: bool,
    pub phys: u64,
    pub ignored3: u64,
}

impl EptEntryFields {
    /// The fields that the 64-bit word `bits` holds.
    pub open spec fn decode(bits: u64) -> EptEntryFields {
        EptEntryFields {
            r: field_get(bits, 0, 1) == 1,
            w: field_get(bits, 1, 1) == 1,
            e: field_get(bits, 2, 1) == 1,
            mbz: field_get(bits, 3, 5),
            a: field_get(bits, 8, 1) == 1,
            ignored1: field_get(bits, 9, 1) == 1,
            e_user: field_get(bits, 10, 1) == 1,
            ignored2: field_get(bits, 11, 1) == 1,
            phys: field_get(bits, 12, 40),
            ignored3: field_get(bits, 52, 12),
        }
    }

    /// The fields of the word in which every bit is clear.
    pub open spec fn zero() -> EptEntryFields {
        EptEntryFields {
            r: false,
            w: false,
            e: false,
            mbz: 0,
            a: false,
            ignored1: false,
            e_user: false,
            ignored2: false,
            phys: 0,
            ignored3: 0,
        }
    }
}

impl View for EptEntryT {
    type V = EptEntryFields;

    open spec fn view(&self) -> EptEntryFields {
        EptEntryFields::decode(self.bits())
    }
}

impl EptEntryT {
    /// The 64-bit word that the hardware reads.
    pub closed spec fn bits(self) -> u64 {
        self.0
    }

    /// Two values with the same fields are the same value.
    pub proof fn lemma_view_injective(a: EptEntryT, b: EptEntryT)
        requires
            a@ == b@,
        ensures
            a == b,
    {
        lemma_low_mask_values();
        let x = a.0;
        let y = b.0;
        assert(x == y) by (bit_vector)
            requires
                (x >> 0u64) & 1 == (y >> 0u64) & 1,
                (x >> 1u64) & 1 == (y >> 1u64) & 1,
                (x >> 2u64) & 1 == (y >> 2u64) & 1,
                (x >> 3u64) & 0x1f == (y >> 3u64) & 0x1f,
                (x >> 8u64) & 1 == (y >> 8u64) & 1,
                (x >> 9u64) & 1 == (y >> 9u64) & 1,
                (x >> 10u64) & 1 == (y >> 10u64) & 1,
                (x >> 11u64) & 1 == (y >> 11u64) & 1,
                (x >> 12u64) & 0xff_ffff_ffff == (y >> 12u64) & 0xff_ffff_ffff,
                (x >> 52u64) & 0xfff == (y >> 52u64) & 0xfff,
        ;
    }

    /// Two values with the same word are the same value.
    pub proof fn lemma_bits_injective(a: EptEntryT, b: EptEntryT)
        requires
            a.bits() == b.bits(),
        ensures
            a == b,
    {
    }

    /// Creates a value with every bit clear.
    pub fn new() -> (r: Self)
        ensures
            r.bits() == 0,
            r@ == EptEntryFields::zero(),
    {
        proof {
            lemma_field_get_zero(0, 1);
            lemma_field_get_zero(1, 1);
            lemma_field_get_zero(2, 1);
            lemma_field_get_zero(3, 5);
            lemma_field_get_zero(8, 1);
            lemma_field_get_zero(9, 1);
            lemma_field_get_zero(10, 1);
            lemma_field_get_zero(11, 1);
            lemma_field_get_zero(12, 40);
            lemma_field_get_zero(52, 12);
        }
        EptEntryT(0)
    }

    /// The value whose word is `bits`.
    pub fn from_bits(bits: u64) -> (r: Self)
        ensures
            r.bits() == bits,
    {
        EptEntryT(bits)
    }

    /// The word of this value.
    pub fn into_bits(self) -> (r: u64)
        ensures
            r == self.bits(),
    {
        self.0
    }

    /// The "read access" bit.
    pub fn r(&self) -> (b: bool)
        ensures
            b == self@.r,
    {
        field_read(self.0, 0, 1) == 1
    }

    /// This value with the "read access" bit set to `value`.
    pub fn with_r(self, value: bool) -> (res: Self)
        ensures
            res@ == (EptEntryFields { r: value, ..self@ }),
    {
        proof {
            lemma_low_mask_values();
        }
        EptEntryT(field_write(self.0, 0, 1, if value { 1 } else { 0 }))
    }

    /// Sets the "read access" bit to `value`.
    pub fn set_r(&mut self, value: bool)
        ensures
            final(self)@ == (EptEntryFields { r: value, ..old(self)@ }),
    {
        *self = self.with_r(value);
    }

    /// The "write access" bit.
    pub fn w(&self) -> (b: bool)
        ensures
            b == self@.w,
    {
        field_read(self.0, 1, 1) == 1
    }

    /// This value with the "write access" bit set to `value`.
    pub fn with_w(self, value: bool) -> (res: Self)
        ensures
            res@ == (EptEntryFields { w: value, ..self@ }),
    {
        proof {
            lemma_low_mask_values();
        }
        EptEntryT(field_write(self.0, 1, 1, if value { 1 } else { 0 }))
    }

    /// Sets the "write access" bit to `value`.
    pub fn set_w(&mut self, value: bool)
        ensures
            final(self)@ == (EptEntryFields { w: value, ..old(self)@ }),
    {
        *self = self.with_w(value);
    }

    /// The "execute access" bit.
    pub fn e(&self) -> (b: bool)
        ensures
            b == self@.e,
    {
        field_read(self.0, 2, 1) == 1
    }

    /// This value with the "execute access" bit set to `value`.
    pub fn with_e(self, value: bool) -> (res: Self)
        ensures
            res@ == (EptEntryFields { e: value, ..self@ }),
    {
        proof {
            lemma_low_mask_values();
        }
        EptEntryT(field_write(self.0, 2, 1, if value { 1 } else { 0 }))
    }

    /// Sets the "execute access" bit to `value`.
    pub fn set_e(&mut self, value: bool)
        ensures
            final(self)@ == (EptEntryFields { e: value, ..old(self)@ }),
    {
        *self = self.with_e(value);
    }

    /// The "accessed" bit.
    pub fn a(&self) -> (b: bool)
        ensures
            b == self@.a,
    {
        field_read(self.0, 8, 1) == 1
    }

    /// This value with the "accessed" bit set to `value`.
    pub fn with_a(self, value: bool) -> (res: Self)
        ensures
            res@ == (EptEntryFields { a: value, ..self@ }),
    {
        proof {
            lemma_low_mask_values();
        }
        EptEntryT(field_write(self.0, 8, 1, if value { 1 } else { 0 }))
    }

    /// Sets the "accessed" bit to `value`.
    pub fn set_a(&mut self, value: bool)
        ensures
            final(self)@ == (EptEntryFields { a: value, ..old(self)@ }),
    {
        *self = self.with_a(value);
    }

    /// The "user execute access" bit.
    pub fn e_user(&self) -> (b: bool)
        ensures
            b == self@.e_user,
    {
        field_read(self.0, 10, 1) == 1
    }

    /// This value with the "user execute access" bit set to `value`.
    pub fn with_e_user(self, value: bool) -> (res: Self)
        ensures
            res@ == (EptEntryFields { e_user: value, ..self@ }),
    {
        proof {
            lemma_low_mask_values();
        }
        EptEntryT(field_write(self.0, 10, 1, if value { 1 } else { 0 }))
    }

    /// Sets the "user execute access" bit to `value`.
    pub fn set_e_user(&mut self, value: bool)
        ensures
            final(self)@ == (EptEntryFields { e_user: value, ..old(self)@ }),
    {
        *self = self.with_e_user(value);
    }

    /// The "physical frame number" field.
    pub fn phys(&self) -> (v: usize)
        ensures
            v == self@.phys as usize,
    {
        field_read(self.0, 12, 40) as usize
    }

    /// This value with the "physical frame number" field set to `value`, which must fit in 40 bits.
    pub fn with_phys(self, value: usize) -> (res: Self)
        requires
            value <= 0xff_ffff_ffff,
        ensures
            res@ == (EptEntryFields { phys: value as u64, ..self@ }),
    {
        proof {
            lemma_low_mask_values();
        }
        EptEntryT(field_write(self.0, 12, 40, value as u64))
    }

    /// Sets the "physical frame number" field to `value`, which must fit in 40 bits.
    pub fn set_phys(&mut self, value: usize)
        requires
            value <= 0xff_ffff_ffff,
        ensures
            final(self)@ == (EptEntryFields { phys: value as u64, ..old(self)@ }),
    {
        *self = self.with_phys(value);
    }

}

/// No `repr(C)` stands on the table structs: the order and offsets of their
/// fields in memory rest on the compiler's default layout, which the
/// hardware-facing code relies on.

/// A page-map level-4 table (PML4).
#[derive(Debug, Copy, Clone)]
pub struct EptEntryPml4 {
    /// stores the entries for this page table
    pub entries: [EptEntryT; EPT_ENTRY_COUNT],
    /// stores the virtual addresses of the child tables (0 where there is none)
    pub tables: [usize; EPT_ENTRY_COUNT],
}

/// A page-directory-pointer table (PDPT).
#[derive(Debug, Copy, Clone)]
pub struct EptEntryPdpt {
    /// stores the entries for this page table
    pub entries: [EptEntryT; EPT_ENTRY_COUNT],
    /// stores the virtual addresses of the child tables (0 where there is none)
    pub tables: [usize; EPT_ENTRY_COUNT],
}

/// A page-directory table (PDT), whose entries are raw words.
#[derive(Debug, Copy, Clone)]
pub struct EptEntryPdt {
    /// stores the entries for this page table
    pub entries: [u64; EPT_ENTRY_COUNT],
    /// stores the virtual addresses of the child (PT) tables
    pub tables: [u64; EPT_ENTRY_COUNT],
}

/// A page table (PT).
#[derive(Debug, Copy, Clone)]
pub struct EptEntryPt {
    /// stores the entries for this page table
    pub entries: [EptEntryT; EPT_ENTRY_COUNT],
}

/// A PML4 together with a single PDPT.
pub struct EptPml4 {
    pub pml4: [EptEntryT; EPT_ENTRY_COUNT],
    pub pdpt: [EptEntryT; EPT_ENTRY_COUNT],
}

} // verus!
