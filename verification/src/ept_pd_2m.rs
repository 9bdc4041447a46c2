//! The layout of a page-directory entry that maps a 2-MByte page.

use vstd::prelude::*;
use crate::bitfield::{
    field_get, field_read, field_write, group_field_laws, lemma_field_get_zero,
    lemma_low_mask_values,
};

verus! {

broadcast use group_field_laws;

/// A page-directory entry that maps a 2-MByte page: bits 0..=2 read, write
/// and execute access, 3..=5 memory type, 6 ignore PAT, 7 must be 1 (maps a
/// page), 8 accessed, 9 dirty, 10 user execute access, 11 ignored, 12..=20
/// reserved, 21..=51 bits 51:21 of the physical address of the 2-MByte page,
/// 52..=63 ignored.
/// The word is the only field; no `repr` attribute stands on the type, so its
/// place in memory rests on the compiler's default layout of a one-field
/// struct, which the hardware-facing code relies on.
#[derive(Debug, Copy, Clone)]
pub struct EptMapPd(u64);

/// The fields of an [`EptMapPd`], each as a plain value.
pub struct EptMapPdFields {
    pub r: bool,
    pub w: bool,
    pub e: bool,
    pub memory_type: u64,
    pub ignore_pat: bool,
    pub is_map: bool,
    pub a: bool,
    pub d: bool,
    pub e_user: bool,
    pub ignored1: bool,
    pub reserved: u64,
    pub phys: u64,
    pub ignored2: u64,
}

impl EptMapPdFields {
    /// The fields that the 64-bit word `bits` holds.
    pub open spec fn decode(bits: u64) -> EptMapPdFields {
        EptMapPdFields {
            r: field_get(bits, 0, 1) == 1,
            w: field_get(bits, 1, 1) == 1,
            e: field_get(bits, 2, 1) == 1,
            memory_type: field_get(bits, 3, 3),
            ignore_pat: field_get(bits, 6, 1) == 1,
            is_map: field_get(bits, 7, 1) == 1,
            a: field_get(bits, 8, 1) == 1,
            d: field_get(bits, 9, 1) == 1,
            e_user: field_get(bits, 10, 1) == 1,
            ignored1: field_get(bits, 11, 1) == 1,
            reserved: field_get(bits, 12, 9),
            phys: field_get(bits, 21, 31),
            ignored2: field_get(bits, 52, 12),
        }
    }

    /// The fields of the word in which every bit is clear.
    pub open spec fn zero() -> EptMapPdFields {
        EptMapPdFields {
            r: false,
            w: false,
            e: false,
            memory_type: 0,
            ignore_pat: false,
            is_map: false,
            a: false,
            d: false,
            e_user: false,
            ignored1: false,
            reserved: 0,
            phys: 0,
            ignored2: 0,
        }
    }
}

impl View for EptMapPd {
    type V = EptMapPdFields;

    open spec fn view(&self) -> EptMapPdFields {
        EptMapPdFields::decode(self.bits())
    }
}

impl EptMapPd {
    /// The 64-bit word that the hardware reads.
    pub closed spec fn bits(self) -> u64 {
        self.0
    }

    /// Two values with the same fields are the same value.
    pub proof fn lemma_view_injective(a: EptMapPd, b: EptMapPd)
        requires
            a@ == b@,
        ensures
            a == b,
    {
        lemma_low_mask_values();
        let x = a.0;
        let y = b.0;
        assert(x == y) by (bit_vector)
            requires
                (x >> 0u64) & 1 == (y >> 0u64) & 1,
                (x >> 1u64) & 1 == (y >> 1u64) & 1,
                (x >> 2u64) & 1 == (y >> 2u64) & 1,
                (x >> 3u64) & 0x7 == (y >> 3u64) & 0x7,
                (x >> 6u64) & 1 == (y >> 6u64) & 1,
                (x >> 7u64) & 1 == (y >> 7u64) & 1,
                (x >> 8u64) & 1 == (y >> 8u64) & 1,
                (x >> 9u64) & 1 == (y >> 9u64) & 1,
                (x >> 10u64) & 1 == (y >> 10u64) & 1,
                (x >> 11u64) & 1 == (y >> 11u64) & 1,
                (x >> 12u64) & 0x1ff == (y >> 12u64) & 0x1ff,
                (x >> 21u64) & 0x7fff_ffff == (y >> 21u64) & 0x7fff_ffff,
                (x >> 52u64) & 0xfff == (y >> 52u64) & 0xfff,
        ;
    }

    /// Two values with the same word are the same value.
    pub proof fn lemma_bits_injective(a: EptMapPd, b: EptMapPd)
        requires
            a.bits() == b.bits(),
        ensures
            a == b,
    {
    }

    /// Creates a value with every bit clear.
    pub fn new() -> (r: Self)
        ensures
            r.bits() == 0,
            r@ == EptMapPdFields::zero(),
    {
        proof {
            lemma_field_get_zero(0, 1);
            lemma_field_get_zero(1, 1);
            lemma_field_get_zero(2, 1);
            lemma_field_get_zero(3, 3);
            lemma_field_get_zero(6, 1);
            lemma_field_get_zero(7, 1);
            lemma_field_get_zero(8, 1);
            lemma_field_get_zero(9, 1);
            lemma_field_get_zero(10, 1);
            lemma_field_get_zero(11, 1);
            lemma_field_get_zero(12, 9);
            lemma_field_get_zero(21, 31);
            lemma_field_get_zero(52, 12);
        }
        EptMapPd(0)
    }

    /// The value whose word is `bits`.
    pub fn from_bits(bits: u64) -> (r: Self)
        ensures
            r.bits() == bits,
    {
        EptMapPd(bits)
    }

    /// The word of this value.
    pub fn into_bits(self) -> (r: u64)
        ensures
            r == self.bits(),
    {
        self.0
    }

    /// The "read access" bit.
    pub fn r(&self) -> (b: bool)
        ensures
            b == self@.r,
    {
        field_read(self.0, 0, 1) == 1
    }

    /// This value with the "read access" bit set to `value`.
    pub fn with_r(self, value: bool) -> (res: Self)
        ensures
            res@ == (EptMapPdFields { r: value, ..self@ }),
    {
        proof {
            lemma_low_mask_values();
        }
        EptMapPd(field_write(self.0, 0, 1, if value { 1 } else { 0 }))
    }

    /// Sets the "read access" bit to `value`.
    pub fn set_r(&mut self, value: bool)
        ensures
            final(self)@ == (EptMapPdFields { r: value, ..old(self)@ }),
    {
        *self = self.with_r(value);
    }

    /// The "write access" bit.
    pub fn w(&self) -> (b: bool)
        ensures
            b == self@.w,
    {
        field_read(self.0, 1, 1) == 1
    }

    /// This value with the "write access" bit set to `value`.
    pub fn with_w(self, value: bool) -> (res: Self)
        ensures
            res@ == (EptMapPdFields { w: value, ..self@ }),
    {
        proof {
            lemma_low_mask_values();
        }
        EptMapPd(field_write(self.0, 1, 1, if value { 1 } else { 0 }))
    }

    /// Sets the "write access" bit to `value`.
    pub fn set_w(&mut self, value: bool)
        ensures
            final(self)@ == (EptMapPdFields { w: value, ..old(self)@ }),
    {
        *self = self.with_w(value);
    }

    /// The "execute access" bit.
    pub fn e(&self) -> (b: bool)
        ensures
            b == self@.e,
    {
        field_read(self.0, 2, 1) == 1
    }

    /// This value with the "execute access" bit set to `value`.
    pub fn with_e(self, value: bool) -> (res: Self)
        ensures
            res@ == (EptMapPdFields { e: value, ..self@ }),
    {
        proof {
            lemma_low_mask_values();
        }
        EptMapPd(field_write(self.0, 2, 1, if value { 1 } else { 0 }))
    }

    /// Sets the "execute access" bit to `value`.
    pub fn set_e(&mut self, value: bool)
        ensures
            final(self)@ == (EptMapPdFields { e: value, ..old(self)@ }),
    {
        *self = self.with_e(value);
    }

    /// The memory type field.
    pub fn memory_type(&self) -> (v: u8)
        ensures
            v == self@.memory_type as u8,
    {
        field_read(self.0, 3, 3) as u8
    }

    /// This value with the memory type field set to `value`, which must fit in 3 bits.
    pub fn with_memory_type(self, value: u8) -> (res: Self)
        requires
            value <= 0x7,
        ensures
            res@ == (EptMapPdFields { memory_type: value as u64, ..self@ }),
    {
        proof {
            lemma_low_mask_values();
        }
        EptMapPd(field_write(self.0, 3, 3, value as u64))
    }

    /// Sets the memory type field to `value`, which must fit in 3 bits.
    pub fn set_memory_type(&mut self, value: u8)
        requires
            value <= 0x7,
        ensures
            final(self)@ == (EptMapPdFields { memory_type: value as u64, ..old(self)@ }),
    {
        *self = self.with_memory_type(value);
    }

    /// The "ignore PAT memory type" bit.
    pub fn ignore_pat(&self) -> (b: bool)
        ensures
            b == self@.ignore_pat,
    {
        field_read(self.0, 6, 1) == 1
    }

    /// This value with the "ignore PAT memory type" bit set to `value`.
    pub fn with_ignore_pat(self, value: bool) -> (res: Self)
        ensures
            res@ == (EptMapPdFields { ignore_pat: value, ..self@ }),
    {
        proof {
            lemma_low_mask_values();
        }
        EptMapPd(field_write(self.0, 6, 1, if value { 1 } else { 0 }))
    }

    /// Sets the "ignore PAT memory type" bit to `value`.
    pub fn set_ignore_pat(&mut self, value: bool)
        ensures
            final(self)@ == (EptMapPdFields { ignore_pat: value, ..old(self)@ }),
    {
        *self = self.with_ignore_pat(value);
    }

    /// The "maps a 2-MByte page" bit.
    pub fn is_map(&self) -> (b: bool)
        ensures
            b == self@.is_map,
    {
        field_read(self.0, 7, 1) == 1
    }

    /// This value with the "maps a 2-MByte page" bit set to `value`.
    pub fn with_is_map(self, value: bool) -> (res: Self)
        ensures
            res@ == (EptMapPdFields { is_map: value, ..self@ }),
    {
        proof {
            lemma_low_mask_values();
        }
        EptMapPd(field_write(self.0, 7, 1, if value { 1 } else { 0 }))
    }

    /// Sets the "maps a 2-MByte page" bit to `value`.
    pub fn set_is_map(&mut self, value: bool)
        ensures
            final(self)@ == (EptMapPdFields { is_map: value, ..old(self)@ }),
    {
        *self = self.with_is_map(value);
    }

    /// The "accessed" bit.
    pub fn a(&self) -> (b: bool)
        ensures
            b == self@.a,
    {
        field_read(self.0, 8, 1) == 1
    }

    /// This value with the "accessed" bit set to `value`.
    pub fn with_a(self, value: bool) -> (res: Self)
        ensures
            res@ == (EptMapPdFields { a: value, ..self@ }),
    {
        proof {
            lemma_low_mask_values();
        }
        EptMapPd(field_write(self.0, 8, 1, if value { 1 } else { 0 }))
    }

    /// Sets the "accessed" bit to `value`.
    pub fn set_a(&mut self, value: bool)
        ensures
            final(self)@ == (EptMapPdFields { a: value, ..old(self)@ }),
    {
        *self = self.with_a(value);
    }

    /// The "dirty" bit.
    pub fn d(&self) -> (b: bool)
        ensures
            b == self@.d,
    {
        field_read(self.0, 9, 1) == 1
    }

    /// This value with the "dirty" bit set to `value`.
    pub fn with_d(self, value: bool) -> (res: Self)
        ensures
            res@ == (EptMapPdFields { d: value, ..self@ }),
    {
        proof {
            lemma_low_mask_values();
        }
        EptMapPd(field_write(self.0, 9, 1, if value { 1 } else { 0 }))
    }

    /// Sets the "dirty" bit to `value`.
    pub fn set_d(&mut self, value: bool)
        ensures
            final(self)@ == (EptMapPdFields { d: value, ..old(self)@ }),
    {
        *self = self.with_d(value);
    }

    /// The "user execute access" bit.
    pub fn e_user(&self) -> (b: bool)
        ensures
            b == self@.e_user,
    {
        field_read(self.0, 10, 1) == 1
    }

    /// This value with the "user execute access" bit set to `value`.
    pub fn with_e_user(self, value: bool) -> (res: Self)
        ensures
            res@ == (EptMapPdFields { e_user: value, ..self@ }),
    {
        proof {
            lemma_low_mask_values();
        }
        EptMapPd(field_write(self.0, 10, 1, if value { 1 } else { 0 }))
    }

    /// Sets the "user execute access" bit to `value`.
    pub fn set_e_user(&mut self, value: bool)
        ensures
            final(self)@ == (EptMapPdFields { e_user: value, ..old(self)@ }),
    {
        *self = self.with_e_user(value);
    }

    /// The physical address field.
    pub fn phys(&self) -> (v: usize)
        ensures
            v == self@.phys as usize,
    {
        field_read(self.0, 21, 31) as usize
    }

    /// This value with the physical address field set to `value`, which must fit in 31 bits.
    pub fn with_phys(self, value: usize) -> (res: Self)
        requires
            value <= 0x7fff_ffff,
        ensures
            res@ == (EptMapPdFields { phys: value as u64, ..self@ }),
    {
        proof {
            lemma_low_mask_values();
        }
        EptMapPd(field_write(self.0, 21, 31, value as u64))
    }

    /// Sets the physical address field to `value`, which must fit in 31 bits.
    pub fn set_phys(&mut self, value: usize)
        requires
            value <= 0x7fff_ffff,
        ensures
            final(self)@ == (EptMapPdFields { phys: value as u64, ..old(self)@ }),
    {
        *self = self.with_phys(value);
    }

}

} // verus!
