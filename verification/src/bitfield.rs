//! Bit fields packed into a `u64`: a field is given by the offset of its lowest
//! bit and its width. Every register and table entry of this crate is built on
//! the two operations here, reading a field and replacing a field.

use vstd::prelude::*;

verus! {

/// The value with the low `width` bits set and all others clear.
pub open spec fn low_mask(width: u64) -> u64 {
    !(0xffff_ffff_ffff_ffffu64 << width)
}

/// A field of `width` bits starting at bit `offset` lies inside a `u64`.
pub open spec fn field_fits(offset: u64, width: u64) -> bool {
    1 <= width && width < 64 && offset + width <= 64
}

/// Two fields that share no bit.
pub open spec fn fields_disjoint(o1: u64, w1: u64, o2: u64, w2: u64) -> bool {
    o1 + w1 <= o2 || o2 + w2 <= o1
}

/// The field of `width` bits at `offset` of `bits`, as an unsigned number.
pub open spec fn field_get(bits: u64, offset: u64, width: u64) -> u64 {
    (bits >> offset) & low_mask(width)
}

/// `bits` with the field of `width` bits at `offset` replaced by the low
/// `width` bits of `value`.
pub open spec fn field_set(bits: u64, offset: u64, width: u64, value: u64) -> u64 {
    (bits & !(low_mask(width) << offset)) | ((value & low_mask(width)) << offset)
}

/// The encoding of a flag as a one-bit field.
pub open spec fn bool_bit(b: bool) -> u64 {
    if b { 1 } else { 0 }
}

/// Reading a field right after writing it gives back what was written.
pub broadcast proof fn lemma_field_get_set_same(bits: u64, offset: u64, width: u64, value: u64)
    requires
        field_fits(offset, width),
        value <= low_mask(width),
    ensures
        #[trigger] field_get(field_set(bits, offset, width, value), offset, width) == value,
{
    assert(((((bits & !((!(0xffff_ffff_ffff_ffffu64 << width)) << offset)) | ((value & (!(
    0xffff_ffff_ffff_ffffu64 << width))) << offset)) >> offset) & (!(0xffff_ffff_ffff_ffffu64
        << width))) == value) by (bit_vector)
        requires
            1 <= width,
            width < 64,
            offset + width <= 64,
            value <= !(0xffff_ffff_ffff_ffffu64 << width),
    ;
}

/// Writing a field leaves every field that shares no bit with it unchanged.
pub broadcast proof fn lemma_field_get_set_other(
    bits: u64,
    o1: u64,
    w1: u64,
    value: u64,
    o2: u64,
    w2: u64,
)
    requires
        field_fits(o1, w1),
        field_fits(o2, w2),
        fields_disjoint(o1, w1, o2, w2),
    ensures
        #[trigger] field_get(field_set(bits, o1, w1, value), o2, w2) == field_get(bits, o2, w2),
{
    assert(((((bits & !((!(0xffff_ffff_ffff_ffffu64 << w1)) << o1)) | ((value & (!(
    0xffff_ffff_ffff_ffffu64 << w1))) << o1)) >> o2) & (!(0xffff_ffff_ffff_ffffu64 << w2))) == ((
    bits >> o2) & (!(0xffff_ffff_ffff_ffffu64 << w2)))) by (bit_vector)
        requires
            1 <= w1,
            w1 < 64,
            o1 + w1 <= 64,
            1 <= w2,
            w2 < 64,
            o2 + w2 <= 64,
            o1 + w1 <= o2 || o2 + w2 <= o1,
    ;
}

/// A field never holds more than its width allows.
pub broadcast proof fn lemma_field_get_bounded(bits: u64, offset: u64, width: u64)
    requires
        field_fits(offset, width),
    ensures
        #[trigger] field_get(bits, offset, width) <= low_mask(width),
{
    assert(((bits >> offset) & (!(0xffff_ffff_ffff_ffffu64 << width))) <= !(
    0xffff_ffff_ffff_ffffu64 << width)) by (bit_vector);
}

pub broadcast group group_field_laws {
    lemma_field_get_set_same,
    lemma_field_get_set_other,
    lemma_field_get_bounded,
}

/// Writing back what a field holds changes nothing.
pub proof fn lemma_field_set_get_identity(bits: u64, offset: u64, width: u64)
    requires
        field_fits(offset, width),
    ensures
        field_set(bits, offset, width, field_get(bits, offset, width)) == bits,
{
    assert(((bits & !((!(0xffff_ffff_ffff_ffffu64 << width)) << offset)) | ((((bits >> offset) & (
    !(0xffff_ffff_ffff_ffffu64 << width))) & (!(0xffff_ffff_ffff_ffffu64 << width))) << offset))
        == bits) by (bit_vector)
        requires
            1 <= width,
            width < 64,
            offset + width <= 64,
    ;
}

/// Of two writes to one field, the second one wins.
pub proof fn lemma_field_set_set(bits: u64, offset: u64, width: u64, first: u64, second: u64)
    requires
        field_fits(offset, width),
    ensures
        field_set(field_set(bits, offset, width, first), offset, width, second) == field_set(
            bits,
            offset,
            width,
            second,
        ),
{
    assert(((((bits & !((!(0xffff_ffff_ffff_ffffu64 << width)) << offset)) | ((first & (!(
    0xffff_ffff_ffff_ffffu64 << width))) << offset)) & !((!(0xffff_ffff_ffff_ffffu64 << width))
        << offset)) | ((second & (!(0xffff_ffff_ffff_ffffu64 << width))) << offset)) == ((bits
        & !((!(0xffff_ffff_ffff_ffffu64 << width)) << offset)) | ((second & (!(
    0xffff_ffff_ffff_ffffu64 << width))) << offset))) by (bit_vector)
        requires
            1 <= width,
            width < 64,
            offset + width <= 64,
    ;
}

/// Every field of the all-zero word is zero.
pub proof fn lemma_field_get_zero(offset: u64, width: u64)
    requires
        field_fits(offset, width),
    ensures
        field_get(0, offset, width) == 0,
{
    assert(((0u64 >> offset) & (!(0xffff_ffff_ffff_ffffu64 << width))) == 0) by (bit_vector);
}

/// The masks of the widths that the layouts of this crate use.
pub proof fn lemma_low_mask_values()
    ensures
        low_mask(1) == 1,
        low_mask(3) == 7,
        low_mask(5) == 0x1f,
        low_mask(9) == 0x1ff,
        low_mask(12) == 0xfff,
        low_mask(16) == 0xffff,
        low_mask(31) == 0x7fff_ffff,
        low_mask(36) == 0xf_ffff_ffff,
        low_mask(40) == 0xff_ffff_ffff,
{
    assert(!(0xffff_ffff_ffff_ffffu64 << 1u64) == 1 && !(0xffff_ffff_ffff_ffffu64 << 3u64) == 7
        && !(0xffff_ffff_ffff_ffffu64 << 5u64) == 0x1f && !(0xffff_ffff_ffff_ffffu64 << 9u64)
        == 0x1ff && !(0xffff_ffff_ffff_ffffu64 << 12u64) == 0xfff && !(0xffff_ffff_ffff_ffffu64
        << 16u64) == 0xffff && !(0xffff_ffff_ffff_ffffu64 << 31u64) == 0x7fff_ffff && !(
    0xffff_ffff_ffff_ffffu64 << 36u64) == 0xf_ffff_ffff && !(0xffff_ffff_ffff_ffffu64 << 40u64)
        == 0xff_ffff_ffff) by (bit_vector);
}

/// Reads the field of `width` bits at `offset`.
pub fn field_read(bits: u64, offset: u64, width: u64) -> (r: u64)
    requires
        field_fits(offset, width),
    ensures
        r == field_get(bits, offset, width),
{
    (bits >> offset) & !(0xffff_ffff_ffff_ffffu64 << width)
}

/// Replaces the field of `width` bits at `offset` with `value`.
pub fn field_write(bits: u64, offset: u64, width: u64, value: u64) -> (r: u64)
    requires
        field_fits(offset, width),
    ensures
        r == field_set(bits, offset, width, value),
{
    let mask: u64 = !(0xffff_ffff_ffff_ffffu64 << width);
    (bits & !(mask << offset)) | ((value & mask) << offset)
}

} // verus!
