//! Extraction and insertion of a contiguous bit-field of a 64-bit lane.

use vstd::prelude::*;
use crate::descriptor::FieldDescriptor;
use crate::lane::LanePair;

verus! {

/// The lane value whose low `length` bits are set and whose other bits are
/// clear; a `length` of zero stands for 64 and gives the all-ones lane.
pub open spec fn low_mask(length: u64) -> u64 {
    if length == 0 {
        0xffff_ffff_ffff_ffff
    } else {
        !(0xffff_ffff_ffff_ffffu64 << length)
    }
}

/// The field of `x` that starts at bit `index` and has `length` bits, moved
/// down to bit 0 and zero-extended.
pub open spec fn extract_bits(x: u64, index: u64, length: u64) -> u64 {
    (x >> index) & low_mask(length)
}

/// The lane `x` with the `length`-bit field at `index` replaced by the low
/// `length` bits of `bits`.
pub open spec fn insert_bits(x: u64, bits: u64, index: u64, length: u64) -> u64 {
    (x & !(low_mask(length) << index)) | ((bits & low_mask(length)) << index)
}

/// Bit `i` of the lane `x`.
pub open spec fn bit_at(x: u64, i: u64) -> bool {
    (x >> i) & 1 == 1
}

/// The positions that a field occupies in its lane.
pub open spec fn field_mask(d: FieldDescriptor) -> u64 {
    low_mask(d.length as u64) << (d.index as u64)
}

/// The value of the field `d` of the lane `x`.
pub open spec fn field_of(x: u64, d: FieldDescriptor) -> u64 {
    extract_bits(x, d.index as u64, d.length as u64)
}

/// The lane `x` after the field `d` has been overwritten with `bits`.
pub open spec fn with_field(x: u64, bits: u64, d: FieldDescriptor) -> u64 {
    insert_bits(x, bits, d.index as u64, d.length as u64)
}

/// Computes the mask of the low `length` bits, zero standing for 64.
pub fn mask_of_length(length: u8) -> (r: u64)
    requires
        length < 64,
    ensures
        r == low_mask(length as u64),
{
    if length == 0 {
        0xffff_ffff_ffff_ffff
    } else {
        !(0xffff_ffff_ffff_ffffu64 << (length as u64))
    }
}

/// Reads the field `d` of the lane `x`.
pub fn extract_field(x: u64, d: FieldDescriptor) -> (r: u64)
    requires
        d.valid(),
    ensures
        r == field_of(x, d),
        r & !low_mask(d.length as u64) == 0,
{
    let mask: u64 = mask_of_length(d.length);
    let index: u64 = d.index as u64;
    let r: u64 = (x >> index) & mask;
    proof {
        lemma_extract_outside_zero(x, d);
    }
    r
}

/// Overwrites the field `d` of the lane `x` with the low bits of `bits`.
pub fn insert_field(x: u64, bits: u64, d: FieldDescriptor) -> (r: u64)
    requires
        d.valid(),
    ensures
        r == with_field(x, bits, d),
        r & !field_mask(d) == x & !field_mask(d),
        field_of(r, d) == bits & low_mask(d.length as u64),
{
    let mask: u64 = mask_of_length(d.length);
    let index: u64 = d.index as u64;
    let r: u64 = (x & !(mask << index)) | ((bits & mask) << index);
    proof {
        lemma_insert_outside_unchanged(x, bits, d);
        lemma_insert_then_extract(x, bits, d);
    }
    r
}

/// Extracts from lane 0 of `x` the field that lane 0 of `y` describes.
///
/// Lane 0 of the result is the field, zero-extended. Lane 1 of the result
/// is not part of the contract. The descriptor in `y` must be valid: the
/// operation has no defined result otherwise.
pub fn _mm_extract_si64(x: LanePair, y: LanePair) -> (r: LanePair)
    requires
        FieldDescriptor::spec_decode(y.lo).valid(),
    ensures
        r.lo == field_of(x.lo, FieldDescriptor::spec_decode(y.lo)),
        r.lo & !low_mask(FieldDescriptor::spec_decode(y.lo).length as u64) == 0,
{
    let d = FieldDescriptor::decode(y.lo);
    LanePair { lo: extract_field(x.lo, d), hi: 0 }
}

/// Inserts the low bits of lane 0 of `y` into lane 0 of `x`, at the field
/// that lane 1 of `y` describes.
///
/// Lane 0 of the result is lane 0 of `x` with that field replaced and every
/// other bit unchanged. Lane 1 of the result is not part of the contract.
/// The descriptor in `y` must be valid: the operation has no defined result
/// otherwise.
pub fn _mm_insert_si64(x: LanePair, y: LanePair) -> (r: LanePair)
    requires
        FieldDescriptor::spec_decode(y.hi).valid(),
    ensures
        r.lo == with_field(x.lo, y.lo, FieldDescriptor::spec_decode(y.hi)),
        r.lo & !field_mask(FieldDescriptor::spec_decode(y.hi)) == x.lo & !field_mask(
            FieldDescriptor::spec_decode(y.hi),
        ),
        field_of(r.lo, FieldDescriptor::spec_decode(y.hi)) == y.lo & low_mask(
            FieldDescriptor::spec_decode(y.hi).length as u64,
        ),
{
    let d = FieldDescriptor::decode(y.hi);
    LanePair { lo: insert_field(x.lo, y.lo, d), hi: 0 }
}

/// Extracts as `_mm_extract_si64` does when the descriptor in `y` is valid,
/// and returns `None` when it is not.
pub fn checked_extract_si64(x: LanePair, y: LanePair) -> (r: Option<LanePair>)
    ensures
        r.is_some() <==> FieldDescriptor::spec_decode(y.lo).valid(),
        r.is_some() ==> r.unwrap().lo == field_of(x.lo, FieldDescriptor::spec_decode(y.lo)),
{
    if FieldDescriptor::decode(y.lo).is_valid() {
        Some(_mm_extract_si64(x, y))
    } else {
        None
    }
}

/// Inserts as `_mm_insert_si64` does when the descriptor in `y` is valid,
/// and returns `None` when it is not.
pub fn checked_insert_si64(x: LanePair, y: LanePair) -> (r: Option<LanePair>)
    ensures
        r.is_some() <==> FieldDescriptor::spec_decode(y.hi).valid(),
        r.is_some() ==> r.unwrap().lo == with_field(
            x.lo,
            y.lo,
            FieldDescriptor::spec_decode(y.hi),
        ),
{
    if FieldDescriptor::decode(y.hi).is_valid() {
        Some(_mm_insert_si64(x, y))
    } else {
        None
    }
}

/// Extracting a field that was just inserted gives the inserted bits,
/// truncated to the field's length.
pub proof fn lemma_insert_then_extract(x: u64, bits: u64, d: FieldDescriptor)
    requires
        d.valid(),
    ensures
        field_of(with_field(x, bits, d), d) == bits & low_mask(d.length as u64),
{
    let i: u64 = d.index as u64;
    let l: u64 = d.length as u64;
    assert(extract_bits(insert_bits(x, bits, i, l), i, l) == bits & low_mask(l)) by (bit_vector)
        requires
            i < 64,
            l < 64,
            i + l <= 64,
            l == 0 ==> i == 0,
    ;
}

/// Extracting the 64-bit field at index zero gives the whole lane.
pub proof fn lemma_extract_identity(x: u64)
    ensures
        field_of(x, FieldDescriptor { index: 0, length: 0 }) == x,
{
    assert(extract_bits(x, 0, 0) == x) by (bit_vector);
}

/// Inserting into the 64-bit field at index zero replaces the whole lane.
pub proof fn lemma_insert_whole_lane(x: u64, bits: u64)
    ensures
        with_field(x, bits, FieldDescriptor { index: 0, length: 0 }) == bits,
{
    assert(insert_bits(x, bits, 0, 0) == bits) by (bit_vector);
}

/// Overwriting a field and then writing its former bits back restores the
/// lane.
pub proof fn lemma_insert_restores(x: u64, bits: u64, d: FieldDescriptor)
    requires
        d.valid(),
    ensures
        with_field(with_field(x, bits, d), field_of(x, d), d) == x,
{
    let i: u64 = d.index as u64;
    let l: u64 = d.length as u64;
    assert(insert_bits(insert_bits(x, bits, i, l), extract_bits(x, i, l), i, l) == x)
        by (bit_vector)
        requires
            i < 64,
            l < 64,
            i + l <= 64,
            l == 0 ==> i == 0,
    ;
}

/// Writing into a field the bits it already holds changes nothing.
pub proof fn lemma_insert_own_field(x: u64, d: FieldDescriptor)
    requires
        d.valid(),
    ensures
        with_field(x, field_of(x, d), d) == x,
{
    let i: u64 = d.index as u64;
    let l: u64 = d.length as u64;
    assert(insert_bits(x, extract_bits(x, i, l), i, l) == x) by (bit_vector)
        requires
            i < 64,
            l < 64,
            i + l <= 64,
            l == 0 ==> i == 0,
    ;
}

/// An extracted field has no bit set at or above its length.
pub proof fn lemma_extract_outside_zero(x: u64, d: FieldDescriptor)
    requires
        d.wf(),
    ensures
        field_of(x, d) & !low_mask(d.length as u64) == 0,
        d.length > 0 ==> field_of(x, d) >> (d.length as u64) == 0,
{
    let i: u64 = d.index as u64;
    let l: u64 = d.length as u64;
    assert(extract_bits(x, i, l) & !low_mask(l) == 0 && (l > 0 ==> extract_bits(x, i, l) >> l
        == 0)) by (bit_vector)
        requires
            i < 64,
            l < 64,
    ;
}

/// An insertion leaves every bit outside the field as it was.
pub proof fn lemma_insert_outside_unchanged(x: u64, bits: u64, d: FieldDescriptor)
    requires
        d.wf(),
    ensures
        with_field(x, bits, d) & !field_mask(d) == x & !field_mask(d),
{
    let i: u64 = d.index as u64;
    let l: u64 = d.length as u64;
    assert(insert_bits(x, bits, i, l) & !(low_mask(l) << i) == x & !(low_mask(l) << i))
        by (bit_vector)
        requires
            i < 64,
            l < 64,
    ;
}

/// Bit by bit: bit `k` of an extracted field is bit `index + k` of the lane
/// while `k` is below the field's width, and clear from there on.
pub proof fn lemma_extract_bit(x: u64, d: FieldDescriptor, k: u64)
    requires
        d.valid(),
        k < 64,
    ensures
        bit_at(field_of(x, d), k) == (k < d.width() && bit_at(x, (d.index + k) as u64)),
{
    let i: u64 = d.index as u64;
    let l: u64 = d.length as u64;
    let w: u64 = if l == 0 { 64 } else { l };
    let p: u64 = if k < w { (i + k) as u64 } else { 0 };
    assert(bit_at(extract_bits(x, i, l), k) == (k < w && bit_at(x, p))) by (bit_vector)
        requires
            i < 64,
            l < 64,
            k < 64,
            i + l <= 64,
            l == 0 ==> i == 0,
            w == (if l == 0 { 64 } else { l }),
            p == (if k < w { (i + k) as u64 } else { 0 }),
    ;
}

/// Bit by bit: inside the field, bit `k` of the lane after an insertion is
/// bit `k - index` of the inserted bits; outside it, bit `k` of the lane
/// before.
pub proof fn lemma_insert_bit(x: u64, bits: u64, d: FieldDescriptor, k: u64)
    requires
        d.valid(),
        k < 64,
    ensures
        bit_at(with_field(x, bits, d), k) == (if d.index <= k < d.index + d.width() {
            bit_at(bits, (k - d.index) as u64)
        } else {
            bit_at(x, k)
        }),
{
    let i: u64 = d.index as u64;
    let l: u64 = d.length as u64;
    let w: u64 = if l == 0 { 64 } else { l };
    let inside: bool = i <= k && k < i + w;
    let p: u64 = if inside { (k - i) as u64 } else { 0 };
    assert(bit_at(insert_bits(x, bits, i, l), k) == (if inside {
        bit_at(bits, p)
    } else {
        bit_at(x, k)
    })) by (bit_vector)
        requires
            i < 64,
            l < 64,
            k < 64,
            i + l <= 64,
            l == 0 ==> i == 0,
            w == (if l == 0 { 64 } else { l }),
            inside == (i <= k && k < i + w),
            p == (if inside { (k - i) as u64 } else { 0 }),
    ;
}

} // verus!
