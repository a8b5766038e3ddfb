//! The packed control word that names a bit-field: six bits of length and
//! six bits of index.

use vstd::prelude::*;

verus! {

/// The bits of a control word that carry the descriptor; every other bit is
/// ignored.
pub const CONTROL_BITS: u64 = 0x3f3f;

/// A bit-field of a 64-bit lane: `length` bits starting at bit `index`.
///
/// Both fields are six-bit quantities. A `length` of zero stands for a field
/// of 64 bits.
#[derive(Clone, Copy, Debug, PartialEq, Eq, Structural)]
pub struct FieldDescriptor {
    pub index: u8,
    pub length: u8,
}

impl FieldDescriptor {
    /// Both fields fit in six bits.
    pub open spec fn wf(self) -> bool {
        self.index < 64 && self.length < 64
    }

    /// The number of bits in the field: `length`, with zero read as 64.
    pub open spec fn width(self) -> nat {
        if self.length == 0 {
            64
        } else {
            self.length as nat
        }
    }

    /// The field lies inside the lane: `index + width <= 64`. A zero
    /// `length` therefore requires a zero `index`.
    pub open spec fn valid(self) -> bool {
        self.wf() && self.index + self.width() <= 64
    }

    /// The descriptor that a control word carries: `length` in bits 5:0,
    /// `index` in bits 13:8.
    pub open spec fn spec_decode(control: u64) -> Self {
        FieldDescriptor {
            index: ((control >> 8) & 0x3f) as u8,
            length: (control & 0x3f) as u8,
        }
    }

    /// The control word that carries this descriptor and has every other
    /// bit clear.
    pub open spec fn spec_encode(self) -> u64 {
        ((self.index as u64) << 8) | (self.length as u64)
    }

    /// Builds a descriptor from an index and a length, when both fit in six
    /// bits.
    pub fn new(index: u8, length: u8) -> (r: Option<Self>)
        ensures
            r.is_some() <==> (index < 64 && length < 64),
            r.is_some() ==> r.unwrap().index == index && r.unwrap().length == length,
    {
        if index < 64 && length < 64 {
            Some(FieldDescriptor { index, length })
        } else {
            None
        }
    }

    /// Tells whether the field lies inside the lane.
    pub fn is_valid(self) -> (r: bool)
        ensures
            r == self.valid(),
    {
        if self.index >= 64 || self.length >= 64 {
            false
        } else if self.length == 0 {
            self.index == 0
        } else {
            self.index + self.length <= 64
        }
    }

    /// Reads the descriptor out of a control word, ignoring all bits but
    /// 5:0 and 13:8.
    pub fn decode(control: u64) -> (r: Self)
        ensures
            r == Self::spec_decode(control),
            r.wf(),
    {
        let length: u64 = control & 0x3f;
        let index: u64 = (control >> 8) & 0x3f;
        assert(length < 64) by (bit_vector)
            requires
                length == control & 0x3f,
        ;
        assert(index < 64) by (bit_vector)
            requires
                index == (control >> 8) & 0x3f,
        ;
        FieldDescriptor { index: index as u8, length: length as u8 }
    }

    /// Packs the descriptor into a control word with all other bits clear.
    pub fn encode(self) -> (r: u64)
        requires
            self.wf(),
        ensures
            r == self.spec_encode(),
            r & !CONTROL_BITS == 0,
    {
        let index: u64 = self.index as u64;
        let length: u64 = self.length as u64;
        assert(((index << 8) | length) & !0x3f3fu64 == 0) by (bit_vector)
            requires
                index < 64,
                length < 64,
        ;
        (index << 8) | length
    }
}

/// Decoding the encoding of a descriptor gives the descriptor back.
pub proof fn lemma_decode_encode(d: FieldDescriptor)
    requires
        d.wf(),
    ensures
        FieldDescriptor::spec_decode(d.spec_encode()) == d,
{
    let index: u64 = d.index as u64;
    let length: u64 = d.length as u64;
    let control: u64 = (index << 8) | length;
    assert((control >> 8) & 0x3f == index && control & 0x3f == length) by (bit_vector)
        requires
            index < 64,
            length < 64,
            control == (index << 8) | length,
    ;
}

/// Encoding the descriptor of a control word keeps exactly the descriptor's
/// bits of that word.
pub proof fn lemma_encode_decode(control: u64)
    ensures
        FieldDescriptor::spec_decode(control).spec_encode() == control & CONTROL_BITS,
{
    let index: u64 = (control >> 8) & 0x3f;
    let length: u64 = control & 0x3f;
    assert(index < 64 && length < 64 && (index << 8) | length == control & 0x3f3f) by (bit_vector)
        requires
            index == (control >> 8) & 0x3f,
            length == control & 0x3f,
    ;
}

/// Bits of a control word outside 5:0 and 13:8 have no effect on the
/// descriptor it carries.
pub proof fn lemma_decode_ignores_other_bits(a: u64, b: u64)
    requires
        a & CONTROL_BITS == b & CONTROL_BITS,
    ensures
        FieldDescriptor::spec_decode(a) == FieldDescriptor::spec_decode(b),
{
    assert((a >> 8) & 0x3f == (b >> 8) & 0x3f && a & 0x3f == b & 0x3f) by (bit_vector)
        requires
            a & 0x3f3f == b & 0x3f3f,
    ;
}

} // verus!
