//! Bit-range primitive: a `(start, length)` window over a 32-bit word, with
//! extract, insert and copy operations. Registers all over the peripheral
//! model are accessed through these windows.

use vstd::prelude::*;

verus! {

/// The mask of the `length` lowest bits of a 32-bit word.
pub open spec fn low_mask(length: u32) -> u32 {
    if length >= 32 {
        0xFFFF_FFFFu32
    } else {
        !(0xFFFF_FFFFu32 << length)
    }
}

/// The mask selecting the bit-range `[start, start + length)`.
pub open spec fn range_mask(start: u32, length: u32) -> u32 {
    low_mask(length) << start
}

/// The value of the bit-range `[start, start + length)` of `value`,
/// shifted down to bit 0.
pub open spec fn extract_bits(start: u32, length: u32, value: u32) -> u32 {
    (value >> start) & low_mask(length)
}

/// `value` with the bit-range `[start, start + length)` replaced by the low
/// `length` bits of `field`; all bits outside the range are kept.
pub open spec fn insert_bits(start: u32, length: u32, value: u32, field: u32) -> u32 {
    (value & !range_mask(start, length)) | ((field << start) & range_mask(start, length))
}

/// A `(start, length)` pair naming a bit-range of a 32-bit word.
#[derive(Clone, Copy, PartialEq, Eq, Structural, Debug)]
pub struct Bitfield {
    pub start: u32,
    pub length: u32,
}

impl Bitfield {
    /// The range must be non-empty and must lie inside a 32-bit word.
    pub open spec fn wf(self) -> bool {
        &&& 1 <= self.length
        &&& self.start + self.length <= 32
    }

    pub open spec fn spec_mask(self) -> u32 {
        range_mask(self.start, self.length)
    }

    pub open spec fn spec_extract(self, value: u32) -> u32 {
        extract_bits(self.start, self.length, value)
    }

    pub open spec fn spec_insert(self, value: u32, field: u32) -> u32 {
        insert_bits(self.start, self.length, value, field)
    }

    pub fn new(start: u32, length: u32) -> (r: Bitfield)
        requires
            1 <= length,
            start + length <= 32,
        ensures
            r == (Bitfield { start, length }),
            r.wf(),
    {
        Bitfield { start, length }
    }

    /// The mask selecting this bit-range.
    pub fn mask(self) -> (r: u32)
        requires
            self.wf(),
        ensures
            r == self.spec_mask(),
    {
        let low: u32 = if self.length >= 32 {
            0xFFFF_FFFFu32
        } else {
            !(0xFFFF_FFFFu32 << self.length)
        };
        low << self.start
    }

    /// Reads the bit-range out of `value`.
    pub fn extract_from(self, value: u32) -> (r: u32)
        requires
            self.wf(),
        ensures
            r == self.spec_extract(value),
    {
        let low: u32 = if self.length >= 32 {
            0xFFFF_FFFFu32
        } else {
            !(0xFFFF_FFFFu32 << self.length)
        };
        (value >> self.start) & low
    }

    /// Writes the low `length` bits of `field` into the bit-range of `value`.
    pub fn insert_into(self, value: u32, field: u32) -> (r: u32)
        requires
            self.wf(),
        ensures
            r == self.spec_insert(value, field),
    {
        let m = self.mask();
        (value & !m) | ((field << self.start) & m)
    }

    /// Copies this bit-range from `src` into `dest`, in place.
    pub fn copy(self, dest: u32, src: u32) -> (r: u32)
        requires
            self.wf(),
        ensures
            r == self.spec_insert(dest, self.spec_extract(src)),
    {
        let field = self.extract_from(src);
        proof {
            lemma_extract_fits(self.start, self.length, src);
            lemma_insert_shift_irrelevant(self.start, self.length, dest, field);
        }
        self.insert_into(dest, field)
    }
}

/// An extracted field always fits in `length` bits.
pub proof fn lemma_extract_fits(start: u32, length: u32, value: u32)
    by (bit_vector)
    requires
        1 <= length,
        start + length <= 32,
    ensures
        extract_bits(start, length, value) & low_mask(length) == extract_bits(start, length, value),
        length < 32 ==> extract_bits(start, length, value) < (1u32 << length),
{
}

/// Inserting a field only looks at its low `length` bits, so masking the
/// field first changes nothing.
pub proof fn lemma_insert_shift_irrelevant(start: u32, length: u32, value: u32, field: u32)
    by (bit_vector)
    requires
        1 <= length,
        start + length <= 32,
    ensures
        insert_bits(start, length, value, field) == insert_bits(
            start,
            length,
            value,
            field & low_mask(length),
        ),
{
}

/// Round trip: a field that fits in `length` bits is read back unchanged
/// after being inserted.
pub proof fn lemma_insert_extract_round_trip(start: u32, length: u32, value: u32, field: u32)
    by (bit_vector)
    requires
        1 <= length,
        start + length <= 32,
        field & low_mask(length) == field,
    ensures
        extract_bits(start, length, insert_bits(start, length, value, field)) == field,
{
}

/// Frame: inserting a field preserves every bit outside the range.
pub proof fn lemma_insert_preserves_outside(start: u32, length: u32, value: u32, field: u32)
    by (bit_vector)
    requires
        1 <= length,
        start + length <= 32,
    ensures
        insert_bits(start, length, value, field) & !range_mask(start, length) == value & !range_mask(
            start,
            length,
        ),
{
}

/// For a range shorter than the full word, "fits in `length` bits" is the
/// same as being below `2^length`.
pub proof fn lemma_fits_iff_below_pow2(length: u32, field: u32)
    by (bit_vector)
    requires
        1 <= length < 32,
    ensures
        (field & low_mask(length) == field) <==> field < (1u32 << length),
{
}

/// Two disjoint ranges do not disturb each other: inserting into one leaves
/// what the other extracts unchanged.
pub proof fn lemma_disjoint_ranges_commute(
    s1: u32,
    l1: u32,
    s2: u32,
    l2: u32,
    value: u32,
    field: u32,
)
    by (bit_vector)
    requires
        1 <= l1,
        s1 + l1 <= 32,
        1 <= l2,
        s2 + l2 <= 32,
        s1 + l1 <= s2 || s2 + l2 <= s1,
    ensures
        extract_bits(s2, l2, insert_bits(s1, l1, value, field)) == extract_bits(s2, l2, value),
{
}

/// The canonical flag encoding: 1 for true, 0 for false.
pub open spec fn spec_bool_to_flag(b: bool) -> u32 {
    if b {
        1u32
    } else {
        0u32
    }
}

pub fn bool_to_flag(b: bool) -> (r: u32)
    ensures
        r == spec_bool_to_flag(b),
{
    if b {
        1
    } else {
        0
    }
}

} // verus!
