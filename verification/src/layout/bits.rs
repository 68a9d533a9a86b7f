//! Scalar fields packed into a word.
//!
//! A field is named by its shift and by the mask of its width. Fields of one
//! width tile the word: their shifts are multiples of the width.

use vstd::prelude::*;

verus! {

/// Whether `mask` is the mask of a supported width and `shift` places a field
/// of that width on its natural alignment inside a word.
pub open spec fn field_aligned(shift: u64, mask: u64) -> bool {
    ||| mask == 1 && shift < 64
    ||| mask == 0xff && shift < 64 && shift % 8 == 0
    ||| mask == 0xffff && shift < 64 && shift % 16 == 0
    ||| mask == 0xffff_ffff && shift < 64 && shift % 32 == 0
    ||| mask == 0xffff_ffff_ffff_ffff && shift == 0
}

/// The field of `word` at `shift`, `mask` wide.
pub open spec fn extract(word: u64, shift: u64, mask: u64) -> u64 {
    (word >> shift) & mask
}

/// `word` with the field at `shift` replaced by the low bits of `value`.
pub open spec fn insert(word: u64, shift: u64, mask: u64, value: u64) -> u64 {
    (word & !(mask << shift)) | ((value & mask) << shift)
}

pub fn extract_field(word: u64, shift: u64, mask: u64) -> (r: u64)
    requires
        shift < 64,
    ensures
        r == extract(word, shift, mask),
{
    (word >> shift) & mask
}

pub fn insert_field(word: u64, shift: u64, mask: u64, value: u64) -> (r: u64)
    requires
        shift < 64,
    ensures
        r == insert(word, shift, mask, value),
{
    (word & !(mask << shift)) | ((value & mask) << shift)
}

/// A field reads back what was last inserted into it.
pub proof fn lemma_extract_inserted(word: u64, shift: u64, mask: u64, value: u64)
    requires
        field_aligned(shift, mask),
    ensures
        extract(insert(word, shift, mask, value), shift, mask) == value & mask,
{
    assert(extract(insert(word, shift, mask, value), shift, mask) == value & mask) by (bit_vector)
        requires
            field_aligned(shift, mask),
    ;
}

/// Inserting into one field leaves every other field of the same width as it was.
pub proof fn lemma_extract_other(word: u64, shift: u64, other: u64, mask: u64, value: u64)
    requires
        field_aligned(shift, mask),
        field_aligned(other, mask),
        shift != other,
    ensures
        extract(insert(word, shift, mask, value), other, mask) == extract(word, other, mask),
{
    assert(extract(insert(word, shift, mask, value), other, mask) == extract(word, other, mask))
        by (bit_vector)
        requires
            field_aligned(shift, mask),
            field_aligned(other, mask),
            shift != other,
    ;
}

/// A field holds no bit outside its mask.
pub proof fn lemma_extract_bounded(word: u64, shift: u64, mask: u64)
    ensures
        extract(word, shift, mask) & mask == extract(word, shift, mask),
        extract(word, shift, mask) <= mask,
{
    assert(((word >> shift) & mask) & mask == (word >> shift) & mask) by (bit_vector);
    assert(((word >> shift) & mask) <= mask) by (bit_vector);
}

} // verus!
