//! The pointer word.
//!
//! Bits 0..2 tell what the pointer locates, bits 2..32 hold a signed offset in
//! words, counted from the word after the pointer. A list pointer keeps the
//! element encoding in bits 32..35 and a count in bits 35..64. The tag word in
//! front of a list of inline structs is shaped like a struct pointer whose
//! offset field holds the element count; its bits 32..48 and 48..64 give the
//! struct's data words and pointer slots.

use vstd::prelude::*;

verus! {

/// Kind bits of a pointer to a struct, and of a tag word.
pub const KIND_STRUCT: u64 = 0;

/// Kind bits of a pointer to a list.
pub const KIND_LIST: u64 = 1;

/// Code of the inline-composite encoding in a list pointer.
pub const CODE_INLINE_COMPOSITE: u64 = 7;

pub open spec fn spec_pointer_kind(word: u64) -> u64 {
    word & 3
}

pub open spec fn spec_offset_field(word: u64) -> u64 {
    (word >> 2) & 0x3fff_ffff
}

/// The offset field read as a signed 30-bit number.
pub open spec fn pointer_offset(word: u64) -> int {
    let raw: u64 = spec_offset_field(word);
    if raw >= 0x2000_0000 {
        raw - 0x4000_0000
    } else {
        raw as int
    }
}

pub open spec fn spec_list_code(word: u64) -> u64 {
    (word >> 32) & 7
}

pub open spec fn spec_list_count(word: u64) -> u64 {
    word >> 35
}

pub open spec fn spec_struct_data(word: u64) -> u64 {
    (word >> 32) & 0xffff
}

pub open spec fn spec_struct_pointers(word: u64) -> u64 {
    word >> 48
}

/// The pointer word of a list that starts `offset` words after the pointer.
pub open spec fn spec_list_pointer(offset: u64, code: u64, count: u64) -> u64 {
    (offset << 2) | 1 | (code << 32) | (count << 35)
}

/// The tag word of a list of `count` inline structs.
pub open spec fn spec_composite_tag(count: u64, data: u64, pointers: u64) -> u64 {
    (count << 2) | (data << 32) | (pointers << 48)
}

#[verifier::when_used_as_spec(spec_pointer_kind)]
pub fn pointer_kind(word: u64) -> (r: u64)
    ensures
        r == spec_pointer_kind(word),
{
    word & 3
}

#[verifier::when_used_as_spec(spec_offset_field)]
pub fn offset_field(word: u64) -> (r: u64)
    ensures
        r == spec_offset_field(word),
        r < 0x4000_0000,
{
    let r: u64 = (word >> 2) & 0x3fff_ffff;
    proof {
        lemma_field_bounds(word);
    }
    r
}

#[verifier::when_used_as_spec(spec_list_code)]
pub fn list_code(word: u64) -> (r: u64)
    ensures
        r == spec_list_code(word),
        r < 8,
{
    let r: u64 = (word >> 32) & 7;
    proof {
        lemma_field_bounds(word);
    }
    r
}

#[verifier::when_used_as_spec(spec_list_count)]
pub fn list_count(word: u64) -> (r: u64)
    ensures
        r == spec_list_count(word),
        r < 0x2000_0000,
{
    let r: u64 = word >> 35;
    proof {
        lemma_field_bounds(word);
    }
    r
}

#[verifier::when_used_as_spec(spec_struct_data)]
pub fn struct_data(word: u64) -> (r: u64)
    ensures
        r == spec_struct_data(word),
        r < 0x1_0000,
{
    let r: u64 = (word >> 32) & 0xffff;
    proof {
        lemma_field_bounds(word);
    }
    r
}

#[verifier::when_used_as_spec(spec_struct_pointers)]
pub fn struct_pointers(word: u64) -> (r: u64)
    ensures
        r == spec_struct_pointers(word),
        r < 0x1_0000,
{
    let r: u64 = word >> 48;
    proof {
        lemma_field_bounds(word);
    }
    r
}

#[verifier::when_used_as_spec(spec_list_pointer)]
pub fn list_pointer(offset: u64, code: u64, count: u64) -> (r: u64)
    requires
        offset < 0x2000_0000,
        code < 8,
        count < 0x2000_0000,
    ensures
        r == spec_list_pointer(offset, code, count),
{
    (offset << 2) | 1 | (code << 32) | (count << 35)
}

#[verifier::when_used_as_spec(spec_composite_tag)]
pub fn composite_tag(count: u64, data: u64, pointers: u64) -> (r: u64)
    requires
        count < 0x4000_0000,
        data < 0x1_0000,
        pointers < 0x1_0000,
    ensures
        r == spec_composite_tag(count, data, pointers),
{
    (count << 2) | (data << 32) | (pointers << 48)
}

/// Bounds of the fields of any word.
pub proof fn lemma_field_bounds(word: u64)
    ensures
        pointer_kind(word) < 4,
        offset_field(word) < 0x4000_0000,
        -0x2000_0000 <= pointer_offset(word) < 0x2000_0000,
        list_code(word) < 8,
        list_count(word) < 0x2000_0000,
        struct_data(word) < 0x1_0000,
        struct_pointers(word) < 0x1_0000,
{
    assert(word & 3 < 4) by (bit_vector);
    assert((word >> 2) & 0x3fff_ffff < 0x4000_0000) by (bit_vector);
    assert((word >> 32) & 7 < 8) by (bit_vector);
    assert(word >> 35 < 0x2000_0000) by (bit_vector);
    assert((word >> 32) & 0xffff < 0x1_0000) by (bit_vector);
    assert(word >> 48 < 0x1_0000) by (bit_vector);
}

/// A list pointer decodes to the fields it was made of, and is never null.
pub proof fn lemma_list_pointer_fields(offset: u64, code: u64, count: u64)
    requires
        offset < 0x2000_0000,
        code < 8,
        count < 0x2000_0000,
    ensures
        list_pointer(offset, code, count) != 0,
        pointer_kind(list_pointer(offset, code, count)) == KIND_LIST,
        offset_field(list_pointer(offset, code, count)) == offset,
        pointer_offset(list_pointer(offset, code, count)) == offset,
        list_code(list_pointer(offset, code, count)) == code,
        list_count(list_pointer(offset, code, count)) == count,
{
    let w: u64 = list_pointer(offset, code, count);
    assert(w == (offset << 2) | 1 | (code << 32) | (count << 35));
    assert(w != 0 && w & 3 == 1 && (w >> 2) & 0x3fff_ffff == offset && (w >> 32) & 7 == code && w
        >> 35 == count) by (bit_vector)
        requires
            w == (offset << 2) | 1 | (code << 32) | (count << 35),
            offset < 0x2000_0000,
            code < 8,
            count < 0x2000_0000,
    ;
}

/// A tag word decodes to the fields it was made of.
pub proof fn lemma_composite_tag_fields(count: u64, data: u64, pointers: u64)
    requires
        count < 0x4000_0000,
        data < 0x1_0000,
        pointers < 0x1_0000,
    ensures
        pointer_kind(composite_tag(count, data, pointers)) == KIND_STRUCT,
        offset_field(composite_tag(count, data, pointers)) == count,
        struct_data(composite_tag(count, data, pointers)) == data,
        struct_pointers(composite_tag(count, data, pointers)) == pointers,
{
    let w: u64 = composite_tag(count, data, pointers);
    assert(w == (count << 2) | (data << 32) | (pointers << 48));
    assert(w & 3 == 0 && (w >> 2) & 0x3fff_ffff == count && (w >> 32) & 0xffff == data && w >> 48
        == pointers) by (bit_vector)
        requires
            w == (count << 2) | (data << 32) | (pointers << 48),
            count < 0x4000_0000,
            data < 0x1_0000,
            pointers < 0x1_0000,
    ;
}

} // verus!
