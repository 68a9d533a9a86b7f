//! Scalars that a list can hold.
//!
//! A scalar is stored as the low bits of a word-sized number: an unsigned
//! integer as itself, a signed integer as its two's complement, a boolean as
//! one bit.

use vstd::prelude::*;
use crate::layout::element::ElementSize;

verus! {

/// A scalar with a fixed-width encoding.
pub trait PrimitiveElement: Copy + Sized {
    /// The encoding of a list of such scalars.
    spec fn spec_element_size() -> ElementSize;

    /// The bits that stand for `self`.
    spec fn to_raw(self) -> u64;

    /// The scalar that `raw` stands for.
    spec fn from_raw(raw: u64) -> Self;

    /// The encoding is one of the scalar encodings.
    proof fn lemma_element_size()
        ensures
            Self::spec_element_size().is_data(),
    ;

    /// The encoding is wide enough for every value, and decoding undoes
    /// encoding.
    proof fn lemma_raw(value: Self)
        ensures
            value.to_raw() & Self::spec_element_size().spec_mask() == value.to_raw(),
            Self::from_raw(value.to_raw()) == value,
    ;

    fn element_size() -> (r: ElementSize)
        ensures
            r == Self::spec_element_size(),
    ;

    fn encode(self) -> (r: u64)
        ensures
            r == self.to_raw(),
    ;

    fn decode(raw: u64) -> (r: Self)
        requires
            raw <= Self::spec_element_size().spec_mask(),
        ensures
            r == Self::from_raw(raw),
    ;
}

impl PrimitiveElement for bool {
    open spec fn spec_element_size() -> ElementSize {
        ElementSize::Bit
    }

    open spec fn to_raw(self) -> u64 {
        if self {
            1
        } else {
            0
        }
    }

    open spec fn from_raw(raw: u64) -> bool {
        raw != 0
    }

    proof fn lemma_element_size() {
    }

    proof fn lemma_raw(value: bool) {
        assert(1u64 & 1 == 1 && 0u64 & 1 == 0) by (bit_vector);
    }

    fn element_size() -> (r: ElementSize) {
        ElementSize::Bit
    }

    fn encode(self) -> (r: u64) {
        if self {
            1
        } else {
            0
        }
    }

    fn decode(raw: u64) -> (r: bool) {
        raw != 0
    }
}

impl PrimitiveElement for u8 {
    open spec fn spec_element_size() -> ElementSize {
        ElementSize::Byte
    }

    open spec fn to_raw(self) -> u64 {
        self as u64
    }

    open spec fn from_raw(raw: u64) -> u8 {
        raw as u8
    }

    proof fn lemma_element_size() {
    }

    proof fn lemma_raw(value: u8) {
        assert((value as u64) & 0xff == value as u64) by (bit_vector);
    }

    fn element_size() -> (r: ElementSize) {
        ElementSize::Byte
    }

    fn encode(self) -> (r: u64) {
        self as u64
    }

    fn decode(raw: u64) -> (r: u8) {
        raw as u8
    }
}

impl PrimitiveElement for u16 {
    open spec fn spec_element_size() -> ElementSize {
        ElementSize::TwoBytes
    }

    open spec fn to_raw(self) -> u64 {
        self as u64
    }

    open spec fn from_raw(raw: u64) -> u16 {
        raw as u16
    }

    proof fn lemma_element_size() {
    }

    proof fn lemma_raw(value: u16) {
        assert((value as u64) & 0xffff == value as u64) by (bit_vector);
    }

    fn element_size() -> (r: ElementSize) {
        ElementSize::TwoBytes
    }

    fn encode(self) -> (r: u64) {
        self as u64
    }

    fn decode(raw: u64) -> (r: u16) {
        raw as u16
    }
}

impl PrimitiveElement for u32 {
    open spec fn spec_element_size() -> ElementSize {
        ElementSize::FourBytes
    }

    open spec fn to_raw(self) -> u64 {
        self as u64
    }

    open spec fn from_raw(raw: u64) -> u32 {
        raw as u32
    }

    proof fn lemma_element_size() {
    }

    proof fn lemma_raw(value: u32) {
        assert((value as u64) & 0xffff_ffff == value as u64) by (bit_vector);
    }

    fn element_size() -> (r: ElementSize) {
        ElementSize::FourBytes
    }

    fn encode(self) -> (r: u64) {
        self as u64
    }

    fn decode(raw: u64) -> (r: u32) {
        raw as u32
    }
}

impl PrimitiveElement for u64 {
    open spec fn spec_element_size() -> ElementSize {
        ElementSize::EightBytes
    }

    open spec fn to_raw(self) -> u64 {
        self
    }

    open spec fn from_raw(raw: u64) -> u64 {
        raw
    }

    proof fn lemma_element_size() {
    }

    proof fn lemma_raw(value: u64) {
        assert(value & 0xffff_ffff_ffff_ffff == value) by (bit_vector);
    }

    fn element_size() -> (r: ElementSize) {
        ElementSize::EightBytes
    }

    fn encode(self) -> (r: u64) {
        self
    }

    fn decode(raw: u64) -> (r: u64) {
        raw
    }
}

impl PrimitiveElement for i8 {
    open spec fn spec_element_size() -> ElementSize {
        ElementSize::Byte
    }

    open spec fn to_raw(self) -> u64 {
        (self as u8) as u64
    }

    open spec fn from_raw(raw: u64) -> i8 {
        (raw as u8) as i8
    }

    proof fn lemma_element_size() {
    }

    proof fn lemma_raw(value: i8) {
        assert(((value as u8) as u64) & 0xff == (value as u8) as u64 && (((value as u8) as u64)
            as u8) as i8 == value) by (bit_vector);
    }

    fn element_size() -> (r: ElementSize) {
        ElementSize::Byte
    }

    fn encode(self) -> (r: u64) {
        (self as u8) as u64
    }

    fn decode(raw: u64) -> (r: i8) {
        #[verifier::truncate]
        ((raw as u8) as i8)
    }
}

impl PrimitiveElement for i16 {
    open spec fn spec_element_size() -> ElementSize {
        ElementSize::TwoBytes
    }

    open spec fn to_raw(self) -> u64 {
        (self as u16) as u64
    }

    open spec fn from_raw(raw: u64) -> i16 {
        (raw as u16) as i16
    }

    proof fn lemma_element_size() {
    }

    proof fn lemma_raw(value: i16) {
        assert(((value as u16) as u64) & 0xffff == (value as u16) as u64 && (((value as u16) as u64)
            as u16) as i16 == value) by (bit_vector);
    }

    fn element_size() -> (r: ElementSize) {
        ElementSize::TwoBytes
    }

    fn encode(self) -> (r: u64) {
        (self as u16) as u64
    }

    fn decode(raw: u64) -> (r: i16) {
        #[verifier::truncate]
        ((raw as u16) as i16)
    }
}

impl PrimitiveElement for i32 {
    open spec fn spec_element_size() -> ElementSize {
        ElementSize::FourBytes
    }

    open spec fn to_raw(self) -> u64 {
        (self as u32) as u64
    }

    open spec fn from_raw(raw: u64) -> i32 {
        (raw as u32) as i32
    }

    proof fn lemma_element_size() {
    }

    proof fn lemma_raw(value: i32) {
        assert(((value as u32) as u64) & 0xffff_ffff == (value as u32) as u64 && (((value as u32) as u64)
            as u32) as i32 == value) by (bit_vector);
    }

    fn element_size() -> (r: ElementSize) {
        ElementSize::FourBytes
    }

    fn encode(self) -> (r: u64) {
        (self as u32) as u64
    }

    fn decode(raw: u64) -> (r: i32) {
        #[verifier::truncate]
        ((raw as u32) as i32)
    }
}

impl PrimitiveElement for i64 {
    open spec fn spec_element_size() -> ElementSize {
        ElementSize::EightBytes
    }

    open spec fn to_raw(self) -> u64 {
        self as u64
    }

    open spec fn from_raw(raw: u64) -> i64 {
        raw as i64
    }

    proof fn lemma_element_size() {
    }

    proof fn lemma_raw(value: i64) {
        assert((value as u64) & 0xffff_ffff_ffff_ffff == value as u64 && (value as u64) as i64
            == value) by (bit_vector);
    }

    fn element_size() -> (r: ElementSize) {
        ElementSize::EightBytes
    }

    fn encode(self) -> (r: u64) {
        self as u64
    }

    fn decode(raw: u64) -> (r: i64) {
        #[verifier::truncate]
        (raw as i64)
    }
}

} // verus!
