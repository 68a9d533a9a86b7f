//! Element encodings of a list and the size of an inline struct.

use vstd::prelude::*;

verus! {

/// How one element of a list is encoded.
#[derive(Clone, Copy, Debug, PartialEq, Eq, Structural)]
pub enum ElementSize {
    Void,
    Bit,
    Byte,
    TwoBytes,
    FourBytes,
    EightBytes,
    Pointer,
    InlineComposite,
}

impl ElementSize {
    /// The three-bit code that a list pointer stores for this encoding.
    pub open spec fn spec_code(self) -> u64 {
        match self {
            ElementSize::Void => 0,
            ElementSize::Bit => 1,
            ElementSize::Byte => 2,
            ElementSize::TwoBytes => 3,
            ElementSize::FourBytes => 4,
            ElementSize::EightBytes => 5,
            ElementSize::Pointer => 6,
            ElementSize::InlineComposite => 7,
        }
    }

    /// Whether elements of this encoding are scalars packed into words.
    pub open spec fn is_data(self) -> bool {
        self == ElementSize::Bit || self == ElementSize::Byte || self == ElementSize::TwoBytes
            || self == ElementSize::FourBytes || self == ElementSize::EightBytes
    }

    /// Width of one scalar element in bits; 0 for encodings that hold no scalar.
    pub open spec fn spec_data_bits(self) -> u64 {
        match self {
            ElementSize::Bit => 1,
            ElementSize::Byte => 8,
            ElementSize::TwoBytes => 16,
            ElementSize::FourBytes => 32,
            ElementSize::EightBytes => 64,
            _ => 0,
        }
    }

    /// Number of scalar elements packed into one word; 1 for the other encodings.
    pub open spec fn spec_per_word(self) -> u64 {
        match self {
            ElementSize::Bit => 64,
            ElementSize::Byte => 8,
            ElementSize::TwoBytes => 4,
            ElementSize::FourBytes => 2,
            _ => 1,
        }
    }

    /// The low bits a scalar element occupies, as a mask; 0 for the other encodings.
    pub open spec fn spec_mask(self) -> u64 {
        match self {
            ElementSize::Bit => 1,
            ElementSize::Byte => 0xff,
            ElementSize::TwoBytes => 0xffff,
            ElementSize::FourBytes => 0xffff_ffff,
            ElementSize::EightBytes => 0xffff_ffff_ffff_ffff,
            _ => 0,
        }
    }

    #[verifier::when_used_as_spec(spec_code)]
    pub fn code(self) -> (r: u64)
        ensures
            r == self.spec_code(),
            r < 8,
    {
        match self {
            ElementSize::Void => 0,
            ElementSize::Bit => 1,
            ElementSize::Byte => 2,
            ElementSize::TwoBytes => 3,
            ElementSize::FourBytes => 4,
            ElementSize::EightBytes => 5,
            ElementSize::Pointer => 6,
            ElementSize::InlineComposite => 7,
        }
    }

    #[verifier::when_used_as_spec(spec_data_bits)]
    pub fn data_bits(self) -> (r: u64)
        ensures
            r == self.spec_data_bits(),
    {
        match self {
            ElementSize::Bit => 1,
            ElementSize::Byte => 8,
            ElementSize::TwoBytes => 16,
            ElementSize::FourBytes => 32,
            ElementSize::EightBytes => 64,
            _ => 0,
        }
    }

    #[verifier::when_used_as_spec(spec_per_word)]
    pub fn per_word(self) -> (r: u64)
        ensures
            r == self.spec_per_word(),
    {
        match self {
            ElementSize::Bit => 64,
            ElementSize::Byte => 8,
            ElementSize::TwoBytes => 4,
            ElementSize::FourBytes => 2,
            _ => 1,
        }
    }

    #[verifier::when_used_as_spec(spec_mask)]
    pub fn mask(self) -> (r: u64)
        ensures
            r == self.spec_mask(),
    {
        match self {
            ElementSize::Bit => 1,
            ElementSize::Byte => 0xff,
            ElementSize::TwoBytes => 0xffff,
            ElementSize::FourBytes => 0xffff_ffff,
            ElementSize::EightBytes => 0xffff_ffff_ffff_ffff,
            _ => 0,
        }
    }
}

/// Size of an inline struct: words of scalar data, then pointer slots.
#[derive(Clone, Copy, Debug, PartialEq, Eq, Structural)]
pub struct StructSize {
    pub data: u16,
    pub pointers: u16,
}

impl StructSize {
    /// Words that one struct of this size occupies.
    pub open spec fn words(self) -> int {
        self.data + self.pointers
    }

    pub fn total(self) -> (r: usize)
        ensures
            r == self.words(),
    {
        self.data as usize + self.pointers as usize
    }
}

} // verus!
