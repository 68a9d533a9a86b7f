//! Element-typed list views.
//!
//! Each kind of list has a `Reader`, a borrowed view of a finished buffer, and
//! a `Builder`, a handle into a message under construction. Both are made from
//! a pointer slot through the two traits of this module.

use vstd::prelude::*;
use crate::common::Word;
use crate::layout::builder::PointerBuilder;
use crate::layout::message::Message;
use crate::layout::reader::PointerReader;

pub mod enum_list;
pub mod list_list;
pub mod primitive_list;
pub mod struct_list;

verus! {

/// A read-only view that can be made from a pointer slot.
pub trait FromPointerReader<'a>: Sized {
    /// Whether `self` is the view of what slot `slot` of `words` locates,
    /// with `default_value` standing in where the slot locates nothing.
    spec fn read_from(&self, words: Seq<Word>, slot: int, default_value: Seq<Word>) -> bool;

    fn get_from_pointer(reader: &PointerReader<'a>, default_value: &'a [Word]) -> (r: Self)
        ensures
            r.read_from(reader.words(), reader.slot(), default_value@),
    ;
}

/// A handle that can be made from a pointer slot of a message: by allocating
/// what the slot is to locate, or by opening what it locates.
pub trait FromPointerBuilder: Sized {
    /// Whether `size` elements can be allocated for slot `slot` of `words`.
    spec fn can_init(words: Seq<Word>, slot: int, size: int) -> bool;

    /// Whether `self` and the message `after` are what allocating `size`
    /// elements for slot `slot` of the message `before` gives.
    spec fn initialized(&self, before: Seq<Word>, after: Seq<Word>, slot: int, size: int) -> bool;

    /// Whether slot `slot` of `words` can be opened with this default.
    spec fn can_get(words: Seq<Word>, slot: int, default_value: Seq<Word>) -> bool;

    /// Whether `self` and the message `after` are what opening slot `slot` of
    /// the message `before` gives.
    spec fn opened(
        &self,
        before: Seq<Word>,
        after: Seq<Word>,
        slot: int,
        default_value: Seq<Word>,
    ) -> bool;

    fn init_pointer(builder: PointerBuilder, message: &mut Message, size: usize) -> (r: Self)
        requires
            Self::can_init(old(message)@, builder.index as int, size as int),
        ensures
            r.initialized(old(message)@, final(message)@, builder.index as int, size as int),
    ;

    fn get_from_pointer(
        builder: PointerBuilder,
        message: &mut Message,
        default_value: &[Word],
    ) -> (r: Self)
        requires
            Self::can_get(old(message)@, builder.index as int, default_value@),
        ensures
            r.opened(old(message)@, final(message)@, builder.index as int, default_value@),
    ;
}

/// An enumeration that can be told from a 16-bit code, where the code is one
/// of its own.
pub trait FromU16: Sized {
    /// The value with code `value`, if there is one.
    spec fn spec_from_u16(value: u16) -> Option<Self>;

    fn from_u16(value: u16) -> (r: Option<Self>)
        ensures
            r == Self::spec_from_u16(value),
    ;
}

/// An enumeration whose values have 16-bit codes. Every value has a code, and
/// the code tells the value.
pub trait ToU16: FromU16 {
    /// The code of `self`.
    spec fn spec_to_u16(self) -> u16;

    /// The code of a value is the code of that value and of no other.
    proof fn lemma_code_tells_value(value: Self)
        ensures
            Self::spec_from_u16(value.spec_to_u16()) == Some(value),
    ;

    fn to_u16(self) -> (r: u16)
        ensures
            r == self.spec_to_u16(),
    ;
}

/// The codes themselves, as the enumeration in which every code is a value.
impl FromU16 for u16 {
    open spec fn spec_from_u16(value: u16) -> Option<u16> {
        Some(value)
    }

    fn from_u16(value: u16) -> (r: Option<u16>) {
        Some(value)
    }
}

impl ToU16 for u16 {
    open spec fn spec_to_u16(self) -> u16 {
        self
    }

    proof fn lemma_code_tells_value(value: u16) {
    }

    fn to_u16(self) -> (r: u16) {
        self
    }
}

} // verus!
