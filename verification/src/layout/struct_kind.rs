//! What a struct type must offer to be the element of a list: a way to wrap
//! the place of one struct, and its size.

use vstd::prelude::*;
use crate::layout::builder::StructBuilder;
use crate::layout::element::StructSize;
use crate::layout::reader::StructReader;

verus! {

/// A read-only struct view that can be made from the place of a struct.
pub trait FromStructReader<'a>: Sized {
    /// The struct that backs the view.
    spec fn struct_reader(&self) -> StructReader<'a>;

    fn from_struct_reader(reader: StructReader<'a>) -> (r: Self)
        ensures
            r.struct_reader() == reader,
    ;
}

/// A struct handle that can be made from the place of a struct in a message.
pub trait FromStructBuilder: Sized {
    /// The place that the handle denotes.
    spec fn struct_builder(&self) -> StructBuilder;

    fn from_struct_builder(builder: StructBuilder) -> (r: Self)
        ensures
            r.struct_builder() == builder,
    ;
}

/// A struct type that knows its size without a value at hand.
pub trait HasStructSize {
    spec fn spec_struct_size() -> StructSize;

    fn struct_size() -> (r: StructSize)
        ensures
            r == Self::spec_struct_size(),
    ;
}

impl<'a> FromStructReader<'a> for StructReader<'a> {
    open spec fn struct_reader(&self) -> StructReader<'a> {
        *self
    }

    fn from_struct_reader(reader: StructReader<'a>) -> (r: StructReader<'a>) {
        reader
    }
}

impl FromStructBuilder for StructBuilder {
    open spec fn struct_builder(&self) -> StructBuilder {
        *self
    }

    fn from_struct_builder(builder: StructBuilder) -> (r: StructBuilder) {
        builder
    }
}

} // verus!
