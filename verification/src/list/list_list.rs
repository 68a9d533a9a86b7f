//! Lists of pointers to further values, most often to lists.
//!
//! An element is a pointer slot; reading it opens what the slot locates, as
//! the element type does for any other slot. A null element opens as the
//! element type's empty value.

use vstd::prelude::*;
use core::marker::PhantomData;
use crate::common::{Word, MAX_SEGMENT_WORDS};
use crate::layout::allocate::{
    allocated_run, allocated_words, can_allocate, can_open, lemma_opened_kind, opened_run,
    opened_words,
};
use crate::layout::builder::{ListBuilder, PointerBuilder};
use crate::layout::element::ElementSize;
use crate::layout::message::Message;
use crate::layout::reader::{ListReader, PointerReader};
use crate::layout::laws::{lemma_allocated_resolves, lemma_allocated_shape, lemma_read_frame};
use crate::layout::resolve::{pointer_kept, read_run, read_source, resolve_list};
use crate::layout::run::ListRun;
use crate::list::{FromPointerBuilder, FromPointerReader};

verus! {

/// A read-only list of pointers to values of type `T`.
pub struct Reader<'a, T: FromPointerReader<'a>> {
    reader: ListReader<'a>,
    marker: PhantomData<&'a T>,
}

/// A list of pointers to values of type `T` in a message under construction.
pub struct Builder<T: FromPointerBuilder> {
    builder: ListBuilder,
    marker: PhantomData<T>,
}

impl<'a, T: FromPointerReader<'a>> Reader<'a, T> {
    #[verifier::type_invariant]
    spec fn inv(self) -> bool {
        self.reader.run().kind == ElementSize::Pointer
    }

    /// The buffer that holds the list.
    pub closed spec fn words(&self) -> Seq<Word> {
        self.reader.words()
    }

    /// The place of the list in the buffer.
    pub closed spec fn run(&self) -> ListRun {
        self.reader.run()
    }

    /// Wraps a list of pointers.
    pub fn new(reader: ListReader<'a>) -> (r: Reader<'a, T>)
        requires
            reader.run().kind == ElementSize::Pointer,
        ensures
            r.words() == reader.words(),
            r.run() == reader.run(),
    {
        Reader { reader, marker: PhantomData }
    }

    /// Number of elements.
    pub fn size(&self) -> (r: usize)
        ensures
            r == self.run().count,
    {
        self.reader.size()
    }

    /// Element `index`: what the pointer in that slot locates, without a
    /// default to stand in for it.
    pub fn index(&self, index: usize) -> (r: T)
        requires
            index < self.run().count,
        ensures
            r.read_from(self.words(), self.run().pointer_slot(index as int), Seq::empty()),
    {
        proof {
            use_type_invariant(self);
        }
        let nothing: &'a [Word] = &[];
        assert(nothing@ =~= Seq::<Word>::empty());
        T::get_from_pointer(&self.reader.get_pointer_element(index), nothing)
    }
}

impl<'a, T: FromPointerReader<'a>> FromPointerReader<'a> for Reader<'a, T> {
    open spec fn read_from(&self, words: Seq<Word>, slot: int, default_value: Seq<Word>) -> bool {
        &&& self.words() == read_source(words, slot, ElementSize::Pointer, default_value)
        &&& self.run() == read_run(words, slot, ElementSize::Pointer, default_value)
    }

    /// Opens the list in the slot for reading; `default_value` stands in where
    /// the slot locates no such list.
    fn get_from_pointer(reader: &PointerReader<'a>, default_value: &'a [Word]) -> (r: Reader<
        'a,
        T,
    >) {
        Reader { reader: reader.get_list(ElementSize::Pointer, default_value), marker: PhantomData }
    }
}

impl<T: FromPointerBuilder> Builder<T> {
    #[verifier::type_invariant]
    spec fn inv(self) -> bool {
        self.builder.run().kind == ElementSize::Pointer
    }

    /// The place of the list in the message.
    pub closed spec fn run(&self) -> ListRun {
        self.builder.run()
    }

    /// Wraps a list of pointers.
    pub fn new(builder: ListBuilder) -> (r: Builder<T>)
        requires
            builder.run().kind == ElementSize::Pointer,
        ensures
            r.run() == builder.run(),
    {
        Builder { builder, marker: PhantomData }
    }

    /// Number of elements.
    pub fn size(&self) -> (r: usize)
        ensures
            r == self.run().count,
    {
        self.builder.size()
    }

    /// Whether the list lies inside `message`.
    pub fn is_within(&self, message: &Message) -> (r: bool)
        ensures
            r == self.run().fits(message@.len() as int),
    {
        self.builder.is_within(message)
    }

    /// The slot of element `index`, for allocating what it is to locate.
    pub fn slot(&self, index: usize) -> (r: PointerBuilder)
        requires
            index < self.run().count,
        ensures
            r.index == self.run().pointer_slot(index as int),
    {
        proof {
            use_type_invariant(self);
        }
        self.builder.get_pointer_element(index)
    }

    /// Element `index`: the handle of what the pointer in that slot locates,
    /// without a default to stand in for it.
    pub fn index(&self, message: &mut Message, index: usize) -> (r: T)
        requires
            index < self.run().count,
            T::can_get(old(message)@, self.run().pointer_slot(index as int), Seq::empty()),
        ensures
            r.opened(
                old(message)@,
                final(message)@,
                self.run().pointer_slot(index as int),
                Seq::empty(),
            ),
    {
        proof {
            use_type_invariant(self);
        }
        let nothing: &[Word] = &[];
        assert(nothing@ =~= Seq::<Word>::empty());
        let result: T = T::get_from_pointer(
            self.builder.get_pointer_element(index),
            message,
            nothing,
        );
        result
    }
}

impl<T: FromPointerBuilder> FromPointerBuilder for Builder<T> {
    open spec fn can_init(words: Seq<Word>, slot: int, size: int) -> bool {
        can_allocate(words.len() as int, slot, ElementSize::Pointer, size, 0, 0)
    }

    open spec fn initialized(&self, before: Seq<Word>, after: Seq<Word>, slot: int, size: int) -> bool {
        &&& after == allocated_words(before, slot, ElementSize::Pointer, size, 0, 0)
        &&& self.run() == allocated_run(before.len() as int, ElementSize::Pointer, size, 0, 0)
    }

    open spec fn can_get(words: Seq<Word>, slot: int, default_value: Seq<Word>) -> bool {
        can_open(words, slot, ElementSize::Pointer, None, default_value)
    }

    open spec fn opened(
        &self,
        before: Seq<Word>,
        after: Seq<Word>,
        slot: int,
        default_value: Seq<Word>,
    ) -> bool {
        &&& after == opened_words(before, slot, ElementSize::Pointer, None, default_value)
        &&& self.run() == opened_run(before, slot, ElementSize::Pointer, None, default_value)
    }

    /// Allocates a list of `size` pointers, every one null.
    fn init_pointer(builder: PointerBuilder, message: &mut Message, size: usize) -> (r: Builder<T>)
        ensures
            r.run().count == size,
            r.run().fits(final(message)@.len() as int),
            old(message)@.len() <= final(message)@.len() <= MAX_SEGMENT_WORDS,
            resolve_list(final(message)@, builder.index as int, ElementSize::Pointer) == Some(r.run()),
    {
        Builder {
            builder: builder.init_list(message, ElementSize::Pointer, size),
            marker: PhantomData,
        }
    }

    /// Opens the list in the slot for building; where the slot locates no
    /// such list, `default_value` is taken over into the message.
    fn get_from_pointer(
        builder: PointerBuilder,
        message: &mut Message,
        default_value: &[Word],
    ) -> (r: Builder<T>)
        ensures
            r.run().fits(final(message)@.len() as int),
            old(message)@.len() <= final(message)@.len(),
    {
        proof {
            lemma_opened_kind(
                old(message)@,
                builder.index as int,
                ElementSize::Pointer,
                None,
                default_value@,
            );
        }
        Builder {
            builder: builder.get_list(message, ElementSize::Pointer, default_value),
            marker: PhantomData,
        }
    }
}

/// A list that was just allocated lies inside the message, is what its slot
/// resolves to, and holds null pointers.
pub proof fn lemma_initialized<T: FromPointerBuilder>(
    builder: Builder<T>,
    before: Seq<Word>,
    after: Seq<Word>,
    slot: int,
    size: int,
)
    requires
        Builder::<T>::can_init(before, slot, size),
        builder.initialized(before, after, slot, size),
    ensures
        builder.run().count == size,
        builder.run().fits(after.len() as int),
        resolve_list(after, slot, ElementSize::Pointer) == Some(builder.run()),
        forall|i: int| 0 <= i < size ==> after[#[trigger] builder.run().pointer_slot(i)] == 0,
        forall|i: int|
            0 <= i < size ==> before.len() <= #[trigger] builder.run().pointer_slot(i)
                < after.len(),
{
    lemma_allocated_shape(before, slot, ElementSize::Pointer, size, 0, 0);
    lemma_allocated_resolves(before, slot, ElementSize::Pointer, size, 0, 0);
}

/// A reader made from a slot sees the list of the builder to which the slot
/// resolved, as long as the pointer word was left alone: element for element
/// the same slot.
pub proof fn lemma_reader_sees_builder<'a, T: FromPointerBuilder, U: FromPointerReader<'a>>(
    builder: Builder<T>,
    reader: Reader<'a, U>,
    words: Seq<Word>,
    later: Seq<Word>,
    slot: int,
    default_value: Seq<Word>,
)
    requires
        resolve_list(words, slot, ElementSize::Pointer) == Some(builder.run()),
        pointer_kept(words, later, slot, ElementSize::Pointer),
        reader.read_from(later, slot, default_value),
    ensures
        reader.words() == later,
        reader.run() == builder.run(),
{
    lemma_read_frame(words, later, slot, ElementSize::Pointer);
    assert(read_run(later, slot, ElementSize::Pointer, default_value) == read_run(
        words,
        slot,
        ElementSize::Pointer,
        default_value,
    ));
    assert(read_source(later, slot, ElementSize::Pointer, default_value) == later);
}

/// A reader made from a null slot, without a default, has no elements.
pub proof fn lemma_null_reads_empty<'a, T: FromPointerReader<'a>>(
    reader: Reader<'a, T>,
    words: Seq<Word>,
    slot: int,
)
    requires
        !(0 <= slot < words.len()) || words[slot] == 0,
        reader.read_from(words, slot, Seq::empty()),
    ensures
        reader.run().count == 0,
{
}

} // verus!
