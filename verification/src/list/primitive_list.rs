//! Lists of scalars: integers and booleans.

use vstd::prelude::*;
use core::marker::PhantomData;
use crate::common::{Word, MAX_SEGMENT_WORDS};
use crate::layout::allocate::{
    allocated_run, allocated_words, can_allocate, can_open, lemma_opened_kind, opened_run,
    opened_words,
};
use crate::layout::builder::{ListBuilder, PointerBuilder};
use crate::layout::message::Message;
use crate::layout::primitive::PrimitiveElement;
use crate::layout::reader::{ListReader, PointerReader};
use crate::layout::laws::{
    lemma_adopted_shape, lemma_allocated_resolves, lemma_allocated_shape, lemma_read_frame,
};
use crate::layout::resolve::{pointer_kept, read_run, read_source, resolve_list};
use crate::layout::run::ListRun;
use crate::list::{FromPointerBuilder, FromPointerReader};

verus! {

/// The scalars of type `T` that the list at `run` of `words` holds.
pub open spec fn elements<T: PrimitiveElement>(words: Seq<Word>, run: ListRun) -> Seq<T> {
    Seq::new(run.count as nat, |i: int| T::from_raw(run.raw(words, i)))
}

/// A read-only list of scalars.
pub struct Reader<'a, T: PrimitiveElement> {
    reader: ListReader<'a>,
    marker: PhantomData<T>,
}

/// A list of scalars in a message under construction.
pub struct Builder<T: PrimitiveElement> {
    builder: ListBuilder,
    marker: PhantomData<T>,
}

impl<'a, T: PrimitiveElement> Reader<'a, T> {
    #[verifier::type_invariant]
    spec fn inv(self) -> bool {
        self.reader.run().kind == T::spec_element_size()
    }

    /// The buffer that holds the list.
    pub closed spec fn words(&self) -> Seq<Word> {
        self.reader.words()
    }

    /// The place of the list in the buffer.
    pub closed spec fn run(&self) -> ListRun {
        self.reader.run()
    }

    /// The elements, in order.
    pub open spec fn view(&self) -> Seq<T> {
        elements::<T>(self.words(), self.run())
    }

    /// Wraps a list of scalars of the encoding of `T`.
    pub fn new(reader: ListReader<'a>) -> (r: Reader<'a, T>)
        requires
            reader.run().kind == T::spec_element_size(),
        ensures
            r.words() == reader.words(),
            r.run() == reader.run(),
    {
        Reader { reader, marker: PhantomData }
    }

    /// Number of elements.
    pub fn size(&self) -> (r: usize)
        ensures
            r == self@.len(),
    {
        self.reader.size()
    }

    /// Element `index`.
    pub fn index(&self, index: usize) -> (r: T)
        requires
            index < self@.len(),
        ensures
            r == self@[index as int],
    {
        proof {
            use_type_invariant(self);
            self.reader.lemma_run();
        }
        self.reader.get::<T>(index)
    }
}

impl<'a, T: PrimitiveElement> FromPointerReader<'a> for Reader<'a, T> {
    open spec fn read_from(&self, words: Seq<Word>, slot: int, default_value: Seq<Word>) -> bool {
        &&& self.words() == read_source(words, slot, T::spec_element_size(), default_value)
        &&& self.run() == read_run(words, slot, T::spec_element_size(), default_value)
    }

    /// Opens the list in the slot for reading; `default_value` stands in where
    /// the slot locates no such list.
    fn get_from_pointer(reader: &PointerReader<'a>, default_value: &'a [Word]) -> (r: Reader<
        'a,
        T,
    >) {
        Reader { reader: reader.get_list(T::element_size(), default_value), marker: PhantomData }
    }
}

impl<T: PrimitiveElement> Builder<T> {
    #[verifier::type_invariant]
    spec fn inv(self) -> bool {
        self.builder.run().kind == T::spec_element_size()
    }

    /// The place of the list in the message.
    pub closed spec fn run(&self) -> ListRun {
        self.builder.run()
    }

    /// The elements that the list holds in a message of these words.
    pub open spec fn elements(&self, words: Seq<Word>) -> Seq<T> {
        elements::<T>(words, self.run())
    }

    /// Wraps a list of scalars of the encoding of `T`.
    pub fn new(builder: ListBuilder) -> (r: Builder<T>)
        requires
            builder.run().kind == T::spec_element_size(),
        ensures
            r.run() == builder.run(),
    {
        Builder { builder, marker: PhantomData }
    }

    /// Number of elements.
    pub fn size(&self) -> (r: usize)
        ensures
            r == self.run().count,
    {
        self.builder.size()
    }

    /// Whether the list lies inside `message`.
    pub fn is_within(&self, message: &Message) -> (r: bool)
        ensures
            r == self.run().fits(message@.len() as int),
    {
        self.builder.is_within(message)
    }

    /// Writes `value` to element `index`; every other element stays as it is.
    pub fn set(&self, message: &mut Message, index: usize, value: T)
        requires
            self.run().fits(old(message)@.len() as int),
            index < self.run().count,
        ensures
            final(message)@ == self.run().with_raw(old(message)@, index as int, value.to_raw()),
            final(message)@.len() == old(message)@.len(),
            self.elements(final(message)@) == self.elements(old(message)@).update(
                index as int,
                value,
            ),
    {
        proof {
            use_type_invariant(self);
            lemma_elements_written::<T>(old(message)@, self.run(), index as int, value);
        }
        self.builder.set::<T>(message, index, value);
    }

    /// Element `index`.
    pub fn index(&self, message: &Message, index: usize) -> (r: T)
        requires
            self.run().fits(message@.len() as int),
            index < self.run().count,
        ensures
            r == self.elements(message@)[index as int],
    {
        proof {
            use_type_invariant(self);
        }
        self.builder.get::<T>(message, index)
    }
}

impl<T: PrimitiveElement> FromPointerBuilder for Builder<T> {
    open spec fn can_init(words: Seq<Word>, slot: int, size: int) -> bool {
        can_allocate(words.len() as int, slot, T::spec_element_size(), size, 0, 0)
    }

    open spec fn initialized(&self, before: Seq<Word>, after: Seq<Word>, slot: int, size: int) -> bool {
        &&& after == allocated_words(before, slot, T::spec_element_size(), size, 0, 0)
        &&& self.run() == allocated_run(before.len() as int, T::spec_element_size(), size, 0, 0)
    }

    open spec fn can_get(words: Seq<Word>, slot: int, default_value: Seq<Word>) -> bool {
        can_open(words, slot, T::spec_element_size(), None, default_value)
    }

    open spec fn opened(
        &self,
        before: Seq<Word>,
        after: Seq<Word>,
        slot: int,
        default_value: Seq<Word>,
    ) -> bool {
        &&& after == opened_words(before, slot, T::spec_element_size(), None, default_value)
        &&& self.run() == opened_run(before, slot, T::spec_element_size(), None, default_value)
    }

    /// Allocates a list of `size` elements, every one zero.
    fn init_pointer(builder: PointerBuilder, message: &mut Message, size: usize) -> (r: Builder<T>)
        ensures
            r.run().count == size,
            r.run().fits(final(message)@.len() as int),
            old(message)@.len() <= final(message)@.len() <= MAX_SEGMENT_WORDS,
            resolve_list(final(message)@, builder.index as int, T::spec_element_size()) == Some(r.run()),
    {
        Builder { builder: builder.init_list(message, T::element_size(), size), marker: PhantomData }
    }

    /// Opens the list in the slot for building; where the slot locates no
    /// such list, `default_value` is taken over into the message.
    fn get_from_pointer(
        builder: PointerBuilder,
        message: &mut Message,
        default_value: &[Word],
    ) -> (r: Builder<T>)
        ensures
            r.run().fits(final(message)@.len() as int),
            old(message)@.len() <= final(message)@.len(),
    {
        proof {
            lemma_opened_kind(
                old(message)@,
                builder.index as int,
                T::spec_element_size(),
                None,
                default_value@,
            );
        }
        Builder {
            builder: builder.get_list(message, T::element_size(), default_value),
            marker: PhantomData,
        }
    }
}

/// After one element was written, the list holds the value there and what it
/// held before everywhere else.
pub proof fn lemma_elements_written<T: PrimitiveElement>(
    words: Seq<Word>,
    run: ListRun,
    index: int,
    value: T,
)
    requires
        run.kind == T::spec_element_size(),
        run.fits(words.len() as int),
        0 <= index < run.count,
    ensures
        run.with_raw(words, index, value.to_raw()).len() == words.len(),
        elements::<T>(run.with_raw(words, index, value.to_raw()), run) == elements::<T>(
            words,
            run,
        ).update(index, value),
{
    T::lemma_element_size();
    T::lemma_raw(value);
    let after: Seq<Word> = run.with_raw(words, index, value.to_raw());
    run.lemma_raw_written(words, index, value.to_raw());
    assert forall|j: int| 0 <= j < run.count implies #[trigger] elements::<T>(after, run)[j]
        == elements::<T>(words, run).update(index, value)[j] by {
        if j != index {
            run.lemma_raw_kept(words, index, value.to_raw(), j);
        }
    }
    assert(elements::<T>(after, run) =~= elements::<T>(words, run).update(index, value));
}

/// An element that was written reads back as the value written.
pub proof fn lemma_written_reads_back<T: PrimitiveElement>(
    words: Seq<Word>,
    run: ListRun,
    index: int,
    value: T,
)
    requires
        run.kind == T::spec_element_size(),
        run.fits(words.len() as int),
        0 <= index < run.count,
    ensures
        elements::<T>(run.with_raw(words, index, value.to_raw()), run)[index] == value,
{
    lemma_elements_written::<T>(words, run, index, value);
}

/// A list that was just allocated lies inside the message, is what its slot
/// resolves to, and holds zeros.
pub proof fn lemma_initialized<T: PrimitiveElement>(
    builder: Builder<T>,
    before: Seq<Word>,
    after: Seq<Word>,
    slot: int,
    size: int,
)
    requires
        Builder::<T>::can_init(before, slot, size),
        builder.initialized(before, after, slot, size),
    ensures
        builder.run().count == size,
        builder.run().fits(after.len() as int),
        resolve_list(after, slot, T::spec_element_size()) == Some(builder.run()),
        builder.elements(after) == Seq::new(size as nat, |i: int| T::from_raw(0)),
{
    T::lemma_element_size();
    let kind = T::spec_element_size();
    lemma_allocated_shape(before, slot, kind, size, 0, 0);
    lemma_allocated_resolves(before, slot, kind, size, 0, 0);
    assert forall|i: int| 0 <= i < size implies builder.run().raw(after, i) == 0 by {
        builder.run().lemma_scalar_place(i);
        let shift = builder.run().shift_of(i);
        let mask = kind.spec_mask();
        assert((0u64 >> shift) & mask == 0) by (bit_vector);
    }
    assert(builder.elements(after) =~= Seq::new(size as nat, |i: int| T::from_raw(0)));
}

/// A list that a builder opened lies inside the message as it is afterwards,
/// and is what its slot resolves to there, unless nothing was found: then the
/// list is empty and the message as before.
pub proof fn lemma_opened<T: PrimitiveElement>(
    builder: Builder<T>,
    before: Seq<Word>,
    after: Seq<Word>,
    slot: int,
    default_value: Seq<Word>,
)
    requires
        Builder::<T>::can_get(before, slot, default_value),
        builder.opened(before, after, slot, default_value),
    ensures
        builder.run().fits(after.len() as int),
        resolve_list(after, slot, T::spec_element_size()) == Some(builder.run()) || (
        builder.run().count == 0 && after == before),
        default_value.len() == 0 ==> after == before,
{
    let kind = T::spec_element_size();
    lemma_opened_kind(before, slot, kind, None, default_value);
    if resolve_list(before, slot, kind).is_none() && resolve_list(default_value, 0, kind).is_some() {
        lemma_adopted_shape(before, slot, kind, default_value);
    }
}

/// A reader made from a slot sees the list of the builder to which the slot
/// resolved, with everything written through the builder since, as long as
/// the pointer word was left alone.
pub proof fn lemma_reader_sees_builder<'a, T: PrimitiveElement>(
    builder: Builder<T>,
    reader: Reader<'a, T>,
    words: Seq<Word>,
    later: Seq<Word>,
    slot: int,
    default_value: Seq<Word>,
)
    requires
        resolve_list(words, slot, T::spec_element_size()) == Some(builder.run()),
        pointer_kept(words, later, slot, T::spec_element_size()),
        reader.read_from(later, slot, default_value),
    ensures
        reader.words() == later,
        reader.run() == builder.run(),
        reader@ == builder.elements(later),
{
    lemma_read_frame(words, later, slot, T::spec_element_size());
    assert(read_run(later, slot, T::spec_element_size(), default_value) == read_run(
        words,
        slot,
        T::spec_element_size(),
        default_value,
    ));
    assert(read_source(later, slot, T::spec_element_size(), default_value) == later);
}

/// A reader made from a null slot, without a default, has no elements.
pub proof fn lemma_null_reads_empty<'a, T: PrimitiveElement>(
    reader: Reader<'a, T>,
    words: Seq<Word>,
    slot: int,
)
    requires
        !(0 <= slot < words.len()) || words[slot] == 0,
        reader.read_from(words, slot, Seq::empty()),
    ensures
        reader@.len() == 0,
{
}

} // verus!
