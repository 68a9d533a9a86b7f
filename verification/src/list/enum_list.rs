//! Lists of enumeration values, each stored as its 16-bit code.
//!
//! A code that the enumeration does not know reads as `None`: a list written
//! by a program that knows more enumerators remains readable.

use vstd::prelude::*;
use core::marker::PhantomData;
use crate::common::{Word, MAX_SEGMENT_WORDS};
use crate::layout::allocate::{
    allocated_run, allocated_words, can_allocate, can_open, lemma_opened_kind, opened_run,
    opened_words,
};
use crate::layout::builder::{ListBuilder, PointerBuilder};
use crate::layout::element::ElementSize;
use crate::layout::message::Message;
use crate::layout::primitive::PrimitiveElement;
use crate::layout::reader::{ListReader, PointerReader};
use crate::layout::laws::{lemma_allocated_resolves, lemma_allocated_shape, lemma_read_frame};
use crate::layout::resolve::{pointer_kept, read_run, read_source, resolve_list};
use crate::layout::run::ListRun;
use crate::list::primitive_list::{elements, lemma_elements_written};
use crate::list::{FromPointerBuilder, FromPointerReader, FromU16, ToU16};

verus! {

/// The code that element `index` of the list at `run` of `words` holds.
pub open spec fn code_at(words: Seq<Word>, run: ListRun, index: int) -> u16 {
    <u16 as PrimitiveElement>::from_raw(run.raw(words, index))
}

/// The enumeration values that the list at `run` of `words` holds.
pub open spec fn enumerators<T: FromU16>(words: Seq<Word>, run: ListRun) -> Seq<Option<T>> {
    Seq::new(run.count as nat, |i: int| T::spec_from_u16(code_at(words, run, i)))
}

/// A read-only list of enumeration values.
pub struct Reader<'a, T: FromU16> {
    reader: ListReader<'a>,
    marker: PhantomData<T>,
}

/// A list of enumeration values in a message under construction.
pub struct Builder<T: ToU16> {
    builder: ListBuilder,
    marker: PhantomData<T>,
}

impl<'a, T: FromU16> Reader<'a, T> {
    #[verifier::type_invariant]
    spec fn inv(self) -> bool {
        self.reader.run().kind == ElementSize::TwoBytes
    }

    /// The buffer that holds the list.
    pub closed spec fn words(&self) -> Seq<Word> {
        self.reader.words()
    }

    /// The place of the list in the buffer.
    pub closed spec fn run(&self) -> ListRun {
        self.reader.run()
    }

    /// The elements, in order; `None` stands for a code without enumerator.
    pub open spec fn view(&self) -> Seq<Option<T>> {
        enumerators::<T>(self.words(), self.run())
    }

    /// Wraps a list of 16-bit scalars.
    pub fn new(reader: ListReader<'a>) -> (r: Reader<'a, T>)
        requires
            reader.run().kind == ElementSize::TwoBytes,
        ensures
            r.words() == reader.words(),
            r.run() == reader.run(),
    {
        Reader { reader, marker: PhantomData }
    }

    /// Number of elements.
    pub fn size(&self) -> (r: usize)
        ensures
            r == self@.len(),
    {
        self.reader.size()
    }

    /// Element `index`, or `None` where the code stored there is not one of
    /// the enumeration's.
    pub fn index(&self, index: usize) -> (r: Option<T>)
        requires
            index < self@.len(),
        ensures
            r == self@[index as int],
    {
        proof {
            use_type_invariant(self);
            self.reader.lemma_run();
        }
        let code: u16 = self.reader.get::<u16>(index);
        T::from_u16(code)
    }
}

impl<'a, T: FromU16> FromPointerReader<'a> for Reader<'a, T> {
    open spec fn read_from(&self, words: Seq<Word>, slot: int, default_value: Seq<Word>) -> bool {
        &&& self.words() == read_source(words, slot, ElementSize::TwoBytes, default_value)
        &&& self.run() == read_run(words, slot, ElementSize::TwoBytes, default_value)
    }

    /// Opens the list in the slot for reading; `default_value` stands in where
    /// the slot locates no such list.
    fn get_from_pointer(reader: &PointerReader<'a>, default_value: &'a [Word]) -> (r: Reader<
        'a,
        T,
    >) {
        Reader { reader: reader.get_list(ElementSize::TwoBytes, default_value), marker: PhantomData }
    }
}

impl<T: ToU16> Builder<T> {
    #[verifier::type_invariant]
    spec fn inv(self) -> bool {
        self.builder.run().kind == ElementSize::TwoBytes
    }

    /// The place of the list in the message.
    pub closed spec fn run(&self) -> ListRun {
        self.builder.run()
    }

    /// The elements that the list holds in a message of these words.
    pub open spec fn elements(&self, words: Seq<Word>) -> Seq<Option<T>> {
        enumerators::<T>(words, self.run())
    }

    /// Wraps a list of 16-bit scalars.
    pub fn new(builder: ListBuilder) -> (r: Builder<T>)
        requires
            builder.run().kind == ElementSize::TwoBytes,
        ensures
            r.run() == builder.run(),
    {
        Builder { builder, marker: PhantomData }
    }

    /// Number of elements.
    pub fn size(&self) -> (r: usize)
        ensures
            r == self.run().count,
    {
        self.builder.size()
    }

    /// Whether the list lies inside `message`.
    pub fn is_within(&self, message: &Message) -> (r: bool)
        ensures
            r == self.run().fits(message@.len() as int),
    {
        self.builder.is_within(message)
    }

    /// Writes the code of `value` to element `index`; every other element
    /// stays as it is.
    pub fn set(&self, message: &mut Message, index: usize, value: T)
        requires
            self.run().fits(old(message)@.len() as int),
            index < self.run().count,
        ensures
            final(message)@ == self.run().with_raw(
                old(message)@,
                index as int,
                value.spec_to_u16() as u64,
            ),
            final(message)@.len() == old(message)@.len(),
            self.elements(final(message)@) == self.elements(old(message)@).update(
                index as int,
                Some(value),
            ),
    {
        proof {
            use_type_invariant(self);
            T::lemma_code_tells_value(value);
            lemma_enumerators_written::<T>(
                old(message)@,
                self.run(),
                index as int,
                value.spec_to_u16(),
            );
        }
        self.builder.set::<u16>(message, index, value.to_u16());
    }

    /// Element `index`, or `None` where the code stored there is not one of
    /// the enumeration's.
    pub fn index(&self, message: &Message, index: usize) -> (r: Option<T>)
        requires
            self.run().fits(message@.len() as int),
            index < self.run().count,
        ensures
            r == self.elements(message@)[index as int],
    {
        proof {
            use_type_invariant(self);
        }
        let code: u16 = self.builder.get::<u16>(message, index);
        T::from_u16(code)
    }
}

impl<T: ToU16> FromPointerBuilder for Builder<T> {
    open spec fn can_init(words: Seq<Word>, slot: int, size: int) -> bool {
        can_allocate(words.len() as int, slot, ElementSize::TwoBytes, size, 0, 0)
    }

    open spec fn initialized(&self, before: Seq<Word>, after: Seq<Word>, slot: int, size: int) -> bool {
        &&& after == allocated_words(before, slot, ElementSize::TwoBytes, size, 0, 0)
        &&& self.run() == allocated_run(before.len() as int, ElementSize::TwoBytes, size, 0, 0)
    }

    open spec fn can_get(words: Seq<Word>, slot: int, default_value: Seq<Word>) -> bool {
        can_open(words, slot, ElementSize::TwoBytes, None, default_value)
    }

    open spec fn opened(
        &self,
        before: Seq<Word>,
        after: Seq<Word>,
        slot: int,
        default_value: Seq<Word>,
    ) -> bool {
        &&& after == opened_words(before, slot, ElementSize::TwoBytes, None, default_value)
        &&& self.run() == opened_run(before, slot, ElementSize::TwoBytes, None, default_value)
    }

    /// Allocates a list of `size` elements, every one with code 0.
    fn init_pointer(builder: PointerBuilder, message: &mut Message, size: usize) -> (r: Builder<T>)
        ensures
            r.run().count == size,
            r.run().fits(final(message)@.len() as int),
            old(message)@.len() <= final(message)@.len() <= MAX_SEGMENT_WORDS,
            resolve_list(final(message)@, builder.index as int, ElementSize::TwoBytes) == Some(r.run()),
    {
        Builder {
            builder: builder.init_list(message, ElementSize::TwoBytes, size),
            marker: PhantomData,
        }
    }

    /// Opens the list in the slot for building; where the slot locates no
    /// such list, `default_value` is taken over into the message.
    fn get_from_pointer(
        builder: PointerBuilder,
        message: &mut Message,
        default_value: &[Word],
    ) -> (r: Builder<T>)
        ensures
            r.run().fits(final(message)@.len() as int),
            old(message)@.len() <= final(message)@.len(),
    {
        proof {
            lemma_opened_kind(
                old(message)@,
                builder.index as int,
                ElementSize::TwoBytes,
                None,
                default_value@,
            );
        }
        Builder {
            builder: builder.get_list(message, ElementSize::TwoBytes, default_value),
            marker: PhantomData,
        }
    }
}

/// After a code was written to one element, the list reads there what the
/// enumeration makes of the code, and what it read before everywhere else.
pub proof fn lemma_enumerators_written<T: FromU16>(
    words: Seq<Word>,
    run: ListRun,
    index: int,
    code: u16,
)
    requires
        run.kind == ElementSize::TwoBytes,
        run.fits(words.len() as int),
        0 <= index < run.count,
    ensures
        run.with_raw(words, index, code as u64).len() == words.len(),
        enumerators::<T>(run.with_raw(words, index, code as u64), run) == enumerators::<T>(
            words,
            run,
        ).update(index, T::spec_from_u16(code)),
{
    let after: Seq<Word> = run.with_raw(words, index, code as u64);
    lemma_elements_written::<u16>(words, run, index, code);
    assert forall|j: int| 0 <= j < run.count implies #[trigger] enumerators::<T>(after, run)[j]
        == enumerators::<T>(words, run).update(index, T::spec_from_u16(code))[j] by {
        assert(code_at(after, run, j) == elements::<u16>(after, run)[j]);
        assert(code_at(words, run, j) == elements::<u16>(words, run)[j]);
    }
    assert(enumerators::<T>(after, run) =~= enumerators::<T>(words, run).update(
        index,
        T::spec_from_u16(code),
    ));
}

/// An enumerator that was written reads back as itself.
pub proof fn lemma_enumerator_reads_back<T: ToU16>(
    words: Seq<Word>,
    run: ListRun,
    index: int,
    value: T,
)
    requires
        run.kind == ElementSize::TwoBytes,
        run.fits(words.len() as int),
        0 <= index < run.count,
    ensures
        enumerators::<T>(run.with_raw(words, index, value.spec_to_u16() as u64), run)[index]
            == Some(value),
{
    T::lemma_code_tells_value(value);
    lemma_enumerators_written::<T>(words, run, index, value.spec_to_u16());
}

/// A code without enumerator, once it stands in an element, reads as `None`.
pub proof fn lemma_unknown_code_reads_none<T: FromU16>(
    words: Seq<Word>,
    run: ListRun,
    index: int,
    code: u16,
)
    requires
        run.kind == ElementSize::TwoBytes,
        run.fits(words.len() as int),
        0 <= index < run.count,
        T::spec_from_u16(code).is_none(),
    ensures
        enumerators::<T>(run.with_raw(words, index, code as u64), run)[index].is_none(),
{
    lemma_enumerators_written::<T>(words, run, index, code);
}

/// A list of enumeration values and the list of 16-bit numbers at the same
/// place hold the same codes.
pub proof fn lemma_enumerators_of_codes<T: FromU16>(words: Seq<Word>, run: ListRun, index: int)
    requires
        0 <= index < run.count,
    ensures
        enumerators::<T>(words, run)[index] == T::spec_from_u16(elements::<u16>(words, run)[index]),
{
}

/// A list that was just allocated lies inside the message, is what its slot
/// resolves to, and holds code 0 in every element.
pub proof fn lemma_initialized<T: ToU16>(
    builder: Builder<T>,
    before: Seq<Word>,
    after: Seq<Word>,
    slot: int,
    size: int,
)
    requires
        Builder::<T>::can_init(before, slot, size),
        builder.initialized(before, after, slot, size),
    ensures
        builder.run().count == size,
        builder.run().fits(after.len() as int),
        resolve_list(after, slot, ElementSize::TwoBytes) == Some(builder.run()),
        builder.elements(after) == Seq::new(size as nat, |i: int| T::spec_from_u16(0)),
{
    let kind = ElementSize::TwoBytes;
    lemma_allocated_shape(before, slot, kind, size, 0, 0);
    lemma_allocated_resolves(before, slot, kind, size, 0, 0);
    assert forall|i: int| 0 <= i < size implies code_at(after, builder.run(), i) == 0 by {
        builder.run().lemma_scalar_place(i);
        let shift = builder.run().shift_of(i);
        assert((0u64 >> shift) & 0xffff == 0) by (bit_vector);
    }
    assert(builder.elements(after) =~= Seq::new(size as nat, |i: int| T::spec_from_u16(0)));
}

/// A reader made from a slot sees the list of the builder to which the slot
/// resolved, with everything written through the builder since, as long as
/// the pointer word was left alone.
pub proof fn lemma_reader_sees_builder<'a, T: ToU16>(
    builder: Builder<T>,
    reader: Reader<'a, T>,
    words: Seq<Word>,
    later: Seq<Word>,
    slot: int,
    default_value: Seq<Word>,
)
    requires
        resolve_list(words, slot, ElementSize::TwoBytes) == Some(builder.run()),
        pointer_kept(words, later, slot, ElementSize::TwoBytes),
        reader.read_from(later, slot, default_value),
    ensures
        reader.words() == later,
        reader.run() == builder.run(),
        reader@ == builder.elements(later),
{
    lemma_read_frame(words, later, slot, ElementSize::TwoBytes);
    assert(read_run(later, slot, ElementSize::TwoBytes, default_value) == read_run(
        words,
        slot,
        ElementSize::TwoBytes,
        default_value,
    ));
    assert(read_source(later, slot, ElementSize::TwoBytes, default_value) == later);
}

/// A reader made from a null slot, without a default, has no elements.
pub proof fn lemma_null_reads_empty<'a, T: FromU16>(
    reader: Reader<'a, T>,
    words: Seq<Word>,
    slot: int,
)
    requires
        !(0 <= slot < words.len()) || words[slot] == 0,
        reader.read_from(words, slot, Seq::empty()),
    ensures
        reader@.len() == 0,
{
}

} // verus!
