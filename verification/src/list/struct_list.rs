//! Lists of inline structs.
//!
//! The elements lie back to back, each as large as the list's tag word says.
//! An element is reached as a struct view; there is no way to replace one as
//! a whole.

use vstd::prelude::*;
use core::marker::PhantomData;
use crate::common::{Word, MAX_SEGMENT_WORDS};
use crate::layout::allocate::{
    allocated_run, allocated_words, can_allocate, can_open, lemma_opened_kind, opened_run,
    opened_words,
};
use crate::layout::builder::{ListBuilder, PointerBuilder};
use crate::layout::element::ElementSize;
use crate::layout::message::Message;
use crate::layout::reader::{ListReader, PointerReader};
use crate::layout::laws::{lemma_allocated_resolves, lemma_allocated_shape, lemma_read_frame};
use crate::layout::resolve::{pointer_kept, read_run, read_source, resolve_list};
use crate::layout::run::ListRun;
use crate::layout::struct_kind::{FromStructBuilder, FromStructReader, HasStructSize};
use crate::list::{FromPointerBuilder, FromPointerReader};

verus! {

/// A read-only list of inline structs.
pub struct Reader<'a, T: FromStructReader<'a>> {
    reader: ListReader<'a>,
    marker: PhantomData<&'a T>,
}

/// A list of inline structs in a message under construction.
pub struct Builder<T: FromStructBuilder> {
    builder: ListBuilder,
    marker: PhantomData<T>,
}

impl<'a, T: FromStructReader<'a>> Reader<'a, T> {
    #[verifier::type_invariant]
    spec fn inv(self) -> bool {
        self.reader.run().kind == ElementSize::InlineComposite
    }

    /// The buffer that holds the list.
    pub closed spec fn words(&self) -> Seq<Word> {
        self.reader.words()
    }

    /// The place of the list in the buffer.
    pub closed spec fn run(&self) -> ListRun {
        self.reader.run()
    }

    /// Wraps a list of inline structs.
    pub fn new(reader: ListReader<'a>) -> (r: Reader<'a, T>)
        requires
            reader.run().kind == ElementSize::InlineComposite,
        ensures
            r.words() == reader.words(),
            r.run() == reader.run(),
    {
        Reader { reader, marker: PhantomData }
    }

    /// Number of elements.
    pub fn size(&self) -> (r: usize)
        ensures
            r == self.run().count,
    {
        self.reader.size()
    }

    /// Element `index`: the view of the struct that starts `index` strides
    /// behind the first element.
    pub fn index(&self, index: usize) -> (r: T)
        requires
            index < self.run().count,
        ensures
            r.struct_reader().words() == self.words(),
            r.struct_reader().run() == self.run().struct_at(index as int),
            r.struct_reader().run().data == self.run().start + index * (self.run().data_words
                + self.run().pointers),
    {
        proof {
            use_type_invariant(self);
            self.reader.lemma_run();
        }
        let result: T = T::from_struct_reader(self.reader.get_struct_element(index));
        result
    }
}

impl<'a, T: FromStructReader<'a>> FromPointerReader<'a> for Reader<'a, T> {
    open spec fn read_from(&self, words: Seq<Word>, slot: int, default_value: Seq<Word>) -> bool {
        &&& self.words() == read_source(words, slot, ElementSize::InlineComposite, default_value)
        &&& self.run() == read_run(words, slot, ElementSize::InlineComposite, default_value)
    }

    /// Opens the list in the slot for reading; `default_value` stands in where
    /// the slot locates no such list.
    fn get_from_pointer(reader: &PointerReader<'a>, default_value: &'a [Word]) -> (r: Reader<
        'a,
        T,
    >) {
        Reader {
            reader: reader.get_list(ElementSize::InlineComposite, default_value),
            marker: PhantomData,
        }
    }
}

impl<T: FromStructBuilder> Builder<T> {
    #[verifier::type_invariant]
    spec fn inv(self) -> bool {
        self.builder.run().kind == ElementSize::InlineComposite
    }

    /// The place of the list in the message.
    pub closed spec fn run(&self) -> ListRun {
        self.builder.run()
    }

    /// Wraps a list of inline structs.
    pub fn new(builder: ListBuilder) -> (r: Builder<T>)
        requires
            builder.run().kind == ElementSize::InlineComposite,
        ensures
            r.run() == builder.run(),
    {
        Builder { builder, marker: PhantomData }
    }

    /// Number of elements.
    pub fn size(&self) -> (r: usize)
        ensures
            r == self.run().count,
    {
        self.builder.size()
    }

    /// Whether the list lies inside `message`.
    pub fn is_within(&self, message: &Message) -> (r: bool)
        ensures
            r == self.run().fits(message@.len() as int),
    {
        self.builder.is_within(message)
    }

    /// Element `index`: the handle of the struct that starts `index` strides
    /// behind the first element.
    pub fn index(&self, index: usize) -> (r: T)
        requires
            index < self.run().count,
        ensures
            r.struct_builder().run() == self.run().struct_at(index as int),
            r.struct_builder().run().data == self.run().start + index * (self.run().data_words
                + self.run().pointers),
            r.struct_builder().run().data + self.run().stride() <= self.run().start
                + self.run().span(),
    {
        proof {
            use_type_invariant(self);
            self.builder.lemma_run();
            self.run().lemma_struct_place(index as int);
        }
        let result: T = T::from_struct_builder(self.builder.get_struct_element(index));
        result
    }
}

impl<T: FromStructBuilder + HasStructSize> FromPointerBuilder for Builder<T> {
    open spec fn can_init(words: Seq<Word>, slot: int, size: int) -> bool {
        can_allocate(
            words.len() as int,
            slot,
            ElementSize::InlineComposite,
            size,
            T::spec_struct_size().data as int,
            T::spec_struct_size().pointers as int,
        )
    }

    open spec fn initialized(&self, before: Seq<Word>, after: Seq<Word>, slot: int, size: int) -> bool {
        &&& after == allocated_words(
            before,
            slot,
            ElementSize::InlineComposite,
            size,
            T::spec_struct_size().data as int,
            T::spec_struct_size().pointers as int,
        )
        &&& self.run() == allocated_run(
            before.len() as int,
            ElementSize::InlineComposite,
            size,
            T::spec_struct_size().data as int,
            T::spec_struct_size().pointers as int,
        )
    }

    open spec fn can_get(words: Seq<Word>, slot: int, default_value: Seq<Word>) -> bool {
        can_open(words, slot, ElementSize::InlineComposite, Some(T::spec_struct_size()), default_value)
    }

    open spec fn opened(
        &self,
        before: Seq<Word>,
        after: Seq<Word>,
        slot: int,
        default_value: Seq<Word>,
    ) -> bool {
        &&& after == opened_words(
            before,
            slot,
            ElementSize::InlineComposite,
            Some(T::spec_struct_size()),
            default_value,
        )
        &&& self.run() == opened_run(
            before,
            slot,
            ElementSize::InlineComposite,
            Some(T::spec_struct_size()),
            default_value,
        )
    }

    /// Allocates a list of `size` structs of the size that `T` declares,
    /// every word of them zero.
    fn init_pointer(builder: PointerBuilder, message: &mut Message, size: usize) -> (r: Builder<T>)
        ensures
            r.run().count == size,
            r.run().fits(final(message)@.len() as int),
            old(message)@.len() <= final(message)@.len() <= MAX_SEGMENT_WORDS,
            resolve_list(final(message)@, builder.index as int, ElementSize::InlineComposite) == Some(r.run()),
    {
        Builder {
            builder: builder.init_struct_list(message, size, T::struct_size()),
            marker: PhantomData,
        }
    }

    /// Opens the list in the slot for building; where the slot locates no
    /// such list, `default_value` is taken over into the message.
    fn get_from_pointer(
        builder: PointerBuilder,
        message: &mut Message,
        default_value: &[Word],
    ) -> (r: Builder<T>)
        ensures
            r.run().fits(final(message)@.len() as int),
            old(message)@.len() <= final(message)@.len(),
            r.run().data_words == T::spec_struct_size().data,
            r.run().pointers == T::spec_struct_size().pointers,
    {
        proof {
            lemma_opened_kind(
                old(message)@,
                builder.index as int,
                ElementSize::InlineComposite,
                Some(T::spec_struct_size()),
                default_value@,
            );
        }
        Builder {
            builder: builder.get_struct_list(message, T::struct_size(), default_value),
            marker: PhantomData,
        }
    }
}

/// Every element of a list has the size of the list's elements; element
/// `index` starts `index` times that size behind the first, lies inside the
/// list and overlaps no other element.
pub proof fn lemma_element_place(run: ListRun, index: int)
    requires
        run.kind == ElementSize::InlineComposite,
        0 <= run.data_words,
        0 <= run.pointers,
        0 <= index < run.count,
    ensures
        run.struct_at(index).data == run.start + index * (run.data_words + run.pointers),
        run.struct_at(index).data_words == run.data_words,
        run.struct_at(index).pointers == run.pointers,
        run.start <= run.struct_at(index).data,
        run.struct_at(index).data + run.stride() <= run.start + run.span(),
        forall|other: int|
            0 <= other < run.count && other != index ==> run.struct_at(other).data + run.stride()
                <= run.struct_at(index).data || run.struct_at(index).data + run.stride()
                <= run.struct_at(other).data,
{
    run.lemma_struct_place(index);
    assert forall|other: int| 0 <= other < run.count && other != index implies run.struct_at(
        other,
    ).data + run.stride() <= run.struct_at(index).data || run.struct_at(index).data
        + run.stride() <= run.struct_at(other).data by {
        let stride = run.stride();
        if other < index {
            assert((other + 1) * stride <= index * stride) by (nonlinear_arith)
                requires
                    other + 1 <= index,
                    stride >= 0,
            ;
            assert((other + 1) * stride == other * stride + stride) by (nonlinear_arith);
        } else {
            assert((index + 1) * stride <= other * stride) by (nonlinear_arith)
                requires
                    index + 1 <= other,
                    stride >= 0,
            ;
            assert((index + 1) * stride == index * stride + stride) by (nonlinear_arith);
        }
    }
}

/// A list that was just allocated lies inside the message, is what its slot
/// resolves to, holds zeros, and has elements of the size that `T` declares.
pub proof fn lemma_initialized<T: FromStructBuilder + HasStructSize>(
    builder: Builder<T>,
    before: Seq<Word>,
    after: Seq<Word>,
    slot: int,
    size: int,
)
    requires
        Builder::<T>::can_init(before, slot, size),
        builder.initialized(before, after, slot, size),
    ensures
        builder.run().count == size,
        builder.run().data_words == T::spec_struct_size().data,
        builder.run().pointers == T::spec_struct_size().pointers,
        builder.run().fits(after.len() as int),
        resolve_list(after, slot, ElementSize::InlineComposite) == Some(builder.run()),
        forall|k: int| builder.run().start <= k < after.len() ==> after[k] == 0,
{
    let shape = T::spec_struct_size();
    lemma_allocated_shape(
        before,
        slot,
        ElementSize::InlineComposite,
        size,
        shape.data as int,
        shape.pointers as int,
    );
    lemma_allocated_resolves(
        before,
        slot,
        ElementSize::InlineComposite,
        size,
        shape.data as int,
        shape.pointers as int,
    );
}

/// A reader made from a slot sees the list of the builder to which the slot
/// resolved, as long as the pointer word and the tag word were left alone:
/// element for element the same place.
pub proof fn lemma_reader_sees_builder<'a, T: FromStructBuilder, U: FromStructReader<'a>>(
    builder: Builder<T>,
    reader: Reader<'a, U>,
    words: Seq<Word>,
    later: Seq<Word>,
    slot: int,
    default_value: Seq<Word>,
)
    requires
        resolve_list(words, slot, ElementSize::InlineComposite) == Some(builder.run()),
        pointer_kept(words, later, slot, ElementSize::InlineComposite),
        reader.read_from(later, slot, default_value),
    ensures
        reader.words() == later,
        reader.run() == builder.run(),
{
    lemma_read_frame(words, later, slot, ElementSize::InlineComposite);
    assert(read_run(later, slot, ElementSize::InlineComposite, default_value) == read_run(
        words,
        slot,
        ElementSize::InlineComposite,
        default_value,
    ));
    assert(read_source(later, slot, ElementSize::InlineComposite, default_value) == later);
}

/// A reader made from a null slot, without a default, has no elements.
pub proof fn lemma_null_reads_empty<'a, T: FromStructReader<'a>>(
    reader: Reader<'a, T>,
    words: Seq<Word>,
    slot: int,
)
    requires
        !(0 <= slot < words.len()) || words[slot] == 0,
        reader.read_from(words, slot, Seq::empty()),
    ensures
        reader.run().count == 0,
{
}

} // verus!
