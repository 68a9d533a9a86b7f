//! Read-only views into a buffer of words.

use vstd::prelude::*;
use crate::common::Word;
use crate::layout::builder::{ListBuilder, StructBuilder};
use crate::layout::element::{ElementSize, StructSize};
use crate::layout::message::Message;
use crate::layout::primitive::PrimitiveElement;
use crate::layout::resolve::{lemma_resolved_fits, read_run, read_source, resolve};
use crate::layout::run::{ListRun, StructRun};

verus! {

/// A pointer slot of a buffer. A slot outside the buffer reads as null.
#[derive(Clone, Copy, Debug)]
pub struct PointerReader<'a> {
    words: &'a [Word],
    index: usize,
}

/// An inline struct inside a buffer.
#[derive(Clone, Copy, Debug)]
pub struct StructReader<'a> {
    words: &'a [Word],
    place: StructBuilder,
}

/// A list inside a buffer.
#[derive(Clone, Copy, Debug)]
pub struct ListReader<'a> {
    words: &'a [Word],
    list: ListBuilder,
}

impl<'a> PointerReader<'a> {
    /// The buffer that holds the slot.
    pub closed spec fn words(&self) -> Seq<Word> {
        self.words@
    }

    /// Word index of the slot.
    pub closed spec fn slot(&self) -> int {
        self.index as int
    }

    /// The pointer in word `index` of `words`.
    pub fn new(words: &'a [Word], index: usize) -> (r: PointerReader<'a>)
        ensures
            r.words() == words@,
            r.slot() == index,
    {
        PointerReader { words, index }
    }

    /// The root pointer of a message: its first word.
    pub fn get_root(words: &'a [Word]) -> (r: PointerReader<'a>)
        ensures
            r.words() == words@,
            r.slot() == 0,
    {
        PointerReader { words, index: 0 }
    }

    /// Whether the slot holds no pointer.
    pub fn is_null(&self) -> (r: bool)
        ensures
            r == (self.slot() >= self.words().len() || self.words()[self.slot()] == 0),
    {
        self.index >= self.words.len() || self.words[self.index] == 0
    }

    /// Opens the list of encoding `expected` in the slot. Where the slot is
    /// null or locates no such list, the list that the first word of
    /// `default_value` locates takes its place; where there is no such
    /// default either, a list without elements.
    pub fn get_list(&self, expected: ElementSize, default_value: &'a [Word]) -> (r: ListReader<'a>)
        ensures
            r.words() == read_source(self.words(), self.slot(), expected, default_value@),
            r.run() == read_run(self.words(), self.slot(), expected, default_value@),
    {
        if let Some(list) = resolve(self.words, self.index, expected) {
            proof {
                lemma_resolved_fits(self.words@, self.index as int, expected);
            }
            return ListReader { words: self.words, list };
        }
        if let Some(list) = resolve(default_value, 0, expected) {
            proof {
                lemma_resolved_fits(default_value@, 0, expected);
            }
            return ListReader { words: default_value, list };
        }
        ListReader {
            words: self.words,
            list: ListBuilder::empty(expected, StructSize { data: 0, pointers: 0 }),
        }
    }
}

impl<'a> StructReader<'a> {
    #[verifier::type_invariant]
    spec fn inv(self) -> bool {
        self.place.run().fits(self.words@.len() as int)
    }

    /// The buffer that holds the struct.
    pub closed spec fn words(&self) -> Seq<Word> {
        self.words@
    }

    /// The place of the struct in the buffer.
    pub closed spec fn run(&self) -> StructRun {
        self.place.run()
    }

    /// Size of the struct.
    pub fn struct_size(&self) -> (r: StructSize)
        ensures
            r.data == self.run().data_words,
            r.pointers == self.run().pointers,
    {
        self.place.struct_size()
    }

    /// Word `index` of the struct's data.
    pub fn get_data_word(&self, index: usize) -> (r: Word)
        requires
            index < self.run().data_words,
        ensures
            r == self.words()[self.run().data + index],
    {
        proof {
            use_type_invariant(self);
        }
        self.place.get_data_word_from(self.words, index)
    }

    /// Pointer slot `index` of the struct.
    pub fn get_pointer_field(&self, index: usize) -> (r: PointerReader<'a>)
        requires
            index < self.run().pointers,
        ensures
            r.words() == self.words(),
            r.slot() == self.run().pointer_slot(index as int),
    {
        PointerReader { words: self.words, index: self.place.get_pointer_field(index).index }
    }
}

impl<'a> ListReader<'a> {
    #[verifier::type_invariant]
    spec fn inv(self) -> bool {
        self.list.run().fits(self.words@.len() as int)
    }

    /// The buffer that holds the list.
    pub closed spec fn words(&self) -> Seq<Word> {
        self.words@
    }

    /// The place of the list in the buffer.
    pub closed spec fn run(&self) -> ListRun {
        self.list.run()
    }

    /// A view denotes a place made of machine-sized numbers.
    pub proof fn lemma_run(&self)
        ensures
            0 <= self.run().start <= usize::MAX,
            0 <= self.run().count <= usize::MAX,
            0 <= self.run().data_words < 0x1_0000,
            0 <= self.run().pointers < 0x1_0000,
    {
        self.list.lemma_run();
    }

    /// Number of elements.
    pub fn size(&self) -> (r: usize)
        ensures
            r == self.run().count,
    {
        self.list.size()
    }

    /// Encoding of the elements.
    pub fn element_size(&self) -> (r: ElementSize)
        ensures
            r == self.run().kind,
    {
        self.list.element_size()
    }

    /// Size of one element of a list of inline structs.
    pub fn struct_size(&self) -> (r: StructSize)
        ensures
            r.data == self.run().data_words,
            r.pointers == self.run().pointers,
    {
        self.list.struct_size()
    }

    /// Scalar element `index`.
    pub fn get<T: PrimitiveElement>(&self, index: usize) -> (r: T)
        requires
            self.run().kind == T::spec_element_size(),
            index < self.run().count,
        ensures
            r == T::from_raw(self.run().raw(self.words(), index as int)),
    {
        proof {
            use_type_invariant(self);
        }
        self.list.get_from(self.words, index)
    }

    /// The slot of element `index` of a list of pointers.
    pub fn get_pointer_element(&self, index: usize) -> (r: PointerReader<'a>)
        requires
            self.run().kind == ElementSize::Pointer,
            index < self.run().count,
        ensures
            r.words() == self.words(),
            r.slot() == self.run().pointer_slot(index as int),
    {
        PointerReader { words: self.words, index: self.list.get_pointer_element(index).index }
    }

    /// Element `index` of a list of inline structs.
    pub fn get_struct_element(&self, index: usize) -> (r: StructReader<'a>)
        requires
            self.run().kind == ElementSize::InlineComposite,
            index < self.run().count,
        ensures
            r.words() == self.words(),
            r.run() == self.run().struct_at(index as int),
    {
        proof {
            use_type_invariant(self);
            self.list.run().lemma_struct_place(index as int);
        }
        StructReader { words: self.words, place: self.list.get_struct_element(index) }
    }
}

impl ListBuilder {
    /// The list at this place in `message`, for reading.
    pub fn as_reader<'a>(&self, message: &'a Message) -> (r: ListReader<'a>)
        requires
            self.run().fits(message@.len() as int),
        ensures
            r.words() == message@,
            r.run() == self.run(),
    {
        ListReader { words: message.as_words(), list: *self }
    }
}

impl StructBuilder {
    /// The struct at this place in `message`, for reading.
    pub fn as_reader<'a>(&self, message: &'a Message) -> (r: StructReader<'a>)
        requires
            self.run().fits(message@.len() as int),
        ensures
            r.words() == message@,
            r.run() == self.run(),
    {
        StructReader { words: message.as_words(), place: *self }
    }
}

} // verus!
