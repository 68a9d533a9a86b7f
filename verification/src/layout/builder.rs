//! Handles into a message under construction.
//!
//! A handle is a place in the message, not a borrow of it: the operation that
//! reads or writes through a handle is given the message. A handle stays valid
//! while the message grows, since allocated words never move.

use vstd::prelude::*;
use crate::common::Word;
use crate::layout::bits::{extract_field, insert_field, lemma_extract_bounded};
use crate::layout::element::{ElementSize, StructSize};
use crate::layout::message::Message;
use crate::layout::primitive::PrimitiveElement;
use crate::layout::run::{compute_span, span_words, ListRun, StructRun};

verus! {

/// The slot of a pointer in a message.
#[derive(Clone, Copy, Debug)]
pub struct PointerBuilder {
    pub index: usize,
}

/// The place of an inline struct in a message.
#[derive(Clone, Copy, Debug)]
pub struct StructBuilder {
    data: usize,
    data_words: u16,
    pointers: u16,
}

/// The place of a list in a message.
#[derive(Clone, Copy, Debug)]
pub struct ListBuilder {
    start: usize,
    count: usize,
    kind: ElementSize,
    data_words: u16,
    pointers: u16,
}

impl StructBuilder {
    #[verifier::type_invariant]
    spec fn inv(self) -> bool {
        self.data + self.data_words + self.pointers <= usize::MAX
    }

    /// The place this handle denotes.
    pub closed spec fn run(&self) -> StructRun {
        StructRun {
            data: self.data as int,
            data_words: self.data_words as int,
            pointers: self.pointers as int,
        }
    }

    /// Whether the struct lies inside `message`.
    pub fn is_within(&self, message: &Message) -> (r: bool)
        ensures
            r == self.run().fits(message@.len() as int),
    {
        proof {
            use_type_invariant(self);
        }
        self.data + self.data_words as usize + self.pointers as usize <= message.len()
    }

    /// Size of the struct.
    pub fn struct_size(&self) -> (r: StructSize)
        ensures
            r.data == self.run().data_words,
            r.pointers == self.run().pointers,
    {
        StructSize { data: self.data_words, pointers: self.pointers }
    }

    /// Word `index` of the data of the struct at this place in `words`.
    pub fn get_data_word_from(&self, words: &[Word], index: usize) -> (r: Word)
        requires
            self.run().fits(words@.len() as int),
            index < self.run().data_words,
        ensures
            r == words@[self.run().data + index],
    {
        proof {
            use_type_invariant(self);
        }
        words[self.data + index]
    }

    /// Word `index` of the struct's data.
    pub fn get_data_word(&self, message: &Message, index: usize) -> (r: Word)
        requires
            self.run().fits(message@.len() as int),
            index < self.run().data_words,
        ensures
            r == message@[self.run().data + index],
    {
        self.get_data_word_from(message.as_words(), index)
    }

    /// Overwrites word `index` of the struct's data.
    pub fn set_data_word(&self, message: &mut Message, index: usize, value: Word)
        requires
            self.run().fits(old(message)@.len() as int),
            index < self.run().data_words,
        ensures
            final(message)@ == old(message)@.update(self.run().data + index, value),
    {
        proof {
            use_type_invariant(self);
        }
        message.set_word(self.data + index, value);
    }

    /// Pointer slot `index` of the struct.
    pub fn get_pointer_field(&self, index: usize) -> (r: PointerBuilder)
        requires
            index < self.run().pointers,
        ensures
            r.index == self.run().pointer_slot(index as int),
    {
        proof {
            use_type_invariant(self);
        }
        PointerBuilder { index: self.data + self.data_words as usize + index }
    }
}

impl ListBuilder {
    #[verifier::type_invariant]
    spec fn inv(self) -> bool {
        self.run().fits(usize::MAX as int)
    }

    /// The place this handle denotes.
    pub closed spec fn run(&self) -> ListRun {
        ListRun {
            start: self.start as int,
            count: self.count as int,
            kind: self.kind,
            data_words: self.data_words as int,
            pointers: self.pointers as int,
        }
    }

    /// A handle denotes a place made of machine-sized numbers.
    pub proof fn lemma_run(&self)
        ensures
            0 <= self.run().start <= usize::MAX,
            0 <= self.run().count <= usize::MAX,
            0 <= self.run().data_words < 0x1_0000,
            0 <= self.run().pointers < 0x1_0000,
    {
    }

    /// The handle of the list at a given place.
    pub(crate) fn from_parts(
        start: usize,
        count: usize,
        kind: ElementSize,
        data_words: u16,
        pointers: u16,
    ) -> (r: ListBuilder)
        requires
            start + span_words(kind, count as int, data_words + pointers) <= usize::MAX,
        ensures
            r.run() == (ListRun {
                start: start as int,
                count: count as int,
                kind,
                data_words: data_words as int,
                pointers: pointers as int,
            }),
    {
        ListBuilder { start, count, kind, data_words, pointers }
    }

    /// The handle of a list without elements; it lies inside every message.
    pub fn empty(kind: ElementSize, size: StructSize) -> (r: ListBuilder)
        ensures
            r.run() == ListRun::empty(kind, size),
    {
        ListBuilder { start: 0, count: 0, kind, data_words: size.data, pointers: size.pointers }
    }

    /// Number of elements.
    pub fn size(&self) -> (r: usize)
        ensures
            r == self.run().count,
    {
        self.count
    }

    /// Encoding of the elements.
    pub fn element_size(&self) -> (r: ElementSize)
        ensures
            r == self.run().kind,
    {
        self.kind
    }

    /// Size of one element of a list of inline structs.
    pub fn struct_size(&self) -> (r: StructSize)
        ensures
            r.data == self.run().data_words,
            r.pointers == self.run().pointers,
    {
        StructSize { data: self.data_words, pointers: self.pointers }
    }

    /// Word index of the first element.
    pub fn start(&self) -> (r: usize)
        ensures
            r == self.run().start,
    {
        self.start
    }

    /// Words the list occupies.
    pub fn span(&self) -> (r: usize)
        ensures
            r == self.run().span(),
    {
        proof {
            use_type_invariant(self);
        }
        compute_span(self.kind, self.count, self.data_words as usize + self.pointers as usize)
    }

    /// Whether the list lies inside `message`.
    pub fn is_within(&self, message: &Message) -> (r: bool)
        ensures
            r == self.run().fits(message@.len() as int),
    {
        proof {
            use_type_invariant(self);
        }
        let span: usize = self.span();
        let len: usize = message.len();
        span <= len && self.start <= len - span
    }

    /// Word and shift of scalar element `index`.
    fn locate(&self, index: usize) -> (r: (usize, u64))
        requires
            self.run().kind.is_data(),
            index < self.run().count,
        ensures
            r.0 == self.run().word_of(index as int),
            r.1 == self.run().shift_of(index as int),
            r.1 < 64,
    {
        proof {
            use_type_invariant(self);
            self.run().lemma_scalar_place(index as int);
        }
        match self.kind {
            ElementSize::Bit => (self.start + index / 64, (index % 64) as u64),
            ElementSize::Byte => (self.start + index / 8, (index % 8) as u64 * 8),
            ElementSize::TwoBytes => (self.start + index / 4, (index % 4) as u64 * 16),
            ElementSize::FourBytes => (self.start + index / 2, (index % 2) as u64 * 32),
            _ => (self.start + index, 0),
        }
    }

    /// Scalar element `index` of the list at this place in `words`.
    pub fn get_from<T: PrimitiveElement>(&self, words: &[Word], index: usize) -> (r: T)
        requires
            self.run().kind == T::spec_element_size(),
            self.run().fits(words@.len() as int),
            index < self.run().count,
        ensures
            r == T::from_raw(self.run().raw(words@, index as int)),
    {
        proof {
            T::lemma_element_size();
            self.run().lemma_scalar_place(index as int);
        }
        let (place, shift) = self.locate(index);
        let word: Word = words[place];
        let raw: u64 = extract_field(word, shift, self.kind.mask());
        proof {
            lemma_extract_bounded(word, shift, self.kind.spec_mask());
        }
        T::decode(raw)
    }

    /// Scalar element `index`.
    pub fn get<T: PrimitiveElement>(&self, message: &Message, index: usize) -> (r: T)
        requires
            self.run().kind == T::spec_element_size(),
            self.run().fits(message@.len() as int),
            index < self.run().count,
        ensures
            r == T::from_raw(self.run().raw(message@, index as int)),
    {
        self.get_from(message.as_words(), index)
    }

    /// Overwrites scalar element `index`.
    pub fn set<T: PrimitiveElement>(&self, message: &mut Message, index: usize, value: T)
        requires
            self.run().kind == T::spec_element_size(),
            self.run().fits(old(message)@.len() as int),
            index < self.run().count,
        ensures
            final(message)@ == self.run().with_raw(old(message)@, index as int, value.to_raw()),
    {
        proof {
            T::lemma_element_size();
            self.run().lemma_scalar_place(index as int);
        }
        let (place, shift) = self.locate(index);
        let word: Word = message.word(place);
        let changed: Word = insert_field(word, shift, self.kind.mask(), value.encode());
        message.set_word(place, changed);
    }

    /// The slot of element `index` of a list of pointers.
    pub fn get_pointer_element(&self, index: usize) -> (r: PointerBuilder)
        requires
            self.run().kind == ElementSize::Pointer,
            index < self.run().count,
        ensures
            r.index == self.run().pointer_slot(index as int),
    {
        proof {
            use_type_invariant(self);
        }
        PointerBuilder { index: self.start + index }
    }

    /// The place of element `index` of a list of inline structs.
    pub fn get_struct_element(&self, index: usize) -> (r: StructBuilder)
        requires
            self.run().kind == ElementSize::InlineComposite,
            index < self.run().count,
        ensures
            r.run() == self.run().struct_at(index as int),
            r.run().data + self.run().stride() <= self.run().start + self.run().span(),
    {
        proof {
            use_type_invariant(self);
            self.run().lemma_struct_place(index as int);
        }
        let stride: usize = self.data_words as usize + self.pointers as usize;
        StructBuilder {
            data: self.start + index * stride,
            data_words: self.data_words,
            pointers: self.pointers,
        }
    }
}

} // verus!
