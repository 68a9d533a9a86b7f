//! Where a list lies: the run of words it occupies and the place of each
//! element inside the run.

use vstd::prelude::*;
use crate::layout::bits::{extract, field_aligned, insert, lemma_extract_inserted, lemma_extract_other};
use crate::layout::element::{ElementSize, StructSize};

verus! {

/// Words taken by `count` elements of encoding `kind`; `stride` is the size of
/// one inline struct and counts for the inline-composite encoding only.
pub open spec fn span_words(kind: ElementSize, count: int, stride: int) -> int {
    match kind {
        ElementSize::Void => 0,
        ElementSize::Bit => (count + 63) / 64,
        ElementSize::Byte => (count + 7) / 8,
        ElementSize::TwoBytes => (count + 3) / 4,
        ElementSize::FourBytes => (count + 1) / 2,
        ElementSize::EightBytes => count,
        ElementSize::Pointer => count,
        ElementSize::InlineComposite => count * stride,
    }
}

/// Words in front of the elements of a list: the tag word of a list of inline
/// structs.
pub open spec fn header_words(kind: ElementSize) -> int {
    if kind == ElementSize::InlineComposite {
        1
    } else {
        0
    }
}

/// Computes `span_words`.
pub fn compute_span(kind: ElementSize, count: usize, stride: usize) -> (r: usize)
    requires
        span_words(kind, count as int, stride as int) <= usize::MAX,
    ensures
        r == span_words(kind, count as int, stride as int),
{
    match kind {
        ElementSize::Void => 0,
        ElementSize::Bit => count / 64 + if count % 64 == 0 {
            0
        } else {
            1
        },
        ElementSize::Byte => count / 8 + if count % 8 == 0 {
            0
        } else {
            1
        },
        ElementSize::TwoBytes => count / 4 + if count % 4 == 0 {
            0
        } else {
            1
        },
        ElementSize::FourBytes => count / 2 + if count % 2 == 0 {
            0
        } else {
            1
        },
        ElementSize::EightBytes => count,
        ElementSize::Pointer => count,
        ElementSize::InlineComposite => count * stride,
    }
}

/// The place of one inline struct: `data_words` words of scalars from word
/// `data` on, followed by `pointers` pointer slots.
pub struct StructRun {
    pub data: int,
    pub data_words: int,
    pub pointers: int,
}

impl StructRun {
    /// Whether the struct lies inside a buffer of `len` words.
    pub open spec fn fits(self, len: int) -> bool {
        &&& 0 <= self.data
        &&& 0 <= self.data_words
        &&& 0 <= self.pointers
        &&& self.data + self.data_words + self.pointers <= len
    }

    /// Word index of pointer slot `i` of the struct.
    pub open spec fn pointer_slot(self, i: int) -> int {
        self.data + self.data_words + i
    }
}

/// The place of a list: `count` elements of encoding `kind` from word `start`
/// on. `data_words` and `pointers` give the size of one element of a list of
/// inline structs; they are 0 for every other encoding.
pub struct ListRun {
    pub start: int,
    pub count: int,
    pub kind: ElementSize,
    pub data_words: int,
    pub pointers: int,
}

impl ListRun {
    /// The run of a list without elements, whose elements would have size `size`.
    pub open spec fn empty(kind: ElementSize, size: StructSize) -> ListRun {
        ListRun {
            start: 0,
            count: 0,
            kind,
            data_words: size.data as int,
            pointers: size.pointers as int,
        }
    }

    /// The same list, `by` words further towards the end of the buffer.
    pub open spec fn shifted(self, by: int) -> ListRun {
        ListRun {
            start: self.start + by,
            count: self.count,
            kind: self.kind,
            data_words: self.data_words,
            pointers: self.pointers,
        }
    }

    /// Words per inline struct.
    pub open spec fn stride(self) -> int {
        self.data_words + self.pointers
    }

    /// Words the whole list occupies.
    pub open spec fn span(self) -> int {
        span_words(self.kind, self.count, self.stride())
    }

    /// Whether the list lies inside a buffer of `len` words.
    pub open spec fn fits(self, len: int) -> bool {
        &&& 0 <= self.start
        &&& 0 <= self.count
        &&& 0 <= self.data_words
        &&& 0 <= self.pointers
        &&& self.start + self.span() <= len
    }

    /// Word that holds scalar element `i`.
    pub open spec fn word_of(self, i: int) -> int {
        match self.kind {
            ElementSize::Bit => self.start + i / 64,
            ElementSize::Byte => self.start + i / 8,
            ElementSize::TwoBytes => self.start + i / 4,
            ElementSize::FourBytes => self.start + i / 2,
            _ => self.start + i,
        }
    }

    /// Shift of scalar element `i` inside its word.
    pub open spec fn shift_of(self, i: int) -> u64 {
        match self.kind {
            ElementSize::Bit => (i % 64) as u64,
            ElementSize::Byte => ((i % 8) * 8) as u64,
            ElementSize::TwoBytes => ((i % 4) * 16) as u64,
            ElementSize::FourBytes => ((i % 2) * 32) as u64,
            _ => 0,
        }
    }

    /// The bits of scalar element `i`.
    pub open spec fn raw(self, words: Seq<u64>, i: int) -> u64 {
        extract(words[self.word_of(i)], self.shift_of(i), self.kind.spec_mask())
    }

    /// `words` after the bits of scalar element `i` were replaced by `value`.
    pub open spec fn with_raw(self, words: Seq<u64>, i: int, value: u64) -> Seq<u64> {
        words.update(
            self.word_of(i),
            insert(words[self.word_of(i)], self.shift_of(i), self.kind.spec_mask(), value),
        )
    }

    /// Word index of element `i` of a list of pointers.
    pub open spec fn pointer_slot(self, i: int) -> int {
        self.start + i
    }

    /// The place of element `i` of a list of inline structs.
    pub open spec fn struct_at(self, i: int) -> StructRun {
        StructRun {
            data: self.start + i * self.stride(),
            data_words: self.data_words,
            pointers: self.pointers,
        }
    }

    /// Scalar element `i` lies in one word of the run, on its natural alignment.
    pub proof fn lemma_scalar_place(self, i: int)
        requires
            self.kind.is_data(),
            0 <= i < self.count,
        ensures
            self.start <= self.word_of(i) < self.start + self.span(),
            self.shift_of(i) < 64,
            field_aligned(self.shift_of(i), self.kind.spec_mask()),
    {
        match self.kind {
            ElementSize::Bit => {
                assert(i / 64 < (self.count + 63) / 64);
            },
            ElementSize::Byte => {
                assert(i / 8 < (self.count + 7) / 8);
                assert(((i % 8) * 8) % 8 == 0);
            },
            ElementSize::TwoBytes => {
                assert(i / 4 < (self.count + 3) / 4);
                assert(((i % 4) * 16) % 16 == 0);
            },
            ElementSize::FourBytes => {
                assert(i / 2 < (self.count + 1) / 2);
                assert(((i % 2) * 32) % 32 == 0);
            },
            _ => {},
        }
    }

    /// Two scalar elements that share a word and a shift are the same element.
    pub proof fn lemma_scalar_places_differ(self, i: int, j: int)
        requires
            self.kind.is_data(),
            0 <= i < self.count,
            0 <= j < self.count,
            i != j,
        ensures
            self.word_of(i) != self.word_of(j) || self.shift_of(i) != self.shift_of(j),
    {
        match self.kind {
            ElementSize::Bit => {
                assert(i == 64 * (i / 64) + i % 64 && j == 64 * (j / 64) + j % 64);
            },
            ElementSize::Byte => {
                assert(i == 8 * (i / 8) + i % 8 && j == 8 * (j / 8) + j % 8);
            },
            ElementSize::TwoBytes => {
                assert(i == 4 * (i / 4) + i % 4 && j == 4 * (j / 4) + j % 4);
            },
            ElementSize::FourBytes => {
                assert(i == 2 * (i / 2) + i % 2 && j == 2 * (j / 2) + j % 2);
            },
            _ => {},
        }
    }

    /// A scalar element reads back the low bits of what was written to it.
    pub proof fn lemma_raw_written(self, words: Seq<u64>, i: int, value: u64)
        requires
            self.kind.is_data(),
            self.fits(words.len() as int),
            0 <= i < self.count,
        ensures
            self.with_raw(words, i, value).len() == words.len(),
            self.raw(self.with_raw(words, i, value), i) == value & self.kind.spec_mask(),
    {
        self.lemma_scalar_place(i);
        lemma_extract_inserted(
            words[self.word_of(i)],
            self.shift_of(i),
            self.kind.spec_mask(),
            value,
        );
    }

    /// Writing one scalar element leaves every other element of the list as it was.
    pub proof fn lemma_raw_kept(self, words: Seq<u64>, i: int, value: u64, j: int)
        requires
            self.kind.is_data(),
            self.fits(words.len() as int),
            0 <= i < self.count,
            0 <= j < self.count,
            i != j,
        ensures
            self.raw(self.with_raw(words, i, value), j) == self.raw(words, j),
    {
        self.lemma_scalar_place(i);
        self.lemma_scalar_place(j);
        self.lemma_scalar_places_differ(i, j);
        if self.word_of(i) == self.word_of(j) {
            lemma_extract_other(
                words[self.word_of(i)],
                self.shift_of(i),
                self.shift_of(j),
                self.kind.spec_mask(),
                value,
            );
        }
    }

    /// Element `i` of a list of inline structs lies inside the run.
    pub proof fn lemma_struct_place(self, i: int)
        requires
            self.kind == ElementSize::InlineComposite,
            0 <= self.data_words,
            0 <= self.pointers,
            0 <= i < self.count,
        ensures
            self.start <= self.struct_at(i).data,
            self.struct_at(i).data + self.stride() <= self.start + self.span(),
    {
        assert(i * self.stride() >= 0) by (nonlinear_arith)
            requires
                i >= 0,
                self.stride() >= 0,
        ;
        assert((i + 1) * self.stride() <= self.count * self.stride()) by (nonlinear_arith)
            requires
                i + 1 <= self.count,
                self.stride() >= 0,
        ;
        assert((i + 1) * self.stride() == i * self.stride() + self.stride()) by (nonlinear_arith);
    }
}

} // verus!
