//! The message under construction: a growable run of words.

use vstd::prelude::*;
use crate::common::{Word, MAX_SEGMENT_WORDS};
use crate::layout::builder::PointerBuilder;

verus! {

/// A message that is being built. Word 0 is the slot of the root pointer;
/// everything else is allocated behind it, in order, and never moves.
pub struct Message {
    words: Vec<Word>,
}

impl Message {
    /// The words of the message.
    pub closed spec fn view(&self) -> Seq<Word> {
        self.words@
    }

    /// A message that holds nothing but a null root pointer.
    pub fn new() -> (r: Message)
        ensures
            r@ == seq![0u64],
    {
        let mut words: Vec<Word> = Vec::new();
        words.push(0);
        Message { words }
    }

    /// The slot of the root pointer: word 0.
    pub fn root(&self) -> (r: PointerBuilder)
        ensures
            r.index == 0,
    {
        PointerBuilder { index: 0 }
    }

    /// Takes up words that were built earlier.
    pub fn from_words(words: Vec<Word>) -> (r: Message)
        ensures
            r@ == words@,
    {
        Message { words }
    }

    /// Gives the words up.
    pub fn into_words(self) -> (r: Vec<Word>)
        ensures
            r@ == self@,
    {
        self.words
    }

    /// The words, for reading.
    pub fn as_words(&self) -> (r: &[Word])
        ensures
            r@ == self@,
    {
        self.words.as_slice()
    }

    /// Number of words in the message.
    pub fn len(&self) -> (r: usize)
        ensures
            r == self@.len(),
    {
        self.words.len()
    }

    /// Word `index` of the message.
    pub fn word(&self, index: usize) -> (r: Word)
        requires
            index < self@.len(),
        ensures
            r == self@[index as int],
    {
        self.words[index]
    }

    /// Overwrites word `index`.
    pub fn set_word(&mut self, index: usize, value: Word)
        requires
            index < old(self)@.len(),
        ensures
            final(self)@ == old(self)@.update(index as int, value),
    {
        self.words[index] = value;
    }

    /// Appends a copy of `words`.
    pub fn extend_from(&mut self, words: &[Word])
        requires
            old(self)@.len() + words@.len() <= MAX_SEGMENT_WORDS,
        ensures
            final(self)@ == old(self)@ + words@,
    {
        self.words.extend_from_slice(words);
    }

    /// Appends `count` zero words.
    pub fn extend_zeroed(&mut self, count: usize)
        requires
            old(self)@.len() + count <= MAX_SEGMENT_WORDS,
        ensures
            final(self)@ == old(self)@ + Seq::new(count as nat, |i: int| 0u64),
    {
        let len: usize = self.words.len();
        self.words.resize(len + count, 0u64);
    }
}

} // verus!
