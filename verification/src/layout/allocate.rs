//! Hanging a list into a pointer slot: allocating a new one, or opening the
//! one that is there.

use vstd::prelude::*;
use crate::common::{Word, MAX_LIST_ELEMENTS, MAX_SEGMENT_WORDS};
use crate::layout::builder::{ListBuilder, PointerBuilder};
use crate::layout::element::{ElementSize, StructSize};
use crate::layout::message::Message;
use crate::layout::laws::{lemma_allocated_resolves, lemma_allocated_shape};
use crate::layout::resolve::{
    lemma_resolved_fits, pointer_target, resolve_checked, resolve_list, resolve_sized,
};
use crate::layout::run::{compute_span, header_words, span_words, ListRun};
use crate::layout::wire::{
    composite_tag, lemma_field_bounds, list_code, list_count, list_pointer, CODE_INLINE_COMPOSITE,
};

verus! {

/// `count` zero words.
pub open spec fn zeros(count: int) -> Seq<Word> {
    Seq::new(count as nat, |i: int| 0u64)
}

/// Whether a list of the given shape can be allocated at the end of a message
/// of `len` words and hung into slot `slot`.
pub open spec fn can_allocate(
    len: int,
    slot: int,
    kind: ElementSize,
    count: int,
    data_words: int,
    pointers: int,
) -> bool {
    &&& 0 <= slot < len
    &&& 0 <= count <= MAX_LIST_ELEMENTS
    &&& 0 <= data_words < 0x1_0000
    &&& 0 <= pointers < 0x1_0000
    &&& kind != ElementSize::InlineComposite ==> data_words == 0 && pointers == 0
    &&& span_words(kind, count, data_words + pointers) <= MAX_LIST_ELEMENTS
    &&& len + header_words(kind) + span_words(kind, count, data_words + pointers)
        <= MAX_SEGMENT_WORDS
}

/// The run of a list of the given shape allocated at the end of a message of
/// `len` words.
pub open spec fn allocated_run(
    len: int,
    kind: ElementSize,
    count: int,
    data_words: int,
    pointers: int,
) -> ListRun {
    ListRun { start: len + header_words(kind), count, kind, data_words, pointers }
}

/// The message after a zero-filled list of the given shape was allocated at
/// its end and slot `slot` was pointed at it.
pub open spec fn allocated_words(
    words: Seq<Word>,
    slot: int,
    kind: ElementSize,
    count: int,
    data_words: int,
    pointers: int,
) -> Seq<Word> {
    let span: int = span_words(kind, count, data_words + pointers);
    let offset: u64 = (words.len() - slot - 1) as u64;
    if kind == ElementSize::InlineComposite {
        words.update(slot, list_pointer(offset, CODE_INLINE_COMPOSITE, span as u64)) + seq![
            composite_tag(count as u64, data_words as u64, pointers as u64),
        ] + zeros(span)
    } else {
        words.update(slot, list_pointer(offset, kind.spec_code(), count as u64)) + zeros(span)
    }
}

/// The message after it took over `default_value`, whose first word locates
/// a list: the default is appended whole, so that every pointer inside it
/// locates in the copy what it located in the default, and slot `slot` is
/// pointed at the copy of that list.
pub open spec fn adopted_words(words: Seq<Word>, slot: int, default_value: Seq<Word>) -> Seq<Word> {
    let root: Word = default_value[0];
    let offset: int = words.len() + pointer_target(default_value, 0) - slot - 1;
    words.update(slot, list_pointer(offset as u64, list_code(root), list_count(root)))
        + default_value
}

/// The size that a list without elements is given: `size`, or nothing.
pub open spec fn size_or_zero(size: Option<StructSize>) -> StructSize {
    match size {
        Some(s) => s,
        None => StructSize { data: 0, pointers: 0 },
    }
}

/// The list that a builder opens on slot `slot`: the one the slot locates;
/// else the copy of the one that the first word of `default_value` locates,
/// as many words further on as the message had; else a list without elements.
pub open spec fn opened_run(
    words: Seq<Word>,
    slot: int,
    kind: ElementSize,
    size: Option<StructSize>,
    default_value: Seq<Word>,
) -> ListRun {
    match resolve_sized(words, slot, kind, size) {
        Some(run) => run,
        None => match resolve_sized(default_value, 0, kind, size) {
            Some(run) => run.shifted(words.len() as int),
            None => ListRun::empty(kind, size_or_zero(size)),
        },
    }
}

/// The message after a builder opened slot `slot`. It changes only where the
/// default is taken over.
pub open spec fn opened_words(
    words: Seq<Word>,
    slot: int,
    kind: ElementSize,
    size: Option<StructSize>,
    default_value: Seq<Word>,
) -> Seq<Word> {
    match resolve_sized(words, slot, kind, size) {
        Some(run) => words,
        None => match resolve_sized(default_value, 0, kind, size) {
            Some(run) => adopted_words(words, slot, default_value),
            None => words,
        },
    }
}

/// Whether a message of `len` words has a slot `slot` and room for a default
/// of `default_len` words.
pub open spec fn can_adopt(len: int, slot: int, default_len: int) -> bool {
    &&& 0 <= slot < len
    &&& len + default_len <= MAX_SEGMENT_WORDS
}

/// Whether opening slot `slot` takes the default over: the slot locates no
/// list of the kind asked for, and the first word of the default does.
pub open spec fn takes_default(
    words: Seq<Word>,
    slot: int,
    kind: ElementSize,
    size: Option<StructSize>,
    default_value: Seq<Word>,
) -> bool {
    resolve_sized(words, slot, kind, size).is_none() && resolve_sized(
        default_value,
        0,
        kind,
        size,
    ).is_some()
}

/// Whether a builder can open slot `slot`: the message has the slot, and has
/// room for the default where it is to take the default over.
pub open spec fn can_open(
    words: Seq<Word>,
    slot: int,
    kind: ElementSize,
    size: Option<StructSize>,
    default_value: Seq<Word>,
) -> bool {
    &&& 0 <= slot < words.len()
    &&& takes_default(words, slot, kind, size, default_value) ==> words.len()
        + default_value.len() <= MAX_SEGMENT_WORDS
}

/// The list that a builder opens has the encoding asked for, and lies inside
/// the message as it is afterwards.
pub proof fn lemma_opened_kind(
    words: Seq<Word>,
    slot: int,
    kind: ElementSize,
    size: Option<StructSize>,
    default_value: Seq<Word>,
)
    requires
        can_open(words, slot, kind, size, default_value),
    ensures
        opened_run(words, slot, kind, size, default_value).kind == kind,
        words.len() <= opened_words(words, slot, kind, size, default_value).len(),
        opened_run(words, slot, kind, size, default_value).fits(
            opened_words(words, slot, kind, size, default_value).len() as int,
        ),
{
    if resolve_list(words, slot, kind).is_some() {
        lemma_resolved_fits(words, slot, kind);
    }
    if resolve_list(default_value, 0, kind).is_some() {
        lemma_resolved_fits(default_value, 0, kind);
    }
}

impl PointerBuilder {
    /// Whether the slot holds no pointer.
    pub fn is_null(self, message: &Message) -> (r: bool)
        ensures
            r == (self.index >= message@.len() || message@[self.index as int] == 0),
    {
        self.index >= message.len() || message.word(self.index) == 0
    }

    /// Tells whether a list of the given shape can be allocated for the slot.
    fn has_room(
        self,
        message: &Message,
        kind: ElementSize,
        count: usize,
        data_words: u16,
        pointers: u16,
    ) -> (r: bool)
        ensures
            r == can_allocate(
                message@.len() as int,
                self.index as int,
                kind,
                count as int,
                data_words as int,
                pointers as int,
            ),
    {
        let len: usize = message.len();
        if self.index >= len || count > MAX_LIST_ELEMENTS || len > MAX_SEGMENT_WORDS {
            return false;
        }
        let stride: u64 = data_words as u64 + pointers as u64;
        let span: u64 = match kind {
            ElementSize::InlineComposite => {
                assert(count * stride <= 0x2000_0000 * 0x2_0000) by (nonlinear_arith)
                    requires
                        count <= 0x2000_0000,
                        stride <= 0x2_0000,
                ;
                count as u64 * stride
            },
            _ => {
                if data_words != 0 || pointers != 0 {
                    return false;
                }
                compute_span(kind, count, 0) as u64
            },
        };
        let header: u64 = match kind {
            ElementSize::InlineComposite => 1,
            _ => 0,
        };
        span <= MAX_LIST_ELEMENTS as u64 && len as u64 + header + span <= MAX_SEGMENT_WORDS as u64
    }

    /// Whether `init_list` can be called with these arguments.
    pub fn can_init_list(self, message: &Message, kind: ElementSize, count: usize) -> (r: bool)
        ensures
            r == can_allocate(message@.len() as int, self.index as int, kind, count as int, 0, 0),
    {
        self.has_room(message, kind, count, 0, 0)
    }

    /// Whether `init_struct_list` can be called with these arguments.
    pub fn can_init_struct_list(self, message: &Message, count: usize, size: StructSize) -> (r:
        bool)
        ensures
            r == can_allocate(
                message@.len() as int,
                self.index as int,
                ElementSize::InlineComposite,
                count as int,
                size.data as int,
                size.pointers as int,
            ),
    {
        self.has_room(message, ElementSize::InlineComposite, count, size.data, size.pointers)
    }

    /// Tells whether the slot can be opened with these arguments.
    fn has_room_to_open(
        self,
        message: &Message,
        kind: ElementSize,
        size: Option<StructSize>,
        default_value: &[Word],
    ) -> (r: bool)
        ensures
            r == can_open(message@, self.index as int, kind, size, default_value@),
    {
        let len: usize = message.len();
        if self.index >= len {
            return false;
        }
        if resolve_checked(message.as_words(), self.index, kind, size).is_some() {
            return true;
        }
        if resolve_checked(default_value, 0, kind, size).is_none() {
            return true;
        }
        len <= MAX_SEGMENT_WORDS && default_value.len() <= MAX_SEGMENT_WORDS - len
    }

    /// Whether `get_list` can be called with these arguments.
    pub fn can_get_list(self, message: &Message, kind: ElementSize, default_value: &[Word]) -> (r:
        bool)
        ensures
            r == can_open(message@, self.index as int, kind, None, default_value@),
    {
        self.has_room_to_open(message, kind, None, default_value)
    }

    /// Whether `get_struct_list` can be called with these arguments.
    pub fn can_get_struct_list(
        self,
        message: &Message,
        size: StructSize,
        default_value: &[Word],
    ) -> (r: bool)
        ensures
            r == can_open(
                message@,
                self.index as int,
                ElementSize::InlineComposite,
                Some(size),
                default_value@,
            ),
    {
        self.has_room_to_open(message, ElementSize::InlineComposite, Some(size), default_value)
    }

    /// Allocates a zero-filled list of the given shape and points the slot at it.
    fn allocate(
        self,
        message: &mut Message,
        kind: ElementSize,
        count: usize,
        data_words: u16,
        pointers: u16,
    ) -> (r: ListBuilder)
        requires
            can_allocate(
                old(message)@.len() as int,
                self.index as int,
                kind,
                count as int,
                data_words as int,
                pointers as int,
            ),
        ensures
            final(message)@ == allocated_words(
                old(message)@,
                self.index as int,
                kind,
                count as int,
                data_words as int,
                pointers as int,
            ),
            r.run() == allocated_run(
                old(message)@.len() as int,
                kind,
                count as int,
                data_words as int,
                pointers as int,
            ),
            final(message)@.len() == old(message)@.len() + header_words(kind) + r.run().span(),
            r.run().fits(final(message)@.len() as int),
            resolve_list(final(message)@, self.index as int, kind) == Some(r.run()),
    {
        proof {
            lemma_allocated_shape(
                old(message)@,
                self.index as int,
                kind,
                count as int,
                data_words as int,
                pointers as int,
            );
            lemma_allocated_resolves(
                old(message)@,
                self.index as int,
                kind,
                count as int,
                data_words as int,
                pointers as int,
            );
        }
        let len: usize = message.len();
        let span: usize = compute_span(kind, count, data_words as usize + pointers as usize);
        let offset: u64 = (len - self.index - 1) as u64;
        match kind {
            ElementSize::InlineComposite => {
                message.extend_zeroed(span + 1);
                message.set_word(
                    len,
                    composite_tag(count as u64, data_words as u64, pointers as u64),
                );
                message.set_word(
                    self.index,
                    list_pointer(offset, CODE_INLINE_COMPOSITE, span as u64),
                );
                ListBuilder::from_parts(len + 1, count, kind, data_words, pointers)
            },
            _ => {
                message.extend_zeroed(span);
                message.set_word(self.index, list_pointer(offset, kind.code(), count as u64));
                ListBuilder::from_parts(len, count, kind, 0, 0)
            },
        }
    }

    /// Allocates a zero-filled list of `count` elements of encoding `kind` and
    /// points the slot at it. What the slot located before stays where it is,
    /// out of reach.
    pub fn init_list(self, message: &mut Message, kind: ElementSize, count: usize) -> (r:
        ListBuilder)
        requires
            can_allocate(old(message)@.len() as int, self.index as int, kind, count as int, 0, 0),
        ensures
            final(message)@ == allocated_words(
                old(message)@,
                self.index as int,
                kind,
                count as int,
                0,
                0,
            ),
            r.run() == allocated_run(old(message)@.len() as int, kind, count as int, 0, 0),
            final(message)@.len() == old(message)@.len() + header_words(kind) + r.run().span(),
            r.run().fits(final(message)@.len() as int),
            resolve_list(final(message)@, self.index as int, kind) == Some(r.run()),
    {
        self.allocate(message, kind, count, 0, 0)
    }

    /// Allocates a zero-filled list of `count` inline structs of size `size`
    /// and points the slot at it.
    pub fn init_struct_list(self, message: &mut Message, count: usize, size: StructSize) -> (r:
        ListBuilder)
        requires
            can_allocate(
                old(message)@.len() as int,
                self.index as int,
                ElementSize::InlineComposite,
                count as int,
                size.data as int,
                size.pointers as int,
            ),
        ensures
            final(message)@ == allocated_words(
                old(message)@,
                self.index as int,
                ElementSize::InlineComposite,
                count as int,
                size.data as int,
                size.pointers as int,
            ),
            r.run() == allocated_run(
                old(message)@.len() as int,
                ElementSize::InlineComposite,
                count as int,
                size.data as int,
                size.pointers as int,
            ),
            final(message)@.len() == old(message)@.len() + 1 + r.run().span(),
            r.run().fits(final(message)@.len() as int),
            resolve_list(final(message)@, self.index as int, ElementSize::InlineComposite) == Some(
                r.run(),
            ),
    {
        self.allocate(message, ElementSize::InlineComposite, count, size.data, size.pointers)
    }

    /// Opens the list in the slot: resolves it, takes over the default where
    /// the slot locates no such list, or gives a list without elements.
    fn open(
        self,
        message: &mut Message,
        kind: ElementSize,
        size: Option<StructSize>,
        default_value: &[Word],
    ) -> (r: ListBuilder)
        requires
            can_open(old(message)@, self.index as int, kind, size, default_value@),
        ensures
            final(message)@ == opened_words(
                old(message)@,
                self.index as int,
                kind,
                size,
                default_value@,
            ),
            r.run() == opened_run(old(message)@, self.index as int, kind, size, default_value@),
            r.run().kind == kind,
            r.run().fits(final(message)@.len() as int),
            old(message)@.len() <= final(message)@.len(),
    {
        proof {
            lemma_opened_kind(old(message)@, self.index as int, kind, size, default_value@);
        }
        if let Some(list) = resolve_checked(message.as_words(), self.index, kind, size) {
            return list;
        }
        let source: ListBuilder = match resolve_checked(default_value, 0, kind, size) {
            Some(source) => source,
            None => {
                return ListBuilder::empty(
                    kind,
                    match size {
                        Some(s) => s,
                        None => StructSize { data: 0, pointers: 0 },
                    },
                );
            },
        };
        proof {
            lemma_resolved_fits(default_value@, 0, kind);
            lemma_field_bounds(default_value@[0]);
        }
        let shape: StructSize = source.struct_size();
        let len: usize = message.len();
        let root: Word = default_value[0];
        let header: usize = match kind {
            ElementSize::InlineComposite => 1,
            _ => 0,
        };
        let target: usize = len + (source.start() - header);
        let offset: u64 = (target - self.index - 1) as u64;
        message.extend_from(default_value);
        message.set_word(self.index, list_pointer(offset, list_code(root), list_count(root)));
        ListBuilder::from_parts(
            len + source.start(),
            source.size(),
            kind,
            shape.data,
            shape.pointers,
        )
    }

    /// Opens the list of encoding `kind` in the slot. Where the slot is null
    /// or locates no such list, and the first word of `default_value` locates
    /// one, the default is appended to the message and the slot pointed at
    /// the copy of that list. Where there is no such default either, the
    /// result is a list without elements and the message stays as it is.
    pub fn get_list(self, message: &mut Message, kind: ElementSize, default_value: &[Word]) -> (r:
        ListBuilder)
        requires
            can_open(old(message)@, self.index as int, kind, None, default_value@),
        ensures
            final(message)@ == opened_words(
                old(message)@,
                self.index as int,
                kind,
                None,
                default_value@,
            ),
            r.run() == opened_run(old(message)@, self.index as int, kind, None, default_value@),
            r.run().kind == kind,
            r.run().fits(final(message)@.len() as int),
            old(message)@.len() <= final(message)@.len(),
    {
        self.open(message, kind, None, default_value)
    }

    /// Opens the list of inline structs of size `size` in the slot, as
    /// `get_list` does; a list of structs of another size counts as absent.
    pub fn get_struct_list(
        self,
        message: &mut Message,
        size: StructSize,
        default_value: &[Word],
    ) -> (r: ListBuilder)
        requires
            can_open(
                old(message)@,
                self.index as int,
                ElementSize::InlineComposite,
                Some(size),
                default_value@,
            ),
        ensures
            final(message)@ == opened_words(
                old(message)@,
                self.index as int,
                ElementSize::InlineComposite,
                Some(size),
                default_value@,
            ),
            r.run() == opened_run(
                old(message)@,
                self.index as int,
                ElementSize::InlineComposite,
                Some(size),
                default_value@,
            ),
            r.run().kind == ElementSize::InlineComposite,
            r.run().fits(final(message)@.len() as int),
            old(message)@.len() <= final(message)@.len(),
    {
        self.open(message, ElementSize::InlineComposite, Some(size), default_value)
    }
}

} // verus!
