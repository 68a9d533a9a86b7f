//! Following a list pointer.

use vstd::prelude::*;
use crate::common::{Word, MAX_LIST_ELEMENTS};
use crate::layout::builder::ListBuilder;
use crate::layout::element::{ElementSize, StructSize};
use crate::layout::run::{header_words, span_words, ListRun};
use crate::layout::wire::{
    list_code, list_count, offset_field, pointer_kind, pointer_offset, struct_data,
    struct_pointers, KIND_LIST, KIND_STRUCT,
};

verus! {

/// Word index that the pointer in slot `slot` points at.
pub open spec fn pointer_target(words: Seq<Word>, slot: int) -> int {
    slot + 1 + pointer_offset(words[slot])
}

/// The list that the pointer in slot `slot` of `words` locates, read as a list
/// of encoding `expected`.
///
/// `None` where the slot lies outside `words`, is null, holds something other
/// than a list pointer of that encoding, or points at a run that does not lie
/// inside `words` or declares more elements than a list may have. The pointer
/// of a list of inline structs counts the words of the elements; the tag word
/// in front of them gives their number and size.
pub open spec fn resolve_list(words: Seq<Word>, slot: int, expected: ElementSize) -> Option<
    ListRun,
> {
    if !(0 <= slot < words.len()) {
        None
    } else {
        let word: Word = words[slot];
        let target: int = pointer_target(words, slot);
        let count: int = list_count(word) as int;
        if word == 0 || pointer_kind(word) != KIND_LIST || list_code(word) != expected.spec_code()
            || target < 0 || target > words.len() {
            None
        } else if expected == ElementSize::InlineComposite {
            if target + 1 + count > words.len() {
                None
            } else {
                let tag: Word = words[target];
                let elements: int = offset_field(tag) as int;
                let data: int = struct_data(tag) as int;
                let pointers: int = struct_pointers(tag) as int;
                if pointer_kind(tag) != KIND_STRUCT || elements > MAX_LIST_ELEMENTS || elements * (
                    data + pointers) > count {
                    None
                } else {
                    Some(
                        ListRun {
                            start: target + 1,
                            count: elements,
                            kind: expected,
                            data_words: data,
                            pointers,
                        },
                    )
                }
            }
        } else if target + span_words(expected, count, 0) > words.len() {
            None
        } else {
            Some(ListRun { start: target, count, kind: expected, data_words: 0, pointers: 0 })
        }
    }
}

/// The list that the pointer in slot `slot` locates, where `size` is `None`;
/// where it gives a size, that list only if its elements are inline structs of
/// exactly that size.
pub open spec fn resolve_sized(
    words: Seq<Word>,
    slot: int,
    expected: ElementSize,
    size: Option<StructSize>,
) -> Option<ListRun> {
    match resolve_list(words, slot, expected) {
        Some(run) => match size {
            Some(s) => if run.data_words == s.data && run.pointers == s.pointers {
                Some(run)
            } else {
                None
            },
            None => Some(run),
        },
        None => None,
    }
}

/// The list that a reader opens on slot `slot`: the one the slot locates; else
/// the one that the first word of `default_value` locates; else a list without
/// elements.
pub open spec fn read_run(
    words: Seq<Word>,
    slot: int,
    expected: ElementSize,
    default_value: Seq<Word>,
) -> ListRun {
    match resolve_list(words, slot, expected) {
        Some(run) => run,
        None => match resolve_list(default_value, 0, expected) {
            Some(run) => run,
            None => ListRun::empty(expected, StructSize { data: 0, pointers: 0 }),
        },
    }
}

/// The buffer in which the list that a reader opens lies: the default where
/// the default is substituted, else the buffer of the slot.
pub open spec fn read_source(
    words: Seq<Word>,
    slot: int,
    expected: ElementSize,
    default_value: Seq<Word>,
) -> Seq<Word> {
    if resolve_list(words, slot, expected).is_none() && resolve_list(
        default_value,
        0,
        expected,
    ).is_some() {
        default_value
    } else {
        words
    }
}

/// A list that resolves lies inside the buffer and has the encoding asked for.
pub proof fn lemma_resolved_fits(words: Seq<Word>, slot: int, expected: ElementSize)
    requires
        resolve_list(words, slot, expected).is_some(),
    ensures
        resolve_list(words, slot, expected).unwrap().fits(words.len() as int),
        resolve_list(words, slot, expected).unwrap().kind == expected,
        resolve_list(words, slot, expected).unwrap().count <= MAX_LIST_ELEMENTS,
        resolve_list(words, slot, expected).unwrap().data_words < 0x1_0000,
        resolve_list(words, slot, expected).unwrap().pointers < 0x1_0000,
        expected != ElementSize::InlineComposite ==> resolve_list(
            words,
            slot,
            expected,
        ).unwrap().stride() == 0,
        resolve_list(words, slot, expected).unwrap().span() <= MAX_LIST_ELEMENTS,
        resolve_list(words, slot, expected).unwrap().start == pointer_target(words, slot)
            + header_words(expected),
        0 <= pointer_target(words, slot) <= words.len(),
{
    let word: Word = words[slot];
    crate::layout::wire::lemma_field_bounds(word);
    if expected == ElementSize::InlineComposite {
        crate::layout::wire::lemma_field_bounds(words[pointer_target(words, slot)]);
    }
}

/// Whether `later` is a buffer at least as long as `words` that holds the
/// same pointer word in slot `slot` and, for a list of inline structs, the
/// same tag word where the pointer points.
pub open spec fn pointer_kept(
    words: Seq<Word>,
    later: Seq<Word>,
    slot: int,
    expected: ElementSize,
) -> bool {
    &&& later.len() >= words.len()
    &&& later[slot] == words[slot]
    &&& expected == ElementSize::InlineComposite ==> later[pointer_target(words, slot)]
        == words[pointer_target(words, slot)]
}

/// What resolving sees of a buffer: the pointer word, the tag word for a list
/// of inline structs, and that the list lies inside.
pub proof fn lemma_resolve_frame(
    words: Seq<Word>,
    other: Seq<Word>,
    slot: int,
    expected: ElementSize,
)
    requires
        resolve_list(words, slot, expected).is_some(),
        pointer_kept(words, other, slot, expected),
    ensures
        resolve_list(other, slot, expected) == resolve_list(words, slot, expected),
{
}

/// Follows the pointer in slot `slot` of `words`.
pub fn resolve(words: &[Word], slot: usize, expected: ElementSize) -> (r: Option<ListBuilder>)
    ensures
        match r {
            Some(list) => resolve_list(words@, slot as int, expected) == Some(list.run()),
            None => resolve_list(words@, slot as int, expected).is_none(),
        },
{
    let len: usize = words.len();
    if slot >= len {
        return None;
    }
    let word: Word = words[slot];
    if word == 0 || pointer_kind(word) != KIND_LIST || list_code(word) != expected.code() {
        return None;
    }
    let raw: u64 = offset_field(word);
    let after: usize = slot + 1;
    let target: usize;
    if raw < 0x2000_0000 {
        if raw as usize > len - after {
            return None;
        }
        target = after + raw as usize;
    } else {
        let back: u64 = 0x4000_0000 - raw;
        if back as usize > after {
            return None;
        }
        target = after - back as usize;
    }
    assert(target == pointer_target(words@, slot as int));
    let count: u64 = list_count(word);
    match expected {
        ElementSize::InlineComposite => {
            if target >= len || count as usize > len - target - 1 {
                return None;
            }
            let tag: Word = words[target];
            let elements: u64 = offset_field(tag);
            let data: u64 = struct_data(tag);
            let pointers: u64 = struct_pointers(tag);
            if pointer_kind(tag) != KIND_STRUCT || elements > 0x1fff_ffff {
                return None;
            }
            assert(elements * (data + pointers) <= 0x4000_0000 * 0x2_0000) by (nonlinear_arith)
                requires
                    elements < 0x4000_0000,
                    data + pointers < 0x2_0000,
            ;
            if elements * (data + pointers) > count {
                return None;
            }
            Some(
                ListBuilder::from_parts(
                    target + 1,
                    elements as usize,
                    expected,
                    data as u16,
                    pointers as u16,
                ),
            )
        },
        _ => {
            let span: u64 = match expected {
                ElementSize::Void => 0,
                ElementSize::Bit => (count + 63) / 64,
                ElementSize::Byte => (count + 7) / 8,
                ElementSize::TwoBytes => (count + 3) / 4,
                ElementSize::FourBytes => (count + 1) / 2,
                _ => count,
            };
            assert(span == span_words(expected, count as int, 0));
            if span as usize > len - target {
                return None;
            }
            Some(ListBuilder::from_parts(target, count as usize, expected, 0, 0))
        },
    }
}

/// Follows the pointer in slot `slot` of `words` and holds what it finds to
/// `size`, where one is given.
pub fn resolve_checked(
    words: &[Word],
    slot: usize,
    expected: ElementSize,
    size: Option<StructSize>,
) -> (r: Option<ListBuilder>)
    ensures
        match r {
            Some(list) => resolve_sized(words@, slot as int, expected, size) == Some(list.run()),
            None => resolve_sized(words@, slot as int, expected, size).is_none(),
        },
{
    match resolve(words, slot, expected) {
        Some(list) => match size {
            Some(s) => {
                let found: StructSize = list.struct_size();
                if found.data == s.data && found.pointers == s.pointers {
                    Some(list)
                } else {
                    None
                }
            },
            None => Some(list),
        },
        None => None,
    }
}

} // verus!
