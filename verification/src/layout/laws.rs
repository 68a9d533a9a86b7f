//! What allocating, opening and writing do to a message, as seen by whoever
//! resolves a pointer afterwards.

use vstd::prelude::*;
use crate::common::Word;
use crate::layout::allocate::{
    adopted_words, allocated_run, allocated_words, can_adopt, can_allocate, can_open,
    opened_run, opened_words,
};
use crate::layout::element::ElementSize;
use crate::layout::resolve::{
    lemma_resolve_frame, lemma_resolved_fits, pointer_kept, pointer_target, read_run, read_source,
    resolve_list,
};
use crate::layout::run::{header_words, span_words, ListRun};
use crate::layout::wire::{
    composite_tag, lemma_composite_tag_fields, lemma_field_bounds, lemma_list_pointer_fields,
    list_code, list_count, list_pointer, CODE_INLINE_COMPOSITE,
};

verus! {

/// Allocating appends the list, rewrites the slot and touches nothing else;
/// the new elements are zero.
pub proof fn lemma_allocated_shape(
    words: Seq<Word>,
    slot: int,
    kind: ElementSize,
    count: int,
    data_words: int,
    pointers: int,
)
    requires
        can_allocate(words.len() as int, slot, kind, count, data_words, pointers),
    ensures
        ({
            let after = allocated_words(words, slot, kind, count, data_words, pointers);
            let run = allocated_run(words.len() as int, kind, count, data_words, pointers);
            &&& after.len() == words.len() + header_words(kind) + run.span()
            &&& run.fits(after.len() as int)
            &&& run.start + run.span() == after.len()
            &&& forall|k: int| 0 <= k < words.len() && k != slot ==> after[k] == words[k]
            &&& forall|k: int| run.start <= k < after.len() ==> after[k] == 0
        }),
{
    let span: int = span_words(kind, count, data_words + pointers);
    assert(span >= 0) by (nonlinear_arith)
        requires
            span == span_words(kind, count, data_words + pointers),
            count >= 0,
            data_words + pointers >= 0,
    ;
}

/// The slot resolves to the list that was allocated for it.
pub proof fn lemma_allocated_resolves(
    words: Seq<Word>,
    slot: int,
    kind: ElementSize,
    count: int,
    data_words: int,
    pointers: int,
)
    requires
        can_allocate(words.len() as int, slot, kind, count, data_words, pointers),
    ensures
        resolve_list(allocated_words(words, slot, kind, count, data_words, pointers), slot, kind)
            == Some(allocated_run(words.len() as int, kind, count, data_words, pointers)),
{
    let after = allocated_words(words, slot, kind, count, data_words, pointers);
    let span: int = span_words(kind, count, data_words + pointers);
    let offset: u64 = (words.len() - slot - 1) as u64;
    lemma_allocated_shape(words, slot, kind, count, data_words, pointers);
    if kind == ElementSize::InlineComposite {
        lemma_list_pointer_fields(offset, CODE_INLINE_COMPOSITE, span as u64);
        lemma_composite_tag_fields(count as u64, data_words as u64, pointers as u64);
        assert(after[slot] == list_pointer(offset, CODE_INLINE_COMPOSITE, span as u64));
        assert(pointer_target(after, slot) == words.len());
        assert(after[words.len() as int] == composite_tag(
            count as u64,
            data_words as u64,
            pointers as u64,
        ));
    } else {
        lemma_list_pointer_fields(offset, kind.spec_code(), count as u64);
        assert(after[slot] == list_pointer(offset, kind.spec_code(), count as u64));
        assert(pointer_target(after, slot) == words.len());
    }
}

/// Writing a scalar element changes no word outside the list.
pub proof fn lemma_write_stays_inside(
    words: Seq<Word>,
    run: ListRun,
    index: int,
    value: u64,
    k: int,
)
    requires
        run.kind.is_data(),
        run.fits(words.len() as int),
        0 <= index < run.count,
        !(run.start <= k < run.start + run.span()),
    ensures
        run.with_raw(words, index, value).len() == words.len(),
        0 <= k < words.len() ==> run.with_raw(words, index, value)[k] == words[k],
{
    run.lemma_scalar_place(index);
}

/// Writing a scalar element of one list leaves the pointer to a list that
/// resolves, and its tag word, as they were, unless they lie inside the list
/// that is written.
pub proof fn lemma_write_keeps_pointer(
    words: Seq<Word>,
    run: ListRun,
    index: int,
    value: u64,
    slot: int,
    kind: ElementSize,
)
    requires
        run.kind.is_data(),
        run.fits(words.len() as int),
        0 <= index < run.count,
        resolve_list(words, slot, kind).is_some(),
        !(run.start <= slot < run.start + run.span()),
        kind == ElementSize::InlineComposite ==> !(run.start <= pointer_target(words, slot)
            < run.start + run.span()),
    ensures
        pointer_kept(words, run.with_raw(words, index, value), slot, kind),
        resolve_list(run.with_raw(words, index, value), slot, kind) == resolve_list(
            words,
            slot,
            kind,
        ),
{
    lemma_write_stays_inside(words, run, index, value, slot);
    if kind == ElementSize::InlineComposite {
        lemma_write_stays_inside(words, run, index, value, pointer_target(words, slot));
    }
    lemma_resolve_frame(words, run.with_raw(words, index, value), slot, kind);
}

/// Resolving does not depend on where in a buffer a fragment lies: a pointer
/// of a fragment that was copied into a buffer locates in the copy what it
/// located in the fragment.
pub proof fn lemma_resolve_shifted(
    source: Seq<Word>,
    words: Seq<Word>,
    by: int,
    slot: int,
    kind: ElementSize,
)
    requires
        0 <= by,
        by + source.len() <= words.len(),
        forall|j: int| 0 <= j < source.len() ==> #[trigger] words[by + j] == source[j],
        resolve_list(source, slot, kind).is_some(),
    ensures
        resolve_list(words, by + slot, kind) == Some(
            resolve_list(source, slot, kind).unwrap().shifted(by),
        ),
{
    lemma_resolved_fits(source, slot, kind);
    assert(words[by + slot] == source[slot]);
    assert(pointer_target(words, by + slot) == by + pointer_target(source, slot));
    if kind == ElementSize::InlineComposite {
        assert(words[by + pointer_target(source, slot)] == source[pointer_target(source, slot)]);
    }
}

/// A scalar of a list in a fragment that was copied into a buffer reads in
/// the copy as it read in the fragment.
pub proof fn lemma_raw_shifted(
    source: Seq<Word>,
    words: Seq<Word>,
    by: int,
    run: ListRun,
    index: int,
)
    requires
        forall|j: int| 0 <= j < source.len() ==> #[trigger] words[by + j] == source[j],
        run.kind.is_data(),
        run.fits(source.len() as int),
        0 <= index < run.count,
    ensures
        run.shifted(by).raw(words, index) == run.raw(source, index),
{
    run.lemma_scalar_place(index);
    run.shifted(by).lemma_scalar_place(index);
    assert(run.shifted(by).word_of(index) == by + run.word_of(index));
    assert(run.shifted(by).shift_of(index) == run.shift_of(index));
    assert(words[by + run.word_of(index)] == source[run.word_of(index)]);
}

/// A message that took over a default keeps its words but for the slot,
/// holds the default behind them, and resolves the slot to the copy of the
/// default's list.
pub proof fn lemma_adopted_shape(
    words: Seq<Word>,
    slot: int,
    kind: ElementSize,
    default_value: Seq<Word>,
)
    requires
        can_adopt(words.len() as int, slot, default_value.len() as int),
        resolve_list(default_value, 0, kind).is_some(),
    ensures
        ({
            let from = resolve_list(default_value, 0, kind).unwrap();
            let after = adopted_words(words, slot, default_value);
            &&& after.len() == words.len() + default_value.len()
            &&& forall|k: int| 0 <= k < words.len() && k != slot ==> after[k] == words[k]
            &&& forall|j: int|
                0 <= j < default_value.len() ==> #[trigger] after[words.len() + j]
                    == default_value[j]
            &&& from.shifted(words.len() as int).fits(after.len() as int)
            &&& resolve_list(after, slot, kind) == Some(from.shifted(words.len() as int))
        }),
{
    let from = resolve_list(default_value, 0, kind).unwrap();
    let after = adopted_words(words, slot, default_value);
    let root: Word = default_value[0];
    let target: int = pointer_target(default_value, 0);
    let offset: int = words.len() + target - slot - 1;
    lemma_resolved_fits(default_value, 0, kind);
    lemma_field_bounds(root);
    lemma_list_pointer_fields(offset as u64, list_code(root), list_count(root));
    assert(after[slot] == list_pointer(offset as u64, list_code(root), list_count(root)));
    assert(pointer_target(after, slot) == words.len() + target);
    assert(list_count(after[slot]) == list_count(root));
    if kind == ElementSize::InlineComposite {
        assert(after[words.len() + target] == default_value[target]);
    }
}

/// The scalars of a list that was taken over from a default are those of the
/// default.
pub proof fn lemma_adopted_scalars(
    words: Seq<Word>,
    slot: int,
    kind: ElementSize,
    default_value: Seq<Word>,
    index: int,
)
    requires
        kind.is_data(),
        can_adopt(words.len() as int, slot, default_value.len() as int),
        resolve_list(default_value, 0, kind).is_some(),
        0 <= index < resolve_list(default_value, 0, kind).unwrap().count,
    ensures
        ({
            let from = resolve_list(default_value, 0, kind).unwrap();
            from.shifted(words.len() as int).raw(
                adopted_words(words, slot, default_value),
                index,
            ) == from.raw(default_value, index)
        }),
{
    let from = resolve_list(default_value, 0, kind).unwrap();
    lemma_resolved_fits(default_value, 0, kind);
    lemma_adopted_shape(words, slot, kind, default_value);
    lemma_raw_shifted(
        default_value,
        adopted_words(words, slot, default_value),
        words.len() as int,
        from,
        index,
    );
}

/// A pointer inside a default that was taken over locates in the message
/// what it located in the default.
pub proof fn lemma_adopted_nested(
    words: Seq<Word>,
    slot: int,
    kind: ElementSize,
    default_value: Seq<Word>,
    inner: int,
    inner_kind: ElementSize,
)
    requires
        can_adopt(words.len() as int, slot, default_value.len() as int),
        resolve_list(default_value, 0, kind).is_some(),
        resolve_list(default_value, inner, inner_kind).is_some(),
    ensures
        resolve_list(adopted_words(words, slot, default_value), words.len() + inner, inner_kind)
            == Some(
            resolve_list(default_value, inner, inner_kind).unwrap().shifted(words.len() as int),
        ),
{
    lemma_adopted_shape(words, slot, kind, default_value);
    lemma_resolve_shifted(
        default_value,
        adopted_words(words, slot, default_value),
        words.len() as int,
        inner,
        inner_kind,
    );
}

/// A reader of the message as a builder left it sees the list that the
/// builder opened, where the builder was held to no struct size.
pub proof fn lemma_reader_sees_opened(
    words: Seq<Word>,
    slot: int,
    kind: ElementSize,
    default_value: Seq<Word>,
)
    requires
        can_open(words, slot, kind, None, default_value),
    ensures
        read_run(
            opened_words(words, slot, kind, None, default_value),
            slot,
            kind,
            default_value,
        ) == opened_run(words, slot, kind, None, default_value),
        resolve_list(words, slot, kind).is_some() || resolve_list(default_value, 0, kind).is_some()
            ==> read_source(
            opened_words(words, slot, kind, None, default_value),
            slot,
            kind,
            default_value,
        ) == opened_words(words, slot, kind, None, default_value),
{
    if resolve_list(words, slot, kind).is_none() && resolve_list(default_value, 0, kind).is_some() {
        lemma_adopted_shape(words, slot, kind, default_value);
    }
}

/// Without a default, opening a slot for building changes nothing, and yields
/// the list that a reader of the same slot sees.
pub proof fn lemma_opened_without_default(words: Seq<Word>, slot: int, kind: ElementSize)
    ensures
        opened_words(words, slot, kind, None, Seq::empty()) == words,
        opened_run(words, slot, kind, None, Seq::empty()) == read_run(
            words,
            slot,
            kind,
            Seq::empty(),
        ),
        read_source(words, slot, kind, Seq::empty()) == words,
{
}

/// A null or missing slot opens, without a default, as a list without
/// elements.
pub proof fn lemma_null_reads_empty(words: Seq<Word>, slot: int, kind: ElementSize)
    requires
        !(0 <= slot < words.len()) || words[slot] == 0,
    ensures
        read_run(words, slot, kind, Seq::empty()).count == 0,
        read_run(words, slot, kind, Seq::empty()).kind == kind,
        opened_run(words, slot, kind, None, Seq::empty()).count == 0,
{
}

/// What a reader sees of a list depends on the pointer word, the tag word and
/// the words of the list alone: a message that changed elsewhere, or grew,
/// reads the same.
pub proof fn lemma_read_frame(words: Seq<Word>, later: Seq<Word>, slot: int, kind: ElementSize)
    requires
        resolve_list(words, slot, kind).is_some(),
        pointer_kept(words, later, slot, kind),
    ensures
        forall|default_value: Seq<Word>|
            read_run(later, slot, kind, default_value) == #[trigger] read_run(
                words,
                slot,
                kind,
                default_value,
            ),
        forall|default_value: Seq<Word>| #[trigger]
            read_source(later, slot, kind, default_value) == later,
{
    lemma_resolve_frame(words, later, slot, kind);
}

} // verus!
