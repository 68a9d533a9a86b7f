use capnp_list::layout::{ElementSize, ListBuilder, Message, PointerReader, StructSize};
use capnp_list::list::primitive_list::{Builder, Reader};
use capnp_list::list::{FromPointerBuilder, FromPointerReader};

#[test]
fn pointer_with_a_negative_offset_resolves_backwards() {
    let words = [99u64, (0x3fff_fffeu64 << 2) | 1 | (5u64 << 32) | (1u64 << 35)];
    let reader = Reader::<u64>::get_from_pointer(&PointerReader::new(&words, 1), &[]);
    assert_eq!(reader.size(), 1);
    assert_eq!(reader.index(0), 99);
    let too_far = [99u64, (0x3fff_fffdu64 << 2) | 1 | (5u64 << 32) | (1u64 << 35)];
    let reader = Reader::<u64>::get_from_pointer(&PointerReader::new(&too_far, 1), &[]);
    assert_eq!(reader.size(), 0);
}

#[test]
fn pointer_past_the_end_of_the_buffer_is_absent() {
    let overrun = [1 | (5u64 << 32) | (3u64 << 35), 1, 2];
    let reader = Reader::<u64>::get_from_pointer(&PointerReader::get_root(&overrun), &[]);
    assert_eq!(reader.size(), 0);
    let exact = [1 | (5u64 << 32) | (2u64 << 35), 1, 2];
    let reader = Reader::<u64>::get_from_pointer(&PointerReader::get_root(&exact), &[]);
    assert_eq!(reader.size(), 2);
    assert_eq!(reader.index(1), 2);
    let beyond = [(5u64 << 2) | 1 | (5u64 << 32) | (1u64 << 35), 1, 2];
    let reader = Reader::<u64>::get_from_pointer(&PointerReader::get_root(&beyond), &[]);
    assert_eq!(reader.size(), 0);
}

#[test]
fn pointers_of_other_kinds_are_absent() {
    let to_struct = [(1u64 << 32), 5];
    let reader = Reader::<u64>::get_from_pointer(&PointerReader::get_root(&to_struct), &[]);
    assert_eq!(reader.size(), 0);
    let far = [2 | (5u64 << 32) | (1u64 << 35), 5];
    let reader = Reader::<u64>::get_from_pointer(&PointerReader::get_root(&far), &[]);
    assert_eq!(reader.size(), 0);
    let other = [3 | (5u64 << 32) | (1u64 << 35), 5];
    let reader = Reader::<u64>::get_from_pointer(&PointerReader::get_root(&other), &[]);
    assert_eq!(reader.size(), 0);
}

#[test]
fn slot_outside_the_buffer_reads_as_null() {
    let words = [1 | (5u64 << 32) | (1u64 << 35), 5];
    let slot = PointerReader::new(&words, 7);
    assert!(slot.is_null());
    assert_eq!(Reader::<u64>::get_from_pointer(&slot, &[]).size(), 0);
    assert!(!PointerReader::get_root(&words).is_null());
}

#[test]
fn reader_substitutes_the_default_for_a_null_slot() {
    let default_value = [1 | (2u64 << 32) | (3u64 << 35), 0x0009_0807];
    let message = Message::new();
    let reader = Reader::<u8>::get_from_pointer(
        &PointerReader::get_root(message.as_words()),
        &default_value,
    );
    assert_eq!(reader.size(), 3);
    assert_eq!(reader.index(0), 7);
    assert_eq!(reader.index(1), 8);
    assert_eq!(reader.index(2), 9);
}

#[test]
fn reader_prefers_the_list_in_the_message() {
    let default_value = [1 | (2u64 << 32) | (3u64 << 35), 0x0009_0807];
    let mut message = Message::new();
    let root = message.root();
    let list = Builder::<u8>::init_pointer(root, &mut message, 1);
    list.set(&mut message, 0, 64);
    let reader = Reader::<u8>::get_from_pointer(
        &PointerReader::get_root(message.as_words()),
        &default_value,
    );
    assert_eq!(reader.size(), 1);
    assert_eq!(reader.index(0), 64);
}

#[test]
fn reader_ignores_a_default_of_another_encoding() {
    let default_value = [1 | (2u64 << 32) | (3u64 << 35), 0x0009_0807];
    let message = Message::new();
    let reader = Reader::<u32>::get_from_pointer(
        &PointerReader::get_root(message.as_words()),
        &default_value,
    );
    assert_eq!(reader.size(), 0);
    let null_default = [0u64, 0x0009_0807];
    let reader = Reader::<u8>::get_from_pointer(
        &PointerReader::get_root(message.as_words()),
        &null_default,
    );
    assert_eq!(reader.size(), 0);
}

#[test]
fn builder_copies_the_default_into_the_message() {
    let default_value = [1 | (2u64 << 32) | (3u64 << 35), 0x0009_0807];
    let mut message = Message::new();
    let root = message.root();
    let list = Builder::<u8>::get_from_pointer(root, &mut message, &default_value);
    assert_eq!(list.size(), 3);
    assert_eq!(
        message.as_words(),
        &[(1u64 << 2) | 1 | (2u64 << 32) | (3u64 << 35), default_value[0], 0x0009_0807][..]
    );
    assert_eq!(list.index(&message, 0), 7);
    assert_eq!(list.index(&message, 2), 9);
    list.set(&mut message, 0, 1);
    assert_eq!(message.as_words()[2], 0x0009_0801);
    assert_eq!(default_value[1], 0x0009_0807);
    let again = Builder::<u8>::get_from_pointer(root, &mut message, &default_value);
    assert_eq!(again.index(&message, 0), 1);
    assert_eq!(message.len(), 3);
    let reader = Reader::<u8>::get_from_pointer(&PointerReader::get_root(message.as_words()), &[]);
    assert_eq!(reader.size(), 3);
    assert_eq!(reader.index(0), 1);
    assert_eq!(reader.index(1), 8);
}

#[test]
fn builder_replaces_a_list_of_another_encoding_by_the_default() {
    let default_value = [1 | (5u64 << 32) | (2u64 << 35), 11, 12];
    let mut message = Message::new();
    let root = message.root();
    let bytes = Builder::<u8>::init_pointer(root, &mut message, 8);
    bytes.set(&mut message, 0, 1);
    let list = Builder::<u64>::get_from_pointer(root, &mut message, &default_value);
    assert_eq!(list.size(), 2);
    assert_eq!(list.index(&message, 0), 11);
    assert_eq!(list.index(&message, 1), 12);
    assert_eq!(
        message.as_words(),
        &[(2u64 << 2) | 1 | (5u64 << 32) | (2u64 << 35), 1, default_value[0], 11, 12][..]
    );
}

#[test]
fn default_may_lie_anywhere_behind_its_pointer() {
    let default_value = [(2u64 << 2) | 1 | (4u64 << 32) | (3u64 << 35), 0xdead, 0xbeef, 0x0000_0002_0000_0001, 3];
    let mut message = Message::new();
    let root = message.root();
    let list = Builder::<u32>::get_from_pointer(root, &mut message, &default_value);
    assert_eq!(list.size(), 3);
    assert_eq!(
        message.as_words(),
        &[
            (3u64 << 2) | 1 | (4u64 << 32) | (3u64 << 35),
            default_value[0],
            0xdead,
            0xbeef,
            0x0000_0002_0000_0001,
            3
        ][..]
    );
    let reader = Reader::<u32>::get_from_pointer(&PointerReader::get_root(message.as_words()), &[]);
    assert_eq!(reader.index(0), 1);
    assert_eq!(reader.index(1), 2);
    assert_eq!(reader.index(2), 3);
}

#[test]
fn message_words_can_be_handed_on_and_taken_up() {
    let mut message = Message::new();
    let root = message.root();
    let list = Builder::<u16>::init_pointer(root, &mut message, 2);
    list.set(&mut message, 1, 7);
    let words = message.into_words();
    assert_eq!(words, vec![1 | (3u64 << 32) | (2u64 << 35), 0x0007_0000]);
    let mut message = Message::from_words(words);
    assert_eq!(message.word(1), 0x0007_0000);
    let root = message.root();
    let list = Builder::<u16>::get_from_pointer(root, &mut message, &[]);
    assert_eq!(list.index(&message, 1), 7);
    message.set_word(1, 0x0008_0000);
    assert_eq!(list.index(&message, 1), 8);
    message.extend_zeroed(2);
    assert_eq!(message.len(), 4);
}

#[test]
fn untyped_lists_report_their_shape() {
    let mut message = Message::new();
    let root = message.root();
    let bits = root.init_list(&mut message, ElementSize::Bit, 65);
    assert_eq!(bits.size(), 65);
    assert_eq!(bits.span(), 2);
    assert_eq!(bits.start(), 1);
    assert_eq!(bits.element_size(), ElementSize::Bit);
    bits.set::<bool>(&mut message, 64, true);
    assert!(bits.get::<bool>(&message, 64));
    assert!(!bits.get::<bool>(&message, 63));
    let view = root.get_list(&mut message, ElementSize::Bit, &[]).as_reader(&message);
    assert_eq!(view.size(), 65);
    assert_eq!(view.element_size(), ElementSize::Bit);
    assert!(view.get::<bool>(64));
    let void = root.init_list(&mut message, ElementSize::Void, 1000);
    assert_eq!(void.span(), 0);
    assert_eq!(void.size(), 1000);
    let empty = ListBuilder::empty(ElementSize::Byte, StructSize { data: 0, pointers: 0 });
    assert_eq!(empty.size(), 0);
    assert!(empty.is_within(&Message::new()));
}

#[test]
fn element_sizes_have_their_codes_and_widths() {
    let kinds = [
        (ElementSize::Void, 0u64, 0u64, 1u64, 0u64),
        (ElementSize::Bit, 1, 1, 64, 1),
        (ElementSize::Byte, 2, 8, 8, 0xff),
        (ElementSize::TwoBytes, 3, 16, 4, 0xffff),
        (ElementSize::FourBytes, 4, 32, 2, 0xffff_ffff),
        (ElementSize::EightBytes, 5, 64, 1, u64::MAX),
        (ElementSize::Pointer, 6, 0, 1, 0),
        (ElementSize::InlineComposite, 7, 0, 1, 0),
    ];
    for (kind, code, bits, per_word, mask) in kinds.iter() {
        assert_eq!(kind.code(), *code);
        assert_eq!(kind.data_bits(), *bits);
        assert_eq!(kind.per_word(), *per_word);
        assert_eq!(kind.mask(), *mask);
    }
    assert_eq!(StructSize { data: 3, pointers: 4 }.total(), 7);
}
