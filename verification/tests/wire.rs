use capnp_list::layout::bits::{extract_field, insert_field};
use capnp_list::layout::resolve::{resolve, resolve_checked};
use capnp_list::layout::run::compute_span;
use capnp_list::layout::wire::{
    composite_tag, list_code, list_count, list_pointer, offset_field, pointer_kind, struct_data,
    struct_pointers,
};
use capnp_list::layout::{ElementSize, Message, StructSize};

#[test]
fn list_pointer_fields_sit_where_the_format_puts_them() {
    let word = list_pointer(5, 4, 9);
    assert_eq!(word, (5u64 << 2) | 1 | (4u64 << 32) | (9u64 << 35));
    assert_eq!(word, 0x0000_004c_0000_0015);
    assert_eq!(pointer_kind(word), 1);
    assert_eq!(offset_field(word), 5);
    assert_eq!(list_code(word), 4);
    assert_eq!(list_count(word), 9);
    let largest = list_pointer(0x1fff_ffff, 7, 0x1fff_ffff);
    assert_eq!(largest, 0xffff_ffff_7fff_fffd);
    assert_eq!(offset_field(largest), 0x1fff_ffff);
    assert_eq!(list_code(largest), 7);
    assert_eq!(list_count(largest), 0x1fff_ffff);
}

#[test]
fn composite_tag_fields_sit_where_the_format_puts_them() {
    let tag = composite_tag(3, 2, 1);
    assert_eq!(tag, 0x0001_0002_0000_000c);
    assert_eq!(pointer_kind(tag), 0);
    assert_eq!(offset_field(tag), 3);
    assert_eq!(struct_data(tag), 2);
    assert_eq!(struct_pointers(tag), 1);
    let largest = composite_tag(0x3fff_ffff, 0xffff, 0xffff);
    assert_eq!(largest, 0xffff_ffff_ffff_fffc);
    assert_eq!(struct_data(largest), 0xffff);
    assert_eq!(struct_pointers(largest), 0xffff);
}

#[test]
fn fields_of_a_word_are_extracted_and_inserted() {
    let word = 0x1122_3344_5566_7788u64;
    assert_eq!(extract_field(word, 0, 0xff), 0x88);
    assert_eq!(extract_field(word, 8, 0xff), 0x77);
    assert_eq!(extract_field(word, 48, 0xffff), 0x1122);
    assert_eq!(extract_field(word, 32, 0xffff_ffff), 0x1122_3344);
    assert_eq!(extract_field(word, 3, 1), 1);
    assert_eq!(extract_field(word, 0, u64::MAX), word);
    assert_eq!(insert_field(word, 8, 0xff, 0xab), 0x1122_3344_5566_ab88);
    assert_eq!(insert_field(word, 16, 0xffff, 0x1_0001), 0x1122_3344_0001_7788);
    assert_eq!(insert_field(word, 63, 1, 1), 0x9122_3344_5566_7788);
    assert_eq!(insert_field(word, 0, u64::MAX, 7), 7);
}

#[test]
fn span_rounds_up_to_whole_words() {
    assert_eq!(compute_span(ElementSize::Void, 100, 0), 0);
    assert_eq!(compute_span(ElementSize::Bit, 0, 0), 0);
    assert_eq!(compute_span(ElementSize::Bit, 1, 0), 1);
    assert_eq!(compute_span(ElementSize::Bit, 64, 0), 1);
    assert_eq!(compute_span(ElementSize::Bit, 65, 0), 2);
    assert_eq!(compute_span(ElementSize::Byte, 8, 0), 1);
    assert_eq!(compute_span(ElementSize::Byte, 9, 0), 2);
    assert_eq!(compute_span(ElementSize::TwoBytes, 5, 0), 2);
    assert_eq!(compute_span(ElementSize::FourBytes, 3, 0), 2);
    assert_eq!(compute_span(ElementSize::EightBytes, 3, 0), 3);
    assert_eq!(compute_span(ElementSize::Pointer, 4, 0), 4);
    assert_eq!(compute_span(ElementSize::InlineComposite, 4, 3), 12);
}

#[test]
fn resolving_gives_the_place_of_the_list() {
    let words = [0u64, list_pointer(1, 3, 5), 0, 1, 2];
    let list = resolve(&words, 1, ElementSize::TwoBytes).unwrap();
    assert_eq!(list.start(), 3);
    assert_eq!(list.size(), 5);
    assert_eq!(list.span(), 2);
    assert_eq!(list.element_size(), ElementSize::TwoBytes);
    assert_eq!(list.struct_size(), StructSize { data: 0, pointers: 0 });
    assert!(resolve(&words, 0, ElementSize::TwoBytes).is_none());
    assert!(resolve(&words, 1, ElementSize::FourBytes).is_none());
    assert!(resolve(&words, 5, ElementSize::TwoBytes).is_none());
    let short = [0u64, list_pointer(1, 3, 5), 0, 1];
    assert!(resolve(&short, 1, ElementSize::TwoBytes).is_none());
}

#[test]
fn resolving_a_struct_list_reads_its_tag() {
    let words = [list_pointer(0, 7, 4), composite_tag(2, 1, 1), 1, 0, 2, 0];
    let list = resolve(&words, 0, ElementSize::InlineComposite).unwrap();
    assert_eq!(list.start(), 2);
    assert_eq!(list.size(), 2);
    assert_eq!(list.span(), 4);
    assert_eq!(list.struct_size(), StructSize { data: 1, pointers: 1 });
    let same = StructSize { data: 1, pointers: 1 };
    let other = StructSize { data: 2, pointers: 0 };
    assert!(resolve_checked(&words, 0, ElementSize::InlineComposite, Some(same)).is_some());
    assert!(resolve_checked(&words, 0, ElementSize::InlineComposite, Some(other)).is_none());
    assert!(resolve_checked(&words, 0, ElementSize::InlineComposite, None).is_some());
    let many = [list_pointer(0, 7, 0), composite_tag(0x2000_0000, 0, 0)];
    assert!(resolve(&many, 0, ElementSize::InlineComposite).is_none());
    let most = [list_pointer(0, 7, 0), composite_tag(0x1fff_ffff, 0, 0)];
    assert_eq!(resolve(&most, 0, ElementSize::InlineComposite).unwrap().size(), 0x1fff_ffff);
}

#[test]
fn room_for_an_allocation_is_told_beforehand() {
    let message = Message::new();
    let root = message.root();
    assert!(root.can_init_list(&message, ElementSize::FourBytes, 4));
    assert!(root.can_init_list(&message, ElementSize::Byte, 0x1fff_ffff));
    assert!(!root.can_init_list(&message, ElementSize::Byte, 0x2000_0000));
    assert!(root.can_init_list(&message, ElementSize::EightBytes, 0x1fff_fffe));
    assert!(!root.can_init_list(&message, ElementSize::EightBytes, 0x1fff_ffff));
    assert!(root.can_init_list(&message, ElementSize::Void, 0x1fff_ffff));
    assert!(root.can_init_list(&message, ElementSize::InlineComposite, 7));
    let far = capnp_list::layout::PointerBuilder { index: 1 };
    assert!(!far.can_init_list(&message, ElementSize::FourBytes, 4));
    assert!(!far.can_get_list(&message, ElementSize::Byte, &[]));
    assert!(root.can_get_list(&message, ElementSize::Byte, &[]));
    assert!(root.can_get_list(&message, ElementSize::Byte, &[0, 0, 0]));
    assert!(root.can_get_list(&message, ElementSize::Byte, &[list_pointer(0, 2, 3), 0x0009_0807]));
    assert!(root.can_get_struct_list(&message, StructSize { data: 1, pointers: 0 }, &[]));
    assert!(far.is_null(&message));
    assert!(root.is_null(&message));
    let size = StructSize { data: 2, pointers: 1 };
    assert!(root.can_init_struct_list(&message, 3, size));
    assert!(root.can_init_struct_list(&message, 0x0aaa_aaa9, size));
    assert!(!root.can_init_struct_list(&message, 0x0aaa_aaaa, size));
    assert!(!root.can_init_struct_list(&message, 0x2000_0000, StructSize { data: 0, pointers: 0 }));
    assert!(root.can_init_struct_list(&message, 0x1fff_ffff, StructSize { data: 0, pointers: 0 }));
}
