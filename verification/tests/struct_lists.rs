use capnp_list::layout::{
    ElementSize, FromStructBuilder, FromStructReader, HasStructSize, Message, PointerReader,
    StructBuilder, StructReader, StructSize,
};
use capnp_list::list::primitive_list;
use capnp_list::list::struct_list::{Builder, Reader};
use capnp_list::list::{FromPointerBuilder, FromPointerReader};

struct PointReader<'a> {
    inner: StructReader<'a>,
}

impl<'a> PointReader<'a> {
    fn x(&self) -> u64 {
        self.inner.get_data_word(0)
    }

    fn y(&self) -> u64 {
        self.inner.get_data_word(1)
    }
}

impl<'a> FromStructReader<'a> for PointReader<'a> {
    fn struct_reader(&self) -> StructReader<'a> {
        self.inner
    }

    fn from_struct_reader(reader: StructReader<'a>) -> PointReader<'a> {
        PointReader { inner: reader }
    }
}

struct PointBuilder {
    inner: StructBuilder,
}

impl PointBuilder {
    fn set(&self, message: &mut Message, x: u64, y: u64) {
        self.inner.set_data_word(message, 0, x);
        self.inner.set_data_word(message, 1, y);
    }
}

impl FromStructBuilder for PointBuilder {
    fn struct_builder(&self) -> StructBuilder {
        self.inner
    }

    fn from_struct_builder(builder: StructBuilder) -> PointBuilder {
        PointBuilder { inner: builder }
    }
}

impl HasStructSize for PointBuilder {
    fn spec_struct_size() -> StructSize {
        PointBuilder::struct_size()
    }

    fn struct_size() -> StructSize {
        StructSize { data: 2, pointers: 1 }
    }
}

#[test]
fn struct_elements_lie_one_stride_apart() {
    let mut message = Message::new();
    let root = message.root();
    let list = Builder::<PointBuilder>::init_pointer(root, &mut message, 3);
    assert_eq!(list.size(), 3);
    assert_eq!(message.len(), 11);
    assert_eq!(message.as_words()[0], 1 | (7u64 << 32) | (9u64 << 35));
    assert_eq!(message.as_words()[1], (3u64 << 2) | (2u64 << 32) | (1u64 << 48));
    for i in 0..3 {
        let element = list.index(i);
        assert!(element.inner.is_within(&message));
        assert_eq!(element.inner.struct_size(), StructSize { data: 2, pointers: 1 });
        assert_eq!(element.inner.get_pointer_field(0).index, 2 + 3 * i + 2);
        element.set(&mut message, 10 * i as u64 + 1, 10 * i as u64 + 2);
    }
    assert_eq!(
        &message.as_words()[2..],
        &[1u64, 2, 0, 11, 12, 0, 21, 22, 0][..]
    );
    let reader =
        Reader::<PointReader>::get_from_pointer(&PointerReader::get_root(message.as_words()), &[]);
    assert_eq!(reader.size(), 3);
    for i in 0..3 {
        let point = reader.index(i);
        assert_eq!(point.x(), 10 * i as u64 + 1);
        assert_eq!(point.y(), 10 * i as u64 + 2);
        assert_eq!(point.inner.struct_size(), StructSize { data: 2, pointers: 1 });
    }
}

#[test]
fn struct_elements_are_changed_through_their_views() {
    let mut message = Message::new();
    let root = message.root();
    let list = Builder::<PointBuilder>::init_pointer(root, &mut message, 2);
    list.index(1).set(&mut message, 5, 6);
    list.index(1).set(&mut message, 7, 8);
    assert_eq!(list.index(1).inner.get_data_word(&message, 0), 7);
    assert_eq!(list.index(1).inner.get_data_word(&message, 1), 8);
    assert_eq!(list.index(0).inner.get_data_word(&message, 0), 0);
    let view = list.index(1).inner.as_reader(&message);
    assert_eq!(view.get_data_word(1), 8);
}

#[test]
fn struct_pointer_fields_hold_lists() {
    let mut message = Message::new();
    let root = message.root();
    let list = Builder::<PointBuilder>::init_pointer(root, &mut message, 2);
    let slot = list.index(1).inner.get_pointer_field(0);
    assert!(slot.is_null(&message));
    let bytes = primitive_list::Builder::<u8>::init_pointer(slot, &mut message, 3);
    bytes.set(&mut message, 0, 7);
    bytes.set(&mut message, 1, 8);
    bytes.set(&mut message, 2, 9);
    assert!(!slot.is_null(&message));
    let reader =
        Reader::<StructReader>::get_from_pointer(&PointerReader::get_root(message.as_words()), &[]);
    let field = reader.index(1).get_pointer_field(0);
    assert!(!field.is_null());
    let nested = primitive_list::Reader::<u8>::get_from_pointer(&field, &[]);
    assert_eq!(nested.size(), 3);
    assert_eq!(nested.index(0), 7);
    assert_eq!(nested.index(1), 8);
    assert_eq!(nested.index(2), 9);
    let other = reader.index(0).get_pointer_field(0);
    assert!(other.is_null());
    assert_eq!(primitive_list::Reader::<u8>::get_from_pointer(&other, &[]).size(), 0);
}

#[test]
fn struct_list_builder_reopens_only_its_own_size() {
    let mut message = Message::new();
    let root = message.root();
    let list = Builder::<PointBuilder>::init_pointer(root, &mut message, 2);
    list.index(0).set(&mut message, 3, 4);
    let before: Vec<u64> = message.as_words().to_vec();
    let again = Builder::<PointBuilder>::get_from_pointer(root, &mut message, &[]);
    assert_eq!(again.size(), 2);
    assert_eq!(again.index(0).inner.get_data_word(&message, 1), 4);
    assert_eq!(message.as_words(), &before[..]);
    let other = root.get_struct_list(&mut message, StructSize { data: 1, pointers: 0 }, &[]);
    assert_eq!(other.size(), 0);
    assert_eq!(other.element_size(), ElementSize::InlineComposite);
    assert_eq!(other.struct_size(), StructSize { data: 1, pointers: 0 });
    assert_eq!(message.as_words(), &before[..]);
}

#[test]
fn struct_list_takes_over_a_default_with_what_it_points_at() {
    let default_value = [
        1 | (7u64 << 32) | (6u64 << 35),
        (2u64 << 2) | (2u64 << 32) | (1u64 << 48),
        41,
        42,
        (3u64 << 2) | 1 | (2u64 << 32) | (2u64 << 35),
        51,
        52,
        0,
        0x0b0a,
    ];
    let mut message = Message::new();
    let root = message.root();
    let list = Builder::<PointBuilder>::get_from_pointer(root, &mut message, &default_value);
    assert_eq!(list.size(), 2);
    assert_eq!(message.len(), 10);
    assert_eq!(message.as_words()[0], (1u64 << 2) | 1 | (7u64 << 32) | (6u64 << 35));
    assert_eq!(&message.as_words()[1..], &default_value[..]);
    assert_eq!(list.index(0).inner.get_data_word(&message, 0), 41);
    assert_eq!(list.index(1).inner.get_data_word(&message, 1), 52);
    let nested = primitive_list::Builder::<u8>::get_from_pointer(
        list.index(0).inner.get_pointer_field(0),
        &mut message,
        &[],
    );
    assert_eq!(nested.size(), 2);
    assert_eq!(nested.index(&message, 0), 0x0a);
    assert_eq!(nested.index(&message, 1), 0x0b);
    assert_eq!(message.len(), 10);
    list.index(0).set(&mut message, 1, 2);
    assert_eq!(default_value[2], 41);
    let reader =
        Reader::<PointReader>::get_from_pointer(&PointerReader::get_root(message.as_words()), &[]);
    assert_eq!(reader.index(0).x(), 1);
    assert_eq!(reader.index(1).y(), 52);
    let field = reader.index(0).inner.get_pointer_field(0);
    assert_eq!(primitive_list::Reader::<u8>::get_from_pointer(&field, &[]).index(1), 0x0b);
}

#[test]
fn struct_list_reader_takes_the_size_from_the_tag() {
    let words = [
        1 | (7u64 << 32) | (2u64 << 35),
        (2u64 << 2) | (1u64 << 32),
        100,
        200,
    ];
    let reader = Reader::<StructReader>::get_from_pointer(&PointerReader::get_root(&words), &[]);
    assert_eq!(reader.size(), 2);
    assert_eq!(reader.index(0).struct_size(), StructSize { data: 1, pointers: 0 });
    assert_eq!(reader.index(0).get_data_word(0), 100);
    assert_eq!(reader.index(1).get_data_word(0), 200);
}

#[test]
fn struct_list_with_a_tag_that_overruns_its_words_is_absent() {
    let words = [
        1 | (7u64 << 32) | (2u64 << 35),
        (3u64 << 2) | (1u64 << 32),
        100,
        200,
    ];
    let reader = Reader::<StructReader>::get_from_pointer(&PointerReader::get_root(&words), &[]);
    assert_eq!(reader.size(), 0);
    let short = [1 | (7u64 << 32) | (3u64 << 35), (3u64 << 2) | (1u64 << 32), 100, 200];
    let reader = Reader::<StructReader>::get_from_pointer(&PointerReader::get_root(&short), &[]);
    assert_eq!(reader.size(), 0);
    let far_tag = [1 | (7u64 << 32) | (2u64 << 35), 2 | (2u64 << 2) | (1u64 << 32), 100, 200];
    let reader = Reader::<StructReader>::get_from_pointer(&PointerReader::get_root(&far_tag), &[]);
    assert_eq!(reader.size(), 0);
}

#[test]
fn wrapping_a_struct_list_by_hand() {
    let mut message = Message::new();
    let root = message.root();
    let raw = root.init_struct_list(&mut message, 2, StructSize { data: 1, pointers: 0 });
    assert_eq!(raw.start(), 2);
    assert_eq!(raw.span(), 2);
    let list = Builder::<StructBuilder>::new(raw);
    list.index(1).set_data_word(&mut message, 0, 9);
    let reader = Reader::<StructReader>::new(raw.as_reader(&message));
    assert_eq!(reader.size(), 2);
    assert_eq!(reader.index(1).get_data_word(0), 9);
    assert_eq!(reader.index(0).get_data_word(0), 0);
}
