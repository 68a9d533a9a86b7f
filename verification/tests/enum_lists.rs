use capnp_list::layout::{Message, PointerReader};
use capnp_list::list::enum_list::{Builder, Reader};
use capnp_list::list::primitive_list;
use capnp_list::list::{FromPointerBuilder, FromPointerReader, FromU16, ToU16};

#[derive(Clone, Copy, Debug, PartialEq, Eq)]
enum Color {
    Red,
    Green,
    Blue,
}

impl FromU16 for Color {
    fn spec_from_u16(value: u16) -> Option<Color> {
        Color::from_u16(value)
    }

    fn from_u16(value: u16) -> Option<Color> {
        match value {
            0 => Some(Color::Red),
            1 => Some(Color::Green),
            2 => Some(Color::Blue),
            _ => None,
        }
    }
}

impl ToU16 for Color {
    fn spec_to_u16(self) -> u16 {
        self.to_u16()
    }

    fn lemma_code_tells_value(_value: Color) {
    }

    fn to_u16(self) -> u16 {
        match self {
            Color::Red => 0,
            Color::Green => 1,
            Color::Blue => 2,
        }
    }
}

fn read_root<'a>(words: &'a [u64]) -> Reader<'a, Color> {
    Reader::<Color>::get_from_pointer(&PointerReader::get_root(words), &[])
}

#[test]
fn enum_list_round_trip_and_unknown_code() {
    let mut message = Message::new();
    let root = message.root();
    let list = Builder::<Color>::init_pointer(root, &mut message, 2);
    assert_eq!(list.size(), 2);
    list.set(&mut message, 0, Color::Green);
    list.set(&mut message, 1, Color::Blue);
    {
        let reader = read_root(message.as_words());
        assert_eq!(reader.size(), 2);
        assert_eq!(reader.index(0), Some(Color::Green));
        assert_eq!(reader.index(1), Some(Color::Blue));
    }
    let raw = primitive_list::Builder::<u16>::get_from_pointer(root, &mut message, &[]);
    assert_eq!(raw.size(), 2);
    raw.set(&mut message, 0, 5);
    let reader = read_root(message.as_words());
    assert_eq!(reader.index(0), None);
    assert_eq!(reader.index(1), Some(Color::Blue));
    assert_eq!(list.index(&message, 0), None);
    assert_eq!(list.index(&message, 1), Some(Color::Blue));
}

#[test]
fn every_enumerator_reads_back() {
    let mut message = Message::new();
    let root = message.root();
    let list = Builder::<Color>::init_pointer(root, &mut message, 3);
    for (i, color) in [Color::Blue, Color::Red, Color::Green].iter().enumerate() {
        list.set(&mut message, i, *color);
    }
    let reader = read_root(message.as_words());
    assert_eq!(reader.index(0), Some(Color::Blue));
    assert_eq!(reader.index(1), Some(Color::Red));
    assert_eq!(reader.index(2), Some(Color::Green));
}

#[test]
fn new_enum_list_holds_the_first_enumerator() {
    let mut message = Message::new();
    let root = message.root();
    let list = Builder::<Color>::init_pointer(root, &mut message, 5);
    assert_eq!(message.as_words(), &[1 | (3u64 << 32) | (5u64 << 35), 0, 0][..]);
    for i in 0..5 {
        assert_eq!(list.index(&message, i), Some(Color::Red));
    }
}

#[test]
fn enum_codes_are_stored_in_sixteen_bits() {
    let mut message = Message::new();
    let root = message.root();
    let list = Builder::<Color>::init_pointer(root, &mut message, 5);
    list.set(&mut message, 0, Color::Green);
    list.set(&mut message, 3, Color::Blue);
    list.set(&mut message, 4, Color::Green);
    assert_eq!(message.as_words()[1], 0x0002_0000_0000_0001);
    assert_eq!(message.as_words()[2], 0x0001);
}

#[test]
fn raw_codes_form_an_enumeration_of_their_own() {
    let mut message = Message::new();
    let root = message.root();
    let codes = Builder::<u16>::init_pointer(root, &mut message, 2);
    codes.set(&mut message, 0, 2);
    codes.set(&mut message, 1, 0xffff);
    assert_eq!(codes.index(&message, 1), Some(0xffff));
    let colors = read_root(message.as_words());
    assert_eq!(colors.index(0), Some(Color::Blue));
    assert_eq!(colors.index(1), None);
}

#[test]
fn enum_builder_reopens_and_null_is_empty() {
    let mut message = Message::new();
    let root = message.root();
    let empty = Builder::<Color>::get_from_pointer(root, &mut message, &[]);
    assert_eq!(empty.size(), 0);
    assert_eq!(read_root(message.as_words()).size(), 0);
    let list = Builder::<Color>::init_pointer(root, &mut message, 1);
    list.set(&mut message, 0, Color::Blue);
    let again = Builder::<Color>::get_from_pointer(root, &mut message, &[]);
    assert_eq!(again.size(), 1);
    assert_eq!(again.index(&message, 0), Some(Color::Blue));
    assert!(again.is_within(&message));
}

#[test]
fn enum_reader_takes_the_default_for_a_null_slot() {
    let default_value = [1 | (3u64 << 32) | (2u64 << 35), 0x0005_0002];
    let message = Message::new();
    let reader =
        Reader::<Color>::get_from_pointer(&PointerReader::get_root(message.as_words()), &default_value);
    assert_eq!(reader.size(), 2);
    assert_eq!(reader.index(0), Some(Color::Blue));
    assert_eq!(reader.index(1), None);
}
