//! The memory layout underneath the typed lists: how a pointer word locates a
//! list, how elements are packed into words, and how a message grows.
//!
//! A message is one segment of words. A pointer that leads out of it, or that
//! is of a kind other than a list pointer of the encoding asked for, locates
//! nothing: what it was meant to locate reads as absent.

pub mod bits;
pub mod element;
pub mod wire;
pub mod run;
pub mod message;
pub mod builder;
pub mod resolve;
pub mod primitive;
pub mod allocate;
pub mod reader;
pub mod struct_kind;
pub mod laws;

pub use allocate::{
    adopted_words, allocated_run, allocated_words, can_adopt, can_allocate, can_open,
    opened_run, opened_words, takes_default,
};
pub use builder::{ListBuilder, PointerBuilder, StructBuilder};
pub use element::{ElementSize, StructSize};
pub use message::Message;
pub use primitive::PrimitiveElement;
pub use reader::{ListReader, PointerReader, StructReader};
pub use resolve::{pointer_kept, read_run, read_source, resolve_list, resolve_sized};
pub use run::{header_words, span_words, ListRun, StructRun};
pub use struct_kind::{FromStructBuilder, FromStructReader, HasStructSize};
