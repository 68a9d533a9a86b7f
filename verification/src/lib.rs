//! Typed, zero-copy list views over a word-addressed message buffer.
//!
//! A message is a flat run of 64-bit words. Inside it, a pointer slot either is
//! null or locates a list: a run of bits, bytes, integers, pointers or inline
//! structs. The `layout` module resolves and allocates such runs; the `list`
//! module wraps them in element-typed readers and builders.

pub mod common;
pub mod layout;
pub mod list;
