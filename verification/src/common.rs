//! Units shared by every layer.

use vstd::prelude::*;

verus! {

/// The unit of addressing and alignment of a message.
pub type Word = u64;

/// Most words a message may hold: the offset of a pointer is 30 bits wide and
/// signed.
pub const MAX_SEGMENT_WORDS: usize = 0x1fff_ffff;

/// Largest number that the count field of a list pointer holds: the most
/// elements of a list, and the most words of a list of inline structs.
pub const MAX_LIST_ELEMENTS: usize = 0x1fff_ffff;

} // verus!
