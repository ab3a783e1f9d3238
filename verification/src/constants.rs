//! Size limits shared by the input queue and the line editor.

use vstd::prelude::*;

verus! {

/// Longest input line the editor accepts; inserting into a full line is a
/// silent no-op.
pub const MAX_LINE_LENGTH: usize = 64;

/// Number of bytes the input queue can hold before it starts dropping input.
/// Capacity equals the maximum accepted line length, so a burst longer than
/// one line is truncated from the tail.
pub const QUEUE_CAPACITY: usize = MAX_LINE_LENGTH;

/// Slot count of the backing single-producer single-consumer ring, which
/// keeps one slot free to tell a full ring from an empty one: it holds at
/// most `QUEUE_SLOTS - 1` bytes.
pub const QUEUE_SLOTS: usize = QUEUE_CAPACITY + 1;

} // verus!
