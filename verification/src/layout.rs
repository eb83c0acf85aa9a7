//! The stored form of a task: how many bytes a record takes, and the room
//! that is set aside for one.
//!
//! A record is stored as a leading tag, the two addresses, the flag, the text
//! as a length followed by its UTF-8 bytes, and the two times. The room set
//! aside is fixed, and counts four bytes for each of the 400 scalar values a
//! text may have.

use vstd::prelude::*;
use vstd::string::*;
use vstd::utf8::{char_is_scalar, encode_scalar, encode_utf8};
use crate::address::ADDRESS_BYTES;
use crate::task::{Task, TaskView, MAX_TEXT_CHARS};

verus! {

/// Bytes of the tag that precedes every stored record.
pub const TAG_BYTES: usize = 8;

/// Bytes of the completion flag.
pub const FLAG_BYTES: usize = 1;

/// Bytes of the length that precedes the stored text.
pub const TEXT_PREFIX_BYTES: usize = 4;

/// Most bytes that the UTF-8 form of one Unicode scalar value takes.
pub const MAX_CHAR_BYTES: usize = 4;

/// Bytes of a stored time.
pub const TIME_BYTES: usize = 8;

impl TaskView {
    /// Bytes that the stored form of the task takes.
    pub open spec fn stored_len(self) -> nat {
        (TAG_BYTES + ADDRESS_BYTES + ADDRESS_BYTES + FLAG_BYTES + TEXT_PREFIX_BYTES + encode_utf8(
            self.text,
        ).len() + TIME_BYTES + TIME_BYTES) as nat
    }
}

impl Task {
    /// Room set aside for one stored task, in bytes.
    pub const LEN: usize = 8 + 32 + 32 + 1 + (4 + 400 * 4) + 8 + 8;

    /// Bytes that the stored form of the task takes: never more than the
    /// room set aside.
    pub fn stored_len(&self) -> (len: usize)
        requires
            self.wf(),
        ensures
            len == self@.stored_len(),
            len <= Task::LEN,
    {
        proof {
            lemma_utf8_len_bound(self.text@);
        }
        TAG_BYTES + ADDRESS_BYTES + ADDRESS_BYTES + FLAG_BYTES + TEXT_PREFIX_BYTES
            + self.text.as_str().len() + TIME_BYTES + TIME_BYTES
    }
}

/// The UTF-8 form of a text takes at least one and at most four bytes for
/// each of its scalar values.
pub proof fn lemma_utf8_len_bound(text: Seq<char>)
    ensures
        text.len() <= encode_utf8(text).len() <= MAX_CHAR_BYTES * text.len(),
    decreases text.len(),
{
    if text.len() > 0 {
        char_is_scalar(text[0]);
        let first = encode_scalar(text[0] as u32);
        assert(1 <= first.len() <= 4);
        lemma_utf8_len_bound(text.drop_first());
        assert(encode_utf8(text).len() == first.len() + encode_utf8(text.drop_first()).len());
    }
}

/// The room set aside is the sum of its parts, with the text at its longest.
pub proof fn lemma_len_is_sum()
    ensures
        Task::LEN == 1693,
        Task::LEN == TAG_BYTES + ADDRESS_BYTES + ADDRESS_BYTES + FLAG_BYTES + TEXT_PREFIX_BYTES
            + MAX_TEXT_CHARS * MAX_CHAR_BYTES + TIME_BYTES + TIME_BYTES,
{
}

/// Every well-formed task fits the room set aside for it, whatever its text.
pub proof fn lemma_record_fits(task: TaskView)
    requires
        task.wf(),
    ensures
        task.stored_len() <= Task::LEN,
{
    lemma_utf8_len_bound(task.text);
}

} // verus!
