//! The last-error slot: one record of the most recent operation's outcome.
//!
//! Every fallible operation writes its status and a message here, so a
//! caller that ignored the returned status can still ask what went wrong.
//! The slot is last-writer-wins. A slot marked poisoned stands for one whose
//! guard can no longer be acquired: writes to it are dropped and reads report
//! an internal error.

use crate::status::{INTERNAL_ERROR, OK};
use vstd::prelude::*;
use vstd::string::StringSliceAdditionalSpecFns;
use vstd::utf8::encode_utf8;

verus! {

/// The slot as a mathematical value.
pub struct LastErrorView {
    pub code: i32,
    pub message: Seq<char>,
    pub poisoned: bool,
}

/// The message read from a slot that cannot be reached.
pub open spec fn unreachable_slot_message() -> Seq<char> {
    "failed to lock error"@
}

impl LastErrorView {
    /// The stored message encodes to a length that a 32-bit size can report.
    pub open spec fn wf(self) -> bool {
        encode_utf8(self.message).len() <= u32::MAX
    }

    /// The slot after an operation recorded `code` and `message` in it.
    /// A poisoned slot keeps what it held.
    pub open spec fn recorded(self, code: i32, message: Seq<char>) -> LastErrorView {
        if self.poisoned {
            self
        } else {
            LastErrorView { code, message, poisoned: false }
        }
    }

    /// The slot after an operation succeeded.
    pub open spec fn cleared(self) -> LastErrorView {
        self.recorded(OK, Seq::empty())
    }

    /// The status a reader is given.
    pub open spec fn reported_code(self) -> i32 {
        if self.poisoned {
            INTERNAL_ERROR
        } else {
            self.code
        }
    }

    /// The message a reader is given.
    pub open spec fn reported_message(self) -> Seq<char> {
        if self.poisoned {
            unreachable_slot_message()
        } else {
            self.message
        }
    }

    /// The bytes of the message a reader is given, in UTF-8.
    pub open spec fn reported_bytes(self) -> Seq<u8> {
        encode_utf8(self.reported_message())
    }
}

/// What a buffer holds after a message was copied into it: as much of the
/// message as fits in front of a terminating zero byte, then the bytes that
/// were there before. An empty buffer is left empty.
pub open spec fn copied_into(buffer: Seq<u8>, message: Seq<u8>) -> Seq<u8> {
    if buffer.len() == 0 {
        buffer
    } else {
        let n = if message.len() < buffer.len() - 1 {
            message.len() as int
        } else {
            buffer.len() - 1
        };
        message.subrange(0, n) + seq![0u8] + buffer.subrange(n + 1, buffer.len() as int)
    }
}

/// The last-error slot.
pub struct LastError {
    code: i32,
    message: String,
    poisoned: bool,
}

impl View for LastError {
    type V = LastErrorView;

    closed spec fn view(&self) -> LastErrorView {
        LastErrorView { code: self.code, message: self.message@, poisoned: self.poisoned }
    }
}

/// An ASCII text encodes to one byte per character.
pub proof fn ascii_encoded_len(text: Seq<char>)
    requires
        vstd::utf8::is_ascii_chars(text),
    ensures
        encode_utf8(text).len() == text.len(),
{
    vstd::utf8::is_ascii_chars_encode_utf8(text);
}

impl LastError {
    /// A slot that reports success and an empty message.
    pub fn new() -> (slot: LastError)
        ensures
            slot@ == (LastErrorView { code: OK, message: Seq::empty(), poisoned: false }),
            slot@.wf(),
    {
        let slot = LastError { code: OK, message: String::new(), poisoned: false };
        proof {
            ascii_encoded_len(Seq::<char>::empty());
        }
        slot
    }

    /// Marks the slot as one whose guard was lost. From here on writes are
    /// dropped and reads report an internal error.
    pub fn mark_poisoned(&mut self)
        ensures
            final(self)@ == (LastErrorView { poisoned: true, ..old(self)@ }),
    {
        self.poisoned = true;
    }

    /// Tells whether the slot was marked poisoned.
    pub fn is_poisoned(&self) -> (r: bool)
        ensures
            r == self@.poisoned,
    {
        self.poisoned
    }
}

/// Records `code` and `message` as the outcome of the current operation and
/// hands `code` back, so a call site can record and return in one expression.
pub fn set_error(slot: &mut LastError, code: i32, message: &str) -> (r: i32)
    requires
        message.spec_bytes().len() <= u32::MAX,
    ensures
        r == code,
        final(slot)@ == old(slot)@.recorded(code, message@),
        old(slot)@.wf() ==> final(slot)@.wf(),
{
    if !slot.poisoned {
        slot.code = code;
        slot.message = message.to_owned();
    }
    code
}

/// Records success: the slot holds `OK` and an empty message afterwards.
pub fn clear_error(slot: &mut LastError)
    ensures
        final(slot)@ == old(slot)@.cleared(),
        old(slot)@.wf() ==> final(slot)@.wf(),
{
    proof {
        reveal_strlit("");
        ascii_encoded_len(""@);
        assert(""@ =~= Seq::<char>::empty());
    }
    let _ = set_error(slot, OK, "");
}

/// The status of the most recent operation, or `INTERNAL_ERROR` where the
/// slot cannot be reached.
pub fn pl_last_error_code(slot: &LastError) -> (code: i32)
    ensures
        code == slot@.reported_code(),
{
    if slot.poisoned {
        INTERNAL_ERROR
    } else {
        slot.code
    }
}

/// Copies the current message into `out_buf` and returns the length in bytes
/// that the whole message needs, terminator not counted.
///
/// The buffer receives as many leading bytes of the message as fit in front
/// of one terminating zero byte; what lies behind the terminator is left as
/// it was. The returned length is that of the whole message, so a caller
/// sees a truncation and can come back with a larger buffer. Without a
/// buffer, or with an empty one, nothing is copied and the call only
/// reports the length.
pub fn pl_last_error_message(slot: &LastError, out_buf: Option<&mut [u8]>) -> (needed: u32)
    requires
        slot@.wf(),
    ensures
        needed == slot@.reported_bytes().len(),
        out_buf is Some ==> final(out_buf->0)@ == copied_into(
            old(out_buf->0)@,
            slot@.reported_bytes(),
        ),
{
    let fallback: &str = "failed to lock error";
    proof {
        reveal_strlit("failed to lock error");
        ascii_encoded_len(fallback@);
    }
    let text: &str = if slot.poisoned {
        fallback
    } else {
        slot.message.as_str()
    };
    let bytes: &[u8] = text.as_bytes();
    let needed: u32 = bytes.len() as u32;
    match out_buf {
        None => {},
        Some(buf) => {
            let capacity: usize = buf.len();
            if capacity > 0 {
                let copy_len: usize = if bytes.len() < capacity - 1 {
                    bytes.len()
                } else {
                    capacity - 1
                };
                let ghost before: Seq<u8> = buf@;
                let mut i: usize = 0;
                while i < copy_len
                    invariant
                        i <= copy_len,
                        copy_len < capacity,
                        copy_len <= bytes@.len(),
                        buf@.len() == capacity,
                        before.len() == capacity,
                        forall|k: int| 0 <= k < i ==> buf@[k] == bytes@[k],
                        forall|k: int| i <= k < capacity ==> buf@[k] == before[k],
                    decreases copy_len - i,
                {
                    buf[i] = bytes[i];
                    i += 1;
                }
                buf[copy_len] = 0u8;
                assert(buf@ =~= copied_into(before, bytes@));
            }
        },
    }
    needed
}

} // verus!
