//! The error channel: one slot that keeps the text of the most recent failure.
//!
//! No failure crosses the boundary as anything but a negative code, so every
//! failing operation first leaves its reason here.  The caller asks for the
//! length, brings a buffer of its own and has the text copied into it.

use vstd::prelude::*;
use vstd::utf8::encode_utf8;

verus! {

/// The code that a failing operation returns.
pub const FAILURE: i32 = -1;

/// The slot that holds the message of the last failure, if there was one.
pub struct ErrorChannel {
    last: Option<String>,
}

impl ErrorChannel {
    /// The stored message.
    pub closed spec fn message(&self) -> Option<Seq<char>> {
        match self.last {
            Some(text) => Some(text@),
            None => None,
        }
    }

    /// A channel on which nothing has failed yet.
    pub fn new() -> (channel: ErrorChannel)
        ensures
            channel.message() is None,
    {
        ErrorChannel { last: None }
    }

    /// A copy of the stored message.
    pub fn last_message(&self) -> (text: Option<String>)
        ensures
            text is Some == self.message() is Some,
            text is Some ==> text->0@ == self.message()->0,
    {
        match &self.last {
            Some(text) => Some(text.clone()),
            None => None,
        }
    }
}

/// The bytes that a caller needs for `text` and its terminator, as far as a
/// `usize` can say it.
pub open spec fn terminated_len(text: Seq<char>) -> nat {
    let needed = encode_utf8(text).len() + 1;
    if needed <= usize::MAX {
        needed
    } else {
        usize::MAX as nat
    }
}

/// What a buffer holds after `text` was copied into it: as much of the text as
/// fits in front of a terminator, the terminator, and behind it what was there.
pub open spec fn filled(text: Seq<u8>, before: Seq<u8>) -> Seq<u8> {
    if before.len() == 0 {
        before
    } else {
        let kept = if text.len() <= before.len() - 1 {
            text.len() as int
        } else {
            before.len() - 1
        };
        text.subrange(0, kept) + seq![0u8] + before.subrange(kept + 1, before.len() as int)
    }
}

/// Stores `message` as the last failure, in place of any earlier one, and
/// returns the failure code.
pub fn set_err(errors: &mut ErrorChannel, message: String) -> (code: i32)
    ensures
        code == FAILURE,
        final(errors).message() == Some(message@),
{
    errors.last = Some(message);
    FAILURE
}

/// The length in bytes of the stored message with its terminator, or zero
/// where nothing is stored.
pub fn serial_err_len(errors: &ErrorChannel) -> (len: usize)
    ensures
        len == match errors.message() {
            Some(text) => terminated_len(text),
            None => 0,
        },
{
    match &errors.last {
        Some(text) => {
            let bytes = text.as_str().as_bytes();
            let n: usize = bytes.len();
            if n < usize::MAX {
                n + 1
            } else {
                n
            }
        },
        None => 0,
    }
}

/// Copies the stored message into `out`, cut to leave room for a terminator,
/// and terminates it.  An empty buffer, or an empty channel, leaves `out` as
/// it was.  The message stays stored.
pub fn serial_err_fill(errors: &ErrorChannel, out: &mut [u8])
    ensures
        final(out)@ == match errors.message() {
            Some(text) => filled(encode_utf8(text), old(out)@),
            None => old(out)@,
        },
{
    let capacity: usize = out.len();
    if capacity == 0 {
        return ;
    }
    match &errors.last {
        Some(text) => {
            let bytes = text.as_str().as_bytes();
            let kept: usize = if bytes.len() <= capacity - 1 {
                bytes.len()
            } else {
                capacity - 1
            };
            let mut i: usize = 0;
            while i < kept
                invariant
                    i <= kept,
                    kept < capacity,
                    kept <= bytes@.len(),
                    out@.len() == capacity,
                    out@.len() == old(out)@.len(),
                    forall|k: int| 0 <= k < i ==> out@[k] == bytes@[k],
                    forall|k: int| i <= k < capacity ==> out@[k] == old(out)@[k],
                decreases kept - i,
            {
                out[i] = bytes[i];
                i = i + 1;
            }
            out[kept] = 0;
        },
        None => {},
    }
}

/// A buffer that was filled has kept its length and holds the terminator
/// right behind the part of the text that fits: the whole text where the
/// buffer is longer than it, and else all but the buffer's last place.
pub proof fn lemma_filled_is_terminated(text: Seq<u8>, before: Seq<u8>)
    requires
        before.len() > 0,
    ensures
        filled(text, before).len() == before.len(),
        text.len() < before.len() ==> filled(text, before).subrange(0, text.len() as int)
            == text && filled(text, before)[text.len() as int] == 0,
        text.len() >= before.len() ==> filled(text, before).subrange(0, before.len() - 1)
            == text.subrange(0, before.len() - 1) && filled(text, before)[before.len() - 1] == 0,
{
    if text.len() < before.len() {
        assert(filled(text, before).subrange(0, text.len() as int) =~= text);
    } else {
        assert(filled(text, before).subrange(0, before.len() - 1) =~= text.subrange(
            0,
            before.len() - 1,
        ));
    }
}

/// A buffer as long as `serial_err_len` says takes the whole message.
pub proof fn lemma_buffer_of_reported_length_takes_all(text: Seq<char>, before: Seq<u8>)
    requires
        before.len() == terminated_len(text),
        encode_utf8(text).len() < usize::MAX,
    ensures
        filled(encode_utf8(text), before) == encode_utf8(text).push(0u8),
{
    assert(filled(encode_utf8(text), before) =~= encode_utf8(text).push(0u8));
}

} // verus!
