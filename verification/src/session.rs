//! Decisions of the pseudo-terminal session's background reader: what one
//! observation on the master descriptor means for the loop. The descriptor
//! I/O itself — waiting for readiness, the bounded read, the channel send
//! and the wakeup — lives outside this crate and hands its outcome in as a
//! [`ReadEvent`].

use vstd::prelude::*;
use vstd::utf8::{valid_utf8, decode_utf8};

verus! {

/// What one round of the reader observed on the master descriptor.
#[derive(Debug, PartialEq)]
pub enum ReadEvent {
    /// A successful, non-empty read: the bytes it returned.
    Data(Vec<u8>),
    /// A zero-length read: the child closed its side.
    EndOfInput,
    /// The read was interrupted by a signal and can simply be retried.
    Interrupted,
    /// Waiting for readiness failed, or the read failed unrecoverably.
    Failed,
}

/// What the reader does next.
#[derive(Debug, PartialEq)]
pub enum ReaderStep {
    /// Hand this decoded chunk to the session owner and signal a wakeup.
    Forward(String),
    /// Keep reading; nothing is forwarded this round.
    Continue,
    /// Leave the loop: the session is over.
    Stop,
}

/// Relies on `String::from_utf8`: it returns the decoded characters exactly
/// when the bytes are valid UTF-8, and an error otherwise.
#[verifier::external_body]
fn decode_chunk(bytes: Vec<u8>) -> (r: Option<String>)
    ensures
        match r {
            Some(s) => valid_utf8(bytes@) && s@ == decode_utf8(bytes@),
            None => !valid_utf8(bytes@),
        },
{
    match String::from_utf8(bytes) {
        Ok(s) => Some(s),
        Err(_) => None,
    }
}

/// One decision of the background reader. End of input and unrecoverable
/// errors stop the loop; an interrupted read is retried; a chunk that
/// decodes is forwarded to the session owner; a chunk that does not decode
/// is dropped and reading continues.
pub fn reader_step(event: ReadEvent) -> (r: ReaderStep)
    ensures
        match event {
            ReadEvent::Data(bytes) => if valid_utf8(bytes@) {
                r matches ReaderStep::Forward(s) && s@ == decode_utf8(bytes@)
            } else {
                r is Continue
            },
            ReadEvent::EndOfInput => r is Stop,
            ReadEvent::Interrupted => r is Continue,
            ReadEvent::Failed => r is Stop,
        },
{
    match event {
        ReadEvent::Data(bytes) => match decode_chunk(bytes) {
            Some(s) => ReaderStep::Forward(s),
            None => ReaderStep::Continue,
        },
        ReadEvent::EndOfInput => ReaderStep::Stop,
        ReadEvent::Interrupted => ReaderStep::Continue,
        ReadEvent::Failed => ReaderStep::Stop,
    }
}

} // verus!
