//! The listener's side of a stream: what to answer to the header that a peer
//! has written, and whether the stream becomes a request.

use vstd::prelude::*;
use crate::frame::{
    ack_line, ack_token, decode_tag, pong_bytes, pong_token, spec_decode_tag, NEWLINE,
};
use crate::tag::ProtocolTag;

verus! {

/// What becomes of an inbound stream once its first line is read.
#[derive(Clone, Copy, Debug, PartialEq, Eq, Structural)]
pub enum StreamDisposition {
    /// A health check: it is answered and never reaches a handler.
    Pong,
    /// The stream is acknowledged and handed to the tag's handler.
    Accepted(ProtocolTag),
    /// The listener does not serve the tag: the stream is refused.
    Rejected(ProtocolTag),
    /// The line names no tag: the stream is abandoned.
    Malformed,
}

/// What the listener does with an inbound stream: what becomes of it, and
/// the bytes to write back.
#[derive(Debug)]
pub struct Dispatch {
    pub disposition: StreamDisposition,
    pub reply: Vec<u8>,
}

/// What becomes of a stream whose first line is `line`, for a listener that
/// serves `declared`.
pub open spec fn spec_disposition(line: Seq<u8>, declared: Seq<ProtocolTag>) -> StreamDisposition {
    match spec_decode_tag(line) {
        None => StreamDisposition::Malformed,
        Some(ProtocolTag::Ping) => StreamDisposition::Pong,
        Some(tag) => if declared.contains(tag) {
            StreamDisposition::Accepted(tag)
        } else {
            StreamDisposition::Rejected(tag)
        },
    }
}

/// The bytes that are written back for a disposition.
pub open spec fn spec_reply(disposition: StreamDisposition) -> Seq<u8> {
    match disposition {
        StreamDisposition::Pong => pong_token(),
        StreamDisposition::Accepted(_) => ack_token() + seq![NEWLINE],
        StreamDisposition::Rejected(_) => Seq::empty(),
        StreamDisposition::Malformed => Seq::empty(),
    }
}

/// Decides what becomes of an inbound stream from its first line.
///
/// A ping is answered with `pong` whatever the listener serves. A tag that
/// the listener serves is acknowledged with `ack` and a newline, and only
/// such a stream is handed on. Nothing is written back to any other stream.
pub fn accept_bi(line: &[u8], declared: &[ProtocolTag]) -> (dispatch: Dispatch)
    ensures
        dispatch.disposition == spec_disposition(line@, declared@),
        dispatch.reply@ == spec_reply(dispatch.disposition),
{
    match decode_tag(line) {
        None => Dispatch { disposition: StreamDisposition::Malformed, reply: Vec::new() },
        Some(ProtocolTag::Ping) => Dispatch {
            disposition: StreamDisposition::Pong,
            reply: pong_bytes(),
        },
        Some(tag) => {
            if tag.is_among(declared) {
                Dispatch { disposition: StreamDisposition::Accepted(tag), reply: ack_line() }
            } else {
                Dispatch { disposition: StreamDisposition::Rejected(tag), reply: Vec::new() }
            }
        },
    }
}

/// Whether a stream is accepted for exactly the tag that the caller expects.
/// A ping in between is answered and does not count.
pub fn accept_bi_with(line: &[u8], expected: ProtocolTag) -> (dispatch: Dispatch)
    ensures
        dispatch.disposition == spec_disposition(line@, seq![expected]),
        dispatch.reply@ == spec_reply(dispatch.disposition),
{
    let mut declared: Vec<ProtocolTag> = Vec::new();
    declared.push(expected);
    assert(declared@ =~= seq![expected]);
    accept_bi(line, declared.as_slice())
}

/// Ping isolation: a stream that opens with the ping tag is answered with
/// `pong` and is never accepted as a request, whatever the listener serves;
/// and no stream is ever accepted as a ping.
pub proof fn lemma_ping_isolation(line: Seq<u8>, declared: Seq<ProtocolTag>)
    ensures
        spec_decode_tag(line) == Some(ProtocolTag::Ping) ==> spec_disposition(line, declared)
            == StreamDisposition::Pong && spec_reply(spec_disposition(line, declared))
            == pong_token(),
        spec_disposition(line, declared) != StreamDisposition::Accepted(ProtocolTag::Ping),
        spec_disposition(line, declared) matches StreamDisposition::Accepted(tag)
            ==> declared.contains(tag) && tag != ProtocolTag::Ping && spec_decode_tag(line)
            == Some(tag),
{
}

} // verus!
