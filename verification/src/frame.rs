//! Newline-terminated framing of stream headers.
//!
//! A stream opens with the tag as a JSON string on a line of its own, then,
//! for protocols that carry one, a second line of free text. The far end
//! answers `ack` on a line of its own, or `pong` to a ping.

use vstd::prelude::*;
use vstd::utf8::{
    decode_utf8, encode_scalar, encode_utf8, encode_utf8_decode_utf8, encode_utf8_valid_utf8,
    is_ascii_chars, is_ascii_chars_encode_utf8, is_scalar,
};
use vstd::utf8::valid_utf8;
use crate::json::{json_string_value, parse_string};
use crate::tag::{lemma_name_round_trip, lemma_tag_names, ProtocolHeader, ProtocolTag};

verus! {

/// The byte that ends a line.
pub const NEWLINE: u8 = 10;

/// The byte that opens and closes a JSON string.
pub const QUOTE: u8 = 34;

/// Room set aside for a line before the first byte arrives.
pub const LINE_CAPACITY: usize = 1024;

/// Why a header could not be read.
#[derive(Clone, Copy, Debug, PartialEq, Eq, Structural)]
pub enum FrameError {
    /// The stream ended before the line did.
    Closed,
    /// The line is not valid UTF-8.
    NotUtf8,
    /// The line does not name a protocol tag.
    UnknownTag,
}

/// `end` is where the first newline at or after `start` stands.
pub open spec fn is_line_end(bytes: Seq<u8>, start: int, end: int) -> bool {
    &&& 0 <= start <= end < bytes.len()
    &&& bytes[end] == NEWLINE
    &&& forall|j: int| start <= j < end ==> bytes[j] != NEWLINE
}

/// No newline stands at or after `start`.
pub open spec fn no_line_end(bytes: Seq<u8>, start: int) -> bool {
    forall|j: int| start <= j < bytes.len() ==> bytes[j] != NEWLINE
}

/// The acknowledgement of a header, without its newline: `ack`.
pub open spec fn ack_token() -> Seq<u8> {
    seq![97u8, 99u8, 107u8]
}

/// The answer to a ping: `pong`, with no newline after it.
pub open spec fn pong_token() -> Seq<u8> {
    seq![112u8, 111u8, 110u8, 103u8]
}

/// The tag as it is written: its name between double quotes.
pub open spec fn spec_tag_json(tag: ProtocolTag) -> Seq<u8> {
    seq![QUOTE] + encode_utf8(tag.spec_name()) + seq![QUOTE]
}

/// The tag whose canonical spelling `line` is, if there is one.
pub open spec fn canonical_tag(line: Seq<u8>) -> Option<ProtocolTag> {
    if line == spec_tag_json(ProtocolTag::Ping) {
        Some(ProtocolTag::Ping)
    } else if line == spec_tag_json(ProtocolTag::Http) {
        Some(ProtocolTag::Http)
    } else if line == spec_tag_json(ProtocolTag::HttpProxy) {
        Some(ProtocolTag::HttpProxy)
    } else if line == spec_tag_json(ProtocolTag::Tcp) {
        Some(ProtocolTag::Tcp)
    } else if line == spec_tag_json(ProtocolTag::Execute) {
        Some(ProtocolTag::Execute)
    } else if line == spec_tag_json(ProtocolTag::Shell) {
        Some(ProtocolTag::Shell)
    } else if line == spec_tag_json(ProtocolTag::ConfigSync) {
        Some(ProtocolTag::ConfigSync)
    } else if line == spec_tag_json(ProtocolTag::ConfigUpdate) {
        Some(ProtocolTag::ConfigUpdate)
    } else if line == spec_tag_json(ProtocolTag::ExecuteCommand) {
        Some(ProtocolTag::ExecuteCommand)
    } else if line == spec_tag_json(ProtocolTag::Echo) {
        Some(ProtocolTag::Echo)
    } else if line == spec_tag_json(ProtocolTag::Config) {
        Some(ProtocolTag::Config)
    } else {
        None
    }
}

/// The tag that a header line stands for. A canonical spelling is read
/// directly; any other line is read as a JSON string and looked up by name.
pub open spec fn spec_decode_tag(line: Seq<u8>) -> Option<ProtocolTag> {
    match canonical_tag(line) {
        Some(tag) => Some(tag),
        None => match json_string_value(line) {
            Some(name) => ProtocolTag::spec_from_name(name),
            None => None,
        },
    }
}

/// The bytes that open a stream with `protocol` and `extra`.
pub open spec fn spec_encode_header(protocol: ProtocolTag, extra: Option<Seq<char>>) -> Seq<u8> {
    let first = spec_tag_json(protocol) + seq![NEWLINE];
    match extra {
        Some(text) => first + encode_utf8(text) + seq![NEWLINE],
        None => first,
    }
}

/// Trusted: `String::from_utf8`, which returns the text that the bytes encode
/// and fails exactly when they are not valid UTF-8.
#[verifier::external_body]
pub(crate) fn string_from_utf8(bytes: Vec<u8>) -> (text: Option<String>)
    ensures
        match text {
            Some(s) => valid_utf8(bytes@) && s@ == decode_utf8(bytes@),
            None => !valid_utf8(bytes@),
        },
{
    String::from_utf8(bytes).ok()
}

/// Whether two byte slices hold the same bytes.
pub fn same_bytes(a: &[u8], b: &[u8]) -> (same: bool)
    ensures
        same == (a@ == b@),
{
    if a.len() != b.len() {
        return false;
    }
    let mut i: usize = 0;
    while i < a.len()
        invariant
            a.len() == b.len(),
            i <= a.len(),
            forall|j: int| 0 <= j < i ==> a@[j] == b@[j],
        decreases a.len() - i,
    {
        if a[i] != b[i] {
            return false;
        }
        i += 1;
    }
    assert(a@ =~= b@);
    true
}

/// The line that starts at `start`, and where the next one begins.
///
/// Fails with `Closed` exactly when the input ends before a newline comes.
pub fn next_line(input: &[u8], start: usize) -> (line: Result<(Vec<u8>, usize), FrameError>)
    requires
        start <= input.len(),
    ensures
        match line {
            Ok((bytes, next)) => {
                &&& is_line_end(input@, start as int, next - 1)
                &&& bytes@ == input@.subrange(start as int, next - 1)
            },
            Err(e) => e == FrameError::Closed && no_line_end(input@, start as int),
        },
{
    let mut buffer: Vec<u8> = Vec::with_capacity(LINE_CAPACITY);
    let mut i: usize = start;
    while i < input.len()
        invariant
            start <= i <= input.len(),
            buffer@ == input@.subrange(start as int, i as int),
            forall|j: int| start <= j < i ==> input@[j] != NEWLINE,
        decreases input.len() - i,
    {
        let byte = input[i];
        if byte == NEWLINE {
            return Ok((buffer, i + 1));
        }
        buffer.push(byte);
        assert(buffer@ =~= input@.subrange(start as int, i + 1));
        i += 1;
    }
    Err(FrameError::Closed)
}

/// The text of a line. Fails with `NotUtf8` exactly when the bytes are not
/// valid UTF-8.
pub fn next_string(input: &[u8], start: usize) -> (text: Result<(String, usize), FrameError>)
    requires
        start <= input.len(),
    ensures
        match text {
            Ok((s, next)) => {
                &&& is_line_end(input@, start as int, next - 1)
                &&& valid_utf8(input@.subrange(start as int, next - 1))
                &&& s@ == decode_utf8(input@.subrange(start as int, next - 1))
            },
            Err(FrameError::Closed) => no_line_end(input@, start as int),
            Err(FrameError::NotUtf8) => exists|end: int|
                is_line_end(input@, start as int, end) && !valid_utf8(
                    #[trigger] input@.subrange(start as int, end),
                ),
            Err(FrameError::UnknownTag) => false,
        },
{
    match next_line(input, start) {
        Ok((bytes, next)) => match string_from_utf8(bytes) {
            Some(s) => Ok((s, next)),
            None => Err(FrameError::NotUtf8),
        },
        Err(_) => Err(FrameError::Closed),
    }
}

/// The tag as it is written on the wire.
pub fn tag_json(tag: ProtocolTag) -> (bytes: Vec<u8>)
    ensures
        bytes@ == spec_tag_json(tag),
{
    let mut out: Vec<u8> = Vec::new();
    out.push(QUOTE);
    out.extend_from_slice(tag.name().as_bytes());
    out.push(QUOTE);
    assert(out@ =~= spec_tag_json(tag));
    out
}

/// The tag that a header line names.
pub fn decode_tag(line: &[u8]) -> (tag: Option<ProtocolTag>)
    ensures
        tag == spec_decode_tag(line@),
{
    if same_bytes(line, tag_json(ProtocolTag::Ping).as_slice()) {
        Some(ProtocolTag::Ping)
    } else if same_bytes(line, tag_json(ProtocolTag::Http).as_slice()) {
        Some(ProtocolTag::Http)
    } else if same_bytes(line, tag_json(ProtocolTag::HttpProxy).as_slice()) {
        Some(ProtocolTag::HttpProxy)
    } else if same_bytes(line, tag_json(ProtocolTag::Tcp).as_slice()) {
        Some(ProtocolTag::Tcp)
    } else if same_bytes(line, tag_json(ProtocolTag::Execute).as_slice()) {
        Some(ProtocolTag::Execute)
    } else if same_bytes(line, tag_json(ProtocolTag::Shell).as_slice()) {
        Some(ProtocolTag::Shell)
    } else if same_bytes(line, tag_json(ProtocolTag::ConfigSync).as_slice()) {
        Some(ProtocolTag::ConfigSync)
    } else if same_bytes(line, tag_json(ProtocolTag::ConfigUpdate).as_slice()) {
        Some(ProtocolTag::ConfigUpdate)
    } else if same_bytes(line, tag_json(ProtocolTag::ExecuteCommand).as_slice()) {
        Some(ProtocolTag::ExecuteCommand)
    } else if same_bytes(line, tag_json(ProtocolTag::Echo).as_slice()) {
        Some(ProtocolTag::Echo)
    } else if same_bytes(line, tag_json(ProtocolTag::Config).as_slice()) {
        Some(ProtocolTag::Config)
    } else {
        match parse_string(line) {
            Some(name) => ProtocolTag::from_name(name.as_str()),
            None => None,
        }
    }
}

/// The bytes that open a stream: the tag's line, then the extra line where
/// the header has one.
pub fn encode_header(header: &ProtocolHeader) -> (bytes: Vec<u8>)
    ensures
        bytes@ == spec_encode_header(
            header.protocol,
            match header.extra {
                Some(text) => Some(text@),
                None => None,
            },
        ),
{
    let mut out = tag_json(header.protocol);
    out.push(NEWLINE);
    match &header.extra {
        Some(text) => {
            out.extend_from_slice(text.as_str().as_bytes());
            out.push(NEWLINE);
            assert(out@ =~= spec_tag_json(header.protocol) + seq![NEWLINE] + encode_utf8(text@)
                + seq![NEWLINE]);
        },
        None => {},
    }
    out
}

/// The line that acknowledges a header: `ack` and a newline.
pub fn ack_line() -> (bytes: Vec<u8>)
    ensures
        bytes@ == ack_token() + seq![NEWLINE],
{
    let mut out: Vec<u8> = Vec::new();
    out.push(97u8);
    out.push(99u8);
    out.push(107u8);
    out.push(NEWLINE);
    assert(out@ =~= ack_token() + seq![NEWLINE]);
    out
}

/// The bytes that answer a ping.
pub fn pong_bytes() -> (bytes: Vec<u8>)
    ensures
        bytes@ == pong_token(),
{
    let mut out: Vec<u8> = Vec::new();
    out.push(112u8);
    out.push(111u8);
    out.push(110u8);
    out.push(103u8);
    assert(out@ =~= pong_token());
    out
}

/// Whether a line read back from the far end is the acknowledgement.
pub fn is_ack(line: &[u8]) -> (yes: bool)
    ensures
        yes == (line@ == ack_token()),
{
    let mut expected: Vec<u8> = Vec::new();
    expected.push(97u8);
    expected.push(99u8);
    expected.push(107u8);
    assert(expected@ =~= ack_token());
    same_bytes(line, expected.as_slice())
}

/// What a reader of one line has after a byte, or after the end of the
/// stream.
#[derive(Debug)]
pub enum LineStep {
    /// The line goes on.
    More,
    /// The line is complete: its bytes, without the newline.
    Line(Vec<u8>),
    /// The stream ended before the line did.
    Closed,
}

/// Reads one line, a byte at a time.
pub struct LineReader {
    buffer: Vec<u8>,
}

impl LineReader {
    /// The bytes of the line so far.
    pub closed spec fn view(&self) -> Seq<u8> {
        self.buffer@
    }

    /// A reader that has read nothing, with room for a line of the usual
    /// length.
    pub fn new() -> (reader: Self)
        ensures
            reader@ == Seq::<u8>::empty(),
    {
        LineReader { buffer: Vec::with_capacity(LINE_CAPACITY) }
    }

    /// Takes the next byte of the stream, or `None` where the stream has
    /// ended. A newline completes the line and leaves the reader empty for
    /// the next one; the end of the stream before that is an error.
    pub fn feed(&mut self, read: Option<u8>) -> (step: LineStep)
        ensures
            match read {
                None => step is Closed && final(self)@ == old(self)@,
                Some(byte) => if byte == NEWLINE {
                    &&& step matches LineStep::Line(line)
                    &&& line@ == old(self)@
                    &&& final(self)@ == Seq::<u8>::empty()
                } else {
                    step is More && final(self)@ == old(self)@.push(byte)
                },
            },
    {
        match read {
            None => LineStep::Closed,
            Some(byte) => {
                if byte == NEWLINE {
                    let mut line: Vec<u8> = Vec::new();
                    std::mem::swap(&mut self.buffer, &mut line);
                    LineStep::Line(line)
                } else {
                    self.buffer.push(byte);
                    LineStep::More
                }
            },
        }
    }
}

/// The bytes that ask a peer whether the connection is alive: the header of
/// a ping.
pub fn ping_request() -> (bytes: Vec<u8>)
    ensures
        bytes@ == spec_encode_header(ProtocolTag::Ping, None),
{
    encode_header(&ProtocolHeader { protocol: ProtocolTag::Ping, extra: None })
}

/// Whether what a peer sent back answers a ping.
pub fn is_pong(reply: &[u8]) -> (yes: bool)
    ensures
        yes == (reply@ == pong_token()),
{
    let expected = pong_bytes();
    same_bytes(reply, expected.as_slice())
}

/// Where the line that starts at `start` ends, where it does end.
pub open spec fn line_end(bytes: Seq<u8>, start: int) -> int {
    choose|end: int| is_line_end(bytes, start, end)
}

/// What a reader makes of the opening bytes of a stream: the tag, the extra
/// line where the protocol carries one, and how many bytes the header took.
pub open spec fn spec_decode_header(bytes: Seq<u8>, with_extra: bool) -> Result<
    (ProtocolTag, Option<Seq<char>>, int),
    FrameError,
> {
    if no_line_end(bytes, 0) {
        Err(FrameError::Closed)
    } else {
        let end = line_end(bytes, 0);
        match spec_decode_tag(bytes.subrange(0, end)) {
            None => Err(FrameError::UnknownTag),
            Some(tag) => if !with_extra {
                Ok((tag, None, end + 1))
            } else if no_line_end(bytes, end + 1) {
                Err(FrameError::Closed)
            } else {
                let end2 = line_end(bytes, end + 1);
                let raw = bytes.subrange(end + 1, end2);
                if valid_utf8(raw) {
                    Ok((tag, Some(decode_utf8(raw)), end2 + 1))
                } else {
                    Err(FrameError::NotUtf8)
                }
            },
        }
    }
}

/// A line has one end only.
pub proof fn lemma_line_end_unique(bytes: Seq<u8>, start: int, end: int)
    requires
        is_line_end(bytes, start, end),
    ensures
        line_end(bytes, start) == end,
        !no_line_end(bytes, start),
{
    let chosen = line_end(bytes, start);
    assert(is_line_end(bytes, start, chosen));
    if chosen < end {
        assert(bytes[chosen] != NEWLINE);
    } else if end < chosen {
        assert(bytes[end] != NEWLINE);
    }
}

/// Reads the header of a stream from its opening bytes: the tag's line and,
/// where `with_extra` is set, the line after it.
pub fn decode_header(input: &[u8], with_extra: bool) -> (header: Result<
    (ProtocolHeader, usize),
    FrameError,
>)
    ensures
        match header {
            Ok((h, used)) => spec_decode_header(input@, with_extra) == Ok::<
                (ProtocolTag, Option<Seq<char>>, int),
                FrameError,
            >(
                (
                    h.protocol,
                    match h.extra {
                        Some(text) => Some(text@),
                        None => None,
                    },
                    used as int,
                ),
            ),
            Err(e) => spec_decode_header(input@, with_extra) == Err::<
                (ProtocolTag, Option<Seq<char>>, int),
                FrameError,
            >(e),
        },
{
    let (line, next) = match next_line(input, 0) {
        Ok(found) => found,
        Err(_) => {
            return Err(FrameError::Closed);
        },
    };
    proof {
        lemma_line_end_unique(input@, 0, next - 1);
    }
    let protocol = match decode_tag(line.as_slice()) {
        Some(tag) => tag,
        None => {
            return Err(FrameError::UnknownTag);
        },
    };
    if !with_extra {
        return Ok((ProtocolHeader { protocol, extra: None }, next));
    }
    match next_string(input, next) {
        Ok((text, after)) => {
            proof {
                lemma_line_end_unique(input@, next as int, after - 1);
            }
            Ok((ProtocolHeader { protocol, extra: Some(text) }, after))
        },
        Err(FrameError::Closed) => Err(FrameError::Closed),
        Err(_) => {
            proof {
                let end = choose|end: int|
                    is_line_end(input@, next as int, end) && !valid_utf8(
                        #[trigger] input@.subrange(next as int, end),
                    );
                lemma_line_end_unique(input@, next as int, end);
            }
            Err(FrameError::NotUtf8)
        },
    }
}

proof fn lemma_scalar_keeps_lines(s: u32)
    requires
        is_scalar(s),
        s != 10,
    ensures
        forall|i: int| 0 <= i < encode_scalar(s).len() ==> #[trigger] encode_scalar(s)[i] != NEWLINE,
{
    assert(s <= 0x7F ==> ((s & 0x7F) as u8) != 10u8) by (bit_vector)
        requires
            s != 10,
    ;
    assert((0xC0u8 | (((s >> 6) & 0x1F) as u8)) != 10u8) by (bit_vector);
    assert((0xE0u8 | (((s >> 12) & 0x0F) as u8)) != 10u8) by (bit_vector);
    assert((0xF0u8 | (((s >> 18) & 0x7) as u8)) != 10u8) by (bit_vector);
    assert((0x80u8 | ((s & 0x3F) as u8)) != 10u8) by (bit_vector);
    assert((0x80u8 | (((s >> 6) & 0x3F) as u8)) != 10u8) by (bit_vector);
    assert((0x80u8 | (((s >> 12) & 0x3F) as u8)) != 10u8) by (bit_vector);
}

/// Text without a newline character is written without a newline byte.
pub proof fn lemma_text_keeps_lines(text: Seq<char>)
    requires
        !text.contains('\n'),
    ensures
        no_line_end(encode_utf8(text), 0),
    decreases text.len(),
{
    if text.len() > 0 {
        let rest = text.drop_first();
        assert(text.contains(text[0]));
        assert forall|c: char| rest.contains(c) implies text.contains(c) by {
            let i = choose|i: int| 0 <= i < rest.len() && rest[i] == c;
            assert(text[i + 1] == c);
        }
        lemma_text_keeps_lines(rest);
        let c = text[0];
        if c as u32 == 10 {
            vstd::utf8::char_u32_cast(c, 10u32);
            vstd::utf8::char_u32_cast('\n', 10u32);
        }
        vstd::utf8::char_is_scalar(c);
        lemma_scalar_keeps_lines(c as u32);
    }
}

/// A tag's canonical spelling holds no newline.
pub proof fn lemma_tag_json_keeps_lines(tag: ProtocolTag)
    ensures
        no_line_end(spec_tag_json(tag), 0),
        spec_tag_json(tag).len() == tag.spec_name().len() + 2,
{
    lemma_tag_names();
    let name = tag.spec_name();
    assert(is_ascii_chars(name));
    is_ascii_chars_encode_utf8(name);
    let bytes = encode_utf8(name);
    assert forall|j: int| 0 <= j < bytes.len() implies bytes[j] != NEWLINE by {
        assert(name[j] as u8 == bytes[j]);
    }
}

/// Each tag is read back from its canonical spelling.
pub proof fn lemma_tag_round_trip(tag: ProtocolTag)
    ensures
        spec_decode_tag(spec_tag_json(tag)) == Some(tag),
{
    assert forall|other: ProtocolTag| spec_tag_json(other) == spec_tag_json(tag) implies other
        == tag by {
        let a = encode_utf8(other.spec_name());
        let b = encode_utf8(tag.spec_name());
        let ja = spec_tag_json(other);
        let jb = spec_tag_json(tag);
        assert(ja.subrange(1, 1 + a.len() as int) =~= a);
        assert(jb.subrange(1, 1 + b.len() as int) =~= b);
        assert(ja.len() == a.len() + 2);
        assert(jb.len() == b.len() + 2);
        assert(a == b);
        encode_utf8_decode_utf8(other.spec_name());
        encode_utf8_decode_utf8(tag.spec_name());
        lemma_name_round_trip(other);
        lemma_name_round_trip(tag);
    }
}

/// Header round trip: what is written for a tag and an extra line is read
/// back as that tag and that line, and takes every byte written. The extra
/// line must hold no newline character, which would end it early.
pub proof fn lemma_header_round_trip(protocol: ProtocolTag, extra: Option<Seq<char>>)
    requires
        match extra {
            Some(text) => !text.contains('\n'),
            None => true,
        },
    ensures
        spec_decode_header(spec_encode_header(protocol, extra), extra.is_some()) == Ok::<
            (ProtocolTag, Option<Seq<char>>, int),
            FrameError,
        >((protocol, extra, spec_encode_header(protocol, extra).len() as int)),
{
    let bytes = spec_encode_header(protocol, extra);
    let json = spec_tag_json(protocol);
    let end = json.len() as int;
    lemma_tag_json_keeps_lines(protocol);
    lemma_tag_round_trip(protocol);
    assert(bytes[end] == NEWLINE);
    assert forall|j: int| 0 <= j < end implies bytes[j] != NEWLINE by {
        assert(bytes[j] == json[j]);
    }
    assert(is_line_end(bytes, 0, end));
    lemma_line_end_unique(bytes, 0, end);
    assert(bytes.subrange(0, end) =~= json);
    match extra {
        Some(text) => {
            let raw = encode_utf8(text);
            lemma_text_keeps_lines(text);
            let end2 = end + 1 + raw.len();
            assert(bytes.len() == end2 + 1);
            assert(bytes[end2] == NEWLINE);
            assert forall|j: int| end + 1 <= j < end2 implies bytes[j] != NEWLINE by {
                assert(bytes[j] == raw[j - end - 1]);
            }
            assert(is_line_end(bytes, end + 1, end2));
            lemma_line_end_unique(bytes, end + 1, end2);
            assert(bytes.subrange(end + 1, end2) =~= raw);
            encode_utf8_valid_utf8(text);
            encode_utf8_decode_utf8(text);
        },
        None => {
            assert(bytes.len() == end + 1);
        },
    }
}

} // verus!
