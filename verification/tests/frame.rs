use malai::frame::{
    ack_line, decode_header, decode_tag, encode_header, is_ack, next_line, next_string,
    pong_bytes, same_bytes, tag_json, FrameError,
};
use malai::listener::{accept_bi, accept_bi_with, StreamDisposition};
use malai::tag::{ProtocolHeader, ProtocolTag};

const ALL_TAGS: [ProtocolTag; 11] = [
    ProtocolTag::Ping,
    ProtocolTag::Http,
    ProtocolTag::HttpProxy,
    ProtocolTag::Tcp,
    ProtocolTag::Execute,
    ProtocolTag::Shell,
    ProtocolTag::ConfigSync,
    ProtocolTag::ConfigUpdate,
    ProtocolTag::ExecuteCommand,
    ProtocolTag::Echo,
    ProtocolTag::Config,
];

#[test]
fn frame_tokens() {
    assert_eq!(ack_line(), b"ack\n".to_vec());
    assert_eq!(pong_bytes(), b"pong".to_vec());
    assert!(is_ack(b"ack"));
    assert!(!is_ack(b"ack\n"));
    assert!(!is_ack(b"ACK"));
    assert!(!is_ack(b""));
    assert!(same_bytes(b"ab", b"ab"));
    assert!(!same_bytes(b"ab", b"abc"));
    assert!(!same_bytes(b"ab", b"ac"));
}

#[test]
fn frame_tag_names_round_trip() {
    for tag in ALL_TAGS {
        assert_eq!(ProtocolTag::from_name(tag.name()), Some(tag));
        assert_eq!(decode_tag(&tag_json(tag)), Some(tag));
    }
    assert_eq!(ProtocolTag::from_name("ping"), None);
    assert_eq!(ProtocolTag::from_name(""), None);
    assert!(ProtocolTag::Echo.is_among(&ALL_TAGS));
    assert!(!ProtocolTag::Echo.is_among(&[ProtocolTag::Ping, ProtocolTag::Tcp]));
    assert!(!ProtocolTag::Echo.is_among(&[]));
}

#[test]
fn frame_next_line_reads_up_to_the_newline() {
    let input = b"one\ntwo\n\nrest";
    assert_eq!(next_line(input, 0), Ok((b"one".to_vec(), 4)));
    assert_eq!(next_line(input, 4), Ok((b"two".to_vec(), 8)));
    assert_eq!(next_line(input, 8), Ok((Vec::new(), 9)));
    assert_eq!(next_line(input, 9), Err(FrameError::Closed));
    assert_eq!(next_line(input, input.len()), Err(FrameError::Closed));
    assert_eq!(next_line(b"", 0), Err(FrameError::Closed));
}

#[test]
fn frame_next_string_checks_utf8() {
    assert_eq!(next_string("héllo\n".as_bytes(), 0), Ok(("héllo".to_string(), 7)));
    assert_eq!(next_string(&[0xff, 0xfe, b'\n'], 0), Err(FrameError::NotUtf8));
    assert_eq!(next_string(b"no newline", 0), Err(FrameError::Closed));
}

#[test]
fn frame_decode_tag_reads_json_strings() {
    assert_eq!(decode_tag(b"\"Execute\""), Some(ProtocolTag::Execute));
    assert_eq!(decode_tag(b"  \"Execute\" "), Some(ProtocolTag::Execute));
    assert_eq!(decode_tag(b"\"\\u0050ing\""), Some(ProtocolTag::Ping));
    assert_eq!(decode_tag(b"Execute"), None);
    assert_eq!(decode_tag(b"\"Unknown\""), None);
    assert_eq!(decode_tag(b"\"Execute\" x"), None);
    assert_eq!(decode_tag(b"17"), None);
    assert_eq!(decode_tag(b""), None);
}

#[test]
fn frame_header_round_trip() {
    let extras = [None, Some(""), Some("second line"), Some("ünïcödé ✓"), Some("{\"a\":1}")];
    for tag in ALL_TAGS {
        for extra in extras {
            let header = ProtocolHeader { protocol: tag, extra: extra.map(|e| e.to_string()) };
            let bytes = encode_header(&header);
            let (read, used) = decode_header(&bytes, extra.is_some()).unwrap();
            assert_eq!(read.protocol, tag);
            assert_eq!(read.extra.as_deref(), extra);
            assert_eq!(used, bytes.len());
        }
    }
}

#[test]
fn frame_header_bytes() {
    let header = ProtocolHeader { protocol: ProtocolTag::Tcp, extra: None };
    assert_eq!(encode_header(&header), b"\"Tcp\"\n".to_vec());
    let header = ProtocolHeader { protocol: ProtocolTag::Http, extra: Some("x".to_string()) };
    assert_eq!(encode_header(&header), b"\"Http\"\nx\n".to_vec());
}

#[test]
fn frame_extra_with_newline_is_cut_short() {
    let header =
        ProtocolHeader { protocol: ProtocolTag::Http, extra: Some("a\nb".to_string()) };
    let bytes = encode_header(&header);
    let (read, used) = decode_header(&bytes, true).unwrap();
    assert_eq!(read.extra.as_deref(), Some("a"));
    assert!(used < bytes.len());
}

#[test]
fn frame_decode_header_errors() {
    assert_eq!(decode_header(b"\"Http\"", false).unwrap_err(), FrameError::Closed);
    assert_eq!(decode_header(b"\"Nope\"\n", false).unwrap_err(), FrameError::UnknownTag);
    assert_eq!(decode_header(b"\"Http\"\nextra", true).unwrap_err(), FrameError::Closed);
    assert_eq!(decode_header(b"\"Http\"\n\xff\n", true).unwrap_err(), FrameError::NotUtf8);
}

#[test]
fn listener_ping_is_answered_and_never_dispatched() {
    let declared = [ProtocolTag::ConfigUpdate, ProtocolTag::ExecuteCommand];
    let dispatch = accept_bi(&tag_json(ProtocolTag::Ping), &declared);
    assert_eq!(dispatch.disposition, StreamDisposition::Pong);
    assert_eq!(dispatch.reply, b"pong".to_vec());
    let with_ping_declared = accept_bi(&tag_json(ProtocolTag::Ping), &ALL_TAGS);
    assert_eq!(with_ping_declared.disposition, StreamDisposition::Pong);
    assert_eq!(with_ping_declared.reply, b"pong".to_vec());
    let expected_ping = accept_bi_with(&tag_json(ProtocolTag::Ping), ProtocolTag::Ping);
    assert_eq!(expected_ping.disposition, StreamDisposition::Pong);
}

#[test]
fn listener_acknowledges_declared_tags_only() {
    let declared = [ProtocolTag::ConfigUpdate, ProtocolTag::ExecuteCommand];
    let accepted = accept_bi(b"\"ExecuteCommand\"", &declared);
    assert_eq!(accepted.disposition, StreamDisposition::Accepted(ProtocolTag::ExecuteCommand));
    assert_eq!(accepted.reply, b"ack\n".to_vec());
    let rejected = accept_bi(b"\"Shell\"", &declared);
    assert_eq!(rejected.disposition, StreamDisposition::Rejected(ProtocolTag::Shell));
    assert!(rejected.reply.is_empty());
    let malformed = accept_bi(b"garbage", &declared);
    assert_eq!(malformed.disposition, StreamDisposition::Malformed);
    assert!(malformed.reply.is_empty());
    let single = accept_bi_with(b"\"Tcp\"", ProtocolTag::Tcp);
    assert_eq!(single.disposition, StreamDisposition::Accepted(ProtocolTag::Tcp));
    let wrong = accept_bi_with(b"\"Tcp\"", ProtocolTag::Http);
    assert_eq!(wrong.disposition, StreamDisposition::Rejected(ProtocolTag::Tcp));
}
