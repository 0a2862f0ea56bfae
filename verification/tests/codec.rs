use bililive_core::errors::ProtocolError;
use bililive_core::events::{extract_events, parse_events};
use std::io::Write;

use bililive_core::packet::{
    decode_packets, encode_packet, BiliPacket, OP_AUTH, OP_HEARTBEAT, OP_SEND_EVENT,
};

fn zlib_compress(data: &[u8]) -> Vec<u8> {
    let mut encoder =
        flate2::write::ZlibEncoder::new(Vec::new(), flate2::Compression::default());
    encoder.write_all(data).unwrap();
    encoder.finish().unwrap()
}

/// A frame with an arbitrary version, built by hand.
fn raw_frame(version: u16, operation: u32, body: &[u8]) -> Vec<u8> {
    let total = 16 + body.len() as u32;
    let mut out = Vec::new();
    out.extend_from_slice(&total.to_be_bytes());
    out.extend_from_slice(&16u16.to_be_bytes());
    out.extend_from_slice(&version.to_be_bytes());
    out.extend_from_slice(&operation.to_be_bytes());
    out.extend_from_slice(&1u32.to_be_bytes());
    out.extend_from_slice(body);
    out
}

#[test]
fn encode_layout_is_exact() {
    let buf = encode_packet(OP_HEARTBEAT, b"ab");
    assert_eq!(
        buf,
        vec![0, 0, 0, 18, 0, 16, 0, 1, 0, 0, 0, 2, 0, 0, 0, 1, b'a', b'b']
    );
}

#[test]
fn decode_of_encode_yields_one_identical_frame() {
    let body = b"hello world".to_vec();
    let buf = encode_packet(OP_AUTH, &body);
    let frames = decode_packets(&buf).unwrap();
    assert_eq!(frames.len(), 1);
    let f = &frames[0];
    assert_eq!(f.operation, OP_AUTH);
    assert_eq!(f.version, 1);
    assert_eq!(f.sequence, 1);
    assert_eq!(f.header_len, 16);
    assert_eq!(f.packet_len, 16 + body.len() as u32);
    assert_eq!(f.body, body);
}

#[test]
fn decode_of_encode_with_empty_body() {
    let buf = encode_packet(OP_HEARTBEAT, &[]);
    let frames = decode_packets(&buf).unwrap();
    assert_eq!(frames.len(), 1);
    assert_eq!(frames[0].operation, OP_HEARTBEAT);
    assert_eq!(frames[0].body, Vec::<u8>::new());
}

#[test]
fn decode_two_frames_back_to_back() {
    let mut buf = encode_packet(3, b"x");
    buf.extend_from_slice(&encode_packet(8, b"yz"));
    let frames = decode_packets(&buf).unwrap();
    assert_eq!(frames.len(), 2);
    assert_eq!(frames[0].operation, 3);
    assert_eq!(frames[0].body, b"x".to_vec());
    assert_eq!(frames[1].operation, 8);
    assert_eq!(frames[1].body, b"yz".to_vec());
}

#[test]
fn decode_ignores_incomplete_trailing_frame() {
    let mut buf = encode_packet(5, b"good");
    // a tail that declares 100 bytes but carries far fewer
    buf.extend_from_slice(&100u32.to_be_bytes());
    buf.extend_from_slice(&[0, 16, 0, 1, 0, 0, 0, 5, 0, 0, 0, 1, 1, 2, 3]);
    let frames = decode_packets(&buf).unwrap();
    assert_eq!(frames.len(), 1);
    assert_eq!(frames[0].body, b"good".to_vec());
}

#[test]
fn decode_ignores_tail_shorter_than_a_header() {
    let mut buf = encode_packet(5, b"good");
    buf.extend_from_slice(&[0, 0, 0]);
    let frames = decode_packets(&buf).unwrap();
    assert_eq!(frames.len(), 1);
}

#[test]
fn decode_stops_on_zero_total_len() {
    let mut buf = encode_packet(5, b"first");
    buf.extend_from_slice(&[0u8; 16]); // total_len = 0: scan terminates
    buf.extend_from_slice(&encode_packet(5, b"unreached"));
    let frames = decode_packets(&buf).unwrap();
    assert_eq!(frames.len(), 1);
    assert_eq!(frames[0].body, b"first".to_vec());
}

#[test]
fn decode_empty_buffer_yields_nothing() {
    assert_eq!(decode_packets(&[]).unwrap().len(), 0);
}

#[test]
fn decode_flattens_compressed_container() {
    let mut inner = encode_packet(OP_SEND_EVENT, b"{\"cmd\":\"A\"}");
    inner.extend_from_slice(&encode_packet(OP_SEND_EVENT, b"{\"cmd\":\"B\"}"));
    inner.extend_from_slice(&encode_packet(OP_HEARTBEAT, b""));
    let compressed = zlib_compress(&inner);
    let buf = raw_frame(2, OP_SEND_EVENT, &compressed);
    let frames = decode_packets(&buf).unwrap();
    assert_eq!(frames.len(), 3);
    assert_eq!(frames[0].body, b"{\"cmd\":\"A\"}".to_vec());
    assert_eq!(frames[1].body, b"{\"cmd\":\"B\"}".to_vec());
    assert_eq!(frames[2].operation, OP_HEARTBEAT);
    // the container frames all came out as plain frames
    assert!(frames.iter().all(|f| f.version == 1));
}

#[test]
fn decode_nested_containers_flatten_recursively() {
    let leaf = encode_packet(OP_SEND_EVENT, b"deep");
    let level1 = raw_frame(2, OP_SEND_EVENT, &zlib_compress(&leaf));
    let level2 = raw_frame(2, OP_SEND_EVENT, &zlib_compress(&level1));
    let frames = decode_packets(&level2).unwrap();
    assert_eq!(frames.len(), 1);
    assert_eq!(frames[0].body, b"deep".to_vec());
}

#[test]
fn decode_rejects_header_longer_than_frame() {
    // total_len = 17, header_len = 18
    let mut buf = Vec::new();
    buf.extend_from_slice(&17u32.to_be_bytes());
    buf.extend_from_slice(&18u16.to_be_bytes());
    buf.extend_from_slice(&1u16.to_be_bytes());
    buf.extend_from_slice(&5u32.to_be_bytes());
    buf.extend_from_slice(&1u32.to_be_bytes());
    buf.push(0);
    assert_eq!(decode_packets(&buf).unwrap_err(), ProtocolError::MalformedHeader);
}

#[test]
fn decode_rejects_malformed_compressed_body() {
    let buf = raw_frame(2, OP_SEND_EVENT, b"this is not a zlib stream");
    assert_eq!(decode_packets(&buf).unwrap_err(), ProtocolError::InflateFailed);
}

#[test]
fn decode_rejects_too_deep_nesting() {
    let mut frame = encode_packet(OP_SEND_EVENT, b"leaf");
    for _ in 0..9 {
        frame = raw_frame(2, OP_SEND_EVENT, &zlib_compress(&frame));
    }
    assert_eq!(decode_packets(&frame).unwrap_err(), ProtocolError::DepthExceeded);
}

#[test]
fn decode_rejects_oversized_inflated_body() {
    let zeros = vec![0u8; 16777217];
    let buf = raw_frame(2, OP_SEND_EVENT, &zlib_compress(&zeros));
    assert_eq!(decode_packets(&buf).unwrap_err(), ProtocolError::InflatedTooLarge);
}

fn send_event_packet(body: &[u8]) -> BiliPacket {
    BiliPacket {
        packet_len: 16 + body.len() as u32,
        header_len: 16,
        version: 1,
        operation: OP_SEND_EVENT,
        sequence: 1,
        body: body.to_vec(),
    }
}

#[test]
fn three_documents_one_malformed_yield_two_events() {
    let body = b"{\"cmd\":\"DM\",\"data\":{\"msg\":\"hi\"}}\0{oops\0{\"cmd\":\"GIFT\"}";
    let events = parse_events(&send_event_packet(body));
    assert_eq!(events.len(), 2);
    assert_eq!(events[0].cmd, "DM");
    assert_eq!(events[1].cmd, "GIFT");
    assert_eq!(events[0].data["msg"], serde_json::Value::String("hi".to_string()));
}

#[test]
fn document_without_cmd_string_is_skipped() {
    let body = b"{\"data\":1}\0{\"cmd\":7}\0{\"cmd\":\"OK\"}";
    let events = parse_events(&send_event_packet(body));
    assert_eq!(events.len(), 1);
    assert_eq!(events[0].cmd, "OK");
}

#[test]
fn empty_chunks_between_delimiters_are_skipped() {
    let body = b"\0\0{\"cmd\":\"A\"}\0\0{\"cmd\":\"B\"}\0";
    let events = parse_events(&send_event_packet(body));
    assert_eq!(events.len(), 2);
    assert_eq!(events[0].cmd, "A");
    assert_eq!(events[1].cmd, "B");
}

#[test]
fn missing_data_field_falls_back_to_null() {
    let events = parse_events(&send_event_packet(b"{\"cmd\":\"X\"}"));
    assert_eq!(events.len(), 1);
    assert_eq!(events[0].data, serde_json::Value::Null);
}

#[test]
fn extract_events_reads_only_send_event_frames() {
    let reply = BiliPacket {
        packet_len: 16,
        header_len: 16,
        version: 1,
        operation: 8,
        sequence: 1,
        body: b"{\"cmd\":\"IGNORED\"}".to_vec(),
    };
    let packets = vec![
        reply,
        send_event_packet(b"{\"cmd\":\"A\"}"),
        send_event_packet(b"{\"cmd\":\"B\"}\0{\"cmd\":\"C\"}"),
    ];
    let events = extract_events(&packets);
    let cmds: Vec<&str> = events.iter().map(|e| e.cmd.as_str()).collect();
    assert_eq!(cmds, vec!["A", "B", "C"]);
}
