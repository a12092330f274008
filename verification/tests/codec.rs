use chat_transport::codec::{decode_message, decode_request, decode_response};
use chat_transport::proto::{ChatMessageType, MessageProto, RequestProto, ResponseProto};
use chat_transport::wire::{read_field, read_fields, read_varint, write_varint, FieldData};
use chat_transport::wire::{write_bytes_field, write_varint_field};
use prost::encoding::WireType;

fn sample_request(id: u64, path: &str) -> RequestProto {
    RequestProto {
        verb: Some("GET".to_string()),
        path: Some(path.to_string()),
        body: None,
        headers: vec!["req-header: value".to_string()],
        id: Some(id),
    }
}

fn sample_response(id: u64, status: u32) -> ResponseProto {
    ResponseProto {
        id: Some(id),
        status: Some(status),
        message: Some("OK".to_string()),
        headers: vec!["resp-header: value".to_string()],
        body: Some(vec![1, 2, 3]),
    }
}

/// The bytes of a request, put together from the field encoders of the
/// protobuf library, in the order of the tags.
fn request_bytes_by_field(r: &RequestProto) -> Vec<u8> {
    let mut inner: Vec<u8> = Vec::new();
    if let Some(verb) = &r.verb {
        prost::encoding::string::encode(1, verb, &mut inner);
    }
    if let Some(path) = &r.path {
        prost::encoding::string::encode(2, path, &mut inner);
    }
    if let Some(body) = &r.body {
        prost::encoding::bytes::encode(3, body, &mut inner);
    }
    if let Some(id) = &r.id {
        prost::encoding::uint64::encode(4, id, &mut inner);
    }
    for h in &r.headers {
        prost::encoding::string::encode(5, h, &mut inner);
    }
    inner
}

/// The bytes of a response, put together in the same way.
fn response_bytes_by_field(r: &ResponseProto) -> Vec<u8> {
    let mut inner: Vec<u8> = Vec::new();
    if let Some(id) = &r.id {
        prost::encoding::uint64::encode(1, id, &mut inner);
    }
    if let Some(status) = &r.status {
        prost::encoding::uint32::encode(2, status, &mut inner);
    }
    if let Some(message) = &r.message {
        prost::encoding::string::encode(3, message, &mut inner);
    }
    if let Some(body) = &r.body {
        prost::encoding::bytes::encode(4, body, &mut inner);
    }
    for h in &r.headers {
        prost::encoding::string::encode(5, h, &mut inner);
    }
    inner
}

/// The bytes of an envelope, put together in the same way.
fn message_bytes_by_field(m: &MessageProto) -> Vec<u8> {
    let mut out: Vec<u8> = Vec::new();
    if let Some(t) = &m.message_type {
        prost::encoding::int32::encode(1, t, &mut out);
    }
    if let Some(r) = &m.request {
        let inner = request_bytes_by_field(r);
        prost::encoding::encode_key(2, WireType::LengthDelimited, &mut out);
        prost::encoding::encode_varint(inner.len() as u64, &mut out);
        out.extend_from_slice(&inner);
    }
    if let Some(r) = &m.response {
        let inner = response_bytes_by_field(r);
        prost::encoding::encode_key(3, WireType::LengthDelimited, &mut out);
        prost::encoding::encode_varint(inner.len() as u64, &mut out);
        out.extend_from_slice(&inner);
    }
    out
}

#[test]
fn request_bytes_are_in_tag_order() {
    let mut ours: Vec<u8> = Vec::new();
    sample_request(42, "/first").encode(&mut ours);
    let expected: Vec<u8> = [
        &[0x0a, 0x03][..],
        b"GET",
        &[0x12, 0x06],
        b"/first",
        &[0x20, 0x2a],
        &[0x2a, 0x11],
        b"req-header: value",
    ]
    .concat();
    assert_eq!(ours, expected);

    // With a body and two header lines: body, identifier, then the lines.
    let request = RequestProto {
        verb: Some("PUT".to_string()),
        path: Some("/".to_string()),
        body: Some(vec![0xde, 0xad]),
        headers: vec!["a: 1".to_string(), "b: 2".to_string()],
        id: Some(300),
    };
    let mut ours: Vec<u8> = Vec::new();
    request.encode(&mut ours);
    let expected: Vec<u8> = [
        &[0x0a, 0x03][..],
        b"PUT",
        &[0x12, 0x01],
        b"/",
        &[0x1a, 0x02, 0xde, 0xad],
        &[0x20, 0xac, 0x02],
        &[0x2a, 0x04],
        b"a: 1",
        &[0x2a, 0x04],
        b"b: 2",
    ]
    .concat();
    assert_eq!(ours, expected);
}

#[test]
fn response_bytes_are_in_tag_order() {
    let mut ours: Vec<u8> = Vec::new();
    sample_response(88, 200).encode(&mut ours);
    let expected: Vec<u8> = [
        &[0x08, 0x58][..],
        &[0x10, 0xc8, 0x01],
        &[0x1a, 0x02],
        b"OK",
        &[0x22, 0x03, 0x01, 0x02, 0x03],
        &[0x2a, 0x12],
        b"resp-header: value",
    ]
    .concat();
    assert_eq!(ours, expected);
}

#[test]
fn envelope_bytes_are_in_tag_order() {
    let envelope = MessageProto {
        message_type: Some(1),
        request: Some(sample_request(42, "/first")),
        response: None,
    };
    let expected: Vec<u8> = [
        &[0x08, 0x01, 0x12, 0x22][..],
        &[0x0a, 0x03],
        b"GET",
        &[0x12, 0x06],
        b"/first",
        &[0x20, 0x2a],
        &[0x2a, 0x11],
        b"req-header: value",
    ]
    .concat();
    assert_eq!(envelope.encode_to_vec(), expected);

    let envelope = MessageProto {
        message_type: Some(2),
        request: None,
        response: Some(ResponseProto {
            id: Some(42),
            status: Some(200),
            message: None,
            headers: vec!["resp-header: value".to_string()],
            body: None,
        }),
    };
    let expected: Vec<u8> = [
        &[0x08, 0x02, 0x1a, 0x19][..],
        &[0x08, 0x2a],
        &[0x10, 0xc8, 0x01],
        &[0x2a, 0x12],
        b"resp-header: value",
    ]
    .concat();
    assert_eq!(envelope.encode_to_vec(), expected);

    // A negative tag takes ten bytes.
    let envelope = MessageProto { message_type: Some(-1), request: None, response: None };
    assert_eq!(
        envelope.encode_to_vec(),
        vec![0x08, 0xff, 0xff, 0xff, 0xff, 0xff, 0xff, 0xff, 0xff, 0xff, 0x01]
    );
}

#[test]
fn varint_matches_library_encoder() {
    let values: [u64; 12] = [
        0,
        1,
        127,
        128,
        129,
        300,
        16383,
        16384,
        0xffff_ffff,
        0x7fff_ffff_ffff_ffff,
        0x8000_0000_0000_0000,
        u64::MAX,
    ];
    for v in values {
        let mut ours: Vec<u8> = Vec::new();
        write_varint(&mut ours, v);
        let mut theirs: Vec<u8> = Vec::new();
        prost::encoding::encode_varint(v, &mut theirs);
        assert_eq!(ours, theirs, "value {v}");
        assert_eq!(read_varint(&ours, 0), Some((v, ours.len())));
        let mut slice: &[u8] = &ours;
        assert_eq!(prost::encoding::decode_varint(&mut slice).unwrap(), v);
    }
}

#[test]
fn varint_exact_bytes() {
    let mut out: Vec<u8> = vec![0xaa];
    write_varint(&mut out, 300);
    assert_eq!(out, vec![0xaa, 0xac, 0x02]);
    let mut out: Vec<u8> = Vec::new();
    write_varint(&mut out, u64::MAX);
    assert_eq!(out, vec![0xff, 0xff, 0xff, 0xff, 0xff, 0xff, 0xff, 0xff, 0xff, 0x01]);
}

#[test]
fn varint_reads_from_an_offset() {
    let data: Vec<u8> = vec![0x00, 0x96, 0x01, 0x7f];
    assert_eq!(read_varint(&data, 1), Some((150, 2)));
    assert_eq!(read_varint(&data, 3), Some((127, 1)));
    assert_eq!(read_varint(&data, 4), None);
}

#[test]
fn varint_accepts_padding_and_refuses_overflow() {
    // Zero, padded with an empty group.
    assert_eq!(read_varint(&[0x80, 0x00], 0), Some((0, 2)));
    // Unfinished.
    assert_eq!(read_varint(&[0x80], 0), None);
    assert_eq!(read_varint(&[], 0), None);
    // The tenth byte may only hold one bit.
    let mut too_big: Vec<u8> = vec![0xff; 9];
    too_big.push(0x02);
    assert_eq!(read_varint(&too_big, 0), None);
    // Eleven bytes are never accepted.
    let mut too_long: Vec<u8> = vec![0x80; 10];
    too_long.push(0x00);
    assert_eq!(read_varint(&too_long, 0), None);
}

#[test]
fn fields_are_tokenized() {
    let mut data: Vec<u8> = Vec::new();
    write_varint_field(&mut data, 4, 42);
    write_bytes_field(&mut data, 1, b"GET");
    let fields = read_fields(&data, 100).expect("well formed");
    assert_eq!(fields.len(), 2);
    assert_eq!(fields[0].tag, 4);
    assert_eq!(fields[0].data, FieldData::Varint(42));
    assert_eq!(fields[1].tag, 1);
    assert_eq!(fields[1].data, FieldData::Bytes(b"GET".to_vec()));
    assert_eq!(data, vec![0x20, 42, 0x0a, 3, b'G', b'E', b'T']);
}

#[test]
fn fixed_width_fields_are_passed_over() {
    // Tag 9 with eight bytes, tag 10 with four bytes, then the identifier.
    let mut data: Vec<u8> = vec![0x49, 1, 2, 3, 4, 5, 6, 7, 8, 0x55, 1, 2, 3, 4];
    write_varint_field(&mut data, 4, 7);
    let (first, n) = read_field(&data, 0, 100).expect("field");
    assert_eq!((first.tag, n), (9, 9));
    assert_eq!(first.data, FieldData::Fixed64);
    let (second, n) = read_field(&data, 9, 100).expect("field");
    assert_eq!((second.tag, n), (10, 5));
    assert_eq!(second.data, FieldData::Fixed32);
    let request = decode_request(&data, RequestProto::empty()).expect("decodes");
    assert_eq!(request.id, Some(7));
    assert_eq!(request.verb, None);
}

#[test]
fn groups_are_passed_over() {
    // Group 1 holds field 1 = 1 and an empty group 2; then comes the identifier.
    let mut data: Vec<u8> = vec![0x0b, 0x08, 0x01, 0x13, 0x14, 0x0c];
    write_varint_field(&mut data, 4, 7);
    let (group, n) = read_field(&data, 0, 100).expect("field");
    assert_eq!((group.tag, n), (1, 6));
    assert_eq!(group.data, FieldData::Group);
    // With one level left the inner group is too deep.
    assert!(read_field(&data, 0, 2).is_some());
    assert!(read_field(&data, 0, 1).is_none());
    assert!(read_field(&data, 0, 0).is_none());
    // A group under the tag of a known field is refused, under another it is skipped.
    assert_eq!(decode_request(&data, RequestProto::empty()), None);
    data[0] = 0x4b;
    data[5] = 0x4c;
    let request = decode_request(&data, RequestProto::empty()).expect("decodes");
    assert_eq!(request, RequestProto { id: Some(7), ..RequestProto::empty() });
}

#[test]
fn malformed_fields_are_refused() {
    // Tag zero.
    assert!(read_field(&[0x00, 0x00], 0, 100).is_none());
    // The end of a group that was not begun, a group that is not ended, and one
    // that is ended under another tag.
    assert!(read_field(&[0x0c], 0, 100).is_none());
    assert!(read_field(&[0x0b, 0x08, 0x01], 0, 100).is_none());
    assert!(read_field(&[0x0b, 0x14], 0, 100).is_none());
    // Shapes that do not exist.
    assert!(read_field(&[0x0e, 0x00], 0, 100).is_none());
    assert!(read_field(&[0x0f, 0x00], 0, 100).is_none());
    // A length that runs over the end.
    assert!(read_field(&[0x0a, 0x05, b'a'], 0, 100).is_none());
    // Fixed-width values that are cut short.
    assert!(read_field(&[0x49, 1, 2, 3], 0, 100).is_none());
    assert!(read_field(&[0x55, 1, 2, 3], 0, 100).is_none());
    // A key beyond 32 bits.
    assert!(read_field(&[0x80, 0x80, 0x80, 0x80, 0x10, 0x00], 0, 100).is_none());
    assert!(read_fields(&[0x20], 100).is_none());
}

#[test]
fn request_bytes_match_field_encoders() {
    let request = sample_request(42, "/first");
    let mut ours: Vec<u8> = Vec::new();
    request.encode(&mut ours);
    assert_eq!(ours, request_bytes_by_field(&request));
}

#[test]
fn response_bytes_match_field_encoders() {
    let response = sample_response(88, 200);
    let mut ours: Vec<u8> = Vec::new();
    response.encode(&mut ours);
    assert_eq!(ours, response_bytes_by_field(&response));
}

#[test]
fn envelope_bytes_match_field_encoders() {
    let envelope = MessageProto {
        message_type: Some(1),
        request: Some(sample_request(u64::MAX, "/third")),
        response: None,
    };
    assert_eq!(envelope.encode_to_vec(), message_bytes_by_field(&envelope));
    let envelope = MessageProto {
        message_type: Some(-7),
        request: None,
        response: Some(sample_response(1, 404)),
    };
    assert_eq!(envelope.encode_to_vec(), message_bytes_by_field(&envelope));
}

#[test]
fn envelope_round_trip() {
    let cases = vec![
        MessageProto { message_type: None, request: None, response: None },
        MessageProto { message_type: Some(0), request: None, response: None },
        MessageProto {
            message_type: Some(1),
            request: Some(sample_request(42, "/first")),
            response: None,
        },
        MessageProto {
            message_type: Some(2),
            request: None,
            response: Some(sample_response(43, 200)),
        },
        MessageProto {
            message_type: Some(i32::MIN),
            request: Some(RequestProto::empty()),
            response: Some(ResponseProto::empty()),
        },
        MessageProto {
            message_type: Some(i32::MAX),
            request: Some(RequestProto {
                verb: Some(String::new()),
                path: Some("/\u{e9}\u{4e2d}\u{1f600}".to_string()),
                body: Some(vec![0; 300]),
                headers: vec![String::new(), "a: b".to_string(), "c:d".to_string()],
                id: Some(0),
            }),
            response: Some(ResponseProto {
                id: Some(u64::MAX),
                status: Some(u32::MAX),
                message: None,
                headers: Vec::new(),
                body: Some(Vec::new()),
            }),
        },
    ];
    for envelope in cases {
        let bytes = envelope.encode_to_vec();
        assert_eq!(decode_message(&bytes), Some(envelope));
    }
}

#[test]
fn empty_bytes_are_an_empty_envelope() {
    assert_eq!(decode_message(&[]), Some(MessageProto::empty()));
    assert_eq!(MessageProto::empty().encode_to_vec(), Vec::<u8>::new());
}

#[test]
fn text_must_be_utf8() {
    // A request whose verb is the single byte 0xff.
    let mut inner: Vec<u8> = Vec::new();
    write_bytes_field(&mut inner, 1, &[0xff]);
    assert_eq!(decode_request(&inner, RequestProto::empty()), None);
    // The same bytes as a body are fine.
    let mut inner: Vec<u8> = Vec::new();
    write_bytes_field(&mut inner, 3, &[0xff]);
    let request = decode_request(&inner, RequestProto::empty()).expect("decodes");
    assert_eq!(request.body, Some(vec![0xff]));
}

#[test]
fn text_is_decoded_not_copied() {
    let mut inner: Vec<u8> = Vec::new();
    write_bytes_field(&mut inner, 3, "\u{e9}".as_bytes());
    write_bytes_field(&mut inner, 2, "\u{e9}".as_bytes());
    let request = decode_request(&inner, RequestProto::empty()).expect("decodes");
    assert_eq!(request.path.as_deref(), Some("\u{e9}"));
    assert_eq!(request.path.as_ref().map(|p| p.chars().count()), Some(1));
    assert_eq!(request.body, Some(vec![0xc3, 0xa9]));
}

#[test]
fn a_field_of_the_wrong_shape_is_refused() {
    // The identifier of a request as bytes.
    let mut inner: Vec<u8> = Vec::new();
    write_bytes_field(&mut inner, 4, &[1]);
    assert_eq!(decode_request(&inner, RequestProto::empty()), None);
    // The verb as a number.
    let mut inner: Vec<u8> = Vec::new();
    write_varint_field(&mut inner, 1, 5);
    assert_eq!(decode_request(&inner, RequestProto::empty()), None);
    // The status of a response as bytes.
    let mut inner: Vec<u8> = Vec::new();
    write_bytes_field(&mut inner, 2, &[1]);
    assert_eq!(decode_response(&inner, ResponseProto::empty()), None);
    // The tag of an envelope as bytes.
    let mut outer: Vec<u8> = Vec::new();
    write_bytes_field(&mut outer, 1, &[1]);
    assert_eq!(decode_message(&outer), None);
    // The request of an envelope as a number.
    let mut outer: Vec<u8> = Vec::new();
    write_varint_field(&mut outer, 2, 1);
    assert_eq!(decode_message(&outer), None);
}

#[test]
fn the_last_occurrence_counts_and_lines_accumulate() {
    let mut inner: Vec<u8> = Vec::new();
    write_varint_field(&mut inner, 4, 1);
    write_bytes_field(&mut inner, 5, b"a: 1");
    write_bytes_field(&mut inner, 1, b"GET");
    write_varint_field(&mut inner, 4, 2);
    write_bytes_field(&mut inner, 5, b"b: 2");
    write_bytes_field(&mut inner, 1, b"PUT");
    write_varint_field(&mut inner, 77, 9);
    let request = decode_request(&inner, RequestProto::empty()).expect("decodes");
    assert_eq!(
        request,
        RequestProto {
            verb: Some("PUT".to_string()),
            path: None,
            body: None,
            headers: vec!["a: 1".to_string(), "b: 2".to_string()],
            id: Some(2),
        }
    );
}

#[test]
fn a_repeated_payload_is_merged() {
    let mut first: Vec<u8> = Vec::new();
    write_bytes_field(&mut first, 1, b"GET");
    write_bytes_field(&mut first, 5, b"a: 1");
    let mut second: Vec<u8> = Vec::new();
    write_varint_field(&mut second, 4, 9);
    write_bytes_field(&mut second, 5, b"b: 2");
    let mut outer: Vec<u8> = Vec::new();
    write_bytes_field(&mut outer, 2, &first);
    write_varint_field(&mut outer, 1, 1);
    write_bytes_field(&mut outer, 2, &second);
    let envelope = decode_message(&outer).expect("decodes");
    assert_eq!(envelope.message_type, Some(1));
    assert_eq!(envelope.response, None);
    assert_eq!(
        envelope.request,
        Some(RequestProto {
            verb: Some("GET".to_string()),
            path: None,
            body: None,
            headers: vec!["a: 1".to_string(), "b: 2".to_string()],
            id: Some(9),
        })
    );
}

#[test]
fn numbers_are_cut_to_their_width() {
    // A status of 2^32 + 200 is read as 200.
    let mut inner: Vec<u8> = Vec::new();
    write_varint_field(&mut inner, 2, (1u64 << 32) + 200);
    let response = decode_response(&inner, ResponseProto::empty()).expect("decodes");
    assert_eq!(response.status, Some(200));
    // A tag of 2^64 - 1 is read as -1, one of 2^31 as the least number.
    let mut outer: Vec<u8> = Vec::new();
    write_varint_field(&mut outer, 1, u64::MAX);
    assert_eq!(decode_message(&outer).expect("decodes").message_type, Some(-1));
    let mut outer: Vec<u8> = Vec::new();
    write_varint_field(&mut outer, 1, 1u64 << 31);
    assert_eq!(decode_message(&outer).expect("decodes").message_type, Some(i32::MIN));
}

#[test]
fn a_broken_payload_breaks_the_envelope() {
    let mut outer: Vec<u8> = Vec::new();
    write_varint_field(&mut outer, 1, 1);
    write_bytes_field(&mut outer, 2, &[0x0a, 0x05, b'a']);
    assert_eq!(decode_message(&outer), None);
    let mut outer: Vec<u8> = Vec::new();
    write_bytes_field(&mut outer, 3, &[0x08]);
    assert_eq!(decode_message(&outer), None);
}

#[test]
fn message_type_numbers() {
    assert_eq!(ChatMessageType::Unknown.to_i32(), 0);
    assert_eq!(ChatMessageType::Request.to_i32(), 1);
    assert_eq!(ChatMessageType::Response.to_i32(), 2);
    assert_eq!(ChatMessageType::try_from_i32(0), Ok(ChatMessageType::Unknown));
    assert_eq!(ChatMessageType::try_from_i32(1), Ok(ChatMessageType::Request));
    assert_eq!(ChatMessageType::try_from_i32(2), Ok(ChatMessageType::Response));
    assert_eq!(ChatMessageType::try_from_i32(3), Err(3));
    assert_eq!(ChatMessageType::try_from_i32(-1), Err(-1));
}
