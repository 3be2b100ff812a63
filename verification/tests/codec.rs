use native_host::frame::{ByteOrder, MAX_MESSAGE_SIZE};
use native_host::native_host_messages::{
    decode_payload, encode, read_message, read_message_in, send_message, send_message_in, ByteStream, DecodeError,
    EncodeError, NativeHostMessage, NativeHostMessageType, ShapeError,
};
use native_host::payload::Payload;

fn text(s: &str) -> Payload {
    Payload::Text(s.to_string())
}

fn sample_object() -> Payload {
    let inner = Payload::Object(vec![
        ("foo".to_string(), text("bar")),
        ("hello".to_string(), text("world")),
        ("number".to_string(), Payload::Integer(42)),
    ]);
    Payload::Object(vec![
        ("foo".to_string(), text("bar")),
        ("hello".to_string(), text("world")),
        ("number".to_string(), Payload::Integer(42)),
        ("object".to_string(), inner),
    ])
}

fn sample_value() -> serde_json::Value {
    let mut inner = serde_json::Map::new();
    inner.insert("foo".to_string(), serde_json::Value::from("bar"));
    inner.insert("hello".to_string(), serde_json::Value::from("world"));
    inner.insert("number".to_string(), serde_json::Value::from(42));
    let mut outer = inner.clone();
    outer.insert("object".to_string(), serde_json::Value::Object(inner));
    serde_json::Value::Object(outer)
}

fn envelope(tag: &str, value: serde_json::Value) -> serde_json::Value {
    let mut map = serde_json::Map::new();
    map.insert("type".to_string(), serde_json::Value::from(tag));
    map.insert("value".to_string(), value);
    serde_json::Value::Object(map)
}

fn check_sent(kind: NativeHostMessageType, value: Payload, tag: &str, expected: serde_json::Value) {
    let mut output: Vec<u8> = Vec::new();
    let msg = NativeHostMessage { msg_type: kind, value };
    assert!(send_message(&mut output, &msg).is_ok());
    let msg_len = i32::from_ne_bytes([output[0], output[1], output[2], output[3]]);
    assert_eq!(msg_len + 4, output.len() as i32);
    let msg_str = String::from_utf8(output[4..].to_vec()).unwrap();
    let parsed: serde_json::Value = serde_json::from_str(&msg_str).unwrap();
    assert_eq!(parsed, envelope(tag, expected.clone()));
    assert_eq!(msg_str, serde_json::to_string(&envelope(tag, expected)).unwrap());
}

#[test]
fn send_message_download_null() {
    check_sent(NativeHostMessageType::DownloadComplete, Payload::Null, "DOWNLOAD_COMPLETE", serde_json::Value::Null);
}

#[test]
fn send_message_update_string() {
    check_sent(NativeHostMessageType::NativeHostUpdate, text("foo"), "NATIVE_HOST_UPDATE", serde_json::Value::from("foo"));
}

#[test]
fn send_message_keepalive_object() {
    check_sent(NativeHostMessageType::NativeHostKeepalive, sample_object(), "NATIVE_HOST_KEEPALIVE", sample_value());
}

#[test]
fn send_message_too_large_error() {
    let mut output: Vec<u8> = Vec::new();
    let msg = NativeHostMessage {
        msg_type: NativeHostMessageType::DownloadComplete,
        value: Payload::List(vec![Payload::Integer(0); 1024 * 1024 + 1]),
    };
    let zeros = serde_json::Value::Array(vec![serde_json::Value::from(0); 1024 * 1024 + 1]);
    let expected_len = serde_json::to_string(&envelope("DOWNLOAD_COMPLETE", zeros)).unwrap().len();
    let error = send_message(&mut output, &msg).unwrap_err();
    assert_eq!(error.message(), format!("Message is too large: {} bytes", expected_len));
    assert!(matches!(error, EncodeError::PayloadTooLarge { size } if size == expected_len));
    assert!(output.is_empty());
}

fn check_round_trip(kind: NativeHostMessageType, value: Payload) {
    let mut output: Vec<u8> = Vec::new();
    let msg = NativeHostMessage { msg_type: kind, value: value.clone() };
    assert!(send_message(&mut output, &msg).is_ok());
    let mut input = ByteStream::new(output);
    let back = read_message(&mut input).unwrap();
    assert_eq!(back.msg_type, kind);
    assert_eq!(back.value, value);
    assert_eq!(input.remaining_len(), 0);
}

#[test]
fn send_then_read_message_download_null() {
    check_round_trip(NativeHostMessageType::DownloadComplete, Payload::Null);
}

#[test]
fn send_then_read_message_update_string() {
    check_round_trip(NativeHostMessageType::NativeHostUpdate, text("foo"));
}

#[test]
fn send_then_read_message_keepalive_object() {
    check_round_trip(NativeHostMessageType::NativeHostKeepalive, sample_object());
}

#[test]
fn read_message_unexpected_eof() {
    let mut input = ByteStream::new(vec![]);
    assert_eq!(
        read_message(&mut input).unwrap(),
        NativeHostMessage { msg_type: NativeHostMessageType::NativeHostExit, value: Payload::Null }
    );
}

#[test]
fn read_message_too_short() {
    // The stream ends inside the payload: the peer is gone.
    let mut input = ByteStream::new(vec![10, 0, 0, 0, 0]);
    assert_eq!(
        read_message(&mut input).unwrap(),
        NativeHostMessage { msg_type: NativeHostMessageType::NativeHostExit, value: Payload::Null }
    );
    assert_eq!(input.remaining_len(), 0);
}

#[test]
fn read_message_browser_exit() {
    let len: i32 = -1;
    let mut input = ByteStream::new(len.to_ne_bytes().to_vec());
    assert_eq!(
        read_message(&mut input).unwrap(),
        NativeHostMessage { msg_type: NativeHostMessageType::NativeHostExit, value: Payload::Null }
    );
}

#[test]
fn truncated_prefix_is_an_error() {
    for available in 1..4usize {
        let mut input = ByteStream::new(vec![7; available]);
        let error = read_message(&mut input).unwrap_err();
        assert!(matches!(error, DecodeError::TruncatedPrefix { available: n } if n == available));
        assert_eq!(error.message(), format!("length prefix ended after {} of 4 bytes", available));
        assert_eq!(input.remaining_len(), 0);
    }
}

#[test]
fn negative_length_is_refused() {
    let len: i32 = -2;
    let mut input = ByteStream::new(len.to_le_bytes().to_vec());
    let error = read_message_in(ByteOrder::LittleEndian, &mut input).unwrap_err();
    assert!(matches!(error, DecodeError::InvalidLength { length: -2 }));
    assert_eq!(error.message(), "invalid message length: -2");
    let mut input = ByteStream::new(i32::MIN.to_be_bytes().to_vec());
    let error = read_message_in(ByteOrder::BigEndian, &mut input).unwrap_err();
    assert_eq!(error.message(), "invalid message length: -2147483648");
}

#[test]
fn frame_layout_in_both_byte_orders() {
    let msg = NativeHostMessage { msg_type: NativeHostMessageType::PointerLock, value: Payload::Bool(true) };
    let body = br#"{"type":"POINTER_LOCK","value":true}"#;
    let little = encode(ByteOrder::LittleEndian, &msg).unwrap();
    assert_eq!(&little[..4], &[36, 0, 0, 0]);
    assert_eq!(&little[4..], &body[..]);
    let big = encode(ByteOrder::BigEndian, &msg).unwrap();
    assert_eq!(&big[..4], &[0, 0, 0, 36]);
    assert_eq!(&big[4..], &body[..]);
    let native = encode(ByteOrder::native(), &msg).unwrap();
    assert_eq!(&native[..4], &36u32.to_ne_bytes());
}

#[test]
fn prefix_bytes_of_a_long_frame() {
    assert_eq!(ByteOrder::LittleEndian.prefix(0x0102_0304), [4, 3, 2, 1]);
    assert_eq!(ByteOrder::BigEndian.prefix(0x0102_0304), [1, 2, 3, 4]);
    assert_eq!(ByteOrder::LittleEndian.length(&[4, 3, 2, 1]), 0x0102_0304);
    assert_eq!(ByteOrder::BigEndian.length(&[255, 255, 255, 254]), -2);
    assert_eq!(ByteOrder::LittleEndian.length(&[255, 255, 255, 255]), -1);
    assert_eq!(ByteOrder::BigEndian.length(&[255, 255, 255, 255]), -1);
}

#[test]
fn largest_text_is_accepted_and_one_more_byte_is_not() {
    let fixed = serde_json::to_string(&envelope("TIMEZONE", serde_json::Value::from(""))).unwrap().len();
    let fits = NativeHostMessage {
        msg_type: NativeHostMessageType::Timezone,
        value: Payload::Text("a".repeat(MAX_MESSAGE_SIZE - fixed)),
    };
    let mut output: Vec<u8> = vec![9];
    assert!(send_message_in(ByteOrder::LittleEndian, &mut output, &fits).is_ok());
    assert_eq!(output.len(), 1 + 4 + MAX_MESSAGE_SIZE);
    assert_eq!(&output[..5], &[9, 0, 0, 16, 0]);
    let over = NativeHostMessage {
        msg_type: NativeHostMessageType::Timezone,
        value: Payload::Text("a".repeat(MAX_MESSAGE_SIZE - fixed + 1)),
    };
    let mut output: Vec<u8> = vec![9];
    let error = send_message_in(ByteOrder::LittleEndian, &mut output, &over).unwrap_err();
    assert!(matches!(error, EncodeError::PayloadTooLarge { size } if size == MAX_MESSAGE_SIZE + 1));
    assert_eq!(error.message(), "Message is too large: 1048577 bytes");
    assert_eq!(output, vec![9]);
}

#[test]
fn strings_are_escaped_by_the_json_engine() {
    let msg = NativeHostMessage { msg_type: NativeHostMessageType::Timezone, value: text("a\"b\\c\nd\u{e9}") };
    let frame = encode(ByteOrder::LittleEndian, &msg).unwrap();
    let body = String::from_utf8(frame[4..].to_vec()).unwrap();
    assert_eq!(body, "{\"type\":\"TIMEZONE\",\"value\":\"a\\\"b\\\\c\\nd\u{e9}\"}");
    assert_eq!(decode_payload(body.as_bytes()).unwrap(), msg);
}

#[test]
fn numbers_keep_their_notation() {
    let body = br#"{"type":"GEOLOCATION","value":[1,-7,1.5,18446744073709551615,1e+300,-0.0]}"#;
    let msg = decode_payload(body).unwrap();
    assert_eq!(
        msg.value,
        Payload::List(vec![
            Payload::Integer(1),
            Payload::Integer(-7),
            Payload::Number("1.5".to_string()),
            Payload::Number("18446744073709551615".to_string()),
            Payload::Number("1e+300".to_string()),
            Payload::Number("-0.0".to_string()),
        ])
    );
    let frame = encode(ByteOrder::BigEndian, &msg).unwrap();
    assert_eq!(&frame[4..], &body[..]);
}

#[test]
fn integers_at_the_ends_of_their_range() {
    let msg = NativeHostMessage {
        msg_type: NativeHostMessageType::KeyboardRepeatRate,
        value: Payload::List(vec![Payload::Integer(i64::MIN), Payload::Integer(i64::MAX), Payload::Integer(0)]),
    };
    let frame = encode(ByteOrder::LittleEndian, &msg).unwrap();
    let body = String::from_utf8(frame[4..].to_vec()).unwrap();
    assert_eq!(body, r#"{"type":"KEYBOARD_REPEAT_RATE","value":[-9223372036854775808,9223372036854775807,0]}"#);
    assert_eq!(decode_payload(body.as_bytes()).unwrap(), msg);
}

#[test]
fn decode_accepts_the_exit_message() {
    let msg = decode_payload(br#"{"type":"NATIVE_HOST_EXIT","value":null}"#).unwrap();
    assert_eq!(msg, NativeHostMessage { msg_type: NativeHostMessageType::NativeHostExit, value: Payload::Null });
}

#[test]
fn decode_takes_a_missing_value_for_no_payload() {
    let msg = decode_payload(br#"{"type":"NATIVE_HOST_KEEPALIVE"}"#).unwrap();
    assert_eq!(msg.msg_type, NativeHostMessageType::NativeHostKeepalive);
    assert_eq!(msg.value, Payload::Null);
}

#[test]
fn decode_refuses_what_is_no_message() {
    assert!(matches!(decode_payload(b"{\"type\":").unwrap_err(), DecodeError::Json(_)));
    assert!(matches!(decode_payload(b"").unwrap_err(), DecodeError::Json(_)));
    assert!(matches!(decode_payload(b"[1,2]").unwrap_err(), DecodeError::Shape(ShapeError::NotAnObject)));
    assert!(matches!(decode_payload(b"{\"value\":1}").unwrap_err(), DecodeError::Shape(ShapeError::MissingType)));
    assert!(matches!(decode_payload(b"{\"type\":1}").unwrap_err(), DecodeError::Shape(ShapeError::TypeNotText)));
    let error = decode_payload(b"{\"type\":\"POINTER_LOCKS\",\"value\":true}").unwrap_err();
    assert!(matches!(&error, DecodeError::Shape(ShapeError::UnknownType(tag)) if tag == "POINTER_LOCKS"));
    assert_eq!(error.message(), "unknown message type: POINTER_LOCKS");
    let error = decode_payload(b"{").unwrap_err();
    assert_eq!(error.message(), serde_json::from_slice::<serde_json::Value>(b"{").unwrap_err().to_string());
}

#[test]
fn every_kind_has_its_tag() {
    let kinds = [
        (NativeHostMessageType::DownloadComplete, "DOWNLOAD_COMPLETE"),
        (NativeHostMessageType::Geolocation, "GEOLOCATION"),
        (NativeHostMessageType::NativeHostExit, "NATIVE_HOST_EXIT"),
        (NativeHostMessageType::NativeHostUpdate, "NATIVE_HOST_UPDATE"),
        (NativeHostMessageType::PointerLock, "POINTER_LOCK"),
        (NativeHostMessageType::NativeHostKeepalive, "NATIVE_HOST_KEEPALIVE"),
        (NativeHostMessageType::KeyboardRepeatRate, "KEYBOARD_REPEAT_RATE"),
        (NativeHostMessageType::Timezone, "TIMEZONE"),
    ];
    for (kind, tag) in kinds {
        assert_eq!(kind.wire_tag(), tag);
        assert_eq!(NativeHostMessageType::from_wire_tag(tag), Some(kind));
        check_round_trip(kind, Payload::Bool(false));
    }
    assert_eq!(NativeHostMessageType::from_wire_tag("download_complete"), None);
    assert_eq!(NativeHostMessageType::from_wire_tag(""), None);
}

#[test]
fn two_frames_are_read_one_after_the_other() {
    let mut output: Vec<u8> = Vec::new();
    let first = NativeHostMessage { msg_type: NativeHostMessageType::PointerLock, value: Payload::Bool(false) };
    let second = NativeHostMessage { msg_type: NativeHostMessageType::Timezone, value: text("Europe/Paris") };
    send_message(&mut output, &first).unwrap();
    send_message(&mut output, &second).unwrap();
    let mut input = ByteStream::new(output);
    assert_eq!(read_message(&mut input).unwrap(), first);
    assert_eq!(read_message(&mut input).unwrap(), second);
    assert_eq!(read_message(&mut input).unwrap().msg_type, NativeHostMessageType::NativeHostExit);
}

#[test]
fn a_refused_payload_is_passed_over() {
    let mut bytes = ByteOrder::native().prefix(3).to_vec();
    bytes.extend_from_slice(b"???");
    let good = NativeHostMessage { msg_type: NativeHostMessageType::PointerLock, value: Payload::Bool(true) };
    send_message(&mut bytes, &good).unwrap();
    let mut input = ByteStream::new(bytes);
    assert!(matches!(read_message(&mut input).unwrap_err(), DecodeError::Json(_)));
    assert_eq!(read_message(&mut input).unwrap(), good);
}

#[test]
fn last_of_two_members_with_one_key_counts() {
    let msg = decode_payload(br#"{"type":"TIMEZONE","value":1,"value":"UTC","extra":[]}"#).unwrap();
    assert_eq!(msg.value, text("UTC"));
    let object = Payload::Object(vec![("k".to_string(), Payload::Integer(1)), ("k".to_string(), Payload::Integer(2))]);
    assert_eq!(object.member("k"), Some(&Payload::Integer(2)));
    assert_eq!(object.member_index("k"), Some(1));
    assert_eq!(object.member("K"), None);
    assert_eq!(Payload::Null.member("k"), None);
}

#[test]
fn payloads_compare_by_what_they_hold() {
    assert_eq!(sample_object(), sample_object().duplicate());
    assert_ne!(sample_object(), Payload::Object(vec![]));
    assert_ne!(Payload::Integer(1), Payload::Number("1".to_string()));
    assert_ne!(text("a"), text("b"));
    assert_eq!(text("a").as_text(), Some("a"));
    assert_eq!(Payload::Bool(true).as_bool(), Some(true));
    assert_eq!(Payload::Integer(3).as_integer(), Some(3));
    assert_eq!(Payload::Null.as_text(), None);
}

#[test]
fn keys_are_escaped_like_strings() {
    let value = Payload::Object(vec![("a\"b".to_string(), Payload::Null), ("tab\t".to_string(), Payload::Bool(true))]);
    let msg = NativeHostMessage { msg_type: NativeHostMessageType::Geolocation, value };
    let frame = encode(ByteOrder::LittleEndian, &msg).unwrap();
    let mut inner = serde_json::Map::new();
    inner.insert("a\"b".to_string(), serde_json::Value::Null);
    inner.insert("tab\t".to_string(), serde_json::Value::Bool(true));
    let expected = serde_json::to_string(&envelope("GEOLOCATION", serde_json::Value::Object(inner))).unwrap();
    assert_eq!(String::from_utf8(frame[4..].to_vec()).unwrap(), expected);
    assert_eq!(decode_payload(&frame[4..]).unwrap(), msg);
}

#[test]
fn empty_lists_and_objects_have_their_brackets() {
    let value = Payload::List(vec![Payload::List(vec![]), Payload::Object(vec![]), Payload::Null]);
    let msg = NativeHostMessage { msg_type: NativeHostMessageType::Timezone, value };
    let frame = encode(ByteOrder::LittleEndian, &msg).unwrap();
    assert_eq!(&frame[4..], &br#"{"type":"TIMEZONE","value":[[],{},null]}"#[..]);
    assert_eq!(decode_payload(&frame[4..]).unwrap(), msg);
}

#[test]
fn a_number_that_is_no_json_number_is_refused() {
    for literal in ["", "-", "01", "1.", ".5", "1e", "1e+", "+1", "1 ", "0x10", "NaN", "1,2", "--1", "1.5.2", "\u{661}"] {
        let msg = NativeHostMessage {
            msg_type: NativeHostMessageType::Timezone,
            value: Payload::List(vec![Payload::Number(literal.to_string())]),
        };
        let mut output = vec![1, 2, 3];
        let error = send_message(&mut output, &msg).unwrap_err();
        assert!(matches!(&error, EncodeError::Unwritable(_)), "{:?}", literal);
        assert_eq!(error.message(), format!("not a JSON number: {}", literal));
        assert_eq!(output, vec![1, 2, 3]);
    }
    for literal in ["0", "-0", "7", "10", "-12.5", "0.001", "1e5", "1E5", "2e-3", "6.02e+23", "-0.0", "123456789012345678901234567890"] {
        let msg = NativeHostMessage {
            msg_type: NativeHostMessageType::Timezone,
            value: Payload::Number(literal.to_string()),
        };
        let frame = encode(ByteOrder::LittleEndian, &msg).unwrap();
        let body = String::from_utf8(frame[4..].to_vec()).unwrap();
        assert_eq!(body, format!("{{\"type\":\"TIMEZONE\",\"value\":{}}}", literal));
        assert!(serde_json::from_str::<serde_json::Value>(&body).is_ok(), "{:?}", literal);
    }
}

#[test]
fn a_message_that_is_not_in_the_order_of_the_engine_comes_back_in_it() {
    let unordered = Payload::Object(vec![("b".to_string(), Payload::Integer(1)), ("a".to_string(), Payload::Integer(2))]);
    let msg = NativeHostMessage { msg_type: NativeHostMessageType::Geolocation, value: unordered };
    let frame = encode(ByteOrder::LittleEndian, &msg).unwrap();
    assert_eq!(&frame[4..], &br#"{"type":"GEOLOCATION","value":{"b":1,"a":2}}"#[..]);
    let back = decode_payload(&frame[4..]).unwrap();
    let ordered = Payload::Object(vec![("a".to_string(), Payload::Integer(2)), ("b".to_string(), Payload::Integer(1))]);
    assert_eq!(back.value, ordered);
    assert_eq!(back.value.member("b"), msg.value.member("b"));
}

#[test]
fn every_error_says_what_went_wrong() {
    assert_eq!(DecodeError::Shape(ShapeError::NotAnObject).message(), "message is not a JSON object");
    assert_eq!(DecodeError::Shape(ShapeError::MissingType).message(), "message has no type");
    assert_eq!(ShapeError::TypeNotText.message(), "message type is not a string");
    assert_eq!(ShapeError::UnknownType("X".to_string()).message(), "unknown message type: X");
    assert_eq!(DecodeError::Io("broken pipe".to_string()).message(), "broken pipe");
    assert_eq!(DecodeError::Json("expected value".to_string()).message(), "expected value");
    assert_eq!(DecodeError::TruncatedPrefix { available: 3 }.message(), "length prefix ended after 3 of 4 bytes");
    assert_eq!(DecodeError::InvalidLength { length: -17 }.message(), "invalid message length: -17");
    assert_eq!(EncodeError::PayloadTooLarge { size: 0 }.message(), "Message is too large: 0 bytes");
    assert_eq!(
        EncodeError::PayloadTooLarge { size: usize::MAX }.message(),
        format!("Message is too large: {} bytes", usize::MAX)
    );
    assert_eq!(EncodeError::Unwritable("why".to_string()).message(), "why");
}

#[test]
fn byte_order_is_read_from_the_bytes_one_and_zero() {
    assert_eq!(ByteOrder::reading_one_as(1), ByteOrder::LittleEndian);
    assert_eq!(ByteOrder::reading_one_as(256), ByteOrder::BigEndian);
    assert_eq!(ByteOrder::reading_one_as(u16::from_le_bytes([1, 0])), ByteOrder::LittleEndian);
    assert_eq!(ByteOrder::reading_one_as(u16::from_be_bytes([1, 0])), ByteOrder::BigEndian);
    assert_eq!(ByteOrder::reading_one_as(u16::from_ne_bytes([1, 0])), ByteOrder::native());
}
