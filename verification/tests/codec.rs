use chat_gateway::codec::{
    dispatch_frame_bytes, scan_frame, skip_value, u64_to_digits, u64_value,
};

#[test]
fn scan_canonical_dispatch_frame() {
    let frame = b"{\"op\":0,\"s\":1,\"t\":\"READY\",\"d\":{\"session_id\":\"abc\"}}".to_vec();
    let scan = scan_frame(&frame).unwrap();
    assert_eq!(scan.op, Some(0));
    assert_eq!(scan.seq, Some(1));
    assert_eq!(scan.event_type, Some(b"READY".to_vec()));
}

#[test]
fn scan_tolerates_key_order_and_escapes() {
    let frame =
        b"{\"t\":\"MESSAGE_CREATE\",\"s\":7,\"op\":0,\"d\":{\"content\":\"a\\\"b,}\"}}".to_vec();
    let scan = scan_frame(&frame).unwrap();
    assert_eq!(scan.op, Some(0));
    assert_eq!(scan.seq, Some(7));
    assert_eq!(scan.event_type, Some(b"MESSAGE_CREATE".to_vec()));
}

#[test]
fn scan_hello_frame_records_payload() {
    let frame = b"{\"t\":null,\"s\":null,\"op\":10,\"d\":{\"heartbeat_interval\":41250}}".to_vec();
    let scan = scan_frame(&frame).unwrap();
    assert_eq!(scan.op, Some(10));
    assert_eq!(scan.seq, None);
    assert_eq!(scan.event_type, None);
    let (a, b) = scan.payload.unwrap();
    assert_eq!(&frame[a..b], b"{\"heartbeat_interval\":41250}");
}

#[test]
fn scan_rejects_junk() {
    assert!(scan_frame(&b"not json".to_vec()).is_none());
    assert!(scan_frame(&b"[1,2,3]".to_vec()).is_none());
    assert!(scan_frame(&b"{\"op\"".to_vec()).is_none());
}

#[test]
fn write_then_scan_round_trips() {
    let name = b"GUILD_CREATE".to_vec();
    let payload = b"{\"id\":\"123\",\"members\":[{\"a\":\"}]\"}]}".to_vec();
    let frame = dispatch_frame_bytes(0, 42, &name, &payload);
    let scan = scan_frame(&frame).unwrap();
    assert_eq!(scan.op, Some(0));
    assert_eq!(scan.seq, Some(42));
    assert_eq!(scan.event_type, Some(name));
}

#[test]
fn write_then_scan_large_numbers() {
    let name = b"TYPING_START".to_vec();
    let payload = b"null".to_vec();
    let frame = dispatch_frame_bytes(0, u64::MAX, &name, &payload);
    let scan = scan_frame(&frame).unwrap();
    assert_eq!(scan.seq, Some(u64::MAX));
}

#[test]
fn digits_render_and_parse() {
    assert_eq!(u64_to_digits(0), b"0".to_vec());
    assert_eq!(u64_to_digits(1234), b"1234".to_vec());
    let v = b"98765".to_vec();
    assert_eq!(u64_value(&v, 0, v.len()), Some(98765));
    let junk = b"12x".to_vec();
    assert_eq!(u64_value(&junk, 0, junk.len()), None);
}

#[test]
fn skip_value_handles_nesting() {
    let v = b"{\"a\":[1,{\"b\":\"]\"},3],\"c\":null} tail".to_vec();
    let end = skip_value(&v, 0).unwrap();
    assert_eq!(&v[..end], b"{\"a\":[1,{\"b\":\"]\"},3],\"c\":null}");
}
