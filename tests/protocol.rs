use minimuxer::acceptor::{AcceptAction, AcceptEvent, Acceptor, REBIND_THRESHOLD};
use minimuxer::dispatch::{
    device_list, dispatch, network_address, parse_request, IpAddress, PairingRecord, Request,
    Value, DEVICE_ID,
};
use minimuxer::errors::Errors;
use minimuxer::frame::{
    bytes_missing, decode_frame, encode_frame, encode_response, response_frame, within_frame_limit,
    Frame, MAX_FRAME_LEN,
};

fn dict(entries: Vec<(&str, Value)>) -> Value {
    Value::Dict(entries.into_iter().map(|(k, v)| (k.to_string(), v)).collect())
}

fn request(message_type: &str) -> Value {
    dict(vec![("MessageType", Value::Str(message_type.to_string()))])
}

fn record() -> PairingRecord {
    PairingRecord { udid: "00008030-001A".to_string(), text: b"<plist/>".to_vec() }
}

fn entry<'a>(v: &'a Value, key: &str) -> &'a Value {
    match v {
        Value::Dict(e) => &e.iter().find(|(k, _)| k == key).unwrap().1,
        _ => panic!("not a dictionary"),
    }
}

#[test]
fn encode_writes_length_header_and_payload() {
    let bytes = encode_frame(b"abc", 8, 1, 0x01020304);
    assert_eq!(
        bytes,
        vec![15, 0, 0, 0, 1, 0, 0, 0, 8, 0, 0, 0, 4, 3, 2, 1, b'a', b'b', b'c']
    );
}

#[test]
fn decode_of_encode_gives_back_the_fields() {
    let payload = b"<dict><key>MessageType</key></dict>".to_vec();
    let bytes = encode_frame(&payload, 8, 1, 77);
    let f = decode_frame(&bytes).unwrap();
    assert_eq!(f, Frame { version: 1, message_type: 8, tag: 77, payload });
    let empty = encode_frame(&[], 3, 2, u32::MAX);
    assert_eq!(
        decode_frame(&empty).unwrap(),
        Frame { version: 2, message_type: 3, tag: u32::MAX, payload: vec![] }
    );
}

#[test]
fn decode_rejects_short_buffer() {
    assert_eq!(decode_frame(&[0u8; 15]), Err(Errors::ProtocolDecode));
    assert_eq!(decode_frame(&[]), Err(Errors::ProtocolDecode));
}

#[test]
fn response_echoes_tag() {
    let req = decode_frame(&encode_frame(b"x", 8, 1, 4242)).unwrap();
    let resp = decode_frame(&response_frame(&req, b"answer")).unwrap();
    assert_eq!(resp.tag, 4242);
    assert_eq!(resp.version, 1);
    assert_eq!(resp.message_type, 8);
    assert_eq!(resp.payload, b"answer".to_vec());
}

#[test]
fn missing_bytes_follow_the_length_prefix() {
    let bytes = encode_frame(b"hello", 8, 1, 9);
    assert_eq!(bytes_missing(&[]), 16);
    assert_eq!(bytes_missing(&bytes[..4]), 12);
    assert_eq!(bytes_missing(&bytes[..16]), 5);
    assert_eq!(bytes_missing(&bytes[..20]), 1);
    assert_eq!(bytes_missing(&bytes), 0);
}

#[test]
fn network_address_ipv4() {
    let b = network_address(IpAddress::V4([10, 7, 0, 1]));
    assert_eq!(b.len(), 152);
    assert_eq!(&b[0..4], &[10, 2, 0, 0]);
    assert_eq!(&b[4..8], &[10, 7, 0, 1]);
    assert!(b[8..].iter().all(|x| *x == 0));
}

#[test]
fn network_address_ipv6() {
    let mut o = [0u8; 16];
    for (i, x) in o.iter_mut().enumerate() {
        *x = i as u8 + 1;
    }
    let b = network_address(IpAddress::V6(o));
    assert_eq!(b.len(), 152);
    assert_eq!(&b[0..7], &[28, 0x1e, 0, 0, 0, 0, 0]);
    assert_eq!(&b[16..32], &o[..]);
    assert!(b[7..16].iter().all(|x| *x == 0));
    assert!(b[32..].iter().all(|x| *x == 0));
}

#[test]
fn dispatch_list_devices() {
    let rec = record();
    let resp = dispatch(&request("ListDevices"), &rec).unwrap();
    let list = match entry(&resp, "DeviceList") {
        Value::Array(a) => a,
        _ => panic!("DeviceList is not an array"),
    };
    assert_eq!(list.len(), 1);
    let dev = &list[0];
    assert!(matches!(entry(dev, "DeviceID"), Value::UInt(DEVICE_ID)));
    assert!(matches!(entry(dev, "MessageType"), Value::Str(s) if s == "Attached"));
    let props = entry(dev, "Properties");
    assert!(matches!(entry(props, "SerialNumber"), Value::Str(s) if s == "00008030-001A"));
    assert!(matches!(entry(props, "ConnectionType"), Value::Str(s) if s == "Network"));
    assert!(matches!(entry(props, "InterfaceIndex"), Value::UInt(69)));
    assert!(matches!(entry(props, "EscapedFullServiceName"), Value::Str(s) if s == "yurmomlolllllll"));
    match entry(props, "NetworkAddress") {
        Value::Data(d) => assert_eq!(&d[..8], &[10, 2, 0, 0, 10, 7, 0, 1]),
        _ => panic!("NetworkAddress is not data"),
    }
}

#[test]
fn device_list_carries_udid() {
    let v = device_list(&"abc".to_string());
    let dev = match entry(&v, "DeviceList") {
        Value::Array(a) => &a[0],
        _ => panic!("DeviceList is not an array"),
    };
    assert!(matches!(entry(entry(dev, "Properties"), "SerialNumber"), Value::Str(s) if s == "abc"));
}

#[test]
fn dispatch_read_pair_record() {
    let rec = record();
    let resp = dispatch(&request("ReadPairRecord"), &rec).unwrap();
    assert!(matches!(entry(&resp, "PairRecordData"), Value::Data(d) if d == b"<plist/>"));
}

#[test]
fn dispatch_unsupported_message_type() {
    let rec = record();
    assert_eq!(dispatch(&request("Bogus"), &rec).err(), Some(Errors::UnsupportedMessage));
    assert_eq!(parse_request(&request("Bogus")), Err(Errors::UnsupportedMessage));
}

#[test]
fn dispatch_without_message_type() {
    let rec = record();
    assert_eq!(dispatch(&dict(vec![]), &rec).err(), Some(Errors::ProtocolDecode));
    let not_a_string = dict(vec![("MessageType", Value::UInt(3))]);
    assert_eq!(parse_request(&not_a_string), Err(Errors::ProtocolDecode));
    assert_eq!(parse_request(&Value::Str("ListDevices".to_string())), Err(Errors::ProtocolDecode));
    assert_eq!(parse_request(&request("ListDevices")), Ok(Request::ListDevices));
}

#[test]
fn accept_failures_below_threshold_keep_the_socket() {
    let mut a = Acceptor::new();
    for _ in 0..REBIND_THRESHOLD - 1 {
        assert_eq!(a.step(AcceptEvent::AcceptFailed), AcceptAction::RetryAccept);
    }
    assert_eq!(a.failures, REBIND_THRESHOLD - 1);
    assert_eq!(a.step(AcceptEvent::Accepted), AcceptAction::Serve);
    assert_eq!(a, Acceptor::new());
}

#[test]
fn accept_failures_at_threshold_rebind() {
    let mut a = Acceptor::new();
    let mut rebinds = 0;
    for _ in 0..REBIND_THRESHOLD {
        if a.step(AcceptEvent::AcceptFailed) == AcceptAction::Rebind {
            rebinds += 1;
        }
    }
    assert_eq!(rebinds, 1);
    assert!(a.rebinding);
    assert_eq!(a.step(AcceptEvent::RebindFailed), AcceptAction::RetryBind);
    assert_eq!(a.step(AcceptEvent::Rebound), AcceptAction::Accept);
    assert_eq!(a.step(AcceptEvent::Accepted), AcceptAction::Serve);
    assert_eq!(a, Acceptor::new());
}

#[test]
fn missing_bytes_with_short_declared_length() {
    let mut bytes = encode_frame(b"", 8, 1, 2);
    bytes[0] = 3;
    assert_eq!(bytes_missing(&bytes), 0);
    let f = decode_frame(&bytes).unwrap();
    assert_eq!(f.tag, 2);
    assert!(f.payload.is_empty());
}

#[test]
fn encode_response_frames_with_request_tag() {
    let req = decode_frame(&encode_frame(b"q", 8, 1, 99)).unwrap();
    let out = encode_response(&req, b"<plist/>").unwrap();
    assert_eq!(&out[0..4], &[20, 0, 0, 0]);
    assert_eq!(&out[12..16], &[99, 0, 0, 0]);
    assert_eq!(&out[16..], b"<plist/>");
}

#[test]
fn decode_keeps_everything_after_header() {
    let mut bytes = encode_frame(b"ab", 8, 1, 7);
    bytes.extend_from_slice(b"cd");
    assert_eq!(decode_frame(&bytes).unwrap().payload, b"abcd".to_vec());
}

#[test]
fn frame_limit_follows_declared_length() {
    let small = encode_frame(b"abc", 8, 1, 1);
    assert!(within_frame_limit(&small));
    assert!(within_frame_limit(&small[..4]));
    let mut huge = small.clone();
    huge[0..4].copy_from_slice(&u32::MAX.to_le_bytes());
    assert!(!within_frame_limit(&huge[..16]));
    let mut edge = small[..16].to_vec();
    edge[0..4].copy_from_slice(&((MAX_FRAME_LEN - 4) as u32).to_le_bytes());
    assert!(within_frame_limit(&edge));
    edge[0..4].copy_from_slice(&((MAX_FRAME_LEN - 3) as u32).to_le_bytes());
    assert!(!within_frame_limit(&edge));
}
