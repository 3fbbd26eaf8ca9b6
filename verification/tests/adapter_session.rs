use vless_ws::adapter::{Adapter, WsEvent};
use vless_ws::early_data::parse_early_data;
use vless_ws::hex::parse_hex;
use vless_ws::request::{parse_request, ParseResult, VlessRequest};
use vless_ws::session::{close_code_for, close_reason, shutdown_reason, CLOSE_UNSUPPORTED};
use vless_ws::{ErrorKind, TunnelError};

const USER_ID: &str = "00112233-4455-6677-8899-aabbccddeeff";

fn uid_bytes() -> Vec<u8> {
    parse_hex(USER_ID)
}

fn ipv4_request(payload: &[u8]) -> Vec<u8> {
    let mut d = vec![0u8];
    d.extend_from_slice(&uid_bytes());
    d.extend_from_slice(&[0x00, 0x01, 0x00, 0x50, 0x01, 127, 0, 0, 1]);
    d.extend_from_slice(payload);
    d
}

#[test]
fn early_data_is_read_first_and_in_order() {
    let mut a = Adapter::new(Some(vec![1, 2, 3, 4, 5]));
    assert_eq!(a.read_available(2), vec![1, 2]);
    a.on_event(WsEvent::Message(vec![6, 7])).unwrap();
    assert_eq!(a.read_available(16), vec![3, 4, 5, 6, 7]);
    assert_eq!(a.read_available(16), Vec::<u8>::new());
}

#[test]
fn reads_deliver_at_most_what_is_asked() {
    let mut a = Adapter::new(None);
    assert_eq!(a.read_available(8), Vec::<u8>::new());
    a.on_event(WsEvent::Message(vec![9, 8, 7])).unwrap();
    assert_eq!(a.read_available(1), vec![9]);
    assert_eq!(a.read_available(1), vec![8]);
    assert_eq!(a.read_available(4), vec![7]);
}

#[test]
fn close_and_transport_events_are_errors_not_eof() {
    let mut a = Adapter::new(None);
    assert_eq!(a.on_event(WsEvent::Close), Err(TunnelError::ConnectionClosed));
    assert_eq!(a.on_event(WsEvent::Error), Err(TunnelError::Transport));
    // the buffer is untouched by either
    a.on_event(WsEvent::Message(vec![1])).unwrap();
    let _ = a.on_event(WsEvent::Close);
    assert_eq!(a.read_available(4), vec![1]);
}

#[test]
fn first_frame_carries_the_response_header_exactly_once() {
    let mut a = Adapter::new(None);
    let f1 = a.frame_for_write(&vec![0xaa, 0xbb]);
    let f2 = a.frame_for_write(&vec![0xcc]);
    let f3 = a.frame_for_write(&Vec::new());
    assert_eq!(f1, vec![0x00, 0x00, 0xaa, 0xbb]);
    assert_eq!(f2, vec![0xcc]);
    assert_eq!(f3, Vec::<u8>::new());
    // the wire, i.e. the frames concatenated, is the header then the
    // payloads verbatim
    let wire: Vec<u8> = [f1, f2, f3].concat();
    assert_eq!(wire, vec![0x00, 0x00, 0xaa, 0xbb, 0xcc]);
}

#[test]
fn an_empty_first_write_still_sends_the_header() {
    let mut a = Adapter::new(None);
    assert_eq!(a.frame_for_write(&Vec::new()), vec![0x00, 0x00]);
    assert_eq!(a.frame_for_write(&vec![1]), vec![1]);
}

#[test]
fn error_kinds_follow_the_taxonomy() {
    assert_eq!(TunnelError::InvalidVersion(7).kind(), ErrorKind::InvalidData);
    assert_eq!(TunnelError::UnknownUserId.kind(), ErrorKind::InvalidData);
    assert_eq!(TunnelError::UdpRequested.kind(), ErrorKind::InvalidData);
    assert_eq!(TunnelError::UnknownProtocol(9).kind(), ErrorKind::InvalidData);
    assert_eq!(TunnelError::InvalidAddressType(9).kind(), ErrorKind::InvalidData);
    assert_eq!(TunnelError::InvalidDomain.kind(), ErrorKind::InvalidData);
    assert_eq!(TunnelError::UnsupportedEarlyData.kind(), ErrorKind::InvalidData);
    assert_eq!(TunnelError::ConnectionClosed.kind(), ErrorKind::Other);
    assert_eq!(TunnelError::Transport.kind(), ErrorKind::Other);
    assert_eq!(TunnelError::DialFailed.kind(), ErrorKind::ConnectionAborted);
}

#[test]
fn invalid_data_and_aborted_dials_close_with_1003() {
    assert_eq!(close_code_for(&TunnelError::UdpRequested), Some(1003));
    assert_eq!(close_code_for(&TunnelError::UnknownUserId), Some(CLOSE_UNSUPPORTED));
    assert_eq!(close_code_for(&TunnelError::DialFailed), Some(1003));
    assert_eq!(close_code_for(&TunnelError::ConnectionClosed), None);
    assert_eq!(close_code_for(&TunnelError::Transport), None);
    assert_eq!(close_reason(), "Unsupported data");
    assert_eq!(shutdown_reason(), "Normal close");
}

/// Run the parser over the adapter the way the session does: read what is
/// buffered, and on an empty buffer feed the next event.
fn parse_over_adapter(
    a: &mut Adapter,
    events: &mut Vec<WsEvent>,
    uid: &Vec<u8>,
) -> Result<(VlessRequest, Vec<u8>), TunnelError> {
    let mut buf: Vec<u8> = Vec::new();
    loop {
        match parse_request(&buf, uid) {
            ParseResult::Done(q) => {
                let payload = buf[q.consumed..].to_vec();
                return Ok((q, payload));
            }
            ParseResult::Reject(e) => return Err(e),
            ParseResult::Incomplete => {
                let chunk = a.read_available(4096);
                if chunk.is_empty() {
                    if events.is_empty() {
                        a.on_event(WsEvent::Close)?;
                    } else {
                        a.on_event(events.remove(0))?;
                    }
                } else {
                    buf.extend_from_slice(&chunk);
                }
            }
        }
    }
}

#[test]
fn a_header_split_between_early_data_and_frames_parses() {
    let full = ipv4_request(b"payload");
    let early = full[..18].to_vec();
    let rest = full[18..].to_vec();
    let header = base64_url::encode(&early).into_bytes();
    let early = parse_early_data(Some(header)).unwrap();
    let mut a = Adapter::new(early);
    let mut events = vec![WsEvent::Message(rest)];
    let (q, payload) = parse_over_adapter(&mut a, &mut events, &uid_bytes()).unwrap();
    assert_eq!(q.host, b"127.0.0.1".to_vec());
    assert_eq!(q.port, 80);
    assert_eq!(payload, b"payload".to_vec());
}

#[test]
fn a_session_over_an_echoing_dialer_returns_the_payload_prefixed() {
    // a 16 KiB payload, split over several frames
    let payload: Vec<u8> = (0..16384u32).map(|i| (i % 251) as u8).collect();
    let full = ipv4_request(&payload);
    let mut events: Vec<WsEvent> = full.chunks(1000).map(|c| WsEvent::Message(c.to_vec())).collect();
    let mut a = Adapter::new(None);
    let (q, first) = parse_over_adapter(&mut a, &mut events, &uid_bytes()).unwrap();
    assert_eq!(q.host, b"127.0.0.1".to_vec());

    // the echoing remote: it receives the payload bytes after the header,
    // then everything still queued, and sends the same bytes back
    let mut remote_received = first;
    loop {
        let chunk = a.read_available(4096);
        if !chunk.is_empty() {
            remote_received.extend_from_slice(&chunk);
            continue;
        }
        if events.is_empty() {
            break;
        }
        let ev = events.remove(0);
        if a.on_event(ev).is_err() {
            break;
        }
    }
    assert_eq!(remote_received, payload);

    // relay the echo back to the client in chunks: the client observes the
    // response header, then the payload verbatim
    let mut wire: Vec<u8> = Vec::new();
    for c in remote_received.chunks(8192) {
        let frame = a.frame_for_write(&c.to_vec());
        wire.extend_from_slice(&frame);
    }
    let mut expected = vec![0x00, 0x00];
    expected.extend_from_slice(&payload);
    assert_eq!(wire, expected);
}

#[test]
fn a_rejected_request_never_yields_a_target() {
    // UDP request: the session fails before any dial and closes 1003
    let mut d = vec![0u8];
    d.extend_from_slice(&uid_bytes());
    d.extend_from_slice(&[0x00, 0x02, 0x00, 0x35, 0x01, 8, 8, 8, 8]);
    let mut a = Adapter::new(Some(d));
    let mut events = Vec::new();
    let err = parse_over_adapter(&mut a, &mut events, &uid_bytes()).unwrap_err();
    assert_eq!(err, TunnelError::UdpRequested);
    assert_eq!(close_code_for(&err), Some(1003));
    assert_eq!(close_reason(), "Unsupported data");
}
