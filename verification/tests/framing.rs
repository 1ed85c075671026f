use grapple_hook::codecs::BridgedCanMessage;
use grapple_hook::codecs::GrappleTcpCanBridgeCodec;
use grapple_hook::codecs::GrappleTcpCodec;
use grapple_hook::codecs::GrappleUdpCodec;
use grapple_hook::codecs::GrappleUsbCodec;
use grapple_hook::frame::FrameDecode;
use grapple_hook::frame::decode_frame;
use grapple_hook::frame::drain_front;
use grapple_hook::frame::encode_frame;
use grapple_hook::fragment::FragmentPart;
use grapple_hook::fragment::Fragmenter;
use grapple_hook::fragment::Reassembler;
use grapple_hook::HookError;

#[test]
fn frame_round_trip_single() {
    let payload: Vec<u8> = vec![1, 2, 3, 4, 5];
    let framed = encode_frame(&payload);
    assert_eq!(framed, vec![5, 0, 1, 2, 3, 4, 5]);
    match decode_frame(&framed) {
        FrameDecode::Complete { payload: p, consumed } => {
            assert_eq!(p, payload);
            assert_eq!(consumed, framed.len());
        },
        FrameDecode::Incomplete { .. } => panic!("complete frame not decoded"),
    }
}

#[test]
fn frame_round_trip_back_to_back() {
    let p1: Vec<u8> = vec![10, 20, 30];
    let p2: Vec<u8> = vec![40];
    let mut buf = encode_frame(&p1);
    buf.extend_from_slice(&encode_frame(&p2));
    let consumed1 = match decode_frame(&buf) {
        FrameDecode::Complete { payload, consumed } => {
            assert_eq!(payload, p1);
            consumed
        },
        FrameDecode::Incomplete { .. } => panic!("first frame not decoded"),
    };
    drain_front(&mut buf, consumed1);
    match decode_frame(&buf) {
        FrameDecode::Complete { payload, consumed } => {
            assert_eq!(payload, p2);
            assert_eq!(consumed, buf.len());
        },
        FrameDecode::Incomplete { .. } => panic!("second frame not decoded"),
    }
}

#[test]
fn frame_incomplete_reports_shortfall() {
    // A frame announcing 300 payload bytes, with only one buffered.
    let buf: Vec<u8> = vec![0x2c, 0x01, 0xaa];
    match decode_frame(&buf) {
        FrameDecode::Incomplete { shortfall } => assert_eq!(shortfall, 299),
        FrameDecode::Complete { .. } => panic!("incomplete frame decoded"),
    }
}

#[test]
fn frame_large_payload_length_prefix() {
    let payload: Vec<u8> = vec![7u8; 300];
    let framed = encode_frame(&payload);
    assert_eq!(framed[0], 0x2c);
    assert_eq!(framed[1], 0x01);
    assert_eq!(framed.len(), 302);
}

#[test]
fn framed_codecs_agree() {
    let payload: Vec<u8> = vec![9, 8, 7];
    let tcp = GrappleTcpCodec {};
    let udp = GrappleUdpCodec {};
    let usb = GrappleUsbCodec {};
    assert_eq!(tcp.encode(&payload), udp.encode(&payload));
    assert_eq!(udp.encode(&payload), usb.encode(&payload));
    match tcp.decode(&tcp.encode(&payload)) {
        FrameDecode::Complete { payload: p, .. } => assert_eq!(p, payload),
        FrameDecode::Incomplete { .. } => panic!("codec did not decode its own frame"),
    }
}

#[test]
fn bridged_round_trip_over_frame() {
    let codec = GrappleTcpCanBridgeCodec {};
    let msg = BridgedCanMessage { id: 0x01234567, timestamp: 42, data: vec![1, 2, 3] };
    let framed = codec.encode(&msg).expect("encodable record");
    match codec.decode(&framed) {
        Ok(Some((m, consumed))) => {
            assert_eq!(m.id, 0x01234567);
            assert_eq!(m.timestamp, 42);
            assert_eq!(m.data, vec![1, 2, 3]);
            assert_eq!(consumed, framed.len());
        },
        _ => panic!("bridged record not decoded"),
    }
}

#[test]
fn bridged_bad_frame_is_protocol_error() {
    let codec = GrappleTcpCanBridgeCodec {};
    // A complete frame whose payload is too short to be a bridged record.
    let framed = encode_frame(&vec![1, 2, 3]);
    match codec.decode(&framed) {
        Err(HookError::Protocol) => {},
        _ => panic!("malformed frame payload not reported"),
    }
}

#[test]
fn raw_usb_bridged_round_trip() {
    let codec = GrappleUsbCodec {};
    let msg = BridgedCanMessage { id: 77, timestamp: 5, data: vec![8, 8, 8, 8] };
    let bytes = codec.encode_raw(&msg);
    match codec.decode_raw(&bytes) {
        Some((m, consumed)) => {
            assert_eq!(m.id, 77);
            assert_eq!(m.data, vec![8, 8, 8, 8]);
            assert_eq!(consumed, bytes.len());
        },
        None => panic!("raw bridged record not decoded"),
    }
}

#[test]
fn fragmentation_small_payload_unchanged() {
    let mut tx = Fragmenter::new();
    let payload: Vec<u8> = vec![1, 2, 3];
    let parts = tx.maybe_fragment(9, &payload, 8);
    assert_eq!(parts.len(), 1);
    assert_eq!(parts[0].data, payload);
    assert!(parts[0].terminal);
    assert_eq!(parts[0].seq, 0);
    // A fitting payload consumes no session number.
    assert_eq!(tx.next_session, 0);
}

#[test]
fn fragmentation_round_trip() {
    let mut tx = Fragmenter::new();
    let payload: Vec<u8> = (0..20).collect();
    let parts = tx.maybe_fragment(9, &payload, 8);
    assert_eq!(parts.len(), 3);
    assert_eq!(parts[0].data.len(), 8);
    assert_eq!(parts[1].data.len(), 8);
    assert_eq!(parts[2].data.len(), 4);
    assert!(parts[2].terminal);
    assert_eq!(tx.next_session, 1);

    let mut rx = Reassembler::new(1000);
    let mut emitted: Vec<Vec<u8>> = Vec::new();
    for part in parts {
        match rx.defragment(50, part) {
            Ok(Some(p)) => emitted.push(p),
            Ok(None) => {},
            Err(_) => panic!("in-order part rejected"),
        }
    }
    assert_eq!(emitted, vec![payload]);
    assert_eq!(rx.sessions.len(), 0);
}

#[test]
fn fragmentation_prefix_yields_nothing() {
    let mut tx = Fragmenter::new();
    let payload: Vec<u8> = (0..20).collect();
    let parts = tx.maybe_fragment(9, &payload, 8);
    let mut rx = Reassembler::new(1000);
    for part in parts.into_iter().take(2) {
        match rx.defragment(50, part) {
            Ok(None) => {},
            _ => panic!("prefix completed or was rejected"),
        }
    }
    assert_eq!(rx.sessions.len(), 1);
}

#[test]
fn fragmentation_session_ages_out() {
    let mut tx = Fragmenter::new();
    let payload: Vec<u8> = (0..20).collect();
    let parts = tx.maybe_fragment(9, &payload, 8);
    let mut rx = Reassembler::new(1000);
    let mut it = parts.into_iter();
    let first = it.next().unwrap();
    let second = it.next().unwrap();
    assert!(matches!(rx.defragment(50, first), Ok(None)));
    // The session's age limit elapses before the next part arrives:
    // it is evicted, and the late part can never complete the message.
    match rx.defragment(2000, second) {
        Err(HookError::Protocol) => {},
        _ => panic!("aged session still accepted a part"),
    }
    assert_eq!(rx.sessions.len(), 0);
}

#[test]
fn fragmentation_out_of_order_discards_session() {
    let mut tx = Fragmenter::new();
    let payload: Vec<u8> = (0..20).collect();
    let parts = tx.maybe_fragment(9, &payload, 8);
    let mut rx = Reassembler::new(1000);
    let mut it = parts.into_iter();
    let first = it.next().unwrap();
    let _second = it.next().unwrap();
    let third = it.next().unwrap();
    assert!(matches!(rx.defragment(50, first), Ok(None)));
    match rx.defragment(60, third) {
        Err(HookError::Protocol) => {},
        _ => panic!("out-of-order part accepted"),
    }
    assert_eq!(rx.sessions.len(), 0);
}

#[test]
fn part_wire_round_trip() {
    let part = FragmentPart {
        device_id: 9,
        session: 3,
        seq: 0x0102,
        terminal: true,
        data: vec![5, 6, 7],
    };
    let bytes = grapple_hook::fragment::encode_part(&part);
    assert_eq!(bytes, vec![9, 3, 2, 1, 1, 5, 6, 7]);
    let decoded = grapple_hook::fragment::decode_part(&bytes).expect("well-formed part");
    assert_eq!(decoded.device_id, 9);
    assert_eq!(decoded.session, 3);
    assert_eq!(decoded.seq, 0x0102);
    assert!(decoded.terminal);
    assert_eq!(decoded.data, vec![5, 6, 7]);
    // A flag byte that is neither zero nor one is no part.
    assert!(grapple_hook::fragment::decode_part(&vec![9, 3, 2, 1, 7]).is_none());
}

#[test]
fn fragmentation_stray_part_rejected() {
    let mut rx = Reassembler::new(1000);
    let stray = FragmentPart { device_id: 3, session: 0, seq: 4, terminal: true, data: vec![1] };
    match rx.defragment(10, stray) {
        Err(HookError::Protocol) => {},
        _ => panic!("stray part accepted"),
    }
}
