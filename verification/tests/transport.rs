//! The reliable reader, the unreliable ordering rule, the outbound
//! transport, and the connection string.

use iroh_mux::connection::parse_connection_string;
use iroh_mux::connection::connection_string_of;
use iroh_mux::connection::ChannelTransport;
use iroh_mux::connection::ConnectError;
use iroh_mux::connection::SendAction;
use iroh_mux::datagram::encode_datagram;
use iroh_mux::datagram::DatagramDecision;
use iroh_mux::datagram::UnreliableReceiver;
use iroh_mux::datagram::UnreliableSender;
use iroh_mux::stream::FeedEvent;
use iroh_mux::stream::ReaderPhase;
use iroh_mux::stream::StreamReader;
use iroh_mux::TransferMode;

fn feed_reader(reader: &mut StreamReader, bytes: &[u8]) -> Vec<FeedEvent> {
    let mut events = Vec::new();
    let mut offset = 0usize;
    loop {
        let n = reader.needed();
        if n == 0 && matches!(reader.phase, ReaderPhase::Payload) {
            // A declared zero-length frame: reading zero bytes completes it.
            events.push(reader.feed(Vec::new()));
            continue;
        }
        if n == 0 || offset >= bytes.len() {
            break;
        }
        assert!(offset + n <= bytes.len());
        events.push(reader.feed(bytes[offset..offset + n].to_vec()));
        offset += n;
    }
    events
}

#[test]
fn reliable_stream_round_trip_in_order() {
    let mut sender = ChannelTransport::new();
    let mut wire: Vec<u8> = Vec::new();
    for payload in [b"hello".to_vec(), b"world!".to_vec(), Vec::new()] {
        match sender.send_packet(5, TransferMode::Reliable, payload) {
            SendAction::OpenStream { channel, bytes } => {
                assert_eq!(channel, 5);
                wire.extend_from_slice(&bytes);
            }
            SendAction::WriteStream { channel, bytes } => {
                assert_eq!(channel, 5);
                wire.extend_from_slice(&bytes);
            }
            SendAction::SendDatagram { .. } => panic!("reliable send became a datagram"),
        }
    }

    let mut reader = StreamReader::new();
    let events = feed_reader(&mut reader, &wire);
    let mut frames: Vec<Vec<u8>> = Vec::new();
    let mut channel = None;
    for event in events {
        match event {
            FeedEvent::Channel(c) => channel = Some(c),
            FeedEvent::Frame(p) => frames.push(p),
            FeedEvent::Await => {}
            FeedEvent::Oversized => panic!("in-bound frame reported oversized"),
        }
    }
    assert_eq!(channel, Some(5));
    assert_eq!(frames, vec![b"hello".to_vec(), b"world!".to_vec(), Vec::new()]);
}

#[test]
fn first_reliable_send_opens_stream_once() {
    let mut sender = ChannelTransport::new();
    match sender.send_packet(5, TransferMode::Reliable, b"hello".to_vec()) {
        SendAction::OpenStream { channel, bytes } => {
            assert_eq!(channel, 5);
            assert_eq!(bytes, vec![0, 0, 0, 5, 0, 5, b'h', b'e', b'l', b'l', b'o']);
        }
        _ => panic!("first reliable send must open the stream"),
    }
    match sender.send_packet(5, TransferMode::Reliable, b"again".to_vec()) {
        SendAction::WriteStream { channel, bytes } => {
            assert_eq!(channel, 5);
            assert_eq!(bytes, vec![0, 5, b'a', b'g', b'a', b'i', b'n']);
        }
        _ => panic!("second reliable send must reuse the stream"),
    }
    match sender.send_packet(6, TransferMode::Reliable, b"x".to_vec()) {
        SendAction::OpenStream { channel, bytes } => {
            assert_eq!(channel, 6);
            assert_eq!(bytes, vec![0, 0, 0, 6, 0, 1, b'x']);
        }
        _ => panic!("a new channel must open its own stream"),
    }
}

#[test]
fn oversized_frame_kills_only_its_stream() {
    let mut bad = StreamReader::new();
    assert_eq!(bad.needed(), 4);
    assert!(matches!(bad.feed(vec![0, 0, 0, 1]), FeedEvent::Channel(1)));
    assert_eq!(bad.needed(), 2);
    // Declared length 1025: one above the reliable payload bound.
    assert!(matches!(bad.feed(vec![0x04, 0x01]), FeedEvent::Oversized));
    assert_eq!(bad.needed(), 0, "a rejected stream reads nothing further");

    // A reader on another stream of the same transport is untouched.
    let mut good = StreamReader::new();
    assert!(matches!(good.feed(vec![0, 0, 0, 2]), FeedEvent::Channel(2)));
    assert!(matches!(good.feed(vec![0, 2]), FeedEvent::Await));
    match good.feed(b"ok".to_vec()) {
        FeedEvent::Frame(p) => assert_eq!(p, b"ok".to_vec()),
        _ => panic!("the healthy stream must still deliver"),
    }
}

#[test]
fn largest_allowed_frame_passes() {
    let mut reader = StreamReader::new();
    assert!(matches!(reader.feed(vec![0, 0, 0, 1]), FeedEvent::Channel(1)));
    assert!(matches!(reader.feed(vec![0x04, 0x00]), FeedEvent::Await));
    assert_eq!(reader.needed(), 1024);
    match reader.feed(vec![0xAB; 1024]) {
        FeedEvent::Frame(p) => assert_eq!(p.len(), 1024),
        _ => panic!("a frame at the bound must be delivered"),
    }
}

#[test]
fn ordered_counters_start_at_one_per_channel() {
    let mut sender = UnreliableSender::new();
    let d1 = sender.prepare(3, true, b"a".to_vec());
    assert_eq!(d1, vec![b'a', 0, 0, 0, 3, 0, 0, 0, 1]);
    let d2 = sender.prepare(3, true, b"b".to_vec());
    assert_eq!(d2, vec![b'b', 0, 0, 0, 3, 0, 0, 0, 2]);
    // Another channel numbers independently.
    let d3 = sender.prepare(4, true, b"c".to_vec());
    assert_eq!(d3, vec![b'c', 0, 0, 0, 4, 0, 0, 0, 1]);
    // Unordered traffic always carries the reserved counter 0.
    let d4 = sender.prepare(3, false, b"d".to_vec());
    assert_eq!(d4, vec![b'd', 0, 0, 0, 3, 0, 0, 0, 0]);
    let d5 = sender.prepare(3, true, b"e".to_vec());
    assert_eq!(d5, vec![b'e', 0, 0, 0, 3, 0, 0, 0, 3]);
}

#[test]
fn ordered_delivery_in_order_keeps_both() {
    let mut receiver = UnreliableReceiver::new();
    let d1 = encode_datagram(3, 1, b"one".to_vec());
    let d2 = encode_datagram(3, 2, b"two".to_vec());
    match receiver.on_datagram(&d1) {
        DatagramDecision::DeliverOrdered { channel, payload } => {
            assert_eq!(channel, 3);
            assert_eq!(payload, b"one".to_vec());
        }
        _ => panic!("the first ordered datagram must be delivered"),
    }
    match receiver.on_datagram(&d2) {
        DatagramDecision::DeliverOrdered { channel, payload } => {
            assert_eq!(channel, 3);
            assert_eq!(payload, b"two".to_vec());
        }
        _ => panic!("a newer ordered datagram must be delivered"),
    }
}

#[test]
fn ordered_delivery_out_of_order_drops_the_older() {
    let mut receiver = UnreliableReceiver::new();
    let d1 = encode_datagram(3, 1, b"one".to_vec());
    let d2 = encode_datagram(3, 2, b"two".to_vec());
    assert!(matches!(
        receiver.on_datagram(&d2),
        DatagramDecision::DeliverOrdered { .. }
    ));
    assert!(matches!(receiver.on_datagram(&d1), DatagramDecision::Stale));
    // The drop is per channel: the same counter on another channel passes.
    let other = encode_datagram(8, 1, b"one".to_vec());
    assert!(matches!(
        receiver.on_datagram(&other),
        DatagramDecision::DeliverOrdered { .. }
    ));
}

#[test]
fn wrapped_counter_is_accepted() {
    let mut receiver = UnreliableReceiver::new();
    // The newest counter sits just below the 32-bit boundary.
    let high = encode_datagram(3, u32::MAX - 5, b"old".to_vec());
    assert!(matches!(
        receiver.on_datagram(&high),
        DatagramDecision::DeliverOrdered { .. }
    ));
    // A counter that has wrapped past zero is newer, not stale.
    let wrapped = encode_datagram(3, 3, b"new".to_vec());
    match receiver.on_datagram(&wrapped) {
        DatagramDecision::DeliverOrdered { channel, payload } => {
            assert_eq!(channel, 3);
            assert_eq!(payload, b"new".to_vec());
        }
        _ => panic!("a wrapped counter must be read as newer traffic"),
    }
}

#[test]
fn staleness_window_boundary_is_a_quarter_of_the_counter_space() {
    // The window is exactly 2^32 / 4 = 1073741824: a counter that far
    // behind the newest is read as wrapped newer traffic, one closer is
    // stale.
    let mut receiver = UnreliableReceiver::new();
    let newest = encode_datagram(3, 1_073_741_826, b"newest".to_vec());
    assert!(matches!(
        receiver.on_datagram(&newest),
        DatagramDecision::DeliverOrdered { .. }
    ));
    // Gap of 1_073_741_823: one inside the window, dropped.
    let inside = encode_datagram(3, 3, b"inside".to_vec());
    assert!(matches!(receiver.on_datagram(&inside), DatagramDecision::Stale));
    // Gap of exactly 1_073_741_824: at the window, accepted.
    let at_window = encode_datagram(3, 2, b"at".to_vec());
    assert!(matches!(
        receiver.on_datagram(&at_window),
        DatagramDecision::DeliverOrdered { .. }
    ));
}

#[test]
fn unordered_datagram_is_never_stale() {
    let mut receiver = UnreliableReceiver::new();
    let newest = encode_datagram(3, 100, b"newest".to_vec());
    assert!(matches!(
        receiver.on_datagram(&newest),
        DatagramDecision::DeliverOrdered { .. }
    ));
    let unordered = encode_datagram(3, 0, b"plain".to_vec());
    match receiver.on_datagram(&unordered) {
        DatagramDecision::DeliverUnreliable { channel, payload } => {
            assert_eq!(channel, 3);
            assert_eq!(payload, b"plain".to_vec());
        }
        _ => panic!("counter 0 must be delivered unconditionally"),
    }
}

#[test]
fn truncated_datagram_is_fatal_for_the_path() {
    let mut receiver = UnreliableReceiver::new();
    assert!(matches!(
        receiver.on_datagram(&vec![1, 2, 3]),
        DatagramDecision::Malformed
    ));
}

#[test]
fn unreliable_sends_through_the_transport() {
    let mut sender = ChannelTransport::new();
    match sender.send_packet(3, TransferMode::UnreliableOrdered, b"a".to_vec()) {
        SendAction::SendDatagram { bytes } => {
            assert_eq!(bytes, vec![b'a', 0, 0, 0, 3, 0, 0, 0, 1]);
        }
        _ => panic!("unreliable send must become a datagram"),
    }
    match sender.send_packet(3, TransferMode::Unreliable, b"b".to_vec()) {
        SendAction::SendDatagram { bytes } => {
            assert_eq!(bytes, vec![b'b', 0, 0, 0, 3, 0, 0, 0, 0]);
        }
        _ => panic!("unreliable send must become a datagram"),
    }
}

#[test]
fn connection_string_round_trips() {
    let node_id: Vec<u8> = (0u8..32).collect();
    let s = connection_string_of(&node_id);
    assert_eq!(s.len(), 43);
    let engine = &base64::engine::general_purpose::URL_SAFE_NO_PAD;
    assert_eq!(s, base64::Engine::encode(engine, &node_id));
    assert_eq!(parse_connection_string(&s), Ok(node_id));
}

#[test]
fn connection_string_of_zero_id() {
    let s = connection_string_of(&vec![0u8; 32]);
    assert_eq!(s, "A".repeat(43));
}

#[test]
fn invalid_connection_strings_are_rejected() {
    assert_eq!(
        parse_connection_string("not base64 at all!"),
        Err(ConnectError::InvalidConnectionString)
    );
    // Valid base64, wrong decoded length.
    let engine = &base64::engine::general_purpose::URL_SAFE_NO_PAD;
    let short = base64::Engine::encode(engine, b"too short");
    assert_eq!(
        parse_connection_string(&short),
        Err(ConnectError::InvalidConnectionString)
    );
    assert_eq!(
        ConnectError::InvalidConnectionString.message(),
        "invalid connection string"
    );
}
