//! The peer registry, routing, the client lifecycle, and one
//! end-to-end packet walk.

use iroh_mux::client::ClientState;
use iroh_mux::connection::ChannelTransport;
use iroh_mux::connection::SendAction;
use iroh_mux::server::PeerRegistry;
use iroh_mux::stream::FeedEvent;
use iroh_mux::stream::StreamReader;
use iroh_mux::ConnectionStatus;
use iroh_mux::TransferMode;

#[test]
fn peer_ids_start_at_two_and_increase() {
    let mut registry = PeerRegistry::new();
    let a = registry.allocate_peer_id();
    let b = registry.allocate_peer_id();
    let c = registry.allocate_peer_id();
    assert_eq!((a, b, c), (2, 3, 4));
    assert!(a >= 2 && b >= 2 && c >= 2);
    assert!(a < b && b < c);
}

#[test]
fn peer_id_wraps_back_to_two() {
    let mut registry = PeerRegistry::new();
    registry.last_peer_id = i32::MAX - 1;
    assert_eq!(registry.allocate_peer_id(), 2);
    let next = registry.allocate_peer_id();
    assert_eq!(next, 3);
}

#[test]
fn broadcast_reaches_every_live_peer() {
    let mut registry = PeerRegistry::new();
    for _ in 0..3 {
        let id = registry.allocate_peer_id();
        assert!(registry.register_peer(id));
    }
    registry.set_target_peer(0);
    assert_eq!(registry.route_targets(), vec![2, 3, 4]);
}

#[test]
fn unicast_to_absent_peer_is_silent() {
    let mut registry = PeerRegistry::new();
    for _ in 0..3 {
        let id = registry.allocate_peer_id();
        registry.register_peer(id);
    }
    registry.set_target_peer(9);
    assert_eq!(registry.route_targets(), Vec::<i32>::new());
}

#[test]
fn unicast_to_present_peer_reaches_only_it() {
    let mut registry = PeerRegistry::new();
    for _ in 0..3 {
        let id = registry.allocate_peer_id();
        registry.register_peer(id);
    }
    registry.set_target_peer(3);
    assert_eq!(registry.route_targets(), vec![3]);
}

#[test]
fn negative_target_excludes_no_real_peer() {
    let mut registry = PeerRegistry::new();
    for _ in 0..3 {
        let id = registry.allocate_peer_id();
        registry.register_peer(id);
    }
    // A negative target excludes exactly the peer whose id equals it,
    // which no assigned (positive) id ever does.
    registry.set_target_peer(-3);
    assert_eq!(registry.route_targets(), vec![2, 3, 4]);
}

#[test]
fn registering_twice_is_a_no_op() {
    let mut registry = PeerRegistry::new();
    let id = registry.allocate_peer_id();
    assert!(registry.register_peer(id));
    assert!(!registry.register_peer(id));
    registry.set_target_peer(0);
    assert_eq!(registry.route_targets(), vec![id]);
}

#[test]
fn disconnect_evicts_and_notifies_exactly_once() {
    let mut registry = PeerRegistry::new();
    let a = registry.allocate_peer_id();
    let b = registry.allocate_peer_id();
    registry.register_peer(a);
    registry.register_peer(b);

    let (closed, notified) = registry.disconnect_peer(a, false);
    assert!(closed && notified);
    assert!(!registry.has_peer(a));

    // A second disconnect finds nothing: no second close, no second event.
    let (closed, notified) = registry.disconnect_peer(a, false);
    assert!(!closed && !notified);

    // Unicast to the evicted id is now a silent no-op.
    registry.set_target_peer(a);
    assert_eq!(registry.route_targets(), Vec::<i32>::new());

    // The other peer still routes.
    registry.set_target_peer(b);
    assert_eq!(registry.route_targets(), vec![b]);
}

#[test]
fn forced_disconnect_stays_silent() {
    let mut registry = PeerRegistry::new();
    let id = registry.allocate_peer_id();
    registry.register_peer(id);
    let (closed, notified) = registry.disconnect_peer(id, true);
    assert!(closed && !notified);
}

#[test]
fn registry_queue_is_first_in_first_out() {
    let mut registry = PeerRegistry::new();
    assert_eq!(registry.get_available_packet_count(), 0);
    assert_eq!(registry.get_packet_peer(), -1);
    assert_eq!(registry.get_packet_channel(), 0);
    assert_eq!(registry.get_packet_mode(), TransferMode::Reliable);
    assert_eq!(registry.pop_packet(), Vec::<u8>::new());

    registry.on_packet(2, 5, TransferMode::Reliable, b"first".to_vec());
    registry.on_packet(3, 6, TransferMode::Unreliable, b"second".to_vec());
    assert_eq!(registry.get_available_packet_count(), 2);
    assert_eq!(registry.get_packet_peer(), 2);
    assert_eq!(registry.get_packet_channel(), 5);
    assert_eq!(registry.get_packet_mode(), TransferMode::Reliable);
    assert_eq!(registry.pop_packet(), b"first".to_vec());
    assert_eq!(registry.get_packet_peer(), 3);
    assert_eq!(registry.pop_packet(), b"second".to_vec());
    assert_eq!(registry.get_available_packet_count(), 0);
}

#[test]
fn registry_settings_and_status() {
    let mut registry = PeerRegistry::new();
    assert_eq!(registry.get_unique_id(), 1);
    assert_eq!(registry.get_connection_status(), ConnectionStatus::Connected);
    assert_eq!(registry.get_max_packet_size(), 65535);
    registry.set_transfer_mode(TransferMode::Unreliable);
    assert_eq!(registry.get_max_packet_size(), 1024);
    assert_eq!(registry.get_transfer_mode(), TransferMode::Unreliable);
    registry.set_transfer_channel(7);
    assert_eq!(registry.get_transfer_channel(), 7);
    registry.set_target_peer(4);
    assert_eq!(registry.get_target_peer(), 4);
    assert!(!registry.is_refusing_new_connections());
    registry.set_refuse_new_connections(true);
    assert!(registry.is_refusing_new_connections());
    registry.close();
    assert_eq!(
        registry.get_connection_status(),
        ConnectionStatus::Disconnected
    );
}

#[test]
fn client_connects_and_adopts_assigned_id() {
    let mut client = ClientState::new_connecting();
    assert_eq!(client.get_connection_status(), ConnectionStatus::Connecting);
    assert_eq!(client.get_unique_id(), -1);
    assert!(!client.can_send());

    let notify = client.on_connect_result(Ok(7));
    assert!(notify);
    assert_eq!(client.get_connection_status(), ConnectionStatus::Connected);
    assert_eq!(client.get_unique_id(), 7);
    assert!(client.can_send());
    assert_eq!(client.connection_error(), String::new());
}

#[test]
fn client_failure_is_terminal_and_keeps_the_message() {
    let mut client = ClientState::new_connecting();
    let notify = client.on_connect_result(Err("no route to host".to_string()));
    assert!(!notify);
    assert_eq!(
        client.get_connection_status(),
        ConnectionStatus::Disconnected
    );
    assert_eq!(client.connection_error(), "no route to host");
    assert_eq!(client.get_unique_id(), -1);
}

#[test]
fn client_queue_and_transport_closure() {
    let mut client = ClientState::new_connecting();
    client.on_connect_result(Ok(2));
    client.on_packet(5, TransferMode::Reliable, b"hi".to_vec());
    assert_eq!(client.get_available_packet_count(), 1);
    assert_eq!(client.get_packet_channel(), 5);
    assert_eq!(client.get_packet_mode(), TransferMode::Reliable);
    assert_eq!(client.get_packet_peer(), 1);
    assert_eq!(client.pop_packet(), b"hi".to_vec());
    assert_eq!(client.get_available_packet_count(), 0);

    let notify = client.on_transport_closed();
    assert!(notify);
    assert_eq!(
        client.get_connection_status(),
        ConnectionStatus::Disconnected
    );
    assert!(!client.can_send());
}

#[test]
fn client_disconnect_rules() {
    let mut client = ClientState::new_connecting();
    client.on_connect_result(Ok(2));
    // Only the host's id means anything to a client.
    assert_eq!(client.disconnect_peer(2, false), (false, false));
    assert_eq!(client.get_connection_status(), ConnectionStatus::Connected);
    assert_eq!(client.disconnect_peer(1, false), (true, true));
    assert_eq!(
        client.get_connection_status(),
        ConnectionStatus::Disconnected
    );
    // Terminal: a second disconnect has nothing to do.
    assert_eq!(client.disconnect_peer(1, false), (false, false));
}

#[test]
fn client_packet_size_bounds() {
    let mut client = ClientState::new_connecting();
    assert_eq!(client.get_max_packet_size(), 65535);
    client.set_transfer_mode(TransferMode::UnreliableOrdered);
    assert_eq!(client.get_max_packet_size(), 1024);
    client.set_transfer_channel(9);
    assert_eq!(client.get_transfer_channel(), 9);
    assert_eq!(client.get_transfer_mode(), TransferMode::UnreliableOrdered);
}

#[test]
fn one_packet_end_to_end() {
    // Peer A sends (channel 5, reliable, b"hello").
    let mut sender = ChannelTransport::new();
    let wire = match sender.send_packet(5, TransferMode::Reliable, b"hello".to_vec()) {
        SendAction::OpenStream { channel, bytes } => {
            assert_eq!(channel, 5);
            bytes
        }
        _ => panic!("the first reliable send must open the stream"),
    };

    // Peer B's reader parses the stream bytes.
    let mut reader = StreamReader::new();
    let mut events = Vec::new();
    let mut offset = 0usize;
    while offset < wire.len() {
        let n = reader.needed();
        events.push(reader.feed(wire[offset..offset + n].to_vec()));
        offset += n;
    }
    let channel = match &events[0] {
        FeedEvent::Channel(c) => *c,
        _ => panic!("the stream must announce its channel first"),
    };
    let payload = match events.last().unwrap() {
        FeedEvent::Frame(p) => p.clone(),
        _ => panic!("the frame must complete"),
    };

    // Peer B's registry surfaces exactly one packet, then none.
    let mut registry = PeerRegistry::new();
    let peer = registry.allocate_peer_id();
    registry.register_peer(peer);
    registry.on_packet(peer, channel, TransferMode::Reliable, payload);
    assert_eq!(registry.get_available_packet_count(), 1);
    assert_eq!(registry.get_packet_channel(), 5);
    assert_eq!(registry.get_packet_mode(), TransferMode::Reliable);
    assert_eq!(registry.get_packet_peer(), peer);
    assert_eq!(registry.pop_packet(), b"hello".to_vec());
    assert_eq!(registry.get_available_packet_count(), 0);
}
