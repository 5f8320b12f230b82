use p2p_session::codec::{encode, NetworkMessage};
use p2p_session::config::NetworkConfig;
use p2p_session::router::{route, ChannelUnavailable};
use p2p_session::state::{poll_snapshot, ConnectionStatus, NetworkState};
use p2p_session::stats::counter_add;
use p2p_session::supervisor::{
    EnhancedNetworkManager, LoopAction, NetworkCommand, NetworkEvent, SendError,
};
use std::sync::Mutex;

fn chat(text: &str) -> NetworkMessage {
    NetworkMessage::Chat(text.to_owned())
}

fn game_state() -> NetworkMessage {
    NetworkMessage::GameState(p2p_session::codec::GameState {
        player_id: "p".to_owned(),
        pos_x_bits: 0,
        pos_y_bits: 0,
        timestamp: 0,
        sequence: 0,
    })
}

fn connected_manager() -> EnhancedNetworkManager {
    let mut mgr = EnhancedNetworkManager::new(NetworkConfig::default());
    mgr.connect("ws://localhost:3536/test_room".to_owned());
    mgr.complete_connect(Ok(()));
    mgr
}

#[test]
fn routing_follows_delivery_class() {
    let config = NetworkConfig::default();
    assert_eq!(route(&chat("x"), &config), Ok(0));
    assert_eq!(route(&game_state(), &config), Ok(1));
    assert_eq!(route(&NetworkMessage::Heartbeat, &config), Ok(0));
}

#[test]
fn routing_refuses_disabled_channel() {
    let mut config = NetworkConfig::default();
    config.enable_unreliable_channel = false;
    assert_eq!(route(&game_state(), &config), Err(ChannelUnavailable));
    assert_eq!(route(&chat("x"), &config), Ok(0));

    let mut config = NetworkConfig::default();
    config.enable_reliable_channel = false;
    assert_eq!(route(&chat("x"), &config), Err(ChannelUnavailable));
    // With the reliable channel gone, the best-effort channel is first.
    assert_eq!(route(&game_state(), &config), Ok(0));
}

#[test]
fn connect_success_resets_attempts() {
    let mut mgr = EnhancedNetworkManager::new(NetworkConfig::default());
    assert!(matches!(
        mgr.state.connection_status,
        ConnectionStatus::Disconnected
    ));
    mgr.connect("ws://localhost:3536/test_room".to_owned());
    assert!(matches!(
        mgr.state.connection_status,
        ConnectionStatus::Connecting
    ));
    mgr.complete_connect(Ok(()));
    assert!(mgr.state.connection_status.is_connected());
    assert_eq!(mgr.state.reconnect_attempts, 0);
}

#[test]
fn failed_connect_records_reason() {
    let mut mgr = EnhancedNetworkManager::new(NetworkConfig::default());
    mgr.connect("ws://localhost:3536/test_room".to_owned());
    mgr.complete_connect(Err("refused".to_owned()));
    match &mgr.state.connection_status {
        ConnectionStatus::Error(reason) => assert_eq!(reason, "refused"),
        other => panic!("wrong phase: {:?}", other),
    }
}

#[test]
fn reconnect_budget_exhausts_after_ceiling() {
    // Ceiling three, no delay: three consecutive failures, then no
    // fourth attempt and the terminal exhausted phase.
    let mut config = NetworkConfig::default();
    config.reconnect_attempts = 3;
    config.reconnect_delay_ms = 0;
    let mut mgr = EnhancedNetworkManager::new(config);
    mgr.connect("ws://localhost:3536/test_room".to_owned());
    mgr.complete_connect(Err("refused".to_owned()));

    for round in 1..=3u32 {
        let cmd = mgr.monitor_tick();
        assert!(matches!(cmd, Some(NetworkCommand::Reconnect)));
        assert_eq!(mgr.state.reconnect_attempts, round);
        assert!(matches!(
            mgr.state.connection_status,
            ConnectionStatus::Reconnecting
        ));
        mgr.connect("ws://localhost:3536/test_room".to_owned());
        mgr.complete_connect(Err("refused".to_owned()));
    }

    let cmd = mgr.monitor_tick();
    assert!(cmd.is_none());
    assert!(mgr.state.connection_status.is_reconnect_exhausted());
    assert_eq!(mgr.state.reconnect_attempts, 3);

    // The monitor stays silent from the terminal phase.
    assert!(mgr.monitor_tick().is_none());
    assert_eq!(mgr.state.reconnect_attempts, 3);
}

#[test]
fn monitor_is_inert_while_connected() {
    let mut mgr = connected_manager();
    assert!(mgr.monitor_tick().is_none());
    assert!(mgr.state.connection_status.is_connected());
}

#[test]
fn two_peers_exchange_chats_in_order() {
    let mut mgr = connected_manager();
    mgr.apply_event(NetworkEvent::PeerConnected("alice".to_owned()), 10);
    mgr.apply_event(NetworkEvent::PeerConnected("bob".to_owned()), 11);
    assert_eq!(mgr.state.peers, vec!["alice".to_owned(), "bob".to_owned()]);

    let from_alice = encode(&chat("hi bob")).unwrap();
    let from_bob = encode(&chat("hi alice")).unwrap();
    assert!(mgr.handle_packet("alice".to_owned(), &from_alice, 20).is_none());
    assert!(mgr.handle_packet("bob".to_owned(), &from_bob, 21).is_none());

    assert_eq!(mgr.state.messages.len(), 2);
    assert_eq!(mgr.state.messages[0].peer_id, "alice");
    assert_eq!(mgr.state.messages[0].text, "hi bob");
    assert_eq!(mgr.state.messages[0].timestamp, 20);
    assert_eq!(mgr.state.messages[1].peer_id, "bob");
    assert_eq!(mgr.state.messages[1].text, "hi alice");
    assert_eq!(mgr.state.messages[1].timestamp, 21);
    assert_eq!(mgr.state.network_stats.messages_received, 2);
}

#[test]
fn duplicate_peer_joins_once() {
    let mut mgr = connected_manager();
    mgr.apply_event(NetworkEvent::PeerConnected("alice".to_owned()), 1);
    mgr.apply_event(NetworkEvent::PeerConnected("alice".to_owned()), 2);
    assert_eq!(mgr.state.peers, vec!["alice".to_owned()]);
    mgr.apply_event(NetworkEvent::PeerDisconnected("alice".to_owned()), 3);
    assert!(mgr.state.peers.is_empty());
}

#[test]
fn disconnect_clears_peers_and_silences_heartbeat() {
    let mut mgr = connected_manager();
    mgr.apply_event(NetworkEvent::PeerConnected("alice".to_owned()), 1);
    let beat = mgr.heartbeat_tick(100);
    assert!(matches!(beat, Some(NetworkMessage::Heartbeat)));
    assert_eq!(mgr.state.last_heartbeat, 100);

    mgr.disconnect();
    assert!(mgr.state.peers.is_empty());
    assert!(mgr.state.connection_status.is_disconnected());

    // A timer tick scheduled after the disconnect emits nothing and the
    // liveness timestamp stays where it was.
    assert!(mgr.heartbeat_tick(200).is_none());
    assert_eq!(mgr.state.last_heartbeat, 100);
}

#[test]
fn heartbeat_only_runs_while_connected() {
    let mut mgr = EnhancedNetworkManager::new(NetworkConfig::default());
    assert!(mgr.heartbeat_tick(5).is_none());
    assert_eq!(mgr.state.last_heartbeat, 0);
}

#[test]
fn send_requires_connection() {
    let mut mgr = EnhancedNetworkManager::new(NetworkConfig::default());
    assert_eq!(mgr.send_message(&chat("x")).unwrap_err(), SendError::NotConnected);
}

#[test]
fn send_plans_channel_and_counts() {
    let mut mgr = connected_manager();
    let plan = mgr.send_message(&chat("hello")).unwrap();
    assert_eq!(plan.channel, 0);
    assert_eq!(plan.packet, encode(&chat("hello")).unwrap());
    assert_eq!(mgr.state.network_stats.messages_sent, 1);
    assert_eq!(mgr.state.network_stats.bytes_sent, plan.packet.len() as u64);

    let plan = mgr.send_message(&game_state()).unwrap();
    assert_eq!(plan.channel, 1);
    assert_eq!(mgr.state.network_stats.messages_sent, 2);
}

#[test]
fn send_succeeds_with_no_peers() {
    let mut mgr = connected_manager();
    assert!(mgr.state.peers.is_empty());
    assert!(mgr.send_message(&chat("anyone there?")).is_ok());
}

#[test]
fn send_surfaces_disabled_channel() {
    let mut config = NetworkConfig::default();
    config.enable_unreliable_channel = false;
    let mut mgr = EnhancedNetworkManager::new(config);
    mgr.connect("ws://localhost:3536/test_room".to_owned());
    mgr.complete_connect(Ok(()));
    assert_eq!(
        mgr.send_message(&game_state()).unwrap_err(),
        SendError::ChannelUnavailable
    );
    assert_eq!(mgr.state.network_stats.messages_sent, 0);
}

#[test]
fn send_refuses_oversized_message() {
    let mut config = NetworkConfig::default();
    config.max_message_size = 4;
    let mut mgr = EnhancedNetworkManager::new(config);
    mgr.connect("ws://localhost:3536/test_room".to_owned());
    mgr.complete_connect(Ok(()));
    assert_eq!(
        mgr.send_message(&chat("far too long")).unwrap_err(),
        SendError::Serialization
    );
}

#[test]
fn malformed_inbound_packet_is_dropped_and_counted() {
    let mut mgr = connected_manager();
    assert!(mgr.handle_packet("alice".to_owned(), &[99u8, 1, 2], 5).is_none());
    assert!(mgr.state.messages.is_empty());
    assert_eq!(mgr.state.network_stats.decode_errors, 1);
    assert_eq!(mgr.state.network_stats.messages_received, 0);
    // The session carries on.
    assert!(mgr.state.connection_status.is_connected());
}

#[test]
fn ping_is_answered_with_pong() {
    let mut mgr = connected_manager();
    let ping = encode(&NetworkMessage::Ping).unwrap();
    let reply = mgr.handle_packet("alice".to_owned(), &ping, 5);
    assert!(matches!(reply, Some(NetworkMessage::Pong)));
    assert_eq!(mgr.state.network_stats.messages_received, 1);
}

#[test]
fn transport_error_event_moves_phase() {
    let mut mgr = connected_manager();
    mgr.apply_event(NetworkEvent::Error("link lost".to_owned()), 7);
    match &mgr.state.connection_status {
        ConnectionStatus::Error(reason) => assert_eq!(reason, "link lost"),
        other => panic!("wrong phase: {:?}", other),
    }
}

#[test]
fn status_event_to_connected_resets_attempts() {
    let mut mgr = EnhancedNetworkManager::new(NetworkConfig::default());
    mgr.connect("x".to_owned());
    mgr.complete_connect(Err("refused".to_owned()));
    assert!(mgr.monitor_tick().is_some());
    assert_eq!(mgr.state.reconnect_attempts, 1);
    mgr.apply_event(
        NetworkEvent::StatusChanged(ConnectionStatus::Connected),
        8,
    );
    assert_eq!(mgr.state.reconnect_attempts, 0);
}

#[test]
fn update_config_restarts_the_session() {
    let mut mgr = connected_manager();
    mgr.apply_event(NetworkEvent::PeerConnected("alice".to_owned()), 1);
    let mut config = NetworkConfig::default();
    config.room_url = "ws://elsewhere:1234/other".to_owned();
    mgr.update_config(config);
    assert!(mgr.state.peers.is_empty());
    assert!(matches!(
        mgr.state.connection_status,
        ConnectionStatus::Connecting
    ));
    assert_eq!(mgr.config.room_url, "ws://elsewhere:1234/other");
}

#[test]
fn snapshot_copies_the_record() {
    let mut mgr = connected_manager();
    mgr.apply_event(NetworkEvent::PeerConnected("alice".to_owned()), 1);
    let snap = mgr.get_state();
    assert_eq!(snap.peers, vec!["alice".to_owned()]);
    assert!(snap.connection_status.is_connected());
    // The copy is detached: growing the live record leaves it alone.
    mgr.apply_event(NetworkEvent::PeerConnected("bob".to_owned()), 2);
    assert_eq!(snap.peers.len(), 1);
}

#[test]
fn contended_read_returns_default_snapshot() {
    // The writer holds the lock; the consumer's poll must neither block
    // nor observe partial state, and comes back with the empty record.
    let shared = Mutex::new({
        let mut mgr = connected_manager();
        mgr.apply_event(NetworkEvent::PeerConnected("alice".to_owned()), 1);
        mgr
    });

    let _writer_guard = shared.lock().unwrap();
    let read = shared.try_lock();
    let snapshot = match read {
        Ok(mgr) => mgr.get_state(),
        Err(_) => poll_snapshot(None),
    };
    assert!(snapshot.peers.is_empty());
    assert!(snapshot.messages.is_empty());
    assert!(snapshot.connection_status.is_disconnected());
    assert_eq!(snapshot.network_stats.messages_sent, 0);
    drop(_writer_guard);

    // Uncontended, the same poll sees the live record.
    let read = shared.try_lock();
    let snapshot = match read {
        Ok(mgr) => mgr.get_state(),
        Err(_) => poll_snapshot(None),
    };
    assert_eq!(snapshot.peers, vec!["alice".to_owned()]);
}

#[test]
fn uncontended_poll_copies_the_record() {
    let state = {
        let mut mgr = connected_manager();
        mgr.apply_event(NetworkEvent::PeerConnected("alice".to_owned()), 1);
        mgr.state
    };
    let snap = poll_snapshot(Some(&state));
    assert_eq!(snap.peers, vec!["alice".to_owned()]);
    assert!(snap.connection_status.is_connected());
}

#[test]
fn command_dispatch_names_the_next_action() {
    let mut mgr = EnhancedNetworkManager::new(NetworkConfig::default());
    let action = mgr.handle_command(NetworkCommand::Connect("ws://x/y".to_owned()));
    assert!(matches!(action, LoopAction::SetupTransport));
    assert_eq!(mgr.config.room_url, "ws://x/y");
    mgr.complete_connect(Ok(()));

    let action = mgr.handle_command(NetworkCommand::SendMessage(chat("hi")));
    match action {
        LoopAction::Broadcast(plan) => assert_eq!(plan.channel, 0),
        other => panic!("wrong action: {:?}", other),
    }

    let action = mgr.handle_command(NetworkCommand::Disconnect);
    assert!(matches!(action, LoopAction::Teardown));
    assert!(mgr.state.connection_status.is_disconnected());

    let action = mgr.handle_command(NetworkCommand::SendMessage(chat("hi")));
    assert!(matches!(
        action,
        LoopAction::ReportSendError(SendError::NotConnected)
    ));
}

#[test]
fn message_log_survives_disconnect_and_reconnect() {
    let mut mgr = connected_manager();
    let packet = encode(&chat("kept")).unwrap();
    mgr.handle_packet("alice".to_owned(), &packet, 5);
    mgr.disconnect();
    assert_eq!(mgr.state.messages.len(), 1);
    assert_eq!(mgr.state.messages[0].text, "kept");
    mgr.connect("ws://x/y".to_owned());
    mgr.complete_connect(Ok(()));
    assert_eq!(mgr.state.messages.len(), 1);
}

#[test]
fn phases_describe_themselves() {
    let mut mgr = EnhancedNetworkManager::new(NetworkConfig::default());
    assert_eq!(mgr.state.connection_status.describe(), "Disconnected");
    mgr.connect("x".to_owned());
    assert_eq!(mgr.state.connection_status.describe(), "Connecting");
    mgr.complete_connect(Err("refused".to_owned()));
    assert_eq!(mgr.state.connection_status.describe(), "Error: refused");
}

#[test]
fn connection_info_reports_peers_and_phase() {
    let mut mgr = connected_manager();
    mgr.apply_event(NetworkEvent::PeerConnected("alice".to_owned()), 1);
    let (peers, phase) = mgr.get_connection_info();
    assert_eq!(peers, 1);
    assert_eq!(phase, "Connected");
}

#[test]
fn counters_saturate_instead_of_wrapping() {
    assert_eq!(counter_add(u64::MAX - 1, 1), u64::MAX);
    assert_eq!(counter_add(u64::MAX, 1), u64::MAX);
    assert_eq!(counter_add(2, 3), 5);
}

#[test]
fn fresh_state_is_empty() {
    let s = NetworkState::new();
    assert!(s.peers.is_empty());
    assert!(s.messages.is_empty());
    assert!(s.connection_status.is_disconnected());
    assert_eq!(s.reconnect_attempts, 0);
    assert_eq!(s.last_heartbeat, 0);
    assert_eq!(s.network_stats.messages_sent, 0);
    assert_eq!(s.network_stats.messages_received, 0);
}

#[test]
fn default_config_matches_documentation() {
    let c = NetworkConfig::default();
    assert_eq!(c.room_url, "ws://localhost:3536/game_room");
    assert_eq!(c.heartbeat_interval_ms, 5000);
    assert_eq!(c.reconnect_attempts, 5);
    assert_eq!(c.reconnect_delay_ms, 2000);
    assert_eq!(c.max_message_size, 65536);
    assert!(c.enable_reliable_channel);
    assert!(c.enable_unreliable_channel);
}
