//! The connection supervisor: the lifecycle state machine of the session.
//!
//! Every phase transition of the shared record goes through the methods
//! here, so the contracts below are the single description of how the
//! session moves between its phases.  The transport itself, the timers and
//! the task handles live outside the crate: a caller performs the outside
//! action and hands its outcome to the matching method, which is verified
//! for every outcome.

use crate::codec::{decode, decode_spec, encodable, encode, encode_spec, MessageView, NetworkMessage};
use crate::config::{ConfigView, NetworkConfig};
use crate::names::{
    lemma_seq_remove_all_distinct, seq_remove_all, vec_contains_name, vec_remove_name,
};
use crate::router::{channel_index_spec, class_enabled, class_of_spec, route};
use crate::state::{
    initial_state, ChatRecord, ChatRecordView, ConnectionStatus, NetworkState, StateView,
    StatusView,
};
use crate::stats::NetworkStats;
use vstd::prelude::*;

verus! {

/// An operator command, carried to the session's background loop on the
/// command channel.
#[derive(Debug)]
pub enum NetworkCommand {
    Connect(String),
    SendMessage(NetworkMessage),
    Disconnect,
    Reconnect,
    UpdateConfig(NetworkConfig),
}

/// An observation surfaced by the transport, relayed into the shared
/// record by the background loop.
#[derive(Debug)]
pub enum NetworkEvent {
    PeerConnected(String),
    PeerDisconnected(String),
    MessageReceived(String, String),
    StatusChanged(ConnectionStatus),
    Error(String),
}

/// The mathematical value of a [`NetworkEvent`].
pub enum EventView {
    PeerConnected(Seq<char>),
    PeerDisconnected(Seq<char>),
    MessageReceived(Seq<char>, Seq<char>),
    StatusChanged(StatusView),
    Error(Seq<char>),
}

impl View for NetworkEvent {
    type V = EventView;

    open spec fn view(&self) -> EventView {
        match self {
            NetworkEvent::PeerConnected(p) => EventView::PeerConnected(p@),
            NetworkEvent::PeerDisconnected(p) => EventView::PeerDisconnected(p@),
            NetworkEvent::MessageReceived(p, t) => EventView::MessageReceived(p@, t@),
            NetworkEvent::StatusChanged(s) => EventView::StatusChanged(s@),
            NetworkEvent::Error(e) => EventView::Error(e@),
        }
    }
}

/// A send that could not happen: the session is not connected, the
/// message cannot be represented on the wire (or exceeds the configured
/// size), or the needed channel is disabled.
#[derive(Clone, Copy, Debug, PartialEq, Eq, Structural)]
pub enum SendError {
    NotConnected,
    Serialization,
    ChannelUnavailable,
}

/// A transmission ready for the transport: the encoded bytes and the
/// index of the sub-channel that must carry them to every current peer.
#[derive(Debug)]
pub struct SendPlan {
    pub channel: usize,
    pub packet: Vec<u8>,
}

/// What the background loop must do next after one operator command was
/// applied to the supervisor.
#[derive(Debug)]
pub enum LoopAction {
    /// Set up the transport for the configured room, then report the
    /// outcome to [`EnhancedNetworkManager::complete_connect`].
    SetupTransport,
    /// Broadcast the planned packet on its channel to every peer.
    Broadcast(SendPlan),
    /// Surface the failed send to the operator.
    ReportSendError(SendError),
    /// Cancel the heartbeat and reconnect-monitor timers and release the
    /// transport.
    Teardown,
}

/// The record after the phase changed to `status`; entering `Connected`
/// resets the reconnect counter, which only accumulates while the session
/// is not connected.
pub open spec fn apply_status_spec(s: StateView, status: StatusView) -> StateView {
    StateView {
        connection_status: status,
        reconnect_attempts: if status is Connected {
            0
        } else {
            s.reconnect_attempts
        },
        ..s
    }
}

/// The record after a connect (or configuration replacement) began: a
/// fresh session instance in `Connecting`, with no peers yet.
pub open spec fn begin_connect_spec(s: StateView) -> StateView {
    StateView {
        connection_status: StatusView::Connecting,
        peers: Seq::<Seq<char>>::empty(),
        ..s
    }
}

/// The record after an operator-issued disconnect: `Disconnected`, with
/// the peer set cleared; the message log and the statistics are kept.
pub open spec fn disconnect_spec(s: StateView) -> StateView {
    StateView {
        connection_status: StatusView::Disconnected,
        peers: Seq::<Seq<char>>::empty(),
        ..s
    }
}

/// The record after one heartbeat timer tick at time `now`: while
/// connected the liveness timestamp moves to `now`; in any other phase
/// the tick is inert.
pub open spec fn heartbeat_state_spec(s: StateView, now: u64) -> StateView {
    if s.connection_status is Connected {
        StateView { last_heartbeat: now, ..s }
    } else {
        s
    }
}

/// True when a heartbeat timer tick emits a liveness message.
pub open spec fn heartbeat_emits_spec(s: StateView) -> bool {
    s.connection_status is Connected
}

/// The record after one reconnect-monitor tick with attempt ceiling
/// `ceiling`.  On an error phase with budget left the counter rises and
/// the phase moves to `Reconnecting`; with the budget spent the phase
/// moves to the terminal `ReconnectExhausted`; any other phase is left
/// alone.
pub open spec fn monitor_state_spec(s: StateView, ceiling: u32) -> StateView {
    match s.connection_status {
        StatusView::Error(reason) => {
            if s.reconnect_attempts < ceiling {
                StateView {
                    connection_status: StatusView::Reconnecting,
                    reconnect_attempts: (s.reconnect_attempts + 1) as u32,
                    ..s
                }
            } else {
                StateView { connection_status: StatusView::ReconnectExhausted(reason), ..s }
            }
        },
        _ => s,
    }
}

/// True when a reconnect-monitor tick issues a reconnect command.
pub open spec fn monitor_commands_spec(s: StateView, ceiling: u32) -> bool {
    s.connection_status is Error && s.reconnect_attempts < ceiling
}

/// True when a send of `m` goes through: the session is connected, the
/// message's channel is enabled, and the message is representable within
/// the configured size.
pub open spec fn send_ok_spec(s: StateView, cfg: ConfigView, m: MessageView) -> bool {
    &&& s.connection_status is Connected
    &&& class_enabled(class_of_spec(m), cfg)
    &&& encodable(m)
    &&& encode_spec(m).len() <= cfg.max_message_size
}

/// The error a failing send reports: the first check that fails, in the
/// order connection, channel, representation.
pub open spec fn send_err_spec(s: StateView, cfg: ConfigView, m: MessageView) -> SendError {
    if !(s.connection_status is Connected) {
        SendError::NotConnected
    } else if !class_enabled(class_of_spec(m), cfg) {
        SendError::ChannelUnavailable
    } else {
        SendError::Serialization
    }
}

/// The record after a successful send of `m`: only the statistics move.
pub open spec fn send_state_spec(s: StateView, m: MessageView) -> StateView {
    StateView { network_stats: s.network_stats.after_send(encode_spec(m).len() as u64), ..s }
}

/// The connection supervisor: the configuration in force and the shared
/// session record it governs.  The transport handle and the task handles
/// of the periodic work stay with the caller, which drives this state
/// machine with the outcomes of the outside actions.
#[derive(Debug)]
pub struct EnhancedNetworkManager {
    pub config: NetworkConfig,
    pub state: NetworkState,
}

impl EnhancedNetworkManager {
    /// A supervisor for a fresh session under `config`.
    pub fn new(config: NetworkConfig) -> (m: EnhancedNetworkManager)
        ensures
            m.config@ == config@,
            m.state@ == initial_state(),
            m.state@.wf(),
    {
        EnhancedNetworkManager { config, state: NetworkState::new() }
    }

    /// Replaces the phase and, on entering `Connected`, resets the
    /// reconnect counter.  The sole mutation path of the phase.
    fn apply_status(&mut self, status: ConnectionStatus)
        ensures
            final(self).config@ == old(self).config@,
            final(self).state@ == apply_status_spec(old(self).state@, status@),
    {
        let ghost sv = status@;
        let is_conn = status.is_connected();
        self.state.connection_status = status;
        if is_conn {
            self.state.reconnect_attempts = 0;
        }
        assert(self.state@ =~= apply_status_spec(old(self).state@, sv));
    }

    /// Begins a connect to `room_url`: the room replaces the configured
    /// one and a fresh session instance enters `Connecting`.  The caller
    /// then performs the transport setup and reports its outcome to
    /// [`Self::complete_connect`].
    pub fn connect(&mut self, room_url: String)
        requires
            old(self).state@.wf(),
        ensures
            final(self).config@ == (ConfigView { room_url: room_url@, ..old(self).config@ }),
            final(self).state@ == begin_connect_spec(old(self).state@),
            final(self).state@.wf(),
    {
        self.config.room_url = room_url;
        self.state.peers = Vec::new();
        self.apply_status(ConnectionStatus::Connecting);
        assert(self.state@ =~= begin_connect_spec(old(self).state@));
    }

    /// Replaces the configuration as a whole.  Equivalent to a disconnect
    /// followed by a connect under the new configuration: a fresh session
    /// instance enters `Connecting`.
    pub fn update_config(&mut self, config: NetworkConfig)
        requires
            old(self).state@.wf(),
        ensures
            final(self).config@ == config@,
            final(self).state@ == begin_connect_spec(old(self).state@),
            final(self).state@.wf(),
    {
        self.config = config;
        self.state.peers = Vec::new();
        self.apply_status(ConnectionStatus::Connecting);
        assert(self.state@ =~= begin_connect_spec(old(self).state@));
    }

    /// Records the outcome of the transport setup that a connect began:
    /// success enters `Connected` with the reconnect counter reset; a
    /// failure stays out of the session in `Error` with its reason, where
    /// the reconnect monitor can pick it up.
    pub fn complete_connect(&mut self, outcome: Result<(), String>)
        requires
            old(self).state@.wf(),
            old(self).state@.connection_status is Connecting,
        ensures
            final(self).config@ == old(self).config@,
            outcome matches Ok(()) ==> final(self).state@ == apply_status_spec(
                old(self).state@,
                StatusView::Connected,
            ) && final(self).state@.reconnect_attempts == 0,
            outcome matches Err(reason) ==> final(self).state@ == apply_status_spec(
                old(self).state@,
                StatusView::Error(reason@),
            ),
            final(self).state@.wf(),
    {
        match outcome {
            Ok(_) => self.apply_status(ConnectionStatus::Connected),
            Err(reason) => self.apply_status(ConnectionStatus::Error(reason)),
        }
    }

    /// An operator-issued disconnect, valid in every phase: the session
    /// ends, the peer set empties, and the phase becomes `Disconnected`,
    /// terminal for this session instance.  The caller must cancel the
    /// heartbeat and reconnect-monitor timers before driving this machine
    /// further.
    pub fn disconnect(&mut self)
        requires
            old(self).state@.wf(),
        ensures
            final(self).config@ == old(self).config@,
            final(self).state@ == disconnect_spec(old(self).state@),
            final(self).state@.wf(),
    {
        self.state.peers = Vec::new();
        self.apply_status(ConnectionStatus::Disconnected);
        assert(self.state@ =~= disconnect_spec(old(self).state@));
    }

    /// Plans one broadcast.  From `Connected`, with the message's channel
    /// enabled and the message representable within the configured size,
    /// the result carries the encoded bytes, the channel index, and the
    /// statistics advance; otherwise the record is untouched and the
    /// error says which condition failed.  Success does not require any
    /// peer to be present: a broadcast to nobody succeeds.
    pub fn send_message(&mut self, m: &NetworkMessage) -> (r: Result<SendPlan, SendError>)
        requires
            old(self).state@.wf(),
        ensures
            final(self).config@ == old(self).config@,
            final(self).state@.wf(),
            send_ok_spec(old(self).state@, old(self).config@, m@) ==> (r matches Ok(plan)
                && plan.packet@ == encode_spec(m@) && plan.channel == channel_index_spec(
                class_of_spec(m@),
                old(self).config@,
            ) && final(self).state@ == send_state_spec(old(self).state@, m@)),
            !send_ok_spec(old(self).state@, old(self).config@, m@) ==> r == Err::<
                SendPlan,
                SendError,
            >(send_err_spec(old(self).state@, old(self).config@, m@))
                && final(self).state@ == old(self).state@,
    {
        if !self.state.connection_status.is_connected() {
            return Err(SendError::NotConnected);
        }
        let channel = match route(m, &self.config) {
            Ok(c) => c,
            Err(_) => {
                return Err(SendError::ChannelUnavailable);
            },
        };
        let packet = match encode(m) {
            Ok(p) => p,
            Err(_) => {
                return Err(SendError::Serialization);
            },
        };
        if packet.len() > self.config.max_message_size {
            return Err(SendError::Serialization);
        }
        let bytes: u64 = packet.len() as u64;
        self.state.network_stats.record_send(bytes);
        assert(self.state@ =~= (StateView {
            network_stats: old(self).state@.network_stats.after_send(encode_spec(m@).len() as u64),
            ..old(self).state@
        }));
        Ok(SendPlan { channel, packet })
    }

    /// One heartbeat timer tick at time `now`.  While connected it moves
    /// the liveness timestamp and hands back the liveness message for the
    /// caller to send; in any other phase it does nothing and emits
    /// nothing.
    pub fn heartbeat_tick(&mut self, now: u64) -> (r: Option<NetworkMessage>)
        requires
            old(self).state@.wf(),
        ensures
            final(self).config@ == old(self).config@,
            final(self).state@ == heartbeat_state_spec(old(self).state@, now),
            final(self).state@.wf(),
            (r is Some) == heartbeat_emits_spec(old(self).state@),
            r matches Some(msg) ==> msg@ is Heartbeat,
    {
        if self.state.connection_status.is_connected() {
            self.state.last_heartbeat = now;
            assert(self.state@ =~= heartbeat_state_spec(old(self).state@, now));
            Some(NetworkMessage::Heartbeat)
        } else {
            None
        }
    }

    /// One reconnect-monitor tick.  On an error phase with budget left
    /// under the configured ceiling, the attempt counter rises, the phase
    /// moves to `Reconnecting`, and the reconnect command to feed back
    /// into the command loop is handed out.  With the budget spent the
    /// phase moves to the terminal `ReconnectExhausted` and no command is
    /// ever issued again for this session instance.  The check and the
    /// transition happen under one borrow of the record, in one step.
    pub fn monitor_tick(&mut self) -> (r: Option<NetworkCommand>)
        requires
            old(self).state@.wf(),
        ensures
            final(self).config@ == old(self).config@,
            final(self).state@ == monitor_state_spec(
                old(self).state@,
                old(self).config@.reconnect_attempts,
            ),
            final(self).state@.wf(),
            (r is Some) == monitor_commands_spec(
                old(self).state@,
                old(self).config@.reconnect_attempts,
            ),
            r matches Some(c) ==> c is Reconnect,
    {
        if !self.state.connection_status.is_error() {
            return None;
        }
        let reason = match &self.state.connection_status {
            ConnectionStatus::Error(r) => r.clone(),
            _ => String::new(),
        };
        if self.state.reconnect_attempts < self.config.reconnect_attempts {
            self.state.reconnect_attempts = self.state.reconnect_attempts + 1;
            self.state.connection_status = ConnectionStatus::Reconnecting;
            assert(self.state@ =~= monitor_state_spec(
                old(self).state@,
                old(self).config@.reconnect_attempts,
            ));
            Some(NetworkCommand::Reconnect)
        } else {
            self.state.connection_status = ConnectionStatus::ReconnectExhausted(reason);
            assert(self.state@ =~= monitor_state_spec(
                old(self).state@,
                old(self).config@.reconnect_attempts,
            ));
            None
        }
    }

    /// Applies one transport event to the record at time `now`.
    pub fn apply_event(&mut self, event: NetworkEvent, now: u64)
        requires
            old(self).state@.wf(),
        ensures
            final(self).config@ == old(self).config@,
            final(self).state@ == apply_event_spec(old(self).state@, event@, now),
            final(self).state@.wf(),
    {
        match event {
            NetworkEvent::PeerConnected(p) => {
                let ghost pv = p@;
                let already = vec_contains_name(&self.state.peers, &p);
                if !already {
                    self.state.peers.push(p);
                    assert(self.state@.peers =~= old(self).state@.peers.push(pv));
                }
                assert(self.state@ =~= apply_event_spec(old(self).state@, event@, now));
            },
            NetworkEvent::PeerDisconnected(p) => {
                vec_remove_name(&mut self.state.peers, &p);
                assert(self.state@ =~= apply_event_spec(old(self).state@, event@, now));
                proof {
                    lemma_seq_remove_all_distinct(old(self).state@.peers, p@);
                }
            },
            NetworkEvent::MessageReceived(p, t) => {
                let ghost rv = ChatRecordView { peer_id: p@, text: t@, timestamp: now };
                self.state.messages.push(ChatRecord { peer_id: p, text: t, timestamp: now });
                assert(self.state@.messages =~= old(self).state@.messages.push(rv));
                assert(self.state@ =~= apply_event_spec(old(self).state@, event@, now));
            },
            NetworkEvent::StatusChanged(st) => {
                self.apply_status(st);
            },
            NetworkEvent::Error(reason) => {
                self.apply_status(ConnectionStatus::Error(reason));
            },
        }
    }

    /// Takes one inbound packet from `peer` at time `now`.  A packet that
    /// decodes to no message is dropped and counted, never surfaced as a
    /// failure.  A decoded chat joins the message log in arrival order; a
    /// liveness probe is answered with the reply handed back for the
    /// caller to send; every decoded message advances the statistics.
    pub fn handle_packet(&mut self, peer: String, packet: &[u8], now: u64) -> (r: Option<
        NetworkMessage,
    >)
        requires
            old(self).state@.wf(),
        ensures
            final(self).config@ == old(self).config@,
            final(self).state@.wf(),
            final(self).state@ == receive_spec(
                old(self).state@,
                peer@,
                decode_spec(packet@),
                packet@.len() as u64,
                now,
            ),
            (r is Some) == receive_replies_spec(decode_spec(packet@)),
            r matches Some(msg) ==> msg@ is Pong,
    {
        let ghost pv = peer@;
        match decode(packet) {
            Err(_) => {
                self.state.network_stats.record_decode_error();
                assert(self.state@ =~= receive_spec(
                    old(self).state@,
                    pv,
                    decode_spec(packet@),
                    packet@.len() as u64,
                    now,
                ));
                None
            },
            Ok(msg) => {
                let len: u64 = packet.len() as u64;
                self.state.network_stats.record_receive(len);
                match msg {
                    NetworkMessage::Chat(text) => {
                        let ghost rv = ChatRecordView {
                            peer_id: peer@,
                            text: text@,
                            timestamp: now,
                        };
                        self.state.messages.push(
                            ChatRecord { peer_id: peer, text, timestamp: now },
                        );
                        assert(self.state@.messages =~= old(self).state@.messages.push(rv));
                        assert(self.state@ =~= receive_spec(
                            old(self).state@,
                            pv,
                            decode_spec(packet@),
                            packet@.len() as u64,
                            now,
                        ));
                        None
                    },
                    NetworkMessage::Ping => {
                        assert(self.state@ =~= receive_spec(
                            old(self).state@,
                            pv,
                            decode_spec(packet@),
                            packet@.len() as u64,
                            now,
                        ));
                        Some(NetworkMessage::Pong)
                    },
                    _ => {
                        assert(self.state@ =~= receive_spec(
                            old(self).state@,
                            pv,
                            decode_spec(packet@),
                            packet@.len() as u64,
                            now,
                        ));
                        None
                    },
                }
            },
        }
    }

    /// Applies one operator command, serialized with every other mutation
    /// of the record, and names the outside action that must follow it.
    pub fn handle_command(&mut self, command: NetworkCommand) -> (r: LoopAction)
        requires
            old(self).state@.wf(),
        ensures
            final(self).state@.wf(),
            command matches NetworkCommand::Connect(url) ==> (final(self).config@ == (ConfigView {
                room_url: url@,
                ..old(self).config@
            }) && final(self).state@ == begin_connect_spec(old(self).state@)
                && r is SetupTransport),
            command is Reconnect ==> (final(self).config@ == old(self).config@
                && final(self).state@ == begin_connect_spec(old(self).state@)
                && r is SetupTransport),
            command matches NetworkCommand::UpdateConfig(c) ==> (final(self).config@ == c@
                && final(self).state@ == begin_connect_spec(old(self).state@)
                && r is SetupTransport),
            command is Disconnect ==> (final(self).config@ == old(self).config@
                && final(self).state@ == disconnect_spec(old(self).state@) && r is Teardown),
            command matches NetworkCommand::SendMessage(m) ==> (final(self).config@
                == old(self).config@ && (send_ok_spec(old(self).state@, old(self).config@, m@) ==> (r matches
                LoopAction::Broadcast(plan) && plan.packet@ == encode_spec(m@) && plan.channel
                == channel_index_spec(class_of_spec(m@), old(self).config@) && final(self).state@
                == send_state_spec(old(self).state@, m@))) && (!send_ok_spec(
                old(self).state@,
                old(self).config@,
                m@,
            ) ==> r == LoopAction::ReportSendError(
                send_err_spec(old(self).state@, old(self).config@, m@),
            ) && final(self).state@ == old(self).state@)),
    {
        match command {
            NetworkCommand::Connect(room_url) => {
                self.connect(room_url);
                LoopAction::SetupTransport
            },
            NetworkCommand::Reconnect => {
                let room_url = self.config.room_url.clone();
                self.connect(room_url);
                assert(self.config@ =~= old(self).config@);
                LoopAction::SetupTransport
            },
            NetworkCommand::UpdateConfig(config) => {
                self.update_config(config);
                LoopAction::SetupTransport
            },
            NetworkCommand::Disconnect => {
                self.disconnect();
                LoopAction::Teardown
            },
            NetworkCommand::SendMessage(m) => match self.send_message(&m) {
                Ok(plan) => LoopAction::Broadcast(plan),
                Err(e) => LoopAction::ReportSendError(e),
            },
        }
    }

    /// A point-in-time copy of the record.
    pub fn get_state(&self) -> (r: NetworkState)
        ensures
            r@ == self.state@,
    {
        self.state.snapshot()
    }

    /// The current statistics.
    pub fn get_stats(&self) -> (r: NetworkStats)
        ensures
            r == self.state@.network_stats,
    {
        self.state.network_stats
    }

    /// The peer count and the phase's display text, for a consumer's
    /// header line.
    pub fn get_connection_info(&self) -> (r: (usize, String))
        ensures
            r.0 == self.state@.peers.len(),
            self.state@.connection_status is Connected ==> r.1@ == "Connected"@,
            self.state@.connection_status is Disconnected ==> r.1@ == "Disconnected"@,
            self.state@.connection_status is Connecting ==> r.1@ == "Connecting"@,
            self.state@.connection_status is Reconnecting ==> r.1@ == "Reconnecting"@,
            self.state@.connection_status matches StatusView::Error(reason) ==> r.1@ == "Error: "@
                + reason,
            self.state@.connection_status matches StatusView::ReconnectExhausted(reason) ==> r.1@
                == "Reconnect attempts exhausted: "@ + reason,
    {
        (self.state.peers.len(), self.state.connection_status.describe())
    }
}

/// The record after one transport event was applied at time `now`.  A
/// newly connected peer joins the set unless already present; a departed
/// peer leaves it; an inbound chat is appended to the log; a status
/// change or transport error moves the phase.
pub open spec fn apply_event_spec(s: StateView, e: EventView, now: u64) -> StateView {
    match e {
        EventView::PeerConnected(p) => {
            if s.peers.contains(p) {
                s
            } else {
                StateView { peers: s.peers.push(p), ..s }
            }
        },
        EventView::PeerDisconnected(p) => StateView { peers: seq_remove_all(s.peers, p), ..s },
        EventView::MessageReceived(p, t) => StateView {
            messages: s.messages.push(ChatRecordView { peer_id: p, text: t, timestamp: now }),
            ..s
        },
        EventView::StatusChanged(st) => apply_status_spec(s, st),
        EventView::Error(reason) => apply_status_spec(s, StatusView::Error(reason)),
    }
}

/// The record after one inbound packet of `len` bytes from `peer` that
/// decoded to `v`, taken at time `now`.  A malformed packet only counts a
/// decode error; a chat is appended to the log; every decoded message is
/// counted with its size.
pub open spec fn receive_spec(
    s: StateView,
    peer: Seq<char>,
    v: Option<MessageView>,
    len: u64,
    now: u64,
) -> StateView {
    match v {
        Option::None => StateView { network_stats: s.network_stats.after_decode_error(), ..s },
        Option::Some(m) => {
            let counted = StateView { network_stats: s.network_stats.after_receive(len), ..s };
            match m {
                MessageView::Chat(text) => StateView {
                    messages: counted.messages.push(
                        ChatRecordView { peer_id: peer, text, timestamp: now },
                    ),
                    ..counted
                },
                _ => counted,
            }
        },
    }
}

/// True when an inbound packet that decoded to `v` is answered with a
/// reply: only a liveness probe is.
pub open spec fn receive_replies_spec(v: Option<MessageView>) -> bool {
    v matches Some(m) && m is Ping
}

/// True when `newer` extends `older` without truncating or reordering
/// it.
pub open spec fn log_extends(older: Seq<ChatRecordView>, newer: Seq<ChatRecordView>) -> bool {
    older.len() <= newer.len() && newer.subrange(0, older.len() as int) == older
}

/// Law: the message log is append-only.  No transition of the supervisor
/// truncates or reorders what was logged; each either keeps the log or
/// appends one entry.
pub proof fn lemma_log_append_only(
    s: StateView,
    e: EventView,
    now: u64,
    ceiling: u32,
    st: StatusView,
    peer: Seq<char>,
    v: Option<MessageView>,
    len: u64,
)
    ensures
        log_extends(s.messages, apply_status_spec(s, st).messages),
        log_extends(s.messages, begin_connect_spec(s).messages),
        log_extends(s.messages, disconnect_spec(s).messages),
        log_extends(s.messages, heartbeat_state_spec(s, now).messages),
        log_extends(s.messages, monitor_state_spec(s, ceiling).messages),
        log_extends(s.messages, apply_event_spec(s, e, now).messages),
        log_extends(s.messages, receive_spec(s, peer, v, len, now).messages),
{
    assert(s.messages.subrange(0, s.messages.len() as int) =~= s.messages);
    assert forall|x: ChatRecordView| log_extends(s.messages, #[trigger] s.messages.push(x)) by {
        assert(s.messages.push(x).subrange(0, s.messages.len() as int) =~= s.messages);
    }
}

/// Law: a connect begun in `Disconnected` whose transport setup succeeds
/// ends `Connected` with the reconnect counter at zero.
pub proof fn lemma_connect_success_resets_attempts(s: StateView)
    requires
        s.wf(),
        s.connection_status is Disconnected,
    ensures
        ({
            let after = apply_status_spec(begin_connect_spec(s), StatusView::Connected);
            &&& after.connection_status is Connected
            &&& after.reconnect_attempts == 0
            &&& after.wf()
        }),
{
}

/// Law: the reconnect counter saturates at the ceiling.  Once it has
/// reached the ceiling, a monitor tick issues no reconnect command and
/// leaves the counter where it is; and no tick ever pushes a counter that
/// is within the ceiling past it.
pub proof fn lemma_reconnect_saturates(s: StateView, ceiling: u32)
    ensures
        s.reconnect_attempts >= ceiling ==> !monitor_commands_spec(s, ceiling)
            && monitor_state_spec(s, ceiling).reconnect_attempts == s.reconnect_attempts,
        s.reconnect_attempts <= ceiling ==> monitor_state_spec(s, ceiling).reconnect_attempts
            <= ceiling,
        s.connection_status is Error && s.reconnect_attempts >= ceiling ==> monitor_state_spec(
            s,
            ceiling,
        ).connection_status is ReconnectExhausted,
{
}

/// Law: a disconnect, from any phase, leaves no peer in the set and the
/// phase `Disconnected`; a heartbeat tick scheduled after it emits no
/// message and moves nothing, the liveness timestamp included.
pub proof fn lemma_disconnect_quiescent(s: StateView, now: u64)
    ensures
        disconnect_spec(s).peers.len() == 0,
        disconnect_spec(s).connection_status is Disconnected,
        !heartbeat_emits_spec(disconnect_spec(s)),
        heartbeat_state_spec(disconnect_spec(s), now) == disconnect_spec(s),
{
}

} // verus!
