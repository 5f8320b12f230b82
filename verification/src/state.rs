//! The shared session record: peers, the append-only message log, the
//! lifecycle phase, counters, and the consumer's best-effort snapshot.

use crate::stats::NetworkStats;
use vstd::string::StringExecFns;
use vstd::prelude::*;

verus! {

/// The lifecycle phase of the session.  `Error` keeps the failure reason
/// and is eligible for reconnection; `ReconnectExhausted` keeps the last
/// reason and is terminal for this session instance, so a consumer can
/// tell a transient fault from a spent retry budget.
#[derive(Debug)]
pub enum ConnectionStatus {
    Disconnected,
    Connecting,
    Connected,
    Reconnecting,
    Error(String),
    ReconnectExhausted(String),
}

/// The mathematical value of a [`ConnectionStatus`].
pub enum StatusView {
    Disconnected,
    Connecting,
    Connected,
    Reconnecting,
    Error(Seq<char>),
    ReconnectExhausted(Seq<char>),
}

impl View for ConnectionStatus {
    type V = StatusView;

    open spec fn view(&self) -> StatusView {
        match self {
            ConnectionStatus::Disconnected => StatusView::Disconnected,
            ConnectionStatus::Connecting => StatusView::Connecting,
            ConnectionStatus::Connected => StatusView::Connected,
            ConnectionStatus::Reconnecting => StatusView::Reconnecting,
            ConnectionStatus::Error(e) => StatusView::Error(e@),
            ConnectionStatus::ReconnectExhausted(e) => StatusView::ReconnectExhausted(e@),
        }
    }
}

impl ConnectionStatus {
    /// A copy of the phase, reason string included.
    pub fn duplicate(&self) -> (r: ConnectionStatus)
        ensures
            r@ == self@,
    {
        match self {
            ConnectionStatus::Disconnected => ConnectionStatus::Disconnected,
            ConnectionStatus::Connecting => ConnectionStatus::Connecting,
            ConnectionStatus::Connected => ConnectionStatus::Connected,
            ConnectionStatus::Reconnecting => ConnectionStatus::Reconnecting,
            ConnectionStatus::Error(e) => ConnectionStatus::Error(e.clone()),
            ConnectionStatus::ReconnectExhausted(e) => ConnectionStatus::ReconnectExhausted(
                e.clone(),
            ),
        }
    }

    pub fn is_connected(&self) -> (r: bool)
        ensures
            r == (self@ is Connected),
    {
        match self {
            ConnectionStatus::Connected => true,
            _ => false,
        }
    }

    pub fn is_disconnected(&self) -> (r: bool)
        ensures
            r == (self@ is Disconnected),
    {
        match self {
            ConnectionStatus::Disconnected => true,
            _ => false,
        }
    }

    pub fn is_error(&self) -> (r: bool)
        ensures
            r == (self@ is Error),
    {
        match self {
            ConnectionStatus::Error(_) => true,
            _ => false,
        }
    }

    pub fn is_reconnect_exhausted(&self) -> (r: bool)
        ensures
            r == (self@ is ReconnectExhausted),
    {
        match self {
            ConnectionStatus::ReconnectExhausted(_) => true,
            _ => false,
        }
    }

    /// The phase as display text, the failure reason included, so a
    /// consumer can render it directly.
    pub fn describe(&self) -> (r: String)
        ensures
            self@ is Disconnected ==> r@ == "Disconnected"@,
            self@ is Connecting ==> r@ == "Connecting"@,
            self@ is Connected ==> r@ == "Connected"@,
            self@ is Reconnecting ==> r@ == "Reconnecting"@,
            self@ matches StatusView::Error(reason) ==> r@ == "Error: "@ + reason,
            self@ matches StatusView::ReconnectExhausted(reason) ==> r@
                == "Reconnect attempts exhausted: "@ + reason,
    {
        match self {
            ConnectionStatus::Disconnected => "Disconnected".to_owned(),
            ConnectionStatus::Connecting => "Connecting".to_owned(),
            ConnectionStatus::Connected => "Connected".to_owned(),
            ConnectionStatus::Reconnecting => "Reconnecting".to_owned(),
            ConnectionStatus::Error(e) => String::from_str("Error: ").concat(e.as_str()),
            ConnectionStatus::ReconnectExhausted(e) => String::from_str(
                "Reconnect attempts exhausted: ",
            ).concat(e.as_str()),
        }
    }
}

/// One entry of the message log: sender, payload, and the time it was
/// observed, in milliseconds.
#[derive(Debug)]
pub struct ChatRecord {
    pub peer_id: String,
    pub text: String,
    pub timestamp: u64,
}

/// The mathematical value of a [`ChatRecord`].
pub struct ChatRecordView {
    pub peer_id: Seq<char>,
    pub text: Seq<char>,
    pub timestamp: u64,
}

impl View for ChatRecord {
    type V = ChatRecordView;

    open spec fn view(&self) -> ChatRecordView {
        ChatRecordView { peer_id: self.peer_id@, text: self.text@, timestamp: self.timestamp }
    }
}

/// The shared record of the session: the single source of truth that the
/// background loop writes and the consumer polls.
#[derive(Debug)]
pub struct NetworkState {
    pub peers: Vec<String>,
    pub messages: Vec<ChatRecord>,
    pub connection_status: ConnectionStatus,
    /// Time of the most recent liveness emission, in milliseconds.
    pub last_heartbeat: u64,
    pub reconnect_attempts: u32,
    pub network_stats: NetworkStats,
}

/// The mathematical value of a [`NetworkState`].
#[verifier::ext_equal]
pub struct StateView {
    pub peers: Seq<Seq<char>>,
    pub messages: Seq<ChatRecordView>,
    pub connection_status: StatusView,
    pub last_heartbeat: u64,
    pub reconnect_attempts: u32,
    pub network_stats: NetworkStats,
}

impl View for NetworkState {
    type V = StateView;

    open spec fn view(&self) -> StateView {
        StateView {
            peers: crate::names::name_seq(self.peers@),
            messages: self.messages@.map_values(|m: ChatRecord| m@),
            connection_status: self.connection_status@,
            last_heartbeat: self.last_heartbeat,
            reconnect_attempts: self.reconnect_attempts,
            network_stats: self.network_stats,
        }
    }
}

impl StateView {
    /// Well-formedness of the record: while the session is connected the
    /// reconnect counter has just been reset, and the peer set holds no
    /// peer twice.
    pub open spec fn wf(self) -> bool {
        &&& self.connection_status is Connected ==> self.reconnect_attempts == 0
        &&& forall|i: int, j: int|
            0 <= i < j < self.peers.len() ==> self.peers[i] != self.peers[j]
    }
}

/// The record of a fresh session: no peers, no messages, disconnected,
/// zeroed counters.
pub open spec fn initial_state() -> StateView {
    StateView {
        peers: Seq::<Seq<char>>::empty(),
        messages: Seq::<ChatRecordView>::empty(),
        connection_status: StatusView::Disconnected,
        last_heartbeat: 0,
        reconnect_attempts: 0,
        network_stats: crate::stats::initial_stats(),
    }
}

impl NetworkState {
    /// The record of a fresh session.
    pub fn new() -> (s: NetworkState)
        ensures
            s@ == initial_state(),
            s@.wf(),
    {
        let s = NetworkState {
            peers: Vec::new(),
            messages: Vec::new(),
            connection_status: ConnectionStatus::Disconnected,
            last_heartbeat: 0,
            reconnect_attempts: 0,
            network_stats: crate::stats::NetworkStats::new(),
        };
        assert(s@ =~= initial_state());
        s
    }

    /// A point-in-time copy of the record, taken field for field.
    pub fn snapshot(&self) -> (r: NetworkState)
        ensures
            r@ == self@,
    {
        let mut peers: Vec<String> = Vec::new();
        let mut i: usize = 0;
        while i < self.peers.len()
            invariant
                i <= self.peers@.len(),
                peers@.len() == i,
                forall|k: int| 0 <= k < i ==> peers@[k]@ == self.peers@[k]@,
            decreases self.peers@.len() - i,
        {
            peers.push(self.peers[i].clone());
            i = i + 1;
        }
        let mut messages: Vec<ChatRecord> = Vec::new();
        let mut j: usize = 0;
        while j < self.messages.len()
            invariant
                j <= self.messages@.len(),
                messages@.len() == j,
                forall|k: int| 0 <= k < j ==> messages@[k]@ == self.messages@[k]@,
            decreases self.messages@.len() - j,
        {
            let m = &self.messages[j];
            messages.push(
                ChatRecord {
                    peer_id: m.peer_id.clone(),
                    text: m.text.clone(),
                    timestamp: m.timestamp,
                },
            );
            j = j + 1;
        }
        let r = NetworkState {
            peers,
            messages,
            connection_status: self.connection_status.duplicate(),
            last_heartbeat: self.last_heartbeat,
            reconnect_attempts: self.reconnect_attempts,
            network_stats: self.network_stats,
        };
        assert(r@.peers =~= self@.peers);
        assert(r@.messages =~= self@.messages);
        assert(r@ =~= self@);
        r
    }
}

/// The consumer's best-effort read.  When the record is at hand the result
/// is its current contents; on contention (`None`) it is the record of a
/// fresh session, returned at once rather than blocking the caller.
pub fn poll_snapshot(state: Option<&NetworkState>) -> (r: NetworkState)
    ensures
        state matches Some(s) ==> r@ == s@,
        state is None ==> r@ == initial_state(),
{
    match state {
        Some(s) => s.snapshot(),
        None => NetworkState::new(),
    }
}

} // verus!
