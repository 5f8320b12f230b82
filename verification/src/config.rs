//! Configuration of a session: the room to join, the timer intervals, the
//! reconnect budget, and which delivery-class channels to open.

use vstd::prelude::*;

verus! {

/// Configuration supplied at construction or replaced as a whole by an
/// update; it never changes during a connection attempt.  Intervals and
/// delays are carried in milliseconds.
#[derive(Debug)]
pub struct NetworkConfig {
    pub room_url: String,
    pub heartbeat_interval_ms: u64,
    /// Ceiling on consecutive reconnect attempts for one session instance.
    pub reconnect_attempts: u32,
    pub reconnect_delay_ms: u64,
    pub max_message_size: usize,
    pub enable_reliable_channel: bool,
    pub enable_unreliable_channel: bool,
}

/// The mathematical value of a [`NetworkConfig`].
pub struct ConfigView {
    pub room_url: Seq<char>,
    pub heartbeat_interval_ms: u64,
    pub reconnect_attempts: u32,
    pub reconnect_delay_ms: u64,
    pub max_message_size: usize,
    pub enable_reliable_channel: bool,
    pub enable_unreliable_channel: bool,
}

impl View for NetworkConfig {
    type V = ConfigView;

    open spec fn view(&self) -> ConfigView {
        ConfigView {
            room_url: self.room_url@,
            heartbeat_interval_ms: self.heartbeat_interval_ms,
            reconnect_attempts: self.reconnect_attempts,
            reconnect_delay_ms: self.reconnect_delay_ms,
            max_message_size: self.max_message_size,
            enable_reliable_channel: self.enable_reliable_channel,
            enable_unreliable_channel: self.enable_unreliable_channel,
        }
    }
}

impl NetworkConfig {
    /// A field-for-field copy of the configuration.
    pub fn duplicate(&self) -> (r: NetworkConfig)
        ensures
            r@ == self@,
    {
        NetworkConfig {
            room_url: self.room_url.clone(),
            heartbeat_interval_ms: self.heartbeat_interval_ms,
            reconnect_attempts: self.reconnect_attempts,
            reconnect_delay_ms: self.reconnect_delay_ms,
            max_message_size: self.max_message_size,
            enable_reliable_channel: self.enable_reliable_channel,
            enable_unreliable_channel: self.enable_unreliable_channel,
        }
    }
}

impl Default for NetworkConfig {
    /// A local game room, a five-second heartbeat, five reconnect attempts
    /// two seconds apart, 64 KiB messages, and both channels enabled.
    fn default() -> (c: Self)
        ensures
            c@.room_url == "ws://localhost:3536/game_room"@,
            c@.heartbeat_interval_ms == 5000,
            c@.reconnect_attempts == 5,
            c@.reconnect_delay_ms == 2000,
            c@.max_message_size == 65536,
            c@.enable_reliable_channel,
            c@.enable_unreliable_channel,
    {
        NetworkConfig {
            room_url: "ws://localhost:3536/game_room".to_owned(),
            heartbeat_interval_ms: 5000,
            reconnect_attempts: 5,
            reconnect_delay_ms: 2000,
            max_message_size: 65536,
            enable_reliable_channel: true,
            enable_unreliable_channel: true,
        }
    }
}

} // verus!
