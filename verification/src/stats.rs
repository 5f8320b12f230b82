//! Transfer statistics of the session: monotonic counters plus two sampled
//! gauges.  Counters saturate instead of wrapping, so they never move
//! backwards.

use vstd::prelude::*;

verus! {

/// Counters and gauges of one session.  `last_ping_ms` is the most recent
/// round trip in milliseconds; `packet_loss_ppm` is the sampled loss ratio
/// in parts per million.
#[derive(Clone, Copy, Debug)]
pub struct NetworkStats {
    pub messages_sent: u64,
    pub messages_received: u64,
    pub bytes_sent: u64,
    pub bytes_received: u64,
    /// Count of inbound packets dropped because they decoded to no message.
    pub decode_errors: u64,
    pub last_ping_ms: Option<u64>,
    pub packet_loss_ppm: u32,
}

/// All-zero statistics, with no round trip sampled yet.
pub open spec fn initial_stats() -> NetworkStats {
    NetworkStats {
        messages_sent: 0,
        messages_received: 0,
        bytes_sent: 0,
        bytes_received: 0,
        decode_errors: 0,
        last_ping_ms: None,
        packet_loss_ppm: 0,
    }
}

/// Saturating sum of two counters.
pub open spec fn sat_add(a: u64, b: u64) -> u64 {
    if a + b > u64::MAX {
        u64::MAX
    } else {
        (a + b) as u64
    }
}

/// Adds to a counter, stopping at the top of its range instead of
/// wrapping.
pub fn counter_add(a: u64, b: u64) -> (r: u64)
    ensures
        r == sat_add(a, b),
{
    if b > u64::MAX - a {
        u64::MAX
    } else {
        a + b
    }
}

impl NetworkStats {
    /// All-zero statistics.
    pub fn new() -> (s: NetworkStats)
        ensures
            s == initial_stats(),
    {
        NetworkStats {
            messages_sent: 0,
            messages_received: 0,
            bytes_sent: 0,
            bytes_received: 0,
            decode_errors: 0,
            last_ping_ms: None,
            packet_loss_ppm: 0,
        }
    }

    /// The statistics after one outbound transmission of `bytes` bytes.
    pub open spec fn after_send(self, bytes: u64) -> NetworkStats {
        NetworkStats {
            messages_sent: sat_add(self.messages_sent, 1),
            bytes_sent: sat_add(self.bytes_sent, bytes),
            ..self
        }
    }

    /// The statistics after one inbound message of `bytes` bytes.
    pub open spec fn after_receive(self, bytes: u64) -> NetworkStats {
        NetworkStats {
            messages_received: sat_add(self.messages_received, 1),
            bytes_received: sat_add(self.bytes_received, bytes),
            ..self
        }
    }

    /// The statistics after one inbound packet was dropped as malformed.
    pub open spec fn after_decode_error(self) -> NetworkStats {
        NetworkStats { decode_errors: sat_add(self.decode_errors, 1), ..self }
    }

    /// Records one outbound transmission of `bytes` bytes.
    pub fn record_send(&mut self, bytes: u64)
        ensures
            *final(self) == old(self).after_send(bytes),
    {
        self.messages_sent = counter_add(self.messages_sent, 1);
        self.bytes_sent = counter_add(self.bytes_sent, bytes);
    }

    /// Records one inbound message of `bytes` bytes.
    pub fn record_receive(&mut self, bytes: u64)
        ensures
            *final(self) == old(self).after_receive(bytes),
    {
        self.messages_received = counter_add(self.messages_received, 1);
        self.bytes_received = counter_add(self.bytes_received, bytes);
    }

    /// Records one inbound packet dropped as malformed.
    pub fn record_decode_error(&mut self)
        ensures
            *final(self) == old(self).after_decode_error(),
    {
        self.decode_errors = counter_add(self.decode_errors, 1);
    }
}

} // verus!
