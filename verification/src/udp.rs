//! The datagram activity detector: a best-effort "audio is still arriving"
//! signal, independent of the control channel.
//!
//! The caller's listener records the arrival time of each datagram; the
//! engine asks whether one arrived recently enough. Socket errors are the
//! caller's to log; to the engine they simply mean no arrival was
//! recorded, never a fatal condition.

use vstd::prelude::*;

verus! {

/// A datagram was seen within the inactivity window before `now`. A record
/// from the future (a clock not yet caught up) does not count.
pub open spec fn udp_active_spec(now: u64, last_seen: Option<u64>, window_ms: u64) -> bool {
    match last_seen {
        Some(t) => t <= now && now - t <= window_ms,
        None => false,
    }
}

/// Holds the arrival time of the last datagram, if any arrived yet.
pub struct UdpActivityMonitor {
    pub last_seen: Option<u64>,
}

impl UdpActivityMonitor {
    /// A monitor that has seen nothing yet.
    pub fn new() -> (m: UdpActivityMonitor)
        ensures
            m.last_seen is None,
    {
        UdpActivityMonitor { last_seen: None }
    }

    /// Notes a datagram that arrived at `now`.
    pub fn record(&mut self, now: u64)
        ensures
            final(self).last_seen == Some(now),
    {
        self.last_seen = Some(now);
    }

    /// Whether a datagram arrived within `window_ms` before `now`.
    pub fn is_active(&self, now: u64, window_ms: u64) -> (r: bool)
        ensures
            r == udp_active_spec(now, self.last_seen, window_ms),
    {
        match self.last_seen {
            Some(t) => t <= now && now - t <= window_ms,
            None => false,
        }
    }
}

} // verus!
