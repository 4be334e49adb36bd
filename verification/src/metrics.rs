//! Per-session metrics counters.
//!
//! The core defines only the call sites: byte counters for each
//! direction, fired timeouts, and close reports. Counters saturate
//! instead of wrapping, so they can never run backwards.

use vstd::prelude::*;

verus! {

/// Saturating addition on the counter range.
pub open spec fn sat_add(a: u64, b: u64) -> u64 {
    if a + b > u64::MAX {
        u64::MAX
    } else {
        (a + b) as u64
    }
}

/// Counters accumulated over the lifetime of one session.
#[derive(Clone, Copy, PartialEq, Eq, Structural, Debug)]
pub struct SessionMetrics {
    /// Bytes read from the session's sockets.
    pub bytes_in: u64,
    /// Bytes written to the session's sockets.
    pub bytes_out: u64,
    /// Timer firings that were still meaningful when delivered.
    pub timeouts_fired: u64,
    /// Close reports; a session reports its close exactly once.
    pub close_reports: u64,
}

impl SessionMetrics {
    /// Counters of `self` are no larger than those of `other`.
    pub open spec fn le(self, other: SessionMetrics) -> bool {
        &&& self.bytes_in <= other.bytes_in
        &&& self.bytes_out <= other.bytes_out
        &&& self.timeouts_fired <= other.timeouts_fired
        &&& self.close_reports <= other.close_reports
    }

    /// Fresh counters, all zero.
    pub fn new() -> (m: SessionMetrics)
        ensures
            m == (SessionMetrics {
                bytes_in: 0,
                bytes_out: 0,
                timeouts_fired: 0,
                close_reports: 0,
            }),
    {
        SessionMetrics { bytes_in: 0, bytes_out: 0, timeouts_fired: 0, close_reports: 0 }
    }

    /// Count `n` bytes read from a socket.
    pub fn add_in(&mut self, n: u64)
        ensures
            *final(self) == (SessionMetrics {
                bytes_in: sat_add(old(self).bytes_in, n),
                ..*old(self)
            }),
    {
        if self.bytes_in > u64::MAX - n {
            self.bytes_in = u64::MAX;
        } else {
            self.bytes_in = self.bytes_in + n;
        }
    }

    /// Count `n` bytes written to a socket.
    pub fn add_out(&mut self, n: u64)
        ensures
            *final(self) == (SessionMetrics {
                bytes_out: sat_add(old(self).bytes_out, n),
                ..*old(self)
            }),
    {
        if self.bytes_out > u64::MAX - n {
            self.bytes_out = u64::MAX;
        } else {
            self.bytes_out = self.bytes_out + n;
        }
    }

    /// Count one meaningful timer firing.
    pub fn record_timeout(&mut self)
        ensures
            *final(self) == (SessionMetrics {
                timeouts_fired: sat_add(old(self).timeouts_fired, 1),
                ..*old(self)
            }),
    {
        if self.timeouts_fired > u64::MAX - 1 {
            self.timeouts_fired = u64::MAX;
        } else {
            self.timeouts_fired = self.timeouts_fired + 1;
        }
    }

    /// Report the session's close.
    pub fn record_close(&mut self)
        ensures
            *final(self) == (SessionMetrics {
                close_reports: sat_add(old(self).close_reports, 1),
                ..*old(self)
            }),
    {
        if self.close_reports > u64::MAX - 1 {
            self.close_reports = u64::MAX;
        } else {
            self.close_reports = self.close_reports + 1;
        }
    }
}

} // verus!
