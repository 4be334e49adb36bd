//! HTTP/2 phase.
//!
//! Frame parsing, multiplexing and flow control belong to the HTTP/2
//! engine, outside this core. This phase keeps the session's readiness
//! and timeout bookkeeping consistent and retains the bytes of each
//! direction — starting with the carried-over connection preface — for
//! the frame engine.

use vstd::prelude::*;

use crate::metrics::sat_add;
use crate::metrics::SessionMetrics;
use crate::outcome::SessionResult;
use crate::ready::Ready;
use crate::resources::Resources;

verus! {

/// Session state for the HTTP/2 phase.
#[derive(Debug)]
pub struct H2 {
    /// Sockets, retained readiness and timers this variant owns.
    pub res: Resources,
    /// Bytes from the client awaiting the frame engine, opening with the
    /// carried-over connection preface.
    pub front_frames: Vec<u8>,
    /// Bytes from the backend awaiting the frame engine.
    pub back_frames: Vec<u8>,
}

/// Exactly what one `ready` call on this variant does.
pub open spec fn h2_ready_rel(
    pre: H2,
    post: H2,
    m0: SessionMetrics,
    m1: SessionMetrics,
    r: SessionResult,
) -> bool {
    if pre.res.front.readiness.is_broken() || pre.res.back.readiness.is_broken() {
        &&& r is CloseSession
        &&& post == pre
        &&& m1 == m0
    } else {
        &&& r is Continue
        &&& post.res.stale@ == pre.res.stale@
        &&& post.res.timeouts == pre.res.timeouts
        &&& post.res.front.token == pre.res.front.token
        &&& post.res.front.outgoing@ == pre.res.front.outgoing@
        &&& post.res.front.registered == pre.res.front.registered
        &&& post.res.back.token == pre.res.back.token
        &&& post.res.back.outgoing@ == pre.res.back.outgoing@
        &&& post.res.back.registered == pre.res.back.registered
        &&& if pre.res.front.readiness.readable {
            &&& post.front_frames@ == pre.front_frames@ + pre.res.front.incoming@
            &&& post.res.front.incoming@ == Seq::<u8>::empty()
            &&& post.res.front.readiness == (Ready {
                readable: false,
                ..pre.res.front.readiness
            })
        } else {
            &&& post.front_frames@ == pre.front_frames@
            &&& post.res.front.incoming@ == pre.res.front.incoming@
            &&& post.res.front.readiness == pre.res.front.readiness
        }
        &&& if pre.res.back.readiness.readable {
            &&& post.back_frames@ == pre.back_frames@ + pre.res.back.incoming@
            &&& post.res.back.incoming@ == Seq::<u8>::empty()
            &&& post.res.back.readiness == (Ready { readable: false, ..pre.res.back.readiness })
        } else {
            &&& post.back_frames@ == pre.back_frames@
            &&& post.res.back.incoming@ == pre.res.back.incoming@
            &&& post.res.back.readiness == pre.res.back.readiness
        }
        &&& m1 == (SessionMetrics {
            bytes_in: sat_add(
                sat_add(
                    m0.bytes_in,
                    if pre.res.front.readiness.readable {
                        pre.res.front.incoming@.len() as u64
                    } else {
                        0
                    },
                ),
                if pre.res.back.readiness.readable {
                    pre.res.back.incoming@.len() as u64
                } else {
                    0
                },
            ),
            ..m0
        })
    }
}

impl H2 {
    /// The variant's own consistency.
    pub open spec fn wf(self) -> bool {
        self.res.wf()
    }

    /// Drive the phase: drain whatever is readable into the frame
    /// buffers; close only when a peer failed.
    pub fn ready(&mut self, metrics: &mut SessionMetrics) -> (r: SessionResult)
        ensures
            h2_ready_rel(*old(self), *final(self), *old(metrics), *final(metrics), r),
    {
        if self.res.front.readiness.error || self.res.front.readiness.hangup
            || self.res.back.readiness.error || self.res.back.readiness.hangup {
            return SessionResult::CloseSession;
        }
        if self.res.front.readiness.readable {
            let mut data = self.res.front.read_all();
            metrics.add_in(data.len() as u64);
            self.front_frames.append(&mut data);
            proof {
                assert(self.front_frames@ =~= old(self).front_frames@ + old(
                    self,
                ).res.front.incoming@);
            }
        }
        if self.res.back.readiness.readable {
            let mut data = self.res.back.read_all();
            metrics.add_in(data.len() as u64);
            self.back_frames.append(&mut data);
            proof {
                assert(self.back_frames@ =~= old(self).back_frames@ + old(
                    self,
                ).res.back.incoming@);
            }
        }
        SessionResult::Continue
    }
}

} // verus!
