//! Raw tunnel phase.
//!
//! After a protocol switch the connection is a bidirectional byte pipe
//! with no protocol interpretation. The first `ready` call forwards the
//! bytes carried over from the previous phase to the client before
//! reading from either socket; after that, whatever one peer sends is
//! copied to the other.

use vstd::prelude::*;

use crate::metrics::sat_add;
use crate::metrics::SessionMetrics;
use crate::outcome::SessionResult;
use crate::ready::Ready;
use crate::resources::Resources;

verus! {

/// Session state for the tunnel phase.
#[derive(Debug)]
pub struct Pipe {
    /// Sockets, retained readiness and timers this variant owns.
    pub res: Resources,
    /// Bytes carried over from the previous phase, owed to the client
    /// before anything else is forwarded.
    pub carry: Vec<u8>,
}

/// Exactly what one `ready` call on this variant does: the carried-over
/// bytes go out to the client first, then each readable side is drained
/// and copied to the other.
pub open spec fn pipe_ready_rel(
    pre: Pipe,
    post: Pipe,
    m0: SessionMetrics,
    m1: SessionMetrics,
    r: SessionResult,
) -> bool {
    if pre.res.front.readiness.is_broken() || pre.res.back.readiness.is_broken() {
        &&& r is CloseSession
        &&& post == pre
        &&& m1 == m0
    } else {
        &&& r is Continue
        &&& post.carry@ == Seq::<u8>::empty()
        &&& post.res.stale@ == pre.res.stale@
        &&& post.res.timeouts == pre.res.timeouts
        &&& post.res.front.token == pre.res.front.token
        &&& post.res.front.registered == pre.res.front.registered
        &&& post.res.back.token == pre.res.back.token
        &&& post.res.back.registered == pre.res.back.registered
        &&& post.res.front.outgoing@ == pre.res.front.outgoing@ + pre.carry@ + (
        if pre.res.back.readiness.readable {
            pre.res.back.incoming@
        } else {
            Seq::<u8>::empty()
        })
        &&& post.res.back.outgoing@ == pre.res.back.outgoing@ + (
        if pre.res.front.readiness.readable {
            pre.res.front.incoming@
        } else {
            Seq::<u8>::empty()
        })
        &&& if pre.res.front.readiness.readable {
            &&& post.res.front.incoming@ == Seq::<u8>::empty()
            &&& post.res.front.readiness == (Ready {
                readable: false,
                ..pre.res.front.readiness
            })
        } else {
            &&& post.res.front.incoming@ == pre.res.front.incoming@
            &&& post.res.front.readiness == pre.res.front.readiness
        }
        &&& if pre.res.back.readiness.readable {
            &&& post.res.back.incoming@ == Seq::<u8>::empty()
            &&& post.res.back.readiness == (Ready { readable: false, ..pre.res.back.readiness })
        } else {
            &&& post.res.back.incoming@ == pre.res.back.incoming@
            &&& post.res.back.readiness == pre.res.back.readiness
        }
        &&& m1 == (SessionMetrics {
            bytes_in: sat_add(
                sat_add(
                    m0.bytes_in,
                    if pre.res.front.readiness.readable {
                        pre.res.front.incoming@.len() as u64
                    } else {
                        0
                    },
                ),
                if pre.res.back.readiness.readable {
                    pre.res.back.incoming@.len() as u64
                } else {
                    0
                },
            ),
            bytes_out: sat_add(
                sat_add(
                    sat_add(m0.bytes_out, pre.carry@.len() as u64),
                    if pre.res.front.readiness.readable {
                        pre.res.front.incoming@.len() as u64
                    } else {
                        0
                    },
                ),
                if pre.res.back.readiness.readable {
                    pre.res.back.incoming@.len() as u64
                } else {
                    0
                },
            ),
            ..m0
        })
    }
}

impl Pipe {
    /// The variant's own consistency.
    pub open spec fn wf(self) -> bool {
        self.res.wf()
    }

    /// Drive the tunnel: flush the carried-over bytes to the client
    /// first, then copy each readable direction to the other peer.
    pub fn ready(&mut self, metrics: &mut SessionMetrics) -> (r: SessionResult)
        ensures
            pipe_ready_rel(*old(self), *final(self), *old(metrics), *final(metrics), r),
    {
        if self.res.front.readiness.error || self.res.front.readiness.hangup
            || self.res.back.readiness.error || self.res.back.readiness.hangup {
            return SessionResult::CloseSession;
        }
        let n = self.carry.len();
        let owed = self.carry.split_off(0);
        proof {
            assert(self.carry@ =~= Seq::<u8>::empty());
        }
        self.res.front.send(owed);
        metrics.add_out(n as u64);
        if self.res.front.readiness.readable {
            let data = self.res.front.read_all();
            let m = data.len();
            metrics.add_in(m as u64);
            self.res.back.send(data);
            metrics.add_out(m as u64);
        }
        proof {
            assert(self.res.back.outgoing@ =~= old(self).res.back.outgoing@ + (
            if old(self).res.front.readiness.readable {
                old(self).res.front.incoming@
            } else {
                Seq::<u8>::empty()
            }));
        }
        if self.res.back.readiness.readable {
            let data = self.res.back.read_all();
            let m = data.len();
            metrics.add_in(m as u64);
            self.res.front.send(data);
            metrics.add_out(m as u64);
        }
        proof {
            assert(self.res.front.outgoing@ =~= old(self).res.front.outgoing@ + old(self).carry@
                + (if old(self).res.back.readiness.readable {
                old(self).res.back.incoming@
            } else {
                Seq::<u8>::empty()
            }));
        }
        SessionResult::Continue
    }
}

} // verus!
