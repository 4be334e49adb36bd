//! First phase for listeners that prepend a PROXY-protocol preamble.
//!
//! The preamble is a fixed, self-delimiting header conveying the original
//! client address, written to the backend before any application data.
//! Once it has been fully written the phase is over and the session moves
//! forward — to the TLS handshake or directly to HTTP, depending on the
//! listener configuration — with no carry-over bytes.

use vstd::prelude::*;

use crate::metrics::sat_add;
use crate::metrics::SessionMetrics;
use crate::outcome::SessionResult;
use crate::outcome::StateKind;
use crate::resources::Resources;

verus! {

/// Session state while the PROXY-protocol preamble is being written to
/// the backend.
#[derive(Debug)]
pub struct SendProxyProtocol {
    /// Sockets, retained readiness and timers this variant owns.
    pub res: Resources,
    /// The part of the preamble not yet written to the backend.
    pub pending: Vec<u8>,
    /// The variant this phase upgrades to once the preamble is written.
    pub next: StateKind,
}

/// Exactly what one `ready` call on this variant does.
pub open spec fn send_proxy_ready_rel(
    pre: SendProxyProtocol,
    post: SendProxyProtocol,
    m0: SessionMetrics,
    m1: SessionMetrics,
    r: SessionResult,
) -> bool {
    if pre.res.front.readiness.is_broken() || pre.res.back.readiness.is_broken() {
        &&& r is CloseSession
        &&& post == pre
        &&& m1 == m0
    } else {
        &&& post.next == pre.next
        &&& post.res.front == pre.res.front
        &&& post.res.stale@ == pre.res.stale@
        &&& post.res.timeouts == pre.res.timeouts
        &&& post.res.back.token == pre.res.back.token
        &&& post.res.back.readiness == pre.res.back.readiness
        &&& post.res.back.incoming@ == pre.res.back.incoming@
        &&& post.res.back.registered == pre.res.back.registered
        &&& if pre.res.back.readiness.writable {
            &&& post.pending@ == Seq::<u8>::empty()
            &&& post.res.back.outgoing@ == pre.res.back.outgoing@ + pre.pending@
        } else {
            &&& post.pending@ == pre.pending@
            &&& post.res.back.outgoing@ == pre.res.back.outgoing@
        }
        &&& if post.pending@.len() == 0 {
            r matches SessionResult::UpgradeTo(k, c) && k == pre.next && c@ == Seq::<u8>::empty()
        } else {
            r is Continue
        }
        &&& m1 == (SessionMetrics {
            bytes_out: sat_add(
                m0.bytes_out,
                if pre.res.back.readiness.writable {
                    pre.pending@.len() as u64
                } else {
                    0
                },
            ),
            ..m0
        })
    }
}

impl SendProxyProtocol {
    /// The variant's own consistency: valid resources and a forward
    /// upgrade target.
    pub open spec fn wf(self) -> bool {
        &&& self.res.wf()
        &&& (self.next == StateKind::TlsHandshake || self.next == StateKind::Http)
    }

    /// Drive the phase: write the remaining preamble when the backend is
    /// writable; report `UpgradeTo(next, [])` once it is fully written,
    /// `CloseSession` if either peer failed, `Continue` otherwise.
    pub fn ready(&mut self, metrics: &mut SessionMetrics) -> (r: SessionResult)
        ensures
            send_proxy_ready_rel(*old(self), *final(self), *old(metrics), *final(metrics), r),
    {
        if self.res.front.readiness.error || self.res.front.readiness.hangup
            || self.res.back.readiness.error || self.res.back.readiness.hangup {
            return SessionResult::CloseSession;
        }
        if self.res.back.readiness.writable && self.pending.len() > 0 {
            let n = self.pending.len();
            let data = self.pending.split_off(0);
            self.res.back.send(data);
            metrics.add_out(n as u64);
        }
        proof {
            if old(self).res.back.readiness.writable {
                assert(self.pending@ =~= Seq::<u8>::empty());
                assert(self.res.back.outgoing@ =~= old(self).res.back.outgoing@ + old(
                    self,
                ).pending@);
            }
        }
        if self.pending.len() == 0 {
            let carry: Vec<u8> = Vec::new();
            assert(carry@ =~= Seq::<u8>::empty());
            SessionResult::UpgradeTo(self.next, carry)
        } else {
            SessionResult::Continue
        }
    }
}

} // verus!
