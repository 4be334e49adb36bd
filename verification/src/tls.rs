//! TLS handshake phase.
//!
//! The cryptographic handshake itself belongs to the TLS engine, outside
//! this core; at this boundary the engine is modeled by the byte sequence
//! it still expects from the client. Bytes read from the frontend are
//! checked against that sequence: a divergence is a failed handshake and
//! closes the session; once the sequence is exhausted the handshake is
//! complete and the session upgrades to the variant selected by protocol
//! negotiation, carrying over any bytes already read past the handshake
//! boundary as decrypted application data.

use vstd::prelude::*;

use crate::metrics::sat_add;
use crate::metrics::SessionMetrics;
use crate::outcome::SessionResult;
use crate::outcome::StateKind;
use crate::ready::Ready;
use crate::resources::Resources;

verus! {

/// Session state while the TLS handshake is in progress.
#[derive(Debug)]
pub struct TlsHandshake {
    /// Sockets, retained readiness and timers this variant owns.
    pub res: Resources,
    /// The bytes the handshake engine still expects from the client.
    pub expected: Vec<u8>,
    /// The variant selected by protocol negotiation for after the
    /// handshake: `Http`, or `H2` when negotiation chose it.
    pub next: StateKind,
}

/// The delivered bytes `d` agree with the expected transcript `e` as far
/// as they overlap.
pub open spec fn agrees_with(d: Seq<u8>, e: Seq<u8>) -> bool {
    forall|i: int| 0 <= i < d.len() && i < e.len() ==> d[i] == e[i]
}

/// Exactly what one `ready` call on this variant does, in terms of the
/// frontend bytes available before the call (`d`) and the transcript
/// still expected before the call (`e`).
pub open spec fn tls_ready_rel(
    pre: TlsHandshake,
    post: TlsHandshake,
    m0: SessionMetrics,
    m1: SessionMetrics,
    r: SessionResult,
) -> bool {
    let d = pre.res.front.incoming@;
    let e = pre.expected@;
    if pre.res.front.readiness.is_broken() || pre.res.back.readiness.is_broken() {
        &&& r is CloseSession
        &&& post == pre
        &&& m1 == m0
    } else if !pre.res.front.readiness.readable {
        &&& r is Continue
        &&& post == pre
        &&& m1 == m0
    } else {
        &&& post.next == pre.next
        &&& post.res.back == pre.res.back
        &&& post.res.stale@ == pre.res.stale@
        &&& post.res.timeouts == pre.res.timeouts
        &&& post.res.front.token == pre.res.front.token
        &&& post.res.front.incoming@ == Seq::<u8>::empty()
        &&& post.res.front.outgoing@ == pre.res.front.outgoing@
        &&& post.res.front.registered == pre.res.front.registered
        &&& post.res.front.readiness == (Ready { readable: false, ..pre.res.front.readiness })
        &&& if !agrees_with(d, e) {
            r is CloseSession && post.expected@ == e
        } else if d.len() >= e.len() {
            &&& r matches SessionResult::UpgradeTo(k, c) && k == pre.next && c@ == d.subrange(
                e.len() as int,
                d.len() as int,
            )
            &&& post.expected@ == Seq::<u8>::empty()
        } else {
            &&& r is Continue
            &&& post.expected@ == e.subrange(d.len() as int, e.len() as int)
        }
        &&& m1 == (SessionMetrics { bytes_in: sat_add(m0.bytes_in, d.len() as u64), ..m0 })
    }
}

impl TlsHandshake {
    /// The variant's own consistency: valid resources and a negotiated
    /// successor the handshake may upgrade to.
    pub open spec fn wf(self) -> bool {
        &&& self.res.wf()
        &&& (self.next == StateKind::Http || self.next == StateKind::H2)
    }

    /// Drive the handshake: drain the frontend, check the bytes against
    /// the expected transcript, and report `CloseSession` on divergence,
    /// `UpgradeTo(next, carry)` on completion — `carry` being the bytes
    /// past the handshake boundary — or `Continue` while truncated.
    pub fn ready(&mut self, metrics: &mut SessionMetrics) -> (r: SessionResult)
        ensures
            tls_ready_rel(*old(self), *final(self), *old(metrics), *final(metrics), r),
    {
        if self.res.front.readiness.error || self.res.front.readiness.hangup
            || self.res.back.readiness.error || self.res.back.readiness.hangup {
            return SessionResult::CloseSession;
        }
        if !self.res.front.readiness.readable {
            return SessionResult::Continue;
        }
        let mut data = self.res.front.read_all();
        metrics.add_in(data.len() as u64);
        let overlap = if data.len() < self.expected.len() {
            data.len()
        } else {
            self.expected.len()
        };
        let mut i: usize = 0;
        #[verifier::loop_isolation(false)]
        while i < overlap
            invariant
                i <= overlap,
                forall|j: int| 0 <= j < i ==> data@[j] == self.expected@[j],
            decreases overlap - i,
        {
            if data[i] != self.expected[i] {
                assert(data@[i as int] != self.expected@[i as int]);
                assert(!agrees_with(data@, self.expected@));
                return SessionResult::CloseSession;
            }
            i = i + 1;
        }
        assert(agrees_with(data@, self.expected@));
        if data.len() >= self.expected.len() {
            let boundary = self.expected.len();
            let carry = data.split_off(boundary);
            self.expected = Vec::new();
            proof {
                assert(self.expected@ =~= Seq::<u8>::empty());
            }
            SessionResult::UpgradeTo(self.next, carry)
        } else {
            let consumed = data.len();
            self.expected = self.expected.split_off(consumed);
            SessionResult::Continue
        }
    }
}

} // verus!
