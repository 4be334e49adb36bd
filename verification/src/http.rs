//! HTTP phase: one request/response exchange, proxied to the backend.
//!
//! Header parsing and validation belong to the HTTP codec, outside this
//! core. At this boundary a message is framed by the first empty line:
//! the buffered bytes up to and including the first CRLF-CRLF are the
//! message head, and the model forwards whole buffered messages — content
//! framing beyond the head is the codec's business. Three outcomes end
//! the phase: a request opening with the HTTP/2 connection preface
//! upgrades in place to `H2` where configuration permits it; a response
//! whose status line announces a protocol switch turns the connection
//! into a raw tunnel (`Pipe`), carrying over the bytes that arrived past
//! the response head; otherwise the session closes once the response has
//! been flushed to the client.

use vstd::prelude::*;

use crate::metrics::sat_add;
use crate::metrics::SessionMetrics;
use crate::outcome::SessionResult;
use crate::outcome::StateKind;
use crate::ready::Ready;
use crate::resources::Resources;

verus! {

/// Carriage return; with a line feed it terminates a head line.
pub const CR: u8 = 13;

/// Line feed.
pub const LF: u8 = 10;

/// A message head ends at `j`: the four bytes starting there are
/// CRLF-CRLF, the first empty line.
pub open spec fn head_end_at(s: Seq<u8>, j: int) -> bool {
    &&& 0 <= j
    &&& j + 4 <= s.len()
    &&& s[j] == CR
    &&& s[j + 1] == LF
    &&& s[j + 2] == CR
    &&& s[j + 3] == LF
}

/// The buffer holds a complete message head somewhere.
pub open spec fn has_head_end(s: Seq<u8>) -> bool {
    exists|j: int| head_end_at(s, j)
}

/// `e` is the length of the shortest prefix of `s` that is a complete
/// message head: the first CRLF-CRLF ends right before position `e`.
pub open spec fn is_first_head_end(s: Seq<u8>, e: int) -> bool {
    &&& 4 <= e <= s.len()
    &&& head_end_at(s, e - 4)
    &&& forall|j: int| 0 <= j < e - 4 ==> !head_end_at(s, j)
}

/// The buffer opens with the HTTP/2 connection preface: its first bytes
/// are the preface's method line opener `PRI` and a space, which no
/// HTTP/1 request can start with.
pub open spec fn has_h2_preface(s: Seq<u8>) -> bool {
    &&& s.len() >= 4
    &&& s[0] == 80  // 'P'
    &&& s[1] == 82  // 'R'
    &&& s[2] == 73  // 'I'
    &&& s[3] == 32  // ' '
}

/// The response status line announces a protocol switch: it opens with
/// `HTTP/1.1 101`.
pub open spec fn is_switch_response(s: Seq<u8>) -> bool {
    &&& s.len() >= 12
    &&& s[0] == 72  // 'H'
    &&& s[1] == 84  // 'T'
    &&& s[2] == 84  // 'T'
    &&& s[3] == 80  // 'P'
    &&& s[4] == 47  // '/'
    &&& s[5] == 49  // '1'
    &&& s[6] == 46  // '.'
    &&& s[7] == 49  // '1'
    &&& s[8] == 32  // ' '
    &&& s[9] == 49  // '1'
    &&& s[10] == 48  // '0'
    &&& s[11] == 49  // '1'
}

/// Where the exchange stands.
#[derive(Clone, Copy, PartialEq, Eq, Structural, Debug)]
pub enum HttpPhase {
    /// Reading the request from the client.
    Request,
    /// The request was forwarded; reading the response from the backend.
    Response,
    /// The response was written out to the client in full.
    Flushed,
}

/// Session state for the HTTP phase.
#[derive(Debug)]
pub struct Http {
    /// Sockets, retained readiness and timers this variant owns.
    pub res: Resources,
    /// Buffered request bytes not yet forwarded to the backend.
    pub req: Vec<u8>,
    /// Buffered response bytes not yet written to the client.
    pub resp: Vec<u8>,
    /// Where the exchange stands.
    pub phase: HttpPhase,
    /// Whether configuration permits the in-place upgrade to `H2`.
    pub h2_allowed: bool,
}

/// Find the end of the first complete message head, if any: the index
/// one past the first CRLF-CRLF.
pub fn find_head_end(v: &Vec<u8>) -> (r: Option<usize>)
    ensures
        r matches Some(e) ==> is_first_head_end(v@, e as int),
        r is None ==> !has_head_end(v@),
{
    if v.len() < 4 {
        return None;
    }
    let mut i: usize = 0;
    #[verifier::loop_isolation(false)]
    while i <= v.len() - 4
        invariant
            i <= v.len(),
            forall|j: int| 0 <= j < i ==> !head_end_at(v@, j),
        decreases v.len() - i,
    {
        if v[i] == CR && v[i + 1] == LF && v[i + 2] == CR && v[i + 3] == LF {
            return Some(i + 4);
        }
        i = i + 1;
    }
    None
}

/// Whether the buffer opens with the HTTP/2 connection preface.
pub fn starts_with_h2_preface(v: &Vec<u8>) -> (r: bool)
    ensures
        r == has_h2_preface(v@),
{
    v.len() >= 4 && v[0] == 80 && v[1] == 82 && v[2] == 73 && v[3] == 32
}

/// Whether the buffer opens with a protocol-switch status line.
pub fn starts_with_switch(v: &Vec<u8>) -> (r: bool)
    ensures
        r == is_switch_response(v@),
{
    v.len() >= 12 && v[0] == 72 && v[1] == 84 && v[2] == 84 && v[3] == 80 && v[4] == 47 && v[5]
        == 49 && v[6] == 46 && v[7] == 49 && v[8] == 32 && v[9] == 49 && v[10] == 48 && v[11] == 49
}

/// What one `ready` call does while reading the request; `q` is the
/// request buffer after draining the frontend.
pub open spec fn http_request_rel(
    pre: Http,
    post: Http,
    m0: SessionMetrics,
    m1: SessionMetrics,
    r: SessionResult,
) -> bool {
    let q = pre.req@ + pre.res.front.incoming@;
    if !pre.res.front.readiness.readable {
        &&& r is Continue
        &&& post == pre
        &&& m1 == m0
    } else {
        &&& post.h2_allowed == pre.h2_allowed
        &&& post.resp@ == pre.resp@
        &&& post.res.stale@ == pre.res.stale@
        &&& post.res.timeouts == pre.res.timeouts
        &&& post.res.front.token == pre.res.front.token
        &&& post.res.front.incoming@ == Seq::<u8>::empty()
        &&& post.res.front.outgoing@ == pre.res.front.outgoing@
        &&& post.res.front.registered == pre.res.front.registered
        &&& post.res.front.readiness == (Ready { readable: false, ..pre.res.front.readiness })
        &&& post.res.back.token == pre.res.back.token
        &&& post.res.back.readiness == pre.res.back.readiness
        &&& post.res.back.incoming@ == pre.res.back.incoming@
        &&& post.res.back.registered == pre.res.back.registered
        &&& if has_h2_preface(q) {
            &&& post.res.back.outgoing@ == pre.res.back.outgoing@
            &&& post.phase is Request
            &&& if pre.h2_allowed {
                &&& r matches SessionResult::UpgradeTo(k, c) && k == StateKind::H2 && c@ == q
                &&& post.req@ == Seq::<u8>::empty()
            } else {
                &&& r is CloseSession
                &&& post.req@ == q
            }
        } else if has_head_end(q) {
            &&& r is Continue
            &&& post.phase is Response
            &&& post.req@ == Seq::<u8>::empty()
            &&& post.res.back.outgoing@ == pre.res.back.outgoing@ + q
        } else {
            &&& r is Continue
            &&& post.phase is Request
            &&& post.req@ == q
            &&& post.res.back.outgoing@ == pre.res.back.outgoing@
        }
        &&& m1 == (SessionMetrics {
            bytes_in: sat_add(m0.bytes_in, pre.res.front.incoming@.len() as u64),
            bytes_out: sat_add(
                m0.bytes_out,
                if !has_h2_preface(q) && has_head_end(q) {
                    q.len() as u64
                } else {
                    0
                },
            ),
            ..m0
        })
    }
}

/// What one `ready` call does while reading the response; `p` is the
/// response buffer after draining the backend.
pub open spec fn http_response_rel(
    pre: Http,
    post: Http,
    m0: SessionMetrics,
    m1: SessionMetrics,
    r: SessionResult,
) -> bool {
    let p = pre.resp@ + pre.res.back.incoming@;
    if !pre.res.back.readiness.readable {
        &&& r is Continue
        &&& post == pre
        &&& m1 == m0
    } else {
        &&& post.h2_allowed == pre.h2_allowed
        &&& post.req@ == pre.req@
        &&& post.res.stale@ == pre.res.stale@
        &&& post.res.timeouts == pre.res.timeouts
        &&& post.res.back.token == pre.res.back.token
        &&& post.res.back.incoming@ == Seq::<u8>::empty()
        &&& post.res.back.outgoing@ == pre.res.back.outgoing@
        &&& post.res.back.registered == pre.res.back.registered
        &&& post.res.back.readiness == (Ready { readable: false, ..pre.res.back.readiness })
        &&& post.res.front.token == pre.res.front.token
        &&& post.res.front.readiness == pre.res.front.readiness
        &&& post.res.front.incoming@ == pre.res.front.incoming@
        &&& post.res.front.registered == pre.res.front.registered
        &&& if has_head_end(p) {
            if is_switch_response(p) {
                exists|e: int|
                    {
                        &&& #[trigger] is_first_head_end(p, e)
                        &&& r matches SessionResult::UpgradeTo(k, c) && k == StateKind::Pipe
                            && c@ == p.subrange(e, p.len() as int)
                        &&& post.res.front.outgoing@ == pre.res.front.outgoing@ + p.subrange(0, e)
                        &&& post.resp@ == Seq::<u8>::empty()
                        &&& post.phase is Response
                        &&& m1 == (SessionMetrics {
                            bytes_in: sat_add(m0.bytes_in, pre.res.back.incoming@.len() as u64),
                            bytes_out: sat_add(m0.bytes_out, e as u64),
                            ..m0
                        })
                    }
            } else {
                &&& r is Continue
                &&& post.phase is Flushed
                &&& post.resp@ == Seq::<u8>::empty()
                &&& post.res.front.outgoing@ == pre.res.front.outgoing@ + p
                &&& m1 == (SessionMetrics {
                    bytes_in: sat_add(m0.bytes_in, pre.res.back.incoming@.len() as u64),
                    bytes_out: sat_add(m0.bytes_out, p.len() as u64),
                    ..m0
                })
            }
        } else {
            &&& r is Continue
            &&& post.phase is Response
            &&& post.resp@ == p
            &&& post.res.front.outgoing@ == pre.res.front.outgoing@
            &&& m1 == (SessionMetrics {
                bytes_in: sat_add(m0.bytes_in, pre.res.back.incoming@.len() as u64),
                ..m0
            })
        }
    }
}

/// Exactly what one `ready` call on the HTTP variant does.
pub open spec fn http_ready_rel(
    pre: Http,
    post: Http,
    m0: SessionMetrics,
    m1: SessionMetrics,
    r: SessionResult,
) -> bool {
    if pre.res.front.readiness.is_broken() || pre.res.back.readiness.is_broken() {
        &&& r is CloseSession
        &&& post == pre
        &&& m1 == m0
    } else {
        match pre.phase {
            HttpPhase::Request => http_request_rel(pre, post, m0, m1, r),
            HttpPhase::Response => http_response_rel(pre, post, m0, m1, r),
            HttpPhase::Flushed => r is CloseSession && post == pre && m1 == m0,
        }
    }
}

impl Http {
    /// The variant's own consistency.
    pub open spec fn wf(self) -> bool {
        self.res.wf()
    }

    /// Response data is in flight to the client: it would be truncated if
    /// the session closed now.
    pub open spec fn in_flight(self) -> bool {
        self.phase is Response
    }

    /// What `shutting_down` answers: the session may close right away
    /// unless a response is in flight.
    pub open spec fn shutting_down_spec(self) -> bool {
        !self.in_flight()
    }

    /// A fresh HTTP exchange over the given resources, with `replay`
    /// bytes — carried over from an earlier phase — already in the
    /// request buffer.
    pub fn new(res: Resources, replay: Vec<u8>, h2_allowed: bool) -> (h: Http)
        ensures
            h.res == res,
            h.req == replay,
            h.resp@ == Seq::<u8>::empty(),
            h.phase is Request,
            h.h2_allowed == h2_allowed,
    {
        Http { res, req: replay, resp: Vec::new(), phase: HttpPhase::Request, h2_allowed }
    }

    /// Drive the exchange: drain whichever peer the phase reads from,
    /// forward a completed head, and report the upgrade or close the
    /// phase calls for.
    pub fn ready(&mut self, metrics: &mut SessionMetrics) -> (r: SessionResult)
        ensures
            http_ready_rel(*old(self), *final(self), *old(metrics), *final(metrics), r),
    {
        if self.res.front.readiness.error || self.res.front.readiness.hangup
            || self.res.back.readiness.error || self.res.back.readiness.hangup {
            return SessionResult::CloseSession;
        }
        match self.phase {
            HttpPhase::Request => {
                if !self.res.front.readiness.readable {
                    return SessionResult::Continue;
                }
                let mut data = self.res.front.read_all();
                let n = data.len();
                metrics.add_in(n as u64);
                self.req.append(&mut data);
                proof {
                    assert(self.req@ =~= old(self).req@ + old(self).res.front.incoming@);
                }
                if starts_with_h2_preface(&self.req) {
                    if self.h2_allowed {
                        let carry = self.req.split_off(0);
                        proof {
                            assert(self.req@ =~= Seq::<u8>::empty());
                            assert(carry@ =~= old(self).req@ + old(self).res.front.incoming@);
                        }
                        return SessionResult::UpgradeTo(StateKind::H2, carry);
                    } else {
                        return SessionResult::CloseSession;
                    }
                }
                match find_head_end(&self.req) {
                    Some(_end) => {
                        let m = self.req.len();
                        let message = self.req.split_off(0);
                        proof {
                            assert(self.req@ =~= Seq::<u8>::empty());
                            assert(message@ =~= old(self).req@ + old(self).res.front.incoming@);
                        }
                        self.res.back.send(message);
                        metrics.add_out(m as u64);
                        self.phase = HttpPhase::Response;
                        SessionResult::Continue
                    },
                    None => SessionResult::Continue,
                }
            },
            HttpPhase::Response => {
                if !self.res.back.readiness.readable {
                    return SessionResult::Continue;
                }
                let mut data = self.res.back.read_all();
                let n = data.len();
                metrics.add_in(n as u64);
                self.resp.append(&mut data);
                proof {
                    assert(self.resp@ =~= old(self).resp@ + old(self).res.back.incoming@);
                }
                match find_head_end(&self.resp) {
                    Some(end) => {
                        if starts_with_switch(&self.resp) {
                            let ghost p = old(self).resp@ + old(self).res.back.incoming@;
                            let ghost e = end as int;
                            let carry = self.resp.split_off(end);
                            let head = self.resp.split_off(0);
                            let m = head.len();
                            proof {
                                assert(self.resp@ =~= Seq::<u8>::empty());
                                assert(head@ =~= p.subrange(0, e));
                                assert(carry@ =~= p.subrange(e, p.len() as int));
                            }
                            self.res.front.send(head);
                            metrics.add_out(m as u64);
                            return SessionResult::UpgradeTo(StateKind::Pipe, carry);
                        } else {
                            let m = self.resp.len();
                            let whole = self.resp.split_off(0);
                            proof {
                                assert(self.resp@ =~= Seq::<u8>::empty());
                                assert(whole@ =~= old(self).resp@ + old(self).res.back.incoming@);
                            }
                            self.res.front.send(whole);
                            metrics.add_out(m as u64);
                            self.phase = HttpPhase::Flushed;
                            SessionResult::Continue
                        }
                    },
                    None => SessionResult::Continue,
                }
            },
            HttpPhase::Flushed => SessionResult::CloseSession,
        }
    }

    /// Record a process-wide shutdown request. The answer says whether
    /// the session may be closed right away; it stays `false` while a
    /// response is in flight, so that a graceful shutdown never truncates
    /// an in-progress response.
    pub fn shutting_down(&mut self) -> (b: bool)
        ensures
            *final(self) == *old(self),
            b == old(self).shutting_down_spec(),
    {
        match self.phase {
            HttpPhase::Response => false,
            _ => true,
        }
    }
}

/// Drain before close: while a response is in flight and neither peer
/// has failed, `ready` never decides to close the session; and once it
/// reports the response fully flushed, `shutting_down` answers `true`,
/// so a pending graceful shutdown may proceed only after the response
/// went out in full.
pub proof fn lemma_drain_before_close(
    pre: Http,
    post: Http,
    m0: SessionMetrics,
    m1: SessionMetrics,
    r: SessionResult,
)
    requires
        http_ready_rel(pre, post, m0, m1, r),
        pre.in_flight(),
        !pre.res.front.readiness.is_broken(),
        !pre.res.back.readiness.is_broken(),
    ensures
        !(r is CloseSession),
        post.phase is Flushed ==> post.shutting_down_spec(),
        !(post.phase is Flushed) ==> post.in_flight(),
{
}

} // verus!
