//! Readiness and timeout bookkeeping shared by every protocol variant.
//!
//! A variant owns the frontend socket, one backend socket, the timers it
//! has outstanding, and a log of readiness updates delivered for tokens
//! it does not recognize (for instance a backend token registered by a
//! now-superseded variant whose deregistration lagged). Unrecognized
//! updates are retained but act on nothing until the token is
//! deregistered.

use vstd::prelude::*;

use crate::metrics::sat_add;
use crate::metrics::SessionMetrics;
use crate::outcome::StateResult;
use crate::ready::Ready;
use crate::ready::Token;
use crate::ready::TokenReady;
use crate::socket::Socket;

verus! {

/// The timers a variant has outstanding: a frontend timeout and
/// optionally a backend timeout. `None` means cancelled or never armed.
#[derive(Clone, Copy, PartialEq, Eq, Structural, Debug)]
pub struct Timeouts {
    pub front: Option<Token>,
    pub back: Option<Token>,
}

impl Timeouts {
    /// No timer outstanding.
    pub open spec fn none_spec() -> Timeouts {
        Timeouts { front: None, back: None }
    }

    /// Whether `token` identifies a timer this variant still owns.
    pub open spec fn owns(self, token: Token) -> bool {
        self.front == Some(token) || self.back == Some(token)
    }
}

/// Readiness retained for unrecognized tokens: the union of every event
/// set logged for `token`.
pub open spec fn logged(s: Seq<TokenReady>, token: Token) -> Ready
    decreases s.len(),
{
    if s.len() == 0 {
        Ready::none_spec()
    } else if s.last().token == token {
        logged(s.drop_last(), token).union_spec(s.last().events)
    } else {
        logged(s.drop_last(), token)
    }
}

/// The I/O resources one protocol variant owns.
#[derive(Debug)]
pub struct Resources {
    /// The client-facing socket; its token is stable for the whole session.
    pub front: Socket,
    /// The backend socket associated with the session.
    pub back: Socket,
    /// Readiness updates retained for tokens no current resource claims.
    pub stale: Vec<TokenReady>,
    /// Outstanding timers.
    pub timeouts: Timeouts,
}

impl Resources {
    /// Basic consistency: distinct socket tokens, and both sockets are
    /// registered and deregistered together.
    pub open spec fn wf(self) -> bool {
        &&& self.front.token != self.back.token
        &&& self.front.registered == self.back.registered
    }

    /// The readiness tracked for `token`: the merged view for an owned
    /// socket, or the retained union for an unrecognized token.
    pub open spec fn tracked_readiness(self, token: Token) -> Ready {
        if token == self.front.token {
            self.front.readiness
        } else if token == self.back.token {
            self.back.readiness
        } else {
            logged(self.stale@, token)
        }
    }

    /// Everything except the tracked readiness (and the retained log) is
    /// the same in `a` and `b`.
    pub open spec fn eq_except_tracking(a: Resources, b: Resources) -> bool {
        &&& b.front.token == a.front.token
        &&& b.front.incoming@ == a.front.incoming@
        &&& b.front.outgoing@ == a.front.outgoing@
        &&& b.front.registered == a.front.registered
        &&& b.back.token == a.back.token
        &&& b.back.incoming@ == a.back.incoming@
        &&& b.back.outgoing@ == a.back.outgoing@
        &&& b.back.registered == a.back.registered
        &&& b.timeouts == a.timeouts
    }

    /// What one `close` call does: the first call deregisters both
    /// sockets, cancels the timers and reports the close once; any later
    /// call changes nothing.
    pub open spec fn close_rel(
        pre: Resources,
        post: Resources,
        m0: SessionMetrics,
        m1: SessionMetrics,
    ) -> bool {
        if pre.front.registered {
            &&& post == (Resources {
                front: Socket { registered: false, ..pre.front },
                back: Socket { registered: false, ..pre.back },
                timeouts: Timeouts::none_spec(),
                ..pre
            })
            &&& m1 == (SessionMetrics {
                close_reports: sat_add(m0.close_reports, 1),
                ..m0
            })
        } else {
            &&& post == pre
            &&& m1 == m0
        }
    }

    /// Merge delivered events into the readiness tracked for `token`.
    /// An unrecognized token's events are retained in the log.
    pub fn update_readiness(&mut self, token: Token, events: Ready)
        requires
            old(self).wf(),
        ensures
            forall|t: Token|
                #[trigger] final(self).tracked_readiness(t) == if t == token {
                    old(self).tracked_readiness(t).union_spec(events)
                } else {
                    old(self).tracked_readiness(t)
                },
            Resources::eq_except_tracking(*old(self), *final(self)),
            token != old(self).front.token && token != old(self).back.token
                ==> final(self).front.readiness == old(self).front.readiness
                    && final(self).back.readiness == old(self).back.readiness,
            token == old(self).front.token
                ==> final(self).stale@ == old(self).stale@
                    && final(self).back.readiness == old(self).back.readiness,
            token == old(self).back.token
                ==> final(self).stale@ == old(self).stale@
                    && final(self).front.readiness == old(self).front.readiness,
    {
        if token == self.front.token {
            self.front.readiness.merge(events);
        } else if token == self.back.token {
            self.back.readiness.merge(events);
        } else {
            let entry = TokenReady { token, events };
            self.stale.push(entry);
            proof {
                assert(self.stale@.drop_last() =~= old(self).stale@);
            }
        }
    }

    /// Handle a fired timer. A token that no longer identifies an
    /// outstanding timer of this variant is stale — a cancellation racing
    /// the firing — and is ignored; a meaningful one closes the session
    /// and is disarmed (it has fired and will not fire again).
    pub fn timeout(&mut self, token: Token, metrics: &mut SessionMetrics) -> (r: StateResult)
        ensures
            !old(self).timeouts.owns(token)
                ==> r == StateResult::Continue
                    && *final(self) == *old(self)
                    && *final(metrics) == *old(metrics),
            old(self).timeouts.owns(token) ==> r == StateResult::CloseSession && *final(self) == (
            Resources {
                timeouts: Timeouts {
                    front: if old(self).timeouts.front == Some(token) {
                        None
                    } else {
                        old(self).timeouts.front
                    },
                    back: if old(self).timeouts.back == Some(token) {
                        None
                    } else {
                        old(self).timeouts.back
                    },
                },
                ..*old(self)
            }) && *final(metrics) == (SessionMetrics {
                timeouts_fired: sat_add(old(metrics).timeouts_fired, 1),
                ..*old(metrics)
            }),
    {
        let mut owned = false;
        if self.timeouts.front == Some(token) {
            self.timeouts.front = None;
            owned = true;
        }
        if self.timeouts.back == Some(token) {
            self.timeouts.back = None;
            owned = true;
        }
        if owned {
            metrics.record_timeout();
            StateResult::CloseSession
        } else {
            StateResult::Continue
        }
    }

    /// Cancel every outstanding timer of this variant. Called before the
    /// variant is discarded, on upgrade or close, so that no timer can
    /// fire into a state that no longer exists.
    pub fn cancel_timeouts(&mut self)
        ensures
            *final(self) == (Resources { timeouts: Timeouts::none_spec(), ..*old(self) }),
    {
        self.timeouts = Timeouts { front: None, back: None };
    }

    /// Release the variant's resources: deregister both sockets, cancel
    /// the timers and report the close. Idempotent: a second call changes
    /// nothing and reports nothing.
    pub fn close(&mut self, metrics: &mut SessionMetrics)
        ensures
            Resources::close_rel(*old(self), *final(self), *old(metrics), *final(metrics)),
    {
        if self.front.registered {
            self.front.registered = false;
            self.back.registered = false;
            self.timeouts = Timeouts { front: None, back: None };
            metrics.record_close();
        }
    }

    /// Read-only dump of the token/readiness pairs for the frontend and
    /// the backend, for diagnostics.
    pub fn print_state(&self) -> (r: Vec<TokenReady>)
        ensures
            r@ == seq![
                TokenReady { token: self.front.token, events: self.front.readiness },
                TokenReady { token: self.back.token, events: self.back.readiness },
            ],
    {
        let mut r: Vec<TokenReady> = Vec::new();
        r.push(TokenReady { token: self.front.token, events: self.front.readiness });
        r.push(TokenReady { token: self.back.token, events: self.back.readiness });
        r
    }
}

/// Idempotent close: a second close is a no-op, so closing twice leaves
/// exactly the resource state and metrics of closing once.
pub proof fn lemma_close_idempotent(
    r0: Resources,
    r1: Resources,
    r2: Resources,
    m0: SessionMetrics,
    m1: SessionMetrics,
    m2: SessionMetrics,
)
    requires
        Resources::close_rel(r0, r1, m0, m1),
        Resources::close_rel(r1, r2, m1, m2),
    ensures
        r2 == r1,
        m2 == m1,
{
}

} // verus!
