//! The session state machine: one tagged union over the protocol-engine
//! variants, a uniform contract over it, and the forward-only transition
//! rules that replace the active variant.
//!
//! Every transition, in order: cancels the outgoing variant's timers,
//! keeps the sockets and retained readiness (the frontend socket is never
//! re-created by a transition), arms a freshly allocated frontend timer,
//! constructs the incoming variant with the carried-over bytes in its
//! input, and immediately calls `ready` on it, since the carried-over
//! bytes may already allow progress without a new wakeup.

use vstd::prelude::*;

use crate::h2::h2_ready_rel;
use crate::h2::H2;
use crate::http::http_ready_rel;
use crate::http::Http;
use crate::metrics::sat_add;
use crate::metrics::SessionMetrics;
use crate::outcome::forward_transition;
use crate::outcome::SessionResult;
use crate::outcome::StateKind;
use crate::outcome::StateResult;
use crate::pipe::pipe_ready_rel;
use crate::pipe::Pipe;
use crate::proxy_protocol::send_proxy_ready_rel;
use crate::proxy_protocol::SendProxyProtocol;
use crate::ready::Ready;
use crate::ready::Token;
use crate::ready::TokenReady;
use crate::resources::Resources;
use crate::resources::Timeouts;
use crate::socket::copy_bytes;
use crate::socket::Socket;
use crate::tls::tls_ready_rel;
use crate::tls::TlsHandshake;

verus! {

/// Model of the event loop's registration: it hands out tokens in
/// allocation order and reuses a value only after deregistration, so a
/// newly allocated token differs from every token handed out before.
#[derive(Clone, Copy, PartialEq, Eq, Structural, Debug)]
pub struct TokenSource {
    /// The value the next registration will receive.
    pub next: usize,
}

impl TokenSource {
    /// A source that has handed out nothing yet.
    pub fn new() -> (s: TokenSource)
        ensures
            s.next == 0,
    {
        TokenSource { next: 0 }
    }

    /// Allocate a fresh token.
    pub fn fresh_token(&mut self) -> (t: Token)
        requires
            old(self).next < usize::MAX,
        ensures
            t == Token(old(self).next),
            final(self).next == old(self).next + 1,
    {
        let t = Token(self.next);
        self.next = self.next + 1;
        t
    }
}

/// What the listener configuration decides about one session: which
/// phases it traverses and what the engines at the boundary expect.
#[derive(Debug)]
pub struct SessionConfig {
    /// Whether a PROXY-protocol preamble is written to the backend first.
    pub send_proxy: bool,
    /// The preamble itself.
    pub proxy_header: Vec<u8>,
    /// Whether the listener terminates TLS.
    pub tls: bool,
    /// The byte sequence the handshake engine expects from the client.
    pub transcript: Vec<u8>,
    /// Whether protocol negotiation selected HTTP/2 for after the
    /// handshake.
    pub alpn_h2: bool,
    /// Whether an in-place upgrade to HTTP/2 on a connection preface is
    /// permitted.
    pub h2_allowed: bool,
}

impl SessionConfig {
    /// The phase a fresh session starts in.
    pub open spec fn start_kind(self) -> StateKind {
        if self.send_proxy {
            StateKind::SendProxyProtocol
        } else if self.tls {
            StateKind::TlsHandshake
        } else {
            StateKind::Http
        }
    }

    /// The phase after the preamble is written.
    pub open spec fn spp_next(self) -> StateKind {
        if self.tls {
            StateKind::TlsHandshake
        } else {
            StateKind::Http
        }
    }

    /// The phase protocol negotiation selected for after the handshake.
    pub open spec fn tls_next(self) -> StateKind {
        if self.alpn_h2 {
            StateKind::H2
        } else {
            StateKind::Http
        }
    }
}

/// The active protocol-engine variant of one session: a closed tagged
/// union, so the set of phases and their order are fixed.
#[derive(Debug)]
pub enum SessionState {
    SendProxyProtocol(SendProxyProtocol),
    TlsHandshake(TlsHandshake),
    Http(Http),
    H2(H2),
    Pipe(Pipe),
}

/// Exactly what one `ready` call on the active variant does: the
/// per-variant relation of whichever variant is active, which never
/// changes across the call.
pub open spec fn ready_step_rel(
    pre: SessionState,
    post: SessionState,
    m0: SessionMetrics,
    m1: SessionMetrics,
    r: SessionResult,
) -> bool {
    match (pre, post) {
        (SessionState::SendProxyProtocol(a), SessionState::SendProxyProtocol(b)) =>
            send_proxy_ready_rel(a, b, m0, m1, r),
        (SessionState::TlsHandshake(a), SessionState::TlsHandshake(b)) => tls_ready_rel(
            a,
            b,
            m0,
            m1,
            r,
        ),
        (SessionState::Http(a), SessionState::Http(b)) => http_ready_rel(a, b, m0, m1, r),
        (SessionState::H2(a), SessionState::H2(b)) => h2_ready_rel(a, b, m0, m1, r),
        (SessionState::Pipe(a), SessionState::Pipe(b)) => pipe_ready_rel(a, b, m0, m1, r),
        _ => false,
    }
}

impl SessionState {
    /// The tag of the active variant.
    pub open spec fn kind(self) -> StateKind {
        match self {
            SessionState::SendProxyProtocol(_) => StateKind::SendProxyProtocol,
            SessionState::TlsHandshake(_) => StateKind::TlsHandshake,
            SessionState::Http(_) => StateKind::Http,
            SessionState::H2(_) => StateKind::H2,
            SessionState::Pipe(_) => StateKind::Pipe,
        }
    }

    /// The resources the active variant owns.
    pub open spec fn res(self) -> Resources {
        match self {
            SessionState::SendProxyProtocol(s) => s.res,
            SessionState::TlsHandshake(s) => s.res,
            SessionState::Http(s) => s.res,
            SessionState::H2(s) => s.res,
            SessionState::Pipe(s) => s.res,
        }
    }

    /// Consistency of the active variant.
    pub open spec fn wf(self) -> bool {
        match self {
            SessionState::SendProxyProtocol(s) => s.wf(),
            SessionState::TlsHandshake(s) => s.wf(),
            SessionState::Http(s) => s.wf(),
            SessionState::H2(s) => s.wf(),
            SessionState::Pipe(s) => s.wf(),
        }
    }

    /// The variant's own data — everything outside its resources — is
    /// the same in `a` and `b`.
    pub open spec fn payload_eq(a: SessionState, b: SessionState) -> bool {
        match (a, b) {
            (SessionState::SendProxyProtocol(x), SessionState::SendProxyProtocol(y)) => {
                &&& y.pending@ == x.pending@
                &&& y.next == x.next
            },
            (SessionState::TlsHandshake(x), SessionState::TlsHandshake(y)) => {
                &&& y.expected@ == x.expected@
                &&& y.next == x.next
            },
            (SessionState::Http(x), SessionState::Http(y)) => {
                &&& y.req@ == x.req@
                &&& y.resp@ == x.resp@
                &&& y.phase == x.phase
                &&& y.h2_allowed == x.h2_allowed
            },
            (SessionState::H2(x), SessionState::H2(y)) => {
                &&& y.front_frames@ == x.front_frames@
                &&& y.back_frames@ == x.back_frames@
            },
            (SessionState::Pipe(x), SessionState::Pipe(y)) => y.carry@ == x.carry@,
            _ => false,
        }
    }

    /// Whether `token` identifies a timer the active variant still owns.
    pub open spec fn owns_timeout(self, token: Token) -> bool {
        self.res().timeouts.owns(token)
    }

    /// Every timer token the active variant owns was allocated before
    /// `n`.
    pub open spec fn timeouts_below(self, n: int) -> bool {
        &&& (self.res().timeouts.front matches Some(t) ==> t.0 < n)
        &&& (self.res().timeouts.back matches Some(t) ==> t.0 < n)
    }

    /// What `shutting_down` answers for the active variant.
    pub open spec fn shutting_down_spec(self) -> bool {
        match self {
            SessionState::Http(h) => h.shutting_down_spec(),
            _ => true,
        }
    }

    /// Drive the active variant. The per-variant relation states exactly
    /// what happened; across all variants, the variant tag is unchanged,
    /// an upgrade request only ever moves forward in the phase order, and
    /// the variant never touches its timers.
    pub fn ready(&mut self, metrics: &mut SessionMetrics) -> (r: SessionResult)
        requires
            old(self).wf(),
        ensures
            final(self).wf(),
            final(self).kind() == old(self).kind(),
            final(self).res().timeouts == old(self).res().timeouts,
            final(self).res().front.token == old(self).res().front.token,
            final(self).res().back.token == old(self).res().back.token,
            final(self).res().front.registered == old(self).res().front.registered,
            final(self).res().back.registered == old(self).res().back.registered,
            final(self).res().stale@ == old(self).res().stale@,
            old(metrics).le(*final(metrics)),
            final(metrics).close_reports == old(metrics).close_reports,
            final(metrics).timeouts_fired == old(metrics).timeouts_fired,
            r matches SessionResult::UpgradeTo(k, c) ==> forward_transition(
                old(self).kind(),
                k,
            ) && (k is TlsHandshake ==> c@.len() == 0),
            ready_step_rel(*old(self), *final(self), *old(metrics), *final(metrics), r),
    {
        match self {
            SessionState::SendProxyProtocol(s) => s.ready(metrics),
            SessionState::TlsHandshake(s) => s.ready(metrics),
            SessionState::Http(s) => s.ready(metrics),
            SessionState::H2(s) => s.ready(metrics),
            SessionState::Pipe(s) => s.ready(metrics),
        }
    }

    /// Merge delivered events into the readiness tracked for `token`,
    /// whichever variant is active; an unrecognized token's events are
    /// retained.
    pub fn update_readiness(&mut self, token: Token, events: Ready)
        requires
            old(self).wf(),
        ensures
            final(self).wf(),
            final(self).kind() == old(self).kind(),
            SessionState::payload_eq(*old(self), *final(self)),
            Resources::eq_except_tracking(old(self).res(), final(self).res()),
            forall|t: Token|
                #[trigger] final(self).res().tracked_readiness(t) == if t == token {
                    old(self).res().tracked_readiness(t).union_spec(events)
                } else {
                    old(self).res().tracked_readiness(t)
                },
    {
        match self {
            SessionState::SendProxyProtocol(s) => s.res.update_readiness(token, events),
            SessionState::TlsHandshake(s) => s.res.update_readiness(token, events),
            SessionState::Http(s) => s.res.update_readiness(token, events),
            SessionState::H2(s) => s.res.update_readiness(token, events),
            SessionState::Pipe(s) => s.res.update_readiness(token, events),
        }
    }

    /// Handle a fired timer: stale tokens — cancelled or superseded — are
    /// ignored and change nothing; a meaningful one closes the session.
    pub fn timeout(&mut self, token: Token, metrics: &mut SessionMetrics) -> (r: StateResult)
        ensures
            final(self).kind() == old(self).kind(),
            SessionState::payload_eq(*old(self), *final(self)),
            !old(self).owns_timeout(token) ==> r == StateResult::Continue && *final(self) == *old(
                self,
            ) && *final(metrics) == *old(metrics),
            old(self).owns_timeout(token) ==> r == StateResult::CloseSession && final(self).res()
                == (Resources {
                timeouts: Timeouts {
                    front: if old(self).res().timeouts.front == Some(token) {
                        None
                    } else {
                        old(self).res().timeouts.front
                    },
                    back: if old(self).res().timeouts.back == Some(token) {
                        None
                    } else {
                        old(self).res().timeouts.back
                    },
                },
                ..old(self).res()
            }) && *final(metrics) == (SessionMetrics {
                timeouts_fired: sat_add(old(metrics).timeouts_fired, 1),
                ..*old(metrics)
            }),
    {
        match self {
            SessionState::SendProxyProtocol(s) => s.res.timeout(token, metrics),
            SessionState::TlsHandshake(s) => s.res.timeout(token, metrics),
            SessionState::Http(s) => s.res.timeout(token, metrics),
            SessionState::H2(s) => s.res.timeout(token, metrics),
            SessionState::Pipe(s) => s.res.timeout(token, metrics),
        }
    }

    /// Cancel every timer the active variant owns. Called before the
    /// variant is discarded, on upgrade or close.
    pub fn cancel_timeouts(&mut self)
        ensures
            final(self).kind() == old(self).kind(),
            SessionState::payload_eq(*old(self), *final(self)),
            final(self).res() == (Resources { timeouts: Timeouts::none_spec(), ..old(self).res() }),
    {
        match self {
            SessionState::SendProxyProtocol(s) => s.res.cancel_timeouts(),
            SessionState::TlsHandshake(s) => s.res.cancel_timeouts(),
            SessionState::Http(s) => s.res.cancel_timeouts(),
            SessionState::H2(s) => s.res.cancel_timeouts(),
            SessionState::Pipe(s) => s.res.cancel_timeouts(),
        }
    }

    /// Release the variant's resources; idempotent.
    pub fn close(&mut self, metrics: &mut SessionMetrics)
        ensures
            final(self).kind() == old(self).kind(),
            SessionState::payload_eq(*old(self), *final(self)),
            Resources::close_rel(
                old(self).res(),
                final(self).res(),
                *old(metrics),
                *final(metrics),
            ),
    {
        match self {
            SessionState::SendProxyProtocol(s) => s.res.close(metrics),
            SessionState::TlsHandshake(s) => s.res.close(metrics),
            SessionState::Http(s) => s.res.close(metrics),
            SessionState::H2(s) => s.res.close(metrics),
            SessionState::Pipe(s) => s.res.close(metrics),
        }
    }

    /// Record a process-wide shutdown request and answer whether the
    /// session may be closed right away. Every variant answers `true`
    /// except an HTTP exchange with a response in flight.
    pub fn shutting_down(&mut self) -> (b: bool)
        ensures
            *final(self) == *old(self),
            b == old(self).shutting_down_spec(),
    {
        match self {
            SessionState::Http(s) => s.shutting_down(),
            _ => true,
        }
    }

    /// Read-only dump of the token/readiness pairs for the frontend and
    /// the backend, for diagnostics.
    pub fn print_state(&self) -> (r: Vec<TokenReady>)
        ensures
            r@ == seq![
                TokenReady {
                    token: self.res().front.token,
                    events: self.res().front.readiness,
                },
                TokenReady { token: self.res().back.token, events: self.res().back.readiness },
            ],
    {
        match self {
            SessionState::SendProxyProtocol(s) => s.res.print_state(),
            SessionState::TlsHandshake(s) => s.res.print_state(),
            SessionState::Http(s) => s.res.print_state(),
            SessionState::H2(s) => s.res.print_state(),
            SessionState::Pipe(s) => s.res.print_state(),
        }
    }
}

/// Replace the outgoing variant with the selected one. In order: the
/// outgoing variant's timers are cancelled, the sockets and retained
/// readiness are handed over whole, a fresh frontend timer is armed, and
/// the carried-over bytes are replayed into the incoming variant's input.
pub fn upgrade_state(
    state: SessionState,
    selector: StateKind,
    carry: Vec<u8>,
    config: &SessionConfig,
    fresh: &mut TokenSource,
) -> (next: SessionState)
    requires
        state.wf(),
        forward_transition(state.kind(), selector),
        selector is TlsHandshake ==> carry@.len() == 0,
        old(fresh).next < usize::MAX,
    ensures
        next.wf(),
        next.kind() == selector,
        next.res().front == state.res().front,
        next.res().back == state.res().back,
        next.res().stale@ == state.res().stale@,
        next.res().timeouts.front == Some(Token(old(fresh).next)),
        next.res().timeouts.back is None,
        final(fresh).next == old(fresh).next + 1,
        next.timeouts_below(final(fresh).next as int),
        selector is TlsHandshake ==> (next matches SessionState::TlsHandshake(t) && t.expected@
            == config.transcript@ && t.next == config.tls_next()),
        selector is Http ==> (next matches SessionState::Http(h) && h.req@ == carry@ && h.resp@
            == Seq::<u8>::empty() && h.phase is Request && h.h2_allowed == config.h2_allowed),
        selector is H2 ==> (next matches SessionState::H2(x) && x.front_frames@ == carry@
            && x.back_frames@ == Seq::<u8>::empty()),
        selector is Pipe ==> (next matches SessionState::Pipe(p) && p.carry@ == carry@),
{
    let mut res = match state {
        SessionState::SendProxyProtocol(s) => s.res,
        SessionState::TlsHandshake(s) => s.res,
        SessionState::Http(s) => s.res,
        SessionState::H2(s) => s.res,
        SessionState::Pipe(s) => s.res,
    };
    res.cancel_timeouts();
    res.timeouts.front = Some(fresh.fresh_token());
    match selector {
        StateKind::TlsHandshake => SessionState::TlsHandshake(
            TlsHandshake {
                res,
                expected: copy_bytes(&config.transcript),
                next: if config.alpn_h2 {
                    StateKind::H2
                } else {
                    StateKind::Http
                },
            },
        ),
        StateKind::Http => SessionState::Http(Http::new(res, carry, config.h2_allowed)),
        StateKind::H2 => {
            let back_frames: Vec<u8> = Vec::new();
            proof {
                assert(back_frames@ =~= Seq::<u8>::empty());
            }
            SessionState::H2(H2 { res, front_frames: carry, back_frames })
        },
        // transitions only move forward, so the first phase can never be
        // selected again
        StateKind::Pipe | StateKind::SendProxyProtocol => SessionState::Pipe(Pipe { res, carry }),
    }
}

/// One accepted connection: the active variant, the listener
/// configuration that governs its transitions, and its metrics.
#[derive(Debug)]
pub struct Session {
    pub state: SessionState,
    pub config: SessionConfig,
    pub metrics: SessionMetrics,
}

impl Session {
    /// Consistency of the whole session.
    pub open spec fn wf(self) -> bool {
        self.state.wf()
    }

    /// A fresh session over an accepted frontend socket and its backend
    /// socket, starting in the phase the listener configuration calls
    /// for, with a frontend timer armed.
    pub fn new(front: Socket, back: Socket, config: SessionConfig, fresh: &mut TokenSource) -> (s:
        Session)
        requires
            front.token != back.token,
            front.registered == back.registered,
            old(fresh).next < usize::MAX,
        ensures
            s.wf(),
            s.state.kind() == config.start_kind(),
            s.state.res().front == front,
            s.state.res().back == back,
            s.state.res().stale@ == Seq::<TokenReady>::empty(),
            s.state.res().timeouts.front == Some(Token(old(fresh).next)),
            s.state.res().timeouts.back is None,
            s.state.timeouts_below(final(fresh).next as int),
            final(fresh).next == old(fresh).next + 1,
            s.config == config,
            s.metrics == (SessionMetrics {
                bytes_in: 0,
                bytes_out: 0,
                timeouts_fired: 0,
                close_reports: 0,
            }),
            config.send_proxy ==> (s.state matches SessionState::SendProxyProtocol(p) && p.pending@
                == config.proxy_header@ && p.next == config.spp_next()),
            !config.send_proxy && config.tls ==> (s.state matches SessionState::TlsHandshake(t)
                && t.expected@ == config.transcript@ && t.next == config.tls_next()),
            !config.send_proxy && !config.tls ==> (s.state matches SessionState::Http(h) && h.req@
                == Seq::<u8>::empty() && h.resp@ == Seq::<u8>::empty() && h.phase is Request
                && h.h2_allowed == config.h2_allowed),
    {
        let stale: Vec<TokenReady> = Vec::new();
        proof {
            assert(stale@ =~= Seq::<TokenReady>::empty());
        }
        let res = Resources {
            front,
            back,
            stale,
            timeouts: Timeouts { front: Some(fresh.fresh_token()), back: None },
        };
        let state = if config.send_proxy {
            SessionState::SendProxyProtocol(
                SendProxyProtocol {
                    res,
                    pending: copy_bytes(&config.proxy_header),
                    next: if config.tls {
                        StateKind::TlsHandshake
                    } else {
                        StateKind::Http
                    },
                },
            )
        } else if config.tls {
            SessionState::TlsHandshake(
                TlsHandshake {
                    res,
                    expected: copy_bytes(&config.transcript),
                    next: if config.alpn_h2 {
                        StateKind::H2
                    } else {
                        StateKind::Http
                    },
                },
            )
        } else {
            let replay: Vec<u8> = Vec::new();
            proof {
                assert(replay@ =~= Seq::<u8>::empty());
            }
            SessionState::Http(Http::new(res, replay, config.h2_allowed))
        };
        Session { state, config, metrics: SessionMetrics::new() }
    }

    /// Drive the session after a wakeup: call `ready` on the active
    /// variant, performing every upgrade it requests — each one strictly
    /// forward in the phase order — until the variant reports it can make
    /// no more progress, or close the session if it asks for that. The
    /// returned flag says whether the session was closed.
    pub fn ready(self, fresh: &mut TokenSource) -> (out: (Session, bool))
        requires
            self.wf(),
            old(fresh).next + 3 <= usize::MAX,
        ensures
            out.0.wf(),
            self.state.kind().rank() <= out.0.state.kind().rank(),
            self.metrics.le(out.0.metrics),
            out.0.metrics.timeouts_fired == self.metrics.timeouts_fired,
            out.1 ==> !out.0.state.res().front.registered,
            out.1 && self.state.res().front.registered ==> out.0.metrics.close_reports == sat_add(
                self.metrics.close_reports,
                1,
            ) && out.0.state.res().timeouts == Timeouts::none_spec(),
            !out.1 ==> out.0.state.res().front.registered == self.state.res().front.registered
                && out.0.metrics.close_reports == self.metrics.close_reports,
            old(fresh).next <= final(fresh).next,
            self.state.timeouts_below(old(fresh).next as int) ==> out.0.state.timeouts_below(
                final(fresh).next as int,
            ),
            exists|mid: SessionState, m_mid: SessionMetrics, r: SessionResult|
                {
                    &&& #[trigger] ready_step_rel(self.state, mid, self.metrics, m_mid, r)
                    &&& (r is Continue ==> !out.1 && out.0.state == mid && out.0.metrics == m_mid)
                    &&& (r is CloseSession ==> out.1 && SessionState::payload_eq(mid, out.0.state)
                        && Resources::close_rel(mid.res(), out.0.state.res(), m_mid, out.0.metrics))
                    &&& (r is UpgradeTo ==> self.state.kind().rank() < out.0.state.kind().rank())
                },
    {
        let ghost init_state = self.state;
        let ghost init_metrics = self.metrics;
        let ghost init_fresh = fresh.next;
        let Session { mut state, config, mut metrics } = self;
        let mut closed = false;
        let first = state.ready(&mut metrics);
        let ghost mid_state = state;
        let ghost mid_metrics = metrics;
        let ghost first_r = first;
        match first {
            SessionResult::Continue => {},
            SessionResult::CloseSession => {
                state.close(&mut metrics);
                closed = true;
            },
            SessionResult::UpgradeTo(k, carry) => {
                state = upgrade_state(state, k, carry, &config, fresh);
                loop
                    invariant_except_break
                        metrics.close_reports == init_metrics.close_reports,
                        state.res().front.registered == init_state.res().front.registered,
                        !closed,
                    invariant
                        state.wf(),
                        init_state.kind().rank() < state.kind().rank(),
                        init_metrics.le(metrics),
                        metrics.timeouts_fired == init_metrics.timeouts_fired,
                        fresh.next + 3 - state.kind().rank() <= usize::MAX,
                        init_fresh <= fresh.next,
                        init_state.timeouts_below(init_fresh as int) ==> state.timeouts_below(
                            fresh.next as int,
                        ),
                    ensures
                        state.wf(),
                        init_state.kind().rank() < state.kind().rank(),
                        init_metrics.le(metrics),
                        metrics.timeouts_fired == init_metrics.timeouts_fired,
                        init_fresh <= fresh.next,
                        init_state.timeouts_below(init_fresh as int) ==> state.timeouts_below(
                            fresh.next as int,
                        ),
                        closed ==> !state.res().front.registered,
                        closed && init_state.res().front.registered ==> metrics.close_reports
                            == sat_add(init_metrics.close_reports, 1) && state.res().timeouts
                            == Timeouts::none_spec(),
                        !closed ==> state.res().front.registered == init_state.res(
                        ).front.registered && metrics.close_reports == init_metrics.close_reports,
                    decreases 4 - state.kind().rank(),
                {
                    let r = state.ready(&mut metrics);
                    match r {
                        SessionResult::Continue => {
                            break;
                        },
                        SessionResult::CloseSession => {
                            state.close(&mut metrics);
                            closed = true;
                            break;
                        },
                        SessionResult::UpgradeTo(k, carry) => {
                            state = upgrade_state(state, k, carry, &config, fresh);
                        },
                    }
                }
            },
        }
        proof {
            assert(ready_step_rel(init_state, mid_state, init_metrics, mid_metrics, first_r));
        }
        (Session { state, config, metrics }, closed)
    }
}

/// Idempotent close, on any variant: the second of two `close` calls
/// finds the sockets already deregistered and changes neither the
/// resource state nor the metrics — no double deregistration, no second
/// close report.
pub proof fn lemma_state_close_idempotent(
    s0: SessionState,
    s1: SessionState,
    s2: SessionState,
    m0: SessionMetrics,
    m1: SessionMetrics,
    m2: SessionMetrics,
)
    requires
        Resources::close_rel(s0.res(), s1.res(), m0, m1),
        Resources::close_rel(s1.res(), s2.res(), m1, m2),
    ensures
        s2.res() == s1.res(),
        m2 == m1,
{
    crate::resources::lemma_close_idempotent(s0.res(), s1.res(), s2.res(), m0, m1, m2);
}

/// Stale timeout safety: when a variant's timers were cancelled and its
/// replacement was installed with a freshly allocated timer token, no
/// timer token of the old variant is meaningful to the replacement — so
/// by the contract of `timeout`, a late firing of an old token returns
/// `Continue` and does not change the replacement's state.
pub proof fn lemma_stale_timeout_safety(
    pre: SessionState,
    post: SessionState,
    stale_token: Token,
    n: usize,
)
    requires
        pre.timeouts_below(n as int),
        pre.owns_timeout(stale_token),
        post.res().timeouts.front == Some(Token(n)),
        post.res().timeouts.back is None,
    ensures
        !post.owns_timeout(stale_token),
{
}

} // verus!
