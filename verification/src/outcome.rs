//! Protocol phases and the outcomes a session state can report.
//!
//! A connection passes through protocol phases in a fixed order:
//! `SendProxyProtocol`, then `TlsHandshake`, then `Http`, then either
//! `H2` or `Pipe`. A phase ends by returning `UpgradeTo`; there is no way
//! to request a backward transition, which `forward_transition` makes a
//! checkable statement.

use vstd::prelude::*;

verus! {

/// Tag of one protocol-engine variant. The order of the tags is the
/// phase order of the session lifecycle.
#[derive(Clone, Copy, PartialEq, Eq, Structural, Debug)]
pub enum StateKind {
    SendProxyProtocol,
    TlsHandshake,
    Http,
    H2,
    Pipe,
}

impl StateKind {
    /// Position of the tag in the fixed phase order
    /// `SendProxyProtocol < TlsHandshake < Http < {H2, Pipe}`.
    /// `H2` and `Pipe` are both terminal and share the last position.
    pub open spec fn rank(self) -> int {
        match self {
            StateKind::SendProxyProtocol => 0,
            StateKind::TlsHandshake => 1,
            StateKind::Http => 2,
            StateKind::H2 => 3,
            StateKind::Pipe => 3,
        }
    }
}

/// A transition may only move strictly forward in the phase order.
pub open spec fn forward_transition(from: StateKind, to: StateKind) -> bool {
    from.rank() < to.rank()
}

/// Outcome of a `ready` call: keep going, close the session, or replace
/// the active variant with the selected one, replaying the carried-over
/// bytes into its input.
#[derive(Debug)]
pub enum SessionResult {
    Continue,
    CloseSession,
    UpgradeTo(StateKind, Vec<u8>),
}

/// Outcome of a `timeout` call. A timeout can never request a protocol
/// upgrade, so this is narrower than `SessionResult`.
#[derive(Clone, Copy, PartialEq, Eq, Structural, Debug)]
pub enum StateResult {
    Continue,
    CloseSession,
}

/// Ranks never decrease between any two points of a trace whose adjacent
/// steps never decrease, stated from `i` to `j`.
proof fn lemma_rank_mono_step(trace: Seq<StateKind>, i: int, j: int)
    requires
        forall|k: int| 0 <= k < trace.len() - 1 ==> #[trigger] trace[k].rank() <= trace[k + 1].rank(),
        0 <= i <= j < trace.len(),
    ensures
        trace[i].rank() <= trace[j].rank(),
    decreases j - i,
{
    if i < j {
        lemma_rank_mono_step(trace, i, j - 1);
        assert(trace[j - 1].rank() <= trace[j].rank());
    }
}

/// No backward transition: for any sequence of visited variants in which
/// each step moves forward (or stays) in the phase order, the whole
/// sequence is non-decreasing in that order.
pub proof fn lemma_no_backward_transition(trace: Seq<StateKind>)
    requires
        forall|k: int| 0 <= k < trace.len() - 1 ==> #[trigger] trace[k].rank() <= trace[k + 1].rank(),
    ensures
        forall|i: int, j: int|
            0 <= i <= j < trace.len() ==> #[trigger] trace[i].rank() <= #[trigger] trace[j].rank(),
{
    assert forall|i: int, j: int|
        0 <= i <= j < trace.len() implies trace[i].rank() <= trace[j].rank() by {
        lemma_rank_mono_step(trace, i, j);
    }
}

} // verus!
