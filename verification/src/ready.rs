//! Tokens and readiness bitsets.
//!
//! The event loop identifies every registered I/O resource or timer by a
//! `Token` and reports which operations are currently possible on it as a
//! `Ready` bitset. Several wakeups may each report a partial event set
//! before the session consumes them, so incoming sets are always *merged*
//! (bitwise union) into the tracked view, never overwritten.

use vstd::prelude::*;

verus! {

/// Process-unique identifier for one I/O resource or timer registered
/// with the event loop. Sessions hold copies; the event loop allocates
/// them and reuses a value only after explicit deregistration.
#[derive(Clone, Copy, PartialEq, Eq, Structural, Debug)]
pub struct Token(pub usize);

/// Readiness bitset for one token: which operations the event loop has
/// observed to be currently possible.
#[derive(Clone, Copy, PartialEq, Eq, Structural, Debug)]
pub struct Ready {
    pub readable: bool,
    pub writable: bool,
    pub error: bool,
    pub hangup: bool,
}

/// One retained readiness update: a token together with the events
/// observed for it.
#[derive(Clone, Copy, PartialEq, Eq, Structural, Debug)]
pub struct TokenReady {
    pub token: Token,
    pub events: Ready,
}

impl Ready {
    /// The empty event set.
    pub open spec fn none_spec() -> Ready {
        Ready { readable: false, writable: false, error: false, hangup: false }
    }

    /// Bitwise union of two event sets.
    pub open spec fn union_spec(self, other: Ready) -> Ready {
        Ready {
            readable: self.readable || other.readable,
            writable: self.writable || other.writable,
            error: self.error || other.error,
            hangup: self.hangup || other.hangup,
        }
    }

    /// Every bit set in `self` is also set in `other`.
    pub open spec fn le(self, other: Ready) -> bool {
        &&& self.readable ==> other.readable
        &&& self.writable ==> other.writable
        &&& self.error ==> other.error
        &&& self.hangup ==> other.hangup
    }

    /// The peer reported an error or hung up: no further progress is
    /// possible on this resource.
    pub open spec fn is_broken(self) -> bool {
        self.error || self.hangup
    }

    /// The empty event set.
    pub fn none() -> (r: Ready)
        ensures
            r == Ready::none_spec(),
    {
        Ready { readable: false, writable: false, error: false, hangup: false }
    }

    /// Merge newly observed events into this set (bitwise union).
    pub fn merge(&mut self, events: Ready)
        ensures
            *final(self) == old(self).union_spec(events),
    {
        self.readable = self.readable || events.readable;
        self.writable = self.writable || events.writable;
        self.error = self.error || events.error;
        self.hangup = self.hangup || events.hangup;
    }

    /// Consume the readable bit: a non-blocking read has drained all
    /// currently available input, so readability is no longer known.
    pub fn consume_readable(&mut self)
        ensures
            *final(self) == (Ready { readable: false, ..*old(self) }),
    {
        self.readable = false;
    }
}

/// Union of a whole sequence of event sets, empty when the sequence is.
pub open spec fn union_all(s: Seq<Ready>) -> Ready
    decreases s.len(),
{
    if s.len() == 0 {
        Ready::none_spec()
    } else {
        union_all(s.drop_last()).union_spec(s.last())
    }
}

/// The tracked readiness after merging, one by one, every event set of
/// `s` into an initial view `r0`.
pub open spec fn fold_merge(r0: Ready, s: Seq<Ready>) -> Ready
    decreases s.len(),
{
    if s.len() == 0 {
        r0
    } else {
        fold_merge(r0, s.drop_last()).union_spec(s.last())
    }
}

/// The union keeps every bit of both arguments.
pub proof fn lemma_union_monotone(a: Ready, b: Ready)
    ensures
        a.le(a.union_spec(b)),
        b.le(a.union_spec(b)),
{
}

/// The union is associative.
pub proof fn lemma_union_assoc(a: Ready, b: Ready, c: Ready)
    ensures
        a.union_spec(b).union_spec(c) == a.union_spec(b.union_spec(c)),
{
}

/// Readiness merging is monotone over whole call sequences: merging the
/// event sets `s` one by one into an initial view `r0` yields exactly the
/// union of `r0` with the union of all of `s`; in particular no
/// previously observed bit is ever lost.
pub proof fn lemma_fold_merge_is_union(r0: Ready, s: Seq<Ready>)
    ensures
        fold_merge(r0, s) == r0.union_spec(union_all(s)),
        r0.le(fold_merge(r0, s)),
    decreases s.len(),
{
    if s.len() == 0 {
    } else {
        lemma_fold_merge_is_union(r0, s.drop_last());
        lemma_union_assoc(r0, union_all(s.drop_last()), s.last());
    }
}

} // verus!
