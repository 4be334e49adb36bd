//! Model of one registered non-blocking socket.
//!
//! The event loop owns the real file descriptor; the core sees it as a
//! token, the readiness tracked for that token, and two byte queues:
//! `incoming` holds the bytes the kernel has made available to read, and
//! `outgoing` the bytes the session has written, awaiting drain. A
//! non-blocking read takes everything currently available and then
//! consumes the readable bit (the next read would block); a write appends
//! to `outgoing`.

use vstd::prelude::*;

use crate::ready::Ready;
use crate::ready::Token;

verus! {

/// One socket as the session sees it.
#[derive(Debug)]
pub struct Socket {
    /// Token under which the socket is registered with the event loop.
    pub token: Token,
    /// Readiness tracked for the token, merged from delivered events.
    pub readiness: Ready,
    /// Bytes available for non-blocking reads.
    pub incoming: Vec<u8>,
    /// Bytes written by the session, awaiting drain by the event loop.
    pub outgoing: Vec<u8>,
    /// Whether the token is still registered with the event loop.
    pub registered: bool,
}

impl Socket {
    /// A freshly registered socket with no pending bytes or events.
    pub fn new(token: Token) -> (s: Socket)
        ensures
            s.token == token,
            s.readiness == Ready::none_spec(),
            s.incoming@ == Seq::<u8>::empty(),
            s.outgoing@ == Seq::<u8>::empty(),
            s.registered,
    {
        Socket {
            token,
            readiness: Ready::none(),
            incoming: Vec::new(),
            outgoing: Vec::new(),
            registered: true,
        }
    }

    /// Read until the call would block: take every currently available
    /// byte and consume the readable bit.
    pub fn read_all(&mut self) -> (data: Vec<u8>)
        ensures
            data@ == old(self).incoming@,
            final(self).incoming@ == Seq::<u8>::empty(),
            final(self).readiness == (Ready { readable: false, ..old(self).readiness }),
            final(self).token == old(self).token,
            final(self).outgoing@ == old(self).outgoing@,
            final(self).registered == old(self).registered,
    {
        let data = self.incoming.split_off(0);
        self.readiness.consume_readable();
        data
    }

    /// Write `data` to the socket: append it to the outgoing queue.
    pub fn send(&mut self, data: Vec<u8>)
        ensures
            final(self).outgoing@ == old(self).outgoing@ + data@,
            final(self).incoming@ == old(self).incoming@,
            final(self).readiness == old(self).readiness,
            final(self).token == old(self).token,
            final(self).registered == old(self).registered,
    {
        let mut d = data;
        self.outgoing.append(&mut d);
    }
}

/// An independent copy of a byte buffer.
pub fn copy_bytes(v: &Vec<u8>) -> (r: Vec<u8>)
    ensures
        r@ == v@,
{
    let mut r: Vec<u8> = Vec::new();
    let mut i: usize = 0;
    while i < v.len()
        invariant
            i <= v.len(),
            r@ == v@.subrange(0, i as int),
        decreases v.len() - i,
    {
        r.push(v[i]);
        i = i + 1;
    }
    assert(v@.subrange(0, v@.len() as int) == v@);
    r
}

} // verus!
