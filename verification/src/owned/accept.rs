//! Multishot accept, which yields connections to own.
//!
//! One submission stays armed and every connection is a completion. A
//! connection is a descriptor of this process, so there is nothing to give
//! back: its owner closes it.
//!
//! The kernel installs a descriptor before it knows whether the request
//! goes on. If it cannot, the terminal completion carries the connection,
//! and [`AcceptFinished`] keeps it.

use super::event::Event;
use super::identity::{RequestId, RingId};
use super::lifecycle::Ticket;
use super::multishot::Armed;
use super::request::Receipt;
use crate::error::Error;
use crate::net::{claimed, Socket};
use crate::op::{blank, IoUringSqe, Sqe};
use crate::ring::Completion;
use crate::types::fd::RawFd;
use crate::types::flags::AcceptFlags;
use vstd::prelude::*;

verus! {

/// A multishot accept: what is asked for.
pub struct AcceptRequest {
    /// The listening socket.
    pub fd: RawFd,
    /// Flags of what is accepted.
    pub flags: AcceptFlags,
}

impl AcceptRequest {
    /// The submission that asks for it.
    pub open spec fn sqe(self) -> Sqe {
        Sqe::accept_multishot(self.fd, self.flags)
    }

    /// The entry accepts, operation 13, on the listener with the flags, and goes on
    /// accepting, option 1. It sets nothing else.
    pub proof fn keeps_accepting(self)
        ensures
            self.sqe().0 == (IoUringSqe {
                opcode: 13,
                ioprio: 1,
                fd: self.fd.as_i32(),
                op_flags: self.flags.0,
                ..blank()
            }),
    {
    }
}

/// A multishot accept that is not queued yet.
#[derive(Clone, Copy, Debug)]
pub struct PreparedAccept {
    fd: RawFd,
    flags: AcceptFlags,
}

impl View for PreparedAccept {
    type V = AcceptRequest;

    closed spec fn view(&self) -> AcceptRequest {
        AcceptRequest { fd: self.fd, flags: self.flags }
    }
}

impl PreparedAccept {
    /// Accept on the listening socket `fd`.
    ///
    /// Peer addresses are not captured: all connections would share one
    /// place for them.
    pub fn on(fd: RawFd, flags: AcceptFlags) -> (r: Self)
        ensures
            r@ == (AcceptRequest { fd, flags }),
    {
        PreparedAccept { fd, flags }
    }

    /// The listening socket.
    pub fn fd(&self) -> (r: RawFd)
        ensures
            r == self@.fd,
    {
        self.fd
    }

    /// Flags of what is accepted.
    pub fn flags(&self) -> (r: AcceptFlags)
        ensures
            r == self@.flags,
    {
        self.flags
    }

    /// Build the submission and move to the armed state.
    pub fn into_pending(self, ring: RingId, id: RequestId) -> (r: (Sqe, MultishotAccept))
        ensures
            r.0 == self@.sqe().user_data(id.raw()),
            r.1@ == (Ticket { ring, id, request: self@.fd }),
    {
        let sqe = Sqe::accept_multishot(self.fd, self.flags);
        (sqe.user_data(id.raw()), MultishotAccept { ring, id, fd: self.fd })
    }
}

/// A submitted multishot accept.
///
/// It owns nothing, but the request outlives it and goes on accepting.
#[derive(Debug)]
pub struct MultishotAccept {
    ring: RingId,
    id: RequestId,
    fd: RawFd,
}

impl View for MultishotAccept {
    type V = Ticket<RawFd>;

    closed spec fn view(&self) -> Ticket<RawFd> {
        Ticket { ring: self.ring, id: self.id, request: self.fd }
    }
}

impl MultishotAccept {
    /// Identity the kernel echoes back in every completion of this request.
    pub fn id(&self) -> (r: RequestId)
        ensures
            r == self@.id,
    {
        self.id
    }

    /// Identity of the queue that accepted this request.
    pub fn ring(&self) -> (r: RingId)
        ensures
            r == self@.ring,
    {
        self.ring
    }

    /// Whether a completion belongs to this request.
    pub fn matches(&self, event: &Event) -> (r: bool)
        ensures
            r == event.belongs_to(self@.ring, self@.id),
    {
        event.belongs_to(self.ring, self.id)
    }

    /// The listening socket.
    pub fn fd(&self) -> (r: RawFd)
        ensures
            r == self@.request,
    {
        self.fd
    }

    /// Interpret a completion of this request.
    ///
    /// # Errors
    ///
    /// Returns the event unchanged if it belongs to another request or
    /// another ring.
    pub fn record(&mut self, event: Event) -> (r: Result<Incoming, Event>)
        ensures
            final(self)@ == old(self)@,
            match r {
                Err(back) => {
                    &&& !event.belongs_to(old(self)@.ring, old(self)@.id)
                    &&& back == event
                },
                Ok(incoming) => {
                    &&& event.belongs_to(old(self)@.ring, old(self)@.id)
                    &&& brought(event, incoming)
                },
            },
    {
        if !self.matches(&event) {
            return Err(event);
        }
        match event {
            Event::Partial(partial) => {
                let raw: i32 = partial.raw_result();
                match Socket::claim(raw) {
                    Some(taken) => Ok(Incoming::Connection(taken)),
                    None => Ok(Incoming::Empty(raw)),
                }
            },
            Event::Complete(receipt) => {
                let last = Socket::claim(receipt.raw_result());
                Ok(Incoming::Done(AcceptFinished { receipt, last }))
            },
        }
    }
}

/// What one completion of a multishot accept brought.
#[derive(Debug)]
pub enum Incoming {
    /// A connection was accepted.
    Connection(Socket),
    /// None was; the raw result says why. The request goes on.
    Empty(i32),
    /// The request is over. It may have brought a last connection.
    Done(AcceptFinished),
}

/// `incoming` is what `event` brings: a result that is not an error is
/// a connection, also when the completion is the last one.
pub open spec fn brought(event: Event, incoming: Incoming) -> bool {
    match event {
        Event::Complete(receipt) => incoming matches Incoming::Done(end) && end.terminal()
            == receipt
            && claimed(receipt.raw_result(), end.left()),
        Event::Partial(partial) => match incoming {
            Incoming::Connection(taken) => claimed(partial.raw_result(), Some(taken)),
            Incoming::Empty(raw) => raw == partial.raw_result() && raw < 0,
            Incoming::Done(_) => false,
        },
    }
}

/// No accepted connection is lost: whatever the completion installed is what
/// is handed on, terminal or not, and nothing else is.
pub proof fn no_connection_is_lost(event: Event, incoming: Incoming)
    requires
        brought(event, incoming),
    ensures
        claimed(event.raw_result(), incoming.carried()),
        incoming.goes_on() is Yes <==> !event.is_terminal(),
{
}

impl Incoming {
    /// Whether the request goes on after this.
    pub open spec fn goes_on(self) -> Armed {
        match self {
            Incoming::Done(_) => Armed::Finished,
            _ => Armed::Yes,
        }
    }

    /// What came with this completion, if anything.
    pub open spec fn carried(self) -> Option<Socket> {
        match self {
            Incoming::Connection(taken) => Some(taken),
            Incoming::Done(end) => end.left(),
            Incoming::Empty(_) => None,
        }
    }

    /// Whether the request goes on after this.
    pub fn armed(&self) -> (r: Armed)
        ensures
            r == self.goes_on(),
    {
        match self {
            Incoming::Done(_) => Armed::Finished,
            _ => Armed::Yes,
        }
    }

    /// Take the connection that came with this completion, if any.
    pub fn into_connection(self) -> (r: Option<Socket>)
        ensures
            r == self.carried(),
    {
        match self {
            Incoming::Connection(taken) => Some(taken),
            Incoming::Done(end) => end.into_parts().1,
            Incoming::Empty(_) => None,
        }
    }
}

/// A multishot accept that the kernel has ended.
#[derive(Debug)]
pub struct AcceptFinished {
    receipt: Receipt,
    last: Option<Socket>,
}

impl AcceptFinished {
    /// The terminal completion.
    pub closed spec fn terminal(self) -> Receipt {
        self.receipt
    }

    /// What came with it.
    pub closed spec fn left(self) -> Option<Socket> {
        self.last
    }

    /// The connection that came with the terminal completion, if any.
    pub fn last(&self) -> (r: Option<&Socket>)
        ensures
            match r {
                Some(x) => self.left() == Some(*x),
                None => self.left() is None,
            },
    {
        self.last.as_ref()
    }

    /// The raw result of the terminal completion.
    pub fn raw_result(&self) -> (r: i32)
        ensures
            r == self.terminal().raw_result(),
    {
        self.receipt.raw_result()
    }

    /// Why the request ended.
    ///
    /// # Errors
    ///
    /// The error number the terminal completion carried.
    pub fn result(&self) -> (r: Result<u32, Error>)
        ensures
            r == Error::count_of(self.terminal().raw_result()),
    {
        Error::count_of(self.receipt.raw_result())
    }

    /// Split into the terminal receipt and the last connection.
    pub fn into_parts(self) -> (r: (Receipt, Option<Socket>))
        ensures
            r == (self.terminal(), self.left()),
    {
        (self.receipt, self.last)
    }
}

/// A completion brings a connection exactly where it reports no error, and it
/// is the one whose descriptor the result is. The request is over exactly where
/// the completion is its last.
pub proof fn connections_follow_the_completion(
    ring: RingId,
    cqe: Completion,
    event: Event,
    incoming: Incoming,
)
    requires
        event.classifies(ring, cqe),
        brought(event, incoming),
    ensures
        incoming is Done <==> cqe.flags.0 & 2u32 != 2u32,
        incoming.carried() is Some <==> cqe.result >= 0,
        incoming.carried() matches Some(socket) ==> socket.descriptor().0 == cqe.result,
        incoming is Connection <==> cqe.flags.0 & 2u32 == 2u32 && cqe.result >= 0,
        incoming matches Incoming::Empty(raw) ==> raw == cqe.result,
        incoming matches Incoming::Done(end) ==> {
            &&& end.terminal().raw_result() == cqe.result
            &&& end.terminal().id().0 == cqe.user_data
        },
        incoming.goes_on().is_armed() <==> cqe.flags.0 & 2u32 == 2u32,
{
}

} // verus!
