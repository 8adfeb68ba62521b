//! An owned socket.
//!
//! Every operation has two halves: one that says what to ask the kernel, and
//! one that interprets the answer.

use crate::error::{Errno, Error};
use crate::syscall::{copied, status, status_of, value, value_of, SystemCall};
use crate::types::abi::{Abi, SockAddrIn};
use crate::types::fd::RawFd;
use crate::types::flags::{AcceptFlags, MsgFlags};
use crate::types::codes::ShutdownHow;
use vstd::prelude::*;

verus! {

/// An owned socket descriptor.
///
/// Whoever holds it is the one to close it.
#[derive(Debug)]
pub struct Socket {
    fd: RawFd,
}

impl Socket {
    /// The descriptor.
    pub closed spec fn descriptor(self) -> RawFd {
        self.fd
    }

    /// Ask for a socket.
    pub fn new_call(domain: i32, sock_type: i32, protocol: i32) -> (c: SystemCall)
        ensures
            c == (SystemCall::Socket { domain, sock_type, protocol }),
    {
        SystemCall::Socket { domain, sock_type, protocol }
    }

    /// Own what [`new_call`](Self::new_call) created.
    ///
    /// # Errors
    ///
    /// The kernel's refusal.
    pub fn new(created: Result<usize, Errno>) -> (r: Result<Self, Error>)
        ensures
            match created {
                Ok(fd) => r matches Ok(s) && s.descriptor() == RawFd(fd),
                Err(e) => r == Err::<Self, Error>(Error::Syscall(e)),
            },
    {
        match created {
            Ok(fd) => Ok(Socket { fd: RawFd::from_raw(fd) }),
            Err(e) => Err(Error::from(e)),
        }
    }

    /// The descriptor. It stays owned by this value.
    pub fn fd(&self) -> (r: RawFd)
        ensures
            r == self.descriptor(),
    {
        self.fd
    }

    /// Take ownership of an open socket.
    ///
    /// The inverse of [`into_fd`](Self::into_fd).
    pub fn from_fd(fd: RawFd) -> (r: Self)
        ensures
            r.descriptor() == fd,
    {
        Socket { fd }
    }

    /// Adopt the connection a completion accepted, if it accepted one.
    ///
    /// A non-negative result is a descriptor that no one else holds.
    pub fn claim(result: i32) -> (r: Option<Socket>)
        ensures
            claimed(result, r),
    {
        if result < 0 {
            None
        } else {
            Some(Socket { fd: RawFd::from_raw(result as usize) })
        }
    }

    /// Give up ownership without closing.
    pub fn into_fd(self) -> (r: RawFd)
        ensures
            r == self.descriptor(),
    {
        self.fd
    }

    /// Ask to bind to `addr`.
    pub fn bind_call(&self, addr: &SockAddrIn) -> (c: SystemCall)
        ensures
            c matches SystemCall::Bind { fd, addr: a } && fd == self.descriptor() && a@
                == addr.encoded(),
    {
        SystemCall::Bind { fd: self.fd, addr: addr.encode() }
    }

    /// What came of [`bind_call`](Self::bind_call).
    ///
    /// # Errors
    ///
    /// The kernel's refusal.
    pub fn bind(&self, bound: Result<usize, Errno>) -> (r: Result<(), Error>)
        ensures
            r == status(bound),
    {
        status_of(bound)
    }

    /// Ask to connect to `addr`.
    pub fn connect_call(&self, addr: &SockAddrIn) -> (c: SystemCall)
        ensures
            c matches SystemCall::Connect { fd, addr: a } && fd == self.descriptor() && a@
                == addr.encoded(),
    {
        SystemCall::Connect { fd: self.fd, addr: addr.encode() }
    }

    /// What came of [`connect_call`](Self::connect_call).
    ///
    /// # Errors
    ///
    /// The kernel's refusal.
    pub fn connect(&self, connected: Result<usize, Errno>) -> (r: Result<(), Error>)
        ensures
            r == status(connected),
    {
        status_of(connected)
    }

    /// Ask for a connection, with room for the peer's address.
    pub fn accept_call(&self, flags: AcceptFlags) -> (c: SystemCall)
        ensures
            c == (SystemCall::Accept4 {
                fd: self.descriptor(),
                addr_room: 16,
                sock_flags: flags.bits() as i32,
            }),
    {
        SystemCall::Accept4 { fd: self.fd, addr_room: 16, sock_flags: flags.bits() as i32 }
    }

    /// The connection that [`accept_call`](Self::accept_call) brought: its
    /// socket, and the peer's address from the sixteen bytes the kernel had
    /// room for, which are zero where it wrote nothing.
    ///
    /// # Errors
    ///
    /// The kernel's refusal.
    pub fn accept(&self, accepted: Result<(usize, [u8; 16]), Errno>) -> (r: Result<
        (Self, SockAddrIn),
        Error,
    >)
        ensures
            match accepted {
                Ok((fd, addr)) => {
                    &&& r is Ok
                    &&& r->Ok_0.0.descriptor() == RawFd(fd)
                    &&& r->Ok_0.1 == SockAddrIn::decoded(addr@)
                },
                Err(e) => r == Err::<(Self, SockAddrIn), Error>(Error::Syscall(e)),
            },
    {
        match accepted {
            Ok((fd, addr)) => Ok(
                (Socket { fd: RawFd::from_raw(fd) }, SockAddrIn::decode(addr.as_slice())),
            ),
            Err(e) => Err(Error::from(e)),
        }
    }

    /// Ask to accept connections, keeping up to `backlog` waiting.
    pub fn listen_call(&self, backlog: i32) -> (c: SystemCall)
        ensures
            c == (SystemCall::Listen { fd: self.descriptor(), backlog }),
    {
        SystemCall::Listen { fd: self.fd, backlog }
    }

    /// What came of [`listen_call`](Self::listen_call).
    ///
    /// # Errors
    ///
    /// The kernel's refusal.
    pub fn listen(&self, listening: Result<usize, Errno>) -> (r: Result<(), Error>)
        ensures
            r == status(listening),
    {
        status_of(listening)
    }

    /// Ask to set the option `optname` of `level` to the bytes in `value`.
    pub fn set_option_call(&self, level: i32, optname: i32, value: &[u8]) -> (c: SystemCall)
        ensures
            c matches SystemCall::SetSockOpt { fd, level: l, optname: o, value: v } && fd
                == self.descriptor() && l == level && o == optname && v@ == value@,
    {
        SystemCall::SetSockOpt { fd: self.fd, level, optname, value: copied(value) }
    }

    /// What came of [`set_option_call`](Self::set_option_call).
    ///
    /// # Errors
    ///
    /// The kernel's refusal.
    pub fn set_option(&self, set: Result<usize, Errno>) -> (r: Result<(), Error>)
        ensures
            r == status(set),
    {
        status_of(set)
    }

    /// Ask to send `buf`.
    pub fn send_call(&self, buf: &[u8], flags: MsgFlags) -> (c: SystemCall)
        ensures
            c matches SystemCall::SendTo { fd, data, flags: f } && fd == self.descriptor() && data@
                == buf@ && f == flags.bits(),
    {
        SystemCall::SendTo { fd: self.fd, data: copied(buf), flags: flags.bits() }
    }

    /// How many bytes [`send_call`](Self::send_call) sent.
    ///
    /// # Errors
    ///
    /// The kernel's refusal.
    pub fn send(&self, sent: Result<usize, Errno>) -> (r: Result<usize, Error>)
        ensures
            r == value(sent),
    {
        value_of(sent)
    }

    /// Ask for up to `room` bytes.
    pub fn recv_call(&self, room: usize, flags: MsgFlags) -> (c: SystemCall)
        ensures
            c == (SystemCall::RecvFrom { fd: self.descriptor(), room, flags: flags.bits() }),
    {
        SystemCall::RecvFrom { fd: self.fd, room, flags: flags.bits() }
    }

    /// How many bytes [`recv_call`](Self::recv_call) brought.
    ///
    /// # Errors
    ///
    /// The kernel's refusal.
    pub fn recv(&self, received: Result<usize, Errno>) -> (r: Result<usize, Error>)
        ensures
            r == value(received),
    {
        value_of(received)
    }

    /// Ask to shut down part of the connection.
    pub fn shutdown_call(&self, how: ShutdownHow) -> (c: SystemCall)
        ensures
            c == (SystemCall::Shutdown { fd: self.descriptor(), how: how.as_raw() }),
    {
        SystemCall::Shutdown { fd: self.fd, how: how.as_raw() }
    }

    /// What came of [`shutdown_call`](Self::shutdown_call).
    ///
    /// # Errors
    ///
    /// The kernel's refusal.
    pub fn shutdown(&self, shut: Result<usize, Errno>) -> (r: Result<(), Error>)
        ensures
            r == status(shut),
    {
        status_of(shut)
    }

    /// Ask to close it.
    pub fn close_call(&self) -> (c: SystemCall)
        ensures
            c == (SystemCall::Close { fd: self.descriptor() }),
    {
        SystemCall::Close { fd: self.fd }
    }

    /// What came of [`close_call`](Self::close_call).
    ///
    /// # Errors
    ///
    /// The kernel's refusal.
    pub fn close(self, closed: Result<usize, Errno>) -> (r: Result<(), Error>)
        ensures
            r == status(closed),
    {
        status_of(closed)
    }

    /// Ask for the local address.
    pub fn local_addr_call(&self) -> (c: SystemCall)
        ensures
            c == (SystemCall::GetSockName { fd: self.descriptor(), addr_room: 16 }),
    {
        SystemCall::GetSockName { fd: self.fd, addr_room: 16 }
    }

    /// The local address, from the sixteen bytes that
    /// [`local_addr_call`](Self::local_addr_call) had room for.
    ///
    /// # Errors
    ///
    /// The kernel's refusal.
    pub fn local_addr(&self, answer: Result<[u8; 16], Errno>) -> (r: Result<SockAddrIn, Error>)
        ensures
            match answer {
                Ok(addr) => r == Ok::<SockAddrIn, Error>(SockAddrIn::decoded(addr@)),
                Err(e) => r == Err::<SockAddrIn, Error>(Error::Syscall(e)),
            },
    {
        match answer {
            Ok(addr) => Ok(SockAddrIn::decode(addr.as_slice())),
            Err(e) => Err(Error::from(e)),
        }
    }
}

/// `socket` is what a completion with this result leaves to be owned: the
/// connection it accepted, or nothing.
pub open spec fn claimed(result: i32, socket: Option<Socket>) -> bool {
    match socket {
        Some(s) => result >= 0 && s.descriptor() == RawFd(result as usize),
        None => result < 0,
    }
}

/// A result that is no error is the descriptor of the socket, and an error is
/// none.
pub proof fn results_are_claimed(result: i32, socket: Option<Socket>)
    requires
        claimed(result, socket),
    ensures
        socket is Some <==> result >= 0,
        socket matches Some(it) ==> it.descriptor().0 == result,
{
}

} // verus!
