//! System calls as values.
//!
//! The library decides what to ask the kernel and what an answer means.
//! Making the call is up to whoever holds the value.

use crate::error::{Errno, Error};
use crate::types::fd::RawFd;
use vstd::prelude::*;

verus! {

/// A system call with its arguments.
///
/// Memory the kernel reads appears as the bytes it is to find there; memory
/// it writes appears as the number of bytes it has room for.
#[derive(Debug)]
pub enum SystemCall {
    /// `eventfd2`.
    Eventfd2 {
        /// Counter to start with.
        initval: u32,
        /// Flags.
        flags: u32,
    },
    /// `read`.
    Read {
        /// Where from.
        fd: RawFd,
        /// Room for what is read.
        room: usize,
    },
    /// `write`.
    Write {
        /// Where to.
        fd: RawFd,
        /// What is written.
        data: Vec<u8>,
    },
    /// `close`.
    Close {
        /// What is closed.
        fd: RawFd,
    },
    /// `inotify_init1`.
    InotifyInit1 {
        /// Flags.
        flags: u32,
    },
    /// `inotify_add_watch`.
    InotifyAddWatch {
        /// The instance.
        fd: RawFd,
        /// The path, with its terminator.
        path: Vec<u8>,
        /// Events to report.
        mask: u32,
    },
    /// `inotify_rm_watch`.
    InotifyRmWatch {
        /// The instance.
        fd: RawFd,
        /// The watch.
        wd: i32,
    },
    /// `socket`.
    Socket {
        /// Address family.
        domain: i32,
        /// Communication style.
        sock_type: i32,
        /// Protocol.
        protocol: i32,
    },
    /// `bind`.
    Bind {
        /// The socket.
        fd: RawFd,
        /// The address.
        addr: Vec<u8>,
    },
    /// `connect`.
    Connect {
        /// The socket.
        fd: RawFd,
        /// The address.
        addr: Vec<u8>,
    },
    /// `accept4`.
    Accept4 {
        /// The listening socket.
        fd: RawFd,
        /// Room for the peer's address.
        addr_room: u32,
        /// Flags the new socket gets.
        sock_flags: i32,
    },
    /// `listen`.
    Listen {
        /// The socket.
        fd: RawFd,
        /// How many connections may wait.
        backlog: i32,
    },
    /// `setsockopt`.
    SetSockOpt {
        /// The socket.
        fd: RawFd,
        /// Level of the option.
        level: i32,
        /// The option.
        optname: i32,
        /// Its value.
        value: Vec<u8>,
    },
    /// `sendto` without an address.
    SendTo {
        /// The socket.
        fd: RawFd,
        /// What is sent.
        data: Vec<u8>,
        /// Flags.
        flags: u32,
    },
    /// `recvfrom` without an address.
    RecvFrom {
        /// The socket.
        fd: RawFd,
        /// Room for what arrives.
        room: usize,
        /// Flags.
        flags: u32,
    },
    /// `shutdown`.
    Shutdown {
        /// The socket.
        fd: RawFd,
        /// Which half.
        how: u32,
    },
    /// `getsockname`.
    GetSockName {
        /// The socket.
        fd: RawFd,
        /// Room for the address.
        addr_room: u32,
    },
    /// `io_uring_enter`, on whichever ring the caller holds.
    IoUringEnter {
        /// How many queued entries to take.
        to_submit: u32,
        /// How many completions to wait for.
        min_complete: u32,
    },
}

/// What a helper makes of the kernel's answer when only the refusal matters.
pub open spec fn status<T>(answer: Result<T, Errno>) -> Result<(), Error> {
    match answer {
        Ok(_) => Ok(()),
        Err(e) => Err(Error::Syscall(e)),
    }
}

/// What a helper makes of the kernel's answer when the value matters too.
pub open spec fn value<T>(answer: Result<T, Errno>) -> Result<T, Error> {
    match answer {
        Ok(v) => Ok(v),
        Err(e) => Err(Error::Syscall(e)),
    }
}

/// Keep the refusal, as an [`Error`].
pub fn status_of(answer: Result<usize, Errno>) -> (r: Result<(), Error>)
    ensures
        r == status(answer),
{
    match answer {
        Ok(_) => Ok(()),
        Err(e) => Err(Error::from(e)),
    }
}

/// Keep the value, or the refusal as an [`Error`].
pub fn value_of(answer: Result<usize, Errno>) -> (r: Result<usize, Error>)
    ensures
        r == value(answer),
{
    match answer {
        Ok(v) => Ok(v),
        Err(e) => Err(Error::from(e)),
    }
}

/// A copy of `data`.
pub fn copied(data: &[u8]) -> (v: Vec<u8>)
    ensures
        v@ == data@,
{
    let mut v: Vec<u8> = Vec::new();
    v.extend_from_slice(data);
    assert(v@ =~= data@);
    v
}

/// An answer keeps what it says: a success its value, where one is wanted, and
/// a failure its number.
pub proof fn answers_are_kept(answer: Result<usize, Errno>)
    ensures
        status(answer) is Ok <==> answer is Ok,
        value(answer) is Ok <==> answer is Ok,
        answer matches Ok(n) ==> value(answer) == Ok::<usize, Error>(n),
        answer matches Err(e) ==> status(answer) == Err::<(), Error>(Error::Syscall(e)),
        answer matches Err(e) ==> value(answer) == Err::<usize, Error>(Error::Syscall(e)),
{
}

} // verus!
