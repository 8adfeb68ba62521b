//! An owned inotify instance.

use crate::error::{Errno, Error};
use crate::syscall::{copied, status, status_of, SystemCall};
use crate::types::fd::RawFd;
use crate::types::flags::{InotifyInitFlags, WatchMask};
use vstd::prelude::*;

verus! {

/// An owned inotify descriptor.
///
/// Whoever holds it is the one to close it.
#[derive(Debug)]
pub struct Inotify {
    fd: RawFd,
}

impl Inotify {
    /// The descriptor.
    pub closed spec fn descriptor(self) -> RawFd {
        self.fd
    }

    /// Ask for a non-blocking instance.
    pub fn new_call() -> (c: SystemCall)
        ensures
            c == (SystemCall::InotifyInit1 { flags: InotifyInitFlags::nonblock().bits() }),
    {
        SystemCall::InotifyInit1 { flags: InotifyInitFlags::nonblock().bits() }
    }

    /// Own what [`new_call`](Self::new_call) created.
    ///
    /// # Errors
    ///
    /// The kernel's refusal.
    pub fn new(created: Result<usize, Errno>) -> (r: Result<Self, Error>)
        ensures
            match created {
                Ok(fd) => r matches Ok(i) && i.descriptor() == RawFd(fd),
                Err(e) => r == Err::<Self, Error>(Error::Syscall(e)),
            },
    {
        match created {
            Ok(fd) => Ok(Inotify { fd: RawFd::from_raw(fd) }),
            Err(e) => Err(Error::from(e)),
        }
    }

    /// The descriptor. It stays owned by this value.
    pub fn fd(&self) -> (r: RawFd)
        ensures
            r == self.descriptor(),
    {
        self.fd
    }

    /// Give up ownership without closing.
    pub fn into_fd(self) -> (r: RawFd)
        ensures
            r == self.descriptor(),
    {
        self.fd
    }

    /// Ask for events in `mask` on `path`, which ends in a NUL byte.
    pub fn add_watch_call(&self, path: &[u8], mask: WatchMask) -> (c: SystemCall)
        ensures
            c matches SystemCall::InotifyAddWatch { fd, path: p, mask: m } && fd
                == self.descriptor() && p@ == path@ && m == mask.bits(),
    {
        SystemCall::InotifyAddWatch { fd: self.fd, path: copied(path), mask: mask.bits() }
    }

    /// The watch that [`add_watch_call`](Self::add_watch_call) created.
    ///
    /// # Errors
    ///
    /// The kernel's refusal.
    pub fn add_watch(&self, added: Result<usize, Errno>) -> (r: Result<i32, Error>)
        ensures
            match added {
                Ok(wd) => r == Ok::<i32, Error>(wd as i32),
                Err(e) => r == Err::<i32, Error>(Error::Syscall(e)),
            },
    {
        match added {
            Ok(wd) => Ok(wd as i32),
            Err(e) => Err(Error::from(e)),
        }
    }

    /// Ask to remove the watch `wd`.
    pub fn remove_watch_call(&self, wd: i32) -> (c: SystemCall)
        ensures
            c == (SystemCall::InotifyRmWatch { fd: self.descriptor(), wd }),
    {
        SystemCall::InotifyRmWatch { fd: self.fd, wd }
    }

    /// What came of [`remove_watch_call`](Self::remove_watch_call).
    ///
    /// # Errors
    ///
    /// The kernel's refusal.
    pub fn remove_watch(&self, removed: Result<usize, Errno>) -> (r: Result<(), Error>)
        ensures
            r == status(removed),
    {
        status_of(removed)
    }

    /// Ask to close it.
    pub fn close_call(&self) -> (c: SystemCall)
        ensures
            c == (SystemCall::Close { fd: self.descriptor() }),
    {
        SystemCall::Close { fd: self.fd }
    }
}

} // verus!
