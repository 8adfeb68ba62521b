//! An owned descriptor of a regular file.
//!
//! The sibling of [`Socket`](crate::net::Socket). They are separate types
//! because they are not interchangeable: binding or shutting down means
//! nothing for a file.

use crate::error::{Errno, Error};
use crate::syscall::{status, status_of, SystemCall};
use crate::types::fd::RawFd;
use vstd::prelude::*;

verus! {

/// An owned file descriptor.
///
/// Whoever holds it is the one to close it.
#[derive(Debug)]
pub struct File {
    fd: RawFd,
}

impl File {
    /// The descriptor.
    pub closed spec fn descriptor(self) -> RawFd {
        self.fd
    }

    /// Take ownership of an open descriptor.
    pub fn from_fd(fd: RawFd) -> (r: Self)
        ensures
            r.descriptor() == fd,
    {
        File { fd }
    }

    /// Adopt the descriptor a completion created, if it created one.
    ///
    /// A non-negative result is a descriptor that no one else holds. A
    /// negative one is an error number, never a descriptor.
    pub fn claim(result: i32) -> (r: Option<File>)
        ensures
            claimed(result, r),
    {
        if result < 0 {
            None
        } else {
            Some(File { fd: RawFd::from_raw(result as usize) })
        }
    }

    /// The descriptor. It stays owned by this value.
    pub fn fd(&self) -> (r: RawFd)
        ensures
            r == self.descriptor(),
    {
        self.fd
    }

    /// Give up ownership without closing.
    pub fn into_fd(self) -> (r: RawFd)
        ensures
            r == self.descriptor(),
    {
        self.fd
    }

    /// Ask to close it.
    pub fn close_call(&self) -> (c: SystemCall)
        ensures
            c == (SystemCall::Close { fd: self.descriptor() }),
    {
        SystemCall::Close { fd: self.fd }
    }

    /// What came of [`close_call`](Self::close_call).
    ///
    /// # Errors
    ///
    /// The kernel's refusal.
    pub fn close(self, closed: Result<usize, Errno>) -> (r: Result<(), Error>)
        ensures
            r == status(closed),
    {
        status_of(closed)
    }
}

/// `file` is what a completion with this result leaves to be owned: the
/// descriptor it created, or nothing.
pub open spec fn claimed(result: i32, file: Option<File>) -> bool {
    match file {
        Some(f) => result >= 0 && f.descriptor() == RawFd(result as usize),
        None => result < 0,
    }
}

/// A result that is no error is the descriptor of the file, and an error is
/// none.
pub proof fn results_are_claimed(result: i32, file: Option<File>)
    requires
        claimed(result, file),
    ensures
        file is Some <==> result >= 0,
        file matches Some(it) ==> it.descriptor().0 == result,
{
}

} // verus!
