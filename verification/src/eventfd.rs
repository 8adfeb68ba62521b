//! An owned eventfd: a counter in the kernel.
//!
//! Writing adds to the counter. Reading returns it and resets it to zero, or
//! takes one from it in semaphore mode.
//!
//! Every operation has two halves: one that says what to ask the kernel, and
//! one that interprets the answer.

use crate::bytes::{le, le_value, push_le, read_le};
use crate::error::{Errno, Error};
use crate::syscall::{status, status_of, SystemCall};
use crate::types::fd::RawFd;
use crate::types::flags::EventFdFlags;
use vstd::prelude::*;

verus! {

/// An owned eventfd descriptor.
///
/// Whoever holds it is the one to close it.
#[derive(Debug)]
pub struct EventFd {
    fd: RawFd,
}

impl EventFd {
    /// The descriptor.
    pub closed spec fn descriptor(self) -> RawFd {
        self.fd
    }

    /// Ask for a non-blocking eventfd that starts at `initval`.
    pub fn new_call(initval: u32) -> (c: SystemCall)
        ensures
            c == (SystemCall::Eventfd2 { initval, flags: EventFdFlags::nonblock().bits() }),
    {
        Self::with_flags_call(initval, EventFdFlags::nonblock())
    }

    /// Own what [`new_call`](Self::new_call) created.
    ///
    /// # Errors
    ///
    /// The kernel's refusal.
    pub fn new(created: Result<usize, Errno>) -> (r: Result<Self, Error>)
        ensures
            match created {
                Ok(fd) => r matches Ok(e) && e.descriptor() == RawFd(fd),
                Err(e) => r == Err::<Self, Error>(Error::Syscall(e)),
            },
    {
        match created {
            Ok(fd) => Ok(EventFd { fd: RawFd::from_raw(fd) }),
            Err(e) => Err(Error::from(e)),
        }
    }

    /// Ask for an eventfd with the given flags that starts at `initval`.
    pub fn with_flags_call(initval: u32, flags: EventFdFlags) -> (c: SystemCall)
        ensures
            c == (SystemCall::Eventfd2 { initval, flags: flags.bits() }),
    {
        SystemCall::Eventfd2 { initval, flags: flags.bits() }
    }

    /// Own what [`with_flags_call`](Self::with_flags_call) created.
    ///
    /// # Errors
    ///
    /// The kernel's refusal.
    pub fn with_flags(created: Result<usize, Errno>) -> (r: Result<Self, Error>)
        ensures
            match created {
                Ok(fd) => r matches Ok(e) && e.descriptor() == RawFd(fd),
                Err(e) => r == Err::<Self, Error>(Error::Syscall(e)),
            },
    {
        Self::new(created)
    }

    /// The descriptor. It stays owned by this value.
    pub fn fd(&self) -> (r: RawFd)
        ensures
            r == self.descriptor(),
    {
        self.fd
    }

    /// Give up ownership without closing.
    pub fn into_fd(self) -> (r: RawFd)
        ensures
            r == self.descriptor(),
    {
        self.fd
    }

    /// Ask to add `value` to the counter.
    ///
    /// `u64::MAX` is reserved by the kernel.
    pub fn write_call(&self, value: u64) -> (c: SystemCall)
        ensures
            c matches SystemCall::Write { fd, data } && fd == self.descriptor() && data@ == le(
                value as nat,
                8,
            ),
    {
        let mut data: Vec<u8> = Vec::new();
        push_le(&mut data, value, 8);
        assert(data@ =~= le(value as nat, 8));
        SystemCall::Write { fd: self.fd, data }
    }

    /// What came of [`write_call`](Self::write_call).
    ///
    /// # Errors
    ///
    /// The kernel's refusal.
    pub fn write(&self, written: Result<usize, Errno>) -> (r: Result<(), Error>)
        ensures
            r == status(written),
    {
        status_of(written)
    }

    /// Ask for the counter.
    pub fn read_call(&self) -> (c: SystemCall)
        ensures
            c == (SystemCall::Read { fd: self.descriptor(), room: 8 }),
    {
        SystemCall::Read { fd: self.fd, room: 8 }
    }

    /// The counter, from the eight bytes that [`read_call`](Self::read_call)
    /// brought.
    ///
    /// # Errors
    ///
    /// The kernel's refusal.
    pub fn read(&self, answer: Result<[u8; 8], Errno>) -> (r: Result<u64, Error>)
        ensures
            match answer {
                Ok(data) => r == Ok::<u64, Error>(le_value(data@) as u64),
                Err(e) => r == Err::<u64, Error>(Error::Syscall(e)),
            },
    {
        match answer {
            Ok(data) => {
                assert(data@.subrange(0, 8) =~= data@);
                Ok(read_le(data.as_slice(), 0, 8))
            },
            Err(e) => Err(Error::from(e)),
        }
    }

    /// Ask to close it.
    pub fn close_call(&self) -> (c: SystemCall)
        ensures
            c == (SystemCall::Close { fd: self.descriptor() }),
    {
        SystemCall::Close { fd: self.fd }
    }

    /// What came of [`close_call`](Self::close_call).
    ///
    /// # Errors
    ///
    /// The kernel's refusal.
    pub fn close(self, closed: Result<usize, Errno>) -> (r: Result<(), Error>)
        ensures
            r == status(closed),
    {
        status_of(closed)
    }
}

/// The counter an eventfd reports is the one that was written as bytes.
pub proof fn counter_survives_its_bytes(value: u64)
    ensures
        le_value(le(value as nat, 8)) == value,
{
    crate::bytes::span_values();
    crate::bytes::le_round_trips(value as nat, 8);
}

} // verus!
