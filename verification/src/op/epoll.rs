//! Epoll sets.

use super::{blank, IoUringSqe, Sqe};
use crate::types::abi::{EpollEvent, Placed};
use crate::types::codes::{EpollOp, Opcode};
use crate::types::fd::RawFd;
use vstd::prelude::*;

verus! {

impl Sqe {
    /// Change what the epoll set `epfd` watches `fd` for.
    #[verifier::allow_in_spec]
    pub fn epoll_ctl(epfd: i32, op: EpollOp, fd: i32, event: &Placed<EpollEvent>) -> Self
        returns
            Sqe::epoll_ctl_ptr(epfd, op, fd, event.addr),
    {
        Sqe::epoll_ctl_ptr(epfd, op, fd, event.addr)
    }

    /// [`epoll_ctl`](Self::epoll_ctl) with the event at address `event`.
    #[verifier::allow_in_spec]
    pub fn epoll_ctl_ptr(epfd: i32, op: EpollOp, fd: i32, event: u64) -> Self
        returns
            Sqe(
                IoUringSqe {
                    opcode: Opcode::EpollCtl.as_raw(),
                    fd: epfd,
                    off: fd as u64,
                    addr: event,
                    len: op.as_raw(),
                    ..IoUringSqe::zeroed()
                },
            ),
    {
        Sqe(
            IoUringSqe {
                opcode: Opcode::EpollCtl.as_raw(),
                fd: epfd,
                off: fd as u64,
                addr: event,
                len: op.as_raw(),
                ..IoUringSqe::zeroed()
            },
        )
    }

    /// Wait on `epfd`, with room for `max_events` reports at `events`.
    #[verifier::allow_in_spec]
    pub fn epoll_wait_ptr(epfd: RawFd, events: u64, max_events: u32) -> Self
        returns
            Sqe(
                IoUringSqe {
                    opcode: Opcode::EpollWait.as_raw(),
                    fd: epfd.as_i32(),
                    addr: events,
                    len: max_events,
                    ..IoUringSqe::zeroed()
                },
            ),
    {
        Sqe(
            IoUringSqe {
                opcode: Opcode::EpollWait.as_raw(),
                fd: epfd.as_i32(),
                addr: events,
                len: max_events,
                ..IoUringSqe::zeroed()
            },
        )
    }
}

/// Changing an epoll set is operation 29: the set, the descriptor that joins,
/// changes or leaves, and the event. Waiting is operation 59, with room for so
/// many events.
pub proof fn epoll_entries_name_set_and_target(
    epfd: i32,
    op: EpollOp,
    fd: i32,
    at: u64,
    event: Placed<EpollEvent>,
    set: RawFd,
    max: u32,
)
    ensures
        Sqe::epoll_ctl_ptr(epfd, op, fd, at).0 == (IoUringSqe {
            opcode: 29,
            fd: epfd,
            off: fd as u64,
            addr: at,
            len: op.as_raw(),
            ..blank()
        }),
        Sqe::epoll_ctl(epfd, op, fd, &event).0 == (IoUringSqe {
            opcode: 29,
            fd: epfd,
            off: fd as u64,
            addr: event.addr,
            len: op.as_raw(),
            ..blank()
        }),
        Sqe::epoll_wait_ptr(set, at, max).0 == (IoUringSqe {
            opcode: 59,
            fd: set.as_i32(),
            addr: at,
            len: max,
            ..blank()
        }),
{
}

} // verus!
