//! No-ops, timeouts, cancellation and polling.

use super::{blank, IoUringSqe, Sqe};
use crate::types::abi::{Placed, Timespec};
use crate::types::codes::Opcode;
use crate::types::fd::RawFd;
use crate::types::flags::{CancelFlags, PollMask, TimeoutFlags};
use vstd::prelude::*;

verus! {

impl Sqe {
    /// Do nothing.
    #[verifier::allow_in_spec]
    pub fn nop() -> Self
        returns
            Sqe(
                IoUringSqe {
                    opcode: Opcode::Nop.as_raw(),
                    ..IoUringSqe::zeroed()
                },
            ),
    {
        Sqe(
            IoUringSqe {
                opcode: Opcode::Nop.as_raw(),
                ..IoUringSqe::zeroed()
            },
        )
    }

    /// Remove the timeout that was submitted with `target_user_data`.
    #[verifier::allow_in_spec]
    pub fn timeout_remove(target_user_data: u64) -> Self
        returns
            Sqe(
                IoUringSqe {
                    opcode: Opcode::TimeoutRemove.as_raw(),
                    addr: target_user_data,
                    ..IoUringSqe::zeroed()
                },
            ),
    {
        Sqe(
            IoUringSqe {
                opcode: Opcode::TimeoutRemove.as_raw(),
                addr: target_user_data,
                ..IoUringSqe::zeroed()
            },
        )
    }

    /// Cancel the request that was submitted with `target_user_data`.
    #[verifier::allow_in_spec]
    pub fn cancel(target_user_data: u64) -> Self
        returns
            Sqe::cancel_with_flags(target_user_data, CancelFlags::empty()),
    {
        Sqe::cancel_with_flags(target_user_data, CancelFlags::empty())
    }

    /// Cancel by `target_user_data`, as `flags` say.
    #[verifier::allow_in_spec]
    pub fn cancel_with_flags(target_user_data: u64, flags: CancelFlags) -> Self
        returns
            Sqe(
                IoUringSqe {
                    opcode: Opcode::AsyncCancel.as_raw(),
                    addr: target_user_data,
                    op_flags: flags.bits(),
                    ..IoUringSqe::zeroed()
                },
            ),
    {
        Sqe(
            IoUringSqe {
                opcode: Opcode::AsyncCancel.as_raw(),
                addr: target_user_data,
                op_flags: flags.bits(),
                ..IoUringSqe::zeroed()
            },
        )
    }

    /// Cancel what is in flight on `fd`.
    #[verifier::allow_in_spec]
    pub fn cancel_fd(fd: RawFd, extra: CancelFlags) -> Self
        returns
            Sqe(
                IoUringSqe {
                    opcode: Opcode::AsyncCancel.as_raw(),
                    fd: fd.as_i32(),
                    op_flags: CancelFlags::fd().union(extra).bits(),
                    ..IoUringSqe::zeroed()
                },
            ),
    {
        Sqe(
            IoUringSqe {
                opcode: Opcode::AsyncCancel.as_raw(),
                fd: fd.as_i32(),
                op_flags: CancelFlags::fd().union(extra).bits(),
                ..IoUringSqe::zeroed()
            },
        )
    }

    /// Cancel whatever is in flight.
    #[verifier::allow_in_spec]
    pub fn cancel_any(extra: CancelFlags) -> Self
        returns
            Sqe(
                IoUringSqe {
                    opcode: Opcode::AsyncCancel.as_raw(),
                    op_flags: CancelFlags::any().union(extra).bits(),
                    ..IoUringSqe::zeroed()
                },
            ),
    {
        Sqe(
            IoUringSqe {
                opcode: Opcode::AsyncCancel.as_raw(),
                op_flags: CancelFlags::any().union(extra).bits(),
                ..IoUringSqe::zeroed()
            },
        )
    }

    /// Restrict a cancellation to requests with the given opcode.
    #[verifier::allow_in_spec]
    pub fn cancel_matching_opcode(self, opcode: Opcode) -> Self
        returns
            Sqe(
                IoUringSqe {
                    op_flags: self.0.op_flags | CancelFlags::op().bits(),
                    len: opcode.as_raw() as u32,
                    ..self.0
                },
            ),
    {
        Sqe(
            IoUringSqe {
                op_flags: self.0.op_flags | CancelFlags::op().bits(),
                len: opcode.as_raw() as u32,
                ..self.0
            },
        )
    }

    /// Wait for the events in `mask` on `fd`.
    #[verifier::allow_in_spec]
    pub fn poll_add(fd: RawFd, mask: PollMask) -> Self
        returns
            Sqe(
                IoUringSqe {
                    opcode: Opcode::PollAdd.as_raw(),
                    fd: fd.as_i32(),
                    op_flags: mask.bits(),
                    ..IoUringSqe::zeroed()
                },
            ),
    {
        Sqe(
            IoUringSqe {
                opcode: Opcode::PollAdd.as_raw(),
                fd: fd.as_i32(),
                op_flags: mask.bits(),
                ..IoUringSqe::zeroed()
            },
        )
    }

    /// Remove the poll that was submitted with `target_user_data`.
    #[verifier::allow_in_spec]
    pub fn poll_remove(target_user_data: u64) -> Self
        returns
            Sqe(
                IoUringSqe {
                    opcode: Opcode::PollRemove.as_raw(),
                    addr: target_user_data,
                    ..IoUringSqe::zeroed()
                },
            ),
    {
        Sqe(
            IoUringSqe {
                opcode: Opcode::PollRemove.as_raw(),
                addr: target_user_data,
                ..IoUringSqe::zeroed()
            },
        )
    }

    /// Complete after `count` completions or when the time runs out,
    /// whichever comes first. A `count` of 0 is a plain timer.
    #[verifier::allow_in_spec]
    pub fn timeout(ts: &Placed<Timespec>, count: u32, flags: TimeoutFlags) -> Self
        returns
            Sqe::timeout_ptr(ts.addr, count, flags),
    {
        Sqe::timeout_ptr(ts.addr, count, flags)
    }

    /// Cancel the entry linked before this one when the time runs out.
    #[verifier::allow_in_spec]
    pub fn link_timeout(ts: &Placed<Timespec>, flags: TimeoutFlags) -> Self
        returns
            Sqe::link_timeout_ptr(ts.addr, flags),
    {
        Sqe::link_timeout_ptr(ts.addr, flags)
    }

    /// [`timeout`](Self::timeout) with the time at address `ts`.
    #[verifier::allow_in_spec]
    pub fn timeout_ptr(ts: u64, count: u32, flags: TimeoutFlags) -> Self
        returns
            Sqe(
                IoUringSqe {
                    opcode: Opcode::Timeout.as_raw(),
                    addr: ts,
                    len: 1,
                    off: count as u64,
                    op_flags: flags.bits(),
                    ..IoUringSqe::zeroed()
                },
            ),
    {
        Sqe(
            IoUringSqe {
                opcode: Opcode::Timeout.as_raw(),
                addr: ts,
                len: 1,
                off: count as u64,
                op_flags: flags.bits(),
                ..IoUringSqe::zeroed()
            },
        )
    }

    /// [`link_timeout`](Self::link_timeout) with the time at address `ts`.
    #[verifier::allow_in_spec]
    pub fn link_timeout_ptr(ts: u64, flags: TimeoutFlags) -> Self
        returns
            Sqe(
                IoUringSqe {
                    opcode: Opcode::LinkTimeout.as_raw(),
                    addr: ts,
                    len: 1,
                    op_flags: flags.bits(),
                    ..IoUringSqe::zeroed()
                },
            ),
    {
        Sqe(
            IoUringSqe {
                opcode: Opcode::LinkTimeout.as_raw(),
                addr: ts,
                len: 1,
                op_flags: flags.bits(),
                ..IoUringSqe::zeroed()
            },
        )
    }
}

/// Doing nothing is operation 0, and asks for nothing at all.
pub proof fn nothing_is_asked_by_a_nop()
    ensures
        Sqe::nop().0 == blank(),
{
}

/// A cancel, operation 14, names its target by the value it carries, by its
/// descriptor, which takes flag 2, or not at all, which takes flag 4.
pub proof fn cancels_name_their_target(target: u64, fd: RawFd, flags: CancelFlags)
    ensures
        Sqe::cancel(target).0 == (IoUringSqe { opcode: 14, addr: target, ..blank() }),
        Sqe::cancel_with_flags(target, flags).0 == (IoUringSqe {
            opcode: 14,
            addr: target,
            op_flags: flags.0,
            ..blank()
        }),
        Sqe::cancel_fd(fd, flags).0 == (IoUringSqe {
            opcode: 14,
            fd: fd.as_i32(),
            op_flags: 2u32 | flags.0,
            ..blank()
        }),
        Sqe::cancel_any(flags).0 == (IoUringSqe {
            opcode: 14,
            op_flags: 4u32 | flags.0,
            ..blank()
        }),
{
}

/// Narrowing a cancel to one operation adds flag 32 and the operation's number
/// and changes nothing else.
pub proof fn cancels_narrow_to_an_operation(sqe: Sqe, opcode: Opcode)
    ensures
        sqe.cancel_matching_opcode(opcode).0 == (IoUringSqe {
            op_flags: sqe.0.op_flags | 32u32,
            len: opcode.as_raw() as u32,
            ..sqe.0
        }),
{
}

/// A poll is added by operation 6 and removed by 7, a timeout removed by 12:
/// both removals name the value their target carries.
pub proof fn polls_and_removals_name_their_target(fd: RawFd, mask: PollMask, target: u64)
    ensures
        Sqe::poll_add(fd, mask).0 == (IoUringSqe {
            opcode: 6,
            fd: fd.as_i32(),
            op_flags: mask.0,
            ..blank()
        }),
        Sqe::poll_remove(target).0 == (IoUringSqe { opcode: 7, addr: target, ..blank() }),
        Sqe::timeout_remove(target).0 == (IoUringSqe { opcode: 12, addr: target, ..blank() }),
{
}

/// A timeout is operation 11 and a linked one 15: one duration, where it lies,
/// and for the first how many completions end it early.
pub proof fn timeouts_name_their_duration(
    at: u64,
    placed: Placed<Timespec>,
    count: u32,
    flags: TimeoutFlags,
)
    ensures
        Sqe::timeout_ptr(at, count, flags).0 == (IoUringSqe {
            opcode: 11,
            off: count as u64,
            addr: at,
            len: 1,
            op_flags: flags.0,
            ..blank()
        }),
        Sqe::link_timeout_ptr(at, flags).0 == (IoUringSqe {
            opcode: 15,
            addr: at,
            len: 1,
            op_flags: flags.0,
            ..blank()
        }),
        Sqe::timeout(&placed, count, flags).0 == (IoUringSqe {
            opcode: 11,
            off: count as u64,
            addr: placed.addr,
            len: 1,
            op_flags: flags.0,
            ..blank()
        }),
        Sqe::link_timeout(&placed, flags).0 == (IoUringSqe {
            opcode: 15,
            addr: placed.addr,
            len: 1,
            op_flags: flags.0,
            ..blank()
        }),
{
}

} // verus!
