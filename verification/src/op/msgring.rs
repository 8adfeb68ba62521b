//! Messages between rings.
//!
//! The kernel reads no caller memory for these: the payload travels in the
//! entry itself.

use super::{blank, IoUringSqe, Sqe};
use crate::types::codes::Opcode;
use crate::types::fd::RawFd;
use crate::types::flags::MsgRingFlags;
use vstd::prelude::*;

verus! {

/// Selects sending a descriptor rather than data.
pub const IORING_MSG_SEND_FD: u64 = 1;

impl Sqe {
    /// Post a completion with result `len` and user data `data` to
    /// `target_ring`.
    #[verifier::allow_in_spec]
    pub fn msg_ring(target_ring: RawFd, len: u32, data: u64) -> Self
        returns
            Sqe::msg_ring_with_flags(target_ring, len, data, MsgRingFlags::empty()),
    {
        Sqe::msg_ring_with_flags(target_ring, len, data, MsgRingFlags::empty())
    }

    /// [`msg_ring`](Self::msg_ring) with flags.
    #[verifier::allow_in_spec]
    pub fn msg_ring_with_flags(target_ring: RawFd, len: u32, data: u64, flags: MsgRingFlags) -> Self
        returns
            Sqe(
                IoUringSqe {
                    opcode: Opcode::MsgRing.as_raw(),
                    fd: target_ring.as_i32(),
                    len: len,
                    off: data,
                    op_flags: flags.bits(),
                    ..IoUringSqe::zeroed()
                },
            ),
    {
        Sqe(
            IoUringSqe {
                opcode: Opcode::MsgRing.as_raw(),
                fd: target_ring.as_i32(),
                len: len,
                off: data,
                op_flags: flags.bits(),
                ..IoUringSqe::zeroed()
            },
        )
    }

    /// [`msg_ring`](Self::msg_ring) that also sets the flags of the posted
    /// completion.
    #[verifier::allow_in_spec]
    pub fn msg_ring_cqe_flags(target_ring: RawFd, len: u32, data: u64, cqe_flags: u32) -> Self
        returns
            Sqe(
                IoUringSqe {
                    splice_fd_in: cqe_flags as i32,
                    ..Sqe::msg_ring_with_flags(
                        target_ring,
                        len,
                        data,
                        MsgRingFlags::flags_pass(),
                    ).0
                },
            ),
    {
        Sqe(
            IoUringSqe {
                splice_fd_in: cqe_flags as i32,
                ..Sqe::msg_ring_with_flags(target_ring, len, data, MsgRingFlags::flags_pass()).0
            },
        )
    }

    /// Install this ring's table entry `source_fd` into the table of
    /// `target_ring`, at the encoded slot `target` (-1 lets it choose).
    #[verifier::allow_in_spec]
    pub fn msg_ring_fd(target_ring: RawFd, source_fd: RawFd, target: i32, data: u64) -> Self
        returns
            Sqe::msg_ring_fd_with_flags(
                target_ring,
                source_fd,
                target,
                data,
                MsgRingFlags::empty(),
            ),
    {
        Sqe::msg_ring_fd_with_flags(target_ring, source_fd, target, data, MsgRingFlags::empty())
    }

    /// [`msg_ring_fd`](Self::msg_ring_fd) with flags.
    #[verifier::allow_in_spec]
    pub fn msg_ring_fd_with_flags(
        target_ring: RawFd,
        source_fd: RawFd,
        target: i32,
        data: u64,
        flags: MsgRingFlags,
    ) -> Self
        returns
            Sqe(
                IoUringSqe {
                    opcode: Opcode::MsgRing.as_raw(),
                    fd: target_ring.as_i32(),
                    addr: IORING_MSG_SEND_FD,
                    off: data,
                    addr3: source_fd.as_i32() as u64,
                    splice_fd_in: target,
                    op_flags: flags.bits(),
                    ..IoUringSqe::zeroed()
                },
            ),
    {
        Sqe(
            IoUringSqe {
                opcode: Opcode::MsgRing.as_raw(),
                fd: target_ring.as_i32(),
                addr: IORING_MSG_SEND_FD,
                off: data,
                addr3: source_fd.as_i32() as u64,
                splice_fd_in: target,
                op_flags: flags.bits(),
                ..IoUringSqe::zeroed()
            },
        )
    }
}

/// A message to another ring is operation 40: its length and its data become
/// the completion's result and value there.
pub proof fn messages_reach_their_ring(
    ring: RawFd,
    len: u32,
    data: u64,
    flags: MsgRingFlags,
    cqe_flags: u32,
)
    ensures
        Sqe::msg_ring(ring, len, data).0 == (IoUringSqe {
            opcode: 40,
            fd: ring.as_i32(),
            off: data,
            len: len,
            ..blank()
        }),
        Sqe::msg_ring_with_flags(ring, len, data, flags).0 == (IoUringSqe {
            opcode: 40,
            fd: ring.as_i32(),
            off: data,
            len: len,
            op_flags: flags.0,
            ..blank()
        }),
        Sqe::msg_ring_cqe_flags(ring, len, data, cqe_flags).0 == (IoUringSqe {
            opcode: 40,
            fd: ring.as_i32(),
            off: data,
            len: len,
            op_flags: 2,
            splice_fd_in: cqe_flags as i32,
            ..blank()
        }),
{
}

/// Sending a descriptor to another ring is the same operation with command 1:
/// the slot it comes from and the slot it goes to.
pub proof fn descriptors_reach_their_slot(
    ring: RawFd,
    source: RawFd,
    target: i32,
    data: u64,
    flags: MsgRingFlags,
)
    ensures
        Sqe::msg_ring_fd(ring, source, target, data).0 == (IoUringSqe {
            opcode: 40,
            fd: ring.as_i32(),
            off: data,
            addr: 1,
            splice_fd_in: target,
            addr3: source.as_i32() as u64,
            ..blank()
        }),
        Sqe::msg_ring_fd_with_flags(ring, source, target, data, flags).0 == (IoUringSqe {
            opcode: 40,
            fd: ring.as_i32(),
            off: data,
            addr: 1,
            op_flags: flags.0,
            splice_fd_in: target,
            addr3: source.as_i32() as u64,
            ..blank()
        }),
{
}

} // verus!
