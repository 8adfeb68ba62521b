//! Socket commands.
//!
//! A command entry carries the command number in the low half of the offset
//! field, an option's level and name in the two halves of the address field,
//! the option's memory in the third address and its length where a splice
//! has its source.

use super::{blank, IoUringSqe, Sqe};
use crate::owned::buffer::{StableBuffer, StableBufferMut};
use crate::types::codes::{Opcode, SocketUringCmdOp};
use crate::types::fd::RawFd;
use vstd::prelude::*;

verus! {

impl Sqe {
    /// Report how many bytes wait to be read from `fd`.
    #[verifier::allow_in_spec]
    pub fn uring_cmd_sock_inq(fd: RawFd) -> Self
        returns
            Sqe::uring_cmd_sock_op(fd, SocketUringCmdOp::SiocInq),
    {
        Sqe::uring_cmd_sock_op(fd, SocketUringCmdOp::SiocInq)
    }

    /// Report how many bytes wait to be sent on `fd`.
    #[verifier::allow_in_spec]
    pub fn uring_cmd_sock_outq(fd: RawFd) -> Self
        returns
            Sqe::uring_cmd_sock_op(fd, SocketUringCmdOp::SiocOutq),
    {
        Sqe::uring_cmd_sock_op(fd, SocketUringCmdOp::SiocOutq)
    }

    /// A command without arguments.
    #[verifier::allow_in_spec]
    pub fn uring_cmd_sock_op(fd: RawFd, op: SocketUringCmdOp) -> Self
        returns
            Sqe(
                IoUringSqe {
                    opcode: Opcode::UringCmd.as_raw(),
                    fd: fd.as_i32(),
                    off: op.as_raw() as u64,
                    ..IoUringSqe::zeroed()
                },
            ),
    {
        Sqe(
            IoUringSqe {
                opcode: Opcode::UringCmd.as_raw(),
                fd: fd.as_i32(),
                off: op.as_raw() as u64,
                ..IoUringSqe::zeroed()
            },
        )
    }

    /// A command on a socket option.
    #[verifier::allow_in_spec]
    pub fn uring_cmd_sock_opt(
        fd: RawFd,
        op: SocketUringCmdOp,
        level: u32,
        optname: u32,
        optval: u64,
        optlen: u32,
    ) -> Self
        returns
            Sqe(
                IoUringSqe {
                    opcode: Opcode::UringCmd.as_raw(),
                    fd: fd.as_i32(),
                    off: op.as_raw() as u64,
                    addr: level as u64 | (optname as u64) << 32u64,
                    addr3: optval,
                    splice_fd_in: optlen as i32,
                    ..IoUringSqe::zeroed()
                },
            ),
    {
        Sqe(
            IoUringSqe {
                opcode: Opcode::UringCmd.as_raw(),
                fd: fd.as_i32(),
                off: op.as_raw() as u64,
                addr: level as u64 | (optname as u64) << 32u64,
                addr3: optval,
                splice_fd_in: optlen as i32,
                ..IoUringSqe::zeroed()
            },
        )
    }

    /// Read a socket option into `optval`.
    ///
    /// A length beyond 32 bits is cut off.
    #[verifier::allow_in_spec]
    pub fn uring_cmd_sock_getsockopt<B: StableBufferMut>(
        fd: RawFd,
        level: u32,
        optname: u32,
        optval: &B,
    ) -> Self
        returns
            Sqe::uring_cmd_sock_opt(
                fd,
                SocketUringCmdOp::GetSockOpt,
                level,
                optname,
                optval.addr() as u64,
                optval.bytes().len() as usize as u32,
            ),
    {
        Sqe::uring_cmd_sock_opt(
            fd,
            SocketUringCmdOp::GetSockOpt,
            level,
            optname,
            optval.stable_ptr() as u64,
            optval.stable_len() as u32,
        )
    }

    /// Set a socket option from `optval`.
    ///
    /// A length beyond 32 bits is cut off.
    #[verifier::allow_in_spec]
    pub fn uring_cmd_sock_setsockopt<B: StableBuffer>(
        fd: RawFd,
        level: u32,
        optname: u32,
        optval: &B,
    ) -> Self
        returns
            Sqe::uring_cmd_sock_opt(
                fd,
                SocketUringCmdOp::SetSockOpt,
                level,
                optname,
                optval.addr() as u64,
                optval.bytes().len() as usize as u32,
            ),
    {
        Sqe::uring_cmd_sock_opt(
            fd,
            SocketUringCmdOp::SetSockOpt,
            level,
            optname,
            optval.stable_ptr() as u64,
            optval.stable_len() as u32,
        )
    }

    /// Read the local address of `fd` into `addr`, its length into `addr_len`.
    #[verifier::allow_in_spec]
    pub fn uring_cmd_sock_getsockname(fd: RawFd, addr: u64, addr_len: u64) -> Self
        returns
            Sqe::uring_cmd_sock_name(fd, addr, addr_len, false),
    {
        Sqe::uring_cmd_sock_name(fd, addr, addr_len, false)
    }

    /// Read the peer address of `fd` into `addr`, its length into `addr_len`.
    #[verifier::allow_in_spec]
    pub fn uring_cmd_sock_getpeername(fd: RawFd, addr: u64, addr_len: u64) -> Self
        returns
            Sqe::uring_cmd_sock_name(fd, addr, addr_len, true),
    {
        Sqe::uring_cmd_sock_name(fd, addr, addr_len, true)
    }

    /// Read an address of `fd`.
    #[verifier::allow_in_spec]
    pub fn uring_cmd_sock_name(fd: RawFd, addr: u64, addr_len: u64, peer: bool) -> Self
        returns
            Sqe(
                IoUringSqe {
                    opcode: Opcode::UringCmd.as_raw(),
                    fd: fd.as_i32(),
                    off: SocketUringCmdOp::GetSockName.as_raw() as u64,
                    addr: addr,
                    addr3: addr_len,
                    splice_fd_in: if peer { 1 } else { 0 },
                    ..IoUringSqe::zeroed()
                },
            ),
    {
        Sqe(
            IoUringSqe {
                opcode: Opcode::UringCmd.as_raw(),
                fd: fd.as_i32(),
                off: SocketUringCmdOp::GetSockName.as_raw() as u64,
                addr: addr,
                addr3: addr_len,
                splice_fd_in: if peer { 1 } else { 0 },
                ..IoUringSqe::zeroed()
            },
        )
    }
}

/// Level and option share a field of the entry, and neither disturbs the
/// other.
pub proof fn level_and_option_are_kept_apart(
    fd: RawFd,
    op: SocketUringCmdOp,
    level: u32,
    optname: u32,
    optval: u64,
    optlen: u32,
)
    ensures
        ({
            let addr = Sqe::uring_cmd_sock_opt(fd, op, level, optname, optval, optlen).0.addr;
            &&& addr & 0xffff_ffff == level
            &&& addr >> 32 == optname
        }),
{
    let addr = level as u64 | (optname as u64) << 32u64;
    assert(addr & 0xffff_ffff == level as u64 && addr >> 32 == optname as u64) by (bit_vector)
        requires
            addr == level as u64 | (optname as u64) << 32u64,
    ;
}

/// A command to a socket is operation 46 with the command where others put an
/// offset: 0 and 1 ask how much waits to be read and to be sent, 5 asks for the
/// socket's own name, or for its peer's.
pub proof fn socket_commands_say_which(fd: RawFd, op: SocketUringCmdOp, addr: u64, len: u64)
    ensures
        Sqe::uring_cmd_sock_op(fd, op).0 == (IoUringSqe {
            opcode: 46,
            fd: fd.as_i32(),
            off: op.as_raw() as u64,
            ..blank()
        }),
        Sqe::uring_cmd_sock_inq(fd).0 == (IoUringSqe { opcode: 46, fd: fd.as_i32(), ..blank() }),
        Sqe::uring_cmd_sock_outq(fd).0 == (IoUringSqe {
            opcode: 46,
            fd: fd.as_i32(),
            off: 1,
            ..blank()
        }),
        Sqe::uring_cmd_sock_getsockname(fd, addr, len).0 == (IoUringSqe {
            opcode: 46,
            fd: fd.as_i32(),
            off: 5,
            addr: addr,
            addr3: len,
            ..blank()
        }),
        Sqe::uring_cmd_sock_getpeername(fd, addr, len).0 == (IoUringSqe {
            opcode: 46,
            fd: fd.as_i32(),
            off: 5,
            addr: addr,
            splice_fd_in: 1,
            addr3: len,
            ..blank()
        }),
{
}

/// An option is read by command 2 and written by command 3: its level and its
/// number share a field, and its value is where the buffer is.
pub proof fn socket_options_name_their_value<B: StableBufferMut>(
    fd: RawFd,
    op: SocketUringCmdOp,
    level: u32,
    optname: u32,
    value: B,
)
    ensures
        Sqe::uring_cmd_sock_getsockopt(fd, level, optname, &value).0 == (IoUringSqe {
            opcode: 46,
            fd: fd.as_i32(),
            off: 2,
            addr: level as u64 | (optname as u64) << 32u64,
            splice_fd_in: value.bytes().len() as usize as u32 as i32,
            addr3: value.addr() as u64,
            ..blank()
        }),
        Sqe::uring_cmd_sock_setsockopt(fd, level, optname, &value).0 == (IoUringSqe {
            opcode: 46,
            fd: fd.as_i32(),
            off: 3,
            addr: level as u64 | (optname as u64) << 32u64,
            splice_fd_in: value.bytes().len() as usize as u32 as i32,
            addr3: value.addr() as u64,
            ..blank()
        }),
{
}

} // verus!
