//! Sockets: creating, connecting, accepting, sending and receiving.

use super::{blank, IoUringSqe, Sqe};
use crate::owned::buffer::{StableBuffer, StableBufferMut};
use crate::types::abi::{MsgHdr, Placed, SockAddrIn};
use crate::types::codes::{
    AddressFamily, Opcode, ShutdownHow, SocketType, IORING_ACCEPT_MULTISHOT, IORING_RECV_MULTISHOT,
};
use crate::types::fd::RawFd;
use crate::types::flags::{AcceptFlags, MsgFlags, SocketFlags};
use vstd::prelude::*;

verus! {

impl Sqe {
    /// Create a socket. The result is its descriptor.
    #[verifier::allow_in_spec]
    pub fn socket(
        domain: AddressFamily,
        sock_type: SocketType,
        protocol: i32,
        flags: SocketFlags,
    ) -> Self
        returns
            Sqe(
                IoUringSqe {
                    opcode: Opcode::Socket.as_raw(),
                    fd: domain.as_raw(),
                    off: sock_type.as_raw() as u64,
                    len: protocol as u32,
                    op_flags: flags.bits(),
                    ..IoUringSqe::zeroed()
                },
            ),
    {
        Sqe(
            IoUringSqe {
                opcode: Opcode::Socket.as_raw(),
                fd: domain.as_raw(),
                off: sock_type.as_raw() as u64,
                len: protocol as u32,
                op_flags: flags.bits(),
                ..IoUringSqe::zeroed()
            },
        )
    }

    /// Create a socket in a file-table slot that the kernel chooses. The
    /// result is the slot.
    #[verifier::allow_in_spec]
    pub fn socket_direct(
        domain: AddressFamily,
        sock_type: SocketType,
        protocol: i32,
        flags: SocketFlags,
    ) -> Self
        returns
            Sqe::socket_direct_at(domain, sock_type, protocol, flags, -1i32),
    {
        Sqe::socket_direct_at(domain, sock_type, protocol, flags, -1i32)
    }

    /// Create a socket in the encoded file-table slot `file_index`: one more
    /// than the slot, or -1 to let the kernel choose.
    #[verifier::allow_in_spec]
    pub fn socket_direct_at(
        domain: AddressFamily,
        sock_type: SocketType,
        protocol: i32,
        flags: SocketFlags,
        file_index: i32,
    ) -> Self
        returns
            Sqe(
                IoUringSqe {
                    opcode: Opcode::Socket.as_raw(),
                    fd: domain.as_raw(),
                    off: sock_type.as_raw() as u64,
                    len: protocol as u32,
                    op_flags: flags.bits(),
                    splice_fd_in: file_index,
                    ..IoUringSqe::zeroed()
                },
            ),
    {
        Sqe(
            IoUringSqe {
                opcode: Opcode::Socket.as_raw(),
                fd: domain.as_raw(),
                off: sock_type.as_raw() as u64,
                len: protocol as u32,
                op_flags: flags.bits(),
                splice_fd_in: file_index,
                ..IoUringSqe::zeroed()
            },
        )
    }

    /// Shut down part of a connection.
    #[verifier::allow_in_spec]
    pub fn shutdown(fd: RawFd, how: ShutdownHow) -> Self
        returns
            Sqe(
                IoUringSqe {
                    opcode: Opcode::Shutdown.as_raw(),
                    fd: fd.as_i32(),
                    len: how.as_raw(),
                    ..IoUringSqe::zeroed()
                },
            ),
    {
        Sqe(
            IoUringSqe {
                opcode: Opcode::Shutdown.as_raw(),
                fd: fd.as_i32(),
                len: how.as_raw(),
                ..IoUringSqe::zeroed()
            },
        )
    }

    /// Connect to the address that `addr` holds.
    ///
    /// A length beyond 32 bits is cut off.
    #[verifier::allow_in_spec]
    pub fn connect<B: StableBuffer>(fd: RawFd, addr: &B) -> Self
        returns
            Sqe::connect_ptr(fd, addr.addr() as u64, addr.bytes().len() as usize as u32),
    {
        Sqe::connect_ptr(fd, addr.stable_ptr() as u64, addr.stable_len() as u32)
    }

    /// [`connect`](Self::connect) with `addrlen` bytes at `addr`.
    #[verifier::allow_in_spec]
    pub fn connect_ptr(fd: RawFd, addr: u64, addrlen: u32) -> Self
        returns
            Sqe(
                IoUringSqe {
                    opcode: Opcode::Connect.as_raw(),
                    fd: fd.as_i32(),
                    addr: addr,
                    off: addrlen as u64,
                    ..IoUringSqe::zeroed()
                },
            ),
    {
        Sqe(
            IoUringSqe {
                opcode: Opcode::Connect.as_raw(),
                fd: fd.as_i32(),
                addr: addr,
                off: addrlen as u64,
                ..IoUringSqe::zeroed()
            },
        )
    }

    /// Bind to the address in the `addrlen` bytes at `addr`.
    #[verifier::allow_in_spec]
    pub fn bind_ptr(fd: RawFd, addr: u64, addrlen: u32) -> Self
        returns
            Sqe(
                IoUringSqe {
                    opcode: Opcode::Bind.as_raw(),
                    fd: fd.as_i32(),
                    addr: addr,
                    off: addrlen as u64,
                    ..IoUringSqe::zeroed()
                },
            ),
    {
        Sqe(
            IoUringSqe {
                opcode: Opcode::Bind.as_raw(),
                fd: fd.as_i32(),
                addr: addr,
                off: addrlen as u64,
                ..IoUringSqe::zeroed()
            },
        )
    }

    /// Accept connections, keeping up to `backlog` waiting.
    #[verifier::allow_in_spec]
    pub fn listen(fd: RawFd, backlog: u32) -> Self
        returns
            Sqe(
                IoUringSqe {
                    opcode: Opcode::Listen.as_raw(),
                    fd: fd.as_i32(),
                    len: backlog,
                    ..IoUringSqe::zeroed()
                },
            ),
    {
        Sqe(
            IoUringSqe {
                opcode: Opcode::Listen.as_raw(),
                fd: fd.as_i32(),
                len: backlog,
                ..IoUringSqe::zeroed()
            },
        )
    }

    /// Accept one connection, ignoring the peer's address.
    #[verifier::allow_in_spec]
    pub fn accept(fd: RawFd, flags: AcceptFlags) -> Self
        returns
            Sqe::accept_ptr(fd, 0, 0, flags),
    {
        Sqe::accept_ptr(fd, 0, 0, flags)
    }

    /// Accept one connection; the peer's address goes to `addr`, its length
    /// to `addrlen`.
    #[verifier::allow_in_spec]
    pub fn accept_ptr(fd: RawFd, addr: u64, addrlen: u64, flags: AcceptFlags) -> Self
        returns
            Sqe(
                IoUringSqe {
                    opcode: Opcode::Accept.as_raw(),
                    fd: fd.as_i32(),
                    addr: addr,
                    off: addrlen,
                    op_flags: flags.bits(),
                    ..IoUringSqe::zeroed()
                },
            ),
    {
        Sqe(
            IoUringSqe {
                opcode: Opcode::Accept.as_raw(),
                fd: fd.as_i32(),
                addr: addr,
                off: addrlen,
                op_flags: flags.bits(),
                ..IoUringSqe::zeroed()
            },
        )
    }

    /// Accept one connection, and learn the peer's address.
    #[verifier::allow_in_spec]
    pub fn accept_with_addr(
        fd: RawFd,
        addr: &Placed<SockAddrIn>,
        addrlen: &Placed<u32>,
        flags: AcceptFlags,
    ) -> Self
        returns
            Sqe::accept_ptr(fd, addr.addr, addrlen.addr, flags),
    {
        Sqe::accept_ptr(fd, addr.addr, addrlen.addr, flags)
    }

    /// Accept connections until cancelled, one completion each.
    #[verifier::allow_in_spec]
    pub fn accept_multishot(fd: RawFd, flags: AcceptFlags) -> Self
        returns
            Sqe(
                IoUringSqe {
                    opcode: Opcode::Accept.as_raw(),
                    fd: fd.as_i32(),
                    op_flags: flags.bits(),
                    ioprio: IORING_ACCEPT_MULTISHOT,
                    ..IoUringSqe::zeroed()
                },
            ),
    {
        Sqe(
            IoUringSqe {
                opcode: Opcode::Accept.as_raw(),
                fd: fd.as_i32(),
                op_flags: flags.bits(),
                ioprio: IORING_ACCEPT_MULTISHOT,
                ..IoUringSqe::zeroed()
            },
        )
    }

    /// Accept connections until cancelled, each into a file-table slot that
    /// the kernel chooses.
    #[verifier::allow_in_spec]
    pub fn accept_multishot_direct(fd: RawFd, flags: AcceptFlags) -> Self
        returns
            Sqe(IoUringSqe { splice_fd_in: -1i32, ..Sqe::accept_multishot(fd, flags).0 }),
    {
        Sqe(IoUringSqe { splice_fd_in: -1i32, ..Sqe::accept_multishot(fd, flags).0 })
    }

    /// Send what `buf` holds.
    #[verifier::allow_in_spec]
    pub fn send<B: StableBuffer>(fd: RawFd, buf: &B, flags: MsgFlags) -> Self
        requires
            buf.bytes().len() <= u32::MAX,
        returns
            Sqe::send_ptr(fd, buf.addr() as u64, buf.bytes().len() as u32, flags),
    {
        Sqe::send_ptr(fd, buf.stable_ptr() as u64, buf.stable_len() as u32, flags)
    }

    /// [`send`](Self::send) with `len` bytes at `buf`.
    #[verifier::allow_in_spec]
    pub fn send_ptr(fd: RawFd, buf: u64, len: u32, flags: MsgFlags) -> Self
        returns
            Sqe(
                IoUringSqe {
                    opcode: Opcode::Send.as_raw(),
                    fd: fd.as_i32(),
                    addr: buf,
                    len: len,
                    op_flags: flags.bits(),
                    ..IoUringSqe::zeroed()
                },
            ),
    {
        Sqe(
            IoUringSqe {
                opcode: Opcode::Send.as_raw(),
                fd: fd.as_i32(),
                addr: buf,
                len: len,
                op_flags: flags.bits(),
                ..IoUringSqe::zeroed()
            },
        )
    }

    /// Receive into `buf`.
    #[verifier::allow_in_spec]
    pub fn recv<B: StableBufferMut>(fd: RawFd, buf: &B, flags: MsgFlags) -> Self
        requires
            buf.bytes().len() <= u32::MAX,
        returns
            Sqe::recv_ptr(fd, buf.addr() as u64, buf.bytes().len() as u32, flags),
    {
        Sqe::recv_ptr(fd, buf.stable_ptr() as u64, buf.stable_len() as u32, flags)
    }

    /// [`recv`](Self::recv) into `len` bytes at `buf`.
    #[verifier::allow_in_spec]
    pub fn recv_ptr(fd: RawFd, buf: u64, len: u32, flags: MsgFlags) -> Self
        returns
            Sqe(
                IoUringSqe {
                    opcode: Opcode::Recv.as_raw(),
                    fd: fd.as_i32(),
                    addr: buf,
                    len: len,
                    op_flags: flags.bits(),
                    ..IoUringSqe::zeroed()
                },
            ),
    {
        Sqe(
            IoUringSqe {
                opcode: Opcode::Recv.as_raw(),
                fd: fd.as_i32(),
                addr: buf,
                len: len,
                op_flags: flags.bits(),
                ..IoUringSqe::zeroed()
            },
        )
    }

    /// Receive until cancelled, one completion per arrival, into buffers of
    /// a pool.
    ///
    /// The multishot bit sits in the priority field: in the flags it would
    /// ask to peek.
    #[verifier::allow_in_spec]
    pub fn recv_multishot(fd: RawFd, flags: MsgFlags) -> Self
        returns
            Sqe(
                IoUringSqe {
                    opcode: Opcode::Recv.as_raw(),
                    fd: fd.as_i32(),
                    op_flags: flags.bits(),
                    ioprio: IORING_RECV_MULTISHOT,
                    ..IoUringSqe::zeroed()
                },
            ),
    {
        Sqe(
            IoUringSqe {
                opcode: Opcode::Recv.as_raw(),
                fd: fd.as_i32(),
                op_flags: flags.bits(),
                ioprio: IORING_RECV_MULTISHOT,
                ..IoUringSqe::zeroed()
            },
        )
    }

    /// Send the message that `msg` describes.
    #[verifier::allow_in_spec]
    pub fn sendmsg(fd: RawFd, msg: &Placed<MsgHdr>, flags: MsgFlags) -> Self
        returns
            Sqe::sendmsg_ptr(fd, msg.addr, flags),
    {
        Sqe::sendmsg_ptr(fd, msg.addr, flags)
    }

    /// [`sendmsg`](Self::sendmsg) with the header at `msg`.
    #[verifier::allow_in_spec]
    pub fn sendmsg_ptr(fd: RawFd, msg: u64, flags: MsgFlags) -> Self
        returns
            Sqe(
                IoUringSqe {
                    opcode: Opcode::SendMsg.as_raw(),
                    fd: fd.as_i32(),
                    addr: msg,
                    len: 1,
                    op_flags: flags.bits(),
                    ..IoUringSqe::zeroed()
                },
            ),
    {
        Sqe(
            IoUringSqe {
                opcode: Opcode::SendMsg.as_raw(),
                fd: fd.as_i32(),
                addr: msg,
                len: 1,
                op_flags: flags.bits(),
                ..IoUringSqe::zeroed()
            },
        )
    }

    /// Receive a message as `msg` describes.
    #[verifier::allow_in_spec]
    pub fn recvmsg(fd: RawFd, msg: &Placed<MsgHdr>, flags: MsgFlags) -> Self
        returns
            Sqe::recvmsg_ptr(fd, msg.addr, flags),
    {
        Sqe::recvmsg_ptr(fd, msg.addr, flags)
    }

    /// [`recvmsg`](Self::recvmsg) with the header at `msg`.
    #[verifier::allow_in_spec]
    pub fn recvmsg_ptr(fd: RawFd, msg: u64, flags: MsgFlags) -> Self
        returns
            Sqe(
                IoUringSqe {
                    opcode: Opcode::RecvMsg.as_raw(),
                    fd: fd.as_i32(),
                    addr: msg,
                    len: 1,
                    op_flags: flags.bits(),
                    ..IoUringSqe::zeroed()
                },
            ),
    {
        Sqe(
            IoUringSqe {
                opcode: Opcode::RecvMsg.as_raw(),
                fd: fd.as_i32(),
                addr: msg,
                len: 1,
                op_flags: flags.bits(),
                ..IoUringSqe::zeroed()
            },
        )
    }

    /// Receive messages until cancelled, into buffers of a pool.
    #[verifier::allow_in_spec]
    pub fn recvmsg_multishot(fd: RawFd, msg: u64, flags: MsgFlags) -> Self
        returns
            Sqe(
                IoUringSqe {
                    opcode: Opcode::RecvMsg.as_raw(),
                    fd: fd.as_i32(),
                    addr: msg,
                    len: 1,
                    op_flags: flags.bits(),
                    ioprio: IORING_RECV_MULTISHOT,
                    ..IoUringSqe::zeroed()
                },
            ),
    {
        Sqe(
            IoUringSqe {
                opcode: Opcode::RecvMsg.as_raw(),
                fd: fd.as_i32(),
                addr: msg,
                len: 1,
                op_flags: flags.bits(),
                ioprio: IORING_RECV_MULTISHOT,
                ..IoUringSqe::zeroed()
            },
        )
    }

    /// Send what `buf` holds without copying it.
    ///
    /// The kernel reads the memory until a completion with the notification
    /// flag, which is not the first one.
    #[verifier::allow_in_spec]
    pub fn send_zc<B: StableBuffer>(fd: RawFd, buf: &B, flags: MsgFlags) -> Self
        requires
            buf.bytes().len() <= u32::MAX,
        returns
            Sqe::send_zc_ptr(fd, buf.addr() as u64, buf.bytes().len() as u32, flags),
    {
        Sqe::send_zc_ptr(fd, buf.stable_ptr() as u64, buf.stable_len() as u32, flags)
    }

    /// [`send_zc`](Self::send_zc) with `len` bytes at `buf`.
    #[verifier::allow_in_spec]
    pub fn send_zc_ptr(fd: RawFd, buf: u64, len: u32, flags: MsgFlags) -> Self
        returns
            Sqe(
                IoUringSqe {
                    opcode: Opcode::SendZc.as_raw(),
                    fd: fd.as_i32(),
                    addr: buf,
                    len: len,
                    op_flags: flags.bits(),
                    ..IoUringSqe::zeroed()
                },
            ),
    {
        Sqe(
            IoUringSqe {
                opcode: Opcode::SendZc.as_raw(),
                fd: fd.as_i32(),
                addr: buf,
                len: len,
                op_flags: flags.bits(),
                ..IoUringSqe::zeroed()
            },
        )
    }
}

/// Creating a socket is operation 45. Into a slot it also names the slot, or
/// -1 to let the kernel choose.
pub proof fn sockets_say_their_kind(
    domain: AddressFamily,
    kind: SocketType,
    protocol: i32,
    flags: SocketFlags,
    slot: i32,
)
    ensures
        Sqe::socket(domain, kind, protocol, flags).0 == (IoUringSqe {
            opcode: 45,
            fd: domain.as_raw(),
            off: kind.as_raw() as u64,
            len: protocol as u32,
            op_flags: flags.0,
            ..blank()
        }),
        Sqe::socket_direct_at(domain, kind, protocol, flags, slot).0 == (IoUringSqe {
            opcode: 45,
            fd: domain.as_raw(),
            off: kind.as_raw() as u64,
            len: protocol as u32,
            op_flags: flags.0,
            splice_fd_in: slot,
            ..blank()
        }),
        Sqe::socket_direct(domain, kind, protocol, flags).0 == (IoUringSqe {
            opcode: 45,
            fd: domain.as_raw(),
            off: kind.as_raw() as u64,
            len: protocol as u32,
            op_flags: flags.0,
            splice_fd_in: -1 as i32,
            ..blank()
        }),
{
}

/// Connecting, 16, and binding, 56, name an address in the same way and are
/// never the same request. Listening is operation 57 and shutting down 34.
pub proof fn connections_are_not_bindings(fd: RawFd, addr: u64, len: u32, how: ShutdownHow)
    ensures
        Sqe::connect_ptr(fd, addr, len).0 == (IoUringSqe {
            opcode: 16,
            fd: fd.as_i32(),
            off: len as u64,
            addr: addr,
            ..blank()
        }),
        Sqe::bind_ptr(fd, addr, len).0 == (IoUringSqe {
            opcode: 56,
            fd: fd.as_i32(),
            off: len as u64,
            addr: addr,
            ..blank()
        }),
        Sqe::connect_ptr(fd, addr, len) != Sqe::bind_ptr(fd, addr, len),
        Sqe::listen(fd, len).0 == (IoUringSqe { opcode: 57, fd: fd.as_i32(), len: len, ..blank() }),
        Sqe::shutdown(fd, how).0 == (IoUringSqe {
            opcode: 34,
            fd: fd.as_i32(),
            len: how.as_raw(),
            ..blank()
        }),
{
}

/// Accepting is operation 13. Option 1 keeps it accepting, which a plain accept
/// lacks. Into slots, the kernel chooses each.
pub proof fn multishot_accepts_go_on(fd: RawFd, addr: u64, addrlen: u64, flags: AcceptFlags)
    ensures
        Sqe::accept(fd, flags).0 == (IoUringSqe {
            opcode: 13,
            fd: fd.as_i32(),
            op_flags: flags.0,
            ..blank()
        }),
        Sqe::accept_ptr(fd, addr, addrlen, flags).0 == (IoUringSqe {
            opcode: 13,
            fd: fd.as_i32(),
            off: addrlen,
            addr: addr,
            op_flags: flags.0,
            ..blank()
        }),
        Sqe::accept_multishot(fd, flags).0 == (IoUringSqe {
            opcode: 13,
            ioprio: 1,
            fd: fd.as_i32(),
            op_flags: flags.0,
            ..blank()
        }),
        Sqe::accept_multishot_direct(fd, flags).0 == (IoUringSqe {
            opcode: 13,
            ioprio: 1,
            fd: fd.as_i32(),
            op_flags: flags.0,
            splice_fd_in: -1 as i32,
            ..blank()
        }),
{
}

/// An accept that wants the peer's address names the room for it and the room
/// for its length.
pub proof fn accepts_name_the_room_for_the_peer(
    fd: RawFd,
    addr: Placed<SockAddrIn>,
    len: Placed<u32>,
    flags: AcceptFlags,
)
    ensures
        Sqe::accept_with_addr(fd, &addr, &len, flags).0 == (IoUringSqe {
            opcode: 13,
            fd: fd.as_i32(),
            off: len.addr,
            addr: addr.addr,
            op_flags: flags.0,
            ..blank()
        }),
{
}

/// Sending is operation 26, without copying 47, and receiving 27. Option 2
/// keeps a receive receiving, into memory of a pool.
pub proof fn sends_and_receives_say_which(fd: RawFd, buf: u64, len: u32, flags: MsgFlags)
    ensures
        Sqe::send_ptr(fd, buf, len, flags).0 == (IoUringSqe {
            opcode: 26,
            fd: fd.as_i32(),
            addr: buf,
            len: len,
            op_flags: flags.0,
            ..blank()
        }),
        Sqe::recv_ptr(fd, buf, len, flags).0 == (IoUringSqe {
            opcode: 27,
            fd: fd.as_i32(),
            addr: buf,
            len: len,
            op_flags: flags.0,
            ..blank()
        }),
        Sqe::send_zc_ptr(fd, buf, len, flags).0 == (IoUringSqe {
            opcode: 47,
            fd: fd.as_i32(),
            addr: buf,
            len: len,
            op_flags: flags.0,
            ..blank()
        }),
        Sqe::recv_multishot(fd, flags).0 == (IoUringSqe {
            opcode: 27,
            ioprio: 2,
            fd: fd.as_i32(),
            op_flags: flags.0,
            ..blank()
        }),
{
}

/// A send or receive of an owned buffer covers exactly that buffer, and a
/// connect to an address in one all of it.
pub proof fn owned_buffers_are_covered<B: StableBufferMut>(fd: RawFd, buf: B, flags: MsgFlags)
    requires
        buf.bytes().len() <= u32::MAX,
    ensures
        Sqe::send(fd, &buf, flags).0 == (IoUringSqe {
            opcode: 26,
            fd: fd.as_i32(),
            addr: buf.addr() as u64,
            len: buf.bytes().len() as u32,
            op_flags: flags.0,
            ..blank()
        }),
        Sqe::recv(fd, &buf, flags).0 == (IoUringSqe {
            opcode: 27,
            fd: fd.as_i32(),
            addr: buf.addr() as u64,
            len: buf.bytes().len() as u32,
            op_flags: flags.0,
            ..blank()
        }),
        Sqe::send_zc(fd, &buf, flags).0 == (IoUringSqe {
            opcode: 47,
            fd: fd.as_i32(),
            addr: buf.addr() as u64,
            len: buf.bytes().len() as u32,
            op_flags: flags.0,
            ..blank()
        }),
        Sqe::connect(fd, &buf).0 == (IoUringSqe {
            opcode: 16,
            fd: fd.as_i32(),
            off: buf.bytes().len() as u64,
            addr: buf.addr() as u64,
            ..blank()
        }),
{
}

/// A message is sent by operation 9 and received by 10, one at a time, through
/// its header. Option 2 keeps a receive receiving.
pub proof fn messages_go_through_their_header(
    fd: RawFd,
    hdr: u64,
    placed: Placed<MsgHdr>,
    flags: MsgFlags,
)
    ensures
        Sqe::sendmsg_ptr(fd, hdr, flags).0 == (IoUringSqe {
            opcode: 9,
            fd: fd.as_i32(),
            addr: hdr,
            len: 1,
            op_flags: flags.0,
            ..blank()
        }),
        Sqe::recvmsg_ptr(fd, hdr, flags).0 == (IoUringSqe {
            opcode: 10,
            fd: fd.as_i32(),
            addr: hdr,
            len: 1,
            op_flags: flags.0,
            ..blank()
        }),
        Sqe::recvmsg_multishot(fd, hdr, flags).0 == (IoUringSqe {
            opcode: 10,
            ioprio: 2,
            fd: fd.as_i32(),
            addr: hdr,
            len: 1,
            op_flags: flags.0,
            ..blank()
        }),
        Sqe::sendmsg(fd, &placed, flags).0 == (IoUringSqe {
            opcode: 9,
            fd: fd.as_i32(),
            addr: placed.addr,
            len: 1,
            op_flags: flags.0,
            ..blank()
        }),
        Sqe::recvmsg(fd, &placed, flags).0 == (IoUringSqe {
            opcode: 10,
            fd: fd.as_i32(),
            addr: placed.addr,
            len: 1,
            op_flags: flags.0,
            ..blank()
        }),
{
}

} // verus!
