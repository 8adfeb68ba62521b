//! Submission entries, field by field.

use ququmatz::op::{IoUringSqe, Sqe};
use ququmatz::owned::buffer::MmapBuffer;
use ququmatz::owned::path::OwnedPath;
use ququmatz::types::abi::{
    EpollEvent, FutexWaitv, IoVec, MsgHdr, OpenHow, Placed, SockAddrIn, Timespec,
};
use ququmatz::types::codes::{
    AddressFamily, EpollOp, FadviseAdvice, IdType, MadviseAdvice, Opcode, SendRecvFlag,
    ShutdownHow, SocketType,
};
use ququmatz::types::fd::{DirFd, RawFd};
use ququmatz::types::flags::{
    AcceptFlags, CancelFlags, FallocateMode, FileMode, FsyncFlags, Futex2Flags, MsgFlags,
    MsgRingFlags, PollMask, RenameFlags, SocketFlags, SpliceFlags, SqeFlags, TimeoutFlags,
    UnlinkFlags, WaitOptions,
};
use ququmatz::types::open::OpenFlags;

const FD: RawFd = RawFd(5);

/// An entry with only the given fields set.
fn entry(fields: IoUringSqe) -> Sqe {
    Sqe(fields)
}

fn zero() -> IoUringSqe {
    IoUringSqe::zeroed()
}

fn buffer(len: usize) -> MmapBuffer {
    MmapBuffer::with_capacity(len, Ok((0x7000, vec![0; len].leak()))).expect("map")
}

fn placed<T>(value: T) -> Placed<T> {
    Placed {
        addr: 0x9000,
        value,
    }
}

#[test]
fn a_nop_is_all_zero() {
    assert_eq!(Sqe::nop(), entry(zero()));
}

#[test]
fn reads_and_writes() {
    let expected = IoUringSqe {
        opcode: 22,
        fd: 5,
        addr: 0x7000,
        len: 64,
        off: 9,
        ..zero()
    };
    assert_eq!(Sqe::read(FD, &buffer(64), 9), entry(expected));
    assert_eq!(Sqe::read_ptr(FD, 0x7000, 64, 9), entry(expected));
    assert_eq!(
        Sqe::write(FD, &buffer(64), 9),
        entry(IoUringSqe {
            opcode: 23,
            ..expected
        })
    );
    assert_eq!(
        Sqe::read_fixed(FD, 0x7000, 64, 9, 3),
        entry(IoUringSqe {
            opcode: 4,
            buf_index: 3,
            ..expected
        })
    );
    assert_eq!(
        Sqe::write_fixed(FD, 0x7000, 64, 9, 3),
        entry(IoUringSqe {
            opcode: 5,
            buf_index: 3,
            ..expected
        })
    );
    let vecs = placed(vec![IoVec::new(1, 2), IoVec::new(3, 4)]);
    let vectored = IoUringSqe {
        opcode: 1,
        fd: 5,
        addr: 0x9000,
        len: 2,
        off: 9,
        ..zero()
    };
    assert_eq!(Sqe::readv(FD, &vecs, 9), entry(vectored));
    assert_eq!(
        Sqe::writev(FD, &vecs, 9),
        entry(IoUringSqe {
            opcode: 2,
            ..vectored
        })
    );
}

#[test]
fn files() {
    assert_eq!(
        Sqe::close(FD),
        entry(IoUringSqe {
            opcode: 19,
            fd: 5,
            ..zero()
        })
    );
    assert_eq!(Sqe::fdatasync(FD), Sqe::fsync(FD, FsyncFlags::datasync()));
    assert_eq!(
        Sqe::fallocate(FD, FallocateMode(1), 2, 3),
        entry(IoUringSqe {
            opcode: 17,
            fd: 5,
            off: 2,
            addr: 3,
            len: 1,
            ..zero()
        })
    );
    assert_eq!(
        Sqe::fadvise(FD, 1, 2, FadviseAdvice::WillNeed),
        entry(IoUringSqe {
            opcode: 24,
            fd: 5,
            off: 1,
            len: 2,
            op_flags: 3,
            ..zero()
        })
    );
    assert_eq!(
        Sqe::madvise(0x10, 2, MadviseAdvice::DontNeed),
        entry(IoUringSqe {
            opcode: 25,
            addr: 0x10,
            len: 2,
            op_flags: 4,
            ..zero()
        })
    );
    assert_eq!(
        Sqe::splice(FD, 1, RawFd(6), 2, 3, SpliceFlags(4)),
        entry(IoUringSqe {
            opcode: 30,
            fd: 5,
            off: 1,
            splice_fd_in: 6,
            addr: 2,
            len: 3,
            op_flags: 4,
            ..zero()
        })
    );
    assert_eq!(
        Sqe::tee(FD, RawFd(6), 3, SpliceFlags(4)),
        entry(IoUringSqe {
            opcode: 33,
            fd: 5,
            splice_fd_in: 6,
            len: 3,
            op_flags: 4,
            ..zero()
        })
    );
}

#[test]
fn paths() {
    let path = OwnedPath::copy_into(buffer(8), b"p").ok().expect("fits");
    assert_eq!(
        Sqe::openat(DirFd::Cwd, &path, OpenFlags::creat(), FileMode(0o600)),
        entry(IoUringSqe {
            opcode: 18,
            fd: -100,
            addr: 0x7000,
            len: 0o600,
            op_flags: 0o100,
            ..zero()
        })
    );
    let how = placed(OpenHow {
        flags: 0,
        mode: 0,
        resolve: 0,
    });
    assert_eq!(
        Sqe::openat2(-100, &path, &how),
        entry(IoUringSqe {
            opcode: 28,
            fd: -100,
            addr: 0x7000,
            off: 0x9000,
            len: 24,
            ..zero()
        })
    );
    assert_eq!(
        Sqe::renameat(DirFd::Cwd, &path, DirFd::Fd(FD), &path, RenameFlags(1)),
        entry(IoUringSqe {
            opcode: 35,
            fd: -100,
            addr: 0x7000,
            len: 5,
            off: 0x7000,
            op_flags: 1,
            ..zero()
        })
    );
    assert_eq!(
        Sqe::unlinkat(DirFd::Fd(FD), &path, UnlinkFlags(0x200)),
        entry(IoUringSqe {
            opcode: 36,
            fd: 5,
            addr: 0x7000,
            op_flags: 0x200,
            ..zero()
        })
    );
    assert_eq!(
        Sqe::mkdirat(DirFd::Fd(FD), &path, FileMode(0o700)),
        entry(IoUringSqe {
            opcode: 37,
            fd: 5,
            addr: 0x7000,
            len: 0o700,
            ..zero()
        })
    );
}

#[test]
fn sockets() {
    let socket = IoUringSqe {
        opcode: 45,
        fd: 2,
        off: 1,
        len: 6,
        op_flags: 8,
        ..zero()
    };
    assert_eq!(
        Sqe::socket(AddressFamily::Inet, SocketType::Stream, 6, SocketFlags(8)),
        entry(socket)
    );
    assert_eq!(
        Sqe::socket_direct(AddressFamily::Inet, SocketType::Stream, 6, SocketFlags(8)),
        entry(IoUringSqe {
            splice_fd_in: -1,
            ..socket
        })
    );
    assert_eq!(
        Sqe::shutdown(FD, ShutdownHow::Both),
        entry(IoUringSqe {
            opcode: 34,
            fd: 5,
            len: 2,
            ..zero()
        })
    );
    assert_eq!(
        Sqe::connect(FD, &buffer(16)),
        entry(IoUringSqe {
            opcode: 16,
            fd: 5,
            addr: 0x7000,
            off: 16,
            ..zero()
        })
    );
    let accept = IoUringSqe {
        opcode: 13,
        fd: 5,
        op_flags: 0o4000,
        ..zero()
    };
    assert_eq!(Sqe::accept(FD, AcceptFlags(0o4000)), entry(accept));
    assert_eq!(
        Sqe::accept_with_addr(
            FD,
            &placed(SockAddrIn::default()),
            &Placed { addr: 0xA000, value: 16 },
            AcceptFlags(0o4000)
        ),
        entry(IoUringSqe {
            addr: 0x9000,
            off: 0xA000,
            ..accept
        })
    );
    assert_eq!(
        Sqe::accept_multishot_direct(FD, AcceptFlags(0o4000)),
        entry(IoUringSqe {
            ioprio: 1,
            splice_fd_in: -1,
            ..accept
        })
    );
    assert_eq!(
        Sqe::send(FD, &buffer(4), MsgFlags(1)),
        entry(IoUringSqe {
            opcode: 26,
            fd: 5,
            addr: 0x7000,
            len: 4,
            op_flags: 1,
            ..zero()
        })
    );
    assert_eq!(
        Sqe::recvmsg(FD, &placed(MsgHdr::empty()), MsgFlags(1)),
        entry(IoUringSqe {
            opcode: 10,
            fd: 5,
            addr: 0x9000,
            len: 1,
            op_flags: 1,
            ..zero()
        })
    );
}

#[test]
fn control() {
    assert_eq!(Sqe::cancel(7), Sqe::cancel_with_flags(7, CancelFlags(0)));
    assert_eq!(
        Sqe::cancel_fd(FD, CancelFlags(1)).cancel_matching_opcode(Opcode::Read),
        entry(IoUringSqe {
            opcode: 14,
            fd: 5,
            op_flags: 1 | 2 | 32,
            len: 22,
            ..zero()
        })
    );
    assert_eq!(
        Sqe::poll_add(FD, PollMask(1)),
        entry(IoUringSqe {
            opcode: 6,
            fd: 5,
            op_flags: 1,
            ..zero()
        })
    );
    assert_eq!(
        Sqe::timeout(&placed(Timespec::new(1, 2)), 3, TimeoutFlags(1)),
        entry(IoUringSqe {
            opcode: 11,
            addr: 0x9000,
            len: 1,
            off: 3,
            op_flags: 1,
            ..zero()
        })
    );
    assert_eq!(
        Sqe::link_timeout(&placed(Timespec::new(1, 2)), TimeoutFlags(0)),
        entry(IoUringSqe {
            opcode: 15,
            addr: 0x9000,
            len: 1,
            ..zero()
        })
    );
    let event = placed(EpollEvent { events: 1, data: 2 });
    assert_eq!(
        Sqe::epoll_ctl(4, EpollOp::Mod, -1, &event),
        entry(IoUringSqe {
            opcode: 29,
            fd: 4,
            off: u64::MAX,
            addr: 0x9000,
            len: 3,
            ..zero()
        })
    );
    assert_eq!(
        Sqe::waitid(IdType::Pid, 12, 0x10, WaitOptions(4)),
        entry(IoUringSqe {
            opcode: 50,
            fd: 12,
            len: 1,
            splice_fd_in: 4,
            off: 0x10,
            ..zero()
        })
    );
    assert_eq!(
        Sqe::futex_waitv(&placed(vec![FutexWaitv::new(1, 2, Futex2Flags(2))])),
        entry(IoUringSqe {
            opcode: 53,
            addr: 0x9000,
            len: 1,
            ..zero()
        })
    );
}

#[test]
fn rings_and_tables() {
    assert_eq!(
        Sqe::msg_ring_fd(RawFd(8), FD, -1, 4),
        entry(IoUringSqe {
            opcode: 40,
            fd: 8,
            addr: 1,
            off: 4,
            addr3: 5,
            splice_fd_in: -1,
            ..zero()
        })
    );
    assert_eq!(
        Sqe::msg_ring_cqe_flags(RawFd(8), 3, 4, 6),
        entry(IoUringSqe {
            splice_fd_in: 6,
            ..Sqe::msg_ring_with_flags(RawFd(8), 3, 4, MsgRingFlags::flags_pass()).0
        })
    );
    assert_eq!(
        Sqe::provide_buffers(0x10, 64, 8, 2, 1),
        entry(IoUringSqe {
            opcode: 31,
            fd: 8,
            addr: 0x10,
            len: 64,
            off: 1,
            buf_index: 2,
            ..zero()
        })
    );
    assert_eq!(
        Sqe::files_update(&placed(vec![1, -1]), 3),
        entry(IoUringSqe {
            opcode: 20,
            addr: 0x9000,
            len: 2,
            off: 3,
            ..zero()
        })
    );
}

#[test]
fn socket_options_share_a_field() {
    let sqe = Sqe::uring_cmd_sock_setsockopt(FD, 1, 15, &buffer(4));
    assert_eq!(
        sqe,
        entry(IoUringSqe {
            opcode: 46,
            fd: 5,
            off: 3,
            addr: 0xF_0000_0001,
            addr3: 0x7000,
            splice_fd_in: 4,
            ..zero()
        })
    );
    assert_eq!(
        Sqe::uring_cmd_sock_getpeername(FD, 0x10, 0x20),
        entry(IoUringSqe {
            splice_fd_in: 1,
            ..Sqe::uring_cmd_sock_getsockname(FD, 0x10, 0x20).0
        })
    );
}

#[test]
fn modifiers_accumulate() {
    let sqe = Sqe::nop()
        .link()
        .fixed_file()
        .link()
        .drain()
        .hardlink()
        .cqe_skip_success()
        .personality(7)
        .user_data(42);
    assert_eq!(sqe.get_user_data(), 42);
    assert_eq!(sqe.0.flags, 1 | 2 | 4 | 8 | 64);
    assert_eq!(sqe.0.personality, 7);
    assert_eq!(
        Sqe::nop().flags(SqeFlags::io_link()).flags(SqeFlags::fixed_file()),
        Sqe::nop().fixed_file().link()
    );
    let selected = Sqe::nop().buffer_select(9);
    assert_eq!((selected.0.flags, selected.0.buf_index), (32, 9));
}

#[test]
fn send_and_receive_options() {
    let sqe = Sqe::send_ptr(FD, 1, 2, MsgFlags(0))
        .with(SendRecvFlag::PollFirst)
        .with(SendRecvFlag::FixedBuf(6));
    assert_eq!((sqe.0.ioprio, sqe.0.buf_index), (1 | 4, 6));
    let reporting = Sqe::send_zc_ptr(FD, 1, 2, MsgFlags(0)).with(SendRecvFlag::ReportUsage);
    assert_eq!((reporting.0.opcode, reporting.0.ioprio), (47, 8));
}

#[test]
fn options_commute_unless_both_name_a_buffer() {
    let sqe = Sqe::send_zc_ptr(FD, 1, 2, MsgFlags(0));
    let (poll, usage) = (SendRecvFlag::PollFirst, SendRecvFlag::ReportUsage);
    let (six, seven) = (SendRecvFlag::FixedBuf(6), SendRecvFlag::FixedBuf(7));
    assert_eq!(sqe.with(poll).with(six), sqe.with(six).with(poll));
    assert_eq!(sqe.with(poll).with(usage), sqe.with(usage).with(poll));
    assert_eq!(sqe.with(six).with(six), sqe.with(six));
    assert_eq!(sqe.with(six).with(seven), sqe.with(seven));
    assert_ne!(sqe.with(six).with(seven), sqe.with(seven).with(six));
}
