//! Layouts, flags and plain calls.

use ququmatz::eventfd::EventFd;
use ququmatz::fs::File;
use ququmatz::inotify::Inotify;
use ququmatz::net::Socket;
use ququmatz::syscall::SystemCall;
use ququmatz::text::{numeral_text, with_decimal, with_signed_decimal};
use ququmatz::types::abi::{
    Abi, EpollEvent, FutexWaitv, IoVec, MsgHdr, OpenHow, SockAddrIn, Statx, Timespec,
};
use ququmatz::types::codes::ShutdownHow;
use ququmatz::types::fd::{DirFd, RawFd};
use ququmatz::types::flags::{
    AcceptFlags, CqeFlags, EventFdFlags, Futex2Flags, MsgFlags, StatxMask, WatchMask,
};
use ququmatz::types::open::{OpenFlags, ResolveFlags};
use ququmatz::{Errno, Error};

#[test]
fn structures_have_the_kernels_layout() {
    assert_eq!((OpenHow::size_of(), OpenHow::align_of()), (24, 8));
    assert_eq!((Timespec::size_of(), Timespec::align_of()), (16, 8));
    assert_eq!((EpollEvent::size_of(), EpollEvent::align_of()), (12, 1));
    assert_eq!((IoVec::size_of(), IoVec::align_of()), (16, 8));
    assert_eq!((MsgHdr::size_of(), MsgHdr::align_of()), (56, 8));
    assert_eq!((Statx::size_of(), Statx::align_of()), (256, 8));
    assert_eq!((FutexWaitv::size_of(), FutexWaitv::align_of()), (24, 8));
    assert_eq!((SockAddrIn::size_of(), SockAddrIn::align_of()), (16, 4));
    assert_eq!((i32::size_of(), i32::align_of()), (4, 4));
}

#[test]
fn structures_survive_their_bytes() {
    let how = OpenHow {
        flags: 1,
        mode: 2,
        resolve: u64::MAX,
    };
    assert_eq!(OpenHow::decode(&how.encode()), how);
    let time = Timespec::new(-1, i64::MIN);
    assert_eq!(Timespec::decode(&time.encode()), time);
    let event = EpollEvent {
        events: 0x0102_0304,
        data: 5,
    };
    assert_eq!(
        event.encode(),
        [4, 3, 2, 1, 5, 0, 0, 0, 0, 0, 0, 0]
    );
    assert_eq!(EpollEvent::decode(&event.encode()), event);
    let header = MsgHdr {
        msg_name: 1,
        msg_namelen: 2,
        msg_iov: 3,
        msg_iovlen: 4,
        msg_control: 5,
        msg_controllen: 6,
        msg_flags: 7,
    };
    assert_eq!(MsgHdr::decode(&header.encode()), header);
    let word = FutexWaitv::new(0x10, 2, Futex2Flags(3));
    assert_eq!(FutexWaitv::decode(&word.encode()), word);
    for n in [0, 1, -1, i32::MIN, i32::MAX] {
        assert_eq!(i32::decode(&n.encode()), n);
        assert_eq!(n.encode(), n.to_le_bytes());
    }
    let addr = SockAddrIn {
        sin_family: 2,
        sin_port: 0x1F90,
        sin_addr: 0x0100_007F,
        sin_zero: [1, 2, 3, 4, 5, 6, 7, 8],
    };
    assert_eq!(
        addr.to_bytes(),
        [2, 0, 0x90, 0x1F, 0x7F, 0, 0, 1, 1, 2, 3, 4, 5, 6, 7, 8]
    );
    assert_eq!(SockAddrIn::decode(&addr.to_bytes()), addr);
}

#[test]
fn a_report_says_which_fields_it_filled() {
    let mut stat = Statx::decode(&[0; 256]);
    assert_eq!((stat.size(), stat.nlink()), (None, None));
    stat.stx_mask = StatxMask::size().bits();
    stat.stx_size = 9;
    assert_eq!((stat.size(), stat.nlink()), (Some(9), None));
    assert_eq!(Statx::decode(&stat.encode()), stat);
}

#[test]
fn unknown_flags_are_dropped() {
    assert_eq!(OpenFlags::from_bits_truncate(u32::MAX).bits(), 0o32_603_703);
    assert_eq!(OpenFlags::from_bits_truncate(0o102), OpenFlags::creat().union(OpenFlags::rdwr()));
    assert!(OpenFlags::tmpfile().contains(OpenFlags::empty()));
    assert!(!OpenFlags::creat().contains(OpenFlags::excl()));
    assert_eq!(ResolveFlags::from_bits_truncate(u64::MAX).bits(), 0x3f);
    assert_eq!(
        ResolveFlags::beneath().union(ResolveFlags::in_root()).bits(),
        0x18
    );
}

#[test]
fn completion_flags_carry_a_buffer() {
    let flags = CqeFlags::from_raw(0xABCD_0001);
    assert_eq!(flags.buffer_id(), Some(0xABCD));
    assert!(!flags.contains(CqeFlags::more()));
    assert_eq!(CqeFlags::from_raw(0xABCD_0002).buffer_id(), None);
}

#[test]
fn descriptors_and_directories() {
    assert_eq!(RawFd::from_raw(7).as_i32(), 7);
    assert_eq!(DirFd::Cwd.as_raw(), -100);
    assert_eq!(DirFd::Fd(RawFd(7)).as_raw(), 7);
}

#[test]
fn numerals() {
    assert_eq!(numeral_text(0, 10), "0");
    assert_eq!(numeral_text(u64::MAX, 10), "18446744073709551615");
    assert_eq!(numeral_text(0o644, 8), "644");
    assert_eq!(with_decimal(String::from("n="), 42), "n=42");
    assert_eq!(with_signed_decimal(String::new(), -2_147_483_648), "-2147483648");
}

#[test]
fn an_event_counter_is_eight_bytes() {
    assert!(matches!(
        EventFd::new_call(3),
        SystemCall::Eventfd2 { initval: 3, flags } if flags == EventFdFlags::nonblock().bits()
    ));
    assert_eq!(EventFd::new(Err(Errno(24))).err(), Some(Error::Syscall(Errno(24))));
    let counter = EventFd::new(Ok(9)).expect("created");
    assert_eq!(counter.fd(), RawFd(9));
    let SystemCall::Write { fd, data } = counter.write_call(0x0102) else {
        panic!("a write expected");
    };
    assert_eq!((fd, data), (RawFd(9), vec![2, 1, 0, 0, 0, 0, 0, 0]));
    assert_eq!(counter.write(Ok(8)), Ok(()));
    assert!(matches!(
        counter.read_call(),
        SystemCall::Read { fd: RawFd(9), room: 8 }
    ));
    assert_eq!(counter.read(Ok([2, 1, 0, 0, 0, 0, 0, 0])), Ok(0x0102));
    assert_eq!(counter.read(Err(Errno(11))), Err(Error::Syscall(Errno(11))));
    assert!(matches!(counter.close_call(), SystemCall::Close { fd: RawFd(9) }));
    assert_eq!(counter.close(Ok(0)), Ok(()));
}

#[test]
fn watches_are_numbered() {
    let watcher = Inotify::new(Ok(4)).expect("created");
    let SystemCall::InotifyAddWatch { fd, path, mask } =
        watcher.add_watch_call(b"/tmp\0", WatchMask(0x100))
    else {
        panic!("a watch expected");
    };
    assert_eq!((fd, &path[..], mask), (RawFd(4), &b"/tmp\0"[..], 0x100));
    assert_eq!(watcher.add_watch(Ok(1)), Ok(1));
    assert_eq!(watcher.add_watch(Err(Errno(2))), Err(Error::Syscall(Errno(2))));
    assert!(matches!(
        watcher.remove_watch_call(1),
        SystemCall::InotifyRmWatch { fd: RawFd(4), wd: 1 }
    ));
    assert_eq!(watcher.into_fd(), RawFd(4));
}

#[test]
fn sockets_ask_and_interpret() {
    assert!(matches!(
        Socket::new_call(2, 1, 6),
        SystemCall::Socket { domain: 2, sock_type: 1, protocol: 6 }
    ));
    let socket = Socket::new(Ok(5)).expect("created");
    let addr = SockAddrIn {
        sin_family: 2,
        ..SockAddrIn::default()
    };
    let SystemCall::Bind { addr: bytes, .. } = socket.bind_call(&addr) else {
        panic!("a bind expected");
    };
    assert_eq!(bytes, addr.to_bytes());
    assert_eq!(socket.bind(Err(Errno(98))), Err(Error::Syscall(Errno(98))));
    assert!(matches!(
        socket.accept_call(AcceptFlags(0o4000)),
        SystemCall::Accept4 { fd: RawFd(5), addr_room: 16, sock_flags: 0o4000 }
    ));
    let (peer, from) = socket
        .accept(Ok((8, addr.to_bytes())))
        .expect("accepted");
    assert_eq!((peer.into_fd(), from), (RawFd(8), addr));
    assert!(matches!(
        socket.shutdown_call(ShutdownHow::Write),
        SystemCall::Shutdown { fd: RawFd(5), how: 1 }
    ));
    assert!(matches!(
        socket.recv_call(64, MsgFlags(2)),
        SystemCall::RecvFrom { fd: RawFd(5), room: 64, flags: 2 }
    ));
    assert_eq!(socket.recv(Ok(3)), Ok(3));
    assert_eq!(socket.local_addr(Ok(addr.to_bytes())), Ok(addr));
    assert_eq!(socket.close(Err(Errno(9))), Err(Error::Syscall(Errno(9))));
}

#[test]
fn results_become_descriptors_or_nothing() {
    assert_eq!(File::claim(0).map(|f| f.fd()), Some(RawFd(0)));
    assert!(File::claim(-1).is_none());
    assert_eq!(Socket::claim(7).map(|s| s.into_fd()), Some(RawFd(7)));
    assert!(Socket::claim(i32::MIN).is_none());
    let file = File::from_fd(RawFd(3));
    assert!(matches!(file.close_call(), SystemCall::Close { fd: RawFd(3) }));
    assert_eq!(file.close(Ok(0)), Ok(()));
}
