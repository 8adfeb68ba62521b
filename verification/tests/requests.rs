//! Requests on storage that a test can look into from outside.

use std::cell::RefCell;
use std::rc::Rc;

use ququmatz::owned::bind::{BindError, PreparedBind};
use ququmatz::owned::buffer::{StableBuffer, StableBufferMut};
use ququmatz::owned::cancel::{CancelTarget, PreparedCancel};
use ququmatz::owned::connect::{ConnectError, PreparedConnect};
use ququmatz::owned::direct::{DirectOpenError, PreparedDirectOpen};
use ququmatz::owned::direct_socket::{DirectSocketError, PreparedDirectSocket};
use ququmatz::owned::epoll::{EpollChange, EpollError, PreparedEpollCtl};
use ququmatz::owned::epollwait::{EpollWaitError, PreparedEpollWait};
use ququmatz::owned::event::Event;
use ququmatz::owned::filesupdate::{FilesUpdateError, PreparedFilesUpdate, TableEntry, Update};
use ququmatz::owned::fixedfdinstall::PreparedFixedFdInstall;
use ququmatz::owned::futex::{FutexWaitOutcome, PreparedFutexWait, PreparedFutexWake};
use ququmatz::owned::futexwaitv::{FutexWaitvError, PreparedFutexWaitv};
use ququmatz::owned::identity::{RequestId, RingId, RingIdSource};
use ququmatz::owned::link::{LinkKind, PreparedLink};
use ququmatz::owned::msgring::PreparedMsgRing;
use ququmatz::owned::open::PreparedOpen;
use ququmatz::owned::openat2::{Openat2Error, Openat2Mode, PreparedOpenat2};
use ququmatz::owned::path::{OwnedPath, PathError};
use ququmatz::owned::pathop::PathOpKind;
use ququmatz::owned::pipe::{PipeError, PreparedPipe};
use ququmatz::owned::recvmsg::{Peer, PeerWanted};
use ququmatz::owned::request::Receipt;
use ququmatz::owned::slot::{DirectSlot, SlotIndex, SlotTarget};
use ququmatz::owned::statx::{PreparedStatx, StatxError};
use ququmatz::owned::timeout::{Count, PreparedTimeout, TimeoutError};
use ququmatz::owned::vectored::{PreparedVectored, VectoredError};
use ququmatz::ring::{Completer, Completion, IoUring, Submitter};
use ququmatz::types::abi::{Abi, EpollEvent, FutexWaitv, SockAddrIn, Timespec};
use ququmatz::types::codes::{AddressFamily, SocketType};
use ququmatz::types::fd::{DirFd, RawFd};
use ququmatz::types::flags::{
    CancelFlags, CqeFlags, EpollEvents, FileMode, Futex2Flags, InstallFdFlags, LinkFlags,
    MsgRingFlags, PipeFlags, SocketFlags, StatxFlags, StatxMask, TimeoutFlags,
};
use ququmatz::types::open::{OpenFlags, ResolveFlags};
use ququmatz::types::outcome::CancelOutcome;
use ququmatz::{CompletionError, Errno, Error};

const RING: RingId = RingId(3);
const ID: RequestId = RequestId(21);

/// Bytes shared with the test.
#[derive(Clone)]
struct Shared {
    addr: usize,
    bytes: Rc<RefCell<Vec<u8>>>,
}

fn shared(addr: usize, len: usize) -> Shared {
    Shared {
        addr,
        bytes: Rc::new(RefCell::new(vec![0; len])),
    }
}

impl StableBuffer for Shared {
    fn stable_ptr(&self) -> usize {
        self.addr
    }

    fn stable_len(&self) -> usize {
        self.bytes.borrow().len()
    }

    fn load(&self, at: usize) -> u8 {
        self.bytes.borrow()[at]
    }
}

impl StableBufferMut for Shared {
    fn stable_mut_ptr(&mut self) -> usize {
        self.addr
    }

    fn store(&mut self, at: usize, b: u8) {
        self.bytes.borrow_mut()[at] = b;
    }
}

/// What a completion of the ring `ring` authorizes once it is reaped there.
fn reaped(ring: RingId, id: RequestId, result: i32, flags: CqeFlags) -> Event {
    let mut rings = RingIdSource::new();
    loop {
        let whole = IoUring {
            submitter: Submitter::new(1),
            completer: Completer::new(),
            affinity: None,
        };
        let (_, mut comp) = whole.split_owned(&mut rings).ok().expect("not bound");
        if comp.ring() == ring {
            comp.raw().post(Completion {
                user_data: id.raw(),
                result,
                flags,
            });
            return comp.reap_event().expect("just posted");
        }
    }
}

fn terminal(ring: RingId, id: RequestId, result: i32, flags: CqeFlags) -> Receipt {
    reaped(ring, id, result, flags)
        .into_receipt()
        .expect("a terminal completion")
}

fn receipt(result: i32) -> Receipt {
    terminal(RING, ID, result, CqeFlags::from_raw(0))
}

fn failed(errno: i32) -> Error {
    Error::Completion(CompletionError::Failed(Errno(errno)))
}

fn path(text: &[u8]) -> OwnedPath<Shared> {
    OwnedPath::copy_into(shared(0x2000, 32), text)
        .ok()
        .expect("fits")
}

#[test]
fn a_pipe_reports_both_ends() {
    let dest = shared(0x1000, 8);
    let prepared = PreparedPipe::new(PipeFlags(0o4000), dest.clone())
        .ok()
        .expect("fits");
    assert_eq!(prepared.flags(), PipeFlags(0o4000));
    let (sqe, pending) = prepared.into_pending(RING, ID);
    assert_eq!((sqe.0.addr, sqe.0.op_flags), (0x1000, 0o4000));
    assert_eq!(sqe.0.user_data, 21);

    // The kernel's part.
    dest.bytes
        .borrow_mut()
        .copy_from_slice(&[7, 0, 0, 0, 8, 1, 0, 0]);
    let done = pending.redeem(receipt(0)).ok().expect("matches");
    assert!(done.is_ok());
    assert_eq!(done.result(), Ok(()));
    assert_eq!((done.read_fd(), done.write_fd()), (Some(7), Some(264)));
    assert_eq!(done.into_dest().stable_ptr(), 0x1000);
}

#[test]
fn a_failed_pipe_reports_no_ends() {
    let store = shared(0x1000, 8);
    store.bytes.borrow_mut().fill(0x5A);
    let (_, pending) = PreparedPipe::new(PipeFlags(0), store)
        .ok()
        .expect("fits")
        .into_pending(RING, ID);
    let prepared = pending.reclaim_unsubmitted();
    let (_, pending) = prepared.into_pending(RING, ID);
    let done = pending.redeem(receipt(-24)).ok().expect("matches");
    assert_eq!(done.result(), Err(failed(24)));
    assert_eq!((done.read_fd(), done.write_fd()), (None, None));
    assert_eq!(*done.into_dest().bytes.borrow(), [0x5A; 8]);
}

#[test]
fn pipe_storage_is_checked() {
    let (_, e) = PreparedPipe::new(PipeFlags(0), shared(0x1000, 7))
        .err()
        .expect("too small");
    assert_eq!(e, PipeError::DestTooSmall { needed: 8, got: 7 });
    let (_, e) = PreparedPipe::new(PipeFlags(0), shared(0x1002, 8))
        .err()
        .expect("misaligned");
    assert_eq!(e, PipeError::DestMisaligned { needed: 4 });
}

#[test]
fn an_epoll_wait_reports_what_was_written() {
    let store = shared(0x1001, 30);
    let prepared = PreparedEpollWait::new(RawFd::from_raw(4), store.clone())
        .ok()
        .expect("fits");
    assert_eq!((prepared.max_events(), prepared.epfd()), (2, RawFd(4)));
    let (sqe, pending) = prepared.into_pending(RING, ID);
    assert_eq!((sqe.0.addr, sqe.0.len, sqe.0.fd), (0x1001, 2, 4));

    let event = EpollEvent {
        events: 5,
        data: 0xABCD,
    };
    store.bytes.borrow_mut()[..12].copy_from_slice(&event.encode());
    let done = pending.redeem(receipt(1)).ok().expect("matches");
    assert_eq!(done.count(), Ok(1));
    assert_eq!(done.events(), [event]);
    assert_eq!(done.store().stable_len(), 30);
    assert_eq!(done.into_store().bytes.borrow()[12..], [0; 18]);
}

#[test]
fn an_epoll_wait_may_report_nothing_or_fail() {
    for (result, count) in [(0, Ok(0)), (-4, Err(failed(4)))] {
        let (_, pending) = PreparedEpollWait::new(RawFd::from_raw(4), shared(0, 12))
            .ok()
            .expect("fits")
            .into_pending(RING, ID);
        let done = pending.redeem(receipt(result)).ok().expect("matches");
        assert_eq!(done.count(), count);
        assert!(done.events().is_empty());
    }
    // A count beyond the storage is never read out.
    let (_, pending) = PreparedEpollWait::new(RawFd::from_raw(4), shared(0, 12))
        .ok()
        .expect("fits")
        .into_pending(RING, ID);
    let done = pending.redeem(receipt(9)).ok().expect("matches");
    assert_eq!(done.events().len(), 1);

    let (_, e) = PreparedEpollWait::new(RawFd::from_raw(4), shared(0, 11))
        .err()
        .expect("too small");
    assert_eq!(e, EpollWaitError::StoreTooSmall { needed: 12, got: 11 });
}

#[test]
fn staged_storage_is_checked() {
    let addr = SockAddrIn::default();
    let (_, e) = PreparedBind::new(RawFd(3), addr, shared(1, 15))
        .err()
        .expect("too small");
    assert_eq!(e, BindError::StoreTooSmall { needed: 16, got: 15 });
    let (_, e) = PreparedConnect::new(RawFd(3), addr, shared(1, 0))
        .err()
        .expect("too small");
    assert_eq!(e, ConnectError::StoreTooSmall { needed: 16, got: 0 });
    let (_, e) = PreparedEpollCtl::new(RawFd(3), RawFd(4), EpollChange::Del, shared(1, 11))
        .err()
        .expect("too small");
    assert_eq!(e, EpollError::StoreTooSmall { needed: 12, got: 11 });
    let time = Timespec::new(1, 0);
    let (_, e) = PreparedTimeout::after(time, Count::Timer, shared(8, 15))
        .err()
        .expect("too small");
    assert_eq!(e, TimeoutError::StoreTooSmall { needed: 16, got: 15 });
    let (_, e) = PreparedTimeout::at(time, Count::Timer, shared(4, 16))
        .err()
        .expect("misaligned");
    assert_eq!(e, TimeoutError::StoreMisaligned { needed: 8 });
}

#[test]
fn staging_leaves_the_rest_of_the_storage_alone() {
    let store = shared(0x1000, 20);
    store.bytes.borrow_mut().fill(0xEE);
    let change = EpollChange::Add {
        events: EpollEvents::readable(),
        data: 7,
    };
    let prepared = PreparedEpollCtl::new(RawFd(3), RawFd(4), change, store.clone())
        .ok()
        .expect("fits");
    assert_eq!(prepared.published(), change.event());
    assert_eq!((prepared.epoll(), prepared.target()), (RawFd(3), RawFd(4)));
    assert_eq!(store.bytes.borrow()[12..], [0xEE; 8]);
    let (sqe, _) = prepared.into_pending(RING, ID);
    assert_eq!((sqe.0.fd, sqe.0.off, sqe.0.len), (3, 4, 1));
}

#[test]
fn a_timeouts_entry_says_what_ends_it() {
    let time = Timespec::new(5, 6);
    let (sqe, pending) = PreparedTimeout::at(time, Count::Completions(3), shared(8, 16))
        .ok()
        .expect("fits")
        .into_pending(RING, ID);
    assert_eq!((sqe.0.addr, sqe.0.off), (8, 3));
    assert_eq!(sqe.0.op_flags, TimeoutFlags::abs().bits());
    let done = pending.redeem(receipt(0)).ok().expect("matches");
    let (expiry, _) = done.into_parts();
    assert_eq!(expiry.message(), "completion count reached");
}

#[test]
fn files_updates_are_checked() {
    let slot = SlotIndex::new(0).expect("a slot");
    let one = [TableEntry::Clear];
    let (_, e) = PreparedFilesUpdate::at(slot, [], shared(0, 0))
        .err()
        .expect("empty");
    assert_eq!(e, FilesUpdateError::Empty);
    let (_, e) = PreparedFilesUpdate::at(slot, one, shared(0, 3))
        .err()
        .expect("too small");
    assert_eq!(e, FilesUpdateError::StoreTooSmall { needed: 4, got: 3 });
    let (_, e) = PreparedFilesUpdate::at(slot, one, shared(2, 4))
        .err()
        .expect("misaligned");
    assert_eq!(e, FilesUpdateError::StoreMisaligned { needed: 4 });
}

#[test]
fn a_short_files_update_is_not_complete() {
    let entries = [TableEntry::Install(RawFd(5)), TableEntry::Clear];
    let first = SlotIndex::new(2).expect("a slot");
    let prepared = PreparedFilesUpdate::at(first, entries, shared(8, 8))
        .ok()
        .expect("fits");
    assert_eq!(prepared.slots(), 2);
    assert_eq!(prepared.published(), [5, -1]);
    let (sqe, pending) = prepared.into_pending(RING, ID);
    assert_eq!((sqe.0.addr, sqe.0.len, sqe.0.off), (8, 2, 2));
    let done = pending.redeem(receipt(1)).ok().expect("matches");
    assert_eq!(
        done.update(),
        Update::Partial {
            installed: 1,
            requested: 2
        }
    );
    assert_eq!(done.entries(), &entries);
    assert_eq!(done.offset().get(), 2);
}

#[test]
fn futexes_are_named_not_owned() {
    let wait = PreparedFutexWait::new(0x10, 5, 0xFF, Futex2Flags(2));
    assert_eq!(wait.uaddr(), 0x10);
    let (sqe, pending) = wait.into_pending(RING, ID);
    assert_eq!((sqe.0.addr, sqe.0.addr3, sqe.0.fd), (0x10, 0xFF, 2));
    assert_eq!(pending.uaddr(), 0x10);
    let done = pending.redeem(receipt(-11)).ok().expect("matches");
    assert_eq!(done.outcome(), FutexWaitOutcome::ValueMismatch);

    let wake = PreparedFutexWake::new(0x20, 2, 0xFF, Futex2Flags(2));
    let (sqe, pending) = wake.into_pending(RING, ID);
    assert_eq!(sqe.0.addr, 0x20);
    let done = pending.redeem(receipt(2)).ok().expect("matches");
    assert_eq!(done.woken(), Ok(2));
}

#[test]
fn waiting_on_several_words() {
    let words = [
        FutexWaitv::new(0x10, 1, Futex2Flags(2)),
        FutexWaitv::new(0x20, 2, Futex2Flags(2)),
    ];
    let store = shared(0x1000, 48);
    let prepared = PreparedFutexWaitv::new(&words, store.clone())
        .ok()
        .expect("fits");
    assert_eq!(prepared.count(), 2);
    let (sqe, pending) = prepared.into_pending(RING, ID);
    assert_eq!((sqe.0.addr, sqe.0.len), (0x1000, 2));
    assert_eq!(pending.count(), 2);
    assert_eq!(FutexWaitv::decode(&store.bytes.borrow()[24..]), words[1]);
    let done = pending.redeem(receipt(1)).ok().expect("matches");
    assert_eq!(done.woken_index(), Ok(1));
    assert_eq!(done.into_array().stable_len(), 48);
}

#[test]
fn words_to_wait_on_are_checked() {
    let word = FutexWaitv::new(0x10, 1, Futex2Flags(2));
    let refuse = |words: &[FutexWaitv], store: Shared| {
        PreparedFutexWaitv::new(words, store).err().expect("refused").1
    };
    assert_eq!(refuse(&[], shared(0, 0)), FutexWaitvError::NoWaiters);
    assert_eq!(
        refuse(&vec![word; 129], shared(0, 0)),
        FutexWaitvError::TooManyWaiters { got: 129, max: 128 }
    );
    assert_eq!(
        refuse(&[word], shared(0, 23)),
        FutexWaitvError::ArrayTooSmall { needed: 24, got: 23 }
    );
    assert_eq!(
        refuse(&[word], shared(4, 24)),
        FutexWaitvError::ArrayMisaligned { needed: 8 }
    );
}

#[test]
fn cancels_name_their_target() {
    let all = CancelFlags(1);
    let by_id = PreparedCancel::user_data(77, all);
    assert_eq!(by_id.target(), CancelTarget::UserData(77));
    assert_eq!(by_id.flags(), all);
    let (sqe, pending) = by_id.into_pending(RING, ID);
    assert_eq!((sqe.0.addr, sqe.0.op_flags), (77, 1));
    let done = pending.redeem(receipt(-2)).ok().expect("matches");
    assert_eq!(done.outcome(), CancelOutcome::NotFound);
    assert_eq!(done.target(), CancelTarget::UserData(77));

    let (sqe, _) = PreparedCancel::fd(RawFd(6), CancelFlags(0)).into_pending(RING, ID);
    assert_eq!(sqe.0.fd, 6);
    let (_, pending) = PreparedCancel::any(all).into_pending(RING, ID);
    assert_eq!(pending.target(), CancelTarget::Any);
}

#[test]
fn messages_to_rings_are_accepted_or_not() {
    let message = PreparedMsgRing::new(RawFd(8), 3, 4, MsgRingFlags(0));
    assert_eq!((message.target(), message.payload_len(), message.data()), (RawFd(8), 3, 4));
    let (sqe, pending) = message.into_pending(RING, ID);
    assert_eq!((sqe.0.fd, sqe.0.len, sqe.0.off), (8, 3, 4));
    let done = pending.redeem(receipt(-75)).ok().expect("matches");
    assert!(!done.is_ok());
    assert_eq!((done.target(), done.raw_result()), (RawFd(8), -75));
}

#[test]
fn vectored_storage_is_checked() {
    let (_, _, e) = PreparedVectored::writev(RawFd(1), [shared(0, 4)], shared(0, 15), 0)
        .err()
        .expect("too small");
    assert_eq!(e, VectoredError::VecsTooSmall { needed: 16, got: 15 });
    let (_, _, e) = PreparedVectored::readv(RawFd(1), [shared(0, 4)], shared(4, 16), 0)
        .err()
        .expect("misaligned");
    assert_eq!(e, VectoredError::VecsMisaligned { needed: 8 });
}

#[test]
fn paths_are_checked_before_use() {
    let (_, e) = OwnedPath::copy_into(shared(0, 3), b"abc").err().expect("no room");
    assert!(matches!(e, PathError::TooLong { .. }));
    let (_, e) = OwnedPath::copy_into(shared(0, 3), b"").err().expect("empty");
    assert_eq!(e, PathError::Empty);
    let full = shared(0, 3);
    full.bytes.borrow_mut().fill(b'x');
    let (_, e) = OwnedPath::adopt(full).err().expect("unterminated");
    assert_eq!(e, PathError::NotTerminated);
    let good = shared(0x44, 3);
    good.bytes.borrow_mut().copy_from_slice(b"ab\0");
    let path = OwnedPath::adopt(good).ok().expect("terminated");
    assert_eq!((path.len(), path.is_empty()), (2, false));
    assert_eq!(path.as_bytes(), b"ab");
    assert_eq!(path.stable_ptr(), 0x44);
}

#[test]
fn an_opened_file_is_owned_once() {
    let prepared = PreparedOpen::at(
        DirFd::Fd(RawFd(9)),
        path(b"x"),
        OpenFlags::wronly(),
        FileMode::owner_write(),
    );
    assert_eq!(prepared.dir(), DirFd::Fd(RawFd(9)));
    let (sqe, pending) = prepared.into_pending(RING, ID);
    assert_eq!((sqe.0.fd, sqe.0.addr), (9, 0x2000));
    assert_eq!(pending.dir(), DirFd::Fd(RawFd(9)));
    let opened = pending.redeem(receipt(6)).ok().expect("matches");
    assert_eq!(opened.raw_result(), 6);
    assert_eq!(opened.file().map(|f| f.fd()), Some(RawFd(6)));
    assert_eq!(opened.into_file().expect("file").into_fd(), RawFd(6));
}

#[test]
fn a_foreign_receipt_opens_nothing() {
    let (_, pending) =
        PreparedOpen::cwd(path(b"x"), OpenFlags::empty(), FileMode::empty()).into_pending(RING, ID);
    let wrong = terminal(RingId(4), ID, 6, CqeFlags::from_raw(0));
    let (pending, back) = pending.redeem(wrong).err().expect("another ring");
    assert_eq!(back.ring(), RingId(4));
    assert!(pending.matches(&receipt(6)));
}

#[test]
fn links_name_both_paths() {
    let prepared = PreparedLink::link_at(
        DirFd::Cwd,
        path(b"old"),
        DirFd::Fd(RawFd(5)),
        OwnedPath::copy_into(shared(0x3000, 8), b"new").ok().expect("fits"),
        LinkFlags(0x400),
    );
    assert_eq!(prepared.old_path().as_bytes(), b"old");
    assert_eq!(prepared.dest().as_bytes(), b"new");
    let (sqe, pending) = prepared.into_pending(RING, ID);
    assert_eq!((sqe.0.addr, sqe.0.off), (0x2000, 0x3000));
    assert_eq!((sqe.0.fd, sqe.0.len, sqe.0.op_flags), (-100, 5, 0x400));
    let done = pending.redeem(receipt(-17)).ok().expect("matches");
    assert_eq!(done.result(), Err(failed(17)));
    assert!(matches!(done.kind(), LinkKind::Link { .. }));
    let (old, new) = done.into_paths();
    assert_eq!((old.as_bytes(), new.as_bytes()), (b"old".to_vec(), b"new".to_vec()));
}

#[test]
fn symlinks_take_one_directory() {
    let (sqe, pending) =
        PreparedLink::symlink_cwd(path(b"target"), path(b"name")).into_pending(RING, ID);
    assert_eq!((sqe.0.fd, sqe.0.addr, sqe.0.off), (-100, 0x2000, 0x2000));
    assert!(matches!(pending.kind(), LinkKind::Symlink { .. }));
    assert_eq!(pending.reclaim_unsubmitted().old_path().as_bytes(), b"target");
}

#[test]
fn openat2_refuses_what_the_kernel_would() {
    let refuse = |mode, store| {
        PreparedOpenat2::cwd(path(b"x"), OpenFlags::empty(), mode, ResolveFlags::empty(), store)
            .err()
            .expect("refused")
            .2
    };
    assert_eq!(
        refuse(Openat2Mode::Create(FileMode(0o100_644)), shared(0, 24)),
        Openat2Error::ModeOutsidePermissionBits { stray: 0o100_000 }
    );
    assert_eq!(
        refuse(Openat2Mode::Existing, shared(0, 23)),
        Openat2Error::HowTooSmall { needed: 24, got: 23 }
    );
    assert_eq!(
        refuse(Openat2Mode::Existing, shared(4, 24)),
        Openat2Error::HowMisaligned { needed: 8 }
    );
}

#[test]
fn statx_storage_is_checked() {
    let refuse = |dest| {
        PreparedStatx::cwd(path(b"x"), StatxFlags::empty(), StatxMask::size(), dest)
            .err()
            .expect("refused")
            .2
    };
    assert_eq!(
        refuse(shared(0, 255)),
        StatxError::DestTooSmall { needed: 256, got: 255 }
    );
    assert_eq!(refuse(shared(4, 256)), StatxError::DestMisaligned { needed: 8 });
}

#[test]
fn slots_cannot_be_closed_on_exec() {
    let (_, e) = PreparedDirectOpen::cwd(
        path(b"x"),
        OpenFlags::cloexec(),
        FileMode::empty(),
        SlotTarget::Auto,
    )
    .err()
    .expect("refused");
    assert_eq!(e, DirectOpenError::CloseOnExec);
    assert_eq!(
        PreparedDirectSocket::auto(
            AddressFamily::Inet,
            SocketType::Stream,
            0,
            SocketFlags::cloexec()
        )
        .err(),
        Some(DirectSocketError::CloseOnExec)
    );
}

#[test]
fn explicit_slots_are_encoded_one_up() {
    assert_eq!(SlotTarget::Auto.raw(), -1);
    assert_eq!(SlotTarget::exact(0).expect("a slot").raw(), 1);
    assert!(SlotTarget::exact(u32::MAX).is_none());
    assert!(SlotTarget::exact(u32::MAX - 1).is_none());
    let last = SlotTarget::exact(u32::MAX - 2).expect("a slot");
    assert_eq!(last.raw(), -2);

    let exact = SlotTarget::exact(6).expect("a slot");
    assert_eq!(exact.resolve(0).map(|s| s.get()), Some(6));
    assert_eq!(SlotTarget::Auto.resolve(4).map(|s| s.get()), Some(4));
    assert_eq!(exact.resolve(-23), None);
}

#[test]
fn a_direct_socket_lands_in_its_slot() {
    let target = SlotTarget::exact(3).expect("a slot");
    let prepared = PreparedDirectSocket::new(
        AddressFamily::Inet,
        SocketType::Stream,
        6,
        SocketFlags(0),
        target,
    )
    .ok()
    .expect("accepted");
    let (sqe, pending) = prepared.into_pending(RING, ID);
    assert_eq!((sqe.0.fd, sqe.0.off, sqe.0.len), (2, 1, 6));
    assert_eq!(pending.target(), target);
    let done = pending.redeem(receipt(0)).ok().expect("matches");
    assert!(done.is_ok());
    assert_eq!(done.index().map(|s| s.get()), Some(3));
    assert_eq!(done.into_slot().map(|s| s.ring()), Some(RING));
}

#[test]
fn a_slot_gets_a_descriptor() {
    let slot = DirectSlot::new(SlotIndex::new(4).expect("a slot"), RING);
    let install = PreparedFixedFdInstall::of(&slot, InstallFdFlags(0));
    let (sqe, pending) = install.into_pending(RING, ID);
    assert_eq!(sqe.0.fd, 4);
    let done = pending.redeem(receipt(17)).ok().expect("matches");
    assert_eq!(done.slot(), RawFd(4));
    assert_eq!(done.into_file().map(|f| f.fd()), Some(RawFd(17)));
}

#[test]
fn senders_are_told_by_the_reported_length() {
    let v4 = SockAddrIn {
        sin_family: 2,
        ..SockAddrIn::default()
    };
    assert_eq!(Peer::of(PeerWanted::Yes, 16, v4).v4(), Some(v4));
    assert_eq!(Peer::of(PeerWanted::No, 16, v4), Peer::Unknown);
    assert_eq!(Peer::of(PeerWanted::Yes, 0, v4), Peer::Unknown);
    assert_eq!(Peer::of(PeerWanted::Yes, 17, v4), Peer::Truncated { len: 17 });
    assert_eq!(Peer::of(PeerWanted::Yes, 15, v4), Peer::Other { len: 15 });
    let other = SockAddrIn {
        sin_family: 1,
        ..v4
    };
    assert_eq!(Peer::of(PeerWanted::Yes, 16, other), Peer::Other { len: 16 });
}

#[test]
fn removals_carry_the_fitting_flag() {
    let removed = PathOpKind::Unlink.sqe(DirFd::Cwd, 0x40);
    assert_eq!((removed.0.opcode, removed.0.op_flags), (36, 0));
    let removed = PathOpKind::Rmdir.sqe(DirFd::Cwd, 0x40);
    assert_eq!((removed.0.opcode, removed.0.op_flags), (36, 0x200));
    let made = PathOpKind::Mkdir(FileMode(0o755)).sqe(DirFd::Cwd, 0x40);
    assert_eq!((made.0.opcode, made.0.len), (37, 0o755));
}

#[test]
fn a_pipe_leaves_what_lies_behind_its_ends() {
    let store = shared(0x1000, 12);
    let (_, pending) = PreparedPipe::new(PipeFlags(0), store.clone())
        .ok()
        .expect("fits")
        .into_pending(RING, ID);
    store.bytes.borrow_mut().fill(0x5A);
    store.bytes.borrow_mut()[..8].copy_from_slice(&[3, 0, 0, 0, 4, 0, 0, 0]);
    let done = pending.redeem(receipt(0)).ok().expect("matches");
    assert_eq!((done.read_fd(), done.write_fd()), (Some(3), Some(4)));
    assert_eq!(done.into_dest().bytes.borrow()[8..], [0x5A; 4]);
}
