//! Requests driven through their whole life by a stand-in kernel.
//!
//! The stand-in reaches memory only through the addresses a submission
//! carries, and a buffer that is dropped takes its memory out of reach: an
//! access to freed memory panics.

use std::cell::RefCell;
use std::collections::BTreeMap;
use std::rc::Rc;

use ququmatz::op::Sqe;
use ququmatz::owned::bind::{BindOutcome, PendingBind, PreparedBind};
use ququmatz::owned::buffer::{StableBuffer, StableBufferMut};
use ququmatz::owned::connect::{ConnectOutcome, PendingConnect, PreparedConnect};
use ququmatz::owned::direct::{PendingDirectOpen, PreparedDirectOpen};
use ququmatz::owned::epoll::{EpollChange, EpollOutcome, PendingEpollCtl, PreparedEpollCtl};
use ququmatz::owned::event::{Event, PartialReceipt};
use ququmatz::owned::filesupdate::{PendingFilesUpdate, PreparedFilesUpdate, TableEntry, Update};
use ququmatz::owned::identity::{RequestId, RequestIdSource, RingId, RingIdSource};
use ququmatz::owned::open::{PendingOpen, PreparedOpen};
use ququmatz::owned::openat2::{Openat2Mode, PendingOpenat2, PreparedOpenat2};
use ququmatz::owned::path::OwnedPath;
use ququmatz::owned::pathop::{PathOpKind, PendingPathOp, PreparedPathOp};
use ququmatz::owned::rename::{PendingRename, PreparedRename, RenameMode};
use ququmatz::owned::recvmsg::{PeerWanted, PendingRecvmsg, PreparedRecvmsg};
use ququmatz::owned::request::{Direction, Pending, Prepared, Receipt};
use ququmatz::owned::sendmsg::{PendingSendmsg, PreparedSendmsg, SendTarget};
use ququmatz::owned::slot::{SlotIndex, SlotTarget};
use ququmatz::owned::statx::{PendingStatx, PreparedStatx};
use ququmatz::owned::timeout::{Count, Expiry, PendingTimeout, PreparedTimeout};
use ququmatz::owned::vectored::{PendingVectored, PreparedVectored};
use ququmatz::owned::zerocopy::{PendingZc, PreparedZc};
use ququmatz::ring::{Completer, Completion, IoUring, Submitter};
use ququmatz::types::abi::{
    Abi, EpollEvent, IoVec, MsgHdr, OpenHow, SockAddrIn, Statx, Timespec,
};
use ququmatz::types::fd::{DirFd, RawFd};
use ququmatz::types::flags::{
    CqeFlags, EpollEvents, FileMode, MsgFlags, MsgOutFlags, StatxFlags, StatxMask,
};
use ququmatz::types::open::{OpenFlags, ResolveFlags};

/// What a completion of the ring `ring` authorizes once it is reaped there.
fn reaped(ring: RingId, id: RequestId, result: i32, flags: CqeFlags) -> Event {
    let mut rings = RingIdSource::new();
    loop {
        let whole = IoUring {
            submitter: Submitter::new(1),
            completer: Completer::new(),
            affinity: None,
        };
        let (_, mut comp) = whole.split_owned(&mut rings).ok().expect("not bound");
        if comp.ring() == ring {
            comp.raw().post(Completion {
                user_data: id.raw(),
                result,
                flags,
            });
            return comp.reap_event().expect("just posted");
        }
    }
}

fn terminal(ring: RingId, id: RequestId, result: i32, flags: CqeFlags) -> Receipt {
    reaped(ring, id, result, flags)
        .into_receipt()
        .expect("a terminal completion")
}

fn partial(ring: RingId, id: RequestId, result: i32, flags: CqeFlags) -> PartialReceipt {
    match reaped(ring, id, result, flags) {
        Event::Partial(partial) => partial,
        Event::Complete(_) => panic!("a terminal completion"),
    }
}

/// Allocated regions, by address.
#[derive(Default)]
struct Memory {
    regions: BTreeMap<usize, Vec<u8>>,
    next: usize,
}

impl Memory {
    fn region(&self, addr: usize) -> (usize, &Vec<u8>) {
        let (start, bytes) = self
            .regions
            .range(..=addr)
            .next_back()
            .expect("address is mapped");
        assert!(addr < start + bytes.len(), "address is mapped");
        (*start, bytes)
    }

    fn read(&self, addr: usize) -> u8 {
        let (start, bytes) = self.region(addr);
        bytes[addr - start]
    }

    fn write(&mut self, addr: usize, b: u8) {
        let (start, _) = self.region(addr);
        self.regions.get_mut(&start).expect("mapped")[addr - start] = b;
    }
}

/// Storage in the simulated memory, freed when dropped.
struct HeapBuffer {
    mem: Rc<RefCell<Memory>>,
    addr: usize,
    len: usize,
}

impl HeapBuffer {
    fn as_slice(&self) -> Vec<u8> {
        (0..self.len).map(|i| self.load(i)).collect()
    }

    fn fill_from(&mut self, bytes: &[u8]) {
        for (i, b) in bytes.iter().enumerate() {
            self.store(i, *b);
        }
    }
}

impl Drop for HeapBuffer {
    fn drop(&mut self) {
        self.mem.borrow_mut().regions.remove(&self.addr);
    }
}

impl StableBuffer for HeapBuffer {
    fn stable_ptr(&self) -> usize {
        self.addr
    }

    fn stable_len(&self) -> usize {
        self.len
    }

    fn load(&self, at: usize) -> u8 {
        self.mem.borrow().read(self.addr + at)
    }
}

impl StableBufferMut for HeapBuffer {
    fn stable_mut_ptr(&mut self) -> usize {
        self.addr
    }

    fn store(&mut self, at: usize, b: u8) {
        self.mem.borrow_mut().write(self.addr + at, b);
    }
}

/// A stand-in for the kernel that holds a submission by value.
struct FakeKernel {
    sqe: Sqe,
    mem: Rc<RefCell<Memory>>,
}

impl FakeKernel {
    fn addr(&self) -> u64 {
        self.sqe.0.addr
    }

    fn len(&self) -> usize {
        self.sqe.0.len as usize
    }

    fn user_data(&self) -> u64 {
        self.sqe.0.user_data
    }

    fn read_bytes(&self, addr: u64, n: usize) -> Vec<u8> {
        (0..n)
            .map(|i| self.mem.borrow().read(addr as usize + i))
            .collect()
    }

    fn write_bytes(&self, addr: u64, bytes: &[u8]) {
        for (i, b) in bytes.iter().enumerate() {
            self.mem.borrow_mut().write(addr as usize + i, *b);
        }
    }

    /// Fill the published buffer, as a read does.
    fn complete_read(&self, fill: u8) -> i32 {
        let len = self.len();
        self.write_bytes(self.addr(), &vec![fill; len]);
        i32::try_from(len).expect("test length fits in i32")
    }

    /// Read the published buffer, as a write does.
    fn observe_write(&self) -> Vec<u8> {
        self.read_bytes(self.addr(), self.len())
    }

    /// Read forward until a NUL, with no length to stop at.
    fn scan(&self, addr: u64) -> Vec<u8> {
        let mut seen = Vec::new();
        loop {
            let b = self.mem.borrow().read(addr as usize + seen.len());
            if b == 0 {
                return seen;
            }
            seen.push(b);
        }
    }

    fn resolve_path(&self) -> Vec<u8> {
        self.scan(self.sqe.0.addr)
    }

    fn resolve_second_path(&self) -> Vec<u8> {
        self.scan(self.sqe.0.off)
    }

    fn read_open_how(&self) -> OpenHow {
        OpenHow::decode(&self.read_bytes(self.sqe.0.off, 24))
    }

    fn published_how_size(&self) -> u32 {
        self.sqe.0.len
    }

    fn complete_statx(&self, ring: RingId, mask: StatxMask, size: u64) -> Receipt {
        let mut filled = Statx::decode(&[0; 256]);
        filled.stx_mask = mask.bits();
        filled.stx_size = size;
        filled.stx_nlink = 1;
        self.write_bytes(self.sqe.0.off, &filled.encode());
        self.post_completion(ring, 0)
    }

    fn read_epoll_event(&self) -> EpollEvent {
        EpollEvent::decode(&self.read_bytes(self.addr(), 12))
    }

    fn published_epoll_op(&self) -> u32 {
        self.sqe.0.len
    }

    fn read_sock_addr(&self) -> [u8; 16] {
        let mut out = [0; 16];
        out.copy_from_slice(&self.read_bytes(self.addr(), 16));
        out
    }

    fn published_addr_len(&self) -> u64 {
        self.sqe.0.off
    }

    fn read_fd_array(&self) -> Vec<i32> {
        (0..self.len())
            .map(|i| i32::decode(&self.read_bytes(self.addr() + 4 * i as u64, 4)))
            .collect()
    }

    fn published_offset(&self) -> u64 {
        self.sqe.0.off
    }

    fn read_timespec(&self) -> Timespec {
        Timespec::decode(&self.read_bytes(self.addr(), 16))
    }

    fn published_count(&self) -> u64 {
        self.sqe.0.off
    }

    fn read_msghdr(&self) -> MsgHdr {
        MsgHdr::decode(&self.read_bytes(self.addr(), 56))
    }

    /// Follow the header to the descriptor at `i`.
    fn message_descriptor(&self, i: u64) -> IoVec {
        let hdr = self.read_msghdr();
        assert!(i < hdr.msg_iovlen, "descriptor index past msg_iovlen");
        IoVec::decode(&self.read_bytes(hdr.msg_iov + 16 * i, 16))
    }

    /// Read every byte the message gathers: header, descriptors, buffers.
    fn observe_sendmsg(&self) -> Vec<u8> {
        let hdr = self.read_msghdr();
        let mut seen = Vec::new();
        for i in 0..hdr.msg_iovlen {
            let vec = self.message_descriptor(i);
            seen.extend(self.read_bytes(vec.base(), vec.len() as usize));
        }
        seen
    }

    /// Fill the buffers that the header leads to, then write to the header.
    fn deliver_recvmsg(&self, payload: &[u8], peer: Option<SockAddrIn>) -> usize {
        let hdr = self.read_msghdr();
        let mut written = 0;
        for i in 0..hdr.msg_iovlen {
            let vec = self.message_descriptor(i);
            let n = (vec.len() as usize).min(payload.len() - written);
            self.write_bytes(vec.base(), &payload[written..written + n]);
            written += n;
        }
        let mut back = hdr;
        back.msg_flags = if written < payload.len() {
            MsgOutFlags::trunc().bits()
        } else {
            0
        };
        match peer {
            Some(addr) if hdr.msg_name != 0 => {
                assert!(hdr.msg_namelen as usize >= SockAddrIn::size_of());
                self.write_bytes(hdr.msg_name, &addr.to_bytes());
                back.msg_namelen = SockAddrIn::size_of() as u32;
            }
            _ => back.msg_namelen = 0,
        }
        self.write_bytes(self.addr(), &back.encode());
        written
    }

    /// Report an address larger than the room for it.
    fn deliver_oversized_peer(&self, payload: &[u8], reported: u32) -> usize {
        self.deliver_with_reported_namelen(payload, reported, None)
    }

    /// Deliver, then claim `reported` bytes of address whatever was written.
    fn deliver_with_reported_namelen(
        &self,
        payload: &[u8],
        reported: u32,
        wrote: Option<SockAddrIn>,
    ) -> usize {
        let written = self.deliver_recvmsg(payload, None);
        let hdr = self.read_msghdr();
        if let Some(addr) = wrote {
            assert!(hdr.msg_name != 0, "no slot to write an address into");
            self.write_bytes(hdr.msg_name, &addr.to_bytes());
        }
        let mut back = hdr;
        back.msg_namelen = reported;
        self.write_bytes(self.addr(), &back.encode());
        written
    }

    /// The destination address the header names.
    fn message_name(&self) -> Option<SockAddrIn> {
        let hdr = self.read_msghdr();
        if hdr.msg_name == 0 {
            assert_eq!(hdr.msg_namelen, 0, "a null address must have zero length");
            return None;
        }
        assert_eq!(hdr.msg_namelen as usize, SockAddrIn::size_of());
        Some(SockAddrIn::decode(&self.read_bytes(hdr.msg_name, 16)))
    }

    /// The descriptor at `i` of a published array.
    fn descriptor(&self, i: usize) -> IoVec {
        IoVec::decode(&self.read_bytes(self.addr() + 16 * i as u64, 16))
    }

    fn complete_readv(&self, i: usize, fill: u8) -> usize {
        let vec = self.descriptor(i);
        let len = vec.len() as usize;
        self.write_bytes(vec.base(), &vec![fill; len]);
        len
    }

    fn observe_writev(&self, i: usize) -> Vec<u8> {
        let vec = self.descriptor(i);
        self.read_bytes(vec.base(), vec.len() as usize)
    }

    /// The non-terminal completion of a zero-copy send.
    fn post_send(&self, ring: RingId, result: i32) -> PartialReceipt {
        partial(ring, RequestId::from_raw(self.user_data()), result, CqeFlags::more())
    }

    /// The notification that releases the pages.
    fn post_notification(&self, ring: RingId) -> Receipt {
        terminal(ring, RequestId::from_raw(self.user_data()), 0, CqeFlags::notif())
    }

    /// The receipt this operation's completion authorizes.
    fn post_completion(&self, ring: RingId, result: i32) -> Receipt {
        terminal(ring, RequestId::from_raw(self.user_data()), result, CqeFlags::from_raw(0))
    }
}

/// Drives a request through its whole life without a real ring.
struct Lifecycle {
    ring: RingId,
    ids: RequestIdSource,
    mem: Rc<RefCell<Memory>>,
}

impl Lifecycle {
    fn new() -> Self {
        let memory = Memory {
            regions: BTreeMap::new(),
            next: 0x1_0000,
        };
        Self {
            ring: RingId::next(&mut RingIdSource::new()),
            ids: RequestIdSource::new(),
            mem: Rc::new(RefCell::new(memory)),
        }
    }

    /// Byte storage at an odd address.
    fn buffer(&self, len: usize) -> HeapBuffer {
        self.buffer_at(len, 1)
    }

    /// Storage aligned for anything.
    fn aligned(&self, len: usize) -> HeapBuffer {
        self.buffer_at(len, 0)
    }

    fn buffer_at(&self, len: usize, misalign: usize) -> HeapBuffer {
        assert!(len > 0, "zero-length test buffer");
        let mut mem = self.mem.borrow_mut();
        let addr = mem.next + misalign;
        mem.next = (addr + len + 0x1000) & !0xfff;
        mem.regions.insert(addr, vec![0; len]);
        HeapBuffer {
            mem: Rc::clone(&self.mem),
            addr,
            len,
        }
    }

    /// A buffer holding exactly `bytes`.
    fn filled(&self, bytes: &[u8]) -> HeapBuffer {
        let mut buf = self.buffer(bytes.len());
        buf.fill_from(bytes);
        buf
    }

    fn kernel(&self, sqe: Sqe) -> FakeKernel {
        FakeKernel {
            sqe,
            mem: Rc::clone(&self.mem),
        }
    }

    fn path(&self, text: &[u8]) -> OwnedPath<HeapBuffer> {
        let mut storage = self.buffer(64);
        // Filled so that the terminator is the only zero.
        storage.fill_from(&[0xFF; 64]);
        OwnedPath::copy_into(storage, text).ok().expect("storage fits")
    }

    fn submit<B: StableBuffer>(&mut self, prepared: Prepared<B>) -> (FakeKernel, Pending<B>) {
        let (sqe, pending) = prepared.into_pending(self.ring, self.ids.next());
        (self.kernel(sqe), pending)
    }

    fn submit_open(
        &mut self,
        prepared: PreparedOpen<HeapBuffer>,
    ) -> (FakeKernel, PendingOpen<HeapBuffer>) {
        let (sqe, pending) = prepared.into_pending(self.ring, self.ids.next());
        (self.kernel(sqe), pending)
    }

    fn submit_direct_open(
        &mut self,
        prepared: PreparedDirectOpen<HeapBuffer>,
    ) -> (FakeKernel, PendingDirectOpen<HeapBuffer>) {
        let (sqe, pending) = prepared.into_pending(self.ring, self.ids.next());
        (self.kernel(sqe), pending)
    }

    fn submit_statx(
        &mut self,
        prepared: PreparedStatx<HeapBuffer, HeapBuffer>,
    ) -> (FakeKernel, PendingStatx<HeapBuffer, HeapBuffer>) {
        let (sqe, pending) = prepared.into_pending(self.ring, self.ids.next());
        (self.kernel(sqe), pending)
    }

    fn submit_path_op(
        &mut self,
        prepared: PreparedPathOp<HeapBuffer>,
    ) -> (FakeKernel, PendingPathOp<HeapBuffer>) {
        let (sqe, pending) = prepared.into_pending(self.ring, self.ids.next());
        (self.kernel(sqe), pending)
    }

    fn submit_rename(
        &mut self,
        prepared: PreparedRename<HeapBuffer, HeapBuffer>,
    ) -> (FakeKernel, PendingRename<HeapBuffer, HeapBuffer>) {
        let (sqe, pending) = prepared.into_pending(self.ring, self.ids.next());
        (self.kernel(sqe), pending)
    }

    fn submit_openat2(
        &mut self,
        prepared: PreparedOpenat2<HeapBuffer, HeapBuffer>,
    ) -> (FakeKernel, PendingOpenat2<HeapBuffer, HeapBuffer>) {
        let (sqe, pending) = prepared.into_pending(self.ring, self.ids.next());
        (self.kernel(sqe), pending)
    }

    fn submit_zc(
        &mut self,
        prepared: PreparedZc<HeapBuffer>,
    ) -> (FakeKernel, PendingZc<HeapBuffer>) {
        let (sqe, pending) = prepared.into_pending(self.ring, self.ids.next());
        (self.kernel(sqe), pending)
    }

    fn submit_timeout(
        &mut self,
        prepared: PreparedTimeout<HeapBuffer>,
    ) -> (FakeKernel, PendingTimeout<HeapBuffer>) {
        let (sqe, pending) = prepared.into_pending(self.ring, self.ids.next());
        (self.kernel(sqe), pending)
    }

    fn submit_epoll_ctl(
        &mut self,
        prepared: PreparedEpollCtl<HeapBuffer>,
    ) -> (FakeKernel, PendingEpollCtl<HeapBuffer>) {
        let (sqe, pending) = prepared.into_pending(self.ring, self.ids.next());
        (self.kernel(sqe), pending)
    }

    fn submit_bind(
        &mut self,
        prepared: PreparedBind<HeapBuffer>,
    ) -> (FakeKernel, PendingBind<HeapBuffer>) {
        let (sqe, pending) = prepared.into_pending(self.ring, self.ids.next());
        (self.kernel(sqe), pending)
    }

    fn submit_connect(
        &mut self,
        prepared: PreparedConnect<HeapBuffer>,
    ) -> (FakeKernel, PendingConnect<HeapBuffer>) {
        let (sqe, pending) = prepared.into_pending(self.ring, self.ids.next());
        (self.kernel(sqe), pending)
    }

    fn submit_vectored<const N: usize>(
        &mut self,
        prepared: PreparedVectored<HeapBuffer, HeapBuffer, N>,
    ) -> (FakeKernel, PendingVectored<HeapBuffer, HeapBuffer, N>) {
        let (sqe, pending) = prepared.into_pending(self.ring, self.ids.next());
        (self.kernel(sqe), pending)
    }

    fn submit_sendmsg<const N: usize>(
        &mut self,
        prepared: PreparedSendmsg<HeapBuffer, HeapBuffer, N>,
    ) -> (FakeKernel, PendingSendmsg<HeapBuffer, HeapBuffer, N>) {
        let (sqe, pending) = prepared.into_pending(self.ring, self.ids.next());
        (self.kernel(sqe), pending)
    }

    fn submit_recvmsg<const N: usize>(
        &mut self,
        prepared: PreparedRecvmsg<HeapBuffer, HeapBuffer, N>,
    ) -> (FakeKernel, PendingRecvmsg<HeapBuffer, HeapBuffer, N>) {
        let (sqe, pending) = prepared.into_pending(self.ring, self.ids.next());
        (self.kernel(sqe), pending)
    }

    fn submit_files_update<const N: usize>(
        &mut self,
        prepared: PreparedFilesUpdate<HeapBuffer, N>,
    ) -> (FakeKernel, PendingFilesUpdate<HeapBuffer, N>) {
        let (sqe, pending) = prepared.into_pending(self.ring, self.ids.next());
        (self.kernel(sqe), pending)
    }
}

#[test]
fn kernel_write_through_the_sqe_pointer_lands_in_the_owned_buffer() {
    let mut cycle = Lifecycle::new();
    let prepared = Prepared::read(RawFd::from_raw(7), cycle.buffer(64), 0);
    let (kernel, pending) = cycle.submit(prepared);

    let result = kernel.complete_read(0xAB);
    let receipt = kernel.post_completion(cycle.ring, result);

    let completed = pending.redeem(receipt).ok().expect("receipt matches");
    assert_eq!(completed.result().expect("ok"), 64);
    assert!(completed.buffer().as_slice().iter().all(|&b| b == 0xAB));
}

#[test]
fn kernel_reads_the_bytes_the_caller_staged_before_submission() {
    let mut cycle = Lifecycle::new();
    let mut prepared = Prepared::write(RawFd::from_raw(1), cycle.buffer(8), 0);
    prepared.buffer_mut().fill_from(b"ququmatz");
    let (kernel, pending) = cycle.submit(prepared);

    assert_eq!(kernel.observe_write(), b"ququmatz");

    let receipt = kernel.post_completion(cycle.ring, 8);
    let completed = pending.redeem(receipt).ok().expect("receipt matches");
    assert_eq!(completed.buffer().as_slice(), b"ququmatz");
}

#[test]
fn buffer_survives_the_ticket_moving_between_owners() {
    let mut cycle = Lifecycle::new();
    let prepared = Prepared::read(RawFd::from_raw(3), cycle.buffer(32), 0);
    let (kernel, pending) = cycle.submit(prepared);

    let relocated = Box::new(pending);
    let moved_again = *relocated;

    let result = kernel.complete_read(0x5A);
    let receipt = kernel.post_completion(cycle.ring, result);
    let completed = moved_again.redeem(receipt).ok().expect("receipt matches");
    assert!(completed.buffer().as_slice().iter().all(|&b| b == 0x5A));
}

#[test]
fn dropping_a_pending_ticket_does_not_free_the_kernels_buffer() {
    let mut cycle = Lifecycle::new();
    let prepared = Prepared::read(RawFd::from_raw(3), cycle.buffer(48), 0);
    let (kernel, pending) = cycle.submit(prepared);

    drop(pending);

    // A late completion still writes here, and the memory is still there.
    let written = kernel.complete_read(0x11);
    assert_eq!(written, 48);
    assert!(kernel.observe_write().iter().all(|&b| b == 0x11));
}

#[test]
fn forgetting_a_pending_ticket_degrades_the_same_way_as_dropping_it() {
    let mut cycle = Lifecycle::new();
    let prepared = Prepared::read(RawFd::from_raw(3), cycle.buffer(16), 0);
    let (kernel, pending) = cycle.submit(prepared);

    core::mem::forget(pending);

    let written = kernel.complete_read(0x22);
    assert_eq!(written, 16);
    assert!(kernel.observe_write().iter().all(|&b| b == 0x22));
}

#[test]
fn reclaiming_an_unpublished_request_returns_usable_storage() {
    let mut cycle = Lifecycle::new();
    let prepared = Prepared::write(RawFd::from_raw(1), cycle.buffer(24), 0);
    let (kernel, pending) = cycle.submit(prepared);
    let addr = kernel.addr();

    let mut recovered = pending.reclaim_unsubmitted();

    assert_eq!(recovered.buffer().stable_ptr() as u64, addr);
    recovered.buffer_mut().store(0, 0xFF);
    let buf = recovered.into_buffer();
    assert_eq!(buf.as_slice()[0], 0xFF);
    // Reclaiming revived the destructor.
    drop(buf);
    assert!(cycle.mem.borrow().regions.is_empty());
}

#[test]
fn a_rejected_receipt_leaves_the_ticket_and_its_buffer_intact() {
    let mut cycle = Lifecycle::new();
    let prepared = Prepared::read(RawFd::from_raw(3), cycle.buffer(16), 0);
    let (kernel, pending) = cycle.submit(prepared);

    let other = RequestId::from_raw(pending.id().raw().wrapping_add(1));
    let wrong = terminal(cycle.ring, other, 16, CqeFlags::from_raw(0));

    let (pending, _) = pending.redeem(wrong).err().expect("mismatch is rejected");

    let result = kernel.complete_read(0x33);
    let receipt = kernel.post_completion(cycle.ring, result);
    let completed = pending.redeem(receipt).ok().expect("correct receipt");
    assert!(completed.buffer().as_slice().iter().all(|&b| b == 0x33));
}

#[test]
fn transfer_length_bounds_what_the_kernel_may_touch() {
    let mut cycle = Lifecycle::new();
    let prepared = Prepared::write(RawFd::from_raw(1), cycle.buffer(64), 0).with_len(5);
    let (kernel, pending) = cycle.submit(prepared);

    assert_eq!(kernel.len(), 5);
    assert_eq!(kernel.observe_write().len(), 5);

    let receipt = kernel.post_completion(cycle.ring, 5);
    let completed = pending.redeem(receipt).ok().expect("receipt matches");
    assert_eq!(completed.result().expect("ok"), 5);
}

#[test]
fn many_concurrent_tickets_keep_their_buffers_distinct() {
    let mut cycle = Lifecycle::new();
    let mut inflight = Vec::new();

    for i in 0..16u8 {
        let prepared = Prepared::read(RawFd::from_raw(3), cycle.buffer(8), 0);
        let (kernel, pending) = cycle.submit(prepared);
        kernel.complete_read(i);
        inflight.push((kernel, pending, i));
    }

    inflight.reverse();
    for (kernel, pending, fill) in inflight {
        let receipt = kernel.post_completion(cycle.ring, 8);
        let completed = pending.redeem(receipt).ok().expect("receipt matches");
        assert_eq!(completed.direction(), Direction::Read);
        assert!(completed.buffer().as_slice().iter().all(|&b| b == fill));
    }
}

#[test]
fn the_kernel_scan_stops_inside_the_storage_the_ticket_owns() {
    let mut cycle = Lifecycle::new();
    let prepared = PreparedOpen::cwd(
        cycle.path(b"/etc/hostname"),
        OpenFlags::default(),
        FileMode::default(),
    );
    let (kernel, pending) = cycle.submit_open(prepared);

    assert_eq!(kernel.resolve_path(), b"/etc/hostname");

    let opened = pending
        .redeem(kernel.post_completion(cycle.ring, 5))
        .ok()
        .expect("receipt matches");
    assert!(opened.is_ok());
    let (file, path) = opened.into_parts();
    assert_eq!(path.as_bytes(), b"/etc/hostname");
    let fd = file
        .expect("a successful open carries a descriptor")
        .into_fd();
    assert_eq!(fd, RawFd::from_raw(5));
}

#[test]
fn a_path_stays_readable_while_the_ticket_moves_between_owners() {
    let mut cycle = Lifecycle::new();
    let prepared = PreparedOpen::cwd(
        cycle.path(b"/tmp/moved"),
        OpenFlags::creat(),
        FileMode::owner_read(),
    );
    let (kernel, pending) = cycle.submit_open(prepared);

    let pending = Box::new(pending);
    let pending = core::hint::black_box(pending);
    let pending = *pending;

    assert_eq!(kernel.resolve_path(), b"/tmp/moved");

    let opened = pending
        .redeem(kernel.post_completion(cycle.ring, 9))
        .ok()
        .expect("receipt matches");
    let _ = opened.into_file().expect("descriptor").into_fd();
}

#[test]
fn a_failed_open_leaves_no_descriptor_to_leak() {
    let mut cycle = Lifecycle::new();
    let prepared = PreparedOpen::cwd(
        cycle.path(b"/nope"),
        OpenFlags::default(),
        FileMode::default(),
    );
    let (kernel, pending) = cycle.submit_open(prepared);

    let opened = pending
        .redeem(kernel.post_completion(cycle.ring, -2))
        .ok()
        .expect("receipt matches");
    assert!(!opened.is_ok());
    let (file, path) = opened.into_parts();
    assert!(file.is_none());
    assert_eq!(path.as_bytes(), b"/nope");
    drop(path.into_storage());
}

#[test]
fn abandoning_an_open_ticket_leaks_rather_than_freeing_the_path() {
    let mut cycle = Lifecycle::new();
    let path = OwnedPath::copy_into(cycle.buffer(64), b"/tmp/abandoned")
        .ok()
        .expect("storage fits");
    let prepared = PreparedOpen::cwd(path, OpenFlags::default(), FileMode::default());
    let (kernel, pending) = cycle.submit_open(prepared);

    drop(pending);
    assert_eq!(kernel.resolve_path(), b"/tmp/abandoned");
}

#[test]
fn reclaiming_an_unpublished_open_returns_the_path_and_its_target() {
    let mut cycle = Lifecycle::new();
    let prepared = PreparedOpen::cwd(
        cycle.path(b"/tmp/retry"),
        OpenFlags::creat().union(OpenFlags::rdwr()),
        FileMode::owner_write(),
    );
    let (_kernel, pending) = cycle.submit_open(prepared);

    let recovered = pending.reclaim_unsubmitted();

    assert_eq!(recovered.path().as_bytes(), b"/tmp/retry");
    assert_eq!(
        recovered.flags(),
        OpenFlags::creat().union(OpenFlags::rdwr())
    );
    assert_eq!(recovered.mode(), FileMode::owner_write());
    drop(recovered.into_path().into_storage());
}

#[test]
fn a_path_ops_path_is_scanned_within_the_storage_the_ticket_owns() {
    let mut cycle = Lifecycle::new();
    let prepared = PreparedPathOp::unlink_cwd(cycle.path(b"/tmp/doomed"));
    let (kernel, pending) = cycle.submit_path_op(prepared);

    assert_eq!(kernel.resolve_path(), b"/tmp/doomed");

    let done = pending
        .redeem(kernel.post_completion(cycle.ring, 0))
        .ok()
        .expect("receipt matches");
    assert!(done.is_ok());
    drop(done.into_path().into_storage());
}

#[test]
fn a_path_op_keeps_its_path_readable_while_the_ticket_moves() {
    let mut cycle = Lifecycle::new();
    let prepared = PreparedPathOp::mkdir_cwd(cycle.path(b"/tmp/fresh"), FileMode::owner_read());
    let (kernel, pending) = cycle.submit_path_op(prepared);

    let pending = Box::new(pending);
    let pending = core::hint::black_box(pending);
    let pending = *pending;

    assert_eq!(kernel.resolve_path(), b"/tmp/fresh");

    let done = pending
        .redeem(kernel.post_completion(cycle.ring, 0))
        .ok()
        .expect("receipt matches");
    assert_eq!(done.kind(), PathOpKind::Mkdir(FileMode::owner_read()));
    drop(done.into_path().into_storage());
}

#[test]
fn abandoning_a_path_op_leaks_rather_than_freeing_the_path() {
    let mut cycle = Lifecycle::new();
    let path = OwnedPath::copy_into(cycle.buffer(64), b"/tmp/abandoned")
        .ok()
        .expect("storage fits");
    let (kernel, pending) = cycle.submit_path_op(PreparedPathOp::rmdir_cwd(path));

    drop(pending);
    assert_eq!(kernel.resolve_path(), b"/tmp/abandoned");
}

#[test]
fn reclaiming_an_unpublished_path_op_returns_the_path_and_its_kind() {
    let mut cycle = Lifecycle::new();
    let prepared = PreparedPathOp::rmdir_cwd(cycle.path(b"/tmp/never_sent"));
    let (_kernel, pending) = cycle.submit_path_op(prepared);

    let prepared = pending.reclaim_unsubmitted();
    assert_eq!(prepared.kind(), PathOpKind::Rmdir);
    assert_eq!(prepared.path().as_bytes(), b"/tmp/never_sent");
    drop(prepared.into_path().into_storage());
}

#[test]
fn a_rename_keeps_both_paths_readable_at_once() {
    let mut cycle = Lifecycle::new();
    let prepared = PreparedRename::cwd(
        cycle.path(b"/tmp/source"),
        cycle.path(b"/tmp/destination"),
        RenameMode::NoReplace,
    );
    let (kernel, pending) = cycle.submit_rename(prepared);

    assert_eq!(kernel.resolve_path(), b"/tmp/source");
    assert_eq!(kernel.resolve_second_path(), b"/tmp/destination");

    let done = pending
        .redeem(kernel.post_completion(cycle.ring, 0))
        .ok()
        .expect("receipt matches");
    let (from, to) = done.into_paths();
    assert_eq!(from.as_bytes(), b"/tmp/source");
    assert_eq!(to.as_bytes(), b"/tmp/destination");
    drop((from.into_storage(), to.into_storage()));
}

#[test]
fn a_renames_two_paths_survive_the_ticket_moving_between_owners() {
    let mut cycle = Lifecycle::new();
    let prepared = PreparedRename::cwd(
        cycle.path(b"/tmp/moving_from"),
        cycle.path(b"/tmp/moving_to"),
        RenameMode::Exchange,
    );
    let (kernel, pending) = cycle.submit_rename(prepared);

    let pending = Box::new(pending);
    let pending = core::hint::black_box(pending);
    let pending = *pending;

    assert_eq!(kernel.resolve_path(), b"/tmp/moving_from");
    assert_eq!(kernel.resolve_second_path(), b"/tmp/moving_to");

    let done = pending
        .redeem(kernel.post_completion(cycle.ring, 0))
        .ok()
        .expect("receipt matches");
    let (from, to) = done.into_paths();
    drop((from.into_storage(), to.into_storage()));
}

#[test]
fn abandoning_a_rename_leaks_both_paths_rather_than_freeing_them() {
    let mut cycle = Lifecycle::new();
    let from = OwnedPath::copy_into(cycle.buffer(64), b"/tmp/left")
        .ok()
        .expect("storage fits");
    let to = OwnedPath::copy_into(cycle.buffer(64), b"/tmp/right")
        .ok()
        .expect("storage fits");
    let (kernel, pending) = cycle.submit_rename(PreparedRename::cwd(from, to, RenameMode::Replace));

    drop(pending);
    assert_eq!(kernel.resolve_path(), b"/tmp/left");
    assert_eq!(kernel.resolve_second_path(), b"/tmp/right");
}

#[test]
fn reclaiming_an_unpublished_rename_returns_both_paths_and_its_mode() {
    let mut cycle = Lifecycle::new();
    let prepared = PreparedRename::cwd(
        cycle.path(b"/tmp/unsent_from"),
        cycle.path(b"/tmp/unsent_to"),
        RenameMode::NoReplace,
    );
    let (_kernel, pending) = cycle.submit_rename(prepared);

    let prepared = pending.reclaim_unsubmitted();
    assert_eq!(prepared.mode(), RenameMode::NoReplace);
    let (from, to) = prepared.into_paths();
    assert_eq!(from.as_bytes(), b"/tmp/unsent_from");
    assert_eq!(to.as_bytes(), b"/tmp/unsent_to");
    drop((from.into_storage(), to.into_storage()));
}

fn prepared_openat2(
    cycle: &Lifecycle,
    path: &[u8],
    mode: Openat2Mode,
    resolve: ResolveFlags,
) -> PreparedOpenat2<HeapBuffer, HeapBuffer> {
    PreparedOpenat2::cwd(
        cycle.path(path),
        OpenFlags::rdwr(),
        mode,
        resolve,
        cycle.aligned(24),
    )
    .ok()
    .expect("how storage fits")
}

#[test]
fn an_openat2_keeps_its_path_and_its_open_how_readable_at_once() {
    let mut cycle = Lifecycle::new();
    let prepared = prepared_openat2(
        &cycle,
        b"/tmp/two_regions",
        Openat2Mode::Create(FileMode::owner_read()),
        ResolveFlags::no_symlinks(),
    );
    let (kernel, pending) = cycle.submit_openat2(prepared);

    assert_eq!(kernel.resolve_path(), b"/tmp/two_regions");
    let how = kernel.read_open_how();
    assert_eq!(
        how.flags,
        u64::from(OpenFlags::rdwr().bits() | OpenFlags::creat().bits())
    );
    assert_eq!(how.mode, u64::from(FileMode::owner_read().bits()));
    assert_eq!(how.resolve, ResolveFlags::no_symlinks().bits());
    assert_eq!(kernel.published_how_size() as usize, OpenHow::size_of());

    let done = pending
        .redeem(kernel.post_completion(cycle.ring, 7))
        .ok()
        .expect("receipt matches");
    let (file, path, store) = done.into_parts();
    assert_eq!(path.as_bytes(), b"/tmp/two_regions");
    assert_eq!(file.expect("descriptor").into_fd(), RawFd::from_raw(7));
    drop((path.into_storage(), store));
}

#[test]
fn an_openat2s_two_regions_survive_the_ticket_moving_between_owners() {
    let mut cycle = Lifecycle::new();
    let prepared = prepared_openat2(
        &cycle,
        b"/tmp/travelling",
        Openat2Mode::Tmpfile(FileMode::owner_write()),
        ResolveFlags::beneath(),
    );
    let (kernel, pending) = cycle.submit_openat2(prepared);

    let pending = Box::new(pending);
    let pending = core::hint::black_box(pending);
    let pending = *pending;

    assert_eq!(kernel.resolve_path(), b"/tmp/travelling");
    assert_eq!(
        kernel.read_open_how().resolve,
        ResolveFlags::beneath().bits()
    );

    let done = pending
        .redeem(kernel.post_completion(cycle.ring, 9))
        .ok()
        .expect("receipt matches");
    let (file, path, store) = done.into_parts();
    assert!(file.is_some());
    drop((path.into_storage(), store));
}

#[test]
fn abandoning_an_openat2_leaks_both_regions_rather_than_freeing_them() {
    let mut cycle = Lifecycle::new();
    let path = OwnedPath::copy_into(cycle.buffer(64), b"/tmp/dropped")
        .ok()
        .expect("storage fits");
    let prepared = PreparedOpenat2::cwd(
        path,
        OpenFlags::rdwr(),
        Openat2Mode::Create(FileMode::owner_read()),
        ResolveFlags::default(),
        cycle.aligned(24),
    )
    .ok()
    .expect("how storage fits");
    let (kernel, pending) = cycle.submit_openat2(prepared);

    drop(pending);
    assert_eq!(kernel.resolve_path(), b"/tmp/dropped");
    assert_eq!(kernel.read_open_how().mode, 0o400);
}

#[test]
fn reclaiming_an_unpublished_openat2_returns_both_storages_and_its_mode() {
    let mut cycle = Lifecycle::new();
    let prepared = prepared_openat2(
        &cycle,
        b"/tmp/unsent",
        Openat2Mode::CreateNew(FileMode::owner_write()),
        ResolveFlags::in_root(),
    );
    let (_kernel, pending) = cycle.submit_openat2(prepared);

    let prepared = pending.reclaim_unsubmitted();
    assert_eq!(
        prepared.mode(),
        Openat2Mode::CreateNew(FileMode::owner_write())
    );
    assert_eq!(prepared.resolve(), ResolveFlags::in_root());
    assert_eq!(
        prepared.published_how().resolve,
        ResolveFlags::in_root().bits()
    );
    assert_eq!(prepared.path().as_bytes(), b"/tmp/unsent");
    let (path, store) = prepared.into_parts();
    drop((path.into_storage(), store));
}

#[test]
fn the_kernel_writes_a_whole_statx_into_storage_the_ticket_keeps_alive() {
    let mut cycle = Lifecycle::new();
    let prepared = PreparedStatx::cwd(
        cycle.path(b"/etc/hostname"),
        StatxFlags::default(),
        StatxMask::basic_stats(),
        cycle.aligned(256),
    )
    .ok()
    .expect("destination fits");
    let (kernel, pending) = cycle.submit_statx(prepared);

    assert_eq!(kernel.resolve_path(), b"/etc/hostname");
    let receipt = kernel.complete_statx(cycle.ring, StatxMask::basic_stats(), 4096);

    let done = pending.redeem(receipt).ok().expect("receipt matches");
    let stat = done.stat().expect("a successful statx carries a struct");
    assert_eq!(stat.size(), Some(4096));
    assert_eq!(stat.nlink(), Some(1));
    let (path, dest) = done.into_parts();
    assert_eq!(path.as_bytes(), b"/etc/hostname");
    drop((path.into_storage(), dest));
}

#[test]
fn a_statx_destination_stays_writable_while_the_ticket_moves() {
    let mut cycle = Lifecycle::new();
    let prepared = PreparedStatx::cwd(
        cycle.path(b"/tmp/moved"),
        StatxFlags::default(),
        StatxMask::size(),
        cycle.aligned(256),
    )
    .ok()
    .expect("destination fits");
    let (kernel, pending) = cycle.submit_statx(prepared);

    let pending = Box::new(pending);
    let pending = core::hint::black_box(pending);
    let pending = *pending;

    assert_eq!(kernel.resolve_path(), b"/tmp/moved");
    let receipt = kernel.complete_statx(cycle.ring, StatxMask::size(), 17);

    let done = pending.redeem(receipt).ok().expect("receipt matches");
    assert_eq!(done.stat().expect("statx ok").size(), Some(17));
    let (path, dest) = done.into_parts();
    drop((path.into_storage(), dest));
}

#[test]
fn a_failed_statx_reads_nothing_from_the_untouched_destination() {
    let mut cycle = Lifecycle::new();
    let prepared = PreparedStatx::cwd(
        cycle.path(b"/nope"),
        StatxFlags::default(),
        StatxMask::basic_stats(),
        cycle.aligned(256),
    )
    .ok()
    .expect("destination fits");
    let (kernel, pending) = cycle.submit_statx(prepared);

    let id = RequestId::from_raw(kernel.user_data());
    let receipt = terminal(cycle.ring, id, -2, CqeFlags::from_raw(0));
    let done = pending.redeem(receipt).ok().expect("receipt matches");
    assert!(!done.is_ok());
    assert!(done.stat().is_none());
    let (path, dest) = done.into_parts();
    drop((path.into_storage(), dest));
}

#[test]
fn abandoning_a_statx_ticket_leaks_both_regions_rather_than_freeing_them() {
    let mut cycle = Lifecycle::new();
    let path = OwnedPath::copy_into(cycle.buffer(64), b"/tmp/abandoned")
        .ok()
        .expect("storage fits");
    let dest = cycle.aligned(256);
    let prepared = PreparedStatx::cwd(path, StatxFlags::default(), StatxMask::size(), dest)
        .ok()
        .expect("destination fits");
    let (kernel, pending) = cycle.submit_statx(prepared);

    drop(pending);
    assert_eq!(kernel.resolve_path(), b"/tmp/abandoned");
    let _ = kernel.complete_statx(cycle.ring, StatxMask::size(), 1);
}

#[test]
fn reclaiming_an_unpublished_statx_returns_both_storages_and_its_target() {
    let mut cycle = Lifecycle::new();
    let prepared = PreparedStatx::at(
        DirFd::Cwd,
        cycle.path(b"/tmp/retry"),
        StatxFlags::symlink_nofollow(),
        StatxMask::ino(),
        cycle.aligned(256),
    )
    .ok()
    .expect("destination fits");
    let (_kernel, pending) = cycle.submit_statx(prepared);

    let recovered = pending.reclaim_unsubmitted();

    assert_eq!(recovered.path().as_bytes(), b"/tmp/retry");
    assert_eq!(recovered.flags(), StatxFlags::symlink_nofollow());
    assert_eq!(recovered.mask(), StatxMask::ino());
    let (path, dest) = recovered.into_parts();
    drop((path.into_storage(), dest));
}

/// Prepare a direct open, unwrapping the `O_CLOEXEC` refusal.
fn direct_open(
    cycle: &Lifecycle,
    text: &[u8],
    target: SlotTarget,
) -> PreparedDirectOpen<HeapBuffer> {
    PreparedDirectOpen::cwd(
        cycle.path(text),
        OpenFlags::default(),
        FileMode::default(),
        target,
    )
    .ok()
    .expect("no O_CLOEXEC")
}

#[test]
fn a_direct_opens_path_is_scanned_within_the_storage_the_ticket_owns() {
    let mut cycle = Lifecycle::new();
    let prepared = direct_open(&cycle, b"/etc/hosts", SlotTarget::Auto);
    let (kernel, pending) = cycle.submit_direct_open(prepared);

    assert_eq!(kernel.resolve_path(), b"/etc/hosts");

    let opened = pending
        .redeem(kernel.post_completion(cycle.ring, 3))
        .ok()
        .expect("receipt matches");
    assert!(opened.is_ok());
    let (slot, path) = opened.into_parts();
    assert_eq!(slot.expect("slot").index().get(), 3);
    assert_eq!(path.as_bytes(), b"/etc/hosts");
    drop(path.into_storage());
}

#[test]
fn a_direct_slot_needs_no_descriptor_to_be_released() {
    let mut cycle = Lifecycle::new();
    let prepared = direct_open(&cycle, b"/tmp/slotted", SlotTarget::Auto);
    let (kernel, pending) = cycle.submit_direct_open(prepared);

    let opened = pending
        .redeem(kernel.post_completion(cycle.ring, 2))
        .ok()
        .expect("receipt matches");
    let (slot, path) = opened.into_parts();

    // A slot has no destructor: releasing one means asking the ring.
    drop(slot);
    drop(path.into_storage());
}

#[test]
fn an_abandoned_direct_open_leaks_its_path_like_any_other_ticket() {
    let mut cycle = Lifecycle::new();
    let mut storage = cycle.buffer(64);
    storage.fill_from(&[0xFF; 64]);
    let path = OwnedPath::copy_into(storage, b"/tmp/dropped")
        .ok()
        .expect("storage fits");
    let prepared = PreparedDirectOpen::cwd(
        path,
        OpenFlags::default(),
        FileMode::default(),
        SlotTarget::exact(1).expect("representable"),
    )
    .ok()
    .expect("no O_CLOEXEC");
    let (kernel, pending) = cycle.submit_direct_open(prepared);

    drop(pending);
    assert_eq!(kernel.resolve_path(), b"/tmp/dropped");
}

#[test]
fn reclaiming_an_unpublished_direct_open_keeps_its_target() {
    let mut cycle = Lifecycle::new();
    let target = SlotTarget::exact(4).expect("representable");
    let prepared = direct_open(&cycle, b"/tmp/again", target);
    let (_kernel, pending) = cycle.submit_direct_open(prepared);

    let recovered = pending.reclaim_unsubmitted();

    assert_eq!(recovered.target(), target);
    assert_eq!(recovered.path().as_bytes(), b"/tmp/again");
    drop(recovered.into_path().into_storage());
}

#[test]
fn the_nic_may_still_read_a_zero_copy_buffer_after_the_send_cqe() {
    let mut cycle = Lifecycle::new();
    let mut prepared = PreparedZc::send(
        RawFd::from_raw(9),
        cycle.buffer(8),
        MsgFlags::default(),
    );
    prepared
        .buffer_mut()
        .fill_from(b"ququmatz");
    let (kernel, pending) = cycle.submit_zc(prepared);

    let pending = pending
        .record_sent(kernel.post_send(cycle.ring, 8))
        .ok()
        .expect("notice matches");
    assert_eq!(pending.send_result(), Some(8));

    assert_eq!(kernel.observe_write(), b"ququmatz");

    let completed = pending
        .redeem(kernel.post_notification(cycle.ring))
        .ok()
        .expect("notification matches");
    assert_eq!(completed.result().expect("ok"), 8);
    assert_eq!(completed.buffer().as_slice(), b"ququmatz");
}

#[test]
fn a_zero_copy_send_that_promises_no_notification_is_terminal_at_once() {
    let mut cycle = Lifecycle::new();
    let prepared = PreparedZc::send(
        RawFd::from_raw(9),
        cycle.buffer(4),
        MsgFlags::default(),
    );
    let (kernel, pending) = cycle.submit_zc(prepared);

    let completed = pending
        .redeem(kernel.post_completion(cycle.ring, 4))
        .ok()
        .expect("send cqe is terminal");
    assert_eq!(completed.raw_send_result(), None);
    assert_eq!(completed.result().expect("ok"), 4);
}

#[test]
fn abandoning_a_zero_copy_send_leaks_rather_than_freeing_live_pages() {
    let mut cycle = Lifecycle::new();
    let prepared = PreparedZc::send(
        RawFd::from_raw(9),
        cycle.buffer(16),
        MsgFlags::default(),
    );
    let (kernel, pending) = cycle.submit_zc(prepared);

    let pending = pending
        .record_sent(kernel.post_send(cycle.ring, 16))
        .ok()
        .expect("notice matches");
    drop(pending);

    assert_eq!(kernel.observe_write().len(), 16);
}

#[test]
fn a_send_notice_for_another_request_is_rejected_without_disturbing_the_ticket() {
    let mut cycle = Lifecycle::new();
    let prepared = PreparedZc::send(
        RawFd::from_raw(9),
        cycle.buffer(8),
        MsgFlags::default(),
    );
    let (kernel, pending) = cycle.submit_zc(prepared);

    let other = RequestId::from_raw(pending.id().raw().wrapping_add(1));
    let wrong = partial(cycle.ring, other, 8, CqeFlags::more());
    let (pending, _) = pending
        .record_sent(wrong)
        .err()
        .expect("mismatch is rejected");
    assert_eq!(pending.send_result(), None);

    assert_eq!(kernel.observe_write().len(), 8);
    let completed = pending
        .redeem(kernel.post_notification(cycle.ring))
        .ok()
        .expect("notification matches");
    drop(completed);
}

#[test]
fn reclaiming_an_unpublished_zero_copy_send_returns_usable_storage() {
    let mut cycle = Lifecycle::new();
    let prepared = PreparedZc::send(
        RawFd::from_raw(9),
        cycle.buffer(12),
        MsgFlags::default(),
    );
    let (kernel, pending) = cycle.submit_zc(prepared);
    let addr = kernel.addr();

    let mut recovered = pending.reclaim_unsubmitted();

    assert_eq!(recovered.buffer().stable_ptr() as u64, addr);
    recovered.buffer_mut().store(0, 0xFF);
    let buf = recovered.into_buffer();
    assert_eq!(buf.as_slice()[0], 0xFF);
}

#[test]
fn the_kernel_reads_a_timeouts_duration_from_storage_the_ticket_owns() {
    let mut cycle = Lifecycle::new();
    let prepared = PreparedTimeout::after(
        Timespec::new(9, 12_345),
        Count::Completions(4),
        cycle.aligned(16),
    )
    .ok()
    .expect("aligned storage fits");
    let (kernel, pending) = cycle.submit_timeout(prepared);

    let seen = kernel.read_timespec();
    assert_eq!(seen.tv_sec(), 9);
    assert_eq!(seen.tv_nsec(), 12_345);
    assert_eq!(kernel.published_count(), 4);

    let receipt = kernel.post_completion(cycle.ring, -62);
    let done = pending.redeem(receipt).ok().expect("receipt matches");
    assert_eq!(done.expiry(), Expiry::Expired);
    drop(done.into_store());
}

#[test]
fn a_timeouts_duration_survives_the_ticket_moving_between_owners() {
    let mut cycle = Lifecycle::new();
    let prepared = PreparedTimeout::after(Timespec::new(3, 7), Count::Timer, cycle.aligned(16))
        .ok()
        .expect("aligned storage fits");
    let (kernel, pending) = cycle.submit_timeout(prepared);

    let pending = Box::new(pending);
    let pending = core::hint::black_box(pending);
    let pending = *pending;

    let seen = kernel.read_timespec();
    assert_eq!(seen.tv_sec(), 3);
    assert_eq!(seen.tv_nsec(), 7);

    let receipt = kernel.post_completion(cycle.ring, -62);
    let done = pending.redeem(receipt).ok().expect("receipt matches");
    drop(done.into_store());
}

#[test]
fn abandoning_a_timeout_leaks_rather_than_freeing_the_duration() {
    let mut cycle = Lifecycle::new();
    let store = cycle.aligned(16);
    let prepared = PreparedTimeout::after(Timespec::new(1, 2), Count::Timer, store)
        .ok()
        .expect("aligned storage fits");
    let (kernel, pending) = cycle.submit_timeout(prepared);

    drop(pending);
    let seen = kernel.read_timespec();
    assert_eq!(seen.tv_sec(), 1);
}

#[test]
fn reclaiming_an_unpublished_timeout_returns_the_storage_and_its_count() {
    let mut cycle = Lifecycle::new();
    let prepared = PreparedTimeout::at(
        Timespec::new(50, 500),
        Count::Completions(2),
        cycle.aligned(16),
    )
    .ok()
    .expect("aligned storage fits");
    let (_kernel, pending) = cycle.submit_timeout(prepared);

    let prepared = pending.reclaim_unsubmitted();
    assert_eq!(prepared.published().tv_sec(), 50);
    assert_eq!(prepared.published().tv_nsec(), 500);
    assert_eq!(prepared.count(), Count::Completions(2));
    assert!(prepared.is_absolute());
    drop(prepared.into_store());
}

/// A table index well below the reserved sentinels.
fn slot_index(index: u32) -> SlotIndex {
    SlotIndex::new(index).expect("a small index is representable")
}

#[test]
fn the_kernel_walks_the_fd_array_inside_storage_the_ticket_owns() {
    let mut cycle = Lifecycle::new();
    let prepared = PreparedFilesUpdate::at(
        slot_index(4),
        [
            TableEntry::Install(RawFd::from_raw(11)),
            TableEntry::Clear,
            TableEntry::Install(RawFd::from_raw(13)),
        ],
        cycle.aligned(12),
    )
    .ok()
    .expect("aligned storage fits");
    let (kernel, pending) = cycle.submit_files_update(prepared);

    assert_eq!(kernel.read_fd_array(), vec![11, -1, 13]);
    assert_eq!(kernel.published_offset(), 4);

    let receipt = kernel.post_completion(cycle.ring, 3);
    let done = pending.redeem(receipt).ok().expect("receipt matches");
    assert_eq!(done.update(), Update::All { count: 3 });
    drop(done.into_store());
}

#[test]
fn an_arrays_storage_survives_the_ticket_moving_between_owners() {
    let mut cycle = Lifecycle::new();
    let prepared = PreparedFilesUpdate::at(
        slot_index(0),
        [TableEntry::Install(RawFd::from_raw(21)), TableEntry::Clear],
        cycle.aligned(8),
    )
    .ok()
    .expect("aligned storage fits");
    let (kernel, pending) = cycle.submit_files_update(prepared);

    let pending = Box::new(pending);
    let pending = core::hint::black_box(pending);
    let pending = *pending;

    assert_eq!(kernel.read_fd_array(), vec![21, -1]);

    let receipt = kernel.post_completion(cycle.ring, 2);
    let done = pending.redeem(receipt).ok().expect("receipt matches");
    drop(done.into_store());
}

#[test]
fn abandoning_a_files_update_leaks_rather_than_freeing_the_array() {
    let mut cycle = Lifecycle::new();
    let store = cycle.aligned(8);
    let prepared = PreparedFilesUpdate::at(
        slot_index(0),
        [TableEntry::Install(RawFd::from_raw(31)), TableEntry::Clear],
        store,
    )
    .ok()
    .expect("aligned storage fits");
    let (kernel, pending) = cycle.submit_files_update(prepared);

    drop(pending);
    assert_eq!(kernel.read_fd_array(), vec![31, -1]);
}

#[test]
fn reclaiming_an_unpublished_files_update_returns_the_array_and_its_offset() {
    let mut cycle = Lifecycle::new();
    let prepared = PreparedFilesUpdate::at(
        slot_index(6),
        [TableEntry::Install(RawFd::from_raw(41))],
        cycle.aligned(4),
    )
    .ok()
    .expect("aligned storage fits");
    let (_kernel, pending) = cycle.submit_files_update(prepared);

    let prepared = pending.reclaim_unsubmitted();
    assert_eq!(prepared.published(), [41]);
    assert_eq!(prepared.offset().get(), 6);
    drop(prepared.into_store());
}

#[test]
fn the_kernel_reads_an_epoll_event_from_storage_the_ticket_owns() {
    let mut cycle = Lifecycle::new();
    let prepared = PreparedEpollCtl::new(
        RawFd::from_raw(3),
        RawFd::from_raw(9),
        EpollChange::Add {
            events: EpollEvents::readable(),
            data: 0x1234_5678,
        },
        cycle.aligned(12),
    )
    .ok()
    .expect("aligned storage fits");
    let (kernel, pending) = cycle.submit_epoll_ctl(prepared);

    let seen = kernel.read_epoll_event();
    let (events, data) = (seen.events, seen.data);
    assert_eq!(events, EpollEvents::readable().bits());
    assert_eq!(data, 0x1234_5678);
    assert_eq!(kernel.published_epoll_op(), 1);

    let receipt = kernel.post_completion(cycle.ring, 0);
    let done = pending.redeem(receipt).ok().expect("receipt matches");
    assert_eq!(done.outcome(), EpollOutcome::Applied);
    drop(done.into_store());
}

#[test]
fn a_dels_storage_is_live_even_though_the_kernel_reads_nothing() {
    let mut cycle = Lifecycle::new();
    let prepared = PreparedEpollCtl::new(
        RawFd::from_raw(3),
        RawFd::from_raw(9),
        EpollChange::Del,
        cycle.aligned(12),
    )
    .ok()
    .expect("aligned storage fits");
    let (kernel, pending) = cycle.submit_epoll_ctl(prepared);

    let seen = kernel.read_epoll_event();
    let events = seen.events;
    assert_eq!(events, 0);
    assert_eq!(kernel.published_epoll_op(), 2);

    let receipt = kernel.post_completion(cycle.ring, 0);
    let done = pending.redeem(receipt).ok().expect("receipt matches");
    drop(done.into_store());
}

#[test]
fn an_events_storage_survives_the_ticket_moving_between_owners() {
    let mut cycle = Lifecycle::new();
    let prepared = PreparedEpollCtl::new(
        RawFd::from_raw(3),
        RawFd::from_raw(9),
        EpollChange::Mod {
            events: EpollEvents::writable(),
            data: 77,
        },
        cycle.aligned(12),
    )
    .ok()
    .expect("aligned storage fits");
    let (kernel, pending) = cycle.submit_epoll_ctl(prepared);

    let pending = Box::new(pending);
    let pending = core::hint::black_box(pending);
    let pending = *pending;

    let seen = kernel.read_epoll_event();
    let (events, data) = (seen.events, seen.data);
    assert_eq!(events, EpollEvents::writable().bits());
    assert_eq!(data, 77);

    let receipt = kernel.post_completion(cycle.ring, 0);
    let done = pending.redeem(receipt).ok().expect("receipt matches");
    drop(done.into_store());
}

#[test]
fn abandoning_an_epoll_ctl_leaks_rather_than_freeing_the_event() {
    let mut cycle = Lifecycle::new();
    let store = cycle.aligned(12);
    let prepared = PreparedEpollCtl::new(
        RawFd::from_raw(3),
        RawFd::from_raw(9),
        EpollChange::Add {
            events: EpollEvents::readable(),
            data: 5,
        },
        store,
    )
    .ok()
    .expect("aligned storage fits");
    let (kernel, pending) = cycle.submit_epoll_ctl(prepared);

    drop(pending);
    let seen = kernel.read_epoll_event();
    let data = seen.data;
    assert_eq!(data, 5);
}

#[test]
fn reclaiming_an_unpublished_epoll_ctl_returns_the_storage_and_its_change() {
    let mut cycle = Lifecycle::new();
    let change = EpollChange::Mod {
        events: EpollEvents::hang_up(),
        data: 321,
    };
    let prepared = PreparedEpollCtl::new(
        RawFd::from_raw(3),
        RawFd::from_raw(9),
        change,
        cycle.aligned(12),
    )
    .ok()
    .expect("aligned storage fits");
    let (_kernel, pending) = cycle.submit_epoll_ctl(prepared);

    let prepared = pending.reclaim_unsubmitted();
    assert_eq!(prepared.change(), change);
    let seen = prepared.published();
    let (events, data) = (seen.events, seen.data);
    assert_eq!(events, EpollEvents::hang_up().bits());
    assert_eq!(data, 321);
    drop(prepared.into_store());
}

/// A loopback address on `port`, in the byte order the kernel expects.
fn loopback(port: u16) -> SockAddrIn {
    SockAddrIn {
        sin_family: 2,
        sin_port: port.to_be(),
        sin_addr: u32::from_ne_bytes([127, 0, 0, 1]),
        sin_zero: [0; 8],
    }
}

#[test]
fn the_kernel_reads_a_sock_addr_from_storage_the_ticket_owns() {
    let mut cycle = Lifecycle::new();
    let prepared = PreparedBind::new(RawFd::from_raw(3), loopback(8080), cycle.buffer(16))
        .ok()
        .expect("storage fits");
    let (kernel, pending) = cycle.submit_bind(prepared);

    assert_eq!(kernel.read_sock_addr(), loopback(8080).to_bytes());
    assert_eq!(
        kernel.published_addr_len(),
        SockAddrIn::size_of() as u64
    );

    let receipt = kernel.post_completion(cycle.ring, 0);
    let done = pending.redeem(receipt).ok().expect("receipt matches");
    assert_eq!(done.outcome(), BindOutcome::Bound);
    drop(done.into_store());
}

#[test]
fn an_addresss_storage_survives_the_ticket_moving_between_owners() {
    let mut cycle = Lifecycle::new();
    let prepared = PreparedBind::new(RawFd::from_raw(3), loopback(443), cycle.buffer(16))
        .ok()
        .expect("storage fits");
    let (kernel, pending) = cycle.submit_bind(prepared);

    let pending = Box::new(pending);
    let pending = core::hint::black_box(pending);
    let pending = *pending;

    assert_eq!(kernel.read_sock_addr(), loopback(443).to_bytes());

    let receipt = kernel.post_completion(cycle.ring, 0);
    let done = pending.redeem(receipt).ok().expect("receipt matches");
    drop(done.into_store());
}

#[test]
fn abandoning_a_bind_leaks_rather_than_freeing_the_address() {
    let mut cycle = Lifecycle::new();
    let store = cycle.buffer(16);
    let prepared = PreparedBind::new(RawFd::from_raw(3), loopback(9999), store)
        .ok()
        .expect("storage fits");
    let (kernel, pending) = cycle.submit_bind(prepared);

    drop(pending);
    assert_eq!(kernel.read_sock_addr(), loopback(9999).to_bytes());
}

#[test]
fn reclaiming_an_unpublished_bind_returns_the_storage_and_its_address() {
    let mut cycle = Lifecycle::new();
    let prepared = PreparedBind::new(RawFd::from_raw(3), loopback(1234), cycle.buffer(16))
        .ok()
        .expect("storage fits");
    let (_kernel, pending) = cycle.submit_bind(prepared);

    let prepared = pending.reclaim_unsubmitted();
    assert_eq!(prepared.addr(), loopback(1234));
    assert_eq!(prepared.published(), loopback(1234).to_bytes());
    drop(prepared.into_store());
}

#[test]
fn the_kernel_reads_a_connect_address_from_storage_the_ticket_owns() {
    let mut cycle = Lifecycle::new();
    let prepared = PreparedConnect::new(RawFd::from_raw(3), loopback(8080), cycle.buffer(16))
        .ok()
        .expect("storage fits");
    let (kernel, pending) = cycle.submit_connect(prepared);

    assert_eq!(kernel.read_sock_addr(), loopback(8080).to_bytes());
    assert_eq!(
        kernel.published_addr_len(),
        SockAddrIn::size_of() as u64
    );

    let receipt = kernel.post_completion(cycle.ring, 0);
    let done = pending.redeem(receipt).ok().expect("receipt matches");
    assert_eq!(done.outcome(), ConnectOutcome::Connected);
    drop(done.into_store());
}

#[test]
fn a_connect_address_survives_the_ticket_moving_between_owners() {
    let mut cycle = Lifecycle::new();
    let prepared = PreparedConnect::new(RawFd::from_raw(3), loopback(443), cycle.buffer(16))
        .ok()
        .expect("storage fits");
    let (kernel, pending) = cycle.submit_connect(prepared);

    let pending = Box::new(pending);
    let pending = core::hint::black_box(pending);
    let pending = *pending;

    assert_eq!(kernel.read_sock_addr(), loopback(443).to_bytes());

    let receipt = kernel.post_completion(cycle.ring, 0);
    let done = pending.redeem(receipt).ok().expect("receipt matches");
    drop(done.into_store());
}

#[test]
fn abandoning_a_connect_leaks_rather_than_freeing_the_address() {
    let mut cycle = Lifecycle::new();
    let store = cycle.buffer(16);
    let prepared = PreparedConnect::new(RawFd::from_raw(3), loopback(9999), store)
        .ok()
        .expect("storage fits");
    let (kernel, pending) = cycle.submit_connect(prepared);

    drop(pending);
    assert_eq!(kernel.read_sock_addr(), loopback(9999).to_bytes());
}

#[test]
fn reclaiming_an_unpublished_connect_returns_the_storage_and_its_address() {
    let mut cycle = Lifecycle::new();
    let prepared = PreparedConnect::new(RawFd::from_raw(3), loopback(1234), cycle.buffer(16))
        .ok()
        .expect("storage fits");
    let (_kernel, pending) = cycle.submit_connect(prepared);

    let prepared = pending.reclaim_unsubmitted();
    assert_eq!(prepared.addr(), loopback(1234));
    assert_eq!(prepared.published(), loopback(1234).to_bytes());
    drop(prepared.into_store());
}

#[test]
fn the_kernel_reaches_every_vectored_buffer_through_the_published_array() {
    let mut cycle = Lifecycle::new();
    let bufs = [(); 3].map(|()| cycle.buffer(4));
    let vecs = cycle.aligned(256);
    let prepared = PreparedVectored::readv(RawFd::from_raw(7), bufs, vecs, 0)
        .ok()
        .expect("storage fits");
    let (kernel, pending) = cycle.submit_vectored(prepared);

    let mut total = 0usize;
    for (i, fill) in [0xA1u8, 0xB2, 0xC3].into_iter().enumerate() {
        total += kernel.complete_readv(i, fill);
    }
    let receipt = kernel.post_completion(cycle.ring, i32::try_from(total).expect("fits"));

    let completed = pending.redeem(receipt).ok().expect("receipt matches");
    assert_eq!(completed.result().expect("ok"), 12);
    let bufs = completed.buffers();
    assert!(bufs[0].as_slice().iter().all(|&b| b == 0xA1));
    assert!(bufs[1].as_slice().iter().all(|&b| b == 0xB2));
    assert!(bufs[2].as_slice().iter().all(|&b| b == 0xC3));
}

#[test]
fn a_vectored_ticket_keeps_its_array_valid_across_moves() {
    let mut cycle = Lifecycle::new();
    let bufs = [(); 2].map(|()| cycle.buffer(8));
    let vecs = cycle.aligned(256);
    let prepared = PreparedVectored::readv(RawFd::from_raw(7), bufs, vecs, 0)
        .ok()
        .expect("storage fits");
    let (kernel, pending) = cycle.submit_vectored(prepared);

    let boxed = Box::new(pending);
    let pending = *boxed;
    let moved = core::hint::black_box(pending);

    let mut total = 0usize;
    for i in 0..2 {
        total += kernel.complete_readv(i, 0x5A);
    }
    let receipt = kernel.post_completion(cycle.ring, i32::try_from(total).expect("fits"));

    let completed = moved.redeem(receipt).ok().expect("receipt matches");
    assert_eq!(completed.result().expect("ok"), 16);
    assert!(
        completed
            .buffers()
            .iter()
            .all(|b| b.as_slice().iter().all(|&x| x == 0x5A))
    );
}

#[test]
fn a_gather_write_publishes_the_bytes_each_buffer_staged() {
    let mut cycle = Lifecycle::new();
    let mut bufs = [(); 2].map(|()| cycle.buffer(4));
    bufs[0].fill_from(b"abcd");
    bufs[1].fill_from(b"efgh");
    let vecs = cycle.aligned(256);
    let prepared = PreparedVectored::writev(RawFd::from_raw(1), bufs, vecs, 0)
        .ok()
        .expect("storage fits");
    let (kernel, pending) = cycle.submit_vectored(prepared);

    assert_eq!(kernel.observe_writev(0), b"abcd");
    assert_eq!(kernel.observe_writev(1), b"efgh");

    let receipt = kernel.post_completion(cycle.ring, 8);
    let completed = pending.redeem(receipt).ok().expect("receipt matches");
    assert_eq!(completed.result().expect("ok"), 8);
}

#[test]
fn abandoning_a_vectored_ticket_leaks_rather_than_freeing_live_storage() {
    let mut cycle = Lifecycle::new();
    let bufs = [(); 2].map(|()| cycle.buffer(8));
    let vecs = cycle.aligned(256);
    let prepared = PreparedVectored::readv(RawFd::from_raw(7), bufs, vecs, 0)
        .ok()
        .expect("storage fits");
    let (kernel, pending) = cycle.submit_vectored(prepared);

    drop(pending);

    for i in 0..2 {
        kernel.complete_readv(i, 0x77);
    }
    assert_eq!(kernel.observe_writev(0), [0x77; 8]);
}

#[test]
fn reclaiming_an_unpublished_vectored_request_returns_usable_storage() {
    let mut cycle = Lifecycle::new();
    let bufs = [(); 2].map(|()| cycle.buffer(8));
    let vecs = cycle.aligned(256);
    let prepared = PreparedVectored::writev(RawFd::from_raw(3), bufs, vecs, 0)
        .ok()
        .expect("storage fits");
    let (_kernel, pending) = cycle.submit_vectored(prepared);

    let mut recovered = pending.reclaim_unsubmitted();
    assert_eq!(recovered.fd().as_i32(), 3);
    recovered.buffers_mut()[0].store(0, 1);
    assert_eq!(recovered.buffers()[0].load(0), 1);
}

#[test]
fn the_kernel_reaches_a_messages_bytes_by_following_the_header_it_published() {
    let mut cycle = Lifecycle::new();
    let prepared = PreparedSendmsg::new(
        RawFd::from_raw(7),
        [
            cycle.filled(b"one"),
            cycle.filled(b"two!"),
            cycle.filled(b"five5"),
        ],
        cycle.aligned(120),
        SendTarget::Connected,
        MsgFlags::default(),
    )
    .ok()
    .expect("staging fits");
    let (kernel, pending) = cycle.submit_sendmsg(prepared);

    assert_eq!(kernel.observe_sendmsg(), b"onetwo!five5");
    assert!(kernel.message_name().is_none());

    let receipt = kernel.post_completion(cycle.ring, 12);
    let done = pending.redeem(receipt).ok().expect("receipt matches");
    assert_eq!(done.result().expect("ok"), 12);
    let (_, bufs, store) = done.into_parts();
    drop((bufs, store));
}

#[test]
fn a_messages_three_regions_survive_the_ticket_moving_between_owners() {
    let mut cycle = Lifecycle::new();
    let addr = SockAddrIn {
        sin_family: 2,
        sin_port: 4242u16.to_be(),
        sin_addr: u32::from_ne_bytes([127, 0, 0, 1]),
        sin_zero: [0; 8],
    };
    let prepared = PreparedSendmsg::new(
        RawFd::from_raw(7),
        [cycle.filled(b"travel"), cycle.filled(b"ling")],
        cycle.aligned(104),
        SendTarget::To(addr),
        MsgFlags::default(),
    )
    .ok()
    .expect("staging fits");
    let (kernel, pending) = cycle.submit_sendmsg(prepared);

    let pending = Box::new(pending);
    let pending = core::hint::black_box(pending);
    let pending = *pending;

    assert_eq!(kernel.observe_sendmsg(), b"travelling");
    assert_eq!(kernel.message_name().expect("addressed"), addr);

    let receipt = kernel.post_completion(cycle.ring, 10);
    let done = pending.redeem(receipt).ok().expect("receipt matches");
    let (_, bufs, store) = done.into_parts();
    drop((bufs, store));
}

#[test]
fn abandoning_a_sendmsg_leaks_every_region_rather_than_freeing_them() {
    let mut cycle = Lifecycle::new();
    let region = cycle.aligned(104);
    let first = cycle.filled(b"abandon");
    let second = cycle.filled(b"ed");

    let prepared = PreparedSendmsg::new(
        RawFd::from_raw(7),
        [first, second],
        region,
        SendTarget::Connected,
        MsgFlags::default(),
    )
    .ok()
    .expect("staging fits");
    let (kernel, pending) = cycle.submit_sendmsg(prepared);

    drop(pending);
    assert_eq!(kernel.observe_sendmsg(), b"abandoned");
}

#[test]
fn reclaiming_an_unpublished_sendmsg_returns_every_storage_and_its_header() {
    let mut cycle = Lifecycle::new();
    let prepared = PreparedSendmsg::new(
        RawFd::from_raw(7),
        [cycle.filled(b"unsent")],
        cycle.aligned(88),
        SendTarget::Connected,
        MsgFlags::nosignal(),
    )
    .ok()
    .expect("staging fits");
    let (_kernel, pending) = cycle.submit_sendmsg(prepared);

    let prepared = pending.reclaim_unsubmitted();
    assert_eq!(prepared.flags(), MsgFlags::nosignal());
    assert_eq!(prepared.target(), SendTarget::Connected);
    assert_eq!(prepared.published_header().msg_iovlen, 1);
    assert_eq!(prepared.total_len(), 6);
    let (bufs, store) = prepared.into_parts();
    drop((bufs, store));
}

#[test]
fn the_kernel_fills_a_receives_buffers_by_following_the_header_it_published() {
    let mut cycle = Lifecycle::new();
    let prepared = PreparedRecvmsg::new(
        RawFd::from_raw(7),
        [
            cycle.buffer(3),
            cycle.buffer(4),
            cycle.buffer(5),
        ],
        cycle.aligned(120),
        PeerWanted::No,
        MsgFlags::default(),
    )
    .ok()
    .expect("staging fits");
    let (kernel, pending) = cycle.submit_recvmsg(prepared);

    let written = kernel.deliver_recvmsg(b"onetwo!five5", None);
    assert_eq!(written, 12);

    let receipt = kernel.post_completion(cycle.ring, 12);
    let done = pending.redeem(receipt).ok().expect("receipt matches");
    assert_eq!(done.received().expect("ok").bytes(), 12);
    assert!(!done.received().expect("ok").truncated());

    let (_, _, bufs, store) = done.into_parts();
    assert_eq!(bufs[0].as_slice(), b"one");
    assert_eq!(bufs[1].as_slice(), b"two!");
    assert_eq!(bufs[2].as_slice(), b"five5");
    drop(store);
}

#[test]
fn a_receives_three_regions_survive_the_ticket_moving_between_owners() {
    let mut cycle = Lifecycle::new();
    let prepared = PreparedRecvmsg::new(
        RawFd::from_raw(7),
        [cycle.buffer(6), cycle.buffer(4)],
        cycle.aligned(104),
        PeerWanted::Yes,
        MsgFlags::default(),
    )
    .ok()
    .expect("staging fits");
    let (kernel, pending) = cycle.submit_recvmsg(prepared);

    let pending = Box::new(pending);
    let pending = core::hint::black_box(pending);
    let pending = *pending;

    let peer = SockAddrIn {
        sin_family: 2,
        sin_port: 4242u16.to_be(),
        sin_addr: u32::from_ne_bytes([127, 0, 0, 1]),
        sin_zero: [0; 8],
    };
    assert_eq!(kernel.deliver_recvmsg(b"travelling", Some(peer)), 10);

    let receipt = kernel.post_completion(cycle.ring, 10);
    let done = pending.redeem(receipt).ok().expect("receipt matches");
    assert_eq!(done.peer().v4().expect("a peer was written"), peer);

    let (_, _, bufs, store) = done.into_parts();
    assert_eq!(bufs[0].as_slice(), b"travel");
    assert_eq!(bufs[1].as_slice(), b"ling");
    drop(store);
}

#[test]
fn a_truncated_receive_reports_through_the_header_the_kernel_wrote() {
    let mut cycle = Lifecycle::new();
    let prepared = PreparedRecvmsg::new(
        RawFd::from_raw(7),
        [cycle.buffer(2)],
        cycle.aligned(88),
        PeerWanted::No,
        MsgFlags::default(),
    )
    .ok()
    .expect("staging fits");
    let (kernel, pending) = cycle.submit_recvmsg(prepared);

    assert_eq!(kernel.deliver_recvmsg(b"eleven byte", None), 2);

    let receipt = kernel.post_completion(cycle.ring, 2);
    let done = pending.redeem(receipt).ok().expect("receipt matches");
    let received = done.received().expect("ok");
    assert_eq!(received.bytes(), 2);
    assert!(received.truncated());

    let (_, _, bufs, store) = done.into_parts();
    assert_eq!(bufs[0].as_slice(), b"el");
    drop(store);
}

#[test]
fn a_peer_too_large_for_the_slot_is_not_read_out_of_the_bytes_that_did_fit() {
    let mut cycle = Lifecycle::new();
    let prepared = PreparedRecvmsg::new(
        RawFd::from_raw(7),
        [cycle.buffer(4)],
        cycle.aligned(88),
        PeerWanted::Yes,
        MsgFlags::default(),
    )
    .ok()
    .expect("staging fits");
    let (kernel, pending) = cycle.submit_recvmsg(prepared);

    assert_eq!(kernel.deliver_oversized_peer(b"six", 28), 3);

    let receipt = kernel.post_completion(cycle.ring, 3);
    let done = pending.redeem(receipt).ok().expect("receipt matches");
    assert!(done.peer().is_truncated());
    assert!(done.peer().v4().is_none());

    let (_, _, bufs, store) = done.into_parts();
    drop((bufs, store));
}

#[test]
fn a_short_address_is_refused_even_when_the_bytes_present_look_like_ipv4() {
    let mut cycle = Lifecycle::new();
    let prepared = PreparedRecvmsg::new(
        RawFd::from_raw(7),
        [cycle.buffer(4)],
        cycle.aligned(88),
        PeerWanted::Yes,
        MsgFlags::default(),
    )
    .ok()
    .expect("staging fits");
    let (kernel, pending) = cycle.submit_recvmsg(prepared);

    let looks_right = SockAddrIn {
        sin_family: 2,
        sin_port: 9999u16.to_be(),
        sin_addr: u32::from_ne_bytes([10, 1, 2, 3]),
        sin_zero: [0; 8],
    };
    assert_eq!(
        kernel.deliver_with_reported_namelen(b"four", 11, Some(looks_right)),
        4
    );

    let receipt = kernel.post_completion(cycle.ring, 4);
    let done = pending.redeem(receipt).ok().expect("receipt matches");
    assert!(
        done.peer().v4().is_none(),
        "11 of 16 bytes is not a whole address, whatever the family says"
    );
    assert!(!done.peer().is_truncated());

    let (_, _, bufs, store) = done.into_parts();
    drop((bufs, store));
}

#[test]
fn abandoning_a_recvmsg_leaks_every_region_rather_than_freeing_them() {
    let mut cycle = Lifecycle::new();
    let region = cycle.aligned(104);
    let first = cycle.buffer(7);
    let second = cycle.buffer(2);

    let prepared = PreparedRecvmsg::new(
        RawFd::from_raw(7),
        [first, second],
        region,
        PeerWanted::No,
        MsgFlags::default(),
    )
    .ok()
    .expect("staging fits");
    let (kernel, pending) = cycle.submit_recvmsg(prepared);

    drop(pending);
    assert_eq!(kernel.deliver_recvmsg(b"abandoned", None), 9);
}

#[test]
fn reclaiming_an_unpublished_recvmsg_returns_every_storage_and_its_header() {
    let mut cycle = Lifecycle::new();
    let prepared = PreparedRecvmsg::new(
        RawFd::from_raw(7),
        [cycle.buffer(6)],
        cycle.aligned(88),
        PeerWanted::Yes,
        MsgFlags::dontwait(),
    )
    .ok()
    .expect("staging fits");
    let (_kernel, pending) = cycle.submit_recvmsg(prepared);

    let prepared = pending.reclaim_unsubmitted();
    assert_eq!(prepared.flags(), MsgFlags::dontwait());
    assert_eq!(prepared.peer_wanted(), PeerWanted::Yes);
    assert_eq!(prepared.published_header().msg_iovlen, 1);
    assert_eq!(
        u64::from(prepared.published_header().msg_namelen),
        SockAddrIn::size_of() as u64
    );
    assert_eq!(prepared.capacity(), 6);
    let (bufs, store) = prepared.into_parts();
    drop((bufs, store));
}
