//! Vectored reads and writes that own their buffers and the array naming
//! them.
//!
//! The kernel is handed the address of an array of descriptors and follows
//! it to the buffers, so the array has to stay put as well. Its storage is
//! supplied by the caller and checked for room and alignment before the
//! request can exist; the descriptors are written when it is submitted.

use super::array::{element, encoded_all, written_elements_read_back, StagedArray};
use super::buffer::{same_place, StableBuffer, StableBufferMut};
use super::identity::{RequestId, RingId};
use super::lifecycle::{Done, Ticket};
use super::request::{Direction, Receipt};
use crate::bytes::overwritten;
use crate::error::Error;
use crate::op::{blank, IoUringSqe, Sqe};
use crate::text::{decimal, numeral_text, with_decimal};
use crate::types::abi::{Abi, IoVec};
use crate::types::fd::RawFd;
use core::mem::ManuallyDrop;
use vstd::prelude::*;
use vstd::string::StringExecFns;

verus! {

/// The most buffers the kernel accepts.
pub const MAX_BUFFERS: usize = 1024;

/// Why a vectored request could not be built.
#[derive(Clone, Copy, Debug, PartialEq, Eq, Structural)]
pub enum VectoredError {
    /// The storage cannot hold the descriptor array.
    VecsTooSmall {
        /// Bytes it needs.
        needed: usize,
        /// Bytes the supplied storage has.
        got: usize,
    },
    /// The storage is not aligned for descriptors.
    VecsMisaligned {
        /// Alignment it needs.
        needed: usize,
    },
    /// More buffers than the kernel accepts.
    TooManyBuffers {
        /// Buffers asked for.
        got: usize,
        /// The most the kernel accepts.
        max: usize,
    },
}

impl VectoredError {
    /// What [`message`](Self::message) says.
    pub open spec fn text(self) -> Seq<char> {
        match self {
            VectoredError::VecsTooSmall { needed, got } => "iovec array needs "@
                + decimal(needed as nat) + " bytes, got "@ + decimal(got as nat),
            VectoredError::VecsMisaligned { needed } => "iovec array must be "@
                + decimal(needed as nat) + "-byte aligned"@,
            VectoredError::TooManyBuffers { got, max } => decimal(got as nat)
                + " buffers exceeds the kernel's limit of "@ + decimal(max as nat),
        }
    }

    /// Every case says what happened, in its own words and with its own numbers.
    pub proof fn texts_say_what_happened(self)
        ensures
            self matches VectoredError::VecsTooSmall { needed, got } ==> self.text()
                == "iovec array needs "@ + decimal(needed as nat) + " bytes, got "@
                    + decimal(got as nat),
            self matches VectoredError::VecsMisaligned { needed } ==> self.text()
                == "iovec array must be "@ + decimal(needed as nat) + "-byte aligned"@,
            self matches VectoredError::TooManyBuffers { got, max } ==> self.text()
                == decimal(got as nat) + " buffers exceeds the kernel's limit of "@
                    + decimal(max as nat),
    {
    }

    /// A description for people.
    pub fn message(&self) -> (s: String)
        ensures
            s@ == self.text(),
    {
        match *self {
            VectoredError::VecsTooSmall { needed, got } => {
                let s = String::from_str("iovec array needs ");
                let s = with_decimal(s, needed as u64);
                let s = s.concat(" bytes, got ");
                with_decimal(s, got as u64)
            },
            VectoredError::VecsMisaligned { needed } => {
                let s = String::from_str("iovec array must be ");
                let s = with_decimal(s, needed as u64);
                s.concat("-byte aligned")
            },
            VectoredError::TooManyBuffers { got, max } => {
                let s = numeral_text(got as u64, 10);
                let s = s.concat(" buffers exceeds the kernel's limit of ");
                with_decimal(s, max as u64)
            },
        }
    }
}

/// The descriptor of one buffer.
pub open spec fn descriptor_of<B: StableBuffer>(buffer: B) -> IoVec {
    IoVec { iov_base: buffer.addr() as u64, iov_len: buffer.bytes().len() as u64 }
}

/// The descriptors of several buffers.
pub open spec fn descriptors_of<B: StableBuffer>(buffers: Seq<B>) -> Seq<IoVec> {
    buffers.map_values(|b: B| descriptor_of(b))
}

/// Describe `buffers`, in order.
pub fn describe<B: StableBuffer, const N: usize>(buffers: &[B; N]) -> (r: Vec<IoVec>)
    ensures
        r@ == descriptors_of(buffers@),
{
    let mut vecs: Vec<IoVec> = Vec::new();
    let mut i: usize = 0;
    while i < N
        invariant
            i <= N,
            vecs@ =~= descriptors_of(buffers@).take(i as int),
        decreases N - i,
    {
        let buffer: &B = &buffers[i];
        vecs.push(IoVec::new(buffer.stable_ptr() as u64, buffer.stable_len() as u64));
        i += 1;
    }
    assert(vecs@ =~= descriptors_of(buffers@));
    vecs
}

/// Storage that is known to have room for `N` descriptors.
pub struct VecRoom<V: StableBufferMut, const N: usize> {
    store: V,
}

impl<V: StableBufferMut, const N: usize> VecRoom<V, N> {
    /// The storage.
    pub closed spec fn store(self) -> V {
        self.store
    }

    /// They fit, and the kernel accepts that many.
    #[verifier::type_invariant]
    pub open spec fn fits(self) -> bool {
        &&& N <= MAX_BUFFERS
        &&& self.store().bytes().len() >= N * 16
        &&& self.store().addr() % 8 == 0
    }

    /// Check `store` for room.
    ///
    /// # Errors
    ///
    /// Returns the storage unchanged if there are too many descriptors, or
    /// else if it is too small, or else if it is misaligned.
    pub fn check(store: V) -> (r: Result<Self, (V, VectoredError)>)
        ensures
            match r {
                Ok(room) => room_error::<V>(store, N) is None && room.store() == store,
                Err((back, why)) => back == store && room_error::<V>(store, N) == Some(why),
            },
    {
        if N > MAX_BUFFERS {
            return Err((store, VectoredError::TooManyBuffers { got: N, max: MAX_BUFFERS }));
        }
        let needed: usize = N * IoVec::size_of();
        let got: usize = store.stable_len();
        if got < needed {
            return Err((store, VectoredError::VecsTooSmall { needed, got }));
        }
        let align: usize = IoVec::align_of();
        if !store.stable_ptr().is_multiple_of(align) {
            return Err((store, VectoredError::VecsMisaligned { needed: align }));
        }
        Ok(VecRoom { store })
    }

    /// Write `vecs` to the storage.
    fn publish(self, vecs: Vec<IoVec>) -> (r: Self)
        requires
            vecs@.len() == N,
        ensures
            r.store().addr() == self.store().addr(),
            r.store().bytes() == overwritten(self.store().bytes(), 0, encoded_all(vecs@)),
    {
        proof {
            use_type_invariant(&self);
        }
        match StagedArray::place(vecs, self.store, 8) {
            Ok(table) => VecRoom { store: table.into_store() },
            Err(_) => vstd::pervasive::unreached(),
        }
    }
}

/// Why storage has no room for `count` descriptors, if it has none.
pub open spec fn room_error<V: StableBuffer>(store: V, count: usize) -> Option<VectoredError> {
    let got = store.bytes().len();
    if count > MAX_BUFFERS {
        Some(VectoredError::TooManyBuffers { got: count, max: MAX_BUFFERS })
    } else if got < count * 16 {
        Some(VectoredError::VecsTooSmall { needed: (count * 16) as usize, got: got as usize })
    } else if store.addr() % 8 != 0 {
        Some(VectoredError::VecsMisaligned { needed: 8 })
    } else {
        None
    }
}

/// A vectored transfer: what is asked for.
pub struct VectoredRequest<B, V, const N: usize> {
    /// The file.
    pub fd: RawFd,
    /// Which way the bytes go.
    pub direction: Direction,
    /// The buffers.
    pub buffers: [B; N],
    /// Storage for the descriptor array.
    pub vecs: V,
    /// Where in the file to start.
    pub offset: u64,
}

impl<B: StableBuffer, V: StableBuffer, const N: usize> VectoredRequest<B, V, N> {
    /// The submission that asks for it.
    pub open spec fn sqe(self) -> Sqe {
        match self.direction {
            Direction::Read => Sqe::readv_ptr(
                self.fd,
                self.vecs.addr() as u64,
                N as u32,
                self.offset,
            ),
            Direction::Write => Sqe::writev_ptr(
                self.fd,
                self.vecs.addr() as u64,
                N as u32,
                self.offset,
            ),
        }
    }

    /// The entry reads, operation 1, or writes, operation 2, as the direction says,
    /// the file from the offset on, through as many descriptors as there are
    /// buffers.
    pub proof fn goes_its_direction(self)
        ensures
            self.direction is Read ==> self.sqe().0 == (IoUringSqe {
                opcode: 1,
                fd: self.fd.as_i32(),
                off: self.offset,
                addr: self.vecs.addr() as u64,
                len: N as u32,
                ..blank()
            }),
            self.direction is Write ==> self.sqe().0 == (IoUringSqe {
                opcode: 2,
                fd: self.fd.as_i32(),
                off: self.offset,
                addr: self.vecs.addr() as u64,
                len: N as u32,
                ..blank()
            }),
    {
    }
}

/// A vectored transfer that owns its buffers but is not queued yet.
pub struct PreparedVectored<B: StableBuffer, V: StableBufferMut, const N: usize> {
    fd: RawFd,
    direction: Direction,
    buffers: [B; N],
    room: VecRoom<V, N>,
    offset: u64,
}

impl<B: StableBuffer, V: StableBufferMut, const N: usize> View for PreparedVectored<B, V, N> {
    type V = VectoredRequest<B, V, N>;

    closed spec fn view(&self) -> VectoredRequest<B, V, N> {
        VectoredRequest {
            fd: self.fd,
            direction: self.direction,
            buffers: self.buffers,
            vecs: self.room.store(),
            offset: self.offset,
        }
    }
}

/// What comes of preparing `request`: it, or why not, with everything that
/// was handed in.
pub open spec fn vectored_prepared<B: StableBuffer, V: StableBufferMut, const N: usize>(
    request: VectoredRequest<B, V, N>,
    r: Result<PreparedVectored<B, V, N>, ([B; N], V, VectoredError)>,
) -> bool {
    match r {
        Ok(prepared) => {
            &&& room_error(request.vecs, N) is None
            &&& prepared@ == request
        },
        Err((buffers, vecs, why)) => {
            &&& room_error(request.vecs, N) == Some(why)
            &&& buffers == request.buffers
            &&& vecs == request.vecs
        },
    }
}

impl<B: StableBufferMut, V: StableBufferMut, const N: usize> PreparedVectored<B, V, N> {
    /// Read from `fd` at `offset` into `buffers`, one after the other.
    ///
    /// Takes `vecs` to keep the descriptors in.
    ///
    /// # Errors
    ///
    /// Returns buffers and storage unchanged if there are too many buffers,
    /// or else if the storage is too small, or else if it is misaligned.
    pub fn readv(fd: RawFd, buffers: [B; N], vecs: V, offset: u64) -> (r: Result<
        Self,
        ([B; N], V, VectoredError),
    >)
        ensures
            vectored_prepared(
                VectoredRequest { fd, direction: Direction::Read, buffers, vecs, offset },
                r,
            ),
    {
        match VecRoom::check(vecs) {
            Ok(room) => Ok(
                PreparedVectored { fd, direction: Direction::Read, buffers, room, offset },
            ),
            Err((vecs, e)) => Err((buffers, vecs, e)),
        }
    }
}

impl<B: StableBuffer, V: StableBufferMut, const N: usize> PreparedVectored<B, V, N> {
    /// Write `buffers` to `fd` at `offset`, one after the other.
    ///
    /// Takes `vecs` to keep the descriptors in.
    ///
    /// # Errors
    ///
    /// As [`readv`](Self::readv).
    pub fn writev(fd: RawFd, buffers: [B; N], vecs: V, offset: u64) -> (r: Result<
        Self,
        ([B; N], V, VectoredError),
    >)
        ensures
            vectored_prepared(
                VectoredRequest { fd, direction: Direction::Write, buffers, vecs, offset },
                r,
            ),
    {
        match VecRoom::check(vecs) {
            Ok(room) => Ok(
                PreparedVectored { fd, direction: Direction::Write, buffers, room, offset },
            ),
            Err((vecs, e)) => Err((buffers, vecs, e)),
        }
    }

    /// The file.
    pub fn fd(&self) -> (r: RawFd)
        ensures
            r == self@.fd,
    {
        self.fd
    }

    /// Borrow the buffers.
    pub fn buffers(&self) -> (b: &[B; N])
        ensures
            *b == self@.buffers,
    {
        &self.buffers
    }

    /// Borrow the buffers for filling them.
    pub fn buffers_mut(&mut self) -> (b: &mut [B; N])
        ensures
            *b == old(self)@.buffers,
            final(self)@ == (VectoredRequest { buffers: *final(b), ..old(self)@ }),
    {
        &mut self.buffers
    }

    /// Give buffers and storage back, abandoning the request.
    pub fn into_parts(self) -> (r: ([B; N], V))
        ensures
            r == (self@.buffers, self@.vecs),
    {
        (self.buffers, self.room.store)
    }

    /// Publish the descriptors, build the submission and move to the pending
    /// state.
    ///
    /// The storage then starts with the descriptors of the buffers.
    pub fn into_pending(self, ring: RingId, id: RequestId) -> (r: (
        Sqe,
        PendingVectored<B, V, N>,
    ))
        ensures
            r.0 == self@.sqe().user_data(id.raw()),
            r.1@.ring == ring,
            r.1@.id == id,
            r.1@.request == (VectoredRequest { vecs: r.1@.request.vecs, ..self@ }),
            r.1@.request.vecs.addr() == self@.vecs.addr(),
            r.1@.request.vecs.bytes() == overwritten(
                self@.vecs.bytes(),
                0,
                encoded_all(descriptors_of(self@.buffers@)),
            ),
    {
        let vecs: Vec<IoVec> = describe(&self.buffers);
        let room = self.room.publish(vecs);
        let addr: u64 = room.store.stable_ptr() as u64;
        let sqe = match self.direction {
            Direction::Read => Sqe::readv_ptr(self.fd, addr, N as u32, self.offset),
            Direction::Write => Sqe::writev_ptr(self.fd, addr, N as u32, self.offset),
        };
        let pending = PendingVectored {
            fd: self.fd,
            direction: self.direction,
            buffers: ManuallyDrop::new(self.buffers),
            room: ManuallyDrop::new(room),
            offset: self.offset,
            ring,
            id,
        };
        (sqe.user_data(id.raw()), pending)
    }
}

/// A submitted vectored transfer whose buffers the kernel may be using.
///
/// Dropping it runs no destructor for the storage: it leaks rather than
/// being freed underneath the kernel.
#[must_use]
pub struct PendingVectored<B: StableBuffer, V: StableBufferMut, const N: usize> {
    fd: RawFd,
    direction: Direction,
    buffers: ManuallyDrop<[B; N]>,
    room: ManuallyDrop<VecRoom<V, N>>,
    offset: u64,
    ring: RingId,
    id: RequestId,
}

impl<B: StableBuffer, V: StableBufferMut, const N: usize> View for PendingVectored<B, V, N> {
    type V = Ticket<VectoredRequest<B, V, N>>;

    closed spec fn view(&self) -> Ticket<VectoredRequest<B, V, N>> {
        Ticket {
            ring: self.ring,
            id: self.id,
            request: VectoredRequest {
                fd: self.fd,
                direction: self.direction,
                buffers: self.buffers@,
                vecs: self.room@.store(),
                offset: self.offset,
            },
        }
    }
}

impl<B: StableBuffer, V: StableBufferMut, const N: usize> PendingVectored<B, V, N> {
    /// Identity the kernel echoes back in this request's completion.
    pub fn id(&self) -> (r: RequestId)
        ensures
            r == self@.id,
    {
        self.id
    }

    /// Identity of the queue that accepted this request.
    pub fn ring(&self) -> (r: RingId)
        ensures
            r == self@.ring,
    {
        self.ring
    }

    /// Whether `receipt` ends this very request.
    pub fn matches(&self, receipt: &Receipt) -> (r: bool)
        ensures
            r == receipt.belongs_to(self@.ring, self@.id),
    {
        receipt.belongs_to(self.ring, self.id)
    }

    /// Take the request back without a receipt, undoing a failed push.
    ///
    /// Only for a submission that the kernel has never seen.
    pub fn reclaim_unsubmitted(self) -> (r: PreparedVectored<B, V, N>)
        ensures
            r@ == self@.request,
    {
        PreparedVectored {
            fd: self.fd,
            direction: self.direction,
            buffers: ManuallyDrop::into_inner(self.buffers),
            room: ManuallyDrop::into_inner(self.room),
            offset: self.offset,
        }
    }

    /// Trade a matching receipt for the result and the buffers.
    ///
    /// A write leaves the bytes as they were. A read has had the kernel
    /// write to them, so only their places and numbers are known. The
    /// descriptors are only read.
    ///
    /// # Errors
    ///
    /// Returns the ticket and receipt unchanged if the receipt belongs to
    /// another request or another ring.
    pub fn redeem(self, receipt: Receipt) -> (r: Result<
        VectoredCompleted<B, V, N>,
        (Self, Receipt),
    >)
        ensures
            match r {
                Err((ticket, back)) => {
                    &&& !receipt.belongs_to(self@.ring, self@.id)
                    &&& ticket@ == self@
                    &&& back == receipt
                },
                Ok(done) => {
                    &&& receipt.belongs_to(self@.ring, self@.id)
                    &&& done@.id == self@.id
                    &&& done@.result == receipt.raw_result()
                    &&& done@.request == (VectoredRequest {
                        buffers: done@.request.buffers,
                        ..self@.request
                    })
                    &&& forall|i: int|
                        0 <= i < N ==> same_place(
                            #[trigger] done@.request.buffers@[i],
                            self@.request.buffers@[i],
                        )
                    &&& self@.request.direction is Write ==> done@.request.buffers
                        == self@.request.buffers
                },
            },
    {
        if !self.matches(&receipt) {
            return Err((self, receipt));
        }
        Ok(
            VectoredCompleted {
                fd: self.fd,
                direction: self.direction,
                buffers: ManuallyDrop::into_inner(self.buffers),
                room: ManuallyDrop::into_inner(self.room),
                offset: self.offset,
                id: self.id,
                result: receipt.raw_result(),
            },
        )
    }
}

/// A finished vectored transfer: its result, and the buffers back.
pub struct VectoredCompleted<B: StableBuffer, V: StableBufferMut, const N: usize> {
    fd: RawFd,
    direction: Direction,
    buffers: [B; N],
    room: VecRoom<V, N>,
    offset: u64,
    id: RequestId,
    result: i32,
}

impl<B: StableBuffer, V: StableBufferMut, const N: usize> View for VectoredCompleted<B, V, N> {
    type V = Done<VectoredRequest<B, V, N>>;

    closed spec fn view(&self) -> Done<VectoredRequest<B, V, N>> {
        Done {
            id: self.id,
            result: self.result,
            request: VectoredRequest {
                fd: self.fd,
                direction: self.direction,
                buffers: self.buffers,
                vecs: self.room.store(),
                offset: self.offset,
            },
        }
    }
}

impl<B: StableBuffer, V: StableBufferMut, const N: usize> VectoredCompleted<B, V, N> {
    /// Identity of the request this completes.
    pub fn id(&self) -> (r: RequestId)
        ensures
            r == self@.id,
    {
        self.id
    }

    /// The raw result: a byte count, or a negated error number.
    pub fn raw_result(&self) -> (r: i32)
        ensures
            r == self@.result,
    {
        self.result
    }

    /// How many bytes were transferred, or why none were.
    ///
    /// # Errors
    ///
    /// The error number the completion carried.
    pub fn result(&self) -> (r: Result<u32, Error>)
        ensures
            r == Error::count_of(self@.result),
    {
        Error::count_of(self.result)
    }

    /// Borrow the buffers.
    pub fn buffers(&self) -> (b: &[B; N])
        ensures
            *b == self@.request.buffers,
    {
        &self.buffers
    }

    /// Take the result, the buffers and the descriptor storage.
    pub fn into_parts(self) -> (r: (Result<u32, Error>, [B; N], V))
        ensures
            r.0 == Error::count_of(self@.result),
            r.1 == self@.request.buffers,
            r.2 == self@.request.vecs,
    {
        (Error::count_of(self.result), self.buffers, self.room.store)
    }
}

/// The kernel, following a published array, finds the place and size of each
/// buffer.
pub proof fn descriptors_lead_to_the_buffers<B: StableBuffer>(
    before: Seq<u8>,
    buffers: Seq<B>,
    index: int,
)
    requires
        0 <= index < buffers.len(),
        buffers.len() * 16 <= before.len(),
    ensures
        IoVec::decoded(
            element::<IoVec>(
                overwritten(before, 0, encoded_all(descriptors_of(buffers))),
                0,
                index,
            ),
        ) == descriptor_of(buffers[index]),
{
    written_elements_read_back(before, descriptors_of(buffers), index);
}

/// A descriptor is where its buffer is and how long it is, and descriptors are
/// in the order of the buffers.
pub proof fn descriptors_describe_their_buffer<B: StableBuffer>(buffers: Seq<B>, i: int)
    requires
        0 <= i < buffers.len(),
        buffers[i].bytes().len() <= usize::MAX,
    ensures
        descriptors_of(buffers).len() == buffers.len(),
        descriptors_of(buffers)[i].iov_base == buffers[i].addr(),
        descriptors_of(buffers)[i].iov_len == buffers[i].bytes().len(),
        descriptor_of(buffers[i]).iov_base == buffers[i].addr(),
        descriptor_of(buffers[i]).iov_len == buffers[i].bytes().len(),
{
}

/// Storage is refused exactly where more than 1024 buffers were given, or else
/// where it has less than 16 bytes for each, or else where it is misaligned.
pub proof fn refusals_say_what_is_wrong<V: StableBuffer>(store: V, count: usize)
    requires
        store.bytes().len() <= usize::MAX,
    ensures
        room_error(store, count) is None <==> {
            &&& count <= 1024
            &&& 16 * count <= store.bytes().len()
            &&& store.addr() % 8 == 0
        },
        room_error(store, count) matches Some(VectoredError::TooManyBuffers { got, max }) ==> got
            == count && max == 1024 && count > 1024,
        room_error(store, count) matches Some(VectoredError::VecsTooSmall { needed, got }) ==> {
            &&& count <= 1024
            &&& needed == 16 * count
            &&& got == store.bytes().len()
            &&& got < needed
        },
        room_error(store, count) matches Some(VectoredError::VecsMisaligned { needed }) ==> {
            &&& needed == 8
            &&& store.addr() % 8 != 0
            &&& count <= 1024
            &&& 16 * count <= store.bytes().len()
        },
{
}

/// A request is prepared as it was asked for, or comes back whole with the
/// reason.
pub proof fn refused_requests_come_back<B: StableBuffer, V: StableBufferMut, const N: usize>(
    request: VectoredRequest<B, V, N>,
    r: Result<PreparedVectored<B, V, N>, ([B; N], V, VectoredError)>,
)
    requires
        vectored_prepared(request, r),
    ensures
        r is Ok <==> room_error(request.vecs, N) is None,
        r matches Ok(prepared) ==> prepared@ == request,
        r matches Err((buffers, vecs, why)) ==> {
            &&& buffers == request.buffers
            &&& vecs == request.vecs
            &&& room_error(request.vecs, N) == Some(why)
        },
{
}

impl<V: StableBufferMut, const N: usize> VecRoom<V, N> {
    /// Checked storage has 16 aligned bytes for each of at most 1024
    /// descriptors.
    pub proof fn checked_storage_has_room(self)
        requires
            self.fits(),
        ensures
            N <= 1024,
            16 * N <= self.store().bytes().len(),
            self.store().addr() % 8 == 0,
    {
    }
}

} // verus!
