//! Buffers together with the storage that leads the kernel to them.
//!
//! Shared by the two message operations. The header is written once, when a
//! message is put together, and from then on every address in it holds.

use super::buffer::{StableBuffer, StableBufferMut};
use super::msgregion::{region_len, MsgRegion, MsgRegionError, MAX_IOV};
use super::vectored::descriptor_of;
use crate::bytes::le_value;
use crate::types::abi::{MsgHdr, SockAddrIn};
use vstd::prelude::*;

verus! {

/// How many bytes buffers hold together.
pub open spec fn total<B: StableBuffer>(buffers: Seq<B>) -> nat
    decreases buffers.len(),
{
    if buffers.len() == 0 {
        0
    } else {
        total(buffers.drop_last()) + buffers.last().bytes().len()
    }
}

/// The first few buffers hold no more than all of them.
proof fn parts_hold_no_more<B: StableBuffer>(buffers: Seq<B>, n: int)
    requires
        0 <= n <= buffers.len(),
    ensures
        total(buffers.take(n)) <= total(buffers),
    decreases buffers.len(),
{
    if n < buffers.len() {
        parts_hold_no_more(buffers.drop_last(), n);
        assert(buffers.drop_last().take(n) =~= buffers.take(n));
    } else {
        assert(buffers.take(n) =~= buffers);
    }
}

/// Why storage cannot hold header, descriptors and address, if it cannot.
pub open spec fn region_error<R: StableBuffer>(store: R, count: usize) -> Option<MsgRegionError> {
    let got = store.bytes().len();
    let needed = region_len(count as int);
    if count > MAX_IOV {
        Some(MsgRegionError::TooManyDescriptors { got: count, max: MAX_IOV })
    } else if got < needed {
        Some(MsgRegionError::RegionTooSmall { needed: needed as usize, got: got as usize })
    } else if store.addr() % 8 != 0 {
        Some(MsgRegionError::RegionMisaligned { needed: 8 })
    } else {
        None
    }
}

/// Buffers, and storage whose header leads to them.
pub struct Message<B: StableBuffer, R: StableBufferMut, const N: usize> {
    buffers: [B; N],
    region: MsgRegion<R>,
    named: bool,
}

impl<B: StableBuffer, R: StableBufferMut, const N: usize> Message<B, R, N> {
    /// The buffers.
    pub closed spec fn buffers(self) -> [B; N] {
        self.buffers
    }

    /// The storage.
    pub closed spec fn region(self) -> MsgRegion<R> {
        self.region
    }

    /// Whether the header names an address.
    pub closed spec fn is_named(self) -> bool {
        self.named
    }

    /// Following the header leads to each buffer and to the address, if one
    /// is named.
    #[verifier::type_invariant]
    pub open spec fn is_wired(self) -> bool {
        &&& self.region().wf()
        &&& self.region().count() == N
        &&& self.region().held_header() == self.region().wired_header(self.is_named())
        &&& forall|i: int|
            0 <= i < N ==> #[trigger] self.region().held_descriptor(i) == descriptor_of(
                self.buffers()@[i],
            )
    }

    /// Lay `buffers` out in `store`, with room for an address if `named`,
    /// and with `name` in it if there is one.
    ///
    /// # Errors
    ///
    /// Returns buffers and storage unchanged if the storage does not fit.
    pub fn wire(buffers: [B; N], store: R, named: bool, name: Option<SockAddrIn>) -> (r: Result<
        Self,
        ([B; N], R, MsgRegionError),
    >)
        ensures
            match r {
                Ok(message) => {
                    &&& region_error(store, N) is None
                    &&& message.buffers() == buffers
                    &&& message.is_named() == named
                    &&& message.is_wired()
                    &&& message.region().store().addr() == store.addr()
                    &&& message.region().store().bytes().len() == store.bytes().len()
                    &&& name matches Some(addr) ==> message.region().held_name() == addr
                },
                Err((back, back_store, why)) => {
                    &&& region_error(store, N) == Some(why)
                    &&& back == buffers
                    &&& back_store == store
                },
            },
    {
        let mut region: MsgRegion<R> = match MsgRegion::stage(store, N) {
            Ok(region) => region,
            Err((store, e)) => {
                return Err((buffers, store, e));
            },
        };
        let mut i: usize = 0;
        while i < N
            invariant
                i <= N,
                region.wf(),
                region.count() == N,
                region.store().addr() == store.addr(),
                region.store().bytes().len() == store.bytes().len(),
                forall|j: int|
                    0 <= j < i ==> #[trigger] region.held_descriptor(j) == descriptor_of(
                        buffers@[j],
                    ),
            decreases N - i,
        {
            let buffer: &B = &buffers[i];
            let base: u64 = buffer.stable_ptr() as u64;
            let len: u64 = buffer.stable_len() as u64;
            region.write_descriptor(i, base, len);
            i += 1;
        }
        match name {
            Some(addr) => region.write_name(addr),
            None => {},
        }
        region.publish_header(named);
        Ok(Message { buffers, region, named })
    }

    /// Where the header is.
    pub fn header_ptr(&self) -> (a: u64)
        ensures
            a == self.region().store().addr(),
    {
        self.region.header_ptr()
    }

    /// The header as the kernel will read it.
    pub fn header(&self) -> (r: MsgHdr)
        ensures
            r == self.region().wired_header(self.is_named()),
            r == self.region().held_header(),
    {
        proof {
            use_type_invariant(self);
        }
        self.region.header()
    }

    /// How many bytes the buffers hold together.
    pub fn total_len(&self) -> (n: usize)
        requires
            total(self.buffers()@) <= usize::MAX,
        ensures
            n == total(self.buffers()@),
    {
        let ghost all = self.buffers@;
        let mut n: usize = 0;
        let mut i: usize = 0;
        while i < N
            invariant
                i <= N,
                all == self.buffers@,
                total(all) <= usize::MAX,
                n == total(all.take(i as int)),
            decreases N - i,
        {
            proof {
                parts_hold_no_more(all, i + 1);
                assert(all.take(i + 1).drop_last() =~= all.take(i as int));
            }
            let buffer: &B = &self.buffers[i];
            n = n + buffer.stable_len();
            i += 1;
        }
        assert(all.take(N as int) =~= all);
        n
    }

    /// Part into buffers and storage.
    pub fn into_parts(self) -> (r: ([B; N], MsgRegion<R>))
        ensures
            r == (self.buffers(), self.region()),
            r.1.wf(),
            r.1.count() == N,
    {
        proof {
            use_type_invariant(&self);
        }
        (self.buffers, self.region)
    }
}

/// Buffers hold together what each of them holds.
pub proof fn buffers_add_up<B: StableBuffer>(buffers: Seq<B>, more: B)
    ensures
        total(Seq::<B>::empty()) == 0,
        total(buffers.push(more)) == total(buffers) + more.bytes().len(),
{
    assert(buffers.push(more).drop_last() =~= buffers);
}

/// Storage is refused exactly where more than 1024 descriptors were asked for,
/// or else where it is too short for 72 bytes and 16 for each descriptor, or
/// else where it is misaligned.
pub proof fn refusals_say_what_is_wrong<R: StableBuffer>(store: R, count: usize)
    requires
        store.bytes().len() <= usize::MAX,
    ensures
        region_error(store, count) is None <==> {
            &&& count <= 1024
            &&& 72 + 16 * count <= store.bytes().len()
            &&& store.addr() % 8 == 0
        },
        region_error(store, count) matches Some(MsgRegionError::TooManyDescriptors { got, max })
            ==> got == count && max == 1024 && count > 1024,
        region_error(store, count) matches Some(MsgRegionError::RegionTooSmall { needed, got })
            ==> {
            &&& count <= 1024
            &&& needed == 72 + 16 * count
            &&& got == store.bytes().len()
            &&& got < needed
        },
        region_error(store, count) matches Some(MsgRegionError::RegionMisaligned { needed }) ==> {
            &&& needed == 8
            &&& store.addr() % 8 != 0
            &&& count <= 1024
            &&& 72 + 16 * count <= store.bytes().len()
        },
{
}

impl<B: StableBuffer, R: StableBufferMut, const N: usize> Message<B, R, N> {
    /// The kernel, reading a wired region from its start, is led to every
    /// buffer: the header says where the descriptors are and how many, and
    /// each of them where its buffer is and how long.
    pub proof fn bytes_lead_to_the_buffers(self, i: int)
        requires
            self.is_wired(),
            0 <= i < N,
            N <= 1024,
            72 + 16 * N <= self.region().store().bytes().len(),
            self.region().store().addr() + 72 + 16 * N <= 0xffff_ffff_ffff_ffff,
            self.buffers()@[i].bytes().len() <= usize::MAX,
        ensures
            ({
                let bytes = self.region().store().bytes();
                let v = 56 + 16 * i;
                &&& le_value(bytes.subrange(16, 24)) == self.region().store().addr() + 56
                &&& le_value(bytes.subrange(24, 32)) == N
                &&& le_value(bytes.subrange(v, v + 8)) == self.buffers()@[i].addr()
                &&& le_value(bytes.subrange(v + 8, v + 16)) == self.buffers()@[i].bytes().len()
                &&& le_value(bytes.subrange(8, 12)) == (if self.is_named() {
                    16int
                } else {
                    0int
                })
                &&& le_value(bytes.subrange(0, 8)) == (if self.is_named() {
                    self.region().store().addr() + 56 + 16 * N
                } else {
                    0int
                })
                &&& le_value(bytes.subrange(32, 40)) == 0
                &&& le_value(bytes.subrange(40, 48)) == 0
            }),
    {
        self.region().bytes_are_what_is_held(i);
        self.region().headers_lead_behind_themselves(self.is_named());
        assert(self.region().held_descriptor(i) == descriptor_of(self.buffers()@[i]));
    }
}

} // verus!
