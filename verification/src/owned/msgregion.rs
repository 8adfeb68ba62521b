//! The storage a message operation makes the kernel follow.
//!
//! A message operation hands the kernel a header whose contents are
//! addresses in turn: of an array of buffer descriptors and of a socket
//! address. All three are kept in one piece of owned storage, back to back:
//!
//! ```text
//!   offset 0                56              56 + 16 * n
//!   +----------------------+---------------+-------------+
//!   | MsgHdr               | IoVec x n     | SockAddrIn  |
//!   +----------------------+---------------+-------------+
//! ```
//!
//! Every size is a multiple of 8, so checking the alignment of the whole
//! checks that of the parts.

use super::buffer::{read_at, write_at, StableBufferMut};
use crate::bytes::{le_value, overwritten, overwritten_reads_back};
use crate::text::{decimal, numeral_text, with_decimal};
use crate::types::abi::{Abi, IoVec, MsgHdr, SockAddrIn};
use vstd::prelude::*;
use vstd::string::StringExecFns;

verus! {

/// The most buffer descriptors the kernel accepts.
pub const MAX_IOV: usize = 1024;

/// Why storage was refused.
#[derive(Clone, Copy, Debug, PartialEq, Eq, Structural)]
pub enum MsgRegionError {
    /// The storage cannot hold header, descriptors and address.
    RegionTooSmall {
        /// Bytes they need.
        needed: usize,
        /// Bytes the supplied storage has.
        got: usize,
    },
    /// The storage is not aligned.
    RegionMisaligned {
        /// Alignment they need.
        needed: usize,
    },
    /// More descriptors than the kernel accepts.
    TooManyDescriptors {
        /// Descriptors asked for.
        got: usize,
        /// The most the kernel accepts.
        max: usize,
    },
}

impl MsgRegionError {
    /// What [`message`](Self::message) says.
    pub open spec fn text(self) -> Seq<char> {
        match self {
            MsgRegionError::RegionTooSmall { needed, got } => "msghdr staging needs "@
                + decimal(needed as nat) + " bytes, got "@ + decimal(got as nat),
            MsgRegionError::RegionMisaligned { needed } => "msghdr staging must be "@
                + decimal(needed as nat) + "-byte aligned"@,
            MsgRegionError::TooManyDescriptors { got, max } => decimal(got as nat)
                + " descriptors exceeds the kernel's limit of "@ + decimal(max as nat),
        }
    }

    /// Every case says what happened, in its own words and with its own numbers.
    pub proof fn texts_say_what_happened(self)
        ensures
            self matches MsgRegionError::RegionTooSmall { needed, got } ==> self.text()
                == "msghdr staging needs "@ + decimal(needed as nat) + " bytes, got "@
                    + decimal(got as nat),
            self matches MsgRegionError::RegionMisaligned { needed } ==> self.text()
                == "msghdr staging must be "@ + decimal(needed as nat) + "-byte aligned"@,
            self matches MsgRegionError::TooManyDescriptors { got, max } ==> self.text()
                == decimal(got as nat) + " descriptors exceeds the kernel's limit of "@
                    + decimal(max as nat),
    {
    }

    /// A description for people.
    pub fn message(&self) -> (s: String)
        ensures
            s@ == self.text(),
    {
        match *self {
            MsgRegionError::RegionTooSmall { needed, got } => {
                let s = String::from_str("msghdr staging needs ");
                let s = with_decimal(s, needed as u64);
                let s = s.concat(" bytes, got ");
                with_decimal(s, got as u64)
            },
            MsgRegionError::RegionMisaligned { needed } => {
                let s = String::from_str("msghdr staging must be ");
                let s = with_decimal(s, needed as u64);
                s.concat("-byte aligned")
            },
            MsgRegionError::TooManyDescriptors { got, max } => {
                let s = numeral_text(got as u64, 10);
                let s = s.concat(" descriptors exceeds the kernel's limit of ");
                with_decimal(s, max as u64)
            },
        }
    }
}

/// Where the descriptor at `index` starts.
pub open spec fn vec_at(index: int) -> int {
    56 + 16 * index
}

/// Where the address starts, behind `count` descriptors.
pub open spec fn name_at(count: int) -> int {
    56 + 16 * count
}

/// How much storage `count` descriptors call for.
pub open spec fn region_len(count: int) -> int {
    name_at(count) + 16
}

/// Header, descriptors and address lie inside the storage, one behind the
/// other, each at an offset that keeps the alignment of the whole.
pub proof fn parts_are_disjoint_and_aligned(count: int, i: int, j: int, addr: int)
    requires
        0 <= i < j < count,
        addr % 8 == 0,
    ensures
        56 <= vec_at(i),
        vec_at(i) + 16 <= vec_at(j),
        vec_at(j) + 16 <= name_at(count),
        name_at(count) + 16 == region_len(count),
        (addr + vec_at(i)) % 8 == 0,
        (addr + vec_at(j)) % 8 == 0,
        (addr + name_at(count)) % 8 == 0,
{
}

/// Storage that holds header, descriptors and address.
pub struct MsgRegion<R: StableBufferMut> {
    store: R,
    count: usize,
}

impl<R: StableBufferMut> MsgRegion<R> {
    /// The storage.
    pub closed spec fn store(self) -> R {
        self.store
    }

    /// How many descriptors there are.
    pub closed spec fn count(self) -> usize {
        self.count
    }

    /// The storage fits.
    pub open spec fn wf(self) -> bool {
        &&& self.count() <= MAX_IOV
        &&& region_len(self.count() as int) <= self.store().bytes().len()
        &&& self.store().addr() % 8 == 0
    }

    /// The address of the byte at `offset`.
    pub open spec fn place(self, offset: int) -> u64 {
        ((self.store().addr() + offset) % 0x1_0000_0000_0000_0000) as u64
    }

    /// The header that the storage holds.
    pub open spec fn held_header(self) -> MsgHdr {
        MsgHdr::decoded(self.store().bytes().subrange(0, 56))
    }

    /// The descriptor that the storage holds at `index`.
    pub open spec fn held_descriptor(self, index: int) -> IoVec {
        IoVec::decoded(self.store().bytes().subrange(vec_at(index), vec_at(index) + 16))
    }

    /// The socket address that the storage holds.
    pub open spec fn held_name(self) -> SockAddrIn {
        let at = name_at(self.count() as int);
        SockAddrIn::decoded(self.store().bytes().subrange(at, at + 16))
    }

    /// A header that leads to the descriptors and, if asked for, to the
    /// address.
    pub open spec fn wired_header(self, named: bool) -> MsgHdr {
        MsgHdr {
            msg_name: if named {
                self.place(name_at(self.count() as int))
            } else {
                0
            },
            msg_namelen: if named {
                16
            } else {
                0
            },
            msg_iov: self.place(vec_at(0)),
            msg_iovlen: self.count() as u64,
            ..MsgHdr::empty()
        }
    }

    /// Take `store` for `count` descriptors.
    ///
    /// # Errors
    ///
    /// Returns the storage unchanged if there are too many descriptors, or
    /// else if it is too small, or else if it is misaligned.
    pub fn stage(store: R, count: usize) -> (r: Result<Self, (R, MsgRegionError)>)
        ensures
            ({
                let got = store.bytes().len();
                if count > MAX_IOV {
                    r == Err::<Self, (R, MsgRegionError)>(
                        (store, MsgRegionError::TooManyDescriptors { got: count, max: MAX_IOV }),
                    )
                } else if got < region_len(count as int) {
                    r == Err::<Self, (R, MsgRegionError)>(
                        (
                            store,
                            MsgRegionError::RegionTooSmall {
                                needed: region_len(count as int) as usize,
                                got: got as usize,
                            },
                        ),
                    )
                } else if store.addr() % 8 != 0 {
                    r == Err::<Self, (R, MsgRegionError)>(
                        (store, MsgRegionError::RegionMisaligned { needed: 8 }),
                    )
                } else {
                    &&& r is Ok
                    &&& r->Ok_0.wf()
                    &&& r->Ok_0.store() == store
                    &&& r->Ok_0.count() == count
                }
            }),
    {
        if count > MAX_IOV {
            return Err((store, MsgRegionError::TooManyDescriptors { got: count, max: MAX_IOV }));
        }
        let needed: usize = Self::bytes_for(count);
        let got: usize = store.stable_len();
        if got < needed {
            return Err((store, MsgRegionError::RegionTooSmall { needed, got }));
        }
        let align: usize = MsgHdr::align_of();
        if !store.stable_ptr().is_multiple_of(align) {
            return Err((store, MsgRegionError::RegionMisaligned { needed: align }));
        }
        Ok(MsgRegion { store, count })
    }

    /// How much storage `count` descriptors call for.
    pub fn bytes_for(count: usize) -> (n: usize)
        requires
            region_len(count as int) <= usize::MAX,
        ensures
            n == region_len(count as int),
    {
        Self::name_offset(count) + SockAddrIn::size_of()
    }

    /// Where the address starts, behind `count` descriptors.
    fn name_offset(count: usize) -> (n: usize)
        requires
            name_at(count as int) <= usize::MAX,
        ensures
            n == name_at(count as int),
    {
        MsgHdr::size_of() + IoVec::size_of() * count
    }

    /// Point the descriptor at `index` to `len` bytes from `base` on.
    ///
    /// Nothing else changes.
    pub fn write_descriptor(&mut self, index: usize, base: u64, len: u64)
        requires
            old(self).wf(),
            index < old(self).count(),
        ensures
            final(self).wf(),
            final(self).count() == old(self).count(),
            final(self).store().addr() == old(self).store().addr(),
            final(self).store().bytes() == overwritten(
                old(self).store().bytes(),
                vec_at(index as int),
                IoVec::new(base, len).encoded(),
            ),
            final(self).held_descriptor(index as int) == IoVec::new(base, len),
            forall|j: int|
                0 <= j < old(self).count() && j != index ==>
                    #[trigger] final(self).held_descriptor(j) == old(self).held_descriptor(j),
            final(self).held_header() == old(self).held_header(),
            final(self).held_name() == old(self).held_name(),
    {
        let vec = IoVec::new(base, len);
        let ghost before = self.store.bytes();
        let ghost count = self.count as int;
        proof {
            vec.decoding_inverts_encoding();
            overwritten_reads_back(before, vec_at(index as int), vec.encoded());
        }
        let at: usize = MsgHdr::size_of() + IoVec::size_of() * index;
        write_at(&mut self.store, at, vec.encode().as_slice());
        proof {
            let after = self.store.bytes();
            assert(after.subrange(0, 56) =~= before.subrange(0, 56));
            assert(after.subrange(name_at(count), name_at(count) + 16) =~= before.subrange(
                name_at(count),
                name_at(count) + 16,
            ));
            assert forall|j: int| 0 <= j < count && j != index implies #[trigger] after.subrange(
                vec_at(j),
                vec_at(j) + 16,
            ) == before.subrange(vec_at(j), vec_at(j) + 16) by {
                assert(after.subrange(vec_at(j), vec_at(j) + 16) =~= before.subrange(
                    vec_at(j),
                    vec_at(j) + 16,
                ));
            }
        }
    }

    /// Read the descriptor at `index`.
    pub fn descriptor(&self, index: usize) -> (r: IoVec)
        requires
            self.wf(),
            index < self.count(),
        ensures
            r == self.held_descriptor(index as int),
    {
        let at: usize = MsgHdr::size_of() + IoVec::size_of() * index;
        IoVec::decode(read_at(&self.store, at, IoVec::size_of()).as_slice())
    }

    /// Keep `addr` where the address goes. Nothing else changes.
    pub fn write_name(&mut self, addr: SockAddrIn)
        requires
            old(self).wf(),
        ensures
            final(self).wf(),
            final(self).count() == old(self).count(),
            final(self).store().addr() == old(self).store().addr(),
            final(self).store().bytes() == overwritten(
                old(self).store().bytes(),
                name_at(old(self).count() as int),
                addr.encoded(),
            ),
            final(self).held_name() == addr,
            forall|j: int|
                0 <= j < old(self).count() ==> #[trigger] final(self).held_descriptor(j)
                    == old(self).held_descriptor(j),
            final(self).held_header() == old(self).held_header(),
    {
        let ghost before = self.store.bytes();
        let ghost count = self.count as int;
        proof {
            addr.decoding_inverts_encoding();
            overwritten_reads_back(before, name_at(count), addr.encoded());
        }
        let at: usize = Self::name_offset(self.count);
        write_at(&mut self.store, at, addr.encode().as_slice());
        proof {
            let after = self.store.bytes();
            assert(after.subrange(0, 56) =~= before.subrange(0, 56));
            assert forall|j: int| 0 <= j < count implies #[trigger] after.subrange(
                vec_at(j),
                vec_at(j) + 16,
            ) == before.subrange(vec_at(j), vec_at(j) + 16) by {
                assert(after.subrange(vec_at(j), vec_at(j) + 16) =~= before.subrange(
                    vec_at(j),
                    vec_at(j) + 16,
                ));
            }
        }
    }

    /// Read the address.
    pub fn name(&self) -> (r: SockAddrIn)
        requires
            self.wf(),
        ensures
            r == self.held_name(),
    {
        let at: usize = Self::name_offset(self.count);
        SockAddrIn::decode(read_at(&self.store, at, SockAddrIn::size_of()).as_slice())
    }

    /// Write a header that leads to the descriptors and, if `named`, to the
    /// address. Nothing else changes.
    pub fn publish_header(&mut self, named: bool)
        requires
            old(self).wf(),
        ensures
            final(self).wf(),
            final(self).count() == old(self).count(),
            final(self).store().addr() == old(self).store().addr(),
            final(self).store().bytes() == overwritten(
                old(self).store().bytes(),
                0,
                old(self).wired_header(named).encoded(),
            ),
            final(self).held_header() == old(self).wired_header(named),
            forall|j: int|
                0 <= j < old(self).count() ==> #[trigger] final(self).held_descriptor(j)
                    == old(self).held_descriptor(j),
            final(self).held_name() == old(self).held_name(),
    {
        let ghost before = self.store.bytes();
        let ghost count = self.count as int;
        let base: u64 = self.store.stable_ptr() as u64;
        let mut hdr = MsgHdr::empty();
        if named {
            hdr.msg_name = base.wrapping_add(Self::name_offset(self.count) as u64);
            hdr.msg_namelen = SockAddrIn::size_of() as u32;
        }
        hdr.msg_iov = base.wrapping_add(MsgHdr::size_of() as u64);
        hdr.msg_iovlen = self.count as u64;
        assert(hdr == old(self).wired_header(named));
        proof {
            hdr.decoding_inverts_encoding();
            overwritten_reads_back(before, 0, hdr.encoded());
        }
        write_at(&mut self.store, 0, hdr.encode().as_slice());
        proof {
            let after = self.store.bytes();
            assert(after.subrange(name_at(count), name_at(count) + 16) =~= before.subrange(
                name_at(count),
                name_at(count) + 16,
            ));
            assert forall|j: int| 0 <= j < count implies #[trigger] after.subrange(
                vec_at(j),
                vec_at(j) + 16,
            ) == before.subrange(vec_at(j), vec_at(j) + 16) by {
                assert(after.subrange(vec_at(j), vec_at(j) + 16) =~= before.subrange(
                    vec_at(j),
                    vec_at(j) + 16,
                ));
            }
        }
    }

    /// Read the header: as it was published or, after a completion, as the
    /// kernel left it.
    pub fn header(&self) -> (r: MsgHdr)
        requires
            self.wf(),
        ensures
            r == self.held_header(),
    {
        MsgHdr::decode(read_at(&self.store, 0, MsgHdr::size_of()).as_slice())
    }

    /// Where the header is.
    pub fn header_ptr(&self) -> (a: u64)
        ensures
            a == self.store().addr(),
    {
        self.store.stable_ptr() as u64
    }

    /// Give the storage back.
    pub fn into_store(self) -> (s: R)
        ensures
            s == self.store(),
    {
        self.store
    }

    /// Put a region together from storage and a number of descriptors that
    /// were parted.
    pub fn from_parts(store: R, count: usize) -> (r: Self)
        ensures
            r.store() == store,
            r.count() == count,
    {
        MsgRegion { store, count }
    }

    /// Part the storage from the number of descriptors.
    pub fn into_raw_parts(self) -> (r: (R, usize))
        ensures
            r == (self.store(), self.count()),
    {
        (self.store, self.count)
    }
}

/// The header comes first, the descriptors follow it without a gap, and the
/// address follows them and is the last.
pub proof fn parts_follow_one_another(count: int, i: int)
    ensures
        vec_at(0) == 56,
        vec_at(i + 1) == vec_at(i) + 16,
        name_at(count) == vec_at(count),
        region_len(count) == 72 + 16 * count,
        MAX_IOV == 1024,
{
}

impl<R: StableBufferMut> MsgRegion<R> {
    /// What the region is said to hold is what its bytes say.
    pub proof fn bytes_are_what_is_held(self, i: int)
        requires
            0 <= i < self.count(),
            72 + 16 * self.count() <= self.store().bytes().len(),
        ensures
            ({
                let bytes = self.store().bytes();
                let header = self.held_header();
                let vec = self.held_descriptor(i);
                let name = self.held_name();
                let v = 56 + 16 * i;
                let n = 56 + 16 * self.count();
                &&& header.msg_name == le_value(bytes.subrange(0, 8))
                &&& header.msg_namelen == le_value(bytes.subrange(8, 12))
                &&& header.msg_iov == le_value(bytes.subrange(16, 24))
                &&& header.msg_iovlen == le_value(bytes.subrange(24, 32))
                &&& header.msg_control == le_value(bytes.subrange(32, 40))
                &&& header.msg_controllen == le_value(bytes.subrange(40, 48))
                &&& header.msg_flags == le_value(bytes.subrange(48, 52))
                &&& vec.iov_base == le_value(bytes.subrange(v, v + 8))
                &&& vec.iov_len == le_value(bytes.subrange(v + 8, v + 16))
                &&& name.sin_family == le_value(bytes.subrange(n, n + 2))
                &&& name.sin_port == le_value(bytes.subrange(n + 2, n + 4))
                &&& name.sin_addr == le_value(bytes.subrange(n + 4, n + 8))
            }),
    {
        let bytes = self.store().bytes();
        let h = bytes.subrange(0, 56);
        let v = 56 + 16 * i;
        let d = bytes.subrange(v, v + 16);
        let n = 56 + 16 * self.count();
        let a = bytes.subrange(n, n + 16);
        MsgHdr::fields_are_read_in_place(h);
        IoVec::fields_are_read_in_place(d);
        SockAddrIn::fields_are_read_in_place(a);
        assert(h.subrange(0, 8) =~= bytes.subrange(0, 8));
        assert(h.subrange(8, 12) =~= bytes.subrange(8, 12));
        assert(h.subrange(16, 24) =~= bytes.subrange(16, 24));
        assert(h.subrange(24, 32) =~= bytes.subrange(24, 32));
        assert(h.subrange(32, 40) =~= bytes.subrange(32, 40));
        assert(h.subrange(40, 48) =~= bytes.subrange(40, 48));
        assert(h.subrange(48, 52) =~= bytes.subrange(48, 52));
        assert(d.subrange(0, 8) =~= bytes.subrange(v, v + 8));
        assert(d.subrange(8, 16) =~= bytes.subrange(v + 8, v + 16));
        assert(a.subrange(0, 2) =~= bytes.subrange(n, n + 2));
        assert(a.subrange(2, 4) =~= bytes.subrange(n + 2, n + 4));
        assert(a.subrange(4, 8) =~= bytes.subrange(n + 4, n + 8));
    }

    /// A wired header leads behind itself, to as many descriptors as there are,
    /// and, if asked for, to the address behind them. It names nothing else.
    pub proof fn headers_lead_behind_themselves(self, named: bool)
        requires
            self.store().addr() + 72 + 16 * self.count() <= 0xffff_ffff_ffff_ffff,
        ensures
            self.wired_header(named).msg_iov == self.store().addr() + 56,
            self.wired_header(named).msg_iovlen == self.count(),
            named ==> self.wired_header(named).msg_name == self.store().addr() + 56 + 16
                * self.count(),
            named ==> self.wired_header(named).msg_namelen == 16,
            !named ==> self.wired_header(named).msg_name == 0,
            !named ==> self.wired_header(named).msg_namelen == 0,
            self.wired_header(named).msg_control == 0,
            self.wired_header(named).msg_controllen == 0,
            self.wired_header(named).msg_flags == 0,
    {
    }
}

} // verus!
