//! Structures the kernel reads from and writes to caller memory.

use crate::bytes::{
    bytes_are_their_value, le, le_has_length, le_round_trips, le_value, le_value_is_bounded,
    push_i32, push_le, read_i32, read_le, signed_of, signed_round_trips, span_values, unsigned_of,
    zero_bytes,
};
use crate::types::flags::{Futex2Flags, StatxMask};
use vstd::prelude::*;

verus! {

/// A value with a fixed layout in caller memory.
pub trait Abi: Sized {
    /// Bytes it occupies.
    spec fn spec_size() -> nat;

    /// Alignment its address needs.
    spec fn spec_align() -> nat;

    /// Its bytes.
    spec fn encoded(self) -> Seq<u8>;

    /// The value whose bytes are `s`.
    spec fn decoded(s: Seq<u8>) -> Self;

    /// An encoding fills exactly the bytes the value occupies, and decoding
    /// it gives the value back.
    proof fn decoding_inverts_encoding(self)
        ensures
            self.encoded().len() == Self::spec_size(),
            Self::decoded(self.encoded()) == self,
    ;

    /// Bytes it occupies.
    fn size_of() -> (n: usize)
        ensures
            n == Self::spec_size(),
            n > 0,
    ;

    /// Alignment its address needs.
    fn align_of() -> (n: usize)
        ensures
            n == Self::spec_align(),
            n > 0,
    ;

    /// Its bytes.
    fn encode(&self) -> (data: Vec<u8>)
        ensures
            data@ == self.encoded(),
    ;

    /// The value whose bytes are `data`.
    fn decode(data: &[u8]) -> (r: Self)
        requires
            data@.len() == Self::spec_size(),
        ensures
            r == Self::decoded(data@),
    ;
}

/// A value together with the address at which its owner keeps it for the
/// kernel.
#[derive(Debug)]
pub struct Placed<T> {
    /// Where it is.
    pub addr: u64,
    /// What is there.
    pub value: T,
}

/// What `openat2` is asked to do.
#[derive(Clone, Copy, Debug, PartialEq, Eq, Structural)]
pub struct OpenHow {
    /// Open flags.
    pub flags: u64,
    /// Permission bits of a created file.
    pub mode: u64,
    /// How the path may be walked.
    pub resolve: u64,
}

impl Abi for OpenHow {
    open spec fn spec_size() -> nat {
        24
    }

    open spec fn spec_align() -> nat {
        8
    }

    open spec fn encoded(self) -> Seq<u8> {
        le(self.flags as nat, 8) + le(self.mode as nat, 8) + le(self.resolve as nat, 8)
    }

    open spec fn decoded(s: Seq<u8>) -> Self {
        OpenHow {
            flags: le_value(s.subrange(0, 8)) as u64,
            mode: le_value(s.subrange(8, 16)) as u64,
            resolve: le_value(s.subrange(16, 24)) as u64,
        }
    }

    proof fn decoding_inverts_encoding(self) {
        span_values();
        le_round_trips(self.flags as nat, 8);
        le_round_trips(self.mode as nat, 8);
        le_round_trips(self.resolve as nat, 8);
        let s = self.encoded();
        assert(s.subrange(0, 8) =~= le(self.flags as nat, 8));
        assert(s.subrange(8, 16) =~= le(self.mode as nat, 8));
        assert(s.subrange(16, 24) =~= le(self.resolve as nat, 8));
    }

    fn size_of() -> usize {
        24
    }

    fn align_of() -> usize {
        8
    }

    fn encode(&self) -> Vec<u8> {
        let mut data: Vec<u8> = Vec::new();
        push_le(&mut data, self.flags as u64, 8);
        push_le(&mut data, self.mode as u64, 8);
        push_le(&mut data, self.resolve as u64, 8);
        assert(data@ =~= self.encoded());
        data
    }

    fn decode(data: &[u8]) -> Self {
        proof {
            span_values();
        }
        OpenHow {
            flags: read_le(data, 0, 8) as u64,
            mode: read_le(data, 8, 8) as u64,
            resolve: read_le(data, 16, 8) as u64,
        }
    }
}

/// A span or point of time.
#[derive(Clone, Copy, Debug, PartialEq, Eq, Structural)]
pub struct Timespec {
    /// Whole seconds.
    pub tv_sec: i64,
    /// Nanoseconds.
    pub tv_nsec: i64,
}

impl Abi for Timespec {
    open spec fn spec_size() -> nat {
        16
    }

    open spec fn spec_align() -> nat {
        8
    }

    open spec fn encoded(self) -> Seq<u8> {
        le(self.tv_sec as u64 as nat, 8) + le(self.tv_nsec as u64 as nat, 8)
    }

    open spec fn decoded(s: Seq<u8>) -> Self {
        Timespec {
            tv_sec: le_value(s.subrange(0, 8)) as u64 as i64,
            tv_nsec: le_value(s.subrange(8, 16)) as u64 as i64,
        }
    }

    proof fn decoding_inverts_encoding(self) {
        span_values();
        le_round_trips(self.tv_sec as u64 as nat, 8);
        le_round_trips(self.tv_nsec as u64 as nat, 8);
        let s = self.encoded();
        assert(s.subrange(0, 8) =~= le(self.tv_sec as u64 as nat, 8));
        assert(s.subrange(8, 16) =~= le(self.tv_nsec as u64 as nat, 8));
        let tv_sec = self.tv_sec;
        assert(tv_sec as u64 as i64 == tv_sec) by (bit_vector);
        let tv_nsec = self.tv_nsec;
        assert(tv_nsec as u64 as i64 == tv_nsec) by (bit_vector);
    }

    fn size_of() -> usize {
        16
    }

    fn align_of() -> usize {
        8
    }

    fn encode(&self) -> Vec<u8> {
        let mut data: Vec<u8> = Vec::new();
        push_le(&mut data, self.tv_sec as u64, 8);
        push_le(&mut data, self.tv_nsec as u64, 8);
        assert(data@ =~= self.encoded());
        data
    }

    fn decode(data: &[u8]) -> Self {
        proof {
            span_values();
        }
        Timespec {
            tv_sec: read_le(data, 0, 8) as i64,
            tv_nsec: read_le(data, 8, 8) as i64,
        }
    }
}

/// One epoll registration or report.
///
/// This is the layout on x86_64, where the kernel packs it: it needs no
/// alignment there.
#[derive(Clone, Copy, Debug, PartialEq, Eq, Structural)]
pub struct EpollEvent {
    /// Event mask.
    pub events: u32,
    /// Value the caller chose.
    pub data: u64,
}

impl Abi for EpollEvent {
    open spec fn spec_size() -> nat {
        12
    }

    open spec fn spec_align() -> nat {
        1
    }

    open spec fn encoded(self) -> Seq<u8> {
        le(self.events as nat, 4) + le(self.data as nat, 8)
    }

    open spec fn decoded(s: Seq<u8>) -> Self {
        EpollEvent {
            events: le_value(s.subrange(0, 4)) as u32,
            data: le_value(s.subrange(4, 12)) as u64,
        }
    }

    proof fn decoding_inverts_encoding(self) {
        span_values();
        le_round_trips(self.events as nat, 4);
        le_round_trips(self.data as nat, 8);
        let s = self.encoded();
        assert(s.subrange(0, 4) =~= le(self.events as nat, 4));
        assert(s.subrange(4, 12) =~= le(self.data as nat, 8));
    }

    fn size_of() -> usize {
        12
    }

    fn align_of() -> usize {
        1
    }

    fn encode(&self) -> Vec<u8> {
        let mut data: Vec<u8> = Vec::new();
        push_le(&mut data, self.events as u64, 4);
        push_le(&mut data, self.data as u64, 8);
        assert(data@ =~= self.encoded());
        data
    }

    fn decode(data: &[u8]) -> Self {
        proof {
            span_values();
        }
        EpollEvent {
            events: read_le(data, 0, 4) as u32,
            data: read_le(data, 4, 8) as u64,
        }
    }
}

/// One buffer of a vectored operation.
#[derive(Clone, Copy, Debug, PartialEq, Eq, Structural)]
pub struct IoVec {
    /// Where the buffer starts.
    pub iov_base: u64,
    /// How long it is.
    pub iov_len: u64,
}

impl Abi for IoVec {
    open spec fn spec_size() -> nat {
        16
    }

    open spec fn spec_align() -> nat {
        8
    }

    open spec fn encoded(self) -> Seq<u8> {
        le(self.iov_base as nat, 8) + le(self.iov_len as nat, 8)
    }

    open spec fn decoded(s: Seq<u8>) -> Self {
        IoVec {
            iov_base: le_value(s.subrange(0, 8)) as u64,
            iov_len: le_value(s.subrange(8, 16)) as u64,
        }
    }

    proof fn decoding_inverts_encoding(self) {
        span_values();
        le_round_trips(self.iov_base as nat, 8);
        le_round_trips(self.iov_len as nat, 8);
        let s = self.encoded();
        assert(s.subrange(0, 8) =~= le(self.iov_base as nat, 8));
        assert(s.subrange(8, 16) =~= le(self.iov_len as nat, 8));
    }

    fn size_of() -> usize {
        16
    }

    fn align_of() -> usize {
        8
    }

    fn encode(&self) -> Vec<u8> {
        let mut data: Vec<u8> = Vec::new();
        push_le(&mut data, self.iov_base as u64, 8);
        push_le(&mut data, self.iov_len as u64, 8);
        assert(data@ =~= self.encoded());
        data
    }

    fn decode(data: &[u8]) -> Self {
        proof {
            span_values();
        }
        IoVec {
            iov_base: read_le(data, 0, 8) as u64,
            iov_len: read_le(data, 8, 8) as u64,
        }
    }
}

/// What a message operation sends or receives.
#[derive(Clone, Copy, Debug, PartialEq, Eq, Structural)]
pub struct MsgHdr {
    /// Where the peer address is, or 0.
    pub msg_name: u64,
    /// How long the peer address is.
    pub msg_namelen: u32,
    /// Where the buffer descriptors are.
    pub msg_iov: u64,
    /// How many there are.
    pub msg_iovlen: u64,
    /// Where control data is, or 0.
    pub msg_control: u64,
    /// How much control data there is.
    pub msg_controllen: u64,
    /// Flags the kernel reports for a received message.
    pub msg_flags: u32,
}

impl Abi for MsgHdr {
    open spec fn spec_size() -> nat {
        56
    }

    open spec fn spec_align() -> nat {
        8
    }

    open spec fn encoded(self) -> Seq<u8> {
        le(self.msg_name as nat, 8) + le(self.msg_namelen as nat, 4) + le(0, 4)
            + le(self.msg_iov as nat, 8) + le(self.msg_iovlen as nat, 8)
            + le(self.msg_control as nat, 8) + le(self.msg_controllen as nat, 8)
            + le(self.msg_flags as nat, 4) + le(0, 4)
    }

    open spec fn decoded(s: Seq<u8>) -> Self {
        MsgHdr {
            msg_name: le_value(s.subrange(0, 8)) as u64,
            msg_namelen: le_value(s.subrange(8, 12)) as u32,
            msg_iov: le_value(s.subrange(16, 24)) as u64,
            msg_iovlen: le_value(s.subrange(24, 32)) as u64,
            msg_control: le_value(s.subrange(32, 40)) as u64,
            msg_controllen: le_value(s.subrange(40, 48)) as u64,
            msg_flags: le_value(s.subrange(48, 52)) as u32,
        }
    }

    proof fn decoding_inverts_encoding(self) {
        span_values();
        le_round_trips(self.msg_name as nat, 8);
        le_round_trips(self.msg_namelen as nat, 4);
        le_has_length(0, 4);
        le_round_trips(self.msg_iov as nat, 8);
        le_round_trips(self.msg_iovlen as nat, 8);
        le_round_trips(self.msg_control as nat, 8);
        le_round_trips(self.msg_controllen as nat, 8);
        le_round_trips(self.msg_flags as nat, 4);
        le_has_length(0, 4);
        let s = self.encoded();
        assert(s.subrange(0, 8) =~= le(self.msg_name as nat, 8));
        assert(s.subrange(8, 12) =~= le(self.msg_namelen as nat, 4));
        assert(s.subrange(16, 24) =~= le(self.msg_iov as nat, 8));
        assert(s.subrange(24, 32) =~= le(self.msg_iovlen as nat, 8));
        assert(s.subrange(32, 40) =~= le(self.msg_control as nat, 8));
        assert(s.subrange(40, 48) =~= le(self.msg_controllen as nat, 8));
        assert(s.subrange(48, 52) =~= le(self.msg_flags as nat, 4));
    }

    fn size_of() -> usize {
        56
    }

    fn align_of() -> usize {
        8
    }

    fn encode(&self) -> Vec<u8> {
        let mut data: Vec<u8> = Vec::new();
        push_le(&mut data, self.msg_name as u64, 8);
        push_le(&mut data, self.msg_namelen as u64, 4);
        push_le(&mut data, 0, 4);
        push_le(&mut data, self.msg_iov as u64, 8);
        push_le(&mut data, self.msg_iovlen as u64, 8);
        push_le(&mut data, self.msg_control as u64, 8);
        push_le(&mut data, self.msg_controllen as u64, 8);
        push_le(&mut data, self.msg_flags as u64, 4);
        push_le(&mut data, 0, 4);
        assert(data@ =~= self.encoded());
        data
    }

    fn decode(data: &[u8]) -> Self {
        proof {
            span_values();
        }
        MsgHdr {
            msg_name: read_le(data, 0, 8) as u64,
            msg_namelen: read_le(data, 8, 4) as u32,
            msg_iov: read_le(data, 16, 8) as u64,
            msg_iovlen: read_le(data, 24, 8) as u64,
            msg_control: read_le(data, 32, 8) as u64,
            msg_controllen: read_le(data, 40, 8) as u64,
            msg_flags: read_le(data, 48, 4) as u32,
        }
    }
}

/// What `statx` reports about a file.
///
/// The trailing times, device numbers and reserved words are not read here.
#[derive(Clone, Copy, Debug, PartialEq, Eq, Structural)]
pub struct Statx {
    /// Which fields below are filled in.
    pub stx_mask: u32,
    /// Preferred block size.
    pub stx_blksize: u32,
    /// Attributes.
    pub stx_attributes: u64,
    /// Hard links.
    pub stx_nlink: u32,
    /// Owner.
    pub stx_uid: u32,
    /// Group.
    pub stx_gid: u32,
    /// Type and permissions.
    pub stx_mode: u16,
    /// Inode number.
    pub stx_ino: u64,
    /// Size in bytes.
    pub stx_size: u64,
    /// Blocks of 512 bytes.
    pub stx_blocks: u64,
    /// Attributes that are supported.
    pub stx_attributes_mask: u64,
}

impl Abi for Statx {
    open spec fn spec_size() -> nat {
        256
    }

    open spec fn spec_align() -> nat {
        8
    }

    open spec fn encoded(self) -> Seq<u8> {
        le(self.stx_mask as nat, 4) + le(self.stx_blksize as nat, 4)
            + le(self.stx_attributes as nat, 8) + le(self.stx_nlink as nat, 4)
            + le(self.stx_uid as nat, 4) + le(self.stx_gid as nat, 4)
            + le(self.stx_mode as nat, 2) + le(0, 2) + le(self.stx_ino as nat, 8)
            + le(self.stx_size as nat, 8) + le(self.stx_blocks as nat, 8)
            + le(self.stx_attributes_mask as nat, 8) + le(0, 192)
    }

    open spec fn decoded(s: Seq<u8>) -> Self {
        Statx {
            stx_mask: le_value(s.subrange(0, 4)) as u32,
            stx_blksize: le_value(s.subrange(4, 8)) as u32,
            stx_attributes: le_value(s.subrange(8, 16)) as u64,
            stx_nlink: le_value(s.subrange(16, 20)) as u32,
            stx_uid: le_value(s.subrange(20, 24)) as u32,
            stx_gid: le_value(s.subrange(24, 28)) as u32,
            stx_mode: le_value(s.subrange(28, 30)) as u16,
            stx_ino: le_value(s.subrange(32, 40)) as u64,
            stx_size: le_value(s.subrange(40, 48)) as u64,
            stx_blocks: le_value(s.subrange(48, 56)) as u64,
            stx_attributes_mask: le_value(s.subrange(56, 64)) as u64,
        }
    }

    proof fn decoding_inverts_encoding(self) {
        span_values();
        le_round_trips(self.stx_mask as nat, 4);
        le_round_trips(self.stx_blksize as nat, 4);
        le_round_trips(self.stx_attributes as nat, 8);
        le_round_trips(self.stx_nlink as nat, 4);
        le_round_trips(self.stx_uid as nat, 4);
        le_round_trips(self.stx_gid as nat, 4);
        le_round_trips(self.stx_mode as nat, 2);
        le_has_length(0, 2);
        le_round_trips(self.stx_ino as nat, 8);
        le_round_trips(self.stx_size as nat, 8);
        le_round_trips(self.stx_blocks as nat, 8);
        le_round_trips(self.stx_attributes_mask as nat, 8);
        le_has_length(0, 192);
        let s = self.encoded();
        assert(s.subrange(0, 4) =~= le(self.stx_mask as nat, 4));
        assert(s.subrange(4, 8) =~= le(self.stx_blksize as nat, 4));
        assert(s.subrange(8, 16) =~= le(self.stx_attributes as nat, 8));
        assert(s.subrange(16, 20) =~= le(self.stx_nlink as nat, 4));
        assert(s.subrange(20, 24) =~= le(self.stx_uid as nat, 4));
        assert(s.subrange(24, 28) =~= le(self.stx_gid as nat, 4));
        assert(s.subrange(28, 30) =~= le(self.stx_mode as nat, 2));
        assert(s.subrange(32, 40) =~= le(self.stx_ino as nat, 8));
        assert(s.subrange(40, 48) =~= le(self.stx_size as nat, 8));
        assert(s.subrange(48, 56) =~= le(self.stx_blocks as nat, 8));
        assert(s.subrange(56, 64) =~= le(self.stx_attributes_mask as nat, 8));
    }

    fn size_of() -> usize {
        256
    }

    fn align_of() -> usize {
        8
    }

    fn encode(&self) -> Vec<u8> {
        let mut data: Vec<u8> = Vec::new();
        push_le(&mut data, self.stx_mask as u64, 4);
        push_le(&mut data, self.stx_blksize as u64, 4);
        push_le(&mut data, self.stx_attributes as u64, 8);
        push_le(&mut data, self.stx_nlink as u64, 4);
        push_le(&mut data, self.stx_uid as u64, 4);
        push_le(&mut data, self.stx_gid as u64, 4);
        push_le(&mut data, self.stx_mode as u64, 2);
        push_le(&mut data, 0, 2);
        push_le(&mut data, self.stx_ino as u64, 8);
        push_le(&mut data, self.stx_size as u64, 8);
        push_le(&mut data, self.stx_blocks as u64, 8);
        push_le(&mut data, self.stx_attributes_mask as u64, 8);
        push_le(&mut data, 0, 192);
        assert(data@ =~= self.encoded());
        data
    }

    fn decode(data: &[u8]) -> Self {
        proof {
            span_values();
        }
        Statx {
            stx_mask: read_le(data, 0, 4) as u32,
            stx_blksize: read_le(data, 4, 4) as u32,
            stx_attributes: read_le(data, 8, 8) as u64,
            stx_nlink: read_le(data, 16, 4) as u32,
            stx_uid: read_le(data, 20, 4) as u32,
            stx_gid: read_le(data, 24, 4) as u32,
            stx_mode: read_le(data, 28, 2) as u16,
            stx_ino: read_le(data, 32, 8) as u64,
            stx_size: read_le(data, 40, 8) as u64,
            stx_blocks: read_le(data, 48, 8) as u64,
            stx_attributes_mask: read_le(data, 56, 8) as u64,
        }
    }
}

/// One waiter of a wait on several futexes.
#[derive(Clone, Copy, Debug, PartialEq, Eq, Structural)]
pub struct FutexWaitv {
    /// Value the word is expected to hold.
    pub val: u64,
    /// Where the word is.
    pub uaddr: u64,
    /// What kind of word it is.
    pub flags: u32,
}

impl Abi for FutexWaitv {
    open spec fn spec_size() -> nat {
        24
    }

    open spec fn spec_align() -> nat {
        8
    }

    open spec fn encoded(self) -> Seq<u8> {
        le(self.val as nat, 8) + le(self.uaddr as nat, 8) + le(self.flags as nat, 4) + le(0, 4)
    }

    open spec fn decoded(s: Seq<u8>) -> Self {
        FutexWaitv {
            val: le_value(s.subrange(0, 8)) as u64,
            uaddr: le_value(s.subrange(8, 16)) as u64,
            flags: le_value(s.subrange(16, 20)) as u32,
        }
    }

    proof fn decoding_inverts_encoding(self) {
        span_values();
        le_round_trips(self.val as nat, 8);
        le_round_trips(self.uaddr as nat, 8);
        le_round_trips(self.flags as nat, 4);
        le_has_length(0, 4);
        let s = self.encoded();
        assert(s.subrange(0, 8) =~= le(self.val as nat, 8));
        assert(s.subrange(8, 16) =~= le(self.uaddr as nat, 8));
        assert(s.subrange(16, 20) =~= le(self.flags as nat, 4));
    }

    fn size_of() -> usize {
        24
    }

    fn align_of() -> usize {
        8
    }

    fn encode(&self) -> Vec<u8> {
        let mut data: Vec<u8> = Vec::new();
        push_le(&mut data, self.val as u64, 8);
        push_le(&mut data, self.uaddr as u64, 8);
        push_le(&mut data, self.flags as u64, 4);
        push_le(&mut data, 0, 4);
        assert(data@ =~= self.encoded());
        data
    }

    fn decode(data: &[u8]) -> Self {
        proof {
            span_values();
        }
        FutexWaitv {
            val: read_le(data, 0, 8) as u64,
            uaddr: read_le(data, 8, 8) as u64,
            flags: read_le(data, 16, 4) as u32,
        }
    }
}

impl Timespec {
    /// Whole seconds and nanoseconds.
    #[verifier::allow_in_spec]
    pub fn new(tv_sec: i64, tv_nsec: i64) -> Self
        returns
            (Timespec { tv_sec, tv_nsec }),
    {
        Timespec { tv_sec, tv_nsec }
    }

    /// Whole seconds.
    #[verifier::allow_in_spec]
    pub fn tv_sec(&self) -> i64
        returns
            self.tv_sec,
    {
        self.tv_sec
    }

    /// Nanoseconds.
    #[verifier::allow_in_spec]
    pub fn tv_nsec(&self) -> i64
        returns
            self.tv_nsec,
    {
        self.tv_nsec
    }
}

impl IoVec {
    /// Describe `len` bytes starting at `base`.
    #[verifier::allow_in_spec]
    pub fn new(base: u64, len: u64) -> Self
        returns
            (IoVec { iov_base: base, iov_len: len }),
    {
        IoVec { iov_base: base, iov_len: len }
    }

    /// Where the buffer starts.
    #[verifier::allow_in_spec]
    pub fn base(&self) -> u64
        returns
            self.iov_base,
    {
        self.iov_base
    }

    /// How long the buffer is.
    #[verifier::allow_in_spec]
    pub fn len(&self) -> u64
        returns
            self.iov_len,
    {
        self.iov_len
    }
}

impl MsgHdr {
    /// A header that names nothing.
    #[verifier::allow_in_spec]
    pub fn empty() -> Self
        returns
            (MsgHdr {
                msg_name: 0,
                msg_namelen: 0,
                msg_iov: 0,
                msg_iovlen: 0,
                msg_control: 0,
                msg_controllen: 0,
                msg_flags: 0,
            }),
    {
        MsgHdr {
            msg_name: 0,
            msg_namelen: 0,
            msg_iov: 0,
            msg_iovlen: 0,
            msg_control: 0,
            msg_controllen: 0,
            msg_flags: 0,
        }
    }
}

/// The most words one wait can name.
pub const FUTEX_WAITV_MAX: usize = 128;

impl FutexWaitv {
    /// Wait for the word at `uaddr` to stop holding `val`.
    #[verifier::allow_in_spec]
    pub fn new(uaddr: u64, val: u64, flags: Futex2Flags) -> Self
        returns
            (FutexWaitv { val, uaddr, flags: flags.bits() }),
    {
        FutexWaitv { val, uaddr, flags: flags.bits() }
    }
}

impl Statx {
    /// The size in bytes, if it was filled in.
    #[verifier::allow_in_spec]
    pub fn size(&self) -> Option<u64>
        returns
            (if self.stx_mask & StatxMask::size().bits() != 0 {
                Some(self.stx_size)
            } else {
                None
            }),
    {
        if self.stx_mask & StatxMask::size().bits() != 0 {
            Some(self.stx_size)
        } else {
            None
        }
    }

    /// The number of hard links, if it was filled in.
    #[verifier::allow_in_spec]
    pub fn nlink(&self) -> Option<u32>
        returns
            (if self.stx_mask & StatxMask::nlink().bits() != 0 {
                Some(self.stx_nlink)
            } else {
                None
            }),
    {
        if self.stx_mask & StatxMask::nlink().bits() != 0 {
            Some(self.stx_nlink)
        } else {
            None
        }
    }
}

/// An IPv4 socket address.
#[derive(Clone, Copy, Debug, PartialEq, Eq)]
pub struct SockAddrIn {
    /// Address family; 2 for IPv4.
    pub sin_family: u16,
    /// Port, most significant byte first in memory.
    pub sin_port: u16,
    /// Host, most significant byte first in memory.
    pub sin_addr: u32,
    /// Unused, but part of the structure.
    pub sin_zero: [u8; 8],
}

impl SockAddrIn {
    /// The bytes as the kernel reads them.
    pub fn to_bytes(&self) -> (b: [u8; 16])
        ensures
            b@ == self.encoded(),
    {
        let d: Vec<u8> = self.encode();
        proof {
            self.decoding_inverts_encoding();
        }
        let b: [u8; 16] = [
            d[0], d[1], d[2], d[3], d[4], d[5], d[6], d[7], d[8], d[9], d[10], d[11], d[12], d[13],
            d[14], d[15],
        ];
        assert(b@ =~= d@);
        b
    }
}

impl Default for SockAddrIn {
    /// All zero.
    fn default() -> (r: Self)
        ensures
            r.sin_family == 0,
            r.sin_port == 0,
            r.sin_addr == 0,
            forall|i: int| 0 <= i < 8 ==> r.sin_zero@[i] == 0,
    {
        SockAddrIn { sin_family: 0, sin_port: 0, sin_addr: 0, sin_zero: [0, 0, 0, 0, 0, 0, 0, 0] }
    }
}

impl Abi for SockAddrIn {
    open spec fn spec_size() -> nat {
        16
    }

    open spec fn spec_align() -> nat {
        4
    }

    open spec fn encoded(self) -> Seq<u8> {
        le(self.sin_family as nat, 2) + le(self.sin_port as nat, 2) + le(self.sin_addr as nat, 4)
            + self.sin_zero@
    }

    open spec fn decoded(s: Seq<u8>) -> Self {
        SockAddrIn {
            sin_family: le_value(s.subrange(0, 2)) as u16,
            sin_port: le_value(s.subrange(2, 4)) as u16,
            sin_addr: le_value(s.subrange(4, 8)) as u32,
            sin_zero: [s[8], s[9], s[10], s[11], s[12], s[13], s[14], s[15]],
        }
    }

    proof fn decoding_inverts_encoding(self) {
        span_values();
        le_round_trips(self.sin_family as nat, 2);
        le_round_trips(self.sin_port as nat, 2);
        le_round_trips(self.sin_addr as nat, 4);
        let s = self.encoded();
        assert(s.subrange(0, 2) =~= le(self.sin_family as nat, 2));
        assert(s.subrange(2, 4) =~= le(self.sin_port as nat, 2));
        assert(s.subrange(4, 8) =~= le(self.sin_addr as nat, 4));
        assert(Self::decoded(s).sin_zero =~= self.sin_zero);
    }

    fn size_of() -> usize {
        16
    }

    fn align_of() -> usize {
        4
    }

    fn encode(&self) -> Vec<u8> {
        let mut data: Vec<u8> = Vec::new();
        push_le(&mut data, self.sin_family as u64, 2);
        push_le(&mut data, self.sin_port as u64, 2);
        push_le(&mut data, self.sin_addr as u64, 4);
        let mut i: usize = 0;
        let ghost head = data@;
        while i < 8
            invariant
                i <= 8,
                data@ =~= head + self.sin_zero@.take(i as int),
            decreases 8 - i,
        {
            data.push(self.sin_zero[i]);
            i += 1;
        }
        assert(self.sin_zero@.take(8) =~= self.sin_zero@);
        assert(data@ =~= self.encoded());
        data
    }

    fn decode(data: &[u8]) -> Self {
        proof {
            span_values();
        }
        SockAddrIn {
            sin_family: read_le(data, 0, 2) as u16,
            sin_port: read_le(data, 2, 2) as u16,
            sin_addr: read_le(data, 4, 4) as u32,
            sin_zero: [
                data[8], data[9], data[10], data[11], data[12], data[13], data[14], data[15],
            ],
        }
    }
}

impl Abi for i32 {
    open spec fn spec_size() -> nat {
        4
    }

    open spec fn spec_align() -> nat {
        4
    }

    open spec fn encoded(self) -> Seq<u8> {
        le(unsigned_of(self), 4)
    }

    open spec fn decoded(s: Seq<u8>) -> Self {
        signed_of(le_value(s))
    }

    proof fn decoding_inverts_encoding(self) {
        signed_round_trips(self);
        le_round_trips(unsigned_of(self), 4);
    }

    fn size_of() -> usize {
        4
    }

    fn align_of() -> usize {
        4
    }

    fn encode(&self) -> Vec<u8> {
        let mut data: Vec<u8> = Vec::new();
        push_i32(&mut data, *self);
        assert(data@ =~= self.encoded());
        data
    }

    fn decode(data: &[u8]) -> Self {
        assert(data@.subrange(0, 4) =~= data@);
        read_i32(data, 0)
    }
}

impl OpenHow {
    /// Every field of the instructions lies where the kernel looks for it.
    pub proof fn fields_lie_in_place(self)
        ensures
            self.encoded().len() == 24,
            OpenHow::spec_align() == 8,
            le_value(self.encoded().subrange(0, 8)) == self.flags,
            le_value(self.encoded().subrange(8, 16)) == self.mode,
            le_value(self.encoded().subrange(16, 24)) == self.resolve,
    {
        span_values();
        le_round_trips(self.flags as nat, 8);
        le_round_trips(self.mode as nat, 8);
        le_round_trips(self.resolve as nat, 8);
        let s = self.encoded();
        assert(s.subrange(0, 8) =~= le(self.flags as nat, 8));
        assert(s.subrange(8, 16) =~= le(self.mode as nat, 8));
        assert(s.subrange(16, 24) =~= le(self.resolve as nat, 8));
    }

    /// Whatever bytes the kernel leaves, every field is read from its place.
    pub proof fn fields_are_read_in_place(s: Seq<u8>)
        requires
            s.len() == 24,
        ensures
            OpenHow::decoded(s).flags == le_value(s.subrange(0, 8)),
            OpenHow::decoded(s).mode == le_value(s.subrange(8, 16)),
            OpenHow::decoded(s).resolve == le_value(s.subrange(16, 24)),
    {
        span_values();
        le_value_is_bounded(s.subrange(0, 8));
        le_value_is_bounded(s.subrange(8, 16));
        le_value_is_bounded(s.subrange(16, 24));
    }
}

impl EpollEvent {
    /// Every field of the event lies where the kernel looks for it.
    pub proof fn fields_lie_in_place(self)
        ensures
            self.encoded().len() == 12,
            EpollEvent::spec_align() == 1,
            le_value(self.encoded().subrange(0, 4)) == self.events,
            le_value(self.encoded().subrange(4, 12)) == self.data,
    {
        span_values();
        le_round_trips(self.events as nat, 4);
        le_round_trips(self.data as nat, 8);
        let s = self.encoded();
        assert(s.subrange(0, 4) =~= le(self.events as nat, 4));
        assert(s.subrange(4, 12) =~= le(self.data as nat, 8));
    }

    /// Whatever bytes the kernel leaves, every field is read from its place.
    pub proof fn fields_are_read_in_place(s: Seq<u8>)
        requires
            s.len() == 12,
        ensures
            EpollEvent::decoded(s).events == le_value(s.subrange(0, 4)),
            EpollEvent::decoded(s).data == le_value(s.subrange(4, 12)),
    {
        span_values();
        le_value_is_bounded(s.subrange(0, 4));
        le_value_is_bounded(s.subrange(4, 12));
    }
}

impl IoVec {
    /// Every field of the descriptor lies where the kernel looks for it.
    pub proof fn fields_lie_in_place(self)
        ensures
            self.encoded().len() == 16,
            IoVec::spec_align() == 8,
            le_value(self.encoded().subrange(0, 8)) == self.iov_base,
            le_value(self.encoded().subrange(8, 16)) == self.iov_len,
    {
        span_values();
        le_round_trips(self.iov_base as nat, 8);
        le_round_trips(self.iov_len as nat, 8);
        let s = self.encoded();
        assert(s.subrange(0, 8) =~= le(self.iov_base as nat, 8));
        assert(s.subrange(8, 16) =~= le(self.iov_len as nat, 8));
    }

    /// Whatever bytes the kernel leaves, every field is read from its place.
    pub proof fn fields_are_read_in_place(s: Seq<u8>)
        requires
            s.len() == 16,
        ensures
            IoVec::decoded(s).iov_base == le_value(s.subrange(0, 8)),
            IoVec::decoded(s).iov_len == le_value(s.subrange(8, 16)),
    {
        span_values();
        le_value_is_bounded(s.subrange(0, 8));
        le_value_is_bounded(s.subrange(8, 16));
    }
}

impl MsgHdr {
    /// Every field of the header lies where the kernel looks for it, and what is
    /// between the fields is zero.
    pub proof fn fields_lie_in_place(self)
        ensures
            self.encoded().len() == 56,
            MsgHdr::spec_align() == 8,
            le_value(self.encoded().subrange(0, 8)) == self.msg_name,
            le_value(self.encoded().subrange(8, 12)) == self.msg_namelen,
            le_value(self.encoded().subrange(16, 24)) == self.msg_iov,
            le_value(self.encoded().subrange(24, 32)) == self.msg_iovlen,
            le_value(self.encoded().subrange(32, 40)) == self.msg_control,
            le_value(self.encoded().subrange(40, 48)) == self.msg_controllen,
            le_value(self.encoded().subrange(48, 52)) == self.msg_flags,
            le_value(self.encoded().subrange(12, 16)) == 0,
            le_value(self.encoded().subrange(52, 56)) == 0,
    {
        span_values();
        le_round_trips(self.msg_name as nat, 8);
        le_round_trips(self.msg_namelen as nat, 4);
        le_round_trips(self.msg_iov as nat, 8);
        le_round_trips(self.msg_iovlen as nat, 8);
        le_round_trips(self.msg_control as nat, 8);
        le_round_trips(self.msg_controllen as nat, 8);
        le_round_trips(self.msg_flags as nat, 4);
        le_round_trips(0, 4);
        let s = self.encoded();
        assert(s.subrange(0, 8) =~= le(self.msg_name as nat, 8));
        assert(s.subrange(8, 12) =~= le(self.msg_namelen as nat, 4));
        assert(s.subrange(16, 24) =~= le(self.msg_iov as nat, 8));
        assert(s.subrange(24, 32) =~= le(self.msg_iovlen as nat, 8));
        assert(s.subrange(32, 40) =~= le(self.msg_control as nat, 8));
        assert(s.subrange(40, 48) =~= le(self.msg_controllen as nat, 8));
        assert(s.subrange(48, 52) =~= le(self.msg_flags as nat, 4));
        assert(s.subrange(12, 16) =~= le(0, 4));
        assert(s.subrange(52, 56) =~= le(0, 4));
    }

    /// Whatever bytes the kernel leaves, every field is read from its place.
    pub proof fn fields_are_read_in_place(s: Seq<u8>)
        requires
            s.len() == 56,
        ensures
            MsgHdr::decoded(s).msg_name == le_value(s.subrange(0, 8)),
            MsgHdr::decoded(s).msg_namelen == le_value(s.subrange(8, 12)),
            MsgHdr::decoded(s).msg_iov == le_value(s.subrange(16, 24)),
            MsgHdr::decoded(s).msg_iovlen == le_value(s.subrange(24, 32)),
            MsgHdr::decoded(s).msg_control == le_value(s.subrange(32, 40)),
            MsgHdr::decoded(s).msg_controllen == le_value(s.subrange(40, 48)),
            MsgHdr::decoded(s).msg_flags == le_value(s.subrange(48, 52)),
    {
        span_values();
        le_value_is_bounded(s.subrange(0, 8));
        le_value_is_bounded(s.subrange(8, 12));
        le_value_is_bounded(s.subrange(16, 24));
        le_value_is_bounded(s.subrange(24, 32));
        le_value_is_bounded(s.subrange(32, 40));
        le_value_is_bounded(s.subrange(40, 48));
        le_value_is_bounded(s.subrange(48, 52));
    }
}

impl Statx {
    /// Every field of the report lies where the kernel looks for it.
    pub proof fn fields_lie_in_place(self)
        ensures
            self.encoded().len() == 256,
            Statx::spec_align() == 8,
            le_value(self.encoded().subrange(0, 4)) == self.stx_mask,
            le_value(self.encoded().subrange(4, 8)) == self.stx_blksize,
            le_value(self.encoded().subrange(8, 16)) == self.stx_attributes,
            le_value(self.encoded().subrange(16, 20)) == self.stx_nlink,
            le_value(self.encoded().subrange(20, 24)) == self.stx_uid,
            le_value(self.encoded().subrange(24, 28)) == self.stx_gid,
            le_value(self.encoded().subrange(28, 30)) == self.stx_mode,
            le_value(self.encoded().subrange(32, 40)) == self.stx_ino,
            le_value(self.encoded().subrange(40, 48)) == self.stx_size,
            le_value(self.encoded().subrange(48, 56)) == self.stx_blocks,
            le_value(self.encoded().subrange(56, 64)) == self.stx_attributes_mask,
    {
        span_values();
        le_round_trips(self.stx_mask as nat, 4);
        le_round_trips(self.stx_blksize as nat, 4);
        le_round_trips(self.stx_attributes as nat, 8);
        le_round_trips(self.stx_nlink as nat, 4);
        le_round_trips(self.stx_uid as nat, 4);
        le_round_trips(self.stx_gid as nat, 4);
        le_round_trips(self.stx_mode as nat, 2);
        le_round_trips(self.stx_ino as nat, 8);
        le_round_trips(self.stx_size as nat, 8);
        le_round_trips(self.stx_blocks as nat, 8);
        le_round_trips(self.stx_attributes_mask as nat, 8);
        le_has_length(0, 2);
        le_has_length(0, 192);
        let s = self.encoded();
        assert(s.subrange(0, 4) =~= le(self.stx_mask as nat, 4));
        assert(s.subrange(4, 8) =~= le(self.stx_blksize as nat, 4));
        assert(s.subrange(8, 16) =~= le(self.stx_attributes as nat, 8));
        assert(s.subrange(16, 20) =~= le(self.stx_nlink as nat, 4));
        assert(s.subrange(20, 24) =~= le(self.stx_uid as nat, 4));
        assert(s.subrange(24, 28) =~= le(self.stx_gid as nat, 4));
        assert(s.subrange(28, 30) =~= le(self.stx_mode as nat, 2));
        assert(s.subrange(32, 40) =~= le(self.stx_ino as nat, 8));
        assert(s.subrange(40, 48) =~= le(self.stx_size as nat, 8));
        assert(s.subrange(48, 56) =~= le(self.stx_blocks as nat, 8));
        assert(s.subrange(56, 64) =~= le(self.stx_attributes_mask as nat, 8));
    }

    /// Whatever bytes the kernel leaves, every field is read from its place.
    pub proof fn fields_are_read_in_place(s: Seq<u8>)
        requires
            s.len() == 256,
        ensures
            Statx::decoded(s).stx_mask == le_value(s.subrange(0, 4)),
            Statx::decoded(s).stx_blksize == le_value(s.subrange(4, 8)),
            Statx::decoded(s).stx_attributes == le_value(s.subrange(8, 16)),
            Statx::decoded(s).stx_nlink == le_value(s.subrange(16, 20)),
            Statx::decoded(s).stx_uid == le_value(s.subrange(20, 24)),
            Statx::decoded(s).stx_gid == le_value(s.subrange(24, 28)),
            Statx::decoded(s).stx_mode == le_value(s.subrange(28, 30)),
            Statx::decoded(s).stx_ino == le_value(s.subrange(32, 40)),
            Statx::decoded(s).stx_size == le_value(s.subrange(40, 48)),
            Statx::decoded(s).stx_blocks == le_value(s.subrange(48, 56)),
            Statx::decoded(s).stx_attributes_mask == le_value(s.subrange(56, 64)),
    {
        span_values();
        le_value_is_bounded(s.subrange(0, 4));
        le_value_is_bounded(s.subrange(4, 8));
        le_value_is_bounded(s.subrange(8, 16));
        le_value_is_bounded(s.subrange(16, 20));
        le_value_is_bounded(s.subrange(20, 24));
        le_value_is_bounded(s.subrange(24, 28));
        le_value_is_bounded(s.subrange(28, 30));
        le_value_is_bounded(s.subrange(32, 40));
        le_value_is_bounded(s.subrange(40, 48));
        le_value_is_bounded(s.subrange(48, 56));
        le_value_is_bounded(s.subrange(56, 64));
    }
}

impl FutexWaitv {
    /// Every field of the waiter lies where the kernel looks for it, and what is
    /// between the fields is zero.
    pub proof fn fields_lie_in_place(self)
        ensures
            self.encoded().len() == 24,
            FutexWaitv::spec_align() == 8,
            le_value(self.encoded().subrange(0, 8)) == self.val,
            le_value(self.encoded().subrange(8, 16)) == self.uaddr,
            le_value(self.encoded().subrange(16, 20)) == self.flags,
            le_value(self.encoded().subrange(20, 24)) == 0,
    {
        span_values();
        le_round_trips(self.val as nat, 8);
        le_round_trips(self.uaddr as nat, 8);
        le_round_trips(self.flags as nat, 4);
        le_round_trips(0, 4);
        let s = self.encoded();
        assert(s.subrange(0, 8) =~= le(self.val as nat, 8));
        assert(s.subrange(8, 16) =~= le(self.uaddr as nat, 8));
        assert(s.subrange(16, 20) =~= le(self.flags as nat, 4));
        assert(s.subrange(20, 24) =~= le(0, 4));
    }

    /// Whatever bytes the kernel leaves, every field is read from its place.
    pub proof fn fields_are_read_in_place(s: Seq<u8>)
        requires
            s.len() == 24,
        ensures
            FutexWaitv::decoded(s).val == le_value(s.subrange(0, 8)),
            FutexWaitv::decoded(s).uaddr == le_value(s.subrange(8, 16)),
            FutexWaitv::decoded(s).flags == le_value(s.subrange(16, 20)),
    {
        span_values();
        le_value_is_bounded(s.subrange(0, 8));
        le_value_is_bounded(s.subrange(8, 16));
        le_value_is_bounded(s.subrange(16, 20));
    }
}

impl SockAddrIn {
    /// Every field of the address lies where the kernel looks for it.
    pub proof fn fields_lie_in_place(self)
        ensures
            self.encoded().len() == 16,
            SockAddrIn::spec_align() == 4,
            le_value(self.encoded().subrange(0, 2)) == self.sin_family,
            le_value(self.encoded().subrange(2, 4)) == self.sin_port,
            le_value(self.encoded().subrange(4, 8)) == self.sin_addr,
            self.encoded().subrange(8, 16) == self.sin_zero@,
    {
        span_values();
        le_round_trips(self.sin_family as nat, 2);
        le_round_trips(self.sin_port as nat, 2);
        le_round_trips(self.sin_addr as nat, 4);
        let s = self.encoded();
        assert(s.subrange(0, 2) =~= le(self.sin_family as nat, 2));
        assert(s.subrange(2, 4) =~= le(self.sin_port as nat, 2));
        assert(s.subrange(4, 8) =~= le(self.sin_addr as nat, 4));
        assert(s.subrange(8, 16) =~= self.sin_zero@);
    }

    /// Whatever bytes the kernel leaves, every field is read from its place.
    pub proof fn fields_are_read_in_place(s: Seq<u8>)
        requires
            s.len() == 16,
        ensures
            SockAddrIn::decoded(s).sin_family == le_value(s.subrange(0, 2)),
            SockAddrIn::decoded(s).sin_port == le_value(s.subrange(2, 4)),
            SockAddrIn::decoded(s).sin_addr == le_value(s.subrange(4, 8)),
            Self::decoded(s).sin_zero@ == s.subrange(8, 16),
    {
        span_values();
        le_value_is_bounded(s.subrange(0, 2));
        le_value_is_bounded(s.subrange(2, 4));
        le_value_is_bounded(s.subrange(4, 8));
        assert(Self::decoded(s).sin_zero@ =~= s.subrange(8, 16));
    }
}

/// A 64-bit signed number as the unsigned number with the same bits.
proof fn wide_signs_wrap(x: i64)
    ensures
        x as u64 == (if x < 0 { x + 0x1_0000_0000_0000_0000 } else { x as int }),
{
    assert(x < 0 ==> x as u64 == x + 0x1_0000_0000_0000_0000) by (bit_vector);
}

impl Timespec {
    /// The seconds come first and the nanoseconds second, each a signed number:
    /// one below zero counts back from the largest the bytes can hold.
    pub proof fn fields_lie_in_place(self)
        ensures
            self.encoded().len() == 16,
            Timespec::spec_align() == 8,
            le_value(self.encoded().subrange(0, 8)) == (if self.tv_sec < 0 {
                self.tv_sec + 0x1_0000_0000_0000_0000
            } else {
                self.tv_sec as int
            }),
            le_value(self.encoded().subrange(8, 16)) == (if self.tv_nsec < 0 {
                self.tv_nsec + 0x1_0000_0000_0000_0000
            } else {
                self.tv_nsec as int
            }),
    {
        span_values();
        wide_signs_wrap(self.tv_sec);
        wide_signs_wrap(self.tv_nsec);
        le_round_trips(self.tv_sec as u64 as nat, 8);
        le_round_trips(self.tv_nsec as u64 as nat, 8);
        let s = self.encoded();
        assert(s.subrange(0, 8) =~= le(self.tv_sec as u64 as nat, 8));
        assert(s.subrange(8, 16) =~= le(self.tv_nsec as u64 as nat, 8));
    }

    /// Whatever bytes the kernel leaves, every field is read from its place.
    pub proof fn fields_are_read_in_place(s: Seq<u8>)
        requires
            s.len() == 16,
        ensures
            Timespec::decoded(s).encoded() == s,
    {
        span_values();
        let (a, b) = (s.subrange(0, 8), s.subrange(8, 16));
        le_value_is_bounded(a);
        le_value_is_bounded(b);
        let (x, y) = (le_value(a) as u64, le_value(b) as u64);
        assert(x as i64 as u64 == x) by (bit_vector);
        assert(y as i64 as u64 == y) by (bit_vector);
        bytes_are_their_value(a);
        bytes_are_their_value(b);
        assert(Timespec::decoded(s).encoded() =~= s);
    }
}

/// A descriptor in an array is four bytes, two's complement.
pub proof fn descriptors_lie_in_place(x: i32)
    ensures
        x.encoded().len() == 4,
        <i32 as Abi>::spec_align() == 4,
        le_value(x.encoded()) == (if x < 0 { x + 0x1_0000_0000 } else { x as int }),
{
    span_values();
    le_round_trips(unsigned_of(x), 4);
}

/// Values are built from their parts and give them back.
pub proof fn parts_are_kept(x: i64, y: i64, base: u64, len: u64, flags: Futex2Flags)
    ensures
        Timespec::new(x, y).tv_sec == x,
        Timespec::new(x, y).tv_nsec == y,
        Timespec::new(x, y).tv_sec() == x,
        Timespec::new(x, y).tv_nsec() == y,
        IoVec::new(base, len).iov_base == base,
        IoVec::new(base, len).iov_len == len,
        IoVec::new(base, len).base() == base,
        IoVec::new(base, len).len() == len,
        FutexWaitv::new(base, len, flags).uaddr == base,
        FutexWaitv::new(base, len, flags).val == len,
        FutexWaitv::new(base, len, flags).flags == flags.0,
{
}

/// An empty header is all zero bytes.
pub proof fn empty_headers_name_nothing(i: int)
    requires
        0 <= i < 56,
    ensures
        MsgHdr::empty().encoded()[i] == 0,
{
    zero_bytes(8);
    zero_bytes(4);
    let s = MsgHdr::empty().encoded();
    MsgHdr::empty().decoding_inverts_encoding();
    assert(s =~= Seq::new(56, |j: int| 0u8));
}

/// A report gives a field out exactly where its mask says that it was filled
/// in: bit 0x200 for the size, bit 4 for the links.
pub proof fn unfilled_fields_are_not_reported(s: Statx)
    ensures
        s.size() is Some <==> s.stx_mask & 0x200u32 != 0,
        s.size() is Some ==> s.size() == Some(s.stx_size),
        s.nlink() is Some <==> s.stx_mask & 4u32 != 0,
        s.nlink() is Some ==> s.nlink() == Some(s.stx_nlink),
{
}

} // verus!
