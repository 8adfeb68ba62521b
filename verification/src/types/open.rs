//! Flags of opening a file.
//!
//! `openat2` refuses bits it does not know, so these words can only be
//! built from named bits: an unknown one cannot be expressed.

use vstd::prelude::*;

verus! {

/// Every flag bit that [`OpenFlags`] can carry.
pub const OPEN_FLAG_BITS: u32 = 0o32603703;

/// Every bit that [`ResolveFlags`] can carry.
pub const RESOLVE_FLAG_BITS: u64 = 0x3f;

/// How a file is opened.
#[derive(Clone, Copy, Debug, PartialEq, Eq, Structural)]
pub struct OpenFlags {
    bits: u32,
}

impl OpenFlags {
    /// Only named bits are set.
    #[verifier::type_invariant]
    pub closed spec fn wf(self) -> bool {
        self.bits & !OPEN_FLAG_BITS == 0
    }

    /// The raw word.
    pub closed spec fn word(self) -> u32 {
        self.bits
    }

    /// The raw word.
    pub fn bits(self) -> (r: u32)
        ensures
            r == self.word(),
            r & !OPEN_FLAG_BITS == 0,
    {
        proof {
            use_type_invariant(&self);
        }
        self.bits
    }

    /// No unknown bit can be set.
    pub proof fn only_named_bits(self)
        requires
            self.wf(),
        ensures
            self.word() & !OPEN_FLAG_BITS == 0,
    {
    }

    /// No flags: open for reading.
    pub fn empty() -> (r: Self)
        ensures
            r.word() == 0,
    {
        assert(0u32 & !0o32603703u32 == 0) by (bit_vector);
        OpenFlags { bits: 0 }
    }

    /// `O_WRONLY`: open for writing.
    pub fn wronly() -> (r: Self)
        ensures
            r.word() == 1,
    {
        assert(1u32 & !0o32603703u32 == 0) by (bit_vector);
        OpenFlags { bits: 1 }
    }

    /// `O_RDWR`: open for reading and writing.
    pub fn rdwr() -> (r: Self)
        ensures
            r.word() == 2,
    {
        assert(2u32 & !0o32603703u32 == 0) by (bit_vector);
        OpenFlags { bits: 2 }
    }

    /// `O_CREAT`: create the file if it is absent.
    pub fn creat() -> (r: Self)
        ensures
            r.word() == 0o100,
    {
        assert(0o100u32 & !0o32603703u32 == 0) by (bit_vector);
        OpenFlags { bits: 0o100 }
    }

    /// `O_EXCL`: fail if the file exists.
    pub fn excl() -> (r: Self)
        ensures
            r.word() == 0o200,
    {
        assert(0o200u32 & !0o32603703u32 == 0) by (bit_vector);
        OpenFlags { bits: 0o200 }
    }

    /// `O_CLOEXEC`: close the descriptor on `execve`.
    pub fn cloexec() -> (r: Self)
        ensures
            r.word() == 0o2000000,
    {
        assert(0o2000000u32 & !0o32603703u32 == 0) by (bit_vector);
        OpenFlags { bits: 0o2000000 }
    }

    /// `O_TMPFILE`: create an unnamed file in a directory.
    pub fn tmpfile() -> (r: Self)
        ensures
            r.word() == 0o20200000,
    {
        assert(0o20200000u32 & !0o32603703u32 == 0) by (bit_vector);
        OpenFlags { bits: 0o20200000 }
    }

    /// Keep the named bits of a raw word.
    pub fn from_bits_truncate(raw: u32) -> (r: Self)
        ensures
            r.word() == raw & OPEN_FLAG_BITS,
    {
        assert((raw & 0o32603703u32) & !0o32603703u32 == 0) by (bit_vector);
        OpenFlags { bits: raw & OPEN_FLAG_BITS }
    }

    /// The bits of both.
    pub fn union(self, other: Self) -> (r: Self)
        ensures
            r.word() == self.word() | other.word(),
    {
        proof {
            use_type_invariant(&self);
            use_type_invariant(&other);
            let a = self.bits;
            let b = other.bits;
            assert((a | b) & !0o32603703u32 == 0) by (bit_vector)
                requires
                    a & !0o32603703u32 == 0,
                    b & !0o32603703u32 == 0,
            ;
        }
        OpenFlags { bits: self.bits | other.bits }
    }

    /// Whether every bit of `other` is set.
    pub fn contains(self, other: Self) -> (r: bool)
        ensures
            r == (self.word() & other.word() == other.word()),
    {
        self.bits & other.bits == other.bits
    }
}

impl Default for OpenFlags {
    /// No flags.
    fn default() -> (r: Self)
        ensures
            r.word() == 0,
    {
        OpenFlags::empty()
    }
}

/// How `openat2` may walk the path.
#[derive(Clone, Copy, Debug, PartialEq, Eq, Structural)]
pub struct ResolveFlags {
    bits: u64,
}

impl ResolveFlags {
    /// Only named bits are set.
    #[verifier::type_invariant]
    pub closed spec fn wf(self) -> bool {
        self.bits & !RESOLVE_FLAG_BITS == 0
    }

    /// The raw word.
    pub closed spec fn word(self) -> u64 {
        self.bits
    }

    /// The raw word.
    pub fn bits(self) -> (r: u64)
        ensures
            r == self.word(),
            r & !RESOLVE_FLAG_BITS == 0,
    {
        proof {
            use_type_invariant(&self);
        }
        self.bits
    }

    /// No unknown bit can be set.
    pub proof fn only_named_bits(self)
        requires
            self.wf(),
        ensures
            self.word() & !RESOLVE_FLAG_BITS == 0,
    {
    }

    /// No restriction.
    pub fn empty() -> (r: Self)
        ensures
            r.word() == 0,
    {
        assert(0u64 & !0x3fu64 == 0) by (bit_vector);
        ResolveFlags { bits: 0 }
    }

    /// `RESOLVE_NO_SYMLINKS`: follow no symbolic link.
    pub fn no_symlinks() -> (r: Self)
        ensures
            r.word() == 4,
    {
        assert(4u64 & !0x3fu64 == 0) by (bit_vector);
        ResolveFlags { bits: 4 }
    }

    /// `RESOLVE_BENEATH`: stay below the directory.
    pub fn beneath() -> (r: Self)
        ensures
            r.word() == 8,
    {
        assert(8u64 & !0x3fu64 == 0) by (bit_vector);
        ResolveFlags { bits: 8 }
    }

    /// `RESOLVE_IN_ROOT`: treat the directory as the root.
    pub fn in_root() -> (r: Self)
        ensures
            r.word() == 0x10,
    {
        assert(0x10u64 & !0x3fu64 == 0) by (bit_vector);
        ResolveFlags { bits: 0x10 }
    }

    /// Keep the named bits of a raw word.
    pub fn from_bits_truncate(raw: u64) -> (r: Self)
        ensures
            r.word() == raw & RESOLVE_FLAG_BITS,
    {
        assert((raw & 0x3fu64) & !0x3fu64 == 0) by (bit_vector);
        ResolveFlags { bits: raw & RESOLVE_FLAG_BITS }
    }

    /// The bits of both.
    pub fn union(self, other: Self) -> (r: Self)
        ensures
            r.word() == self.word() | other.word(),
    {
        proof {
            use_type_invariant(&self);
            use_type_invariant(&other);
            let a = self.bits;
            let b = other.bits;
            assert((a | b) & !0x3fu64 == 0) by (bit_vector)
                requires
                    a & !0x3fu64 == 0,
                    b & !0x3fu64 == 0,
            ;
        }
        ResolveFlags { bits: self.bits | other.bits }
    }
}

impl Default for ResolveFlags {
    /// No restriction.
    fn default() -> (r: Self)
        ensures
            r.word() == 0,
    {
        ResolveFlags::empty()
    }
}

/// Every named flag is one of the bits that can be carried, and no other bit
/// is.
pub proof fn named_bits_are_the_kernels()
    ensures
        OPEN_FLAG_BITS == 1u32 | 2u32 | 0o100u32 | 0o200u32 | 0o400u32 | 0o1000u32 | 0o2000u32
            | 0o200000u32 | 0o400000u32 | 0o2000000u32 | 0o10000000u32 | 0o20000000u32,
        RESOLVE_FLAG_BITS == 1u64 | 2u64 | 4u64 | 8u64 | 0x10u64 | 0x20u64,
{
    assert(0o32603703u32 == 1u32 | 2u32 | 0o100u32 | 0o200u32 | 0o400u32 | 0o1000u32 | 0o2000u32
        | 0o200000u32 | 0o400000u32 | 0o2000000u32 | 0o10000000u32 | 0o20000000u32 && 0x3fu64
        == 1u64 | 2u64 | 4u64 | 8u64 | 0x10u64 | 0x20u64) by (bit_vector);
}

} // verus!
