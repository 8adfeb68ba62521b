//! Descriptors as plain numbers.

use vstd::prelude::*;

verus! {

/// A descriptor number, or an index into a ring's file table.
///
/// It owns nothing: copying it does not duplicate the descriptor.
#[derive(Clone, Copy, Debug, PartialEq, Eq, Structural)]
pub struct RawFd(pub usize);

impl RawFd {
    /// Wrap a number.
    #[verifier::allow_in_spec]
    pub fn from_raw(raw: usize) -> Self
        returns
            RawFd(raw),
    {
        RawFd(raw)
    }

    /// The number as the kernel's entries carry it.
    #[verifier::allow_in_spec]
    pub fn as_i32(self) -> i32
        returns
            self.0 as i32,
    {
        self.0 as i32
    }
}

/// A descriptor the kernel can hand out keeps its value in an entry.
pub proof fn small_descriptors_are_kept(fd: RawFd)
    requires
        fd.0 <= i32::MAX,
    ensures
        fd.as_i32() == fd.0,
{
}

/// A descriptor is carried by its lower 32 bits, and wrapping keeps it.
pub proof fn descriptors_are_carried(raw: usize)
    ensures
        RawFd::from_raw(raw).0 == raw,
        RawFd(raw).as_i32() as u32 == raw as u64 % 0x1_0000_0000,
{
    assert((raw as i32) as u32 == raw as u64 % 0x1_0000_0000) by (bit_vector);
}

/// The current directory is the number -100, which no descriptor has; an open
/// one is its descriptor.
pub proof fn directories_are_carried(fd: RawFd)
    ensures
        DirFd::Cwd.as_raw() == -100,
        fd.0 <= i32::MAX ==> DirFd::Fd(fd).as_raw() == fd.0,
        DirFd::Fd(fd).as_raw() == fd.as_i32(),
{
}

/// The directory a relative path starts from.
#[derive(Clone, Copy, Debug, PartialEq, Eq, Structural)]
pub enum DirFd {
    /// The current working directory.
    Cwd,
    /// An open directory.
    Fd(RawFd),
}

impl DirFd {
    /// The number the kernel reads: `AT_FDCWD` or the descriptor.
    #[verifier::allow_in_spec]
    pub fn as_raw(self) -> i32
        returns
            (match self {
                DirFd::Cwd => -100i32,
                DirFd::Fd(fd) => fd.as_i32(),
            }),
    {
        match self {
            DirFd::Cwd => -100i32,
            DirFd::Fd(fd) => fd.as_i32(),
        }
    }
}

} // verus!
