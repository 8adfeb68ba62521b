//! Flag words of the kernel interface.
//!
//! Each is a thin wrapper around the word itself, so the bits a request
//! carries are exactly the bits the caller combined.

use vstd::prelude::*;

verus! {

/// Flags the kernel sets in a completion.
#[derive(Clone, Copy, Debug, PartialEq, Eq, Structural)]
pub struct CqeFlags(pub u32);

impl CqeFlags {
    /// Wrap a raw word.
    #[verifier::allow_in_spec]
    pub fn from_raw(raw: u32) -> Self
        returns
            CqeFlags(raw),
    {
        CqeFlags(raw)
    }

    /// The raw word.
    #[verifier::allow_in_spec]
    pub fn bits(self) -> u32
        returns
            self.0,
    {
        self.0
    }

    /// No flags.
    #[verifier::allow_in_spec]
    pub fn empty() -> Self
        returns
            CqeFlags(0),
    {
        CqeFlags(0)
    }

    /// Whether every bit of `other` is set.
    #[verifier::allow_in_spec]
    pub fn contains(self, other: Self) -> bool
        returns
            self.0 & other.0 == other.0,
    {
        self.0 & other.0 == other.0
    }

    /// The bits of both.
    #[verifier::allow_in_spec]
    pub fn union(self, other: Self) -> Self
        returns
            CqeFlags(self.0 | other.0),
    {
        CqeFlags(self.0 | other.0)
    }

    /// `IORING_CQE_F_BUFFER`: the upper 16 bits name the pool buffer used.
    #[verifier::allow_in_spec]
    pub fn buffer() -> Self
        returns
            CqeFlags(1),
    {
        CqeFlags(1)
    }

    /// `IORING_CQE_F_MORE`: more completions follow for this request.
    #[verifier::allow_in_spec]
    pub fn more() -> Self
        returns
            CqeFlags(2),
    {
        CqeFlags(2)
    }

    /// `IORING_CQE_F_SOCK_NONEMPTY`: more data is waiting on the socket.
    #[verifier::allow_in_spec]
    pub fn sock_nonempty() -> Self
        returns
            CqeFlags(4),
    {
        CqeFlags(4)
    }

    /// `IORING_CQE_F_NOTIF`: the kernel has let go of a zero-copy send's pages.
    #[verifier::allow_in_spec]
    pub fn notif() -> Self
        returns
            CqeFlags(8),
    {
        CqeFlags(8)
    }

    /// The pool buffer this completion used, if it used one.
    ///
    /// The identifier sits in the upper half of the word and means something
    /// only when the kernel set the buffer flag.
    #[verifier::allow_in_spec]
    pub fn buffer_id(self) -> Option<u16>
        returns
            (if self.contains(CqeFlags::buffer()) {
                Some((self.0 >> 16u32) as u16)
            } else {
                None
            }),
    {
        if self.contains(CqeFlags::buffer()) {
            Some((self.0 >> 16u32) as u16)
        } else {
            None
        }
    }

    /// Each name stands for the kernel's own bit, and words combine bit by bit.
    pub proof fn bits_are_the_kernels(self, other: Self)
        ensures
            CqeFlags::from_raw(self.0) == self,
            self.bits() == self.0,
            CqeFlags::empty().0 == 0,
            self.contains(other) <==> self.0 & other.0 == other.0,
            self.union(other).0 == self.0 | other.0,
            CqeFlags::buffer().0 == 1,
            CqeFlags::more().0 == 2,
            CqeFlags::sock_nonempty().0 == 4,
            CqeFlags::notif().0 == 8,
    {
    }

    /// A completion names a buffer exactly where its lowest bit is set, and the
    /// upper half of the word is the buffer's number.
    pub proof fn buffers_are_the_upper_half(self)
        ensures
            self.buffer_id() is Some <==> self.0 % 2 == 1,
            self.buffer_id() matches Some(id) ==> id == self.0 / 0x1_0000,
    {
        let x = self.0;
        assert((x & 1 == 1) == (x % 2 == 1) && (x >> 16u32) as u16 == x / 0x1_0000)
            by (bit_vector);
    }
}

/// Flags that change how a submission is carried out.
#[derive(Clone, Copy, Debug, PartialEq, Eq, Structural)]
pub struct SqeFlags(pub u8);

impl SqeFlags {
    /// The raw word.
    #[verifier::allow_in_spec]
    pub fn bits(self) -> u8
        returns
            self.0,
    {
        self.0
    }

    /// Whether every bit of `other` is set.
    #[verifier::allow_in_spec]
    pub fn contains(self, other: Self) -> bool
        returns
            self.0 & other.0 == other.0,
    {
        self.0 & other.0 == other.0
    }

    /// The bits of both.
    #[verifier::allow_in_spec]
    pub fn union(self, other: Self) -> Self
        returns
            SqeFlags(self.0 | other.0),
    {
        SqeFlags(self.0 | other.0)
    }

    /// `IOSQE_FIXED_FILE`: the descriptor is an index into the file table.
    #[verifier::allow_in_spec]
    pub fn fixed_file() -> Self
        returns
            SqeFlags(1),
    {
        SqeFlags(1)
    }

    /// `IOSQE_IO_DRAIN`: wait for everything submitted before.
    #[verifier::allow_in_spec]
    pub fn io_drain() -> Self
        returns
            SqeFlags(2),
    {
        SqeFlags(2)
    }

    /// `IOSQE_IO_LINK`: the next entry waits for this one.
    #[verifier::allow_in_spec]
    pub fn io_link() -> Self
        returns
            SqeFlags(4),
    {
        SqeFlags(4)
    }

    /// `IOSQE_IO_HARDLINK`: as a link, but failure does not break the chain.
    #[verifier::allow_in_spec]
    pub fn io_hardlink() -> Self
        returns
            SqeFlags(8),
    {
        SqeFlags(8)
    }

    /// `IOSQE_ASYNC`: always hand the request to a worker.
    #[verifier::allow_in_spec]
    pub fn io_async() -> Self
        returns
            SqeFlags(0x10),
    {
        SqeFlags(0x10)
    }

    /// `IOSQE_BUFFER_SELECT`: take a buffer from a provided pool.
    #[verifier::allow_in_spec]
    pub fn buffer_select() -> Self
        returns
            SqeFlags(0x20),
    {
        SqeFlags(0x20)
    }

    /// `IOSQE_CQE_SKIP_SUCCESS`: post no completion on success.
    #[verifier::allow_in_spec]
    pub fn cqe_skip_success() -> Self
        returns
            SqeFlags(0x40),
    {
        SqeFlags(0x40)
    }

    /// Each name stands for the kernel's own bit, and words combine bit by bit.
    pub proof fn bits_are_the_kernels(self, other: Self)
        ensures
            self.bits() == self.0,
            self.contains(other) <==> self.0 & other.0 == other.0,
            self.union(other).0 == self.0 | other.0,
            SqeFlags::fixed_file().0 == 1,
            SqeFlags::io_drain().0 == 2,
            SqeFlags::io_link().0 == 4,
            SqeFlags::io_hardlink().0 == 8,
            SqeFlags::io_async().0 == 0x10,
            SqeFlags::buffer_select().0 == 0x20,
            SqeFlags::cqe_skip_success().0 == 0x40,
    {
    }
}

/// Permission bits of a file to be created.
#[derive(Clone, Copy, Debug, PartialEq, Eq, Structural)]
pub struct FileMode(pub u32);

impl FileMode {
    /// Wrap a raw word.
    #[verifier::allow_in_spec]
    pub fn from_raw(raw: u32) -> Self
        returns
            FileMode(raw),
    {
        FileMode(raw)
    }

    /// The raw word.
    #[verifier::allow_in_spec]
    pub fn bits(self) -> u32
        returns
            self.0,
    {
        self.0
    }

    /// No flags.
    #[verifier::allow_in_spec]
    pub fn empty() -> Self
        returns
            FileMode(0),
    {
        FileMode(0)
    }

    /// The bits of both.
    #[verifier::allow_in_spec]
    pub fn union(self, other: Self) -> Self
        returns
            FileMode(self.0 | other.0),
    {
        FileMode(self.0 | other.0)
    }

    /// Readable by the owner.
    #[verifier::allow_in_spec]
    pub fn owner_read() -> Self
        returns
            FileMode(0x100),
    {
        FileMode(0x100)
    }

    /// Writable by the owner.
    #[verifier::allow_in_spec]
    pub fn owner_write() -> Self
        returns
            FileMode(0x80),
    {
        FileMode(0x80)
    }

    /// Executable by the owner.
    #[verifier::allow_in_spec]
    pub fn owner_exec() -> Self
        returns
            FileMode(0x40),
    {
        FileMode(0x40)
    }

    /// Each name stands for the kernel's own bit, and words combine bit by bit.
    pub proof fn bits_are_the_kernels(self, other: Self)
        ensures
            FileMode::from_raw(self.0) == self,
            self.bits() == self.0,
            FileMode::empty().0 == 0,
            self.union(other).0 == self.0 | other.0,
            FileMode::owner_read().0 == 0x100,
            FileMode::owner_write().0 == 0x80,
            FileMode::owner_exec().0 == 0x40,
    {
    }
}

impl Default for FileMode {
    /// No flags.
    fn default() -> (r: Self)
        ensures
            r == FileMode::empty(),
    {
        FileMode::empty()
    }
}

/// Flags of `unlinkat`.
#[derive(Clone, Copy, Debug, PartialEq, Eq, Structural)]
pub struct UnlinkFlags(pub u32);

impl UnlinkFlags {
    /// The raw word.
    #[verifier::allow_in_spec]
    pub fn bits(self) -> u32
        returns
            self.0,
    {
        self.0
    }

    /// No flags.
    #[verifier::allow_in_spec]
    pub fn empty() -> Self
        returns
            UnlinkFlags(0),
    {
        UnlinkFlags(0)
    }

    /// The bits of both.
    #[verifier::allow_in_spec]
    pub fn union(self, other: Self) -> Self
        returns
            UnlinkFlags(self.0 | other.0),
    {
        UnlinkFlags(self.0 | other.0)
    }

    /// `AT_REMOVEDIR`: remove a directory.
    #[verifier::allow_in_spec]
    pub fn removedir() -> Self
        returns
            UnlinkFlags(0x200),
    {
        UnlinkFlags(0x200)
    }

    /// Each name stands for the kernel's own bit, and words combine bit by bit.
    pub proof fn bits_are_the_kernels(self, other: Self)
        ensures
            self.bits() == self.0,
            UnlinkFlags::empty().0 == 0,
            self.union(other).0 == self.0 | other.0,
            UnlinkFlags::removedir().0 == 0x200,
    {
    }
}

impl Default for UnlinkFlags {
    /// No flags.
    fn default() -> (r: Self)
        ensures
            r == UnlinkFlags::empty(),
    {
        UnlinkFlags::empty()
    }
}

/// Flags of `linkat`.
#[derive(Clone, Copy, Debug, PartialEq, Eq, Structural)]
pub struct LinkFlags(pub u32);

impl LinkFlags {
    /// The raw word.
    #[verifier::allow_in_spec]
    pub fn bits(self) -> u32
        returns
            self.0,
    {
        self.0
    }

    /// The bits of both.
    #[verifier::allow_in_spec]
    pub fn union(self, other: Self) -> Self
        returns
            LinkFlags(self.0 | other.0),
    {
        LinkFlags(self.0 | other.0)
    }

    /// `AT_SYMLINK_FOLLOW`.
    #[verifier::allow_in_spec]
    pub fn symlink_follow() -> Self
        returns
            LinkFlags(0x400),
    {
        LinkFlags(0x400)
    }

    /// `AT_EMPTY_PATH`.
    #[verifier::allow_in_spec]
    pub fn empty_path() -> Self
        returns
            LinkFlags(0x1000),
    {
        LinkFlags(0x1000)
    }

    /// Each name stands for the kernel's own bit, and words combine bit by bit.
    pub proof fn bits_are_the_kernels(self, other: Self)
        ensures
            self.bits() == self.0,
            self.union(other).0 == self.0 | other.0,
            LinkFlags::symlink_follow().0 == 0x400,
            LinkFlags::empty_path().0 == 0x1000,
    {
    }
}

/// Flags of `renameat2`.
#[derive(Clone, Copy, Debug, PartialEq, Eq, Structural)]
pub struct RenameFlags(pub u32);

impl RenameFlags {
    /// The raw word.
    #[verifier::allow_in_spec]
    pub fn bits(self) -> u32
        returns
            self.0,
    {
        self.0
    }

    /// The bits of both.
    #[verifier::allow_in_spec]
    pub fn union(self, other: Self) -> Self
        returns
            RenameFlags(self.0 | other.0),
    {
        RenameFlags(self.0 | other.0)
    }

    /// `RENAME_NOREPLACE`.
    #[verifier::allow_in_spec]
    pub fn noreplace() -> Self
        returns
            RenameFlags(1),
    {
        RenameFlags(1)
    }

    /// `RENAME_EXCHANGE`.
    #[verifier::allow_in_spec]
    pub fn exchange() -> Self
        returns
            RenameFlags(2),
    {
        RenameFlags(2)
    }

    /// `RENAME_WHITEOUT`.
    #[verifier::allow_in_spec]
    pub fn whiteout() -> Self
        returns
            RenameFlags(4),
    {
        RenameFlags(4)
    }

    /// Each name stands for the kernel's own bit, and words combine bit by bit.
    pub proof fn bits_are_the_kernels(self, other: Self)
        ensures
            self.bits() == self.0,
            self.union(other).0 == self.0 | other.0,
            RenameFlags::noreplace().0 == 1,
            RenameFlags::exchange().0 == 2,
            RenameFlags::whiteout().0 == 4,
    {
    }
}

/// Flags of `splice` and `tee`.
#[derive(Clone, Copy, Debug, PartialEq, Eq, Structural)]
pub struct SpliceFlags(pub u32);

impl SpliceFlags {
    /// The raw word.
    #[verifier::allow_in_spec]
    pub fn bits(self) -> u32
        returns
            self.0,
    {
        self.0
    }

    /// The bits of both.
    #[verifier::allow_in_spec]
    pub fn union(self, other: Self) -> Self
        returns
            SpliceFlags(self.0 | other.0),
    {
        SpliceFlags(self.0 | other.0)
    }

    /// `SPLICE_F_MOVE`.
    #[verifier::allow_in_spec]
    pub fn move_pages() -> Self
        returns
            SpliceFlags(1),
    {
        SpliceFlags(1)
    }

    /// `SPLICE_F_NONBLOCK`.
    #[verifier::allow_in_spec]
    pub fn nonblock() -> Self
        returns
            SpliceFlags(2),
    {
        SpliceFlags(2)
    }

    /// `SPLICE_F_MORE`.
    #[verifier::allow_in_spec]
    pub fn more() -> Self
        returns
            SpliceFlags(4),
    {
        SpliceFlags(4)
    }

    /// Each name stands for the kernel's own bit, and words combine bit by bit.
    pub proof fn bits_are_the_kernels(self, other: Self)
        ensures
            self.bits() == self.0,
            self.union(other).0 == self.0 | other.0,
            SpliceFlags::move_pages().0 == 1,
            SpliceFlags::nonblock().0 == 2,
            SpliceFlags::more().0 == 4,
    {
    }
}

/// Flags of `fsync`.
#[derive(Clone, Copy, Debug, PartialEq, Eq, Structural)]
pub struct FsyncFlags(pub u32);

impl FsyncFlags {
    /// The raw word.
    #[verifier::allow_in_spec]
    pub fn bits(self) -> u32
        returns
            self.0,
    {
        self.0
    }

    /// The bits of both.
    #[verifier::allow_in_spec]
    pub fn union(self, other: Self) -> Self
        returns
            FsyncFlags(self.0 | other.0),
    {
        FsyncFlags(self.0 | other.0)
    }

    /// `IORING_FSYNC_DATASYNC`: as `fdatasync`.
    #[verifier::allow_in_spec]
    pub fn datasync() -> Self
        returns
            FsyncFlags(1),
    {
        FsyncFlags(1)
    }

    /// Each name stands for the kernel's own bit, and words combine bit by bit.
    pub proof fn bits_are_the_kernels(self, other: Self)
        ensures
            self.bits() == self.0,
            self.union(other).0 == self.0 | other.0,
            FsyncFlags::datasync().0 == 1,
    {
    }
}

/// Modes of `fallocate`.
#[derive(Clone, Copy, Debug, PartialEq, Eq, Structural)]
pub struct FallocateMode(pub u32);

impl FallocateMode {
    /// The raw word.
    #[verifier::allow_in_spec]
    pub fn bits(self) -> u32
        returns
            self.0,
    {
        self.0
    }

    /// The bits of both.
    #[verifier::allow_in_spec]
    pub fn union(self, other: Self) -> Self
        returns
            FallocateMode(self.0 | other.0),
    {
        FallocateMode(self.0 | other.0)
    }

    /// `FALLOC_FL_KEEP_SIZE`.
    #[verifier::allow_in_spec]
    pub fn keep_size() -> Self
        returns
            FallocateMode(1),
    {
        FallocateMode(1)
    }

    /// `FALLOC_FL_PUNCH_HOLE`.
    #[verifier::allow_in_spec]
    pub fn punch_hole() -> Self
        returns
            FallocateMode(2),
    {
        FallocateMode(2)
    }

    /// Each name stands for the kernel's own bit, and words combine bit by bit.
    pub proof fn bits_are_the_kernels(self, other: Self)
        ensures
            self.bits() == self.0,
            self.union(other).0 == self.0 | other.0,
            FallocateMode::keep_size().0 == 1,
            FallocateMode::punch_hole().0 == 2,
    {
    }
}

/// Events a poll waits for.
#[derive(Clone, Copy, Debug, PartialEq, Eq, Structural)]
pub struct PollMask(pub u32);

impl PollMask {
    /// The raw word.
    #[verifier::allow_in_spec]
    pub fn bits(self) -> u32
        returns
            self.0,
    {
        self.0
    }

    /// The bits of both.
    #[verifier::allow_in_spec]
    pub fn union(self, other: Self) -> Self
        returns
            PollMask(self.0 | other.0),
    {
        PollMask(self.0 | other.0)
    }

    /// `POLLIN`.
    #[verifier::allow_in_spec]
    pub fn readable() -> Self
        returns
            PollMask(1),
    {
        PollMask(1)
    }

    /// `POLLOUT`.
    #[verifier::allow_in_spec]
    pub fn writable() -> Self
        returns
            PollMask(4),
    {
        PollMask(4)
    }

    /// `POLLERR`.
    #[verifier::allow_in_spec]
    pub fn error() -> Self
        returns
            PollMask(8),
    {
        PollMask(8)
    }

    /// `POLLHUP`.
    #[verifier::allow_in_spec]
    pub fn hang_up() -> Self
        returns
            PollMask(0x10),
    {
        PollMask(0x10)
    }

    /// Each name stands for the kernel's own bit, and words combine bit by bit.
    pub proof fn bits_are_the_kernels(self, other: Self)
        ensures
            self.bits() == self.0,
            self.union(other).0 == self.0 | other.0,
            PollMask::readable().0 == 1,
            PollMask::writable().0 == 4,
            PollMask::error().0 == 8,
            PollMask::hang_up().0 == 0x10,
    {
    }
}

/// How a cancel request picks its targets.
#[derive(Clone, Copy, Debug, PartialEq, Eq, Structural)]
pub struct CancelFlags(pub u32);

impl CancelFlags {
    /// The raw word.
    #[verifier::allow_in_spec]
    pub fn bits(self) -> u32
        returns
            self.0,
    {
        self.0
    }

    /// No flags.
    #[verifier::allow_in_spec]
    pub fn empty() -> Self
        returns
            CancelFlags(0),
    {
        CancelFlags(0)
    }

    /// Whether every bit of `other` is set.
    #[verifier::allow_in_spec]
    pub fn contains(self, other: Self) -> bool
        returns
            self.0 & other.0 == other.0,
    {
        self.0 & other.0 == other.0
    }

    /// The bits of both.
    #[verifier::allow_in_spec]
    pub fn union(self, other: Self) -> Self
        returns
            CancelFlags(self.0 | other.0),
    {
        CancelFlags(self.0 | other.0)
    }

    /// `IORING_ASYNC_CANCEL_ALL`: every match, not the first.
    #[verifier::allow_in_spec]
    pub fn all() -> Self
        returns
            CancelFlags(1),
    {
        CancelFlags(1)
    }

    /// `IORING_ASYNC_CANCEL_FD`: match by descriptor.
    #[verifier::allow_in_spec]
    pub fn fd() -> Self
        returns
            CancelFlags(2),
    {
        CancelFlags(2)
    }

    /// `IORING_ASYNC_CANCEL_ANY`: match anything.
    #[verifier::allow_in_spec]
    pub fn any() -> Self
        returns
            CancelFlags(4),
    {
        CancelFlags(4)
    }

    /// `IORING_ASYNC_CANCEL_FD_FIXED`: the descriptor is a table index.
    #[verifier::allow_in_spec]
    pub fn fd_fixed() -> Self
        returns
            CancelFlags(8),
    {
        CancelFlags(8)
    }

    /// `IORING_ASYNC_CANCEL_OP`: match by opcode.
    #[verifier::allow_in_spec]
    pub fn op() -> Self
        returns
            CancelFlags(0x20),
    {
        CancelFlags(0x20)
    }

    /// Each name stands for the kernel's own bit, and words combine bit by bit.
    pub proof fn bits_are_the_kernels(self, other: Self)
        ensures
            self.bits() == self.0,
            CancelFlags::empty().0 == 0,
            self.contains(other) <==> self.0 & other.0 == other.0,
            self.union(other).0 == self.0 | other.0,
            CancelFlags::all().0 == 1,
            CancelFlags::fd().0 == 2,
            CancelFlags::any().0 == 4,
            CancelFlags::fd_fixed().0 == 8,
            CancelFlags::op().0 == 0x20,
    {
    }
}

/// Flags of the send and receive family.
#[derive(Clone, Copy, Debug, PartialEq, Eq, Structural)]
pub struct MsgFlags(pub u32);

impl MsgFlags {
    /// The raw word.
    #[verifier::allow_in_spec]
    pub fn bits(self) -> u32
        returns
            self.0,
    {
        self.0
    }

    /// No flags.
    #[verifier::allow_in_spec]
    pub fn empty() -> Self
        returns
            MsgFlags(0),
    {
        MsgFlags(0)
    }

    /// The bits of both.
    #[verifier::allow_in_spec]
    pub fn union(self, other: Self) -> Self
        returns
            MsgFlags(self.0 | other.0),
    {
        MsgFlags(self.0 | other.0)
    }

    /// `MSG_PEEK`.
    #[verifier::allow_in_spec]
    pub fn peek() -> Self
        returns
            MsgFlags(2),
    {
        MsgFlags(2)
    }

    /// `MSG_DONTWAIT`.
    #[verifier::allow_in_spec]
    pub fn dontwait() -> Self
        returns
            MsgFlags(0x40),
    {
        MsgFlags(0x40)
    }

    /// `MSG_WAITALL`.
    #[verifier::allow_in_spec]
    pub fn waitall() -> Self
        returns
            MsgFlags(0x100),
    {
        MsgFlags(0x100)
    }

    /// `MSG_NOSIGNAL`.
    #[verifier::allow_in_spec]
    pub fn nosignal() -> Self
        returns
            MsgFlags(0x4000),
    {
        MsgFlags(0x4000)
    }

    /// Each name stands for the kernel's own bit, and words combine bit by bit.
    pub proof fn bits_are_the_kernels(self, other: Self)
        ensures
            self.bits() == self.0,
            MsgFlags::empty().0 == 0,
            self.union(other).0 == self.0 | other.0,
            MsgFlags::peek().0 == 2,
            MsgFlags::dontwait().0 == 0x40,
            MsgFlags::waitall().0 == 0x100,
            MsgFlags::nosignal().0 == 0x4000,
    {
    }
}

impl Default for MsgFlags {
    /// No flags.
    fn default() -> (r: Self)
        ensures
            r == MsgFlags::empty(),
    {
        MsgFlags::empty()
    }
}

/// Flags the kernel reports for a received message.
#[derive(Clone, Copy, Debug, PartialEq, Eq, Structural)]
pub struct MsgOutFlags(pub u32);

impl MsgOutFlags {
    /// The raw word.
    #[verifier::allow_in_spec]
    pub fn bits(self) -> u32
        returns
            self.0,
    {
        self.0
    }

    /// Whether every bit of `other` is set.
    #[verifier::allow_in_spec]
    pub fn contains(self, other: Self) -> bool
        returns
            self.0 & other.0 == other.0,
    {
        self.0 & other.0 == other.0
    }

    /// The bits of both.
    #[verifier::allow_in_spec]
    pub fn union(self, other: Self) -> Self
        returns
            MsgOutFlags(self.0 | other.0),
    {
        MsgOutFlags(self.0 | other.0)
    }

    /// `MSG_TRUNC`: the message did not fit.
    #[verifier::allow_in_spec]
    pub fn trunc() -> Self
        returns
            MsgOutFlags(0x20),
    {
        MsgOutFlags(0x20)
    }

    /// `MSG_CTRUNC`: control data did not fit.
    #[verifier::allow_in_spec]
    pub fn ctrunc() -> Self
        returns
            MsgOutFlags(8),
    {
        MsgOutFlags(8)
    }

    /// Each name stands for the kernel's own bit, and words combine bit by bit.
    pub proof fn bits_are_the_kernels(self, other: Self)
        ensures
            self.bits() == self.0,
            self.contains(other) <==> self.0 & other.0 == other.0,
            self.union(other).0 == self.0 | other.0,
            MsgOutFlags::trunc().0 == 0x20,
            MsgOutFlags::ctrunc().0 == 8,
    {
    }
}

/// Flags of a message to another ring.
#[derive(Clone, Copy, Debug, PartialEq, Eq, Structural)]
pub struct MsgRingFlags(pub u32);

impl MsgRingFlags {
    /// The raw word.
    #[verifier::allow_in_spec]
    pub fn bits(self) -> u32
        returns
            self.0,
    {
        self.0
    }

    /// No flags.
    #[verifier::allow_in_spec]
    pub fn empty() -> Self
        returns
            MsgRingFlags(0),
    {
        MsgRingFlags(0)
    }

    /// The bits of both.
    #[verifier::allow_in_spec]
    pub fn union(self, other: Self) -> Self
        returns
            MsgRingFlags(self.0 | other.0),
    {
        MsgRingFlags(self.0 | other.0)
    }

    /// `IORING_MSG_RING_CQE_SKIP`: post nothing on the target.
    #[verifier::allow_in_spec]
    pub fn cqe_skip() -> Self
        returns
            MsgRingFlags(1),
    {
        MsgRingFlags(1)
    }

    /// `IORING_MSG_RING_FLAGS_PASS`: pass completion flags along.
    #[verifier::allow_in_spec]
    pub fn flags_pass() -> Self
        returns
            MsgRingFlags(2),
    {
        MsgRingFlags(2)
    }

    /// Each name stands for the kernel's own bit, and words combine bit by bit.
    pub proof fn bits_are_the_kernels(self, other: Self)
        ensures
            self.bits() == self.0,
            MsgRingFlags::empty().0 == 0,
            self.union(other).0 == self.0 | other.0,
            MsgRingFlags::cqe_skip().0 == 1,
            MsgRingFlags::flags_pass().0 == 2,
    {
    }
}

/// Flags an accepted socket is given.
#[derive(Clone, Copy, Debug, PartialEq, Eq, Structural)]
pub struct AcceptFlags(pub u32);

impl AcceptFlags {
    /// The raw word.
    #[verifier::allow_in_spec]
    pub fn bits(self) -> u32
        returns
            self.0,
    {
        self.0
    }

    /// No flags.
    #[verifier::allow_in_spec]
    pub fn empty() -> Self
        returns
            AcceptFlags(0),
    {
        AcceptFlags(0)
    }

    /// The bits of both.
    #[verifier::allow_in_spec]
    pub fn union(self, other: Self) -> Self
        returns
            AcceptFlags(self.0 | other.0),
    {
        AcceptFlags(self.0 | other.0)
    }

    /// `SOCK_NONBLOCK`.
    #[verifier::allow_in_spec]
    pub fn nonblock() -> Self
        returns
            AcceptFlags(0x800),
    {
        AcceptFlags(0x800)
    }

    /// `SOCK_CLOEXEC`.
    #[verifier::allow_in_spec]
    pub fn cloexec() -> Self
        returns
            AcceptFlags(0x80000),
    {
        AcceptFlags(0x80000)
    }

    /// Each name stands for the kernel's own bit, and words combine bit by bit.
    pub proof fn bits_are_the_kernels(self, other: Self)
        ensures
            self.bits() == self.0,
            AcceptFlags::empty().0 == 0,
            self.union(other).0 == self.0 | other.0,
            AcceptFlags::nonblock().0 == 0x800,
            AcceptFlags::cloexec().0 == 0x80000,
    {
    }
}

/// Flags a new socket is given.
#[derive(Clone, Copy, Debug, PartialEq, Eq, Structural)]
pub struct SocketFlags(pub u32);

impl SocketFlags {
    /// The raw word.
    #[verifier::allow_in_spec]
    pub fn bits(self) -> u32
        returns
            self.0,
    {
        self.0
    }

    /// No flags.
    #[verifier::allow_in_spec]
    pub fn empty() -> Self
        returns
            SocketFlags(0),
    {
        SocketFlags(0)
    }

    /// Whether every bit of `other` is set.
    #[verifier::allow_in_spec]
    pub fn contains(self, other: Self) -> bool
        returns
            self.0 & other.0 == other.0,
    {
        self.0 & other.0 == other.0
    }

    /// The bits of both.
    #[verifier::allow_in_spec]
    pub fn union(self, other: Self) -> Self
        returns
            SocketFlags(self.0 | other.0),
    {
        SocketFlags(self.0 | other.0)
    }

    /// `SOCK_NONBLOCK`.
    #[verifier::allow_in_spec]
    pub fn nonblock() -> Self
        returns
            SocketFlags(0x800),
    {
        SocketFlags(0x800)
    }

    /// `SOCK_CLOEXEC`.
    #[verifier::allow_in_spec]
    pub fn cloexec() -> Self
        returns
            SocketFlags(0x80000),
    {
        SocketFlags(0x80000)
    }

    /// Each name stands for the kernel's own bit, and words combine bit by bit.
    pub proof fn bits_are_the_kernels(self, other: Self)
        ensures
            self.bits() == self.0,
            SocketFlags::empty().0 == 0,
            self.contains(other) <==> self.0 & other.0 == other.0,
            self.union(other).0 == self.0 | other.0,
            SocketFlags::nonblock().0 == 0x800,
            SocketFlags::cloexec().0 == 0x80000,
    {
    }
}

/// Flags of a timeout.
#[derive(Clone, Copy, Debug, PartialEq, Eq, Structural)]
pub struct TimeoutFlags(pub u32);

impl TimeoutFlags {
    /// The raw word.
    #[verifier::allow_in_spec]
    pub fn bits(self) -> u32
        returns
            self.0,
    {
        self.0
    }

    /// The bits of both.
    #[verifier::allow_in_spec]
    pub fn union(self, other: Self) -> Self
        returns
            TimeoutFlags(self.0 | other.0),
    {
        TimeoutFlags(self.0 | other.0)
    }

    /// `IORING_TIMEOUT_ABS`: the time is a point, not a span.
    #[verifier::allow_in_spec]
    pub fn abs() -> Self
        returns
            TimeoutFlags(1),
    {
        TimeoutFlags(1)
    }

    /// Each name stands for the kernel's own bit, and words combine bit by bit.
    pub proof fn bits_are_the_kernels(self, other: Self)
        ensures
            self.bits() == self.0,
            self.union(other).0 == self.0 | other.0,
            TimeoutFlags::abs().0 == 1,
    {
    }
}

/// Flags of `statx`.
#[derive(Clone, Copy, Debug, PartialEq, Eq, Structural)]
pub struct StatxFlags(pub u32);

impl StatxFlags {
    /// The raw word.
    #[verifier::allow_in_spec]
    pub fn bits(self) -> u32
        returns
            self.0,
    {
        self.0
    }

    /// No flags.
    #[verifier::allow_in_spec]
    pub fn empty() -> Self
        returns
            StatxFlags(0),
    {
        StatxFlags(0)
    }

    /// The bits of both.
    #[verifier::allow_in_spec]
    pub fn union(self, other: Self) -> Self
        returns
            StatxFlags(self.0 | other.0),
    {
        StatxFlags(self.0 | other.0)
    }

    /// `AT_SYMLINK_NOFOLLOW`.
    #[verifier::allow_in_spec]
    pub fn symlink_nofollow() -> Self
        returns
            StatxFlags(0x100),
    {
        StatxFlags(0x100)
    }

    /// `AT_EMPTY_PATH`.
    #[verifier::allow_in_spec]
    pub fn empty_path() -> Self
        returns
            StatxFlags(0x1000),
    {
        StatxFlags(0x1000)
    }

    /// Each name stands for the kernel's own bit, and words combine bit by bit.
    pub proof fn bits_are_the_kernels(self, other: Self)
        ensures
            self.bits() == self.0,
            StatxFlags::empty().0 == 0,
            self.union(other).0 == self.0 | other.0,
            StatxFlags::symlink_nofollow().0 == 0x100,
            StatxFlags::empty_path().0 == 0x1000,
    {
    }
}

impl Default for StatxFlags {
    /// No flags.
    fn default() -> (r: Self)
        ensures
            r == StatxFlags::empty(),
    {
        StatxFlags::empty()
    }
}

/// Fields of a `statx` result.
#[derive(Clone, Copy, Debug, PartialEq, Eq, Structural)]
pub struct StatxMask(pub u32);

impl StatxMask {
    /// The raw word.
    #[verifier::allow_in_spec]
    pub fn bits(self) -> u32
        returns
            self.0,
    {
        self.0
    }

    /// The bits of both.
    #[verifier::allow_in_spec]
    pub fn union(self, other: Self) -> Self
        returns
            StatxMask(self.0 | other.0),
    {
        StatxMask(self.0 | other.0)
    }

    /// `STATX_NLINK`.
    #[verifier::allow_in_spec]
    pub fn nlink() -> Self
        returns
            StatxMask(4),
    {
        StatxMask(4)
    }

    /// `STATX_INO`.
    #[verifier::allow_in_spec]
    pub fn ino() -> Self
        returns
            StatxMask(0x100),
    {
        StatxMask(0x100)
    }

    /// `STATX_SIZE`.
    #[verifier::allow_in_spec]
    pub fn size() -> Self
        returns
            StatxMask(0x200),
    {
        StatxMask(0x200)
    }

    /// `STATX_BASIC_STATS`.
    #[verifier::allow_in_spec]
    pub fn basic_stats() -> Self
        returns
            StatxMask(0x7ff),
    {
        StatxMask(0x7ff)
    }

    /// Each name stands for the kernel's own bit, and words combine bit by bit.
    pub proof fn bits_are_the_kernels(self, other: Self)
        ensures
            self.bits() == self.0,
            self.union(other).0 == self.0 | other.0,
            StatxMask::nlink().0 == 4,
            StatxMask::ino().0 == 0x100,
            StatxMask::size().0 == 0x200,
            StatxMask::basic_stats().0 == 0x7ff,
    {
    }
}

/// Flags of a futex word.
#[derive(Clone, Copy, Debug, PartialEq, Eq, Structural)]
pub struct Futex2Flags(pub u32);

impl Futex2Flags {
    /// The raw word.
    #[verifier::allow_in_spec]
    pub fn bits(self) -> u32
        returns
            self.0,
    {
        self.0
    }

    /// The bits of both.
    #[verifier::allow_in_spec]
    pub fn union(self, other: Self) -> Self
        returns
            Futex2Flags(self.0 | other.0),
    {
        Futex2Flags(self.0 | other.0)
    }

    /// `FUTEX2_SIZE_U32`.
    #[verifier::allow_in_spec]
    pub fn size_u32() -> Self
        returns
            Futex2Flags(2),
    {
        Futex2Flags(2)
    }

    /// `FUTEX2_PRIVATE`.
    #[verifier::allow_in_spec]
    pub fn private() -> Self
        returns
            Futex2Flags(0x80),
    {
        Futex2Flags(0x80)
    }

    /// Each name stands for the kernel's own bit, and words combine bit by bit.
    pub proof fn bits_are_the_kernels(self, other: Self)
        ensures
            self.bits() == self.0,
            self.union(other).0 == self.0 | other.0,
            Futex2Flags::size_u32().0 == 2,
            Futex2Flags::private().0 == 0x80,
    {
    }
}

/// State changes `waitid` reports.
#[derive(Clone, Copy, Debug, PartialEq, Eq, Structural)]
pub struct WaitOptions(pub u32);

impl WaitOptions {
    /// The raw word.
    #[verifier::allow_in_spec]
    pub fn bits(self) -> u32
        returns
            self.0,
    {
        self.0
    }

    /// The bits of both.
    #[verifier::allow_in_spec]
    pub fn union(self, other: Self) -> Self
        returns
            WaitOptions(self.0 | other.0),
    {
        WaitOptions(self.0 | other.0)
    }

    /// `WNOHANG`.
    #[verifier::allow_in_spec]
    pub fn nohang() -> Self
        returns
            WaitOptions(1),
    {
        WaitOptions(1)
    }

    /// `WUNTRACED`.
    #[verifier::allow_in_spec]
    pub fn untraced() -> Self
        returns
            WaitOptions(2),
    {
        WaitOptions(2)
    }

    /// `WEXITED`.
    #[verifier::allow_in_spec]
    pub fn exited() -> Self
        returns
            WaitOptions(4),
    {
        WaitOptions(4)
    }

    /// `WCONTINUED`.
    #[verifier::allow_in_spec]
    pub fn continued() -> Self
        returns
            WaitOptions(8),
    {
        WaitOptions(8)
    }

    /// `WNOWAIT`.
    #[verifier::allow_in_spec]
    pub fn nowait() -> Self
        returns
            WaitOptions(0x1000000),
    {
        WaitOptions(0x1000000)
    }

    /// Each name stands for the kernel's own bit, and words combine bit by bit.
    pub proof fn bits_are_the_kernels(self, other: Self)
        ensures
            self.bits() == self.0,
            self.union(other).0 == self.0 | other.0,
            WaitOptions::nohang().0 == 1,
            WaitOptions::untraced().0 == 2,
            WaitOptions::exited().0 == 4,
            WaitOptions::continued().0 == 8,
            WaitOptions::nowait().0 == 0x1000000,
    {
    }
}

/// Events an epoll set watches for.
#[derive(Clone, Copy, Debug, PartialEq, Eq, Structural)]
pub struct EpollEvents(pub u32);

impl EpollEvents {
    /// The raw word.
    #[verifier::allow_in_spec]
    pub fn bits(self) -> u32
        returns
            self.0,
    {
        self.0
    }

    /// The bits of both.
    #[verifier::allow_in_spec]
    pub fn union(self, other: Self) -> Self
        returns
            EpollEvents(self.0 | other.0),
    {
        EpollEvents(self.0 | other.0)
    }

    /// `EPOLLIN`.
    #[verifier::allow_in_spec]
    pub fn readable() -> Self
        returns
            EpollEvents(1),
    {
        EpollEvents(1)
    }

    /// `EPOLLOUT`.
    #[verifier::allow_in_spec]
    pub fn writable() -> Self
        returns
            EpollEvents(4),
    {
        EpollEvents(4)
    }

    /// `EPOLLERR`.
    #[verifier::allow_in_spec]
    pub fn error() -> Self
        returns
            EpollEvents(8),
    {
        EpollEvents(8)
    }

    /// `EPOLLHUP`.
    #[verifier::allow_in_spec]
    pub fn hang_up() -> Self
        returns
            EpollEvents(0x10),
    {
        EpollEvents(0x10)
    }

    /// Each name stands for the kernel's own bit, and words combine bit by bit.
    pub proof fn bits_are_the_kernels(self, other: Self)
        ensures
            self.bits() == self.0,
            self.union(other).0 == self.0 | other.0,
            EpollEvents::readable().0 == 1,
            EpollEvents::writable().0 == 4,
            EpollEvents::error().0 == 8,
            EpollEvents::hang_up().0 == 0x10,
    {
    }
}

/// Flags of an eventfd.
#[derive(Clone, Copy, Debug, PartialEq, Eq, Structural)]
pub struct EventFdFlags(pub u32);

impl EventFdFlags {
    /// The raw word.
    #[verifier::allow_in_spec]
    pub fn bits(self) -> u32
        returns
            self.0,
    {
        self.0
    }

    /// The bits of both.
    #[verifier::allow_in_spec]
    pub fn union(self, other: Self) -> Self
        returns
            EventFdFlags(self.0 | other.0),
    {
        EventFdFlags(self.0 | other.0)
    }

    /// `EFD_SEMAPHORE`: reads take one at a time.
    #[verifier::allow_in_spec]
    pub fn semaphore() -> Self
        returns
            EventFdFlags(1),
    {
        EventFdFlags(1)
    }

    /// `EFD_NONBLOCK`.
    #[verifier::allow_in_spec]
    pub fn nonblock() -> Self
        returns
            EventFdFlags(0x800),
    {
        EventFdFlags(0x800)
    }

    /// `EFD_CLOEXEC`.
    #[verifier::allow_in_spec]
    pub fn cloexec() -> Self
        returns
            EventFdFlags(0x80000),
    {
        EventFdFlags(0x80000)
    }

    /// Each name stands for the kernel's own bit, and words combine bit by bit.
    pub proof fn bits_are_the_kernels(self, other: Self)
        ensures
            self.bits() == self.0,
            self.union(other).0 == self.0 | other.0,
            EventFdFlags::semaphore().0 == 1,
            EventFdFlags::nonblock().0 == 0x800,
            EventFdFlags::cloexec().0 == 0x80000,
    {
    }
}

/// Flags of an inotify instance.
#[derive(Clone, Copy, Debug, PartialEq, Eq, Structural)]
pub struct InotifyInitFlags(pub u32);

impl InotifyInitFlags {
    /// The raw word.
    #[verifier::allow_in_spec]
    pub fn bits(self) -> u32
        returns
            self.0,
    {
        self.0
    }

    /// The bits of both.
    #[verifier::allow_in_spec]
    pub fn union(self, other: Self) -> Self
        returns
            InotifyInitFlags(self.0 | other.0),
    {
        InotifyInitFlags(self.0 | other.0)
    }

    /// `IN_NONBLOCK`.
    #[verifier::allow_in_spec]
    pub fn nonblock() -> Self
        returns
            InotifyInitFlags(0x800),
    {
        InotifyInitFlags(0x800)
    }

    /// `IN_CLOEXEC`.
    #[verifier::allow_in_spec]
    pub fn cloexec() -> Self
        returns
            InotifyInitFlags(0x80000),
    {
        InotifyInitFlags(0x80000)
    }

    /// Each name stands for the kernel's own bit, and words combine bit by bit.
    pub proof fn bits_are_the_kernels(self, other: Self)
        ensures
            self.bits() == self.0,
            self.union(other).0 == self.0 | other.0,
            InotifyInitFlags::nonblock().0 == 0x800,
            InotifyInitFlags::cloexec().0 == 0x80000,
    {
    }
}

/// Events an inotify watch reports.
#[derive(Clone, Copy, Debug, PartialEq, Eq, Structural)]
pub struct WatchMask(pub u32);

impl WatchMask {
    /// The raw word.
    #[verifier::allow_in_spec]
    pub fn bits(self) -> u32
        returns
            self.0,
    {
        self.0
    }

    /// The bits of both.
    #[verifier::allow_in_spec]
    pub fn union(self, other: Self) -> Self
        returns
            WatchMask(self.0 | other.0),
    {
        WatchMask(self.0 | other.0)
    }

    /// `IN_ACCESS`.
    #[verifier::allow_in_spec]
    pub fn access() -> Self
        returns
            WatchMask(1),
    {
        WatchMask(1)
    }

    /// `IN_MODIFY`.
    #[verifier::allow_in_spec]
    pub fn modify() -> Self
        returns
            WatchMask(2),
    {
        WatchMask(2)
    }

    /// `IN_CREATE`.
    #[verifier::allow_in_spec]
    pub fn create() -> Self
        returns
            WatchMask(0x100),
    {
        WatchMask(0x100)
    }

    /// `IN_DELETE`.
    #[verifier::allow_in_spec]
    pub fn delete() -> Self
        returns
            WatchMask(0x200),
    {
        WatchMask(0x200)
    }

    /// Each name stands for the kernel's own bit, and words combine bit by bit.
    pub proof fn bits_are_the_kernels(self, other: Self)
        ensures
            self.bits() == self.0,
            self.union(other).0 == self.0 | other.0,
            WatchMask::access().0 == 1,
            WatchMask::modify().0 == 2,
            WatchMask::create().0 == 0x100,
            WatchMask::delete().0 == 0x200,
    {
    }
}

/// Flags of a new pipe.
#[derive(Clone, Copy, Debug, PartialEq, Eq, Structural)]
pub struct PipeFlags(pub u32);

impl PipeFlags {
    /// The raw word.
    #[verifier::allow_in_spec]
    pub fn bits(self) -> u32
        returns
            self.0,
    {
        self.0
    }

    /// The bits of both.
    #[verifier::allow_in_spec]
    pub fn union(self, other: Self) -> Self
        returns
            PipeFlags(self.0 | other.0),
    {
        PipeFlags(self.0 | other.0)
    }

    /// `O_NONBLOCK`.
    #[verifier::allow_in_spec]
    pub fn nonblock() -> Self
        returns
            PipeFlags(0x800),
    {
        PipeFlags(0x800)
    }

    /// `O_DIRECT`: packet mode.
    #[verifier::allow_in_spec]
    pub fn direct() -> Self
        returns
            PipeFlags(0x4000),
    {
        PipeFlags(0x4000)
    }

    /// `O_CLOEXEC`.
    #[verifier::allow_in_spec]
    pub fn cloexec() -> Self
        returns
            PipeFlags(0x80000),
    {
        PipeFlags(0x80000)
    }

    /// Each name stands for the kernel's own bit, and words combine bit by bit.
    pub proof fn bits_are_the_kernels(self, other: Self)
        ensures
            self.bits() == self.0,
            self.union(other).0 == self.0 | other.0,
            PipeFlags::nonblock().0 == 0x800,
            PipeFlags::direct().0 == 0x4000,
            PipeFlags::cloexec().0 == 0x80000,
    {
    }
}

/// Flags of installing a table slot as a descriptor.
#[derive(Clone, Copy, Debug, PartialEq, Eq, Structural)]
pub struct InstallFdFlags(pub u32);

impl InstallFdFlags {
    /// The raw word.
    #[verifier::allow_in_spec]
    pub fn bits(self) -> u32
        returns
            self.0,
    {
        self.0
    }

    /// The bits of both.
    #[verifier::allow_in_spec]
    pub fn union(self, other: Self) -> Self
        returns
            InstallFdFlags(self.0 | other.0),
    {
        InstallFdFlags(self.0 | other.0)
    }

    /// `IORING_FIXED_FD_NO_CLOEXEC`.
    #[verifier::allow_in_spec]
    pub fn no_cloexec() -> Self
        returns
            InstallFdFlags(1),
    {
        InstallFdFlags(1)
    }

    /// Each name stands for the kernel's own bit, and words combine bit by bit.
    pub proof fn bits_are_the_kernels(self, other: Self)
        ensures
            self.bits() == self.0,
            self.union(other).0 == self.0 | other.0,
            InstallFdFlags::no_cloexec().0 == 1,
    {
    }
}

/// A pool buffer identifier survives being packed into completion flags.
///
/// Whatever other low flags are set along with the buffer flag, the
/// identifier that was packed into the upper half is the one read back.
pub proof fn buffer_id_round_trips(id: u16, low: u16)
    requires
        low & 1 == 1,
    ensures
        CqeFlags((id as u32) << 16u32 | low as u32).buffer_id() == Some(id),
{
    let word = (id as u32) << 16u32 | low as u32;
    assert(word & 1 == 1) by (bit_vector)
        requires
            low & 1 == 1,
            word == (id as u32) << 16u32 | low as u32,
    ;
    assert((word >> 16u32) as u16 == id) by (bit_vector)
        requires
            word == (id as u32) << 16u32 | low as u32,
    ;
}

} // verus!
