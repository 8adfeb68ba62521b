//! The kernel's own vocabulary: layouts, numbers and flag sets.
//!
//! Flag sets are transparent wrappers around the kernel's integers, one method per bit. The
//! structures the kernel reads or writes implement [`Abi`], which fixes their size, their
//! alignment and the bytes of every value, and proves that decoding inverts encoding. The
//! layouts are those of x86_64.

pub mod abi;
pub mod codes;
pub mod fd;
pub mod flags;
pub mod open;
pub mod outcome;

pub use abi::{
    Abi, EpollEvent, FUTEX_WAITV_MAX, FutexWaitv, IoVec, MsgHdr, OpenHow, Placed, SockAddrIn,
    Statx, Timespec,
};
pub use codes::{
    AddressFamily, EpollOp, FadviseAdvice, IORING_ACCEPT_MULTISHOT, IORING_RECVSEND_FIXED_BUF,
    IORING_RECVSEND_POLL_FIRST, IORING_RECV_MULTISHOT, IORING_SEND_ZC_REPORT_USAGE, IdType,
    MadviseAdvice, Opcode, SendRecvFlag, ShutdownHow, SocketType, SocketUringCmdOp,
};
pub use fd::{DirFd, RawFd};
pub use flags::{
    AcceptFlags, CancelFlags, CqeFlags, EpollEvents, EventFdFlags, FallocateMode, FileMode,
    FsyncFlags, Futex2Flags, InotifyInitFlags, InstallFdFlags, LinkFlags, MsgFlags, MsgOutFlags,
    MsgRingFlags, PipeFlags, PollMask, RenameFlags, SocketFlags, SpliceFlags, SqeFlags,
    StatxFlags, StatxMask, TimeoutFlags, UnlinkFlags, WaitOptions, WatchMask,
};
pub use open::{OPEN_FLAG_BITS, OpenFlags, RESOLVE_FLAG_BITS, ResolveFlags};
pub use outcome::CancelOutcome;
