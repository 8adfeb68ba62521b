//! `io_uring` as values: verified submission entries, owned requests and their lifecycles.
//!
//! The library decides what is handed to the kernel and what the kernel's answers mean. It
//! performs no system call itself. A call is a [`syscall::SystemCall`] value, its outcome is an
//! argument, and shared memory is reached through [`owned::StableBuffer`] and
//! [`owned::StableBufferMut`], which name an address, a length and the bytes behind them.
//!
//! - [`op`] builds submission entries. Each constructor's contract gives the entry it returns,
//!   field by field.
//! - [`owned`] ties an entry to the memory that the kernel reads or writes through it, and gives
//!   that memory back only for a completion of that very request on that very ring.
//! - [`ring`] and [`owned::queue`] queue entries and hand out completions in order.
//! - [`pool`] lends buffers to the kernel by number and takes them back.
//! - [`eventfd`], [`inotify`], [`net`] and [`fs`] own descriptors and phrase plain system calls.
//! - [`types`] holds the kernel's structures, codes and flag sets.
//! - [`bytes`] and [`text`] encode integers as little-endian bytes and as numerals.

pub mod bytes;
mod error;
pub mod eventfd;
pub mod fs;
pub mod inotify;
pub mod net;
pub mod op;
pub mod owned;
pub mod pool;
pub mod ring;
pub mod syscall;
pub mod text;
pub mod types;

pub use error::{CompletionError, Errno, Error, InvalidArgKind, SetupError, SubmitError};
pub use eventfd::EventFd;
pub use inotify::Inotify;
pub use net::Socket;
pub use op::{IoUringSqe, Sqe};
pub use owned::{MmapBuffer, OwnedCompleter, OwnedSubmitter, Pending, Prepared};
pub use pool::BufferConsumer;
pub use ring::{Completer, Completion, IoUring, Submitter};
pub use types::{
    AcceptFlags, AddressFamily, CqeFlags, DirFd, EpollEvent, EpollEvents, EpollOp, EventFdFlags,
    FadviseAdvice, FallocateMode, FileMode, FsyncFlags, InotifyInitFlags, IoVec, MadviseAdvice,
    MsgFlags, OpenFlags, OpenHow, PollMask, RawFd, RenameFlags, SendRecvFlag, ShutdownHow,
    SocketFlags, SocketType, SpliceFlags, SqeFlags, StatxFlags, StatxMask, TimeoutFlags,
    Timespec, UnlinkFlags, WatchMask,
};
