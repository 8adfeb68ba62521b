//! Requests that own the memory they hand to the kernel.
//!
//! A submission entry is a bare value: it carries addresses, and the kernel reads or writes
//! them long after the entry was built. The types here move the memory itself into the request,
//! so that whoever holds the request also holds the memory, and nobody else can reach it while
//! the kernel might.
//!
//! # States
//!
//! | State | Owns the memory | Memory reachable |
//! |---|---|---|
//! | prepared ([`Prepared`] and its kin) | yes | yes, the kernel has not seen it |
//! | pending ([`Pending`] and its kin) | yes | no, the kernel may be using it |
//! | completed ([`Completed`] and its kin) | yes | yes, the kernel is done |
//!
//! [`OwnedSubmitter`] turns a prepared request into a pending one and queues its entry.
//! [`OwnedCompleter`] turns the completions of its ring into receipts. `redeem` turns a pending
//! request and a receipt into a completed request.
//!
//! # Redemption
//!
//! A [`Receipt`] names the ring and the request that it came from. `redeem` compares both with
//! its own and hands the pending request back untouched where either differs, so the memory of
//! a live request is never released by the completion of another.
//! A ring issues each request number once, and each pair of queue halves gets a ring number of
//! its own; [`identity`] proves both.
//!
//! # Requests with several completions
//!
//! The kernel's `MORE` flag says whether another completion will follow. A completion that
//! carries it becomes a [`PartialReceipt`], which releases nothing; one without it becomes a
//! [`Receipt`]. [`Event`] is that distinction, and [`zerocopy`], [`accept`], [`direct_accept`],
//! [`multishot`] and [`readmultishot`] are built on it.
//!
//! # Abandonment
//!
//! Dropping a pending request leaks its memory on purpose: the kernel may still write there.

pub mod accept;
pub mod array;
pub mod bind;
pub mod buffer;
pub mod cancel;
pub mod connect;
pub mod direct;
pub mod direct_accept;
pub mod direct_socket;
pub mod epoll;
pub mod epollwait;
pub mod event;
pub mod filesupdate;
pub mod fixedfdinstall;
pub mod futex;
pub mod futexwaitv;
pub mod identity;
pub mod lifecycle;
pub mod link;
pub mod message;
pub mod msgregion;
pub mod msgring;
pub mod multishot;
pub mod open;
pub mod openat2;
pub mod path;
pub mod pathop;
pub mod pipe;
pub mod queue;
pub mod readmultishot;
pub mod recvmsg;
pub mod rename;
pub mod request;
pub mod sendmsg;
pub mod slot;
pub mod staged;
pub mod statx;
pub mod timeout;
pub mod vectored;
pub mod zerocopy;

pub use accept::{AcceptFinished, AcceptRequest, Incoming, MultishotAccept, PreparedAccept};
pub use array::StagedArray;
pub use bind::{BindDone, BindError, BindOutcome, BindRequest, PendingBind, PreparedBind};
pub use buffer::{MmapBuffer, StableBuffer, StableBufferMut};
pub use cancel::{CancelDone, CancelRequest, CancelTarget, PendingCancel, PreparedCancel};
pub use connect::{
    ConnectDone, ConnectError, ConnectOutcome, ConnectRequest, PendingConnect, PreparedConnect,
};
pub use direct::{
    DirectOpenError, DirectOpenRequest, DirectOpened, FilledSlot, PendingDirectOpen,
    PreparedDirectOpen,
};
pub use direct_accept::{
    DirectAccept, DirectAcceptFinished, DirectAcceptRequest, DirectIncoming,
    PreparedDirectAccept,
};
pub use direct_socket::{
    DirectSocketCreated, DirectSocketError, DirectSocketRequest, PendingDirectSocket,
    PreparedDirectSocket,
};
pub use epoll::{
    EpollChange, EpollCtlDone, EpollCtlRequest, EpollError, EpollOutcome, PendingEpollCtl,
    PreparedEpollCtl,
};
pub use epollwait::{
    EpollWaitCompleted, EpollWaitError, EpollWaitRequest, PendingEpollWait, PreparedEpollWait,
};
pub use event::{Event, PartialReceipt};
pub use filesupdate::{
    FilesUpdateError, FilesUpdateRequest, FilesUpdated, PendingFilesUpdate, PreparedFilesUpdate,
    TableEntry, Update,
};
pub use fixedfdinstall::{
    FixedFdInstalled, InstallRequest, PendingFixedFdInstall, PreparedFixedFdInstall,
};
pub use futex::{
    FutexWaitDone, FutexWaitOutcome, FutexWaitRequest, FutexWakeDone, FutexWakeRequest,
    PendingFutexWait, PendingFutexWake, PreparedFutexWait, PreparedFutexWake,
};
pub use futexwaitv::{
    FutexWaitvDone, FutexWaitvError, FutexWaitvRequest, PendingFutexWaitv, PreparedFutexWaitv,
};
pub use identity::{RequestId, RequestIdSource, RingId, RingIdSource};
pub use lifecycle::{Done, Ticket};
pub use link::{LinkCompleted, LinkKind, LinkRequest, PendingLink, PreparedLink};
pub use message::Message;
pub use msgregion::{MsgRegion, MsgRegionError};
pub use msgring::{MsgRingDone, MsgRingRequest, PendingMsgRing, PreparedMsgRing};
pub use multishot::{
    Armed, Arrival, Delivery, Finished, MultishotRecv, MultishotRequest, PreparedMultishot,
};
pub use open::{OpenRequest, Opened, OpenedFile, PendingOpen, PreparedOpen};
pub use openat2::{
    Openat2Error, Openat2Mode, Openat2Request, Opened2, PendingOpenat2, PreparedOpenat2,
};
pub use path::{OwnedPath, PathError};
pub use pathop::{PathOpCompleted, PathOpKind, PathRequest, PendingPathOp, PreparedPathOp};
pub use pipe::{PendingPipe, PipeCreated, PipeError, PipeRequest, PreparedPipe};
pub use queue::{OwnedCompleter, OwnedSubmitter};
pub use readmultishot::{MultishotRead, PreparedReadMultishot, ReadMultishotRequest};
pub use recvmsg::{
    Peer, PeerWanted, PendingRecvmsg, PreparedRecvmsg, Received, RecvmsgCompleted,
    RecvmsgRequest, RecvmsgResult,
};
pub use rename::{PendingRename, PreparedRename, RenameCompleted, RenameMode, RenameRequest};
pub use request::{Completed, Direction, Pending, Prepared, Receipt, Transfer};
pub use sendmsg::{PendingSendmsg, PreparedSendmsg, SendTarget, SendmsgCompleted, SendmsgRequest};
pub use slot::{DirectSlot, SlotIndex, SlotTarget};
pub use staged::{Misfit, Staged};
pub use statx::{PendingStatx, PreparedStatx, StatxCompleted, StatxError, StatxRequest};
pub use timeout::{
    Count, Expiry, PendingTimeout, PreparedTimeout, TimeoutDone, TimeoutError, TimeoutRequest,
};
pub use vectored::{
    PendingVectored, PreparedVectored, VecRoom, VectoredCompleted, VectoredError,
    VectoredRequest,
};
pub use zerocopy::{PendingZc, PreparedZc, ZcCompleted, ZcRequest};
