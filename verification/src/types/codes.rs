//! Closed sets of kernel codes.

use vstd::prelude::*;

verus! {

/// A socket's address family.
#[derive(Clone, Copy, Debug, PartialEq, Eq, Structural)]
pub enum AddressFamily {
    /// Local sockets.
    Unix,
    /// IPv4.
    Inet,
    /// IPv6.
    Inet6,
}

impl AddressFamily {
    /// The kernel's number for it.
    #[verifier::allow_in_spec]
    pub fn as_raw(self) -> i32
        returns
            (match self {
                AddressFamily::Unix => 1i32,
                AddressFamily::Inet => 2i32,
                AddressFamily::Inet6 => 10i32,
            }),
    {
        match self {
            AddressFamily::Unix => 1i32,
            AddressFamily::Inet => 2i32,
            AddressFamily::Inet6 => 10i32,
        }
    }
}

/// A socket's communication style.
#[derive(Clone, Copy, Debug, PartialEq, Eq, Structural)]
pub enum SocketType {
    /// A byte stream.
    Stream,
    /// Datagrams.
    Datagram,
    /// Raw packets.
    Raw,
    /// Sequenced packets.
    SeqPacket,
}

impl SocketType {
    /// The kernel's number for it.
    #[verifier::allow_in_spec]
    pub fn as_raw(self) -> i32
        returns
            (match self {
                SocketType::Stream => 1i32,
                SocketType::Datagram => 2i32,
                SocketType::Raw => 3i32,
                SocketType::SeqPacket => 5i32,
            }),
    {
        match self {
            SocketType::Stream => 1i32,
            SocketType::Datagram => 2i32,
            SocketType::Raw => 3i32,
            SocketType::SeqPacket => 5i32,
        }
    }
}

/// Which half of a connection to shut down.
#[derive(Clone, Copy, Debug, PartialEq, Eq, Structural)]
pub enum ShutdownHow {
    /// The receiving half.
    Read,
    /// The sending half.
    Write,
    /// Both halves.
    Both,
}

impl ShutdownHow {
    /// The kernel's number for it.
    #[verifier::allow_in_spec]
    pub fn as_raw(self) -> u32
        returns
            (match self {
                ShutdownHow::Read => 0u32,
                ShutdownHow::Write => 1u32,
                ShutdownHow::Both => 2u32,
            }),
    {
        match self {
            ShutdownHow::Read => 0u32,
            ShutdownHow::Write => 1u32,
            ShutdownHow::Both => 2u32,
        }
    }
}

/// What `epoll_ctl` does to a registration.
#[derive(Clone, Copy, Debug, PartialEq, Eq, Structural)]
pub enum EpollOp {
    /// Add one.
    Add,
    /// Remove one.
    Del,
    /// Change one.
    Mod,
}

impl EpollOp {
    /// The kernel's number for it.
    #[verifier::allow_in_spec]
    pub fn as_raw(self) -> u32
        returns
            (match self {
                EpollOp::Add => 1u32,
                EpollOp::Del => 2u32,
                EpollOp::Mod => 3u32,
            }),
    {
        match self {
            EpollOp::Add => 1u32,
            EpollOp::Del => 2u32,
            EpollOp::Mod => 3u32,
        }
    }
}

/// Expected access pattern of a file range.
#[derive(Clone, Copy, Debug, PartialEq, Eq, Structural)]
pub enum FadviseAdvice {
    /// No advice.
    Normal,
    /// Random access.
    Random,
    /// Sequential access.
    Sequential,
    /// Needed soon.
    WillNeed,
    /// Not needed soon.
    DontNeed,
    /// Used once.
    NoReuse,
}

impl FadviseAdvice {
    /// The kernel's number for it.
    #[verifier::allow_in_spec]
    pub fn as_raw(self) -> u32
        returns
            (match self {
                FadviseAdvice::Normal => 0u32,
                FadviseAdvice::Random => 1u32,
                FadviseAdvice::Sequential => 2u32,
                FadviseAdvice::WillNeed => 3u32,
                FadviseAdvice::DontNeed => 4u32,
                FadviseAdvice::NoReuse => 5u32,
            }),
    {
        match self {
            FadviseAdvice::Normal => 0u32,
            FadviseAdvice::Random => 1u32,
            FadviseAdvice::Sequential => 2u32,
            FadviseAdvice::WillNeed => 3u32,
            FadviseAdvice::DontNeed => 4u32,
            FadviseAdvice::NoReuse => 5u32,
        }
    }
}

/// Expected access pattern of a memory range.
#[derive(Clone, Copy, Debug, PartialEq, Eq, Structural)]
pub enum MadviseAdvice {
    /// No advice.
    Normal,
    /// Random access.
    Random,
    /// Sequential access.
    Sequential,
    /// Needed soon.
    WillNeed,
    /// Not needed soon.
    DontNeed,
}

impl MadviseAdvice {
    /// The kernel's number for it.
    #[verifier::allow_in_spec]
    pub fn as_raw(self) -> u32
        returns
            (match self {
                MadviseAdvice::Normal => 0u32,
                MadviseAdvice::Random => 1u32,
                MadviseAdvice::Sequential => 2u32,
                MadviseAdvice::WillNeed => 3u32,
                MadviseAdvice::DontNeed => 4u32,
            }),
    {
        match self {
            MadviseAdvice::Normal => 0u32,
            MadviseAdvice::Random => 1u32,
            MadviseAdvice::Sequential => 2u32,
            MadviseAdvice::WillNeed => 3u32,
            MadviseAdvice::DontNeed => 4u32,
        }
    }
}

/// What `waitid` takes its identifier to name.
#[derive(Clone, Copy, Debug, PartialEq, Eq, Structural)]
pub enum IdType {
    /// Any child.
    All,
    /// One process.
    Pid,
    /// A process group.
    Pgid,
    /// A process by descriptor.
    PidFd,
}

impl IdType {
    /// The kernel's number for it.
    #[verifier::allow_in_spec]
    pub fn as_raw(self) -> u32
        returns
            (match self {
                IdType::All => 0u32,
                IdType::Pid => 1u32,
                IdType::Pgid => 2u32,
                IdType::PidFd => 3u32,
            }),
    {
        match self {
            IdType::All => 0u32,
            IdType::Pid => 1u32,
            IdType::Pgid => 2u32,
            IdType::PidFd => 3u32,
        }
    }
}

/// A socket command sent through a ring.
#[derive(Clone, Copy, Debug, PartialEq, Eq, Structural)]
pub enum SocketUringCmdOp {
    /// Bytes waiting to be read.
    SiocInq,
    /// Bytes not yet sent.
    SiocOutq,
    /// Read an option.
    GetSockOpt,
    /// Set an option.
    SetSockOpt,
    /// Read an address.
    GetSockName,
}

impl SocketUringCmdOp {
    /// The kernel's number for it.
    #[verifier::allow_in_spec]
    pub fn as_raw(self) -> u32
        returns
            (match self {
                SocketUringCmdOp::SiocInq => 0u32,
                SocketUringCmdOp::SiocOutq => 1u32,
                SocketUringCmdOp::GetSockOpt => 2u32,
                SocketUringCmdOp::SetSockOpt => 3u32,
                SocketUringCmdOp::GetSockName => 5u32,
            }),
    {
        match self {
            SocketUringCmdOp::SiocInq => 0u32,
            SocketUringCmdOp::SiocOutq => 1u32,
            SocketUringCmdOp::GetSockOpt => 2u32,
            SocketUringCmdOp::SetSockOpt => 3u32,
            SocketUringCmdOp::GetSockName => 5u32,
        }
    }
}

/// What a submission asks the kernel to do.
#[derive(Clone, Copy, Debug, PartialEq, Eq, Structural)]
pub enum Opcode {
    /// `IORING_OP_NOP`.
    Nop,
    /// `IORING_OP_READV`.
    Readv,
    /// `IORING_OP_WRITEV`.
    Writev,
    /// `IORING_OP_FSYNC`.
    Fsync,
    /// `IORING_OP_READ_FIXED`.
    ReadFixed,
    /// `IORING_OP_WRITE_FIXED`.
    WriteFixed,
    /// `IORING_OP_POLL_ADD`.
    PollAdd,
    /// `IORING_OP_POLL_REMOVE`.
    PollRemove,
    /// `IORING_OP_SYNC_FILE_RANGE`.
    SyncFileRange,
    /// `IORING_OP_SEND_MSG`.
    SendMsg,
    /// `IORING_OP_RECV_MSG`.
    RecvMsg,
    /// `IORING_OP_TIMEOUT`.
    Timeout,
    /// `IORING_OP_TIMEOUT_REMOVE`.
    TimeoutRemove,
    /// `IORING_OP_ACCEPT`.
    Accept,
    /// `IORING_OP_ASYNC_CANCEL`.
    AsyncCancel,
    /// `IORING_OP_LINK_TIMEOUT`.
    LinkTimeout,
    /// `IORING_OP_CONNECT`.
    Connect,
    /// `IORING_OP_FALLOCATE`.
    Fallocate,
    /// `IORING_OP_OPENAT`.
    Openat,
    /// `IORING_OP_CLOSE`.
    Close,
    /// `IORING_OP_FILES_UPDATE`.
    FilesUpdate,
    /// `IORING_OP_STATX`.
    Statx,
    /// `IORING_OP_READ`.
    Read,
    /// `IORING_OP_WRITE`.
    Write,
    /// `IORING_OP_FADVISE`.
    Fadvise,
    /// `IORING_OP_MADVISE`.
    Madvise,
    /// `IORING_OP_SEND`.
    Send,
    /// `IORING_OP_RECV`.
    Recv,
    /// `IORING_OP_OPENAT2`.
    Openat2,
    /// `IORING_OP_EPOLL_CTL`.
    EpollCtl,
    /// `IORING_OP_SPLICE`.
    Splice,
    /// `IORING_OP_PROVIDE_BUFFERS`.
    ProvideBuffers,
    /// `IORING_OP_REMOVE_BUFFERS`.
    RemoveBuffers,
    /// `IORING_OP_TEE`.
    Tee,
    /// `IORING_OP_SHUTDOWN`.
    Shutdown,
    /// `IORING_OP_RENAMEAT`.
    Renameat,
    /// `IORING_OP_UNLINKAT`.
    Unlinkat,
    /// `IORING_OP_MKDIRAT`.
    Mkdirat,
    /// `IORING_OP_SYMLINKAT`.
    Symlinkat,
    /// `IORING_OP_LINKAT`.
    Linkat,
    /// `IORING_OP_MSG_RING`.
    MsgRing,
    /// `IORING_OP_FSETXATTR`.
    Fsetxattr,
    /// `IORING_OP_SETXATTR`.
    Setxattr,
    /// `IORING_OP_FGETXATTR`.
    Fgetxattr,
    /// `IORING_OP_GETXATTR`.
    Getxattr,
    /// `IORING_OP_SOCKET`.
    Socket,
    /// `IORING_OP_URING_CMD`.
    UringCmd,
    /// `IORING_OP_SEND_ZC`.
    SendZc,
    /// `IORING_OP_SEND_MSG_ZC`.
    SendMsgZc,
    /// `IORING_OP_READ_MULTISHOT`.
    ReadMultishot,
    /// `IORING_OP_WAIT_ID`.
    WaitId,
    /// `IORING_OP_FUTEX_WAIT`.
    FutexWait,
    /// `IORING_OP_FUTEX_WAKE`.
    FutexWake,
    /// `IORING_OP_FUTEX_WAITV`.
    FutexWaitv,
    /// `IORING_OP_FIXED_FD_INSTALL`.
    FixedFdInstall,
    /// `IORING_OP_FTRUNCATE`.
    Ftruncate,
    /// `IORING_OP_BIND`.
    Bind,
    /// `IORING_OP_LISTEN`.
    Listen,
    /// `IORING_OP_RECV_ZC`.
    RecvZc,
    /// `IORING_OP_EPOLL_WAIT`.
    EpollWait,
    /// `IORING_OP_READV_FIXED`.
    ReadvFixed,
    /// `IORING_OP_WRITEV_FIXED`.
    WritevFixed,
    /// `IORING_OP_PIPE`.
    Pipe,
}

impl Opcode {
    /// The kernel's number for it.
    #[verifier::allow_in_spec]
    pub fn as_raw(self) -> u8
        returns
            (match self {
                Opcode::Nop => 0u8,
                Opcode::Readv => 1u8,
                Opcode::Writev => 2u8,
                Opcode::Fsync => 3u8,
                Opcode::ReadFixed => 4u8,
                Opcode::WriteFixed => 5u8,
                Opcode::PollAdd => 6u8,
                Opcode::PollRemove => 7u8,
                Opcode::SyncFileRange => 8u8,
                Opcode::SendMsg => 9u8,
                Opcode::RecvMsg => 10u8,
                Opcode::Timeout => 11u8,
                Opcode::TimeoutRemove => 12u8,
                Opcode::Accept => 13u8,
                Opcode::AsyncCancel => 14u8,
                Opcode::LinkTimeout => 15u8,
                Opcode::Connect => 16u8,
                Opcode::Fallocate => 17u8,
                Opcode::Openat => 18u8,
                Opcode::Close => 19u8,
                Opcode::FilesUpdate => 20u8,
                Opcode::Statx => 21u8,
                Opcode::Read => 22u8,
                Opcode::Write => 23u8,
                Opcode::Fadvise => 24u8,
                Opcode::Madvise => 25u8,
                Opcode::Send => 26u8,
                Opcode::Recv => 27u8,
                Opcode::Openat2 => 28u8,
                Opcode::EpollCtl => 29u8,
                Opcode::Splice => 30u8,
                Opcode::ProvideBuffers => 31u8,
                Opcode::RemoveBuffers => 32u8,
                Opcode::Tee => 33u8,
                Opcode::Shutdown => 34u8,
                Opcode::Renameat => 35u8,
                Opcode::Unlinkat => 36u8,
                Opcode::Mkdirat => 37u8,
                Opcode::Symlinkat => 38u8,
                Opcode::Linkat => 39u8,
                Opcode::MsgRing => 40u8,
                Opcode::Fsetxattr => 41u8,
                Opcode::Setxattr => 42u8,
                Opcode::Fgetxattr => 43u8,
                Opcode::Getxattr => 44u8,
                Opcode::Socket => 45u8,
                Opcode::UringCmd => 46u8,
                Opcode::SendZc => 47u8,
                Opcode::SendMsgZc => 48u8,
                Opcode::ReadMultishot => 49u8,
                Opcode::WaitId => 50u8,
                Opcode::FutexWait => 51u8,
                Opcode::FutexWake => 52u8,
                Opcode::FutexWaitv => 53u8,
                Opcode::FixedFdInstall => 54u8,
                Opcode::Ftruncate => 55u8,
                Opcode::Bind => 56u8,
                Opcode::Listen => 57u8,
                Opcode::RecvZc => 58u8,
                Opcode::EpollWait => 59u8,
                Opcode::ReadvFixed => 60u8,
                Opcode::WritevFixed => 61u8,
                Opcode::Pipe => 62u8,
            }),
    {
        match self {
            Opcode::Nop => 0u8,
            Opcode::Readv => 1u8,
            Opcode::Writev => 2u8,
            Opcode::Fsync => 3u8,
            Opcode::ReadFixed => 4u8,
            Opcode::WriteFixed => 5u8,
            Opcode::PollAdd => 6u8,
            Opcode::PollRemove => 7u8,
            Opcode::SyncFileRange => 8u8,
            Opcode::SendMsg => 9u8,
            Opcode::RecvMsg => 10u8,
            Opcode::Timeout => 11u8,
            Opcode::TimeoutRemove => 12u8,
            Opcode::Accept => 13u8,
            Opcode::AsyncCancel => 14u8,
            Opcode::LinkTimeout => 15u8,
            Opcode::Connect => 16u8,
            Opcode::Fallocate => 17u8,
            Opcode::Openat => 18u8,
            Opcode::Close => 19u8,
            Opcode::FilesUpdate => 20u8,
            Opcode::Statx => 21u8,
            Opcode::Read => 22u8,
            Opcode::Write => 23u8,
            Opcode::Fadvise => 24u8,
            Opcode::Madvise => 25u8,
            Opcode::Send => 26u8,
            Opcode::Recv => 27u8,
            Opcode::Openat2 => 28u8,
            Opcode::EpollCtl => 29u8,
            Opcode::Splice => 30u8,
            Opcode::ProvideBuffers => 31u8,
            Opcode::RemoveBuffers => 32u8,
            Opcode::Tee => 33u8,
            Opcode::Shutdown => 34u8,
            Opcode::Renameat => 35u8,
            Opcode::Unlinkat => 36u8,
            Opcode::Mkdirat => 37u8,
            Opcode::Symlinkat => 38u8,
            Opcode::Linkat => 39u8,
            Opcode::MsgRing => 40u8,
            Opcode::Fsetxattr => 41u8,
            Opcode::Setxattr => 42u8,
            Opcode::Fgetxattr => 43u8,
            Opcode::Getxattr => 44u8,
            Opcode::Socket => 45u8,
            Opcode::UringCmd => 46u8,
            Opcode::SendZc => 47u8,
            Opcode::SendMsgZc => 48u8,
            Opcode::ReadMultishot => 49u8,
            Opcode::WaitId => 50u8,
            Opcode::FutexWait => 51u8,
            Opcode::FutexWake => 52u8,
            Opcode::FutexWaitv => 53u8,
            Opcode::FixedFdInstall => 54u8,
            Opcode::Ftruncate => 55u8,
            Opcode::Bind => 56u8,
            Opcode::Listen => 57u8,
            Opcode::RecvZc => 58u8,
            Opcode::EpollWait => 59u8,
            Opcode::ReadvFixed => 60u8,
            Opcode::WritevFixed => 61u8,
            Opcode::Pipe => 62u8,
        }
    }
}

/// An option of a send or receive, carried in the entry's priority field.
#[derive(Clone, Copy, Debug, PartialEq, Eq, Structural)]
pub enum SendRecvFlag {
    /// Wait for readiness before the first attempt.
    PollFirst,
    /// Use the registered buffer with this index.
    FixedBuf(u16),
    /// Have the notification say whether the data was copied.
    ReportUsage,
}

/// `IORING_RECVSEND_POLL_FIRST`.
pub const IORING_RECVSEND_POLL_FIRST: u16 = 1;

/// `IORING_RECV_MULTISHOT`.
pub const IORING_RECV_MULTISHOT: u16 = 2;

/// `IORING_RECVSEND_FIXED_BUF`.
pub const IORING_RECVSEND_FIXED_BUF: u16 = 4;

/// `IORING_SEND_ZC_REPORT_USAGE`.
pub const IORING_SEND_ZC_REPORT_USAGE: u16 = 8;

/// `IORING_ACCEPT_MULTISHOT`.
pub const IORING_ACCEPT_MULTISHOT: u16 = 1;

impl AddressFamily {
    /// Address families have the kernel's numbers.
    pub proof fn numbers_are_the_kernels()
        ensures
            AddressFamily::Unix.as_raw() == 1,
            AddressFamily::Inet.as_raw() == 2,
            AddressFamily::Inet6.as_raw() == 10,
    {
    }
}

impl SocketType {
    /// Socket types have the kernel's numbers.
    pub proof fn numbers_are_the_kernels()
        ensures
            SocketType::Stream.as_raw() == 1,
            SocketType::Datagram.as_raw() == 2,
            SocketType::Raw.as_raw() == 3,
            SocketType::SeqPacket.as_raw() == 5,
    {
    }
}

impl ShutdownHow {
    /// Halves of a connection have the kernel's numbers.
    pub proof fn numbers_are_the_kernels()
        ensures
            ShutdownHow::Read.as_raw() == 0,
            ShutdownHow::Write.as_raw() == 1,
            ShutdownHow::Both.as_raw() == 2,
    {
    }
}

impl EpollOp {
    /// Changes to a registration have the kernel's numbers.
    pub proof fn numbers_are_the_kernels()
        ensures
            EpollOp::Add.as_raw() == 1,
            EpollOp::Del.as_raw() == 2,
            EpollOp::Mod.as_raw() == 3,
    {
    }
}

impl FadviseAdvice {
    /// Advice on a file has the kernel's numbers.
    pub proof fn numbers_are_the_kernels()
        ensures
            FadviseAdvice::Normal.as_raw() == 0,
            FadviseAdvice::Random.as_raw() == 1,
            FadviseAdvice::Sequential.as_raw() == 2,
            FadviseAdvice::WillNeed.as_raw() == 3,
            FadviseAdvice::DontNeed.as_raw() == 4,
            FadviseAdvice::NoReuse.as_raw() == 5,
    {
    }
}

impl MadviseAdvice {
    /// Advice on memory has the kernel's numbers.
    pub proof fn numbers_are_the_kernels()
        ensures
            MadviseAdvice::Normal.as_raw() == 0,
            MadviseAdvice::Random.as_raw() == 1,
            MadviseAdvice::Sequential.as_raw() == 2,
            MadviseAdvice::WillNeed.as_raw() == 3,
            MadviseAdvice::DontNeed.as_raw() == 4,
    {
    }
}

impl IdType {
    /// Kinds of children have the kernel's numbers.
    pub proof fn numbers_are_the_kernels()
        ensures
            IdType::All.as_raw() == 0,
            IdType::Pid.as_raw() == 1,
            IdType::Pgid.as_raw() == 2,
            IdType::PidFd.as_raw() == 3,
    {
    }
}

impl SocketUringCmdOp {
    /// Socket commands have the kernel's numbers.
    pub proof fn numbers_are_the_kernels()
        ensures
            SocketUringCmdOp::SiocInq.as_raw() == 0,
            SocketUringCmdOp::SiocOutq.as_raw() == 1,
            SocketUringCmdOp::GetSockOpt.as_raw() == 2,
            SocketUringCmdOp::SetSockOpt.as_raw() == 3,
            SocketUringCmdOp::GetSockName.as_raw() == 5,
    {
    }
}

impl Opcode {
    /// Operations have the kernel's numbers.
    pub proof fn numbers_are_the_kernels()
        ensures
            Opcode::Nop.as_raw() == 0,
            Opcode::Readv.as_raw() == 1,
            Opcode::Writev.as_raw() == 2,
            Opcode::Fsync.as_raw() == 3,
            Opcode::ReadFixed.as_raw() == 4,
            Opcode::WriteFixed.as_raw() == 5,
            Opcode::PollAdd.as_raw() == 6,
            Opcode::PollRemove.as_raw() == 7,
            Opcode::SyncFileRange.as_raw() == 8,
            Opcode::SendMsg.as_raw() == 9,
            Opcode::RecvMsg.as_raw() == 10,
            Opcode::Timeout.as_raw() == 11,
            Opcode::TimeoutRemove.as_raw() == 12,
            Opcode::Accept.as_raw() == 13,
            Opcode::AsyncCancel.as_raw() == 14,
            Opcode::LinkTimeout.as_raw() == 15,
            Opcode::Connect.as_raw() == 16,
            Opcode::Fallocate.as_raw() == 17,
            Opcode::Openat.as_raw() == 18,
            Opcode::Close.as_raw() == 19,
            Opcode::FilesUpdate.as_raw() == 20,
            Opcode::Statx.as_raw() == 21,
            Opcode::Read.as_raw() == 22,
            Opcode::Write.as_raw() == 23,
            Opcode::Fadvise.as_raw() == 24,
            Opcode::Madvise.as_raw() == 25,
            Opcode::Send.as_raw() == 26,
            Opcode::Recv.as_raw() == 27,
            Opcode::Openat2.as_raw() == 28,
            Opcode::EpollCtl.as_raw() == 29,
            Opcode::Splice.as_raw() == 30,
            Opcode::ProvideBuffers.as_raw() == 31,
            Opcode::RemoveBuffers.as_raw() == 32,
            Opcode::Tee.as_raw() == 33,
            Opcode::Shutdown.as_raw() == 34,
            Opcode::Renameat.as_raw() == 35,
            Opcode::Unlinkat.as_raw() == 36,
            Opcode::Mkdirat.as_raw() == 37,
            Opcode::Symlinkat.as_raw() == 38,
            Opcode::Linkat.as_raw() == 39,
            Opcode::MsgRing.as_raw() == 40,
            Opcode::Fsetxattr.as_raw() == 41,
            Opcode::Setxattr.as_raw() == 42,
            Opcode::Fgetxattr.as_raw() == 43,
            Opcode::Getxattr.as_raw() == 44,
            Opcode::Socket.as_raw() == 45,
            Opcode::UringCmd.as_raw() == 46,
            Opcode::SendZc.as_raw() == 47,
            Opcode::SendMsgZc.as_raw() == 48,
            Opcode::ReadMultishot.as_raw() == 49,
            Opcode::WaitId.as_raw() == 50,
            Opcode::FutexWait.as_raw() == 51,
            Opcode::FutexWake.as_raw() == 52,
            Opcode::FutexWaitv.as_raw() == 53,
            Opcode::FixedFdInstall.as_raw() == 54,
            Opcode::Ftruncate.as_raw() == 55,
            Opcode::Bind.as_raw() == 56,
            Opcode::Listen.as_raw() == 57,
            Opcode::RecvZc.as_raw() == 58,
            Opcode::EpollWait.as_raw() == 59,
            Opcode::ReadvFixed.as_raw() == 60,
            Opcode::WritevFixed.as_raw() == 61,
            Opcode::Pipe.as_raw() == 62,
    {
    }
}

} // verus!
