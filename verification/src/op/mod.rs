//! Submission queue entries.
//!
//! An [`Sqe`] is the kernel's entry layout, filled in. Constructors live in
//! submodules grouped by concern; the modifiers that can be chained onto any
//! of them live here.
//!
//! Most operations that hand the kernel memory have two constructors. The
//! plain one (such as [`read`](Sqe::read)) takes the owner of the memory and
//! derives address and length from it. The `_ptr` one takes the address and
//! the length as they are. Neither keeps the memory alive: it has to stay
//! where it is until the kernel is done with it.

use crate::types::codes::{
    SendRecvFlag, IORING_RECVSEND_FIXED_BUF, IORING_RECVSEND_POLL_FIRST,
    IORING_SEND_ZC_REPORT_USAGE,
};
use crate::types::flags::SqeFlags;
use vstd::prelude::*;

pub mod buffers;
pub mod control;
pub mod epoll;
pub mod file;
pub mod futex;
pub mod msgring;
pub mod net;
pub mod socket_cmd;
pub mod waitid;

verus! {

/// A submission entry as the kernel lays it out.
///
/// Many fields carry different things for different operations; they are
/// named after their most common use.
#[derive(Clone, Copy, Debug, PartialEq, Eq, Structural)]
pub struct IoUringSqe {
    /// What to do.
    pub opcode: u8,
    /// How to do it.
    pub flags: u8,
    /// Priority, or options of sends and receives.
    pub ioprio: u16,
    /// The descriptor to do it to.
    pub fd: i32,
    /// File offset, or a second address.
    pub off: u64,
    /// Address of the memory involved.
    pub addr: u64,
    /// Length of that memory.
    pub len: u32,
    /// Flags of the particular operation.
    pub op_flags: u32,
    /// Handed back unchanged with the completion.
    pub user_data: u64,
    /// Registered buffer, or the pool to take one from.
    pub buf_index: u16,
    /// Credentials to use.
    pub personality: u16,
    /// Source descriptor of a splice, or the file-table slot to install into.
    pub splice_fd_in: i32,
    /// A third address.
    pub addr3: u64,
    /// Reserved.
    pub pad: u64,
}

impl IoUringSqe {
    /// An entry with every field zero.
    #[verifier::allow_in_spec]
    pub fn zeroed() -> Self
        returns
            (IoUringSqe {
                opcode: 0,
                flags: 0,
                ioprio: 0,
                fd: 0,
                off: 0,
                addr: 0,
                len: 0,
                op_flags: 0,
                user_data: 0,
                buf_index: 0,
                personality: 0,
                splice_fd_in: 0,
                addr3: 0,
                pad: 0,
            }),
    {
        IoUringSqe {
            opcode: 0,
            flags: 0,
            ioprio: 0,
            fd: 0,
            off: 0,
            addr: 0,
            len: 0,
            op_flags: 0,
            user_data: 0,
            buf_index: 0,
            personality: 0,
            splice_fd_in: 0,
            addr3: 0,
            pad: 0,
        }
    }
}

/// An entry of nothing but zeros: the nop, before anything is asked of it.
pub open spec fn blank() -> IoUringSqe {
    IoUringSqe {
        opcode: 0,
        flags: 0,
        ioprio: 0,
        fd: 0,
        off: 0,
        addr: 0,
        len: 0,
        op_flags: 0,
        user_data: 0,
        buf_index: 0,
        personality: 0,
        splice_fd_in: 0,
        addr3: 0,
        pad: 0,
    }
}

/// A prepared submission, ready to be pushed onto a ring.
#[derive(Clone, Copy, Debug, PartialEq, Eq, Structural)]
pub struct Sqe(pub IoUringSqe);

impl Sqe {
    /// Set the value that identifies the completion.
    #[verifier::allow_in_spec]
    pub fn user_data(self, data: u64) -> Self
        returns
            Sqe(IoUringSqe { user_data: data, ..self.0 }),
    {
        Sqe(IoUringSqe { user_data: data, ..self.0 })
    }

    /// The value that identifies the completion.
    #[verifier::allow_in_spec]
    pub fn get_user_data(&self) -> u64
        returns
            self.0.user_data,
    {
        self.0.user_data
    }

    /// Add flags to those already set.
    #[verifier::allow_in_spec]
    pub fn flags(self, flags: SqeFlags) -> Self
        returns
            Sqe(IoUringSqe { flags: self.0.flags | flags.bits(), ..self.0 }),
    {
        Sqe(IoUringSqe { flags: self.0.flags | flags.bits(), ..self.0 })
    }

    /// Make the next entry wait for this one, and fail with it.
    #[verifier::allow_in_spec]
    pub fn link(self) -> Self
        returns
            self.flags(SqeFlags::io_link()),
    {
        self.flags(SqeFlags::io_link())
    }

    /// Make the next entry wait for this one, whether or not it fails.
    #[verifier::allow_in_spec]
    pub fn hardlink(self) -> Self
        returns
            self.flags(SqeFlags::io_hardlink()),
    {
        self.flags(SqeFlags::io_hardlink())
    }

    /// Take the descriptor to be an index into the ring's file table.
    #[verifier::allow_in_spec]
    pub fn fixed_file(self) -> Self
        returns
            self.flags(SqeFlags::fixed_file()),
    {
        self.flags(SqeFlags::fixed_file())
    }

    /// Wait for everything submitted before.
    #[verifier::allow_in_spec]
    pub fn drain(self) -> Self
        returns
            self.flags(SqeFlags::io_drain()),
    {
        self.flags(SqeFlags::io_drain())
    }

    /// Post no completion if the operation succeeds.
    #[verifier::allow_in_spec]
    pub fn cqe_skip_success(self) -> Self
        returns
            self.flags(SqeFlags::cqe_skip_success()),
    {
        self.flags(SqeFlags::cqe_skip_success())
    }

    /// Have the kernel take a buffer from the pool `group_id`.
    #[verifier::allow_in_spec]
    pub fn buffer_select(self, group_id: u16) -> Self
        returns
            Sqe(
                IoUringSqe {
                    flags: self.0.flags | SqeFlags::buffer_select().bits(),
                    buf_index: group_id,
                    ..self.0
                },
            ),
    {
        Sqe(
            IoUringSqe {
                flags: self.0.flags | SqeFlags::buffer_select().bits(),
                buf_index: group_id,
                ..self.0
            },
        )
    }

    /// Set an option of a send or receive.
    #[verifier::allow_in_spec]
    pub fn with(self, flag: SendRecvFlag) -> Self
        returns
            (match flag {
                SendRecvFlag::PollFirst => Sqe(
                    IoUringSqe { ioprio: self.0.ioprio | IORING_RECVSEND_POLL_FIRST, ..self.0 },
                ),
                SendRecvFlag::FixedBuf(index) => Sqe(
                    IoUringSqe {
                        ioprio: self.0.ioprio | IORING_RECVSEND_FIXED_BUF,
                        buf_index: index,
                        ..self.0
                    },
                ),
                SendRecvFlag::ReportUsage => Sqe(
                    IoUringSqe { ioprio: self.0.ioprio | IORING_SEND_ZC_REPORT_USAGE, ..self.0 },
                ),
            }),
    {
        match flag {
            SendRecvFlag::PollFirst => Sqe(
                IoUringSqe { ioprio: self.0.ioprio | IORING_RECVSEND_POLL_FIRST, ..self.0 },
            ),
            SendRecvFlag::FixedBuf(index) => Sqe(
                IoUringSqe {
                    ioprio: self.0.ioprio | IORING_RECVSEND_FIXED_BUF,
                    buf_index: index,
                    ..self.0
                },
            ),
            SendRecvFlag::ReportUsage => Sqe(
                IoUringSqe { ioprio: self.0.ioprio | IORING_SEND_ZC_REPORT_USAGE, ..self.0 },
            ),
        }
    }

    /// Use the credentials registered under `id`.
    #[verifier::allow_in_spec]
    pub fn personality(self, id: u16) -> Self
        returns
            Sqe(IoUringSqe { personality: id, ..self.0 }),
    {
        Sqe(IoUringSqe { personality: id, ..self.0 })
    }
}

/// The bit that stands for an option.
pub open spec fn option_bit(option: SendRecvFlag) -> u16 {
    match option {
        SendRecvFlag::PollFirst => IORING_RECVSEND_POLL_FIRST,
        SendRecvFlag::FixedBuf(_) => IORING_RECVSEND_FIXED_BUF,
        SendRecvFlag::ReportUsage => IORING_SEND_ZC_REPORT_USAGE,
    }
}

/// Chaining a flag modifier twice changes nothing the second time.
pub proof fn flags_are_idempotent(sqe: Sqe, flags: SqeFlags)
    ensures
        sqe.flags(flags).flags(flags) == sqe.flags(flags),
{
    let a = sqe.0.flags;
    let b = flags.0;
    assert((a | b) | b == a | b) by (bit_vector);
}

/// Flag modifiers can be chained in any order.
pub proof fn flags_commute(sqe: Sqe, first: SqeFlags, second: SqeFlags)
    ensures
        sqe.flags(first).flags(second) == sqe.flags(second).flags(first),
        sqe.flags(first).flags(second) == sqe.flags(first.union(second)),
{
    let a = sqe.0.flags;
    let b = first.0;
    let c = second.0;
    assert((a | b) | c == (a | c) | b) by (bit_vector);
    assert((a | b) | c == a | (b | c)) by (bit_vector);
}

/// A flag that was added stays set, and so does every flag set before.
pub proof fn flags_accumulate(sqe: Sqe, flags: SqeFlags)
    ensures
        SqeFlags(sqe.flags(flags).0.flags).contains(flags),
        SqeFlags(sqe.flags(flags).0.flags).contains(SqeFlags(sqe.0.flags)),
{
    let a = sqe.0.flags;
    let b = flags.0;
    assert((a | b) & b == b) by (bit_vector);
    assert((a | b) & a == a) by (bit_vector);
}

/// Setting an option twice changes nothing the second time.
pub proof fn options_are_idempotent(sqe: Sqe, option: SendRecvFlag)
    ensures
        sqe.with(option).with(option) == sqe.with(option),
{
    let a = sqe.0.ioprio;
    let b = option_bit(option);
    assert((a | b) | b == a | b) by (bit_vector);
}

/// Options can be set in any order, unless both name a registered buffer:
/// then the later one holds.
pub proof fn options_commute(sqe: Sqe, first: SendRecvFlag, second: SendRecvFlag)
    ensures
        !(first is FixedBuf && second is FixedBuf) ==> sqe.with(first).with(second) == sqe.with(
            second,
        ).with(first),
        first is FixedBuf && second is FixedBuf ==> sqe.with(first).with(second) == sqe.with(
            second,
        ),
{
    let a = sqe.0.ioprio;
    let b = option_bit(first);
    let c = option_bit(second);
    assert((a | b) | c == (a | c) | b) by (bit_vector);
    assert((a | b) | b == a | b) by (bit_vector);
}

/// The identifying value is the last one set, whatever other modifiers come
/// after it.
pub proof fn user_data_survives_modifiers(
    sqe: Sqe,
    data: u64,
    flags: SqeFlags,
    group_id: u16,
    option: SendRecvFlag,
    personality: u16,
)
    ensures
        sqe.user_data(data).get_user_data() == data,
        sqe.user_data(data).flags(flags).get_user_data() == data,
        sqe.user_data(data).buffer_select(group_id).get_user_data() == data,
        sqe.user_data(data).with(option).get_user_data() == data,
        sqe.user_data(data).personality(personality).get_user_data() == data,
{
}

/// Each flag modifier sets its own bit and changes nothing else: a fixed file
/// is bit 0, then draining, linking, hard linking, taking memory from a pool,
/// bit 5, and keeping quiet on success.
pub proof fn modifiers_set_their_bit(sqe: Sqe, flags: SqeFlags, group_id: u16, id: u16, data: u64)
    ensures
        sqe.fixed_file().0 == (IoUringSqe { flags: sqe.0.flags | 1u8, ..sqe.0 }),
        sqe.drain().0 == (IoUringSqe { flags: sqe.0.flags | 2u8, ..sqe.0 }),
        sqe.link().0 == (IoUringSqe { flags: sqe.0.flags | 4u8, ..sqe.0 }),
        sqe.hardlink().0 == (IoUringSqe { flags: sqe.0.flags | 8u8, ..sqe.0 }),
        sqe.buffer_select(group_id).0 == (IoUringSqe {
            flags: sqe.0.flags | 32u8,
            buf_index: group_id,
            ..sqe.0
        }),
        sqe.cqe_skip_success().0 == (IoUringSqe { flags: sqe.0.flags | 64u8, ..sqe.0 }),
        sqe.flags(flags).0 == (IoUringSqe { flags: sqe.0.flags | flags.0, ..sqe.0 }),
        sqe.personality(id).0 == (IoUringSqe { personality: id, ..sqe.0 }),
        sqe.user_data(data).0 == (IoUringSqe { user_data: data, ..sqe.0 }),
        sqe.get_user_data() == sqe.0.user_data,
{
}

/// Each option of a send or receive sets its own bit, and naming a registered
/// buffer also its number: 1 polls first, 4 names a buffer, 8 asks for a
/// report.
pub proof fn options_set_their_bit(sqe: Sqe, index: u16)
    ensures
        sqe.with(SendRecvFlag::PollFirst).0 == (IoUringSqe {
            ioprio: sqe.0.ioprio | 1u16,
            ..sqe.0
        }),
        sqe.with(SendRecvFlag::FixedBuf(index)).0 == (IoUringSqe {
            ioprio: sqe.0.ioprio | 4u16,
            buf_index: index,
            ..sqe.0
        }),
        sqe.with(SendRecvFlag::ReportUsage).0 == (IoUringSqe {
            ioprio: sqe.0.ioprio | 8u16,
            ..sqe.0
        }),
{
}

} // verus!
