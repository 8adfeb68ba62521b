//! Provided buffers and the file table.

use super::{blank, IoUringSqe, Sqe};
use crate::types::abi::Placed;
use crate::types::codes::Opcode;
use vstd::prelude::*;

verus! {

impl Sqe {
    /// Add `count` buffers of `buf_size` bytes, back to back at `addr`, to
    /// the pool `bgid`, numbered from `buf_id`.
    #[verifier::allow_in_spec]
    pub fn provide_buffers(addr: u64, buf_size: u32, count: u16, bgid: u16, buf_id: u16) -> Self
        returns
            Sqe(
                IoUringSqe {
                    opcode: Opcode::ProvideBuffers.as_raw(),
                    fd: count as i32,
                    addr: addr,
                    len: buf_size,
                    off: buf_id as u64,
                    buf_index: bgid,
                    ..IoUringSqe::zeroed()
                },
            ),
    {
        Sqe(
            IoUringSqe {
                opcode: Opcode::ProvideBuffers.as_raw(),
                fd: count as i32,
                addr: addr,
                len: buf_size,
                off: buf_id as u64,
                buf_index: bgid,
                ..IoUringSqe::zeroed()
            },
        )
    }

    /// Take `count` buffers out of the pool `bgid`.
    #[verifier::allow_in_spec]
    pub fn remove_buffers(count: u16, bgid: u16) -> Self
        returns
            Sqe(
                IoUringSqe {
                    opcode: Opcode::RemoveBuffers.as_raw(),
                    fd: count as i32,
                    buf_index: bgid,
                    ..IoUringSqe::zeroed()
                },
            ),
    {
        Sqe(
            IoUringSqe {
                opcode: Opcode::RemoveBuffers.as_raw(),
                fd: count as i32,
                buf_index: bgid,
                ..IoUringSqe::zeroed()
            },
        )
    }

    /// [`files_update`](Self::files_update) with the array at address `fds`.
    #[verifier::allow_in_spec]
    pub fn files_update_ptr(fds: u64, nr_fds: u32, offset: u32) -> Self
        returns
            Sqe(
                IoUringSqe {
                    opcode: Opcode::FilesUpdate.as_raw(),
                    addr: fds,
                    len: nr_fds,
                    off: offset as u64,
                    ..IoUringSqe::zeroed()
                },
            ),
    {
        Sqe(
            IoUringSqe {
                opcode: Opcode::FilesUpdate.as_raw(),
                addr: fds,
                len: nr_fds,
                off: offset as u64,
                ..IoUringSqe::zeroed()
            },
        )
    }

    /// Put `fds` into the file table from slot `offset` on.
    #[verifier::allow_in_spec]
    pub fn files_update(fds: &Placed<Vec<i32>>, offset: u32) -> Self
        requires
            fds.value@.len() <= u32::MAX,
        returns
            Sqe::files_update_ptr(fds.addr, fds.value@.len() as u32, offset),
    {
        Sqe::files_update_ptr(fds.addr, fds.value.len() as u32, offset)
    }
}

/// Lending buffers to a pool is operation 31 and taking them out 32. Both name
/// how many and which pool.
pub proof fn pools_are_filled_and_emptied(addr: u64, size: u32, count: u16, bgid: u16, first: u16)
    ensures
        Sqe::provide_buffers(addr, size, count, bgid, first).0 == (IoUringSqe {
            opcode: 31,
            fd: count as i32,
            off: first as u64,
            addr: addr,
            len: size,
            buf_index: bgid,
            ..blank()
        }),
        Sqe::remove_buffers(count, bgid).0 == (IoUringSqe {
            opcode: 32,
            fd: count as i32,
            buf_index: bgid,
            ..blank()
        }),
{
}

/// Changing a file table is operation 20: the array, how many, and from which
/// slot on.
pub proof fn table_updates_name_their_slots(at: u64, count: u32, offset: u32)
    ensures
        Sqe::files_update_ptr(at, count, offset).0 == (IoUringSqe {
            opcode: 20,
            off: offset as u64,
            addr: at,
            len: count,
            ..blank()
        }),
{
}

/// An array of descriptors stands for where it lies and how long it is.
pub proof fn table_updates_cover_their_array(fds: Placed<Vec<i32>>, offset: u32)
    requires
        fds.value@.len() <= u32::MAX,
    ensures
        Sqe::files_update(&fds, offset).0 == (IoUringSqe {
            opcode: 20,
            off: offset as u64,
            addr: fds.addr,
            len: fds.value@.len() as u32,
            ..blank()
        }),
{
}

} // verus!
