//! Waiting for child processes.

use super::{blank, IoUringSqe, Sqe};
use crate::types::codes::{IdType, Opcode};
use crate::types::flags::WaitOptions;
use vstd::prelude::*;

verus! {

impl Sqe {
    /// Wait for the children that `id_type` and `id` select to change as
    /// `options` say; report to `infop`, or nowhere if it is 0.
    #[verifier::allow_in_spec]
    pub fn waitid(id_type: IdType, id: i32, infop: u64, options: WaitOptions) -> Self
        returns
            Sqe(
                IoUringSqe {
                    opcode: Opcode::WaitId.as_raw(),
                    fd: id,
                    len: id_type.as_raw(),
                    splice_fd_in: options.bits() as i32,
                    off: infop,
                    ..IoUringSqe::zeroed()
                },
            ),
    {
        Sqe(
            IoUringSqe {
                opcode: Opcode::WaitId.as_raw(),
                fd: id,
                len: id_type.as_raw(),
                splice_fd_in: options.bits() as i32,
                off: infop,
                ..IoUringSqe::zeroed()
            },
        )
    }
}

/// Waiting for a child is operation 50: which children, where the report goes
/// and which changes count.
pub proof fn waits_name_their_children(kind: IdType, id: i32, info: u64, options: WaitOptions)
    ensures
        Sqe::waitid(kind, id, info, options).0 == (IoUringSqe {
            opcode: 50,
            fd: id,
            off: info,
            len: kind.as_raw(),
            splice_fd_in: options.0 as i32,
            ..blank()
        }),
{
}

} // verus!
