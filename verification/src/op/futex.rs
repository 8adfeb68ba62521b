//! Waiting on futex words.

use super::{blank, IoUringSqe, Sqe};
use crate::types::abi::{FutexWaitv, Placed};
use crate::types::codes::Opcode;
use crate::types::flags::Futex2Flags;
use vstd::prelude::*;

verus! {

impl Sqe {
    /// Wait while the word at `uaddr` holds `val`, for a wake that `mask`
    /// matches.
    #[verifier::allow_in_spec]
    pub fn futex_wait(uaddr: u64, val: u64, mask: u64, flags: Futex2Flags) -> Self
        returns
            Sqe(
                IoUringSqe {
                    opcode: Opcode::FutexWait.as_raw(),
                    addr: uaddr,
                    off: val,
                    addr3: mask,
                    fd: flags.bits() as i32,
                    ..IoUringSqe::zeroed()
                },
            ),
    {
        Sqe(
            IoUringSqe {
                opcode: Opcode::FutexWait.as_raw(),
                addr: uaddr,
                off: val,
                addr3: mask,
                fd: flags.bits() as i32,
                ..IoUringSqe::zeroed()
            },
        )
    }

    /// Wake up to `count` waiters on the word at `uaddr` that `mask` matches.
    #[verifier::allow_in_spec]
    pub fn futex_wake(uaddr: u64, count: u64, mask: u64, flags: Futex2Flags) -> Self
        returns
            Sqe(
                IoUringSqe {
                    opcode: Opcode::FutexWake.as_raw(),
                    addr: uaddr,
                    off: count,
                    addr3: mask,
                    fd: flags.bits() as i32,
                    ..IoUringSqe::zeroed()
                },
            ),
    {
        Sqe(
            IoUringSqe {
                opcode: Opcode::FutexWake.as_raw(),
                addr: uaddr,
                off: count,
                addr3: mask,
                fd: flags.bits() as i32,
                ..IoUringSqe::zeroed()
            },
        )
    }

    /// Wait on several words at once.
    #[verifier::allow_in_spec]
    pub fn futex_waitv(waiters: &Placed<Vec<FutexWaitv>>) -> Self
        requires
            waiters.value@.len() <= u32::MAX,
        returns
            Sqe::futex_waitv_ptr(waiters.addr, waiters.value@.len() as u32),
    {
        Sqe::futex_waitv_ptr(waiters.addr, waiters.value.len() as u32)
    }

    /// [`futex_waitv`](Self::futex_waitv) with the array at address `waiters`.
    #[verifier::allow_in_spec]
    pub fn futex_waitv_ptr(waiters: u64, count: u32) -> Self
        returns
            Sqe(
                IoUringSqe {
                    opcode: Opcode::FutexWaitv.as_raw(),
                    addr: waiters,
                    len: count,
                    ..IoUringSqe::zeroed()
                },
            ),
    {
        Sqe(
            IoUringSqe {
                opcode: Opcode::FutexWaitv.as_raw(),
                addr: waiters,
                len: count,
                ..IoUringSqe::zeroed()
            },
        )
    }
}

/// Waiting on a word is operation 51: the word, what it is expected to hold and
/// which wakes count. Waking is 52: the word, how many to wake and which.
pub proof fn futexes_name_word_and_mask(uaddr: u64, val: u64, mask: u64, flags: Futex2Flags)
    ensures
        Sqe::futex_wait(uaddr, val, mask, flags).0 == (IoUringSqe {
            opcode: 51,
            fd: flags.0 as i32,
            off: val,
            addr: uaddr,
            addr3: mask,
            ..blank()
        }),
        Sqe::futex_wake(uaddr, val, mask, flags).0 == (IoUringSqe {
            opcode: 52,
            fd: flags.0 as i32,
            off: val,
            addr: uaddr,
            addr3: mask,
            ..blank()
        }),
{
}

/// Waiting on several words is operation 53: the array and how many.
pub proof fn several_words_are_an_array(at: u64, count: u32)
    ensures
        Sqe::futex_waitv_ptr(at, count).0 == (IoUringSqe {
            opcode: 53,
            addr: at,
            len: count,
            ..blank()
        }),
{
}

/// An array of words to wait on stands for where it lies and how long it is.
pub proof fn several_words_are_covered(words: Placed<Vec<FutexWaitv>>)
    requires
        words.value@.len() <= u32::MAX,
    ensures
        Sqe::futex_waitv(&words).0 == (IoUringSqe {
            opcode: 53,
            addr: words.addr,
            len: words.value@.len() as u32,
            ..blank()
        }),
{
}

} // verus!
