//! One fixed-size value, placed in owned storage for the kernel to read.
//!
//! Several operations hand the kernel the address of a single small
//! structure. A polling ring reads it on its own schedule, so no call's
//! return proves that the read has happened: the storage is owned until the
//! completion, and a [`Staged`] value is that storage together with what
//! was written to it.

use super::buffer::{read_at, write_at, StableBufferMut};
use crate::bytes::{overwritten, overwritten_reads_back};
use crate::types::abi::Abi;
use vstd::prelude::*;

verus! {

/// Why storage cannot hold a value.
#[derive(Clone, Copy, Debug, PartialEq, Eq, Structural)]
pub enum Misfit {
    /// It has too few bytes.
    TooSmall {
        /// Bytes needed.
        needed: usize,
        /// Bytes there are.
        got: usize,
    },
    /// Its address is not a multiple of the alignment.
    Misaligned {
        /// Alignment needed.
        needed: usize,
    },
}

/// Whether storage of `got` bytes at `addr` lacks room or alignment. Room is
/// looked at first.
pub open spec fn misfit(needed: nat, align: usize, got: nat, addr: usize) -> Option<Misfit> {
    if got < needed {
        Some(Misfit::TooSmall { needed: needed as usize, got: got as usize })
    } else if addr % align != 0 {
        Some(Misfit::Misaligned { needed: align })
    } else {
        None
    }
}

/// A value written to the start of storage that is owned along with it.
pub struct Staged<S: StableBufferMut, T: Abi> {
    store: S,
    value: T,
}

impl<S: StableBufferMut, T: Abi> Staged<S, T> {
    /// The storage.
    pub closed spec fn store(self) -> S {
        self.store
    }

    /// The value.
    pub closed spec fn value(self) -> T {
        self.value
    }

    /// The storage starts with the value's bytes.
    #[verifier::type_invariant]
    pub open spec fn is_published(self) -> bool {
        &&& self.store().bytes().len() >= T::spec_size()
        &&& self.store().bytes().subrange(0, T::spec_size() as int) == self.value().encoded()
    }

    /// Whoever decodes the storage finds the value that was staged.
    pub proof fn reads_back(self)
        requires
            self.is_published(),
        ensures
            T::decoded(self.store().bytes().subrange(0, T::spec_size() as int)) == self.value(),
    {
        self.value.decoding_inverts_encoding();
    }

    /// Write `value` to the start of `store`, at an address that is a
    /// multiple of `align`.
    ///
    /// # Errors
    ///
    /// Returns the storage unchanged if it does not fit.
    pub fn place(value: T, store: S, align: usize) -> (r: Result<Self, (S, Misfit)>)
        requires
            align > 0,
        ensures
            match r {
                Err((back, why)) => {
                    &&& back == store
                    &&& misfit(T::spec_size(), align, store.bytes().len(), store.addr()) == Some(
                        why,
                    )
                },
                Ok(staged) => {
                    &&& misfit(T::spec_size(), align, store.bytes().len(), store.addr()) is None
                    &&& staged.value() == value
                    &&& staged.store().addr() == store.addr()
                    &&& staged.store().bytes() == overwritten(store.bytes(), 0, value.encoded())
                },
            },
    {
        let needed: usize = T::size_of();
        let got: usize = store.stable_len();
        if got < needed {
            return Err((store, Misfit::TooSmall { needed, got }));
        }
        if !store.stable_ptr().is_multiple_of(align) {
            return Err((store, Misfit::Misaligned { needed: align }));
        }
        let mut store = store;
        proof {
            value.decoding_inverts_encoding();
            overwritten_reads_back(store.bytes(), 0, value.encoded());
        }
        write_at(&mut store, 0, value.encode().as_slice());
        Ok(Staged { store, value })
    }

    /// Where the value is.
    pub fn addr(&self) -> (a: u64)
        ensures
            a == self.store().addr(),
    {
        self.store.stable_ptr() as u64
    }

    /// Borrow the value that was asked for.
    pub fn get(&self) -> (v: &T)
        ensures
            *v == self.value(),
    {
        &self.value
    }

    /// The value as the kernel will read it.
    ///
    /// Reads back the storage rather than copying what was asked for.
    pub fn published(&self) -> (v: T)
        ensures
            v == self.value(),
            v == T::decoded(self.store().bytes().subrange(0, T::spec_size() as int)),
    {
        proof {
            use_type_invariant(self);
            self.reads_back();
        }
        let size: usize = T::size_of();
        T::decode(read_at(&self.store, 0, size).as_slice())
    }

    /// Take the storage.
    pub fn into_store(self) -> (s: S)
        ensures
            s == self.store(),
    {
        self.store
    }
}

/// Storage is refused exactly where it is too short or else begins at an
/// address that is no multiple of the alignment, and the refusal says by how
/// much.
pub proof fn misfits_say_what_is_wrong(needed: usize, align: usize, got: usize, addr: usize)
    requires
        align > 0,
    ensures
        misfit(needed as nat, align, got as nat, addr) is None <==> needed <= got && addr % align
            == 0,
        misfit(needed as nat, align, got as nat, addr) is Some && got < needed ==> misfit(
            needed as nat,
            align,
            got as nat,
            addr,
        ) == Some(Misfit::TooSmall { needed, got }),
        misfit(needed as nat, align, got as nat, addr) is Some && needed <= got ==> misfit(
            needed as nat,
            align,
            got as nat,
            addr,
        ) == Some(Misfit::Misaligned { needed: align }),
{
}

impl<S: StableBufferMut, T: Abi> Staged<S, T> {
    /// The storage begins with the value, byte by byte.
    pub proof fn bytes_are_in_storage(self, i: int)
        requires
            self.is_published(),
            0 <= i < T::spec_size(),
        ensures
            T::spec_size() <= self.store().bytes().len(),
            self.store().bytes()[i] == self.value().encoded()[i],
    {
        self.value().decoding_inverts_encoding();
        assert(self.store().bytes().subrange(0, T::spec_size() as int)[i]
            == self.store().bytes()[i]);
    }
}

} // verus!
