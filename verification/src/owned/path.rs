//! Address-stable, NUL-terminated path storage.
//!
//! Every other owned request hands the kernel an address *and* a length. A
//! path has no length field in a submission: the kernel reads forward until
//! it finds a NUL byte, so the terminator is the entire bound. A path
//! without one would have the kernel read past the end of the allocation.
//!
//! So termination is checked once, before a request can be built, and
//! [`OwnedPath`] carries the proof: it cannot exist without a terminator
//! inside its storage.

use super::buffer::{read_at, write_at, StableBuffer, StableBufferMut};
use crate::bytes::overwritten;
use crate::text::{decimal, with_decimal};
use vstd::prelude::*;
use vstd::string::StringExecFns;

verus! {

/// Why some bytes could not be used as a path.
#[derive(Clone, Copy, Debug, PartialEq, Eq, Structural)]
pub enum PathError {
    /// No NUL byte where one is needed, or one inside the path.
    NotTerminated,
    /// The path is empty.
    Empty,
    /// The storage does not hold that many bytes.
    TooLong {
        /// Bytes the path needs, with its NUL.
        needed: usize,
        /// Bytes the supplied storage has.
        got: usize,
    },
}

impl PathError {
    /// What [`message`](Self::message) says.
    pub open spec fn text(self) -> Seq<char> {
        match self {
            PathError::NotTerminated => "path is not NUL-terminated"@,
            PathError::Empty => "path is empty"@,
            PathError::TooLong { needed, got } => "path needs "@ + decimal(needed as nat)
                + " bytes, storage has "@ + decimal(got as nat),
        }
    }

    /// Every case says what happened, in its own words and with its own numbers.
    pub proof fn texts_say_what_happened(self)
        ensures
            self is NotTerminated ==> self.text() == "path is not NUL-terminated"@,
            self is Empty ==> self.text() == "path is empty"@,
            self matches PathError::TooLong { needed, got } ==> self.text()
                == "path needs "@ + decimal(needed as nat) + " bytes, storage has "@
                    + decimal(got as nat),
    {
    }

    /// A description for people.
    pub fn message(&self) -> (s: String)
        ensures
            s@ == self.text(),
    {
        match *self {
            PathError::NotTerminated => String::from_str("path is not NUL-terminated"),
            PathError::Empty => String::from_str("path is empty"),
            PathError::TooLong { needed, got } => {
                let s = with_decimal(String::from_str("path needs "), needed as u64);
                with_decimal(s.concat(" bytes, storage has "), got as u64)
            },
        }
    }
}

/// The bytes a path occupies, terminator and all.
pub open spec fn terminated(path: Seq<u8>) -> Seq<u8> {
    path.push(0)
}

/// Storage holding a verified NUL-terminated path.
///
/// Wraps any [`StableBuffer`], so the bytes keep one address while the
/// kernel resolves them. There is deliberately no way to write the bytes
/// from here on: that could remove the terminator.
pub struct OwnedPath<S: StableBuffer> {
    storage: S,
    len: usize,
}

impl<S: StableBuffer> View for OwnedPath<S> {
    type V = Seq<u8>;

    /// The path, without its terminator.
    closed spec fn view(&self) -> Seq<u8> {
        self.storage.bytes().take(self.len as int)
    }
}

/// The first index at which `bytes` hold a zero is `n`.
pub open spec fn first_nul_at(bytes: Seq<u8>, n: int) -> bool {
    &&& 0 <= n < bytes.len()
    &&& bytes[n] == 0
    &&& forall|i: int| 0 <= i < n ==> bytes[i] != 0
}

impl<S: StableBuffer> OwnedPath<S> {
    /// A non-empty path is followed by its terminator, inside the storage.
    #[verifier::type_invariant]
    pub closed spec fn wf(self) -> bool {
        &&& self.len > 0
        &&& first_nul_at(self.storage.bytes(), self.len as int)
    }

    /// The storage the path lies in.
    pub closed spec fn storage(self) -> S {
        self.storage
    }

    /// The kernel's scan for the terminator ends inside the storage.
    ///
    /// Reading forward from the storage's address, the first zero byte comes
    /// before the end, and what precedes it is the path, which is not empty.
    pub proof fn scan_stops_inside_storage(self)
        requires
            self.wf(),
        ensures
            first_nul_at(self.storage().bytes(), self@.len() as int),
            self@ == self.storage().bytes().take(self@.len() as int),
            self@.len() > 0,
            !self@.contains(0),
    {
    }

    /// Adopt storage that already holds a NUL-terminated path.
    ///
    /// # Errors
    ///
    /// Returns the storage back with [`PathError::NotTerminated`] if no NUL
    /// is present, or [`PathError::Empty`] if the first byte is one.
    pub fn adopt(storage: S) -> (r: Result<Self, (S, PathError)>)
        ensures
            !storage.bytes().contains(0) ==> r == Err::<Self, (S, PathError)>(
                (storage, PathError::NotTerminated),
            ),
            first_nul_at(storage.bytes(), 0) ==> r == Err::<Self, (S, PathError)>(
                (storage, PathError::Empty),
            ),
            storage.bytes().contains(0) && !first_nul_at(storage.bytes(), 0) ==> {
                &&& r is Ok
                &&& r->Ok_0.storage() == storage
                &&& first_nul_at(storage.bytes(), r->Ok_0@.len() as int)
                &&& r->Ok_0@ == storage.bytes().take(r->Ok_0@.len() as int)
            },
    {
        let end: usize = storage.stable_len();
        let mut n: usize = 0;
        while n < end
            invariant
                n <= end,
                end == storage.bytes().len(),
                forall|i: int| 0 <= i < n ==> storage.bytes()[i] != 0,
            decreases end - n,
        {
            if storage.load(n) == 0 {
                assert(storage.bytes().contains(0));
                if n == 0 {
                    return Err((storage, PathError::Empty));
                }
                return Ok(OwnedPath { storage, len: n });
            }
            n += 1;
        }
        Err((storage, PathError::NotTerminated))
    }

    /// Path length in bytes, not counting the NUL.
    pub fn len(&self) -> (n: usize)
        ensures
            n == self@.len(),
    {
        proof {
            use_type_invariant(self);
        }
        self.len
    }

    /// Always `false`: an empty path is refused.
    pub fn is_empty(&self) -> (b: bool)
        ensures
            !b,
    {
        proof {
            use_type_invariant(self);
        }
        self.len == 0
    }

    /// The path bytes, without the terminator.
    pub fn as_bytes(&self) -> (b: Vec<u8>)
        ensures
            b@ == self@,
    {
        proof {
            use_type_invariant(self);
        }
        let b: Vec<u8> = read_at(&self.storage, 0, self.len);
        assert(b@ =~= self@);
        b
    }

    /// Address the kernel starts reading from.
    pub fn stable_ptr(&self) -> (a: usize)
        ensures
            a == self.storage().addr(),
    {
        self.storage.stable_ptr()
    }

    /// Give the storage back, discarding the verification.
    pub fn into_storage(self) -> (s: S)
        ensures
            s == self.storage(),
    {
        self.storage
    }
}

impl<S: StableBufferMut> OwnedPath<S> {
    /// Copy `path` into `storage` and append the terminator.
    ///
    /// `path` must not contain a NUL itself: it would end the kernel's read
    /// early, so a longer name would silently open a shorter one.
    ///
    /// # Errors
    ///
    /// Returns the storage back, unchanged, with [`PathError::Empty`] for an
    /// empty path, [`PathError::NotTerminated`] if `path` contains a NUL, or
    /// [`PathError::TooLong`] if the storage cannot hold it with its NUL.
    pub fn copy_into(storage: S, path: &[u8]) -> (r: Result<Self, (S, PathError)>)
        requires
            path@.len() < usize::MAX,
        ensures
            path@.len() == 0 ==> r == Err::<Self, (S, PathError)>((storage, PathError::Empty)),
            path@.len() > 0 && path@.contains(0) ==> r == Err::<Self, (S, PathError)>(
                (storage, PathError::NotTerminated),
            ),
            path@.len() > 0 && !path@.contains(0) && storage.bytes().len() < path@.len() + 1
                ==> r == Err::<Self, (S, PathError)>(
                (
                    storage,
                    PathError::TooLong {
                        needed: (path@.len() + 1) as usize,
                        got: storage.bytes().len() as usize,
                    },
                ),
            ),
            path@.len() > 0 && !path@.contains(0) && storage.bytes().len() >= path@.len() + 1 ==> {
                &&& r is Ok
                &&& r->Ok_0@ == path@
                &&& r->Ok_0.storage().addr() == storage.addr()
                &&& r->Ok_0.storage().bytes() == overwritten(storage.bytes(), 0, terminated(path@))
            },
    {
        let len: usize = path.len();
        if len == 0 {
            return Err((storage, PathError::Empty));
        }
        let mut i: usize = 0;
        while i < len
            invariant
                i <= len,
                len == path@.len(),
                forall|j: int| 0 <= j < i ==> path@[j] != 0,
            decreases len - i,
        {
            if path[i] == 0 {
                assert(path@.contains(0));
                return Err((storage, PathError::NotTerminated));
            }
            i += 1;
        }
        let needed: usize = len + 1;
        let got: usize = storage.stable_len();
        if got < needed {
            return Err((storage, PathError::TooLong { needed, got }));
        }
        let mut storage = storage;
        let ghost before = storage.bytes();
        write_at(&mut storage, 0, path);
        storage.store(len, 0);
        assert(storage.bytes() =~= overwritten(before, 0, terminated(path@)));
        let r = OwnedPath { storage, len };
        assert(r@ =~= path@);
        Ok(r)
    }
}

/// A terminated path is the path with one zero byte behind it.
pub proof fn terminators_follow_the_path(path: Seq<u8>, i: int)
    requires
        0 <= i < path.len(),
    ensures
        terminated(path).len() == path.len() + 1,
        terminated(path)[i] == path[i],
        terminated(path)[path.len() as int] == 0,
{
}

/// There is one first zero at most, none comes before it, and a path without
/// zeros has its terminator there.
pub proof fn first_zeros_are_first(bytes: Seq<u8>, n: int, m: int, path: Seq<u8>)
    ensures
        first_nul_at(bytes, n) ==> 0 <= n < bytes.len() && bytes[n] == 0,
        first_nul_at(bytes, n) && 0 <= m < bytes.len() && bytes[m] == 0 ==> n <= m,
        !path.contains(0) ==> first_nul_at(terminated(path), path.len() as int),
{
    if !path.contains(0) {
        assert forall|i: int| 0 <= i < path.len() implies terminated(path)[i] != 0 by {
            assert(path.contains(path[i]));
        }
    }
}

} // verus!
