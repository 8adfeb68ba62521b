//! `openat2`, where the kernel reads a second structure to learn what to do.
//!
//! An ordinary open carries everything in the submission. `openat2` carries
//! only the address of a structure in caller memory, so that memory has to
//! stay put as well: its storage is supplied by the caller and checked for
//! size and alignment before the request can exist.
//!
//! `openat2` also refuses what an ordinary open ignores: a mode without a
//! flag that creates something, mode bits beyond the permissions, unknown
//! flags, and a structure of another size. None of those can be expressed
//! here; [`Openat2Request::is_acceptable`] says so.

use super::buffer::{read_at, write_at, StableBuffer, StableBufferMut};
use super::identity::{RequestId, RingId};
use super::lifecycle::Ticket;
use super::open::OpenedFile;
use super::path::OwnedPath;
use super::request::Receipt;
use crate::bytes::{le_value, overwritten, overwritten_reads_back};
use crate::error::Error;
use crate::fs::{claimed, File};
use crate::op::{blank, IoUringSqe, Sqe};
use crate::text::{decimal, numeral, numeral_text, with_decimal};
use crate::types::abi::{Abi, OpenHow};
use crate::types::fd::DirFd;
use crate::types::flags::FileMode;
use crate::types::open::{OpenFlags, ResolveFlags, OPEN_FLAG_BITS, RESOLVE_FLAG_BITS};
use core::mem::ManuallyDrop;
use vstd::prelude::*;
use vstd::string::StringExecFns;

verus! {

/// Permission bits the kernel accepts.
pub const MODE_BITS: u32 = 0o7777;

/// How a request supplies the permissions of a new file.
///
/// The kernel refuses a mode without a flag that creates something, so the
/// two are paired and the refused combination cannot be written.
#[derive(Clone, Copy, Debug, PartialEq, Eq, Structural)]
pub enum Openat2Mode {
    /// Open an existing file. The kernel is sent a mode of 0.
    Existing,
    /// Create the file if it is absent.
    Create(FileMode),
    /// Create the file, failing if it is there.
    CreateNew(FileMode),
    /// Create an unnamed file in the directory the path names.
    Tmpfile(FileMode),
}

impl Openat2Mode {
    /// The open flags this mode implies.
    pub open spec fn flag_word(self) -> u32 {
        match self {
            Openat2Mode::Existing => 0,
            Openat2Mode::Create(_) => 0o100,
            Openat2Mode::CreateNew(_) => 0o100u32 | 0o200u32,
            Openat2Mode::Tmpfile(_) => 0o20200000,
        }
    }

    /// The open flags this mode implies, beyond the caller's own.
    pub fn flags(self) -> (r: OpenFlags)
        ensures
            r.word() == self.flag_word(),
    {
        match self {
            Openat2Mode::Existing => OpenFlags::empty(),
            Openat2Mode::Create(_) => OpenFlags::creat(),
            Openat2Mode::CreateNew(_) => OpenFlags::creat().union(OpenFlags::excl()),
            Openat2Mode::Tmpfile(_) => OpenFlags::tmpfile(),
        }
    }

    /// The permission bits sent to the kernel.
    #[verifier::allow_in_spec]
    pub fn mode(self) -> FileMode
        returns
            (match self {
                Openat2Mode::Existing => FileMode::empty(),
                Openat2Mode::Create(mode) => mode,
                Openat2Mode::CreateNew(mode) => mode,
                Openat2Mode::Tmpfile(mode) => mode,
            }),
    {
        match self {
            Openat2Mode::Existing => FileMode::empty(),
            Openat2Mode::Create(mode) => mode,
            Openat2Mode::CreateNew(mode) => mode,
            Openat2Mode::Tmpfile(mode) => mode,
        }
    }
}

/// Why an `openat2` request could not be built.
#[derive(Clone, Copy, Debug, PartialEq, Eq, Structural)]
pub enum Openat2Error {
    /// The storage cannot hold a whole [`OpenHow`].
    HowTooSmall {
        /// Bytes it needs.
        needed: usize,
        /// Bytes the supplied storage has.
        got: usize,
    },
    /// The storage is not aligned for an [`OpenHow`].
    HowMisaligned {
        /// Alignment it needs.
        needed: usize,
    },
    /// The mode has bits that are not permissions.
    ModeOutsidePermissionBits {
        /// Those bits.
        stray: u32,
    },
}

impl Openat2Error {
    /// What [`message`](Self::message) says.
    pub open spec fn text(self) -> Seq<char> {
        match self {
            Openat2Error::HowTooSmall { needed, got } => "open_how storage needs "@ + decimal(
                needed as nat,
            ) + " bytes, got "@ + decimal(got as nat),
            Openat2Error::HowMisaligned { needed } => "open_how storage must be "@ + decimal(
                needed as nat,
            ) + "-byte aligned"@,
            Openat2Error::ModeOutsidePermissionBits { stray } => "mode sets bits outside 0o7777: "@
                + numeral(stray as nat, 8),
        }
    }

    /// Every case says what happened, in its own words and with its own numbers.
    pub proof fn texts_say_what_happened(self)
        ensures
            self matches Openat2Error::HowTooSmall { needed, got } ==> self.text()
                == "open_how storage needs "@ + decimal(needed as nat) + " bytes, got "@
                    + decimal(got as nat),
            self matches Openat2Error::HowMisaligned { needed } ==> self.text()
                == "open_how storage must be "@ + decimal(needed as nat) + "-byte aligned"@,
            self matches Openat2Error::ModeOutsidePermissionBits { stray } ==> self.text()
                == "mode sets bits outside 0o7777: "@ + numeral(stray as nat, 8),
    {
    }

    /// A description for people.
    pub fn message(&self) -> (s: String)
        ensures
            s@ == self.text(),
    {
        match *self {
            Openat2Error::HowTooSmall { needed, got } => {
                let s = with_decimal(String::from_str("open_how storage needs "), needed as u64);
                with_decimal(s.concat(" bytes, got "), got as u64)
            },
            Openat2Error::HowMisaligned { needed } => {
                let s = with_decimal(String::from_str("open_how storage must be "), needed as u64);
                s.concat("-byte aligned")
            },
            Openat2Error::ModeOutsidePermissionBits { stray } => {
                let digits = numeral_text(stray as u64, 8);
                String::from_str("mode sets bits outside 0o7777: ").concat(digits.as_str())
            },
        }
    }
}

/// An `openat2`: what is asked for.
pub struct Openat2Request<S: StableBuffer, H> {
    /// Where a relative path starts.
    pub dir: DirFd,
    /// What to open.
    pub path: OwnedPath<S>,
    /// How to open it.
    pub flags: OpenFlags,
    /// Whether to create it, and with which permissions.
    pub mode: Openat2Mode,
    /// How the path may be walked.
    pub resolve: ResolveFlags,
    /// Where the kernel finds all that.
    pub how_store: H,
}

impl<S: StableBuffer, H: StableBuffer> Openat2Request<S, H> {
    /// What the kernel is told to do.
    pub open spec fn how(self) -> OpenHow {
        OpenHow {
            flags: (self.flags.word() | self.mode.flag_word()) as u64,
            mode: self.mode.mode().bits() as u64,
            resolve: self.resolve.word(),
        }
    }

    /// The submission that asks for it.
    pub open spec fn sqe(self) -> Sqe {
        Sqe::openat2_ptr(
            self.dir.as_raw(),
            self.path.storage().addr() as u64,
            self.how_store.addr() as u64,
            24,
        )
    }

    /// The entry opens by instructions, operation 28: the stored path, relative to
    /// the directory, and the 24 bytes of the instructions in their storage.
    pub proof fn opens_by_its_instructions(self)
        ensures
            self.sqe().0 == (IoUringSqe {
                opcode: 28,
                fd: self.dir.as_raw(),
                off: self.how_store.addr() as u64,
                addr: self.path.storage().addr() as u64,
                len: 24,
                ..blank()
            }),
    {
    }

    /// The instructions are in storage that fits them.
    pub open spec fn is_published(self) -> bool {
        &&& self.how_store.bytes().len() >= 24
        &&& self.how_store.addr() % 8 == 0
        &&& self.how_store.bytes().subrange(0, 24) == self.how().encoded()
    }

    /// None of the combinations that the kernel refuses is present.
    pub open spec fn is_acceptable(self) -> bool {
        let how = self.how();
        &&& how.mode & !(MODE_BITS as u64) == 0
        &&& how.mode != 0 ==> how.flags & 0o100 == 0o100 || how.flags & 0o20200000 == 0o20200000
        &&& how.flags & !(OPEN_FLAG_BITS as u64) == 0
        &&& how.resolve & !RESOLVE_FLAG_BITS == 0
        &&& self.sqe().0.len == OpenHow::spec_size()
    }
}

/// An `openat2` that owns its path and its instructions but is not queued
/// yet.
pub struct PreparedOpenat2<S: StableBuffer, H: StableBufferMut> {
    path: OwnedPath<S>,
    how_store: H,
    dir: DirFd,
    flags: OpenFlags,
    mode: Openat2Mode,
    resolve: ResolveFlags,
}

impl<S: StableBuffer, H: StableBufferMut> View for PreparedOpenat2<S, H> {
    type V = Openat2Request<S, H>;

    closed spec fn view(&self) -> Openat2Request<S, H> {
        Openat2Request {
            dir: self.dir,
            path: self.path,
            flags: self.flags,
            mode: self.mode,
            resolve: self.resolve,
            how_store: self.how_store,
        }
    }
}

impl<S: StableBuffer, H: StableBufferMut> PreparedOpenat2<S, H> {
    /// The instructions are published, and made of accepted bits only.
    #[verifier::type_invariant]
    pub closed spec fn wf(self) -> bool {
        &&& self@.is_published()
        &&& self.mode.mode().bits() & !MODE_BITS == 0
        &&& self.flags.wf()
        &&& self.resolve.wf()
    }

    /// What reaches the kernel is published in full, and is never one of the
    /// combinations that it refuses out of hand.
    pub proof fn reaches_the_kernel_intact(self)
        requires
            self.wf(),
        ensures
            self@.is_published(),
            self@.is_acceptable(),
    {
        self.flags.only_named_bits();
        self.resolve.only_named_bits();
        let mode = self.mode.mode().bits();
        let own = self.flags.word();
        let implied = self.mode.flag_word();
        assert((mode as u64) & !(0o7777u32 as u64) == 0) by (bit_vector)
            requires
                mode & !0o7777u32 == 0,
        ;
        assert((own | 0o100u32) as u64 & 0o100u64 == 0o100u64) by (bit_vector);
        assert((own | (0o100u32 | 0o200u32)) as u64 & 0o100u64 == 0o100u64) by (bit_vector);
        assert((own | 0o20200000u32) as u64 & 0o20200000u64 == 0o20200000u64) by (bit_vector);
        assert((own | implied) as u64 & !(0o32603703u32 as u64) == 0) by (bit_vector)
            requires
                own & !0o32603703u32 == 0,
                implied == 0 || implied == 0o100u32 || implied == (0o100u32 | 0o200u32) || implied
                    == 0o20200000u32,
        ;
    }

    /// Open `path`, relative to `dir`.
    ///
    /// Takes `how_store` to keep the instructions in.
    ///
    /// # Errors
    ///
    /// Returns path and storage back, unchanged, if the mode has bits beyond
    /// the permissions, or else if the storage is too small, or else if it
    /// is misaligned.
    pub fn at(
        dir: DirFd,
        path: OwnedPath<S>,
        flags: OpenFlags,
        mode: Openat2Mode,
        resolve: ResolveFlags,
        how_store: H,
    ) -> (r: Result<Self, (OwnedPath<S>, H, Openat2Error)>)
        ensures
            ({
                let stray = mode.mode().bits() & !MODE_BITS;
                let got = how_store.bytes().len();
                if stray != 0 {
                    r == Err::<Self, (OwnedPath<S>, H, Openat2Error)>(
                        (path, how_store, Openat2Error::ModeOutsidePermissionBits { stray }),
                    )
                } else if got < 24 {
                    r == Err::<Self, (OwnedPath<S>, H, Openat2Error)>(
                        (
                            path,
                            how_store,
                            Openat2Error::HowTooSmall { needed: 24, got: got as usize },
                        ),
                    )
                } else if how_store.addr() % 8 != 0 {
                    r == Err::<Self, (OwnedPath<S>, H, Openat2Error)>(
                        (path, how_store, Openat2Error::HowMisaligned { needed: 8 }),
                    )
                } else {
                    &&& r is Ok
                    &&& r->Ok_0@ == (Openat2Request {
                        dir,
                        path,
                        flags,
                        mode,
                        resolve,
                        how_store: r->Ok_0@.how_store,
                    })
                    &&& r->Ok_0@.how_store.addr() == how_store.addr()
                    &&& r->Ok_0@.how_store.bytes() == overwritten(
                        how_store.bytes(),
                        0,
                        r->Ok_0@.how().encoded(),
                    )
                }
            }),
    {
        let stray: u32 = mode.mode().bits() & !MODE_BITS;
        if stray != 0 {
            return Err((path, how_store, Openat2Error::ModeOutsidePermissionBits { stray }));
        }
        let needed: usize = OpenHow::size_of();
        let got: usize = how_store.stable_len();
        if got < needed {
            return Err((path, how_store, Openat2Error::HowTooSmall { needed, got }));
        }
        let align: usize = OpenHow::align_of();
        if !how_store.stable_ptr().is_multiple_of(align) {
            return Err((path, how_store, Openat2Error::HowMisaligned { needed: align }));
        }
        let mut how_store = how_store;
        let ghost before = how_store.bytes();
        let how = Self::publish_how(flags, mode, resolve, &mut how_store);
        proof {
            use_type_invariant(&flags);
            use_type_invariant(&resolve);
            how.decoding_inverts_encoding();
            overwritten_reads_back(before, 0, how.encoded());
        }
        Ok(PreparedOpenat2 { path, how_store, dir, flags, mode, resolve })
    }

    /// Open `path`, relative to the current directory.
    ///
    /// # Errors
    ///
    /// As [`at`](Self::at).
    pub fn cwd(
        path: OwnedPath<S>,
        flags: OpenFlags,
        mode: Openat2Mode,
        resolve: ResolveFlags,
        how_store: H,
    ) -> (r: Result<Self, (OwnedPath<S>, H, Openat2Error)>)
        ensures
            ({
                let stray = mode.mode().bits() & !MODE_BITS;
                let got = how_store.bytes().len();
                if stray != 0 {
                    r == Err::<Self, (OwnedPath<S>, H, Openat2Error)>(
                        (path, how_store, Openat2Error::ModeOutsidePermissionBits { stray }),
                    )
                } else if got < 24 {
                    r == Err::<Self, (OwnedPath<S>, H, Openat2Error)>(
                        (
                            path,
                            how_store,
                            Openat2Error::HowTooSmall { needed: 24, got: got as usize },
                        ),
                    )
                } else if how_store.addr() % 8 != 0 {
                    r == Err::<Self, (OwnedPath<S>, H, Openat2Error)>(
                        (path, how_store, Openat2Error::HowMisaligned { needed: 8 }),
                    )
                } else {
                    &&& r is Ok
                    &&& r->Ok_0@ == (Openat2Request {
                        dir: DirFd::Cwd,
                        path,
                        flags,
                        mode,
                        resolve,
                        how_store: r->Ok_0@.how_store,
                    })
                    &&& r->Ok_0@.how_store.addr() == how_store.addr()
                    &&& r->Ok_0@.how_store.bytes() == overwritten(
                        how_store.bytes(),
                        0,
                        r->Ok_0@.how().encoded(),
                    )
                }
            }),
    {
        Self::at(DirFd::Cwd, path, flags, mode, resolve, how_store)
    }

    /// Write the instructions to where the kernel will look for them.
    fn publish_how(
        flags: OpenFlags,
        mode: Openat2Mode,
        resolve: ResolveFlags,
        how_store: &mut H,
    ) -> (how: OpenHow)
        requires
            old(how_store).bytes().len() >= 24,
        ensures
            how == (OpenHow {
                flags: (flags.word() | mode.flag_word()) as u64,
                mode: mode.mode().bits() as u64,
                resolve: resolve.word(),
            }),
            final(how_store).addr() == old(how_store).addr(),
            final(how_store).bytes() == overwritten(old(how_store).bytes(), 0, how.encoded()),
    {
        let how = OpenHow {
            flags: (flags.bits() | mode.flags().bits()) as u64,
            mode: mode.mode().bits() as u64,
            resolve: resolve.bits(),
        };
        proof {
            how.decoding_inverts_encoding();
        }
        write_at(how_store, 0, how.encode().as_slice());
        how
    }

    /// Where a relative path starts.
    pub fn dir(&self) -> (r: DirFd)
        ensures
            r == self@.dir,
    {
        self.dir
    }

    /// How the file is opened, without what the mode implies.
    pub fn flags(&self) -> (r: OpenFlags)
        ensures
            r == self@.flags,
    {
        self.flags
    }

    /// Whether the file is created, and with which permissions.
    pub fn mode(&self) -> (r: Openat2Mode)
        ensures
            r == self@.mode,
    {
        self.mode
    }

    /// How the path may be walked.
    pub fn resolve(&self) -> (r: ResolveFlags)
        ensures
            r == self@.resolve,
    {
        self.resolve
    }

    /// The instructions as the kernel will read them.
    ///
    /// Reads back the published storage rather than rebuilding it.
    pub fn published_how(&self) -> (r: OpenHow)
        ensures
            r == self@.how(),
            r == OpenHow::decoded(self@.how_store.bytes().subrange(0, 24)),
    {
        proof {
            use_type_invariant(self);
            self@.how().decoding_inverts_encoding();
        }
        OpenHow::decode(read_at(&self.how_store, 0, OpenHow::size_of()).as_slice())
    }

    /// The path to open.
    pub fn path(&self) -> (r: &OwnedPath<S>)
        ensures
            *r == self@.path,
    {
        &self.path
    }

    /// Give path and storage back, abandoning the request.
    pub fn into_parts(self) -> (r: (OwnedPath<S>, H))
        ensures
            r == (self@.path, self@.how_store),
    {
        (self.path, self.how_store)
    }

    /// Build the submission and move to the pending state.
    pub fn into_pending(self, ring: RingId, id: RequestId) -> (r: (Sqe, PendingOpenat2<S, H>))
        ensures
            r.0 == self@.sqe().user_data(id.raw()),
            r.1@ == (Ticket { ring, id, request: self@ }),
    {
        proof {
            use_type_invariant(&self);
        }
        let sqe = Sqe::openat2_ptr(
            self.dir.as_raw(),
            self.path.stable_ptr() as u64,
            self.how_store.stable_ptr() as u64,
            24,
        );
        let pending = PendingOpenat2 {
            path: ManuallyDrop::new(self.path),
            how_store: ManuallyDrop::new(self.how_store),
            ring,
            id,
            dir: self.dir,
            flags: self.flags,
            mode: self.mode,
            resolve: self.resolve,
        };
        (sqe.user_data(id.raw()), pending)
    }
}

/// A submitted `openat2` whose path and instructions the kernel may be
/// reading.
///
/// Dropping it runs no destructor for the storage: it leaks rather than
/// being freed underneath the kernel.
#[must_use]
pub struct PendingOpenat2<S: StableBuffer, H: StableBufferMut> {
    path: ManuallyDrop<OwnedPath<S>>,
    how_store: ManuallyDrop<H>,
    ring: RingId,
    id: RequestId,
    dir: DirFd,
    flags: OpenFlags,
    mode: Openat2Mode,
    resolve: ResolveFlags,
}

impl<S: StableBuffer, H: StableBufferMut> View for PendingOpenat2<S, H> {
    type V = Ticket<Openat2Request<S, H>>;

    closed spec fn view(&self) -> Ticket<Openat2Request<S, H>> {
        Ticket {
            ring: self.ring,
            id: self.id,
            request: Openat2Request {
                dir: self.dir,
                path: self.path@,
                flags: self.flags,
                mode: self.mode,
                resolve: self.resolve,
                how_store: self.how_store@,
            },
        }
    }
}

impl<S: StableBuffer, H: StableBufferMut> PendingOpenat2<S, H> {
    /// The instructions are still published.
    #[verifier::type_invariant]
    pub closed spec fn wf(self) -> bool {
        &&& self@.request.is_published()
        &&& self.mode.mode().bits() & !MODE_BITS == 0
        &&& self.flags.wf()
        &&& self.resolve.wf()
    }

    /// Identity the kernel echoes back in this request's completion.
    pub fn id(&self) -> (r: RequestId)
        ensures
            r == self@.id,
    {
        self.id
    }

    /// Identity of the queue that accepted this request.
    pub fn ring(&self) -> (r: RingId)
        ensures
            r == self@.ring,
    {
        self.ring
    }

    /// Whether `receipt` ends this very request.
    pub fn matches(&self, receipt: &Receipt) -> (r: bool)
        ensures
            r == receipt.belongs_to(self@.ring, self@.id),
    {
        receipt.belongs_to(self.ring, self.id)
    }

    /// Where a relative path starts.
    pub fn dir(&self) -> (r: DirFd)
        ensures
            r == self@.request.dir,
    {
        self.dir
    }

    /// Whether the file is created, and with which permissions.
    pub fn mode(&self) -> (r: Openat2Mode)
        ensures
            r == self@.request.mode,
    {
        self.mode
    }

    /// Take path and storage back without a receipt, undoing a failed push.
    ///
    /// Only for a submission that the kernel has never seen.
    pub fn reclaim_unsubmitted(self) -> (r: PreparedOpenat2<S, H>)
        ensures
            r@ == self@.request,
    {
        proof {
            use_type_invariant(&self);
        }
        PreparedOpenat2 {
            path: ManuallyDrop::into_inner(self.path),
            how_store: ManuallyDrop::into_inner(self.how_store),
            dir: self.dir,
            flags: self.flags,
            mode: self.mode,
            resolve: self.resolve,
        }
    }

    /// Trade a matching receipt for the descriptor, the path and the storage.
    ///
    /// # Errors
    ///
    /// Returns the ticket and receipt unchanged if the receipt belongs to
    /// another request or another ring.
    pub fn redeem(self, receipt: Receipt) -> (r: Result<Opened2<S, H>, (Self, Receipt)>)
        ensures
            match r {
                Err((ticket, back)) => {
                    &&& !receipt.belongs_to(self@.ring, self@.id)
                    &&& ticket@ == self@
                    &&& back == receipt
                },
                Ok(done) => {
                    &&& receipt.belongs_to(self@.ring, self@.id)
                    &&& done@.id == self@.id
                    &&& done@.result == receipt.raw_result()
                    &&& done@.path == (self@.request.path, self@.request.how_store)
                    &&& claimed(receipt.raw_result(), done@.file)
                },
            },
    {
        if !self.matches(&receipt) {
            return Err((self, receipt));
        }
        let result: i32 = receipt.raw_result();
        Ok(
            Opened2 {
                path: ManuallyDrop::into_inner(self.path),
                how_store: ManuallyDrop::into_inner(self.how_store),
                file: File::claim(result),
                id: self.id,
                result,
            },
        )
    }
}

/// A finished `openat2`: the descriptor, if any, and path and storage back.
pub struct Opened2<S: StableBuffer, H> {
    path: OwnedPath<S>,
    how_store: H,
    file: Option<File>,
    id: RequestId,
    result: i32,
}

impl<S: StableBuffer, H> View for Opened2<S, H> {
    type V = OpenedFile<(OwnedPath<S>, H)>;

    closed spec fn view(&self) -> OpenedFile<(OwnedPath<S>, H)> {
        OpenedFile {
            id: self.id,
            result: self.result,
            path: (self.path, self.how_store),
            file: self.file,
        }
    }
}

impl<S: StableBuffer, H> Opened2<S, H> {
    /// There is a descriptor exactly when the open succeeded.
    #[verifier::type_invariant]
    pub closed spec fn wf(self) -> bool {
        claimed(self.result, self.file)
    }

    /// A failed open leaves no descriptor, a successful one leaves the one
    /// its result names.
    pub proof fn descriptor_iff_success(self)
        requires
            self.wf(),
        ensures
            claimed(self@.result, self@.file),
    {
    }

    /// Identity of the request this completes.
    pub fn id(&self) -> (r: RequestId)
        ensures
            r == self@.id,
    {
        self.id
    }

    /// The raw result: a descriptor, or a negated error number.
    pub fn raw_result(&self) -> (r: i32)
        ensures
            r == self@.result,
    {
        self.result
    }

    /// Whether the open succeeded.
    pub fn is_ok(&self) -> (r: bool)
        ensures
            r == (self@.result >= 0),
    {
        Error::cqe_is_ok(self.result)
    }

    /// Why the request failed, if it did.
    ///
    /// # Errors
    ///
    /// The error number the completion carried.
    pub fn result(&self) -> (r: Result<(), Error>)
        ensures
            r == Error::status_of(self@.result),
    {
        Error::status_of(self.result)
    }

    /// Borrow the descriptor, if the open succeeded.
    pub fn file(&self) -> (r: Option<&File>)
        ensures
            match r {
                Some(x) => self@.file == Some(*x),
                None => self@.file is None,
            },
    {
        self.file.as_ref()
    }

    /// The path that was opened.
    pub fn path(&self) -> (r: &OwnedPath<S>)
        ensures
            *r == self@.path.0,
    {
        &self.path
    }

    /// Take the descriptor.
    pub fn into_file(self) -> (r: Option<File>)
        ensures
            r == self@.file,
    {
        self.file
    }

    /// Take the descriptor, the path and the storage.
    pub fn into_parts(self) -> (r: (Option<File>, OwnedPath<S>, H))
        ensures
            r == (self@.file, self@.path.0, self@.path.1),
    {
        (self.file, self.path, self.how_store)
    }
}

/// A mode implies the flags that create what it names, 0o100 and for a new file
/// 0o200 too, or 0o20200000 for an unnamed one, and sends the permissions
/// exactly where something may be created.
pub proof fn modes_imply_their_flags(mode: FileMode)
    ensures
        Openat2Mode::Existing.flag_word() == 0,
        Openat2Mode::Existing.mode().0 == 0,
        Openat2Mode::Create(mode).flag_word() == 0o100,
        Openat2Mode::Create(mode).mode().0 == mode.0,
        Openat2Mode::CreateNew(mode).flag_word() == 0o300,
        Openat2Mode::CreateNew(mode).mode().0 == mode.0,
        Openat2Mode::Tmpfile(mode).flag_word() == 0o20200000,
        Openat2Mode::Tmpfile(mode).mode().0 == mode.0,
        MODE_BITS == 0o7777,
{
    assert(0o100u32 | 0o200u32 == 0o300u32) by (bit_vector);
}

impl<S: StableBuffer, H: StableBuffer> Openat2Request<S, H> {
    /// The kernel finds in the storage the flags asked for together with those
    /// that the mode implies, then the permissions, then how to walk.
    pub proof fn bytes_are_the_instructions(self)
        requires
            self.is_published(),
        ensures
            24 <= self.how_store.bytes().len(),
            self.how_store.addr() % 8 == 0,
            le_value(self.how_store.bytes().subrange(0, 8)) == self.flags.word()
                | self.mode.flag_word(),
            le_value(self.how_store.bytes().subrange(8, 16)) == self.mode.mode().0,
            le_value(self.how_store.bytes().subrange(16, 24)) == self.resolve.word(),
    {
        let bytes = self.how_store.bytes();
        let how = bytes.subrange(0, 24);
        self.how().fields_lie_in_place();
        assert(how.subrange(0, 8) =~= bytes.subrange(0, 8));
        assert(how.subrange(8, 16) =~= bytes.subrange(8, 16));
        assert(how.subrange(16, 24) =~= bytes.subrange(16, 24));
    }

    /// Acceptable instructions have permissions only where something may be
    /// created, and no bit that the kernel does not know.
    pub proof fn acceptable_instructions_are_known(self)
        requires
            self.is_acceptable(),
        ensures
            self.how().mode & !0o7777u64 == 0,
            self.how().mode != 0 ==> self.how().flags & 0o100 == 0o100 || self.how().flags
                & 0o20200000 == 0o20200000,
            self.how().flags & !0o32603703u64 == 0,
            self.how().resolve & !0x3fu64 == 0,
    {
    }
}

} // verus!
