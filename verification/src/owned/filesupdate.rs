//! `files_update`, whose result is a count and may stop half-way.
//!
//! The result is how many slots were changed. Positive but short means that
//! the rest still holds what it held, so [`Update`] keeps that apart from a
//! complete one. The kernel duplicates what it installs: callers keep their
//! descriptors, and only the array that names them is owned here.

use super::array::{element, encoded_all, StagedArray};
use super::buffer::StableBufferMut;
use super::identity::{RequestId, RingId};
use super::lifecycle::{Done, Ticket};
use super::request::Receipt;
use super::slot::SlotIndex;
use super::staged::{misfit, Misfit};
use crate::bytes::overwritten;
use crate::error::Errno;
use crate::op::{blank, IoUringSqe, Sqe};
use crate::text::{decimal, numeral_text, with_decimal};
use crate::types::abi::Abi;
use crate::types::fd::RawFd;
use core::mem::ManuallyDrop;
use vstd::prelude::*;
use vstd::string::StringExecFns;

verus! {

/// What a slot becomes.
#[derive(Clone, Copy, Debug, PartialEq, Eq, Structural)]
pub enum TableEntry {
    /// The slot gets a duplicate of this descriptor.
    Install(RawFd),
    /// The slot is emptied.
    Clear,
}

impl TableEntry {
    /// What the kernel reads: the descriptor, or -1.
    #[verifier::allow_in_spec]
    pub fn raw(self) -> i32
        returns
            (match self {
                TableEntry::Install(fd) => fd.as_i32(),
                TableEntry::Clear => -1i32,
            }),
    {
        match self {
            TableEntry::Install(fd) => fd.as_i32(),
            TableEntry::Clear => -1i32,
        }
    }
}

/// What the kernel reads for several slots.
pub open spec fn raws(entries: Seq<TableEntry>) -> Seq<i32> {
    entries.map_values(|e: TableEntry| e.raw())
}

/// How much of a `files_update` took effect.
#[derive(Clone, Copy, Debug, PartialEq, Eq, Structural)]
pub enum Update {
    /// All of it.
    All {
        /// Slots changed.
        count: u32,
    },
    /// The first so many entries, at least one; the other slots hold what
    /// they held.
    Partial {
        /// Slots changed.
        installed: u32,
        /// Slots asked for.
        requested: u32,
    },
    /// Nothing. The error number is 0 if the kernel gave none.
    Failed(Errno),
}

impl Update {
    /// Classify a raw result against what was asked for.
    ///
    /// A count of none, where some slots were named, is a failure: nothing
    /// took effect.
    #[verifier::allow_in_spec]
    pub fn from_raw(result: i32, requested: u32) -> Self
        returns
            (if result < 0 || (result == 0 && requested > 0) {
                Update::Failed(Errno::from_negated(result))
            } else if result as u32 >= requested {
                Update::All { count: requested }
            } else {
                Update::Partial { installed: result as u32, requested }
            }),
    {
        if result < 0 || (result == 0 && requested > 0) {
            Update::Failed(Errno::from_negated(result))
        } else if result as u32 >= requested {
            Update::All { count: requested }
        } else {
            Update::Partial { installed: result as u32, requested }
        }
    }

    /// Slots that changed.
    #[verifier::allow_in_spec]
    pub fn installed(self) -> u32
        returns
            (match self {
                Update::All { count } => count,
                Update::Partial { installed, .. } => installed,
                Update::Failed(_) => 0,
            }),
    {
        match self {
            Update::All { count } => count,
            Update::Partial { installed, .. } => installed,
            Update::Failed(_) => 0,
        }
    }

    /// Whether everything took effect.
    #[verifier::allow_in_spec]
    pub fn is_complete(self) -> bool
        returns
            self is All,
    {
        matches!(self, Update::All { .. })
    }

    /// What [`message`](Self::message) says.
    pub open spec fn text(self) -> Seq<char> {
        match self {
            Update::All { count } => decimal(count as nat) + " slots updated"@,
            Update::Partial { installed, requested } => "only "@ + decimal(installed as nat)
                + " of "@ + decimal(requested as nat) + " slots updated"@,
            Update::Failed(e) => "files_update failed: "@ + e.text(),
        }
    }

    /// Every case says what happened, in its own words and with its own numbers.
    pub proof fn texts_say_what_happened(self)
        ensures
            self matches Update::All { count } ==> self.text()
                == decimal(count as nat) + " slots updated"@,
            self matches Update::Partial { installed, requested } ==> self.text()
                == "only "@ + decimal(installed as nat) + " of "@ + decimal(requested as nat)
                    + " slots updated"@,
            self matches Update::Failed(e) ==> self.text() == "files_update failed: "@ + e.text(),
    {
    }

    /// A description for people.
    pub fn message(&self) -> (s: String)
        ensures
            s@ == self.text(),
    {
        match *self {
            Update::All { count } => numeral_text(count as u64, 10).concat(" slots updated"),
            Update::Partial { installed, requested } => {
                let s = with_decimal(String::from_str("only "), installed as u64);
                let s = with_decimal(s.concat(" of "), requested as u64);
                s.concat(" slots updated")
            },
            Update::Failed(e) => String::from_str("files_update failed: ").concat(
                e.message().as_str(),
            ),
        }
    }
}

/// No update counts more slots than were asked for, and one that counts
/// fewer is never called complete. A partial one changed at least one slot
/// and left at least one.
pub proof fn short_updates_are_not_complete(result: i32, requested: u32)
    ensures
        Update::from_raw(result, requested).installed() <= requested,
        Update::from_raw(result, requested).is_complete() <==> 0 <= result && requested <= result,
        result >= 0 && result < requested ==> Update::from_raw(result, requested).installed()
            == result,
        Update::from_raw(result, requested) matches Update::Partial { installed, requested: asked }
            ==> 0 < installed < asked && asked == requested,
        Update::from_raw(result, requested) is Failed <==> result < 0 || (result == 0 && requested
            > 0),
{
}

/// Why a `files_update` request could not be built.
#[derive(Clone, Copy, Debug, PartialEq, Eq, Structural)]
pub enum FilesUpdateError {
    /// The storage cannot hold the array.
    StoreTooSmall {
        /// Bytes it needs.
        needed: usize,
        /// Bytes the supplied storage has.
        got: usize,
    },
    /// The storage is not aligned for the array.
    StoreMisaligned {
        /// Alignment it needs.
        needed: usize,
    },
    /// No slot is named. The kernel would refuse that.
    Empty,
}

impl FilesUpdateError {
    /// What [`message`](Self::message) says.
    pub open spec fn text(self) -> Seq<char> {
        match self {
            FilesUpdateError::StoreTooSmall { needed, got } => "descriptor array needs "@
                + decimal(needed as nat) + " bytes, got "@ + decimal(got as nat),
            FilesUpdateError::StoreMisaligned { needed } => "descriptor array must be "@
                + decimal(needed as nat) + "-byte aligned"@,
            FilesUpdateError::Empty => "a files_update must name at least one slot"@,
        }
    }

    /// Every case says what happened, in its own words and with its own numbers.
    pub proof fn texts_say_what_happened(self)
        ensures
            self matches FilesUpdateError::StoreTooSmall { needed, got } ==> self.text()
                == "descriptor array needs "@ + decimal(needed as nat) + " bytes, got "@
                    + decimal(got as nat),
            self matches FilesUpdateError::StoreMisaligned { needed } ==> self.text()
                == "descriptor array must be "@ + decimal(needed as nat) + "-byte aligned"@,
            self is Empty ==> self.text() == "a files_update must name at least one slot"@,
    {
    }

    /// A description for people.
    pub fn message(&self) -> (s: String)
        ensures
            s@ == self.text(),
    {
        match *self {
            FilesUpdateError::StoreTooSmall { needed, got } => {
                let s = String::from_str("descriptor array needs ");
                let s = with_decimal(s, needed as u64);
                let s = s.concat(" bytes, got ");
                with_decimal(s, got as u64)
            },
            FilesUpdateError::StoreMisaligned { needed } => {
                let s = String::from_str("descriptor array must be ");
                let s = with_decimal(s, needed as u64);
                s.concat("-byte aligned")
            },
            FilesUpdateError::Empty => String::from_str(
                "a files_update must name at least one slot",
            ),
        }
    }
}

impl FilesUpdateError {
    /// What is wrong with the storage, if that is the reason.
    pub open spec fn misfit(self) -> Option<Misfit> {
        match self {
            FilesUpdateError::StoreTooSmall { needed, got } => Some(
                Misfit::TooSmall { needed, got },
            ),
            FilesUpdateError::StoreMisaligned { needed } => Some(Misfit::Misaligned { needed }),
            FilesUpdateError::Empty => None,
        }
    }
}

/// A `files_update`: what is asked for.
pub struct FilesUpdateRequest<S: StableBufferMut, const N: usize> {
    /// The first slot.
    pub offset: SlotIndex,
    /// What the slots become.
    pub entries: [TableEntry; N],
    /// The array, where the kernel finds it.
    pub table: StagedArray<S, i32>,
}

impl<S: StableBufferMut, const N: usize> FilesUpdateRequest<S, N> {
    /// The submission that asks for it.
    pub open spec fn sqe(self) -> Sqe {
        Sqe::files_update_ptr(
            self.table.store().addr() as u64,
            N as u32,
            self.offset.value(),
        )
    }

    /// The entry changes a file table, operation 20: from the first slot on, as
    /// many slots as there are entries, as the stored array says.
    pub proof fn changes_its_slots(self)
        ensures
            self.sqe().0 == (IoUringSqe {
                opcode: 20,
                off: self.offset.value() as u64,
                addr: self.table.store().addr() as u64,
                len: N as u32,
                ..blank()
            }),
    {
    }

    /// There is an entry, and the array holds what the entries stand for.
    pub open spec fn is_published(self) -> bool {
        &&& N > 0
        &&& self.table.values() == raws(self.entries@)
    }
}

/// A `files_update` that owns its array but is not queued yet.
pub struct PreparedFilesUpdate<S: StableBufferMut, const N: usize> {
    offset: SlotIndex,
    entries: [TableEntry; N],
    table: StagedArray<S, i32>,
}

impl<S: StableBufferMut, const N: usize> View for PreparedFilesUpdate<S, N> {
    type V = FilesUpdateRequest<S, N>;

    closed spec fn view(&self) -> FilesUpdateRequest<S, N> {
        FilesUpdateRequest { offset: self.offset, entries: self.entries, table: self.table }
    }
}

impl<S: StableBufferMut, const N: usize> PreparedFilesUpdate<S, N> {
    /// There is an entry, and the array holds what the entries stand for.
    #[verifier::type_invariant]
    pub closed spec fn wf(self) -> bool {
        self@.is_published()
    }

    /// Change `N` slots from `offset` on.
    ///
    /// Takes `store` to keep the array in. The descriptors stay with the
    /// caller.
    ///
    /// # Errors
    ///
    /// Returns the storage unchanged if there is no entry, or else if it is
    /// too small, or else if it is misaligned.
    pub fn at(offset: SlotIndex, entries: [TableEntry; N], store: S) -> (r: Result<
        Self,
        (S, FilesUpdateError),
    >)
        requires
            N * 4 <= usize::MAX,
        ensures
            match r {
                Err((back, why)) => {
                    &&& back == store
                    &&& N == 0 ==> why is Empty
                    &&& N > 0 ==> why.misfit() is Some && why.misfit() == misfit(
                        (N * 4) as nat,
                        4,
                        store.bytes().len(),
                        store.addr(),
                    )
                },
                Ok(prepared) => {
                    &&& N > 0
                    &&& misfit((N * 4) as nat, 4, store.bytes().len(), store.addr()) is None
                    &&& prepared@.offset == offset
                    &&& prepared@.entries == entries
                    &&& prepared@.is_published()
                    &&& prepared@.table.store().addr() == store.addr()
                    &&& prepared@.table.store().bytes() == overwritten(
                        store.bytes(),
                        0,
                        encoded_all(raws(entries@)),
                    )
                },
            },
    {
        if N == 0 {
            return Err((store, FilesUpdateError::Empty));
        }
        let mut values: Vec<i32> = Vec::new();
        let mut i: usize = 0;
        while i < N
            invariant
                i <= N,
                values@ =~= raws(entries@).take(i as int),
            decreases N - i,
        {
            values.push(entries[i].raw());
            i += 1;
        }
        assert(values@ =~= raws(entries@));
        match StagedArray::place(values, store, 4) {
            Ok(table) => Ok(PreparedFilesUpdate { offset, entries, table }),
            Err((store, Misfit::TooSmall { needed, got })) => Err(
                (store, FilesUpdateError::StoreTooSmall { needed, got }),
            ),
            Err((store, Misfit::Misaligned { needed })) => Err(
                (store, FilesUpdateError::StoreMisaligned { needed }),
            ),
        }
    }

    /// The first slot.
    pub fn offset(&self) -> (r: SlotIndex)
        ensures
            r == self@.offset,
    {
        self.offset
    }

    /// What the slots become.
    pub fn entries(&self) -> (r: &[TableEntry; N])
        ensures
            *r == self@.entries,
    {
        &self.entries
    }

    /// How many slots are named. Never none.
    pub fn slots(&self) -> (r: u32)
        ensures
            r == N as u32,
            N > 0,
    {
        proof {
            use_type_invariant(self);
        }
        N as u32
    }

    /// The array as the kernel will read it.
    ///
    /// Reads back the storage rather than rebuilding it.
    pub fn published(&self) -> (r: Vec<i32>)
        ensures
            r@ == raws(self@.entries@),
            r@ == self@.table.values(),
            forall|i: int|
                0 <= i < N ==> #[trigger] r@[i] == i32::decoded(
                    element::<i32>(self@.table.store().bytes(), 0, i),
                ),
    {
        proof {
            use_type_invariant(self);
        }
        self.table.published()
    }

    /// Give the storage back, abandoning the request.
    pub fn into_store(self) -> (r: S)
        ensures
            r == self@.table.store(),
    {
        self.table.into_store()
    }

    /// Build the submission and move to the pending state.
    pub fn into_pending(self, ring: RingId, id: RequestId) -> (r: (Sqe, PendingFilesUpdate<S, N>))
        ensures
            r.0 == self@.sqe().user_data(id.raw()),
            r.1@ == (Ticket { ring, id, request: self@ }),
    {
        proof {
            use_type_invariant(&self);
        }
        let sqe = Sqe::files_update_ptr(self.table.addr(), N as u32, self.offset.get());
        let pending = PendingFilesUpdate {
            offset: self.offset,
            entries: self.entries,
            table: ManuallyDrop::new(self.table),
            ring,
            id,
        };
        (sqe.user_data(id.raw()), pending)
    }
}

/// A submitted `files_update` whose array the kernel may be reading.
///
/// Dropping it runs no destructor for the storage: it leaks rather than
/// being freed underneath the kernel.
#[must_use]
pub struct PendingFilesUpdate<S: StableBufferMut, const N: usize> {
    offset: SlotIndex,
    entries: [TableEntry; N],
    table: ManuallyDrop<StagedArray<S, i32>>,
    ring: RingId,
    id: RequestId,
}

impl<S: StableBufferMut, const N: usize> View for PendingFilesUpdate<S, N> {
    type V = Ticket<FilesUpdateRequest<S, N>>;

    closed spec fn view(&self) -> Ticket<FilesUpdateRequest<S, N>> {
        Ticket {
            ring: self.ring,
            id: self.id,
            request: FilesUpdateRequest {
                offset: self.offset,
                entries: self.entries,
                table: self.table@,
            },
        }
    }
}

impl<S: StableBufferMut, const N: usize> PendingFilesUpdate<S, N> {
    /// There is an entry, and the array holds what the entries stand for.
    #[verifier::type_invariant]
    pub closed spec fn wf(self) -> bool {
        self@.request.is_published()
    }

    /// Identity the kernel echoes back in this request's completion.
    pub fn id(&self) -> (r: RequestId)
        ensures
            r == self@.id,
    {
        self.id
    }

    /// Identity of the queue that accepted this request.
    pub fn ring(&self) -> (r: RingId)
        ensures
            r == self@.ring,
    {
        self.ring
    }

    /// Whether `receipt` ends this very request.
    pub fn matches(&self, receipt: &Receipt) -> (r: bool)
        ensures
            r == receipt.belongs_to(self@.ring, self@.id),
    {
        receipt.belongs_to(self.ring, self.id)
    }

    /// The first slot.
    pub fn offset(&self) -> (r: SlotIndex)
        ensures
            r == self@.request.offset,
    {
        self.offset
    }

    /// Take the request back without a receipt, undoing a failed push.
    ///
    /// Only for a submission that the kernel has never seen.
    pub fn reclaim_unsubmitted(self) -> (r: PreparedFilesUpdate<S, N>)
        ensures
            r@ == self@.request,
    {
        proof {
            use_type_invariant(&self);
        }
        PreparedFilesUpdate {
            offset: self.offset,
            entries: self.entries,
            table: ManuallyDrop::into_inner(self.table),
        }
    }

    /// Trade a matching receipt for the outcome and the storage.
    ///
    /// The kernel only reads the array, so it comes back as it was.
    ///
    /// # Errors
    ///
    /// Returns the ticket and receipt unchanged if the receipt belongs to
    /// another request or another ring.
    pub fn redeem(self, receipt: Receipt) -> (r: Result<FilesUpdated<S, N>, (Self, Receipt)>)
        ensures
            match r {
                Err((ticket, back)) => {
                    &&& !receipt.belongs_to(self@.ring, self@.id)
                    &&& ticket@ == self@
                    &&& back == receipt
                },
                Ok(done) => {
                    &&& receipt.belongs_to(self@.ring, self@.id)
                    &&& done@ == (Done {
                        id: self@.id,
                        result: receipt.raw_result(),
                        request: self@.request,
                    })
                },
            },
    {
        if !self.matches(&receipt) {
            return Err((self, receipt));
        }
        Ok(
            FilesUpdated {
                offset: self.offset,
                entries: self.entries,
                table: ManuallyDrop::into_inner(self.table),
                id: self.id,
                result: receipt.raw_result(),
            },
        )
    }
}

/// A finished `files_update`: how much of it took effect, and the storage
/// back.
pub struct FilesUpdated<S: StableBufferMut, const N: usize> {
    offset: SlotIndex,
    entries: [TableEntry; N],
    table: StagedArray<S, i32>,
    id: RequestId,
    result: i32,
}

impl<S: StableBufferMut, const N: usize> View for FilesUpdated<S, N> {
    type V = Done<FilesUpdateRequest<S, N>>;

    closed spec fn view(&self) -> Done<FilesUpdateRequest<S, N>> {
        Done {
            id: self.id,
            result: self.result,
            request: FilesUpdateRequest {
                offset: self.offset,
                entries: self.entries,
                table: self.table,
            },
        }
    }
}

impl<S: StableBufferMut, const N: usize> FilesUpdated<S, N> {
    /// Identity of the request this completes.
    pub fn id(&self) -> (r: RequestId)
        ensures
            r == self@.id,
    {
        self.id
    }

    /// The raw result: a count of slots, or a negated error number.
    pub fn raw_result(&self) -> (r: i32)
        ensures
            r == self@.result,
    {
        self.result
    }

    /// How much took effect.
    pub fn update(&self) -> (r: Update)
        ensures
            r == Update::from_raw(self@.result, N as u32),
    {
        Update::from_raw(self.result, N as u32)
    }

    /// The first slot.
    pub fn offset(&self) -> (r: SlotIndex)
        ensures
            r == self@.request.offset,
    {
        self.offset
    }

    /// What the slots were to become, whether or not they did.
    pub fn entries(&self) -> (r: &[TableEntry; N])
        ensures
            *r == self@.request.entries,
    {
        &self.entries
    }

    /// Take the storage back for reuse.
    pub fn into_store(self) -> (r: S)
        ensures
            r == self@.request.table.store(),
    {
        self.table.into_store()
    }

    /// Take the outcome and the storage together.
    pub fn into_parts(self) -> (r: (Update, S))
        ensures
            r.0 == Update::from_raw(self@.result, N as u32),
            r.1 == self@.request.table.store(),
    {
        (Update::from_raw(self.result, N as u32), self.table.into_store())
    }
}

/// The array says of each slot, in order, which descriptor goes in, or -1 for
/// none.
pub proof fn entries_are_sent_in_order(entries: Seq<TableEntry>, i: int)
    requires
        0 <= i < entries.len(),
    ensures
        raws(entries).len() == entries.len(),
        entries[i] is Clear ==> raws(entries)[i] == -1,
        entries[i] matches TableEntry::Install(fd) ==> raws(entries)[i] == fd.as_i32(),
{
}

/// An update that changed everything counts what was asked for, a failed one
/// keeps its number and counts nothing.
pub proof fn updates_count_what_changed(result: i32, requested: u32, n: u32, e: Errno)
    ensures
        Update::from_raw(result, requested) matches Update::All { count } ==> count == requested,
        Update::from_raw(result, requested) matches Update::Failed(why) ==> why.0 == (if result
            == -0x8000_0000 {
            result as int
        } else {
            0 - result
        }),
        (Update::All { count: n }).installed() == n,
        (Update::Partial { installed: n, requested }).installed() == n,
        Update::Failed(e).installed() == 0,
        (Update::All { count: n }).is_complete(),
        !(Update::Partial { installed: n, requested }).is_complete(),
        !Update::Failed(e).is_complete(),
{
}

/// What is wrong with the storage is said with the same numbers.
pub proof fn update_misfits_keep_their_numbers(needed: usize, got: usize)
    ensures
        (FilesUpdateError::StoreTooSmall { needed, got }).misfit() == Some(
            Misfit::TooSmall { needed, got },
        ),
        (FilesUpdateError::StoreMisaligned { needed }).misfit() == Some(
            Misfit::Misaligned { needed },
        ),
        FilesUpdateError::Empty.misfit() is None,
{
}

impl<S: StableBufferMut, const N: usize> FilesUpdateRequest<S, N> {
    /// The kernel, reading the published array, finds for each slot in order
    /// the four bytes of the descriptor that goes in, or of -1.
    pub proof fn bytes_are_the_entries(self, i: int)
        requires
            self.is_published(),
            self.table.is_published(),
            0 <= i < N,
        ensures
            N > 0,
            self.table.values().len() == N,
            self.entries@[i] is Clear ==> self.table.values()[i] == -1,
            self.entries@[i] matches TableEntry::Install(fd) ==> self.table.values()[i]
                == fd.as_i32(),
            i32::decoded(element::<i32>(self.table.store().bytes(), 0, i))
                == self.table.values()[i],
    {
        entries_are_sent_in_order(self.entries@, i);
        self.table.reads_back(i);
    }
}

} // verus!
