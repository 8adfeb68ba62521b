//! A pool of buffers that the kernel fills by number.
//!
//! The kernel takes a buffer that is available, fills it and reports its
//! number. Whoever reads it gives it back. A buffer given back twice would
//! be available twice; one never given back is lost to the pool.

use crate::bytes::overwritten;
use vstd::prelude::*;

verus! {

/// How many numbers at the front of `available` no buffer has, where there
/// are `count` buffers.
pub open spec fn leading_strays(available: Seq<u16>, count: nat) -> nat
    decreases available.len(),
{
    if available.len() == 0 || available[0] < count {
        0
    } else {
        1 + leading_strays(available.skip(1), count)
    }
}

/// The reading end of a pool.
pub struct BufferConsumer {
    bgid: u16,
    size: u32,
    slots: Vec<Vec<u8>>,
    available: Vec<u16>,
    returned: Option<u16>,
}

/// A pool: its buffers, and which of them the kernel may take.
pub struct Pool {
    /// The group number it is registered under.
    pub group: u16,
    /// The size of each buffer.
    pub size: u32,
    /// What the buffers hold.
    pub slots: Seq<Seq<u8>>,
    /// The numbers of the buffers the kernel may take, oldest first.
    pub available: Seq<u16>,
}

impl View for BufferConsumer {
    type V = Pool;

    open spec fn view(&self) -> Pool {
        Pool {
            group: self.group(),
            size: self.size(),
            slots: self.slots(),
            available: self.available(),
        }
    }
}

impl BufferConsumer {
    /// Every buffer has the same size, and buffers have 16-bit numbers.
    #[verifier::type_invariant]
    pub open spec fn wf(self) -> bool {
        &&& self.slots().len() <= u16::MAX
        &&& forall|i: int| 0 <= i < self.slots().len() ==> #[trigger] self.slots()[i].len()
            == self.size()
    }

    /// The group number the pool is registered under.
    pub closed spec fn group(&self) -> u16 {
        self.bgid
    }

    /// The size of each buffer.
    pub closed spec fn size(&self) -> u32 {
        self.size
    }

    /// What the buffers hold.
    pub closed spec fn slots(&self) -> Seq<Seq<u8>> {
        self.slots@.map_values(|v: Vec<u8>| v@)
    }

    /// The numbers of the buffers the kernel may take, oldest first.
    pub closed spec fn available(&self) -> Seq<u16> {
        match self.returned {
            Some(id) => self.available@.push(id),
            None => self.available@,
        }
    }

    /// Every buffer that was given back has joined the others.
    pub closed spec fn is_settled(&self) -> bool {
        self.returned is None
    }

    /// Let a buffer that was given back join the others.
    pub(crate) fn settle(&mut self)
        ensures
            final(self)@ == old(self)@,
            final(self).is_settled(),
    {
        proof {
            use_type_invariant(&*self);
        }
        if let Some(id) = self.returned {
            let mut available: Vec<u16> = Vec::new();
            core::mem::swap(&mut available, &mut self.available);
            available.push(id);
            self.available = available;
            self.returned = None;
        }
    }

    /// Note that the buffer `id` is given back.
    ///
    /// This allocates nothing, so a destructor can do it: the number joins
    /// the others when the pool is next used.
    pub(crate) fn give_back(&mut self, id: u16)
        requires
            old(self).is_settled(),
        ensures
            final(self)@ == (Pool { available: old(self).available().push(id), ..old(self)@ }),
        opens_invariants none
        no_unwind
    {
        proof {
            use_type_invariant(&*self);
        }
        self.returned = Some(id);
    }

    /// What reading the first `len` bytes of the buffer `id` gives.
    pub open spec fn contents(&self, id: u16, len: u32) -> Option<Seq<u8>> {
        if id < self.slots().len() && len <= self.size() {
            Some(self.slots()[id as int].take(len as int))
        } else {
            None
        }
    }

    /// A pool of `count` buffers of `size` bytes, all zero and available.
    pub fn new(bgid: u16, count: u16, size: u32) -> (r: Self)
        ensures
            r.group() == bgid,
            r.size() == size,
            r.slots().len() == count,
            forall|i: int, j: int|
                0 <= i < count && 0 <= j < size ==> #[trigger] r.slots()[i][j] == 0,
            r.available() == Seq::new(count as nat, |i: int| i as u16),
    {
        let mut slots: Vec<Vec<u8>> = Vec::new();
        let mut available: Vec<u16> = Vec::new();
        let mut id: u16 = 0;
        while id < count
            invariant
                id <= count,
                slots@.len() == id,
                forall|i: int| 0 <= i < id ==> #[trigger] slots@[i]@ == Seq::new(
                    size as nat,
                    |j: int| 0u8,
                ),
                available@ == Seq::new(id as nat, |i: int| i as u16),
            decreases count - id,
        {
            let mut slot: Vec<u8> = Vec::new();
            slot.resize(size as usize, 0);
            assert(slot@ =~= Seq::new(size as nat, |j: int| 0u8));
            slots.push(slot);
            available.push(id);
            id += 1;
            assert(available@ =~= Seq::new(id as nat, |i: int| i as u16));
        }
        BufferConsumer { bgid, size, slots, available, returned: None }
    }

    /// The group number the pool is registered under.
    pub fn bgid(&self) -> (r: u16)
        ensures
            r == self.group(),
    {
        self.bgid
    }

    /// Read the first `len` bytes of the buffer `id`.
    ///
    /// `None` if there is no such buffer or it is shorter.
    pub fn buffer(&self, id: u16, len: u32) -> (r: Option<&[u8]>)
        ensures
            match r {
                Some(data) => self.contents(id, len) == Some(data@),
                None => self.contents(id, len) is None,
            },
    {
        proof {
            use_type_invariant(self);
        }
        if (id as usize) < self.slots.len() && len <= self.size {
            let slot: &Vec<u8> = &self.slots[id as usize];
            assert(slot@ == self.slots()[id as int]);
            let data: &[u8] = vstd::slice::slice_subrange(slot.as_slice(), 0, len as usize);
            assert(data@ =~= self.slots()[id as int].take(len as int));
            Some(data)
        } else {
            None
        }
    }

    /// Give the buffer `id` back, and let the kernel know at once.
    pub fn recycle_and_commit(&mut self, id: u16)
        ensures
            final(self).group() == old(self).group(),
            final(self).size() == old(self).size(),
            final(self).slots() == old(self).slots(),
            final(self).available() == old(self).available().push(id),
    {
        self.settle();
        self.give_back(id);
    }

    /// The kernel takes the buffer that has been available longest and
    /// fills the start of it with `data`.
    ///
    /// A number that no buffer has is passed over, and is gone from then on.
    /// `None` if there is no buffer to take.
    pub fn fill(&mut self, data: &[u8]) -> (r: Option<u16>)
        requires
            data@.len() <= old(self).size(),
        ensures
            final(self).group() == old(self).group(),
            final(self).size() == old(self).size(),
            ({
                let available = old(self).available();
                let n = leading_strays(available, old(self).slots().len()) as int;
                if n == available.len() {
                    &&& r is None
                    &&& final(self).available() == Seq::<u16>::empty()
                    &&& final(self).slots() == old(self).slots()
                } else {
                    let id = available[n];
                    &&& r == Some(id)
                    &&& final(self).available() == available.skip(n + 1)
                    &&& final(self).slots() == old(self).slots().update(
                        id as int,
                        overwritten(old(self).slots()[id as int], 0, data@),
                    )
                }
            }),
    {
        self.settle();
        proof {
            use_type_invariant(&*self);
        }
        let ghost before = self.slots();
        let ghost all = self.available@;
        let ghost count = self.slots().len();
        let buffers: usize = self.slots.len();
        let mut available: Vec<u16> = Vec::new();
        core::mem::swap(&mut available, &mut self.available);
        let ghost mut passed: int = 0;
        assert(all.skip(0) =~= all);
        while available.len() > 0 && available[0] as usize >= buffers
            invariant
                0 <= passed <= all.len(),
                buffers == count,
                available@ == all.skip(passed),
                leading_strays(all, count) == passed + leading_strays(all.skip(passed), count),
            decreases available@.len(),
        {
            let _stray: u16 = available.remove(0);
            proof {
                assert(all.skip(passed).skip(1) =~= all.skip(passed + 1));
                assert(available@ =~= all.skip(passed + 1));
                passed = passed + 1;
            }
        }
        if available.len() == 0 {
            assert(available@ =~= Seq::<u16>::empty());
            self.available = available;
            return None;
        }
        let id: u16 = available.remove(0);
        assert(id == all[passed]);
        assert(available@ =~= all.skip(passed + 1));
        self.available = available;
        let mut slots: Vec<Vec<u8>> = Vec::new();
        core::mem::swap(&mut slots, &mut self.slots);
        let mut slot: Vec<u8> = Vec::new();
        let n: usize = data.len();
        let mut i: usize = 0;
        let held: usize = slots[id as usize].len();
        assert(slots@[id as int]@ == before[id as int]);
        while i < held
            invariant
                i <= held,
                id < slots@.len(),
                n == data@.len(),
                held == slots@[id as int]@.len(),
                slot@ =~= overwritten(slots@[id as int]@, 0, data@).take(i as int),
            decreases held - i,
        {
            let b: u8 = if i < n {
                data[i]
            } else {
                slots[id as usize][i]
            };
            slot.push(b);
            i += 1;
        }
        assert(slot@ =~= overwritten(before[id as int], 0, data@));
        slots.set(id as usize, slot);
        let ghost after = slots@.map_values(|v: Vec<u8>| v@);
        assert(after =~= before.update(id as int, slot@));
        self.slots = slots;
        Some(id)
    }
}

/// A number that no buffer has is never taken, and every number passed over
/// is such a one.
pub proof fn only_strays_are_passed_over(available: Seq<u16>, count: nat)
    ensures
        leading_strays(available, count) <= available.len(),
        forall|i: int|
            0 <= i < leading_strays(available, count) ==> #[trigger] available[i] >= count,
        leading_strays(available, count) < available.len() ==> available[leading_strays(
            available,
            count,
        ) as int] < count,
    decreases available.len(),
{
    if available.len() > 0 && available[0] >= count {
        let rest = available.skip(1);
        only_strays_are_passed_over(rest, count);
        assert forall|i: int| 0 <= i < leading_strays(available, count) implies
            #[trigger] available[i] >= count by {
            if i > 0 {
                assert(rest[i - 1] == available[i]);
            }
        }
    }
}

/// A buffer that is given back once, while it is out, is available once:
/// the numbers of the available buffers stay distinct.
pub proof fn giving_back_once_keeps_numbers_distinct(available: Seq<u16>, id: u16)
    requires
        available.no_duplicates(),
        !available.contains(id),
    ensures
        available.push(id).no_duplicates(),
        available.push(id).contains(id),
{
    assert(available.push(id)[available.len() as int] == id);
}

/// Taking a buffer and giving it back loses none and adds none.
pub proof fn taking_and_giving_back_restores_the_pool(available: Seq<u16>)
    requires
        available.len() > 0,
    ensures
        available.skip(1).push(available[0]).to_multiset() == available.to_multiset(),
{
    let first = available[0];
    let rest = available.skip(1);
    broadcast use vstd::seq_lib::group_to_multiset_ensures;

    assert(available =~= seq![first] + rest);
    assert(rest.push(first) =~= rest + seq![first]);
    vstd::seq_lib::lemma_multiset_commutative(seq![first], rest);
    vstd::seq_lib::lemma_multiset_commutative(rest, seq![first]);
}

impl BufferConsumer {
    /// A buffer that exists shows as many bytes as were asked for, from its
    /// start, up to its size; one that does not exist shows none.
    pub proof fn buffers_show_their_start(&self, id: u16, len: u32, i: int)
        requires
            self.wf(),
        ensures
            self.contents(id, len) is Some <==> id < self.slots().len() && len <= self.size(),
            self.contents(id, len) matches Some(held) ==> held.len() == len,
            self.contents(id, len) matches Some(held) ==> (0 <= i < len ==> held[i]
                == self.slots()[id as int][i]),
            self@.group == self.group(),
            self@.size == self.size(),
            self@.slots == self.slots(),
            self@.available == self.available(),
    {
    }
}

} // verus!
