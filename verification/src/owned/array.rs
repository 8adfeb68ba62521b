//! Arrays of fixed-size values, placed in owned storage.
//!
//! Where the kernel is handed the address of several structures in a row,
//! all of them have to stay put until the completion.

use super::buffer::{read_at, write_at, StableBuffer, StableBufferMut};
use super::staged::{misfit, Misfit};
use crate::bytes::{overwritten, overwritten_reads_back};
use crate::types::abi::Abi;
use vstd::prelude::*;

verus! {

/// The bytes of several values in a row.
pub open spec fn encoded_all<T: Abi>(values: Seq<T>) -> Seq<u8>
    decreases values.len(),
{
    if values.len() == 0 {
        Seq::empty()
    } else {
        encoded_all(values.drop_last()) + values.last().encoded()
    }
}

/// The bytes of the value at `index` of an array that starts at `at`.
pub open spec fn element<T: Abi>(bytes: Seq<u8>, at: int, index: int) -> Seq<u8> {
    bytes.subrange(at + index * T::spec_size(), at + (index + 1) * T::spec_size())
}

/// An array takes as many bytes as its values together.
pub proof fn encoded_all_has_length<T: Abi>(values: Seq<T>)
    ensures
        encoded_all(values).len() == values.len() * T::spec_size(),
    decreases values.len(),
{
    if values.len() > 0 {
        let n = values.len();
        let size = T::spec_size();
        encoded_all_has_length(values.drop_last());
        values.last().decoding_inverts_encoding();
        assert((n - 1) * size + size == n * size) by (nonlinear_arith);
    } else {
        assert(0 * T::spec_size() == 0) by (nonlinear_arith);
    }
}

/// Every value of an array is found where its index puts it.
pub proof fn elements_read_back<T: Abi>(values: Seq<T>, index: int)
    requires
        0 <= index < values.len(),
    ensures
        element::<T>(encoded_all(values), 0, index) == values[index].encoded(),
        T::decoded(element::<T>(encoded_all(values), 0, index)) == values[index],
    decreases values.len(),
{
    let size = T::spec_size();
    let n = values.len();
    let front = encoded_all(values.drop_last());
    encoded_all_has_length(values);
    encoded_all_has_length(values.drop_last());
    values[index].decoding_inverts_encoding();
    assert((n - 1) * size + size == n * size) by (nonlinear_arith);
    assert(0 <= index * size) by (nonlinear_arith)
        requires
            0 <= index,
            0 <= size,
    ;
    assert((index + 1) * size == index * size + size) by (nonlinear_arith);
    if index == n - 1 {
        assert(encoded_all(values).subrange(index * size, (index + 1) * size)
            =~= values[index].encoded());
    } else {
        elements_read_back(values.drop_last(), index);
        assert((index + 1) * size <= (n - 1) * size) by (nonlinear_arith)
            requires
                index + 1 <= n - 1,
                0 <= size,
        ;
        assert(encoded_all(values).subrange(index * size, (index + 1) * size) =~= front.subrange(
            index * size,
            (index + 1) * size,
        ));
    }
}

/// Every value of an array written to the start of storage is read back from
/// where its index puts it.
pub proof fn written_elements_read_back<T: Abi>(bytes: Seq<u8>, values: Seq<T>, index: int)
    requires
        0 <= index < values.len(),
        values.len() * T::spec_size() <= bytes.len(),
    ensures
        T::decoded(element::<T>(overwritten(bytes, 0, encoded_all(values)), 0, index))
            == values[index],
{
    let size = T::spec_size();
    let n = values.len();
    elements_read_back(values, index);
    encoded_all_has_length(values);
    assert((index + 1) * size <= n * size) by (nonlinear_arith)
        requires
            index + 1 <= n,
            0 <= size,
    ;
    assert(0 <= index * size) by (nonlinear_arith)
        requires
            0 <= index,
            0 <= size,
    ;
    assert((index + 1) * size == index * size + size) by (nonlinear_arith);
    assert(element::<T>(overwritten(bytes, 0, encoded_all(values)), 0, index) =~= element::<T>(
        encoded_all(values),
        0,
        index,
    ));
}

/// The bytes of all of `values`, in order.
fn encode_all<T: Abi>(values: &Vec<T>) -> (data: Vec<u8>)
    ensures
        data@ == encoded_all(values@),
{
    let mut data: Vec<u8> = Vec::new();
    let mut i: usize = 0;
    while i < values.len()
        invariant
            i <= values@.len(),
            data@ == encoded_all(values@.take(i as int)),
        decreases values.len() - i,
    {
        let mut next: Vec<u8> = values[i].encode();
        data.append(&mut next);
        assert(values@.take(i + 1).drop_last() =~= values@.take(i as int));
        i += 1;
    }
    assert(values@.take(i as int) =~= values@);
    data
}

/// Read `n` values in a row from `at` on.
pub fn decode_all<B: StableBuffer, T: Abi>(buf: &B, at: usize, n: usize) -> (values: Vec<T>)
    requires
        at + n * T::spec_size() <= buf.bytes().len(),
    ensures
        values@.len() == n,
        forall|i: int|
            0 <= i < n ==> #[trigger] values@[i] == T::decoded(
                element::<T>(buf.bytes(), at as int, i),
            ),
{
    let size: usize = T::size_of();
    let len: usize = buf.stable_len();
    let mut values: Vec<T> = Vec::new();
    let mut i: usize = 0;
    let mut from: usize = at;
    assert(0 * T::spec_size() == 0) by (nonlinear_arith);
    while i < n
        invariant
            i <= n,
            size == T::spec_size(),
            len == buf.bytes().len(),
            at + n * size <= len,
            from == at + i * size,
            values@.len() == i,
            forall|j: int|
                0 <= j < i ==> #[trigger] values@[j] == T::decoded(
                    element::<T>(buf.bytes(), at as int, j),
                ),
        decreases n - i,
    {
        assert((i + 1) * size == i * size + size) by (nonlinear_arith);
        assert((i + 1) * size <= n * size) by (nonlinear_arith)
            requires
                i + 1 <= n,
                0 <= size,
        ;
        values.push(T::decode(read_at(buf, from, size).as_slice()));
        from = from + size;
        i += 1;
    }
    values
}

/// Values written to the start of storage that is owned along with them.
pub struct StagedArray<S: StableBufferMut, T: Abi> {
    store: S,
    values: Vec<T>,
}

impl<S: StableBufferMut, T: Abi> StagedArray<S, T> {
    /// The storage.
    pub closed spec fn store(self) -> S {
        self.store
    }

    /// The values.
    pub closed spec fn values(self) -> Seq<T> {
        self.values@
    }

    /// The storage starts with the values' bytes.
    #[verifier::type_invariant]
    pub open spec fn is_published(self) -> bool {
        &&& encoded_all(self.values()).len() <= self.store().bytes().len()
        &&& self.store().bytes().subrange(0, encoded_all(self.values()).len() as int)
            == encoded_all(self.values())
    }

    /// Whoever decodes the storage at some index finds the value that was
    /// staged there.
    pub proof fn reads_back(self, index: int)
        requires
            self.is_published(),
            0 <= index < self.values().len(),
        ensures
            T::decoded(element::<T>(self.store().bytes(), 0, index)) == self.values()[index],
    {
        let values = self.values();
        let bytes = self.store().bytes();
        let all = encoded_all(values);
        encoded_all_has_length(values);
        assert forall|i: int| 0 <= i < all.len() implies bytes[i] == all[i] by {
            assert(bytes.subrange(0, all.len() as int)[i] == bytes[i]);
        }
        assert(overwritten(bytes, 0, all) =~= bytes);
        written_elements_read_back(bytes, values, index);
    }

    /// Write `values` to the start of `store`, at an address that is a
    /// multiple of `align`.
    ///
    /// # Errors
    ///
    /// Returns the storage unchanged if it does not fit.
    pub fn place(values: Vec<T>, store: S, align: usize) -> (r: Result<Self, (S, Misfit)>)
        requires
            align > 0,
            values@.len() * T::spec_size() <= usize::MAX,
        ensures
            match r {
                Err((back, why)) => {
                    &&& back == store
                    &&& misfit(
                        values@.len() * T::spec_size(),
                        align,
                        store.bytes().len(),
                        store.addr(),
                    ) == Some(why)
                },
                Ok(staged) => {
                    &&& misfit(
                        values@.len() * T::spec_size(),
                        align,
                        store.bytes().len(),
                        store.addr(),
                    ) is None
                    &&& staged.values() == values@
                    &&& staged.store().addr() == store.addr()
                    &&& staged.store().bytes() == overwritten(
                        store.bytes(),
                        0,
                        encoded_all(values@),
                    )
                },
            },
    {
        let needed: usize = values.len() * T::size_of();
        let got: usize = store.stable_len();
        if got < needed {
            return Err((store, Misfit::TooSmall { needed, got }));
        }
        if !store.stable_ptr().is_multiple_of(align) {
            return Err((store, Misfit::Misaligned { needed: align }));
        }
        let mut store = store;
        proof {
            encoded_all_has_length(values@);
            overwritten_reads_back(store.bytes(), 0, encoded_all(values@));
        }
        write_at(&mut store, 0, encode_all(&values).as_slice());
        Ok(StagedArray { store, values })
    }

    /// Where the first value is.
    pub fn addr(&self) -> (a: u64)
        ensures
            a == self.store().addr(),
    {
        self.store.stable_ptr() as u64
    }

    /// How many values there are.
    pub fn len(&self) -> (n: usize)
        ensures
            n == self.values().len(),
    {
        self.values.len()
    }

    /// The values as the kernel will read them.
    ///
    /// Reads back the storage rather than copying what was asked for.
    pub fn published(&self) -> (values: Vec<T>)
        ensures
            values@ == self.values(),
            forall|i: int|
                0 <= i < self.values().len() ==> #[trigger] values@[i] == T::decoded(
                    element::<T>(self.store().bytes(), 0, i),
                ),
    {
        let n: usize = self.values.len();
        proof {
            use_type_invariant(self);
            encoded_all_has_length(self.values());
        }
        let values: Vec<T> = decode_all(&self.store, 0, n);
        proof {
            assert forall|i: int| 0 <= i < n implies values@[i] == self.values()[i] by {
                self.reads_back(i);
            }
        }
        assert(values@ =~= self.values());
        values
    }

    /// Take the storage.
    pub fn into_store(self) -> (s: S)
        ensures
            s == self.store(),
    {
        self.store
    }
}

/// The bytes of the value at some index are as many as a value has, and begin
/// after those of the values before it.
pub proof fn elements_lie_side_by_side<T: Abi>(bytes: Seq<u8>, at: int, index: int, i: int)
    requires
        0 <= at,
        0 <= index,
        at + (index + 1) * T::spec_size() <= bytes.len(),
        0 <= i < T::spec_size(),
    ensures
        element::<T>(bytes, at, index).len() == T::spec_size(),
        element::<T>(bytes, at, index)[i] == bytes[at + index * T::spec_size() + i],
{
    let size = T::spec_size();
    assert((index + 1) * size == index * size + size) by (nonlinear_arith);
    assert(0 <= index * size) by (nonlinear_arith)
        requires
            0 <= index,
            0 <= size,
    ;
}

impl<S: StableBufferMut, T: Abi> StagedArray<S, T> {
    /// The storage begins with the values, one behind the other, byte by byte.
    pub proof fn bytes_are_in_storage(self, index: int, i: int)
        requires
            self.is_published(),
            0 <= index < self.values().len(),
            0 <= i < T::spec_size(),
        ensures
            self.values().len() * T::spec_size() <= self.store().bytes().len(),
            self.store().bytes()[index * T::spec_size() + i] == self.values()[index].encoded()[i],
    {
        let size = T::spec_size();
        let n = self.values().len();
        let all = encoded_all(self.values());
        encoded_all_has_length(self.values());
        elements_read_back(self.values(), index);
        assert((index + 1) * size <= n * size) by (nonlinear_arith)
            requires
                index + 1 <= n,
                0 <= size,
        ;
        elements_lie_side_by_side::<T>(all, 0, index, i);
        assert((index + 1) * size == index * size + size) by (nonlinear_arith);
        assert(0 <= index * size) by (nonlinear_arith)
            requires
                0 <= index,
                0 <= size,
        ;
        assert(self.store().bytes().subrange(0, all.len() as int)[index * size + i]
            == self.store().bytes()[index * size + i]);
    }
}

} // verus!
