//! Address-stable owned storage for in-flight operations.

use crate::bytes::overwritten;
use crate::error::{Errno, Error, InvalidArgKind, SetupError};
use vstd::prelude::*;

verus! {

/// Storage whose bytes keep one address for as long as the owner is alive.
///
/// Implementors uphold all of the following:
///
/// - [`stable_ptr`](Self::stable_ptr) returns the same address every call,
///   and moving the owner does not change it. An array held inline cannot
///   do that: moving the owner moves the bytes.
/// - The bytes at that address stay allocated and readable until the owner
///   is dropped, even while it is moved between threads.
/// - The owner is the only one to reach those bytes, because the kernel may
///   access them at any moment while a request is in flight.
pub trait StableBuffer: Sized {
    /// Address of the first byte, in specifications.
    ///
    /// An owner outside the verified code may leave this and
    /// [`bytes`](Self::bytes) out, since nothing runs them. It has to behave
    /// as if it had defined both: as if the address and the bytes of each of
    /// its values were what the methods below say of them.
    open spec fn addr(&self) -> usize {
        arbitrary()
    }

    /// The bytes held there, in specifications.
    open spec fn bytes(&self) -> Seq<u8> {
        arbitrary()
    }

    /// Address of the first byte. Constant for the owner's whole life.
    fn stable_ptr(&self) -> (a: usize)
        ensures
            a == self.addr(),
    ;

    /// Number of bytes readable there.
    fn stable_len(&self) -> (n: usize)
        ensures
            n == self.bytes().len(),
    ;

    /// Read one byte.
    fn load(&self, at: usize) -> (b: u8)
        requires
            at < self.bytes().len(),
        ensures
            b == self.bytes()[at as int],
    ;
}

/// [`StableBuffer`] whose bytes may also be written.
pub trait StableBufferMut: StableBuffer {
    /// Address of the first byte, for writing. The same as for reading.
    fn stable_mut_ptr(&mut self) -> (a: usize)
        ensures
            a == old(self).addr(),
            *final(self) == *old(self),
    ;

    /// Write one byte.
    fn store(&mut self, at: usize, b: u8)
        requires
            at < old(self).bytes().len(),
        ensures
            final(self).addr() == old(self).addr(),
            final(self).bytes() == old(self).bytes().update(at as int, b),
    ;
}

/// Whether two owners hold storage at the same place and of the same size.
///
/// This is what survives the kernel writing to storage: where it is and how
/// much of it there is, but not what it holds.
pub open spec fn same_place<S: StableBuffer>(a: S, b: S) -> bool {
    &&& a.addr() == b.addr()
    &&& a.bytes().len() == b.bytes().len()
}

/// Whether two owners hold storage at the same place and of the same size,
/// with the same bytes from `n` on.
///
/// This is what survives the kernel writing to the first `n` bytes.
pub open spec fn kept_from<S: StableBuffer>(a: S, b: S, n: int) -> bool {
    &&& same_place(a, b)
    &&& forall|i: int| n <= i < a.bytes().len() ==> #[trigger] a.bytes()[i] == b.bytes()[i]
}

/// Write `data` from `at` on.
pub fn write_at<B: StableBufferMut>(buf: &mut B, at: usize, data: &[u8])
    requires
        at + data@.len() <= old(buf).bytes().len(),
    ensures
        final(buf).addr() == old(buf).addr(),
        final(buf).bytes() == overwritten(old(buf).bytes(), at as int, data@),
{
    let n: usize = data.len();
    let len: usize = buf.stable_len();
    let mut i: usize = 0;
    assert(buf.bytes() =~= overwritten(old(buf).bytes(), at as int, data@.take(0)));
    while i < n
        invariant
            i <= n,
            n == data@.len(),
            len == old(buf).bytes().len(),
            at + n <= len,
            buf.addr() == old(buf).addr(),
            buf.bytes() == overwritten(old(buf).bytes(), at as int, data@.take(i as int)),
        decreases n - i,
    {
        buf.store(at + i, data[i]);
        i += 1;
        assert(buf.bytes() =~= overwritten(old(buf).bytes(), at as int, data@.take(i as int)));
    }
    assert(data@.take(n as int) =~= data@);
}

/// Read `n` bytes from `at` on.
pub fn read_at<B: StableBuffer>(buf: &B, at: usize, n: usize) -> (data: Vec<u8>)
    requires
        at + n <= buf.bytes().len(),
    ensures
        data@ == buf.bytes().subrange(at as int, at + n),
{
    let len: usize = buf.stable_len();
    let mut data: Vec<u8> = Vec::new();
    let mut i: usize = 0;
    while i < n
        invariant
            i <= n,
            len == buf.bytes().len(),
            at + n <= len,
            data@ =~= buf.bytes().subrange(at as int, at + i),
        decreases n - i,
    {
        data.push(buf.load(at + i));
        i += 1;
    }
    data
}

/// The page size mappings are rounded to.
pub const PAGE: usize = 4096;

/// An owned anonymous mapping usable as an in-flight I/O buffer.
///
/// The bytes lie in the mapping, not in the value, so moving an
/// `MmapBuffer` moves only the address. The caller makes the mapping, hands
/// it over for good, and says where it lies.
pub struct MmapBuffer {
    addr: usize,
    bytes: &'static mut [u8],
    mapped: usize,
}

impl MmapBuffer {
    /// The smallest whole number of pages that holds `len` bytes, in bytes.
    pub open spec fn pages_for(len: nat) -> nat {
        ((len + PAGE - 1) / (PAGE as int) * PAGE) as nat
    }

    /// The size of the whole mapping.
    pub closed spec fn mapped(&self) -> usize {
        self.mapped
    }

    /// How many bytes have to be mapped to hold `len` of them.
    #[allow(clippy::manual_div_ceil)]
    pub fn mapping_len(len: usize) -> (r: Result<usize, Error>)
        ensures
            len == 0 ==> r == Err::<usize, Error>(
                Error::Setup(SetupError::InvalidArg(InvalidArgKind::BufferSizeZero)),
            ),
            len > 0 && Self::pages_for(len as nat) > usize::MAX ==> r == Err::<usize, Error>(
                Error::Setup(SetupError::InvalidArg(InvalidArgKind::BufferRingSizeOverflow)),
            ),
            len > 0 && Self::pages_for(len as nat) <= usize::MAX ==> r == Ok::<usize, Error>(
                Self::pages_for(len as nat) as usize,
            ),
    {
        if len == 0 {
            return Err(Error::from(SetupError::InvalidArg(InvalidArgKind::BufferSizeZero)));
        }
        let rest: usize = len % PAGE;
        if rest == 0 {
            return Ok(len);
        }
        match len.checked_add(PAGE - rest) {
            Some(mapped) => Ok(mapped),
            None => Err(
                Error::from(SetupError::InvalidArg(InvalidArgKind::BufferRingSizeOverflow)),
            ),
        }
    }

    /// Take `len` writable bytes of zeroed anonymous memory.
    ///
    /// `mapping` is what came of mapping [`mapping_len`](Self::mapping_len)
    /// bytes: the address and the memory that lies there, or the kernel's
    /// refusal. `len` is what [`len`](Self::len) and the I/O operations use,
    /// not the rounded size.
    ///
    /// # Errors
    ///
    /// Those of [`mapping_len`](Self::mapping_len), or the refusal.
    pub fn with_capacity(len: usize, mapping: Result<(usize, &'static mut [u8]), Errno>) -> (r:
        Result<Self, Error>)
        requires
            mapping matches Ok((_, memory)) ==> memory@.len() >= len,
        ensures
            len == 0 ==> r == Err::<Self, Error>(
                Error::Setup(SetupError::InvalidArg(InvalidArgKind::BufferSizeZero)),
            ),
            len > 0 && Self::pages_for(len as nat) > usize::MAX ==> r == Err::<Self, Error>(
                Error::Setup(SetupError::InvalidArg(InvalidArgKind::BufferRingSizeOverflow)),
            ),
            len > 0 && Self::pages_for(len as nat) <= usize::MAX ==> match mapping {
                Err(e) => r == Err::<Self, Error>(Error::Setup(SetupError::Syscall(e))),
                Ok((addr, _)) => {
                    &&& r is Ok
                    &&& r->Ok_0.addr() == addr
                    &&& r->Ok_0.bytes() == Seq::new(len as nat, |i: int| 0u8)
                    &&& r->Ok_0.bytes().len() > 0
                    &&& r->Ok_0.mapped() == Self::pages_for(len as nat)
                },
            },
    {
        let mapped: usize = match Self::mapping_len(len) {
            Ok(mapped) => mapped,
            Err(e) => return Err(e),
        };
        match mapping {
            Err(e) => Err(Error::from(SetupError::Syscall(e))),
            Ok((addr, memory)) => {
                let (bytes, _) = memory.split_at_mut(len);
                let mut i: usize = 0;
                while i < len
                    invariant
                        i <= len,
                        bytes@.len() == len,
                        forall|j: int| 0 <= j < i ==> bytes@[j] == 0,
                    decreases len - i,
                {
                    bytes[i] = 0;
                    i += 1;
                }
                assert(bytes@ =~= Seq::new(len as nat, |i: int| 0u8));
                Ok(MmapBuffer { addr, bytes, mapped })
            },
        }
    }

    /// Number of usable bytes.
    pub fn len(&self) -> (n: usize)
        ensures
            n == self.bytes().len(),
    {
        self.bytes.len()
    }

    /// Always `false` of what [`with_capacity`](Self::with_capacity) returned:
    /// a mapping of nothing is refused.
    pub fn is_empty(&self) -> (b: bool)
        ensures
            b == (self.bytes().len() == 0),
    {
        self.bytes.len() == 0
    }

    /// Borrow the bytes immutably.
    pub fn as_slice(&self) -> (s: &[u8])
        ensures
            s@ == self.bytes(),
    {
        &*self.bytes
    }

    /// Borrow the bytes mutably.
    pub fn as_mut_slice(&mut self) -> (s: &mut [u8])
        ensures
            s@ == old(self).bytes(),
            final(self).addr() == old(self).addr(),
            final(self).mapped() == old(self).mapped(),
            final(self).bytes() == final(s)@,
    {
        &mut *self.bytes
    }
}

impl StableBuffer for MmapBuffer {
    closed spec fn addr(&self) -> usize {
        self.addr
    }

    closed spec fn bytes(&self) -> Seq<u8> {
        self.bytes@
    }

    fn stable_ptr(&self) -> usize {
        self.addr
    }

    fn stable_len(&self) -> usize {
        self.bytes.len()
    }

    fn load(&self, at: usize) -> u8 {
        self.bytes[at]
    }
}

impl StableBufferMut for MmapBuffer {
    fn stable_mut_ptr(&mut self) -> usize {
        self.addr
    }

    fn store(&mut self, at: usize, b: u8) {
        self.bytes[at] = b;
    }
}

impl MmapBuffer {
    /// A mapping is whole pages of 4096 bytes: enough of them, and not one too
    /// many.
    pub proof fn mappings_are_whole_pages(len: nat)
        ensures
            MmapBuffer::pages_for(len) % 4096 == 0,
            len <= MmapBuffer::pages_for(len) < len + 4096,
    {
    }
}

/// Storage in the same place has the same address and length, and storage that
/// was kept from some byte on has the same bytes there too.
pub proof fn kept_bytes_are_the_same<S: StableBuffer>(a: S, b: S, n: int, i: int)
    ensures
        same_place(a, b) ==> a.addr() == b.addr() && a.bytes().len() == b.bytes().len(),
        kept_from(a, b, n) ==> a.addr() == b.addr() && a.bytes().len() == b.bytes().len(),
        kept_from(a, b, n) && n <= i < a.bytes().len() ==> a.bytes()[i] == b.bytes()[i],
{
}

} // verus!
