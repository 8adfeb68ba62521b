//! Mapped buffers.

use ququmatz::owned::buffer::{MmapBuffer, StableBuffer, StableBufferMut};
use ququmatz::{Errno, Error, InvalidArgKind, SetupError};

/// Memory for `len` bytes, said to lie at `addr`.
fn memory(addr: usize, len: usize) -> Result<(usize, &'static mut [u8]), Errno> {
    Ok((addr, vec![0xEE; len].leak()))
}

/// A mapping that succeeded, somewhere.
fn mapped(len: usize) -> Result<MmapBuffer, Error> {
    MmapBuffer::with_capacity(len, memory(0x7000_0000, len))
}

#[test]
fn zero_capacity_is_rejected() {
    assert_eq!(
        mapped(0).map(|_| ()).unwrap_err(),
        Error::Setup(SetupError::InvalidArg(InvalidArgKind::BufferSizeZero))
    );
}

#[test]
fn round_trip_write_then_read() {
    let mut buf = mapped(64).expect("map");
    buf.as_mut_slice()[..5].copy_from_slice(b"hello");
    assert_eq!(&buf.as_slice()[..5], b"hello");
}

#[test]
fn fresh_mapping_is_zeroed() {
    let buf = mapped(128).expect("map");
    assert!(buf.as_slice().iter().all(|&b| b == 0));
}

#[test]
fn len_is_the_requested_length_not_the_page_rounded_one() {
    let buf = mapped(100).expect("map");
    assert_eq!(buf.len(), 100);
    assert_eq!(buf.as_slice().len(), 100);
    assert_eq!(buf.stable_len(), 100);
}

#[test]
fn sub_page_and_multi_page_sizes_both_map() {
    assert_eq!(mapped(1).expect("map").len(), 1);
    assert_eq!(mapped(4097).expect("map").len(), 4097);
}

#[test]
fn address_survives_moving_the_owner() {
    let mut buf = mapped(32).expect("map");
    let before = buf.stable_ptr();
    buf.as_mut_slice()[0] = 7;

    let moved = buf;
    assert_eq!(moved.stable_ptr(), before);
    assert_eq!(moved.as_slice()[0], 7);
}

#[test]
fn mutable_and_immutable_pointers_agree() {
    let mut buf = mapped(16).expect("map");
    assert_eq!(buf.stable_ptr(), buf.stable_mut_ptr());
}

#[test]
fn separate_buffers_do_not_alias() {
    let mut a = mapped(64).expect("map a");
    let mut b = mapped(64).expect("map b");
    a.as_mut_slice().fill(0xAA);
    b.as_mut_slice().fill(0xBB);
    assert!(a.as_slice().iter().all(|&x| x == 0xAA));
    assert!(b.as_slice().iter().all(|&x| x == 0xBB));
}

#[test]
fn mappings_are_whole_pages() {
    assert_eq!(MmapBuffer::mapping_len(1), Ok(4096));
    assert_eq!(MmapBuffer::mapping_len(4096), Ok(4096));
    assert_eq!(MmapBuffer::mapping_len(4097), Ok(8192));
    assert_eq!(
        MmapBuffer::mapping_len(usize::MAX),
        Err(Error::Setup(SetupError::InvalidArg(
            InvalidArgKind::BufferRingSizeOverflow
        )))
    );
}

#[test]
fn a_refused_mapping_is_reported() {
    assert_eq!(
        MmapBuffer::with_capacity(1, Err(Errno(12))).map(|_| ()),
        Err(Error::Setup(SetupError::Syscall(Errno(12))))
    );
}

#[test]
fn single_bytes_are_stored_and_loaded() {
    let mut buf = mapped(3).expect("map");
    buf.store(1, 0x5A);
    assert_eq!(buf.load(0), 0);
    assert_eq!(buf.load(1), 0x5A);
    assert_eq!(buf.as_slice(), [0, 0x5A, 0]);
}

#[test]
fn a_buffer_is_the_memory_it_was_given() {
    // Longer than asked for, as a mapping of whole pages is.
    let given = memory(0x9000, 4096).expect("memory");
    let there = given.1.as_ptr() as usize;
    let buf = MmapBuffer::with_capacity(10, Ok((there, given.1))).expect("map");
    assert_eq!(buf.stable_ptr(), buf.as_slice().as_ptr() as usize);
    assert_eq!(buf.as_slice(), [0; 10]);
}
