//! The storage behind a message.

use ququmatz::owned::buffer::{MmapBuffer, StableBuffer};
use ququmatz::owned::msgregion::{MsgRegion, MsgRegionError, MAX_IOV};
use ququmatz::types::abi::{Abi, IoVec, MsgHdr, SockAddrIn};
use ququmatz::Errno;

/// Memory for `len` bytes, said to lie at `addr`.
fn memory(addr: usize, len: usize) -> Result<(usize, &'static mut [u8]), Errno> {
    Ok((addr, vec![0xEE; len].leak()))
}

/// Storage large enough for `count` descriptors.
fn ample(count: usize) -> MmapBuffer {
    let len = MsgRegion::<MmapBuffer>::bytes_for(count);
    MmapBuffer::with_capacity(len, memory(0x7000_0000, len)).expect("map")
}

#[test]
fn more_descriptors_than_the_kernel_accepts_are_refused_with_the_storage_back() {
    let store = ample(MAX_IOV + 1);
    let len = store.stable_len();
    let Err((store, e)) = MsgRegion::stage(store, MAX_IOV + 1) else {
        panic!("a count past UIO_MAXIOV must be refused");
    };
    assert_eq!(
        e,
        MsgRegionError::TooManyDescriptors {
            got: MAX_IOV + 1,
            max: MAX_IOV,
        }
    );
    assert_eq!(store.stable_len(), len);
    assert_eq!(
        e.message(),
        "1025 descriptors exceeds the kernel's limit of 1024"
    );
}

#[test]
fn exactly_the_kernels_limit_is_accepted() {
    let mut region = MsgRegion::stage(ample(MAX_IOV), MAX_IOV)
        .ok()
        .expect("the limit itself must be allowed");
    region.publish_header(false);
    assert_eq!(region.header().msg_iovlen, MAX_IOV as u64);
}

#[test]
fn each_sub_region_lies_inside_the_storage_and_none_overlap() {
    let mut region = MsgRegion::stage(ample(3), 3)
        .ok()
        .expect("ample storage fits");
    region.publish_header(true);

    let hdr = region.header();
    let header_end = region.header_ptr() + MsgHdr::size_of() as u64;
    assert!(hdr.msg_iov >= header_end);
    assert!(hdr.msg_name >= hdr.msg_iov + IoVec::size_of() as u64 * 3);
}

#[test]
fn the_staged_address_is_reachable_by_following_the_header() {
    let mut region = MsgRegion::stage(ample(1), 1)
        .ok()
        .expect("ample storage fits");
    let addr = SockAddrIn {
        sin_family: 2,
        sin_port: 8080u16.to_be(),
        sin_addr: u32::from_ne_bytes([10, 0, 0, 1]),
        sin_zero: [0; 8],
    };
    region.write_name(addr);
    region.publish_header(true);

    // Follow the header's own address rather than asking the region.
    let hdr = region.header();
    let at = (hdr.msg_name - region.header_ptr()) as usize;
    let store = region.into_store();
    let bytes: Vec<u8> = (0..16).map(|i| store.load(at + i)).collect();
    assert_eq!(SockAddrIn::decode(&bytes), addr);
}

#[test]
fn a_nameless_header_names_no_address() {
    let mut region = MsgRegion::stage(ample(2), 2).ok().expect("fits");
    region.publish_header(false);
    let hdr = region.header();
    assert_eq!((hdr.msg_name, hdr.msg_namelen), (0, 0));
    assert_eq!(hdr.msg_iov, region.header_ptr() + 56);
}

#[test]
fn descriptors_are_independent_of_each_other() {
    let mut region = MsgRegion::stage(ample(3), 3).ok().expect("fits");
    region.publish_header(true);
    let header = region.header();
    region.write_descriptor(0, 10, 1);
    region.write_descriptor(2, 30, 3);
    region.write_descriptor(1, 20, 2);
    assert_eq!(region.descriptor(0), IoVec::new(10, 1));
    assert_eq!(region.descriptor(1), IoVec::new(20, 2));
    assert_eq!(region.descriptor(2), IoVec::new(30, 3));
    assert_eq!(region.header(), header);
    assert_eq!(region.name(), SockAddrIn::default());
}

#[test]
fn short_and_misaligned_regions_are_refused() {
    let short = MmapBuffer::with_capacity(87, memory(0x1000, 87)).expect("map");
    let (_, e) = MsgRegion::stage(short, 1).err().expect("too small");
    assert_eq!(e, MsgRegionError::RegionTooSmall { needed: 88, got: 87 });
    assert_eq!(e.message(), "msghdr staging needs 88 bytes, got 87");

    let odd = MmapBuffer::with_capacity(88, memory(0x1004, 88)).expect("map");
    let (_, e) = MsgRegion::stage(odd, 1).err().expect("misaligned");
    assert_eq!(e, MsgRegionError::RegionMisaligned { needed: 8 });
    assert_eq!(e.message(), "msghdr staging must be 8-byte aligned");
}

#[test]
fn parting_a_region_keeps_its_layout() {
    let mut region = MsgRegion::stage(ample(1), 1).ok().expect("fits");
    region.write_descriptor(0, 7, 8);
    let (store, count) = region.into_raw_parts();
    let region = MsgRegion::from_parts(store, count);
    assert_eq!(region.descriptor(0), IoVec::new(7, 8));
}
