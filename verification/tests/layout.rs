use vmx::descriptors::{InvEptDescriptor, InvEptType, InvVpidDescriptor, InvVpidType};
use vmx::encoding::{u16_le_bytes, u32_le_bytes, u64_from_le_slice, u64_le_bytes};

#[test]
fn invept_type_codes() {
    assert_eq!(InvEptType::SingleContext.code(), 1);
    assert_eq!(InvEptType::Global.code(), 2);
}

#[test]
fn invvpid_type_codes() {
    assert_eq!(InvVpidType::IndividualAddress.code(), 0);
    assert_eq!(InvVpidType::SingleContext.code(), 1);
    assert_eq!(InvVpidType::AllContext.code(), 2);
    assert_eq!(InvVpidType::SingleContextNonGlobal.code(), 3);
}

#[test]
fn u16_encoding_exact() {
    assert_eq!(u16_le_bytes(0x1234), vec![0x34, 0x12]);
    assert_eq!(u16_le_bytes(0), vec![0, 0]);
    assert_eq!(u16_le_bytes(0xFFFF), vec![0xFF, 0xFF]);
}

#[test]
fn u32_encoding_exact() {
    assert_eq!(u32_le_bytes(0x1234_5678), vec![0x78, 0x56, 0x34, 0x12]);
    assert_eq!(u32_le_bytes(0), vec![0, 0, 0, 0]);
}

#[test]
fn u64_encoding_exact() {
    assert_eq!(
        u64_le_bytes(0x0123_4567_89AB_CDEF),
        vec![0xEF, 0xCD, 0xAB, 0x89, 0x67, 0x45, 0x23, 0x01]
    );
    assert_eq!(u64_le_bytes(0), vec![0; 8]);
}

#[test]
fn u64_encoding_round_trip() {
    for x in [0u64, 1, 0x1000, 0xDEAD_BEEF, u64::MAX] {
        let b = u64_le_bytes(x);
        assert_eq!(u64_from_le_slice(&b[0..8]), x);
    }
}

#[test]
fn invept_descriptor_round_trip() {
    // An EPTP of 0x1000 with zero-filled reserved bits: re-reading the
    // first eight bytes little-endian yields 0x1000; bytes 8 to 15 are zero.
    let d = InvEptDescriptor::new(0x1000);
    let b = d.bytes();
    assert_eq!(b.len(), 16);
    assert_eq!(u64_from_le_slice(&b[0..8]), 0x1000);
    assert!(b[8..16].iter().all(|&x| x == 0));
}

#[test]
fn invept_descriptor_layout_every_input() {
    for eptp in [0u64, 1, 0x1000, 0x000F_FFFF_FFFF_F000, u64::MAX] {
        let d = InvEptDescriptor::new(eptp);
        assert_eq!(d.eptp(), eptp);
        let b = d.bytes();
        assert_eq!(b.len(), 16);
        assert_eq!(&b[0..8], &u64_le_bytes(eptp)[..]);
        assert!(b[8..16].iter().all(|&x| x == 0));
    }
}

#[test]
fn invvpid_descriptor_layout_every_input() {
    for (vpid, addr) in [(0u16, 0u64), (5, 0x2000), (0xFFFF, u64::MAX), (1, 0x7FFF_FFFF_FFFF)] {
        let d = InvVpidDescriptor::new(vpid, addr);
        assert_eq!(d.vpid(), vpid);
        assert_eq!(d.addr(), addr);
        let b = d.bytes();
        assert_eq!(b.len(), 16);
        assert_eq!(&b[0..2], &u16_le_bytes(vpid)[..]);
        assert!(b[2..8].iter().all(|&x| x == 0));
        assert_eq!(&b[8..16], &u64_le_bytes(addr)[..]);
    }
}

#[test]
fn invvpid_descriptor_exact_bytes() {
    let d = InvVpidDescriptor::new(5, 0x2000);
    let b = d.bytes();
    assert_eq!(
        b,
        vec![0x05, 0x00, 0x00, 0x00, 0x00, 0x00, 0x00, 0x00, 0x00, 0x20, 0x00, 0x00, 0x00, 0x00,
            0x00, 0x00]
    );
}
