use cmplog_harvest::codec::{decode, CmpHeader};

#[test]
fn decode_zero_header() {
    let h = decode(0);
    assert_eq!(
        h,
        CmpHeader { hits: 0, id: 0, shape: 0, ty: 0, attribute: 0, overflow: false }
    );
}

#[test]
fn decode_hits_only() {
    let h = decode(0x2A);
    assert_eq!(h.hits, 42);
    assert_eq!(h.id, 0);
    assert_eq!(h.shape, 0);
    assert_eq!(h.ty, 0);
    assert_eq!(h.attribute, 0);
    assert!(!h.overflow);
}

#[test]
fn decode_low_word() {
    // Bits [0, 24) are the hit count; bits [24, 48) are the id, so the
    // 0x05 sitting at bit 24 lands in the id field.
    let h = decode(0x05_0000_2A);
    assert_eq!(h.hits, 42);
    assert_eq!(h.id, 5);
    assert_eq!(h.shape, 0);
    assert_eq!(h.ty, 0);
    assert_eq!(h.attribute, 0);
    assert!(!h.overflow);
}

#[test]
fn decode_each_field() {
    let hits: u64 = 0x123456;
    let id: u64 = 0xABCDEF;
    let shape: u64 = 0x15;
    let ty: u64 = 0x2;
    let attribute: u64 = 0xA;
    let raw: u64 = hits | (id << 24) | (shape << 48) | (ty << 53) | (attribute << 55) | (1 << 59);
    let h = decode(raw);
    assert_eq!(h.hits, 0x123456);
    assert_eq!(h.id, 0xABCDEF);
    assert_eq!(h.shape, 0x15);
    assert_eq!(h.ty, 0x2);
    assert_eq!(h.attribute, 0xA);
    assert!(h.overflow);
}

#[test]
fn decode_all_bits_set() {
    let h = decode(u64::MAX);
    assert_eq!(h.hits, 0xFF_FFFF);
    assert_eq!(h.id, 0xFF_FFFF);
    assert_eq!(h.shape, 0x1F);
    assert_eq!(h.ty, 0x3);
    assert_eq!(h.attribute, 0xF);
    assert!(h.overflow);
}

#[test]
fn decode_ignores_reserved_bits() {
    // Only the reserved top nibble differs: the decoded fields agree.
    let raw: u64 = 0x0123_4567_89AB_CDEF;
    let with_reserved: u64 = raw | 0xF000_0000_0000_0000;
    assert_eq!(decode(raw), decode(with_reserved));
}
