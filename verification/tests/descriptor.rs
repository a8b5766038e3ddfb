use sse4a::descriptor::{FieldDescriptor, CONTROL_BITS};
use sse4a::lane::LanePair;

#[test]
fn new_accepts_six_bit_fields_only() {
    assert_eq!(FieldDescriptor::new(8, 4), Some(FieldDescriptor { index: 8, length: 4 }));
    assert_eq!(FieldDescriptor::new(63, 63), Some(FieldDescriptor { index: 63, length: 63 }));
    assert_eq!(FieldDescriptor::new(64, 1), None);
    assert_eq!(FieldDescriptor::new(1, 64), None);
    assert_eq!(FieldDescriptor::new(255, 255), None);
}

#[test]
fn validity_follows_index_plus_width() {
    assert!(FieldDescriptor { index: 0, length: 0 }.is_valid());
    assert!(!FieldDescriptor { index: 1, length: 0 }.is_valid());
    assert!(FieldDescriptor { index: 8, length: 4 }.is_valid());
    assert!(FieldDescriptor { index: 60, length: 4 }.is_valid());
    assert!(!FieldDescriptor { index: 61, length: 4 }.is_valid());
    assert!(FieldDescriptor { index: 63, length: 1 }.is_valid());
    assert!(FieldDescriptor { index: 1, length: 63 }.is_valid());
    assert!(!FieldDescriptor { index: 2, length: 63 }.is_valid());
    assert!(!FieldDescriptor { index: 64, length: 0 }.is_valid());
    assert!(!FieldDescriptor { index: 0, length: 64 }.is_valid());
}

#[test]
fn decode_reads_length_and_index() {
    let d = FieldDescriptor::decode(0b00_1000_0000_0100);
    assert_eq!(d, FieldDescriptor { index: 8, length: 4 });
    let d = FieldDescriptor::decode(0x3f3f);
    assert_eq!(d, FieldDescriptor { index: 63, length: 63 });
    let d = FieldDescriptor::decode(0);
    assert_eq!(d, FieldDescriptor { index: 0, length: 0 });
}

#[test]
fn decode_ignores_bits_outside_the_descriptor() {
    for index in 0u8..64 {
        for length in 0u8..64 {
            let d = FieldDescriptor { index, length };
            let noisy = d.encode() | !CONTROL_BITS;
            assert_eq!(FieldDescriptor::decode(noisy), d);
        }
    }
}

#[test]
fn encode_exact_values() {
    assert_eq!(FieldDescriptor { index: 8, length: 4 }.encode(), 0x0804);
    assert_eq!(FieldDescriptor { index: 0, length: 0 }.encode(), 0);
    assert_eq!(FieldDescriptor { index: 63, length: 63 }.encode(), 0x3f3f);
    assert_eq!(FieldDescriptor { index: 1, length: 2 }.encode(), 0x0102);
}

#[test]
fn decode_of_encode_is_the_descriptor() {
    for index in 0u8..64 {
        for length in 0u8..64 {
            let d = FieldDescriptor { index, length };
            assert_eq!(FieldDescriptor::decode(d.encode()), d);
        }
    }
}

#[test]
fn encode_of_decode_keeps_descriptor_bits() {
    for &c in [0u64, u64::MAX, 0x0804, 0x1234_5678_9abc_def0, 0xc0c0].iter() {
        assert_eq!(FieldDescriptor::decode(c).encode(), c & CONTROL_BITS);
    }
}

#[test]
fn lane_pair_keeps_its_lanes() {
    let v = LanePair::new(0x1122_3344_5566_7788, 0x99aa_bbcc_ddee_ff00);
    assert_eq!(v.lo, 0x1122_3344_5566_7788);
    assert_eq!(v.hi, 0x99aa_bbcc_ddee_ff00);
    assert_eq!(v.low32(), 0x5566_7788);
    assert_eq!(LanePair::new(u64::MAX, 0).low32(), u32::MAX);
    assert_eq!(LanePair::new(0xffff_ffff_0000_0000, 7).low32(), 0);
}
