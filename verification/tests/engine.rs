use bitfi::records::TestBf;
use bitfi::BitField;

#[test]
fn test_simple() {
    let mut bf = TestBf::default();

    for i in 0..16 {
        assert!(!bf.get_bit(i), "Joder {i} {:b}", bf.0);
        bf.set_bit(i);
        assert!(bf.get_bit(i), "Joder {i} {:b}", bf.0);
    }
}

#[test]
fn nums() {
    let mut n: i32 = 0;

    n.set_bit_range(0, 1, 0b11);
    n.set_bit_range(2, 3, 0b10);

    assert_eq!(n, 0b1011, "{n:b} {:b}", 0b1011);

    let br = n.get_bit_range(0, 1);
    assert_eq!(br, 0b11, "{br:b} {:b}", 0b11);

    let br = n.get_bit_range(2, 3);
    assert_eq!(br, 0b10, "{br:b} {:b}", 0b10);
}

#[test]
fn single_bit_round_trip_u8() {
    for i in 0..8u8 {
        let mut x: u8 = 0;
        x.set_bit(i);
        for j in 0..8u8 {
            assert_eq!(x.get_bit(j), i == j);
        }
        x.clear_bit(i);
        assert_eq!(x, 0);
    }
}

#[test]
fn single_bit_round_trip_u16() {
    for i in 0..16u16 {
        let mut x: u16 = 0;
        x.set_bit(i);
        for j in 0..16u16 {
            assert_eq!(x.get_bit(j), i == j);
        }
        x.clear_bit(i);
        assert_eq!(x, 0);
    }
}

#[test]
fn single_bit_round_trip_u32() {
    for i in 0..32u32 {
        let mut x: u32 = 0;
        x.set_bit(i);
        for j in 0..32u32 {
            assert_eq!(x.get_bit(j), i == j);
        }
        x.clear_bit(i);
        assert_eq!(x, 0);
    }
}

#[test]
fn single_bit_round_trip_u64() {
    for i in 0..64u64 {
        let mut x: u64 = 0;
        x.set_bit(i);
        for j in 0..64u64 {
            assert_eq!(x.get_bit(j), i == j);
        }
        x.clear_bit(i);
        assert_eq!(x, 0);
    }
}

#[test]
fn single_bit_round_trip_u128() {
    for i in 0..128u128 {
        let mut x: u128 = 0;
        x.set_bit(i);
        for j in 0..128u128 {
            assert_eq!(x.get_bit(j), i == j);
        }
        x.clear_bit(i);
        assert_eq!(x, 0);
    }
}

#[test]
fn full_width_range_u8() {
    let mut x: u8 = 0;
    x.set_bit_range(0, 7, !0);
    assert_eq!(x, !0u8);
    assert_eq!(x.get_bit_range(0, 7), !0u8);
}

#[test]
fn full_width_range_u16() {
    let mut x: u16 = 0;
    x.set_bit_range(0, 15, !0);
    assert_eq!(x, !0u16);
    assert_eq!(x.get_bit_range(0, 15), !0u16);
}

#[test]
fn full_width_range_u32() {
    let mut x: u32 = 0;
    x.set_bit_range(0, 31, !0);
    assert_eq!(x, !0u32);
    assert_eq!(x.get_bit_range(0, 31), !0u32);
}

#[test]
fn full_width_range_u64() {
    let mut x: u64 = 0;
    x.set_bit_range(0, 63, !0);
    assert_eq!(x, !0u64);
    assert_eq!(x.get_bit_range(0, 63), !0u64);
}

#[test]
fn full_width_range_u128() {
    let mut x: u128 = 0;
    x.set_bit_range(0, 127, !0);
    assert_eq!(x, !0u128);
    assert_eq!(x.get_bit_range(0, 127), !0u128);
}

#[test]
fn range_write_discards_high_bits() {
    let mut x: u32 = 0;
    x.set_bit_range(4, 6, 0xFF);
    assert_eq!(x, 0b111 << 4);
    assert_eq!(x.get_bit_range(4, 6), 0b111);
}

#[test]
fn raw_bit_range_u32() {
    let mut n: u32 = 0;
    n.set_bit_range(0, 1, 0b11);
    n.set_bit_range(2, 3, 0b10);
    assert_eq!(n, 0b1011);
    assert_eq!(n.get_bit_range(0, 1), 0b11);
    assert_eq!(n.get_bit_range(2, 3), 0b10);
}

#[test]
fn toggle_bit_flips() {
    let mut x: u8 = 0b101;
    x.toggle_bit(0);
    assert_eq!(x, 0b100);
    x.toggle_bit(1);
    assert_eq!(x, 0b110);
    x.toggle_bit(1);
    assert_eq!(x, 0b100);
}

#[test]
fn signed_bits() {
    let mut x: i8 = 0;
    x.set_bit(7);
    assert_eq!(x, -128);
    assert!(x.get_bit(7));
    x.clear_bit(7);
    assert_eq!(x, 0);

    let mut y: i32 = 0;
    y.set_bit_range(0, 3, 0b1010);
    assert_eq!(y, 0b1010);
    assert_eq!(y.get_bit_range(1, 3), 0b101);
}

#[test]
fn signed_range_touching_sign_bit_sign_extends() {
    let x: i8 = -1;
    assert_eq!(x.get_bit_range(4, 7), -1);
    let y: i8 = 0b0101_0000u8 as i8;
    assert_eq!(y.get_bit_range(4, 7), 0b101);
}

#[test]
fn pointer_sized_types() {
    let mut x: usize = 0;
    x.set_bit(3);
    assert!(x.get_bit(3));
    assert_eq!(x, 8);
    x.set_bit_range(0, 2, 0b111);
    assert_eq!(x, 0b1111);

    let mut y: isize = 0;
    y.set_bit(1);
    assert_eq!(y, 2);
    y.toggle_bit(1);
    assert_eq!(y, 0);
}

#[test]
fn check_numeric_types_runs() {
    bitfi::check_numeric_types();
}
