use bitfi::records::{TestB2, TestBf};

#[test]
fn test_ranges() {
    let mut bf = TestB2::new(0);

    assert_eq!(bf.get_love(), 0);
    bf.set_love(0b11);
    assert_eq!(bf.get_love(), 0b11);

    bf.set_love(0b10);
    assert_eq!(bf.get_love(), 0b10);

    bf.set_love(0b01);
    assert_eq!(bf.get_love(), 0b01);

    bf.set_love2(0b101);

    assert_eq!(bf.get_inner(), 0b10101, "{:b} {:b}", bf.get_inner(), 0b10101);
}

#[test]
fn scenario_16_bit_record() {
    let mut flags = TestBf::default();
    assert_eq!(flags.get_inner(), 0);

    flags.set_on();
    assert_eq!(flags.get_inner(), 0b100);

    flags.set_love(0b11);
    assert_eq!(flags.get_inner(), 0b111);

    assert!(flags.get_on());
    assert_eq!(flags.get_love(), 0b11);
}

#[test]
fn scenario_32_bit_record() {
    // `war` (bits 5..=8) is declared `mut = false`: TestB2 has `get_war` and
    // no setter for it.
    let mut bf = TestB2::new(0);
    bf.set_love(0b11);
    bf.set_love2(0b101);
    assert_eq!(bf.get_inner(), 0b10111);
    assert_eq!(bf.get_war(), 0);
}

#[test]
fn disjoint_fields_are_independent() {
    let mut bf = TestB2::new(0);
    bf.set_inner(0b1_1010_0000);
    let war = bf.get_war();
    assert_eq!(war, 0b1101);

    bf.set_love(0b11);
    assert_eq!(bf.get_war(), war);
    bf.set_love2(0b010);
    assert_eq!(bf.get_war(), war);
    assert_eq!(bf.get_love(), 0b11);
    assert_eq!(bf.get_love2(), 0b010);
}

#[test]
fn clear_on_restores() {
    let mut flags = TestBf::new(0);
    flags.set_on();
    assert!(flags.get_on());
    flags.clear_on();
    assert!(!flags.get_on());
    assert_eq!(flags.get_inner(), 0);
}

#[test]
fn set_inner_replaces_raw_value() {
    let mut flags = TestBf::new(0b111);
    assert_eq!(flags.get_inner(), 0b111);
    flags.set_inner(0b100);
    assert_eq!(flags.get_inner(), 0b100);
    assert!(flags.get_on());
    assert_eq!(flags.get_love(), 0);
}
