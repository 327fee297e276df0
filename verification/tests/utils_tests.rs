use sm83_core::utils::{u16_to_u8s, u8s_to_u16, BitWise, Carryable};

#[test]
fn add_half_carry_check_10plus12() {
    assert!((10 as u8).add_should_half_carry(12));
}

#[test]
fn add_half_carry_check_5plus4() {
    assert!(!(5 as u8).add_should_half_carry(4));
}

#[test]
fn bitwise_is_bit_set_0() {
    assert!(1u8.is_bit_set(1 << 0));
}

#[test]
fn bitwise_is_bit_set_1() {
    assert!(2u8.is_bit_set(1 << 1))
}

#[test]
fn bitwise_is_bit_set_3c() {
    assert!(!(0x3c as u8).is_bit_set(1 << 0));
    assert!(!(0x3c as u8).is_bit_set(1 << 1));
    assert!((0x3c as u8).is_bit_set(1 << 2));
    assert!((0x3c as u8).is_bit_set(1 << 3));
    assert!((0x3c as u8).is_bit_set(1 << 4));
    assert!((0x3c as u8).is_bit_set(1 << 5));
    assert!(!(0x3c as u8).is_bit_set(1 << 6));
    assert!(!(0x3c as u8).is_bit_set(1 << 7));
}

#[test]
fn bitwise_is_bit_set_7e() {
    assert!(!(0x7e as u8).is_bit_set(1 << 0));
    assert!((0x7e as u8).is_bit_set(1 << 1));
    assert!((0x7e as u8).is_bit_set(1 << 2));
    assert!((0x7e as u8).is_bit_set(1 << 3));
    assert!((0x7e as u8).is_bit_set(1 << 4));
    assert!((0x7e as u8).is_bit_set(1 << 5));
    assert!((0x7e as u8).is_bit_set(1 << 6));
    assert!(!(0x7e as u8).is_bit_set(1 << 7));
}

#[test]
fn bitwise_is_bit_set_excludes_unset_bits() {
    assert!(!2u8.is_bit_set(1 << 0));
}

#[test]
fn bitwise_is_bit_set_for_3() {
    assert!(3u8.is_bit_set(1 << 0));
    assert!(3u8.is_bit_set(1 << 1));
}

#[test]
fn bitwise_set_and_unset() {
    assert_eq!(0x40u8.set_bit(0x01), 0x41);
    assert_eq!(0x41u8.unset_bit(0x01), 0x40);
    assert_eq!(0x40u8.toggle_bit(0x80, true), 0xC0);
    assert_eq!(0xC0u8.toggle_bit(0x80, false), 0x40);
}

#[test]
fn sixteen_bit_split_and_combine() {
    assert_eq!(u8s_to_u16(0x12, 0x34), 0x1234);
    assert_eq!(u16_to_u8s(0x1234), [0x12, 0x34]);
    assert_eq!(u8s_to_u16(0xFF, 0xFF), 0xFFFF);
    assert_eq!(u16_to_u8s(0x00FF), [0x00, 0xFF]);
}

#[test]
fn carry_checks_at_boundaries() {
    assert!((0xFFu8).add_should_carry(0x01));
    assert!(!(0xFEu8).add_should_carry(0x01));
    assert!((0x0Fu8).inc_should_half_carry() == false);
    assert!((0x10u8).inc_should_half_carry());
    assert!((0x0Fu8).dec_should_half_carry());
    assert!((0x00u8).sub_should_carry(0x01));
    assert!((0x10u8).sub_should_half_carry(0x01));
    assert!((0x0FFFu16).add_should_half_carry(1));
    assert!((0xFFFFu16).add_should_carry(1));
}
