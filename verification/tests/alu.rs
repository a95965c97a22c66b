use emu6502::alu::{add_with_carry, bit_test, compare, load, logical_and, shift_left};
use emu6502::Status;

#[test]
fn alu_add_with_carry_uses_and_replaces_carry() {
    let mut status = Status::new();
    assert_eq!(add_with_carry(&mut status, 0xF0, 0x20), 0x10);
    assert!(status.carry);
    assert!(!status.zero);
    assert!(!status.negative);
    assert!(!status.overflow);

    assert_eq!(add_with_carry(&mut status, 0x10, 0x20), 0x31);
    assert!(!status.carry);

    status.carry = true;
    assert_eq!(add_with_carry(&mut status, 0xFF, 0xFF), 0xFF);
    assert!(status.carry);
    assert!(status.negative);
    assert!(!status.overflow);
}

#[test]
fn alu_add_with_carry_leaves_other_flags() {
    let mut status = Status::from_byte(0b0011_1100);
    assert_eq!(add_with_carry(&mut status, 0x7F, 0x01), 0x80);
    assert_eq!(status.as_byte(), 0b1111_1100);
}

#[test]
fn alu_logical_and_leaves_carry_and_overflow() {
    let mut status = Status::from_byte(0b0100_0001);
    assert_eq!(logical_and(&mut status, 0xCC, 0xAA), 0x88);
    assert_eq!(status.as_byte(), 0b1100_0001);
    assert_eq!(logical_and(&mut status, 0x0F, 0xF0), 0x00);
    assert_eq!(status.as_byte(), 0b0100_0011);
}

#[test]
fn alu_shift_left_moves_bit_seven_into_carry() {
    let mut status = Status::new();
    assert_eq!(shift_left(&mut status, 0x81), 0x02);
    assert_eq!(status.as_byte(), 0b0000_0001);
    assert_eq!(shift_left(&mut status, 0x55), 0xAA);
    assert_eq!(status.as_byte(), 0b1000_0000);
    assert_eq!(shift_left(&mut status, 0x00), 0x00);
    assert_eq!(status.as_byte(), 0b0000_0010);
}

#[test]
fn alu_compare_orders_the_operands() {
    let mut status = Status::new();
    compare(&mut status, 0x10, 0x10);
    assert_eq!(status.as_byte(), 0b0000_0011);
    compare(&mut status, 0x10, 0x11);
    assert_eq!(status.as_byte(), 0b1000_0000);
    compare(&mut status, 0x11, 0x10);
    assert_eq!(status.as_byte(), 0b0000_0001);
    compare(&mut status, 0x00, 0x80);
    assert_eq!(status.as_byte(), 0b1000_0000);
    compare(&mut status, 0xFF, 0x00);
    assert_eq!(status.as_byte(), 0b1000_0001);
}

#[test]
fn alu_bit_test_clears_as_well_as_sets() {
    let mut status = Status::from_byte(0b1100_0000);
    bit_test(&mut status, 0xFF, 0x01);
    assert_eq!(status.as_byte(), 0b0000_0000);
    bit_test(&mut status, 0x00, 0xC0);
    assert_eq!(status.as_byte(), 0b1100_0010);
    bit_test(&mut status, 0x40, 0x40);
    assert_eq!(status.as_byte(), 0b0100_0000);
}

#[test]
fn alu_load_returns_the_operand() {
    let mut status = Status::from_byte(0b0100_0001);
    assert_eq!(load(&mut status, 0x00), 0x00);
    assert_eq!(status.as_byte(), 0b0100_0011);
    assert_eq!(load(&mut status, 0xFF), 0xFF);
    assert_eq!(status.as_byte(), 0b1100_0001);
    assert_eq!(load(&mut status, 0x01), 0x01);
    assert_eq!(status.as_byte(), 0b0100_0001);
}
