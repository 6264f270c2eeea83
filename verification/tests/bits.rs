use pl011_qemu::bits::{data_byte, flags_have_data, flags_have_room, has_bit, with_bit};
use pl011_qemu::bits::{
    CONTROL_RX_ENABLE, CONTROL_TX_ENABLE, CONTROL_UART_ENABLE, FLAG_RX_EMPTY, FLAG_TX_FULL,
    LINE_FIFO_ENABLE, MASK_RX_INTERRUPT,
};

#[test]
fn bit_positions() {
    assert_eq!(FLAG_RX_EMPTY, 1 << 4);
    assert_eq!(FLAG_TX_FULL, 1 << 5);
    assert_eq!(LINE_FIFO_ENABLE, 1 << 4);
    assert_eq!(MASK_RX_INTERRUPT, 1 << 4);
    assert_eq!(CONTROL_UART_ENABLE, 1 << 0);
    assert_eq!(CONTROL_TX_ENABLE, 1 << 8);
    assert_eq!(CONTROL_RX_ENABLE, 1 << 9);
}

#[test]
fn has_bit_tests_the_mask() {
    assert!(has_bit(0x10, 0x10));
    assert!(has_bit(0xffff_ffff, 0x200));
    assert!(!has_bit(0xffff_ffef, 0x10));
    assert!(!has_bit(0, 0x1));
}

#[test]
fn with_bit_sets_and_clears_only_the_mask() {
    assert_eq!(with_bit(0, 0x10, true), 0x10);
    assert_eq!(with_bit(0x10, 0x10, true), 0x10);
    assert_eq!(with_bit(0xdead_beef, 0x10, true), 0xdead_beff);
    assert_eq!(with_bit(0xdead_beff, 0x10, false), 0xdead_beef);
    assert_eq!(with_bit(0xffff_ffff, 0x10, false), 0xffff_ffef);
    assert_eq!(with_bit(0, 0x10, false), 0);
}

#[test]
fn data_byte_is_the_low_eight_bits() {
    assert_eq!(data_byte(0x41), 0x41);
    assert_eq!(data_byte(0x0000_0f41), 0x41);
    assert_eq!(data_byte(0xffff_ff00), 0x00);
    assert_eq!(data_byte(0x1ff), 0xff);
    for b in 0..=255u8 {
        assert_eq!(data_byte(b as u32), b);
    }
}

#[test]
fn flag_decoding() {
    assert!(flags_have_data(0));
    assert!(flags_have_data(0x20));
    assert!(!flags_have_data(0x10));
    assert!(!flags_have_data(0x30));
    assert!(flags_have_data(0xffff_ffef));
    assert!(flags_have_room(0));
    assert!(flags_have_room(0x10));
    assert!(!flags_have_room(0x20));
    assert!(!flags_have_room(0x30));
    assert!(flags_have_room(0xffff_ffdf));
}
