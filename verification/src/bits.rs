//! The bits of the flag, line-control, control and interrupt-mask registers
//! that the driver consumes, and the arithmetic on them.

use vstd::prelude::*;

verus! {

/// Flag register: the receive FIFO is empty.
pub const FLAG_RX_EMPTY: u32 = 0x10;

/// Flag register: the transmit FIFO is full.
pub const FLAG_TX_FULL: u32 = 0x20;

/// Line control: FIFOs enabled.
pub const LINE_FIFO_ENABLE: u32 = 0x10;

/// Interrupt mask: receive interrupt enabled.
pub const MASK_RX_INTERRUPT: u32 = 0x10;

/// Control: the UART is enabled.
pub const CONTROL_UART_ENABLE: u32 = 0x1;

/// Control: the transmitter is enabled.
pub const CONTROL_TX_ENABLE: u32 = 0x100;

/// Control: the receiver is enabled.
pub const CONTROL_RX_ENABLE: u32 = 0x200;

/// Some bit of `mask` is set in `value`.
pub open spec fn spec_has_bit(value: u32, mask: u32) -> bool {
    value & mask != 0
}

/// `value` with the bits of `mask` set (`on`) or cleared, the other bits kept.
pub open spec fn spec_with_bit(value: u32, mask: u32, on: bool) -> u32 {
    if on {
        value | mask
    } else {
        value & !mask
    }
}

/// The byte that a word of the data register carries: its low 8 bits.
pub open spec fn spec_data_byte(word: u32) -> u8 {
    (word & 0xff) as u8
}

/// Some bit of `mask` is set in `value`.
#[verifier::when_used_as_spec(spec_has_bit)]
pub fn has_bit(value: u32, mask: u32) -> (b: bool)
    ensures
        b == spec_has_bit(value, mask),
{
    value & mask != 0
}

/// `value` with the bits of `mask` set (`on`) or cleared, the other bits kept.
#[verifier::when_used_as_spec(spec_with_bit)]
pub fn with_bit(value: u32, mask: u32, on: bool) -> (r: u32)
    ensures
        r == spec_with_bit(value, mask, on),
{
    if on {
        value | mask
    } else {
        value & !mask
    }
}

/// The byte that a word of the data register carries: its low 8 bits.
#[verifier::when_used_as_spec(spec_data_byte)]
pub fn data_byte(word: u32) -> (b: u8)
    ensures
        b == spec_data_byte(word),
{
    (word & 0xff) as u8
}

/// A value of the flag register says that received data waits.
pub fn flags_have_data(flags: u32) -> (b: bool)
    ensures
        b == !spec_has_bit(flags, FLAG_RX_EMPTY),
{
    flags & FLAG_RX_EMPTY == 0
}

/// A value of the flag register says that the transmitter takes a byte.
pub fn flags_have_room(flags: u32) -> (b: bool)
    ensures
        b == !spec_has_bit(flags, FLAG_TX_FULL),
{
    flags & FLAG_TX_FULL == 0
}

/// Setting or clearing the bits of `mask` touches no other bit, and leaves
/// the bits of `mask` all set or all clear.
pub proof fn lemma_with_bit_isolated(value: u32, mask: u32, on: bool)
    ensures
        spec_with_bit(value, mask, on) & !mask == value & !mask,
        spec_with_bit(value, mask, on) & mask == if on { mask } else { 0u32 },
{
    assert((value | mask) & !mask == value & !mask) by (bit_vector);
    assert((value | mask) & mask == mask) by (bit_vector);
    assert((value & !mask) & !mask == value & !mask) by (bit_vector);
    assert((value & !mask) & mask == 0u32) by (bit_vector);
}

/// A byte written as a word reads back as the same byte.
pub proof fn lemma_data_byte_of_byte(b: u8)
    ensures
        spec_data_byte(b as u32) == b,
{
    assert(((b as u32) & 0xff) as u8 == b) by (bit_vector);
}

} // verus!
