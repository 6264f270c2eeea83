//! What holds across several operations of the driver, stated over the
//! states that the operations' contracts speak of.

use vstd::prelude::*;
use crate::bits::{lemma_data_byte_of_byte, lemma_with_bit_isolated};
use crate::bits::{spec_data_byte, spec_has_bit};
use crate::bits::{LINE_FIFO_ENABLE, MASK_RX_INTERRUPT};
use crate::regs::RegsModel;

verus! {

/// Reading `n` of the waiting words takes the oldest `n` from the receive
/// FIFO, keeps the rest in order and touches nothing else.
pub proof fn lemma_reads_take_oldest(m: RegsModel, n: nat)
    requires
        n <= m.rx_fifo.len(),
    ensures
        m.after_reads(n) == (RegsModel { rx_fifo: m.rx_fifo.skip(n as int), ..m }),
    decreases n,
{
    if n == 0 {
        assert(m.rx_fifo.skip(0) =~= m.rx_fifo);
    } else {
        lemma_reads_take_oldest(m, (n - 1) as nat);
        assert(m.rx_fifo.skip(n - 1).skip(1) =~= m.rx_fifo.skip(n as int));
    }
}

/// Once every waiting word was read, and the line delivered none meanwhile,
/// the driver reports no incoming data.
pub proof fn lemma_drained_reports_no_data(m: RegsModel)
    ensures
        m.after_reads(m.rx_fifo.len()).rx_empty(),
{
    lemma_reads_take_oldest(m, m.rx_fifo.len());
}

/// The read that takes the only waiting word, blocking or not, leaves the
/// receive FIFO empty, so the driver then reports no incoming data.
pub proof fn lemma_last_read_reports_no_data(m: RegsModel)
    requires
        m.rx_fifo.len() == 1,
    ensures
        m.after_read_data().rx_empty(),
        m.after_recv() == m.after_read_data(),
{
}

/// As soon as a word arrived, the driver reports incoming data.
pub proof fn lemma_arrival_reports_data(m: RegsModel, word: u32)
    ensures
        !m.after_receive(word).rx_empty(),
{
}

/// The wait for received data ends with data waiting, wherever data was due.
pub proof fn lemma_await_finds_data(m: RegsModel)
    requires
        m.data_due(),
    ensures
        !m.after_await().rx_empty(),
{
}

/// The wait for room in the transmit FIFO ends with room, and changes
/// neither a register nor the loopback setting.
pub proof fn lemma_drain_makes_room(m: RegsModel)
    ensures
        !m.after_drain().tx_full(),
        m.after_drain().loopback == m.loopback,
        m.after_drain().capacity() == m.capacity(),
    decreases m.tx_fifo.len(),
{
    if m.tx_full() {
        lemma_drain_makes_room(m.after_tick());
    }
}

/// The wait for room loses no byte and reorders none: what left on the line
/// followed by what waits in the transmit FIFO stays the same.
pub proof fn lemma_drain_keeps_stream(m: RegsModel)
    ensures
        m.after_drain().sent_stream() == m.sent_stream(),
    decreases m.tx_fifo.len(),
{
    if m.tx_full() {
        lemma_drain_keeps_stream(m.after_tick());
        assert(m.after_tick().sent_stream() =~= m.sent_stream());
    }
}

/// In loopback a written byte joins the receive FIFO unchanged, behind the
/// words that wait there, as long as that FIFO has room.
pub proof fn lemma_loopback_queues_byte(m: RegsModel, byte: u8)
    requires
        m.loopback,
        !m.tx_full(),
        !m.rx_full(),
    ensures
        m.after_write_data(byte as u32) == (RegsModel {
            rx_fifo: m.rx_fifo.push(byte as u32),
            ..m
        }),
        spec_data_byte(byte as u32) == byte,
{
    lemma_data_byte_of_byte(byte);
}

/// Round trip: in loopback, with no older word waiting when the byte is
/// written, a blocking write of a byte followed by a blocking read returns
/// that byte, for every byte, and leaves the receive FIFO empty again.
pub proof fn lemma_loopback_round_trip(m: RegsModel, byte: u8)
    requires
        m.loopback,
        m.after_drain().rx_empty(),
    ensures
        m.after_send(byte).data_due(),
        spec_data_byte(m.after_send(byte).after_await().rx_fifo[0]) == byte,
        m.after_send(byte).after_recv().rx_empty(),
{
    lemma_drain_makes_room(m);
    lemma_loopback_queues_byte(m.after_drain(), byte);
}

/// In loopback, with room in the transmit FIFO and nothing waiting to be
/// read, a blocking write followed by a blocking read restores the
/// peripheral exactly.
pub proof fn lemma_loopback_round_trip_restores(m: RegsModel, byte: u8)
    requires
        m.loopback,
        m.rx_empty(),
        !m.tx_full(),
    ensures
        m.after_send(byte).after_recv() == m,
{
    lemma_loopback_queues_byte(m, byte);
    assert(m.after_send(byte).rx_fifo.skip(1) =~= m.rx_fifo);
}

/// Writing a buffer is writing its first part, then the rest.
pub proof fn lemma_sends_compose(m: RegsModel, first: Seq<u8>, rest: Seq<u8>)
    ensures
        m.after_sends(first + rest) == m.after_sends(first).after_sends(rest),
    decreases rest.len(),
{
    if rest.len() == 0 {
        assert(first + rest =~= first);
    } else {
        lemma_sends_compose(m, first, rest.drop_last());
        assert((first + rest).drop_last() =~= first + rest.drop_last());
        assert((first + rest).last() == rest.last());
    }
}

/// Writing a buffer of one byte is one blocking write of that byte.
pub proof fn lemma_sends_single(m: RegsModel, byte: u8)
    ensures
        m.after_sends(seq![byte]) == m.after_send(byte),
{
    let one = seq![byte];
    assert(one.drop_last() =~= Seq::<u8>::empty());
    assert(m.after_sends(one.drop_last()) == m);
    assert(one.last() == byte);
}

/// Without loopback, writing a buffer hands each of its bytes to the
/// transmitter, none lost and none out of order, however long the buffer
/// is: the bytes that left on the line followed by those in the transmit
/// FIFO are what they were before, followed by the buffer.
pub proof fn lemma_sends_keep_order(m: RegsModel, bytes: Seq<u8>)
    requires
        !m.loopback,
    ensures
        m.after_sends(bytes).sent_stream() == m.sent_stream() + bytes,
        !m.after_sends(bytes).loopback,
    decreases bytes.len(),
{
    if bytes.len() == 0 {
        assert(m.sent_stream() + bytes =~= m.sent_stream());
    } else {
        let before = m.after_sends(bytes.drop_last());
        lemma_sends_keep_order(m, bytes.drop_last());
        lemma_drain_makes_room(before);
        lemma_drain_keeps_stream(before);
        lemma_data_byte_of_byte(bytes.last());
        assert(before.after_send(bytes.last()).sent_stream() =~= before.after_drain().sent_stream().push(
            bytes.last(),
        ));
        assert((m.sent_stream() + bytes.drop_last()).push(bytes.last()) =~= m.sent_stream()
            + bytes);
    }
}

/// Without loopback, a buffer for which the transmit FIFO has room joins it
/// byte for byte and in order, with no waiting; nothing else changes.
pub proof fn lemma_sends_fill_fifo(m: RegsModel, bytes: Seq<u8>)
    requires
        !m.loopback,
        m.tx_fifo.len() + bytes.len() <= m.capacity(),
    ensures
        m.after_sends(bytes) == (RegsModel { tx_fifo: m.tx_fifo + bytes, ..m }),
    decreases bytes.len(),
{
    if bytes.len() == 0 {
        assert(m.tx_fifo + bytes =~= m.tx_fifo);
    } else {
        lemma_sends_fill_fifo(m, bytes.drop_last());
        lemma_data_byte_of_byte(bytes.last());
        assert((m.tx_fifo + bytes.drop_last()).push(bytes.last()) =~= m.tx_fifo + bytes);
    }
}

/// Enabling and then disabling the receive interrupt leaves every other bit
/// of the interrupt mask, and everything else, as it was before the two
/// calls; the receive-interrupt bit is set in between and clear at the end.
pub proof fn lemma_rx_interrupt_toggle_isolated(m: RegsModel)
    ensures
        m.with_rx_interrupt(true).with_rx_interrupt(false) == (RegsModel {
            uartimsc: m.uartimsc & !MASK_RX_INTERRUPT,
            ..m
        }),
        m.with_rx_interrupt(true).uartimsc & !MASK_RX_INTERRUPT == m.uartimsc
            & !MASK_RX_INTERRUPT,
        spec_has_bit(m.with_rx_interrupt(true).uartimsc, MASK_RX_INTERRUPT),
        !spec_has_bit(
            m.with_rx_interrupt(true).with_rx_interrupt(false).uartimsc,
            MASK_RX_INTERRUPT,
        ),
{
    let v = m.uartimsc;
    let k = MASK_RX_INTERRUPT;
    lemma_with_bit_isolated(v, k, true);
    lemma_with_bit_isolated(v | k, k, false);
    assert((v | k) & !k == v & !k) by (bit_vector);
    assert((v | k) & k != 0) by (bit_vector)
        requires
            k == 0x10u32,
    ;
}

/// Switching FIFO mode on and then off leaves every other bit of line
/// control, and everything else, as it was before the two calls, and the
/// FIFO bit clear.
pub proof fn lemma_fifo_toggle_isolated(m: RegsModel)
    ensures
        m.with_fifo_mode(true).with_fifo_mode(false) == (RegsModel {
            uartlcr_h: m.uartlcr_h & !LINE_FIFO_ENABLE,
            ..m
        }),
        m.with_fifo_mode(true).uartlcr_h & !LINE_FIFO_ENABLE == m.uartlcr_h & !LINE_FIFO_ENABLE,
        !spec_has_bit(m.with_fifo_mode(true).with_fifo_mode(false).uartlcr_h, LINE_FIFO_ENABLE),
{
    let v = m.uartlcr_h;
    let k = LINE_FIFO_ENABLE;
    lemma_with_bit_isolated(v, k, true);
    lemma_with_bit_isolated(v | k, k, false);
    assert((v | k) & !k == v & !k) by (bit_vector);
}

/// Where FIFO mode was off, switching it on and then off restores the
/// peripheral exactly.
pub proof fn lemma_fifo_toggle_restores(m: RegsModel)
    requires
        !spec_has_bit(m.uartlcr_h, LINE_FIFO_ENABLE),
    ensures
        m.with_fifo_mode(true).with_fifo_mode(false) == m,
{
    let v = m.uartlcr_h;
    let k = LINE_FIFO_ENABLE;
    assert(((v | k) & !k) == v) by (bit_vector)
        requires
            v & k == 0,
    ;
}

} // verus!
