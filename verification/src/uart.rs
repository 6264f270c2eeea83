//! The driver: status queries, polling byte and buffer I/O, and the
//! feature toggles, each a short sequence of register accesses.

use vstd::prelude::*;
use vstd::string::StringSliceAdditionalSpecFns;
use crate::bits::{data_byte, flags_have_data, flags_have_room, has_bit, with_bit};
use crate::bits::{spec_data_byte, spec_has_bit};
use crate::bits::{CONTROL_RX_ENABLE, CONTROL_TX_ENABLE, CONTROL_UART_ENABLE};
use crate::bits::{LINE_FIFO_ENABLE, MASK_RX_INTERRUPT};
use crate::layout::Register;
use crate::nonblocking::would_block;
use crate::regs::{lemma_flag_bits, PL011_Regs, RegsModel};

verus! {

/// The driver's error type, for callers that must name one. The peripheral
/// reports no error, so no operation of the driver returns a value of it.
#[derive(Debug, Copy, Clone)]
pub struct Error;

/// What the control register says is switched on.
#[derive(Debug, Copy, Clone, PartialEq, Eq, Structural)]
pub struct UartStatus {
    /// The UART as a whole is enabled.
    pub uart_enabled: bool,
    /// The transmitter is enabled.
    pub tx_enabled: bool,
    /// The receiver is enabled.
    pub rx_enabled: bool,
}

impl UartStatus {
    /// What a value of the control register says is switched on.
    pub open spec fn spec_from_control(control: u32) -> UartStatus {
        UartStatus {
            uart_enabled: spec_has_bit(control, CONTROL_UART_ENABLE),
            tx_enabled: spec_has_bit(control, CONTROL_TX_ENABLE),
            rx_enabled: spec_has_bit(control, CONTROL_RX_ENABLE),
        }
    }

    /// Decodes a value of the control register.
    #[verifier::when_used_as_spec(spec_from_control)]
    pub fn from_control(control: u32) -> (status: UartStatus)
        ensures
            status == UartStatus::spec_from_control(control),
    {
        UartStatus {
            uart_enabled: has_bit(control, CONTROL_UART_ENABLE),
            tx_enabled: has_bit(control, CONTROL_TX_ENABLE),
            rx_enabled: has_bit(control, CONTROL_RX_ENABLE),
        }
    }
}

/// The driver of one UART. It holds the UART's register window and nothing
/// else: all state lives in the peripheral.
pub struct PL011 {
    regs: PL011_Regs,
}

impl View for PL011 {
    type V = RegsModel;

    closed spec fn view(&self) -> RegsModel {
        self.regs@
    }
}

impl PL011 {
    /// Binds a driver to a register window. No register is touched.
    pub fn new(regs: PL011_Regs) -> (uart: Self)
        ensures
            uart@ == regs@,
    {
        PL011 { regs }
    }

    /// Gives the register window back. No register is touched: the
    /// peripheral keeps its configuration and what its FIFOs hold.
    pub fn release(self) -> (regs: PL011_Regs)
        ensures
            regs@ == self@,
    {
        self.regs
    }

    /// The register window that the driver is bound to, to look at.
    pub fn regs(&self) -> (regs: &PL011_Regs)
        ensures
            regs@ == self@,
    {
        &self.regs
    }

    /// The register window that the driver is bound to, to act on from the
    /// line's side while the driver stays bound: what is done to the window
    /// through it is what the driver then sees.
    pub fn regs_mut(&mut self) -> (regs: &mut PL011_Regs)
        ensures
            regs@ == old(self)@,
            final(self)@ == final(regs)@,
    {
        &mut self.regs
    }

    /// Is the receive-FIFO-empty flag clear?
    pub fn has_incoming_data(&self) -> (ready: bool)
        ensures
            ready == !self@.rx_empty(),
    {
        let uartfr: u32 = self.regs.read(Register::Flags);
        proof {
            lemma_flag_bits(self@);
        }
        flags_have_data(uartfr)
    }

    /// Is the transmit-FIFO-full flag clear?
    pub fn is_writeable(&self) -> (ready: bool)
        ensures
            ready == !self@.tx_full(),
    {
        let uartfr: u32 = self.regs.read(Register::Flags);
        proof {
            lemma_flag_bits(self@);
        }
        flags_have_room(uartfr)
    }

    /// Reads one byte: polls until received data waits, then reads the data
    /// register and returns its low 8 bits. While it waits, the line works.
    ///
    /// With no data waiting and none on the line the polling would never
    /// end: the precondition leaves that out.
    pub fn read_byte(&mut self) -> (byte: u8)
        requires
            old(self)@.data_due(),
        ensures
            byte == spec_data_byte(old(self)@.after_await().rx_fifo[0]),
            final(self)@ == old(self)@.after_recv(),
    {
        while !self.has_incoming_data()
            invariant
                self@.data_due(),
                self@.after_await() == old(self)@.after_await(),
            decreases (if self@.rx_empty() { 1int } else { 0int }),
        {
            self.regs.tick();
        }
        data_byte(self.regs.read_data())
    }

    /// Writes one byte: polls until the transmitter takes a byte, then writes
    /// the data register. While it waits, the line works, so the wait ends.
    pub fn write_byte(&mut self, data: u8)
        ensures
            final(self)@ == old(self)@.after_send(data),
    {
        while !self.is_writeable()
            invariant
                self@.after_drain() == old(self)@.after_drain(),
            decreases self@.tx_fifo.len(),
        {
            self.regs.tick();
        }
        self.regs.write(Register::Data, data as u32);
    }

    /// Non-blocking read: the next received byte where one waits; else an
    /// error, the one that says the read would block, and nothing changes.
    pub fn read(&mut self) -> (res: Result<u8, nb::Error<Error>>)
        ensures
            res.is_ok() <==> !old(self)@.rx_empty(),
            res matches Ok(byte) ==> byte == spec_data_byte(old(self)@.rx_fifo[0]),
            final(self)@ == old(self)@.after_read_data(),
    {
        if self.has_incoming_data() {
            Ok(data_byte(self.regs.read_data()))
        } else {
            Err(would_block())
        }
    }

    /// Non-blocking flush: succeeds where the transmitter takes a byte; else
    /// an error, the one that says a write would block.
    pub fn flush(&self) -> (res: Result<(), nb::Error<Error>>)
        ensures
            res.is_ok() <==> !self@.tx_full(),
    {
        if self.is_writeable() {
            Ok(())
        } else {
            Err(would_block())
        }
    }

    /// Non-blocking write: writes `word` where the transmitter takes a byte;
    /// else an error, the one that says the write would block, and nothing
    /// changes.
    pub fn write(&mut self, word: u8) -> (res: Result<(), nb::Error<Error>>)
        ensures
            res.is_ok() <==> !old(self)@.tx_full(),
            final(self)@ == old(self)@.after_write_data(word as u32),
    {
        match self.flush() {
            Ok(_) => {
                self.regs.write(Register::Data, word as u32);
                Ok(())
            },
            Err(e) => Err(e),
        }
    }

    /// Reads what is ready: fills `buf` from its start with received bytes,
    /// oldest first, and stops, without waiting, when no more data waits or
    /// `buf` is full. Returns the number of bytes read; the rest of `buf` is
    /// left as it was.
    pub fn read_bytes(&mut self, buf: &mut [u8]) -> (count: usize)
        ensures
            count == if old(buf)@.len() <= old(self)@.rx_fifo.len() {
                old(buf)@.len()
            } else {
                old(self)@.rx_fifo.len()
            },
            final(buf)@.len() == old(buf)@.len(),
            forall|i: int|
                0 <= i < count ==> final(buf)@[i] == spec_data_byte(old(self)@.rx_fifo[i]),
            forall|i: int| count <= i < old(buf)@.len() ==> final(buf)@[i] == old(buf)@[i],
            final(self)@ == (RegsModel {
                rx_fifo: old(self)@.rx_fifo.skip(count as int),
                ..old(self)@
            }),
            final(self)@ == old(self)@.after_reads(count as nat),
    {
        let mut count: usize = 0;
        proof {
            assert(self@.rx_fifo.skip(0) =~= self@.rx_fifo);
        }
        while count < buf.len() && self.has_incoming_data()
            invariant
                buf@.len() == old(buf)@.len(),
                count <= buf@.len(),
                count <= old(self)@.rx_fifo.len(),
                self@ == (RegsModel {
                    rx_fifo: old(self)@.rx_fifo.skip(count as int),
                    ..old(self)@
                }),
                self@ == old(self)@.after_reads(count as nat),
                forall|i: int|
                    0 <= i < count ==> buf@[i] == spec_data_byte(old(self)@.rx_fifo[i]),
                forall|i: int| count <= i < buf@.len() ==> buf@[i] == old(buf)@[i],
            decreases buf@.len() - count,
        {
            let byte: u8 = self.read_byte();
            buf[count] = byte;
            proof {
                assert(old(self)@.rx_fifo.skip(count as int).skip(1) =~= old(self)@.rx_fifo.skip(
                    count + 1,
                ));
            }
            count += 1;
        }
        count
    }

    /// Writes every byte of `buf`, in order, each as `write_byte` does.
    pub fn write_bytes(&mut self, buf: &[u8])
        ensures
            final(self)@ == old(self)@.after_sends(buf@),
    {
        let mut sent: usize = 0;
        proof {
            assert(buf@.take(0) =~= Seq::<u8>::empty());
        }
        while sent < buf.len()
            invariant
                sent <= buf@.len(),
                self@ == old(self)@.after_sends(buf@.take(sent as int)),
            decreases buf@.len() - sent,
        {
            self.write_byte(buf[sent]);
            proof {
                let next = buf@.take(sent + 1);
                assert(next.drop_last() =~= buf@.take(sent as int));
                assert(next.last() == buf@[sent as int]);
            }
            sent += 1;
        }
        proof {
            assert(buf@.take(sent as int) =~= buf@);
        }
    }

    /// Writes the bytes of `s`, its UTF-8 encoding, in order, each as
    /// `write_byte` does. The peripheral reports no error, so this succeeds.
    pub fn write_str(&mut self, s: &str) -> (res: Result<(), Error>)
        ensures
            res.is_ok(),
            final(self)@ == old(self)@.after_sends(s.spec_bytes()),
    {
        self.write_bytes(s.as_bytes());
        Ok(())
    }

    /// Sets or clears the receive-interrupt bit of the interrupt mask by a
    /// read-modify-write; no other bit of the register changes, and nothing
    /// else does.
    pub fn enable_rx_interrupt(&mut self, enable: bool)
        ensures
            final(self)@ == old(self)@.with_rx_interrupt(enable),
    {
        let mask: u32 = self.regs.read(Register::InterruptMask);
        self.regs.write(Register::InterruptMask, with_bit(mask, MASK_RX_INTERRUPT, enable));
    }

    /// Sets or clears the FIFO-enable bit of line control by a
    /// read-modify-write; no other bit of the register changes, and nothing
    /// else does.
    pub fn set_fifo_mode(&mut self, enable: bool)
        ensures
            final(self)@ == old(self)@.with_fifo_mode(enable),
    {
        let line: u32 = self.regs.read(Register::LineControl);
        self.regs.write(Register::LineControl, with_bit(line, LINE_FIFO_ENABLE, enable));
    }

    /// Reads the control register and says whether the UART, its transmitter
    /// and its receiver are enabled.
    pub fn status(&self) -> (status: UartStatus)
        ensures
            status == UartStatus::spec_from_control(self@.uartcr),
    {
        UartStatus::from_control(self.regs.read(Register::Control))
    }
}

} // verus!
