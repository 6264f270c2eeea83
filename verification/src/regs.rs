//! The register window as plain values.
//!
//! `PL011_Regs` stands for one UART and the line it is wired
//! to: the registers that hold what was last written, the two FIFOs behind
//! the data register, the flag register derived from them, the words on
//! their way in and the bytes that went out. Its state changes only through
//! register accesses and through line events; `tick` is the line working for
//! one byte time, which is what happens while a driver busy-waits.

use vstd::prelude::*;
use crate::bits::{data_byte, has_bit, spec_data_byte, spec_has_bit, spec_with_bit};
use crate::bits::{FLAG_RX_EMPTY, FLAG_TX_FULL, LINE_FIFO_ENABLE, MASK_RX_INTERRUPT};
use crate::layout::Register;

verus! {

/// The mathematical state of one UART and its line.
pub struct RegsModel {
    /// Receive status / error clear.
    pub uartrsr: u32,
    /// IrDA low-power counter.
    pub uartilpr: u32,
    /// Integer baud-rate divisor.
    pub uartibrd: u32,
    /// Fractional baud-rate divisor.
    pub uartfbrd: u32,
    /// Line control.
    pub uartlcr_h: u32,
    /// Control.
    pub uartcr: u32,
    /// Interrupt FIFO level select.
    pub uartifls: u32,
    /// Interrupt mask set/clear.
    pub uartimsc: u32,
    /// Raw interrupt status.
    pub uartris: u32,
    /// Masked interrupt status.
    pub uartmis: u32,
    /// DMA control.
    pub uartdmacr: u32,
    /// Peripheral identification 0.
    pub uartperiphid0: u32,
    /// Peripheral identification 1.
    pub uartperiphid1: u32,
    /// Peripheral identification 2.
    pub uartperiphid2: u32,
    /// Peripheral identification 3.
    pub uartperiphid3: u32,
    /// Cell identification 0.
    pub uartpcellid0: u32,
    /// Cell identification 1.
    pub uartpcellid1: u32,
    /// Cell identification 2.
    pub uartpcellid2: u32,
    /// Cell identification 3.
    pub uartpcellid3: u32,
    /// Received words that wait to be read, oldest first.
    pub rx_fifo: Seq<u32>,
    /// Written bytes that wait for the line, oldest first.
    pub tx_fifo: Seq<u8>,
    /// Words on the line that have not arrived yet, next first.
    pub line_in: Seq<u32>,
    /// Bytes that the line took from the transmit FIFO, first to last.
    pub line_out: Seq<u8>,
    /// Entries each FIFO holds while FIFO mode is enabled; below two, one.
    pub fifo_depth: nat,
    /// Written bytes come back on the receive side.
    pub loopback: bool,
}

impl RegsModel {
    /// A peripheral after reset: every register zero, both FIFOs empty.
    pub open spec fn reset(fifo_depth: nat) -> RegsModel {
        RegsModel {
            uartrsr: 0,
            uartilpr: 0,
            uartibrd: 0,
            uartfbrd: 0,
            uartlcr_h: 0,
            uartcr: 0,
            uartifls: 0,
            uartimsc: 0,
            uartris: 0,
            uartmis: 0,
            uartdmacr: 0,
            uartperiphid0: 0,
            uartperiphid1: 0,
            uartperiphid2: 0,
            uartperiphid3: 0,
            uartpcellid0: 0,
            uartpcellid1: 0,
            uartpcellid2: 0,
            uartpcellid3: 0,
            rx_fifo: Seq::empty(),
            tx_fifo: Seq::empty(),
            line_in: Seq::empty(),
            line_out: Seq::empty(),
            fifo_depth,
            loopback: false,
        }
    }

    /// Entries each FIFO holds now: `fifo_depth` in FIFO mode, else one, and
    /// never less than one.
    pub open spec fn capacity(self) -> nat {
        if spec_has_bit(self.uartlcr_h, LINE_FIFO_ENABLE) && self.fifo_depth > 1 {
            self.fifo_depth
        } else {
            1
        }
    }

    /// No received word waits.
    pub open spec fn rx_empty(self) -> bool {
        self.rx_fifo.len() == 0
    }

    /// The receive FIFO takes no further word.
    pub open spec fn rx_full(self) -> bool {
        self.rx_fifo.len() >= self.capacity()
    }

    /// The transmit FIFO takes no further byte.
    pub open spec fn tx_full(self) -> bool {
        self.tx_fifo.len() >= self.capacity()
    }

    /// The flag register: bit 4 while the receive FIFO is empty, bit 5 while
    /// the transmit FIFO is full.
    pub open spec fn flags(self) -> u32 {
        if self.rx_empty() && self.tx_full() {
            0x30
        } else if self.rx_empty() {
            0x10
        } else if self.tx_full() {
            0x20
        } else {
            0
        }
    }

    /// What a read of `reg` returns.
    pub open spec fn value(self, reg: Register) -> u32 {
        match reg {
            Register::Data => if self.rx_empty() {
                0
            } else {
                self.rx_fifo[0]
            },
            Register::ReceiveStatus => self.uartrsr,
            Register::Flags => self.flags(),
            Register::IrdaLowPower => self.uartilpr,
            Register::BaudInteger => self.uartibrd,
            Register::BaudFraction => self.uartfbrd,
            Register::LineControl => self.uartlcr_h,
            Register::Control => self.uartcr,
            Register::FifoLevelSelect => self.uartifls,
            Register::InterruptMask => self.uartimsc,
            Register::RawInterruptStatus => self.uartris,
            Register::MaskedInterruptStatus => self.uartmis,
            Register::InterruptClear => 0,
            Register::DmaControl => self.uartdmacr,
            Register::PeriphId0 => self.uartperiphid0,
            Register::PeriphId1 => self.uartperiphid1,
            Register::PeriphId2 => self.uartperiphid2,
            Register::PeriphId3 => self.uartperiphid3,
            Register::PCellId0 => self.uartpcellid0,
            Register::PCellId1 => self.uartpcellid1,
            Register::PCellId2 => self.uartpcellid2,
            Register::PCellId3 => self.uartpcellid3,
        }
    }

    /// The state after `word` arrived from outside: it joins the receive
    /// FIFO, or is lost where the FIFO is full.
    pub open spec fn after_receive(self, word: u32) -> RegsModel {
        if self.rx_full() {
            self
        } else {
            RegsModel { rx_fifo: self.rx_fifo.push(word), ..self }
        }
    }

    /// The state after the line took the oldest byte of the transmit FIFO,
    /// if there is one.
    pub open spec fn after_transmit(self) -> RegsModel {
        if self.tx_fifo.len() == 0 {
            self
        } else {
            RegsModel {
                tx_fifo: self.tx_fifo.skip(1),
                line_out: self.line_out.push(self.tx_fifo[0]),
                ..self
            }
        }
    }

    /// The state after the next word on the line, if there is one, arrived.
    pub open spec fn after_arrival(self) -> RegsModel {
        if self.line_in.len() == 0 {
            self
        } else {
            RegsModel { line_in: self.line_in.skip(1), ..self.after_receive(self.line_in[0]) }
        }
    }

    /// The state after the line worked for one byte time: the oldest byte of
    /// the transmit FIFO left, the next word on the line arrived.
    pub open spec fn after_tick(self) -> RegsModel {
        self.after_transmit().after_arrival()
    }

    /// The state in which a driver that polls for room in the transmit FIFO
    /// stops waiting: the line has worked until the FIFO was no longer full.
    pub open spec fn after_drain(self) -> RegsModel
        decreases self.tx_fifo.len(),
    {
        if self.tx_full() {
            self.after_tick().after_drain()
        } else {
            self
        }
    }

    /// The state in which a driver that polls for received data stops
    /// waiting: where none waited, the line has worked for one byte time.
    pub open spec fn after_await(self) -> RegsModel {
        if self.rx_empty() {
            self.after_tick()
        } else {
            self
        }
    }

    /// Received data waits, or will after the line worked for one byte time.
    pub open spec fn data_due(self) -> bool {
        !self.rx_empty() || self.line_in.len() > 0
    }

    /// Every byte handed to the transmitter that has not been lost: those
    /// that left on the line, then those that wait in the FIFO.
    pub open spec fn sent_stream(self) -> Seq<u8> {
        self.line_out + self.tx_fifo
    }

    /// The state after a read of the data register: the oldest received word
    /// has left the FIFO.
    pub open spec fn after_read_data(self) -> RegsModel {
        if self.rx_empty() {
            self
        } else {
            RegsModel { rx_fifo: self.rx_fifo.skip(1), ..self }
        }
    }

    /// The state after `value` was written to the data register: its low byte
    /// joins the transmit FIFO, or comes back as received in loopback; a byte
    /// written to a full transmit FIFO is lost.
    pub open spec fn after_write_data(self, value: u32) -> RegsModel {
        if self.tx_full() {
            self
        } else if self.loopback {
            self.after_receive(spec_data_byte(value) as u32)
        } else {
            RegsModel { tx_fifo: self.tx_fifo.push(spec_data_byte(value)), ..self }
        }
    }

    /// The state after `value` was written to `reg`. A read-write register
    /// holds what was written, bit for bit; a write to the interrupt-clear
    /// register or to a read-only register leaves no trace here.
    pub open spec fn after_write(self, reg: Register, value: u32) -> RegsModel {
        match reg {
            Register::Data => self.after_write_data(value),
            Register::ReceiveStatus => RegsModel { uartrsr: value, ..self },
            Register::IrdaLowPower => RegsModel { uartilpr: value, ..self },
            Register::BaudInteger => RegsModel { uartibrd: value, ..self },
            Register::BaudFraction => RegsModel { uartfbrd: value, ..self },
            Register::LineControl => RegsModel { uartlcr_h: value, ..self },
            Register::Control => RegsModel { uartcr: value, ..self },
            Register::FifoLevelSelect => RegsModel { uartifls: value, ..self },
            Register::InterruptMask => RegsModel { uartimsc: value, ..self },
            Register::DmaControl => RegsModel { uartdmacr: value, ..self },
            _ => self,
        }
    }

    /// The state after the receive-interrupt bit of the interrupt mask was
    /// set (`enable`) or cleared.
    pub open spec fn with_rx_interrupt(self, enable: bool) -> RegsModel {
        RegsModel { uartimsc: spec_with_bit(self.uartimsc, MASK_RX_INTERRUPT, enable), ..self }
    }

    /// The state after the FIFO-enable bit of line control was set (`enable`)
    /// or cleared.
    pub open spec fn with_fifo_mode(self, enable: bool) -> RegsModel {
        RegsModel { uartlcr_h: spec_with_bit(self.uartlcr_h, LINE_FIFO_ENABLE, enable), ..self }
    }

    /// The state after the oldest `n` received words were read, one read of
    /// the data register each.
    pub open spec fn after_reads(self, n: nat) -> RegsModel
        decreases n,
    {
        if n == 0 {
            self
        } else {
            self.after_reads((n - 1) as nat).after_read_data()
        }
    }

    /// The state after a blocking read of one byte: the wait for data, then
    /// the read of the data register.
    pub open spec fn after_recv(self) -> RegsModel {
        self.after_await().after_read_data()
    }

    /// The state after a blocking write of `byte`: the wait for room, then
    /// the write of the data register.
    pub open spec fn after_send(self, byte: u8) -> RegsModel {
        self.after_drain().after_write_data(byte as u32)
    }

    /// The state after blocking writes of `bytes`, one by one, first to last.
    pub open spec fn after_sends(self, bytes: Seq<u8>) -> RegsModel
        decreases bytes.len(),
    {
        if bytes.len() == 0 {
            self
        } else {
            self.after_sends(bytes.drop_last()).after_send(bytes.last())
        }
    }
}

/// The two bits of the flag register that the driver consumes say what the
/// FIFOs hold.
pub proof fn lemma_flag_bits(m: RegsModel)
    ensures
        spec_has_bit(m.flags(), FLAG_RX_EMPTY) == m.rx_empty(),
        spec_has_bit(m.flags(), FLAG_TX_FULL) == m.tx_full(),
{
    assert(0x30u32 & 0x10 != 0 && 0x30u32 & 0x20 != 0) by (bit_vector);
    assert(0x10u32 & 0x10 != 0 && 0x10u32 & 0x20 == 0) by (bit_vector);
    assert(0x20u32 & 0x10 == 0 && 0x20u32 & 0x20 != 0) by (bit_vector);
    assert(0u32 & 0x10 == 0 && 0u32 & 0x20 == 0) by (bit_vector);
}

/// One UART's register window, held as plain values.
#[allow(non_camel_case_types)]
#[derive(Debug, PartialEq, Eq)]
pub struct PL011_Regs {
    /// Receive status / error clear.
    pub uartrsr: u32,
    /// IrDA low-power counter.
    pub uartilpr: u32,
    /// Integer baud-rate divisor.
    pub uartibrd: u32,
    /// Fractional baud-rate divisor.
    pub uartfbrd: u32,
    /// Line control.
    pub uartlcr_h: u32,
    /// Control.
    pub uartcr: u32,
    /// Interrupt FIFO level select.
    pub uartifls: u32,
    /// Interrupt mask set/clear.
    pub uartimsc: u32,
    /// Raw interrupt status.
    pub uartris: u32,
    /// Masked interrupt status.
    pub uartmis: u32,
    /// DMA control.
    pub uartdmacr: u32,
    /// Peripheral identification 0.
    pub uartperiphid0: u32,
    /// Peripheral identification 1.
    pub uartperiphid1: u32,
    /// Peripheral identification 2.
    pub uartperiphid2: u32,
    /// Peripheral identification 3.
    pub uartperiphid3: u32,
    /// Cell identification 0.
    pub uartpcellid0: u32,
    /// Cell identification 1.
    pub uartpcellid1: u32,
    /// Cell identification 2.
    pub uartpcellid2: u32,
    /// Cell identification 3.
    pub uartpcellid3: u32,
    /// Received words that wait to be read, oldest first.
    pub rx_fifo: Vec<u32>,
    /// Written bytes that wait for the line, oldest first.
    pub tx_fifo: Vec<u8>,
    /// Words on the line that have not arrived yet, next first.
    pub line_in: Vec<u32>,
    /// Bytes that the line took from the transmit FIFO, first to last.
    pub line_out: Vec<u8>,
    /// Entries each FIFO holds while FIFO mode is enabled; below two, one.
    pub fifo_depth: usize,
    /// Written bytes come back on the receive side.
    pub loopback: bool,
}

impl View for PL011_Regs {
    type V = RegsModel;

    open spec fn view(&self) -> RegsModel {
        RegsModel {
            uartrsr: self.uartrsr,
            uartilpr: self.uartilpr,
            uartibrd: self.uartibrd,
            uartfbrd: self.uartfbrd,
            uartlcr_h: self.uartlcr_h,
            uartcr: self.uartcr,
            uartifls: self.uartifls,
            uartimsc: self.uartimsc,
            uartris: self.uartris,
            uartmis: self.uartmis,
            uartdmacr: self.uartdmacr,
            uartperiphid0: self.uartperiphid0,
            uartperiphid1: self.uartperiphid1,
            uartperiphid2: self.uartperiphid2,
            uartperiphid3: self.uartperiphid3,
            uartpcellid0: self.uartpcellid0,
            uartpcellid1: self.uartpcellid1,
            uartpcellid2: self.uartpcellid2,
            uartpcellid3: self.uartpcellid3,
            rx_fifo: self.rx_fifo@,
            tx_fifo: self.tx_fifo@,
            line_in: self.line_in@,
            line_out: self.line_out@,
            fifo_depth: self.fifo_depth as nat,
            loopback: self.loopback,
        }
    }
}

impl Clone for PL011_Regs {
    /// A second window in the same state.
    fn clone(&self) -> (copy: Self)
        ensures
            copy@ == self@,
    {
        let rx_fifo = self.rx_fifo.clone();
        let tx_fifo = self.tx_fifo.clone();
        let line_in = self.line_in.clone();
        let line_out = self.line_out.clone();
        proof {
            assert(rx_fifo@ =~= self.rx_fifo@);
            assert(tx_fifo@ =~= self.tx_fifo@);
            assert(line_in@ =~= self.line_in@);
            assert(line_out@ =~= self.line_out@);
        }
        PL011_Regs {
            uartrsr: self.uartrsr,
            uartilpr: self.uartilpr,
            uartibrd: self.uartibrd,
            uartfbrd: self.uartfbrd,
            uartlcr_h: self.uartlcr_h,
            uartcr: self.uartcr,
            uartifls: self.uartifls,
            uartimsc: self.uartimsc,
            uartris: self.uartris,
            uartmis: self.uartmis,
            uartdmacr: self.uartdmacr,
            uartperiphid0: self.uartperiphid0,
            uartperiphid1: self.uartperiphid1,
            uartperiphid2: self.uartperiphid2,
            uartperiphid3: self.uartperiphid3,
            uartpcellid0: self.uartpcellid0,
            uartpcellid1: self.uartpcellid1,
            uartpcellid2: self.uartpcellid2,
            uartpcellid3: self.uartpcellid3,
            rx_fifo,
            tx_fifo,
            line_in,
            line_out,
            fifo_depth: self.fifo_depth,
            loopback: self.loopback,
        }
    }
}

impl PL011_Regs {
    /// A register window after reset: every register zero, both FIFOs empty,
    /// no loopback.
    pub fn new(fifo_depth: usize) -> (regs: Self)
        ensures
            regs@ == RegsModel::reset(fifo_depth as nat),
    {
        PL011_Regs {
            uartrsr: 0,
            uartilpr: 0,
            uartibrd: 0,
            uartfbrd: 0,
            uartlcr_h: 0,
            uartcr: 0,
            uartifls: 0,
            uartimsc: 0,
            uartris: 0,
            uartmis: 0,
            uartdmacr: 0,
            uartperiphid0: 0,
            uartperiphid1: 0,
            uartperiphid2: 0,
            uartperiphid3: 0,
            uartpcellid0: 0,
            uartpcellid1: 0,
            uartpcellid2: 0,
            uartpcellid3: 0,
            rx_fifo: Vec::new(),
            tx_fifo: Vec::new(),
            line_in: Vec::new(),
            line_out: Vec::new(),
            fifo_depth,
            loopback: false,
        }
    }

    /// Entries each FIFO holds now.
    pub fn capacity(&self) -> (c: usize)
        ensures
            c == self@.capacity(),
    {
        if has_bit(self.uartlcr_h, LINE_FIFO_ENABLE) && self.fifo_depth > 1 {
            self.fifo_depth
        } else {
            1
        }
    }

    /// The flag register's value.
    pub fn flags(&self) -> (f: u32)
        ensures
            f == self@.flags(),
    {
        let capacity: usize = self.capacity();
        let empty = self.rx_fifo.len() == 0;
        let full = self.tx_fifo.len() >= capacity;
        if empty && full {
            0x30
        } else if empty {
            0x10
        } else if full {
            0x20
        } else {
            0
        }
    }

    /// Reads a register whose read changes nothing: any readable register
    /// but the data register.
    pub fn read(&self, reg: Register) -> (value: u32)
        requires
            reg.readable(),
            reg != Register::Data,
        ensures
            value == self@.value(reg),
    {
        match reg {
            Register::ReceiveStatus => self.uartrsr,
            Register::Flags => self.flags(),
            Register::IrdaLowPower => self.uartilpr,
            Register::BaudInteger => self.uartibrd,
            Register::BaudFraction => self.uartfbrd,
            Register::LineControl => self.uartlcr_h,
            Register::Control => self.uartcr,
            Register::FifoLevelSelect => self.uartifls,
            Register::InterruptMask => self.uartimsc,
            Register::RawInterruptStatus => self.uartris,
            Register::MaskedInterruptStatus => self.uartmis,
            Register::DmaControl => self.uartdmacr,
            Register::PeriphId0 => self.uartperiphid0,
            Register::PeriphId1 => self.uartperiphid1,
            Register::PeriphId2 => self.uartperiphid2,
            Register::PeriphId3 => self.uartperiphid3,
            Register::PCellId0 => self.uartpcellid0,
            Register::PCellId1 => self.uartpcellid1,
            Register::PCellId2 => self.uartpcellid2,
            Register::PCellId3 => self.uartpcellid3,
            _ => 0,
        }
    }

    /// Reads the data register: hands out the oldest received word and takes
    /// it from the FIFO; zero, and no change, where the FIFO is empty.
    pub fn read_data(&mut self) -> (value: u32)
        ensures
            value == old(self)@.value(Register::Data),
            final(self)@ == old(self)@.after_read_data(),
    {
        if self.rx_fifo.len() == 0 {
            0
        } else {
            let word: u32 = self.rx_fifo.remove(0);
            proof {
                assert(self.rx_fifo@ =~= old(self).rx_fifo@.skip(1));
            }
            word
        }
    }

    /// Writes `value` to a writable register.
    pub fn write(&mut self, reg: Register, value: u32)
        requires
            reg.writable(),
        ensures
            final(self)@ == old(self)@.after_write(reg, value),
    {
        match reg {
            Register::Data => {
                let capacity: usize = self.capacity();
                if self.tx_fifo.len() >= capacity {
                } else if self.loopback {
                    let byte: u8 = data_byte(value);
                    if self.rx_fifo.len() < capacity {
                        self.rx_fifo.push(byte as u32);
                    }
                } else {
                    self.tx_fifo.push(data_byte(value));
                }
            },
            Register::ReceiveStatus => {
                self.uartrsr = value;
            },
            Register::IrdaLowPower => {
                self.uartilpr = value;
            },
            Register::BaudInteger => {
                self.uartibrd = value;
            },
            Register::BaudFraction => {
                self.uartfbrd = value;
            },
            Register::LineControl => {
                self.uartlcr_h = value;
            },
            Register::Control => {
                self.uartcr = value;
            },
            Register::FifoLevelSelect => {
                self.uartifls = value;
            },
            Register::InterruptMask => {
                self.uartimsc = value;
            },
            Register::DmaControl => {
                self.uartdmacr = value;
            },
            _ => {},
        }
    }

    /// `word` arrives from outside: it joins the receive FIFO and `true`
    /// comes back, or the FIFO is full, the word is lost and `false` comes
    /// back.
    pub fn receive(&mut self, word: u32) -> (taken: bool)
        ensures
            taken == !old(self)@.rx_full(),
            final(self)@ == old(self)@.after_receive(word),
    {
        let capacity: usize = self.capacity();
        if self.rx_fifo.len() < capacity {
            self.rx_fifo.push(word);
            true
        } else {
            false
        }
    }

    /// The line takes the oldest byte of the transmit FIFO, if there is one.
    pub fn transmit(&mut self) -> (sent: Option<u8>)
        ensures
            sent == if old(self)@.tx_fifo.len() == 0 {
                None
            } else {
                Some(old(self)@.tx_fifo[0])
            },
            final(self)@ == old(self)@.after_transmit(),
    {
        if self.tx_fifo.len() == 0 {
            None
        } else {
            let byte: u8 = self.tx_fifo.remove(0);
            self.line_out.push(byte);
            proof {
                assert(self.tx_fifo@ =~= old(self).tx_fifo@.skip(1));
            }
            Some(byte)
        }
    }

    /// The next word on the line, if there is one, arrives: it joins the
    /// receive FIFO, or is lost where the FIFO is full.
    pub fn arrive(&mut self)
        ensures
            final(self)@ == old(self)@.after_arrival(),
    {
        if self.line_in.len() > 0 {
            let word: u32 = self.line_in.remove(0);
            proof {
                assert(self.line_in@ =~= old(self).line_in@.skip(1));
            }
            self.receive(word);
        }
    }

    /// The line works for one byte time: the oldest byte of the transmit
    /// FIFO leaves, the next word on the line arrives.
    pub fn tick(&mut self)
        ensures
            final(self)@ == old(self)@.after_tick(),
    {
        self.transmit();
        self.arrive();
    }
}

} // verus!
