use pl011_qemu::{PL011_Regs, Register};

#[test]
fn a_new_window_is_all_zero_with_empty_fifos() {
    let regs = PL011_Regs::new(16);
    assert_eq!(regs.uartrsr, 0);
    assert_eq!(regs.uartlcr_h, 0);
    assert_eq!(regs.uartcr, 0);
    assert_eq!(regs.uartimsc, 0);
    assert_eq!(regs.uartperiphid0, 0);
    assert_eq!(regs.uartpcellid3, 0);
    assert!(regs.rx_fifo.is_empty());
    assert!(regs.tx_fifo.is_empty());
    assert!(regs.line_in.is_empty());
    assert!(regs.line_out.is_empty());
    assert_eq!(regs.fifo_depth, 16);
    assert!(!regs.loopback);
    assert_eq!(regs.flags(), 0x10);
    assert_eq!(regs.read(Register::Flags), 0x10);
}

#[test]
fn capacity_follows_fifo_mode() {
    let mut regs = PL011_Regs::new(16);
    assert_eq!(regs.capacity(), 1);
    regs.write(Register::LineControl, 0x10);
    assert_eq!(regs.capacity(), 16);
    regs.write(Register::LineControl, 0xffff_ffef);
    assert_eq!(regs.capacity(), 1);
    let mut shallow = PL011_Regs::new(0);
    shallow.write(Register::LineControl, 0x10);
    assert_eq!(shallow.capacity(), 1);
}

#[test]
fn flags_follow_the_fifos() {
    let mut regs = PL011_Regs::new(2);
    regs.write(Register::LineControl, 0x10);
    assert_eq!(regs.flags(), 0x10);
    regs.write(Register::Data, 0x41);
    assert_eq!(regs.flags(), 0x10);
    regs.write(Register::Data, 0x42);
    assert_eq!(regs.flags(), 0x30);
    assert!(regs.receive(0x61));
    assert_eq!(regs.flags(), 0x20);
    assert_eq!(regs.transmit(), Some(0x41));
    assert_eq!(regs.flags(), 0x00);
    assert_eq!(regs.read_data(), 0x61);
    assert_eq!(regs.flags(), 0x10);
}

#[test]
fn read_write_registers_hold_what_was_written() {
    let mut regs = PL011_Regs::new(16);
    let rw = [
        Register::ReceiveStatus,
        Register::IrdaLowPower,
        Register::BaudInteger,
        Register::BaudFraction,
        Register::LineControl,
        Register::Control,
        Register::FifoLevelSelect,
        Register::InterruptMask,
        Register::DmaControl,
    ];
    let mut value: u32 = 0xa5a5_0000;
    for reg in rw {
        value += 1;
        regs.write(reg, value);
    }
    let mut expected: u32 = 0xa5a5_0000;
    for reg in rw {
        expected += 1;
        assert_eq!(regs.read(reg), expected);
    }
    assert_eq!(regs.uartcr, 0xa5a5_0006);
}

#[test]
fn interrupt_clear_write_leaves_no_trace() {
    let mut regs = PL011_Regs::new(16);
    regs.uartris = 0x7ff;
    let before = regs.clone();
    regs.write(Register::InterruptClear, 0xffff_ffff);
    assert_eq!(regs, before);
}

#[test]
fn read_only_registers_read_their_fields() {
    let mut regs = PL011_Regs::new(16);
    regs.uartris = 0x11;
    regs.uartmis = 0x22;
    regs.uartperiphid0 = 0x11;
    regs.uartperiphid1 = 0x10;
    regs.uartperiphid2 = 0x14;
    regs.uartperiphid3 = 0x00;
    regs.uartpcellid0 = 0x0d;
    regs.uartpcellid1 = 0xf0;
    regs.uartpcellid2 = 0x05;
    regs.uartpcellid3 = 0xb1;
    assert_eq!(regs.read(Register::RawInterruptStatus), 0x11);
    assert_eq!(regs.read(Register::MaskedInterruptStatus), 0x22);
    assert_eq!(regs.read(Register::PeriphId0), 0x11);
    assert_eq!(regs.read(Register::PeriphId1), 0x10);
    assert_eq!(regs.read(Register::PeriphId2), 0x14);
    assert_eq!(regs.read(Register::PeriphId3), 0x00);
    assert_eq!(regs.read(Register::PCellId0), 0x0d);
    assert_eq!(regs.read(Register::PCellId1), 0xf0);
    assert_eq!(regs.read(Register::PCellId2), 0x05);
    assert_eq!(regs.read(Register::PCellId3), 0xb1);
}

#[test]
fn data_register_is_a_queue_each_way() {
    let mut regs = PL011_Regs::new(4);
    regs.write(Register::LineControl, 0x10);
    regs.write(Register::Data, 0x141);
    regs.write(Register::Data, 0x42);
    assert_eq!(regs.tx_fifo, vec![0x41, 0x42]);
    assert!(regs.receive(0x361));
    assert!(regs.receive(0x62));
    assert_eq!(regs.rx_fifo, vec![0x361, 0x62]);
    assert_eq!(regs.read_data(), 0x361);
    assert_eq!(regs.read_data(), 0x62);
    assert_eq!(regs.read_data(), 0);
    assert!(regs.rx_fifo.is_empty());
}

#[test]
fn a_write_to_a_full_transmit_fifo_is_lost() {
    let mut regs = PL011_Regs::new(16);
    regs.write(Register::Data, 0x41);
    regs.write(Register::Data, 0x42);
    assert_eq!(regs.tx_fifo, vec![0x41]);
}

#[test]
fn a_word_that_arrives_at_a_full_receive_fifo_is_lost() {
    let mut regs = PL011_Regs::new(16);
    assert!(regs.receive(0x61));
    assert!(!regs.receive(0x62));
    assert_eq!(regs.rx_fifo, vec![0x61]);
}

#[test]
fn loopback_write_comes_back_as_received() {
    let mut regs = PL011_Regs::new(16);
    regs.loopback = true;
    regs.write(Register::Data, 0x2a5);
    assert!(regs.tx_fifo.is_empty());
    assert_eq!(regs.rx_fifo, vec![0xa5]);
}

#[test]
fn transmit_moves_the_oldest_byte_to_the_line() {
    let mut regs = PL011_Regs::new(4);
    assert_eq!(regs.transmit(), None);
    regs.write(Register::LineControl, 0x10);
    regs.write(Register::Data, 1);
    regs.write(Register::Data, 2);
    assert_eq!(regs.transmit(), Some(1));
    assert_eq!(regs.tx_fifo, vec![2]);
    assert_eq!(regs.line_out, vec![1]);
    assert_eq!(regs.transmit(), Some(2));
    assert_eq!(regs.line_out, vec![1, 2]);
    assert_eq!(regs.transmit(), None);
}

#[test]
fn arrive_takes_the_next_word_from_the_line() {
    let mut regs = PL011_Regs::new(4);
    regs.line_in = vec![0x61, 0x62, 0x63];
    regs.arrive();
    assert_eq!(regs.rx_fifo, vec![0x61]);
    assert_eq!(regs.line_in, vec![0x62, 0x63]);
    regs.arrive();
    assert_eq!(regs.rx_fifo, vec![0x61]);
    assert_eq!(regs.line_in, vec![0x63]);
    let before = PL011_Regs::new(4);
    let mut idle = before.clone();
    idle.arrive();
    assert_eq!(idle, before);
}

#[test]
fn tick_works_both_directions() {
    let mut regs = PL011_Regs::new(4);
    regs.write(Register::Data, 0x41);
    regs.line_in = vec![0x61];
    regs.tick();
    assert!(regs.tx_fifo.is_empty());
    assert_eq!(regs.line_out, vec![0x41]);
    assert_eq!(regs.rx_fifo, vec![0x61]);
    assert!(regs.line_in.is_empty());
    let before = regs.clone();
    regs.tick();
    assert_eq!(regs, before);
}
