use pl011_qemu::layout::{Access, Register, WINDOW_WORDS, WORD_BYTES};

fn all_registers() -> Vec<Register> {
    vec![
        Register::Data,
        Register::ReceiveStatus,
        Register::Flags,
        Register::IrdaLowPower,
        Register::BaudInteger,
        Register::BaudFraction,
        Register::LineControl,
        Register::Control,
        Register::FifoLevelSelect,
        Register::InterruptMask,
        Register::RawInterruptStatus,
        Register::MaskedInterruptStatus,
        Register::InterruptClear,
        Register::DmaControl,
        Register::PeriphId0,
        Register::PeriphId1,
        Register::PeriphId2,
        Register::PeriphId3,
        Register::PCellId0,
        Register::PCellId1,
        Register::PCellId2,
        Register::PCellId3,
    ]
}

#[test]
fn word_offsets_match_the_hardware_map() {
    let expected: Vec<usize> = vec![
        0, 1, 6, 8, 9, 10, 11, 12, 13, 14, 15, 16, 17, 18, 1016, 1017, 1018, 1019, 1020, 1021,
        1022, 1023,
    ];
    let got: Vec<usize> = all_registers().into_iter().map(|r| r.word_offset()).collect();
    assert_eq!(got, expected);
}

#[test]
fn byte_offsets_are_four_times_word_offsets() {
    assert_eq!(WORD_BYTES, 4);
    assert_eq!(Register::Data.byte_offset(), 0x000);
    assert_eq!(Register::Flags.byte_offset(), 0x018);
    assert_eq!(Register::LineControl.byte_offset(), 0x02c);
    assert_eq!(Register::Control.byte_offset(), 0x030);
    assert_eq!(Register::InterruptMask.byte_offset(), 0x038);
    assert_eq!(Register::DmaControl.byte_offset(), 0x048);
    assert_eq!(Register::PeriphId0.byte_offset(), 0xfe0);
    assert_eq!(Register::PCellId3.byte_offset(), 0xffc);
    for reg in all_registers() {
        assert_eq!(reg.byte_offset(), 4 * reg.word_offset());
    }
}

#[test]
fn window_is_1024_words() {
    assert_eq!(WINDOW_WORDS, 1024);
    for reg in all_registers() {
        assert!(reg.word_offset() < WINDOW_WORDS);
    }
}

#[test]
fn at_word_inverts_word_offset() {
    for reg in all_registers() {
        assert_eq!(Register::at_word(reg.word_offset()), Some(reg));
    }
    let mut found = 0;
    for word in 0..2048usize {
        match Register::at_word(word) {
            Some(reg) => {
                assert_eq!(reg.word_offset(), word);
                found += 1;
            }
            None => {}
        }
    }
    assert_eq!(found, 22);
}

#[test]
fn reserved_words_hold_no_register() {
    for word in [2usize, 3, 4, 5, 7, 19, 20, 500, 1015, 1024, usize::MAX] {
        assert_eq!(Register::at_word(word), None);
    }
    let gap = (19..1016usize).filter(|w| Register::at_word(*w).is_none()).count();
    assert_eq!(gap, 997);
}

#[test]
fn access_modes() {
    assert_eq!(Register::Data.access(), Access::ReadWrite);
    assert_eq!(Register::ReceiveStatus.access(), Access::ReadWrite);
    assert_eq!(Register::Flags.access(), Access::ReadOnly);
    assert_eq!(Register::LineControl.access(), Access::ReadWrite);
    assert_eq!(Register::Control.access(), Access::ReadWrite);
    assert_eq!(Register::InterruptMask.access(), Access::ReadWrite);
    assert_eq!(Register::RawInterruptStatus.access(), Access::ReadOnly);
    assert_eq!(Register::MaskedInterruptStatus.access(), Access::ReadOnly);
    assert_eq!(Register::InterruptClear.access(), Access::WriteOnly);
    assert_eq!(Register::DmaControl.access(), Access::ReadWrite);
    assert_eq!(Register::PeriphId2.access(), Access::ReadOnly);
    assert_eq!(Register::PCellId0.access(), Access::ReadOnly);
    let write_only = all_registers().into_iter().filter(|r| r.access() == Access::WriteOnly).count();
    let read_only = all_registers().into_iter().filter(|r| r.access() == Access::ReadOnly).count();
    assert_eq!(write_only, 1);
    assert_eq!(read_only, 11);
}
