//! The register map: which registers exist, where they sit in the window and
//! how software may touch each of them.

use vstd::prelude::*;

verus! {

/// Number of 32-bit words in one UART's register window.
pub const WINDOW_WORDS: usize = 1024;

/// Bytes per register word.
pub const WORD_BYTES: usize = 4;

/// How software may touch a register.
#[derive(Clone, Copy, Debug, PartialEq, Eq, Structural)]
pub enum Access {
    /// Hardware updates it; software only reads.
    ReadOnly,
    /// Software only writes; the written value cannot be read back.
    WriteOnly,
    /// Software reads and writes.
    ReadWrite,
}

/// Every addressable register of the peripheral.
#[derive(Clone, Copy, Debug, PartialEq, Eq, Structural)]
pub enum Register {
    /// Data register: byte in, byte out.
    Data,
    /// Receive status / error clear.
    ReceiveStatus,
    /// Flag register: live FIFO status.
    Flags,
    /// IrDA low-power counter.
    IrdaLowPower,
    /// Integer baud-rate divisor.
    BaudInteger,
    /// Fractional baud-rate divisor.
    BaudFraction,
    /// Line control.
    LineControl,
    /// Control.
    Control,
    /// Interrupt FIFO level select.
    FifoLevelSelect,
    /// Interrupt mask set/clear.
    InterruptMask,
    /// Raw interrupt status.
    RawInterruptStatus,
    /// Masked interrupt status.
    MaskedInterruptStatus,
    /// Interrupt clear.
    InterruptClear,
    /// DMA control.
    DmaControl,
    /// Peripheral identification 0.
    PeriphId0,
    /// Peripheral identification 1.
    PeriphId1,
    /// Peripheral identification 2.
    PeriphId2,
    /// Peripheral identification 3.
    PeriphId3,
    /// Cell identification 0.
    PCellId0,
    /// Cell identification 1.
    PCellId1,
    /// Cell identification 2.
    PCellId2,
    /// Cell identification 3.
    PCellId3,
}

impl Register {
    /// Offset of the register from the window's base, in words.
    pub open spec fn spec_word_offset(self) -> nat {
        match self {
            Register::Data => 0,
            Register::ReceiveStatus => 1,
            Register::Flags => 6,
            Register::IrdaLowPower => 8,
            Register::BaudInteger => 9,
            Register::BaudFraction => 10,
            Register::LineControl => 11,
            Register::Control => 12,
            Register::FifoLevelSelect => 13,
            Register::InterruptMask => 14,
            Register::RawInterruptStatus => 15,
            Register::MaskedInterruptStatus => 16,
            Register::InterruptClear => 17,
            Register::DmaControl => 18,
            Register::PeriphId0 => 1016,
            Register::PeriphId1 => 1017,
            Register::PeriphId2 => 1018,
            Register::PeriphId3 => 1019,
            Register::PCellId0 => 1020,
            Register::PCellId1 => 1021,
            Register::PCellId2 => 1022,
            Register::PCellId3 => 1023,
        }
    }

    /// Access mode of the register.
    pub open spec fn spec_access(self) -> Access {
        match self {
            Register::Flags
            | Register::RawInterruptStatus
            | Register::MaskedInterruptStatus
            | Register::PeriphId0
            | Register::PeriphId1
            | Register::PeriphId2
            | Register::PeriphId3
            | Register::PCellId0
            | Register::PCellId1
            | Register::PCellId2
            | Register::PCellId3 => Access::ReadOnly,
            Register::InterruptClear => Access::WriteOnly,
            _ => Access::ReadWrite,
        }
    }

    /// Software may read the register.
    pub open spec fn readable(self) -> bool {
        self.spec_access() != Access::WriteOnly
    }

    /// Software may write the register.
    pub open spec fn writable(self) -> bool {
        self.spec_access() != Access::ReadOnly
    }

    /// Offset of the register from the window's base, in words.
    pub fn word_offset(self) -> (w: usize)
        ensures
            w == self.spec_word_offset(),
            w < WINDOW_WORDS,
    {
        match self {
            Register::Data => 0,
            Register::ReceiveStatus => 1,
            Register::Flags => 6,
            Register::IrdaLowPower => 8,
            Register::BaudInteger => 9,
            Register::BaudFraction => 10,
            Register::LineControl => 11,
            Register::Control => 12,
            Register::FifoLevelSelect => 13,
            Register::InterruptMask => 14,
            Register::RawInterruptStatus => 15,
            Register::MaskedInterruptStatus => 16,
            Register::InterruptClear => 17,
            Register::DmaControl => 18,
            Register::PeriphId0 => 1016,
            Register::PeriphId1 => 1017,
            Register::PeriphId2 => 1018,
            Register::PeriphId3 => 1019,
            Register::PCellId0 => 1020,
            Register::PCellId1 => 1021,
            Register::PCellId2 => 1022,
            Register::PCellId3 => 1023,
        }
    }

    /// Offset of the register from the window's base, in bytes.
    pub fn byte_offset(self) -> (b: usize)
        ensures
            b == 4 * self.spec_word_offset(),
    {
        self.word_offset() * WORD_BYTES
    }

    /// Access mode of the register.
    #[verifier::when_used_as_spec(spec_access)]
    pub fn access(self) -> (a: Access)
        ensures
            a == self.spec_access(),
    {
        match self {
            Register::Flags
            | Register::RawInterruptStatus
            | Register::MaskedInterruptStatus
            | Register::PeriphId0
            | Register::PeriphId1
            | Register::PeriphId2
            | Register::PeriphId3
            | Register::PCellId0
            | Register::PCellId1
            | Register::PCellId2
            | Register::PCellId3 => Access::ReadOnly,
            Register::InterruptClear => Access::WriteOnly,
            _ => Access::ReadWrite,
        }
    }

    /// The register that sits at word `word` of the window; `None` where the
    /// word is reserved or lies outside the window.
    pub fn at_word(word: usize) -> (r: Option<Register>)
        ensures
            match r {
                Some(reg) => reg.spec_word_offset() == word,
                None => forall|reg: Register| reg.spec_word_offset() != word,
            },
    {
        if word == 0 {
            Some(Register::Data)
        } else if word == 1 {
            Some(Register::ReceiveStatus)
        } else if word == 6 {
            Some(Register::Flags)
        } else if word == 8 {
            Some(Register::IrdaLowPower)
        } else if word == 9 {
            Some(Register::BaudInteger)
        } else if word == 10 {
            Some(Register::BaudFraction)
        } else if word == 11 {
            Some(Register::LineControl)
        } else if word == 12 {
            Some(Register::Control)
        } else if word == 13 {
            Some(Register::FifoLevelSelect)
        } else if word == 14 {
            Some(Register::InterruptMask)
        } else if word == 15 {
            Some(Register::RawInterruptStatus)
        } else if word == 16 {
            Some(Register::MaskedInterruptStatus)
        } else if word == 17 {
            Some(Register::InterruptClear)
        } else if word == 18 {
            Some(Register::DmaControl)
        } else if word == 1016 {
            Some(Register::PeriphId0)
        } else if word == 1017 {
            Some(Register::PeriphId1)
        } else if word == 1018 {
            Some(Register::PeriphId2)
        } else if word == 1019 {
            Some(Register::PeriphId3)
        } else if word == 1020 {
            Some(Register::PCellId0)
        } else if word == 1021 {
            Some(Register::PCellId1)
        } else if word == 1022 {
            Some(Register::PCellId2)
        } else if word == 1023 {
            Some(Register::PCellId3)
        } else {
            None
        }
    }
}

/// No two registers share a word of the window.
pub proof fn lemma_offsets_distinct(a: Register, b: Register)
    ensures
        a.spec_word_offset() == b.spec_word_offset() <==> a == b,
{
}

/// Every register lies inside the window, and the words between the register
/// groups hold none: 2 to 5, 7, and the gap of 997 words from 19 to 1015.
pub proof fn lemma_reserved_words(reg: Register)
    ensures
        reg.spec_word_offset() < WINDOW_WORDS,
        !(2 <= reg.spec_word_offset() <= 5),
        reg.spec_word_offset() != 7,
        !(19 <= reg.spec_word_offset() < 19 + 997),
{
}

} // verus!
