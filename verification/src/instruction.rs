//! The controller's command set.

use vstd::prelude::*;

verus! {

/// Commands of the ST7735, each with the opcode byte the datasheet assigns.
#[derive(Clone, Copy, Debug, PartialEq, Eq, Structural)]
pub enum Instruction {
    NOP,
    SWRESET,
    RDDID,
    RDDST,
    SLPIN,
    SLPOUT,
    PTLON,
    NORON,
    INVOFF,
    INVON,
    DISPOFF,
    DISPON,
    CASET,
    RASET,
    RAMWR,
    RAMRD,
    PTLAR,
    COLMOD,
    MADCTL,
    FRMCTR1,
    FRMCTR2,
    FRMCTR3,
    INVCTR,
    DISSET5,
    PWCTR1,
    PWCTR2,
    PWCTR3,
    PWCTR4,
    PWCTR5,
    VMCTR1,
    RDID1,
    RDID2,
    RDID3,
    RDID4,
    PWCTR6,
    GMCTRP1,
    GMCTRN1,
}

impl Instruction {
    /// The opcode table.
    pub open spec fn code(self) -> u8 {
        match self {
            Instruction::NOP => 0x00,
            Instruction::SWRESET => 0x01,
            Instruction::RDDID => 0x04,
            Instruction::RDDST => 0x09,
            Instruction::SLPIN => 0x10,
            Instruction::SLPOUT => 0x11,
            Instruction::PTLON => 0x12,
            Instruction::NORON => 0x13,
            Instruction::INVOFF => 0x20,
            Instruction::INVON => 0x21,
            Instruction::DISPOFF => 0x28,
            Instruction::DISPON => 0x29,
            Instruction::CASET => 0x2A,
            Instruction::RASET => 0x2B,
            Instruction::RAMWR => 0x2C,
            Instruction::RAMRD => 0x2E,
            Instruction::PTLAR => 0x30,
            Instruction::COLMOD => 0x3A,
            Instruction::MADCTL => 0x36,
            Instruction::FRMCTR1 => 0xB1,
            Instruction::FRMCTR2 => 0xB2,
            Instruction::FRMCTR3 => 0xB3,
            Instruction::INVCTR => 0xB4,
            Instruction::DISSET5 => 0xB6,
            Instruction::PWCTR1 => 0xC0,
            Instruction::PWCTR2 => 0xC1,
            Instruction::PWCTR3 => 0xC2,
            Instruction::PWCTR4 => 0xC3,
            Instruction::PWCTR5 => 0xC4,
            Instruction::VMCTR1 => 0xC5,
            Instruction::RDID1 => 0xDA,
            Instruction::RDID2 => 0xDB,
            Instruction::RDID3 => 0xDC,
            Instruction::RDID4 => 0xDD,
            Instruction::PWCTR6 => 0xFC,
            Instruction::GMCTRP1 => 0xE0,
            Instruction::GMCTRN1 => 0xE1,
        }
    }

    /// The byte that goes on the bus for this command.
    pub fn opcode(self) -> (byte: u8)
        ensures
            byte == self.code(),
    {
        match self {
            Instruction::NOP => 0x00,
            Instruction::SWRESET => 0x01,
            Instruction::RDDID => 0x04,
            Instruction::RDDST => 0x09,
            Instruction::SLPIN => 0x10,
            Instruction::SLPOUT => 0x11,
            Instruction::PTLON => 0x12,
            Instruction::NORON => 0x13,
            Instruction::INVOFF => 0x20,
            Instruction::INVON => 0x21,
            Instruction::DISPOFF => 0x28,
            Instruction::DISPON => 0x29,
            Instruction::CASET => 0x2A,
            Instruction::RASET => 0x2B,
            Instruction::RAMWR => 0x2C,
            Instruction::RAMRD => 0x2E,
            Instruction::PTLAR => 0x30,
            Instruction::COLMOD => 0x3A,
            Instruction::MADCTL => 0x36,
            Instruction::FRMCTR1 => 0xB1,
            Instruction::FRMCTR2 => 0xB2,
            Instruction::FRMCTR3 => 0xB3,
            Instruction::INVCTR => 0xB4,
            Instruction::DISSET5 => 0xB6,
            Instruction::PWCTR1 => 0xC0,
            Instruction::PWCTR2 => 0xC1,
            Instruction::PWCTR3 => 0xC2,
            Instruction::PWCTR4 => 0xC3,
            Instruction::PWCTR5 => 0xC4,
            Instruction::VMCTR1 => 0xC5,
            Instruction::RDID1 => 0xDA,
            Instruction::RDID2 => 0xDB,
            Instruction::RDID3 => 0xDC,
            Instruction::RDID4 => 0xDD,
            Instruction::PWCTR6 => 0xFC,
            Instruction::GMCTRP1 => 0xE0,
            Instruction::GMCTRN1 => 0xE1,
        }
    }
}

} // verus!
