//! The single-byte operation codes of the 25-series command set.

use vstd::prelude::*;

verus! {

/// An operation the chip understands.
#[derive(Clone, Copy, Debug, PartialEq, Eq, Structural)]
pub enum Opcode {
    /// Read the 8-bit legacy device ID.
    ReadDeviceId,
    /// Read the 8-bit manufacturer and device IDs.
    ReadMfDId,
    /// Read the JEDEC manufacturer and device identification.
    ReadJedecId,
    /// Set the write enable latch.
    WriteEnable,
    /// Clear the write enable latch.
    WriteDisable,
    /// Read the 8-bit status register.
    ReadStatus,
    /// Write the 8-bit status register. Not all bits are writeable.
    WriteStatus,
    /// Read memory contents.
    Read,
    /// Program one page; on EEPROMs this writes directly.
    PageProg,
    /// Erase one sector.
    SectorErase,
    /// Erase one block.
    BlockErase,
    /// Erase the whole chip.
    ChipErase,
}

impl Opcode {
    /// The byte that stands for this operation on the wire.
    pub open spec fn spec_code(self) -> u8 {
        match self {
            Opcode::ReadDeviceId => 0xAB,
            Opcode::ReadMfDId => 0x90,
            Opcode::ReadJedecId => 0x9F,
            Opcode::WriteEnable => 0x06,
            Opcode::WriteDisable => 0x04,
            Opcode::ReadStatus => 0x05,
            Opcode::WriteStatus => 0x01,
            Opcode::Read => 0x03,
            Opcode::PageProg => 0x02,
            Opcode::SectorErase => 0x20,
            Opcode::BlockErase => 0xD8,
            Opcode::ChipErase => 0xC7,
        }
    }

    /// The byte that stands for this operation on the wire.
    #[verifier::when_used_as_spec(spec_code)]
    pub fn code(self) -> (byte: u8)
        ensures
            byte == self.spec_code(),
    {
        match self {
            Opcode::ReadDeviceId => 0xAB,
            Opcode::ReadMfDId => 0x90,
            Opcode::ReadJedecId => 0x9F,
            Opcode::WriteEnable => 0x06,
            Opcode::WriteDisable => 0x04,
            Opcode::ReadStatus => 0x05,
            Opcode::WriteStatus => 0x01,
            Opcode::Read => 0x03,
            Opcode::PageProg => 0x02,
            Opcode::SectorErase => 0x20,
            Opcode::BlockErase => 0xD8,
            Opcode::ChipErase => 0xC7,
        }
    }
}

} // verus!
