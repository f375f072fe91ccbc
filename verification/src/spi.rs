use vstd::prelude::*;

verus! {

/// A device reached over SPI: the bus and its chip-select pin.
pub struct SpiInterface<B, CS> {
    pub bus: B,
    pub cs: CS,
}

/// A register reader over an SPI bus with a chip-select pin.
pub struct MySpiDriver<SPI, CS> {
    spi: SPI,
    cs: CS,
}

/// Bit 7 of the first byte marks an SPI transfer as a register read.
pub const SPI_READ: u8 = 0x80;

impl<SPI, CS> MySpiDriver<SPI, CS> {
    /// The two bytes clocked out to read register `reg`: the register address with
    /// the read bit set, then a dummy byte during which the value comes back.
    pub fn read_register_command(reg: u8) -> (r: [u8; 2])
        ensures
            r[0] == reg | SPI_READ,
            r[1] == 0,
    {
        [reg | SPI_READ, 0]
    }
}

} // verus!
