use vstd::prelude::*;

verus! {

/// Errors of an IMU bus over SPI: an error of the SPI device, or a register read
/// that names no register.
#[derive(Debug)]
pub enum ImuSpiError<E> {
    Bus(E),
    MissingRegister,
}

impl<E> From<E> for ImuSpiError<E> {
    fn from(error: E) -> (r: Self) {
        Self::Bus(error)
    }
}

impl<E> vstd::std_specs::convert::FromSpecImpl<E> for ImuSpiError<E> {
    open spec fn obeys_from_spec() -> bool {
        true
    }

    open spec fn from_spec(v: E) -> Self {
        ImuSpiError::Bus(v)
    }
}

/// An IMU bus over an SPI device.
#[derive(Debug)]
pub struct ImuSpiBus<SPI> {
    pub bus: SPI,
}

/// What one bus transaction does on SPI.
#[derive(Clone, Copy, Debug, PartialEq, Eq, Structural)]
pub enum SpiTransfer {
    /// Nothing is read: the write buffer is sent as it is.
    WriteOnly,
    /// Send `register`, then read into the read buffer.
    WriteRegisterThenRead { register: u8 },
}

/// SPI reads require bit 7 of the register address to be set.
pub const SPI_READ: u8 = 0x80;

impl<SPI> ImuSpiBus<SPI> {
    /// Constructor.
    pub fn new(bus: SPI) -> (r: Self)
        ensures
            r.bus == bus,
    {
        Self { bus }
    }

    /// How a transaction with these buffers goes over SPI: with nothing to read,
    /// a plain write; otherwise the first byte of `write` with the read bit set,
    /// followed by the read, and with no first byte the transaction fails.
    pub fn plan_transfer<E>(write: &[u8], read_len: usize) -> (r: Result<
        SpiTransfer,
        ImuSpiError<E>,
    >)
        ensures
            read_len == 0 ==> r == Ok::<SpiTransfer, ImuSpiError<E>>(SpiTransfer::WriteOnly),
            read_len > 0 && write@.len() == 0 ==> r == Err::<SpiTransfer, ImuSpiError<E>>(
                ImuSpiError::MissingRegister,
            ),
            read_len > 0 && write@.len() > 0 ==> r == Ok::<SpiTransfer, ImuSpiError<E>>(
                SpiTransfer::WriteRegisterThenRead { register: write@[0] | SPI_READ },
            ),
    {
        if read_len == 0 {
            Ok(SpiTransfer::WriteOnly)
        } else {
            // Register read.
            if write.len() == 0 {
                Err(ImuSpiError::MissingRegister)
            } else {
                let register = write[0] | SPI_READ;
                Ok(SpiTransfer::WriteRegisterThenRead { register })
            }
        }
    }
}

} // verus!
