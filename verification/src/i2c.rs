use vstd::prelude::*;

verus! {

/// A device reached over I2C: the bus and the device's address on it.
pub struct I2cInterface<B> {
    pub bus: B,
    pub address: u8,
}

} // verus!
