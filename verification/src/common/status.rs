//! A representation of the Status register of NRF24L01(+) devices.

use vstd::prelude::*;

verus! {

/// The byte that the device shifts back first on every exchange.
#[derive(Clone, Copy, Debug, PartialEq, Eq, Structural)]
pub struct Status(pub u8);

impl Status {
    /// Returns the status byte as the device sent it.
    pub fn raw(&self) -> (byte: u8)
        ensures
            byte == self.0,
    {
        self.0
    }
}

} // verus!
