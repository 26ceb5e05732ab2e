//! Power State of NRF24L01(+) devices.

use vstd::prelude::*;

verus! {

#[derive(Clone, Copy, Debug, PartialEq, Eq, Structural)]
pub enum PowerState {
    /// The device is powered down.
    PowerDown,
    /// The device is in standby.
    Standby,
}

} // verus!
