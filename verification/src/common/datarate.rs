//! Data Rate of the device.

use vstd::prelude::*;

verus! {

#[derive(Clone, Copy, Debug, PartialEq, Eq, Structural)]
pub enum DataRate {
    /// 250 kbps data rate.
    Low,
    /// 1 Mbps data rate.
    High,
    /// 2 Mbps data rate.
    Max,
}

} // verus!
