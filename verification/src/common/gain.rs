//! Gain of the antenna.

use vstd::prelude::*;

verus! {

#[derive(Clone, Copy, Debug, PartialEq, Eq, Structural)]
pub enum Gain {
    /// Minimum gain.
    Min,
    /// Low gain.
    Low,
    /// High gain.
    High,
    /// Maximum gain.
    Max,
}

} // verus!
