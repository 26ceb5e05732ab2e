//! CRC configuration.

use vstd::prelude::*;

verus! {

#[derive(Clone, Copy, Debug, PartialEq, Eq, Structural)]
pub enum CRCBytes {
    /// One byte used for CRC.
    OneByte,
    /// Two bytes used for CRC.
    TwoBytes,
}

} // verus!
