//! NRF24L01(+) pipe receiver configuration.

use vstd::prelude::*;

verus! {

#[derive(Clone, Copy, Debug, PartialEq, Eq, Structural)]
pub struct Pipe {
    /// Pipe subaddress.
    pub sub: u8,
    /// Pipe auto-acknowledge.
    pub autoack: bool,
    /// Pipe byte width.
    /// Dynamic width if `None`.
    pub width: Option<u8>,
}

impl Pipe {
    /// Configures a dynamic length pipeline.
    pub fn dynamic(sub: u8, autoack: bool) -> (pipe: Pipe)
        ensures
            pipe == (Pipe { sub, autoack, width: None }),
    {
        Pipe { sub, autoack, width: None }
    }

    /// Configures a set length pipeline.
    pub fn sized(sub: u8, autoack: bool, width: u8) -> (pipe: Pipe)
        ensures
            pipe == (Pipe { sub, autoack, width: Some(width) }),
    {
        Pipe { sub, autoack, width: Some(width) }
    }
}

} // verus!
