//! Configuration of a single data pipe for the NRF24L01 device.

use vstd::prelude::*;

verus! {

#[derive(Clone, Copy, Debug, PartialEq, Eq, Structural)]
#[non_exhaustive]
pub struct PipeConfig {
    /// Pipe RX subaddress.
    pub sub: u8,
    /// Pipe Auto-Acknowledge.
    pub autoack: bool,
    /// Pipe enabled status.
    pub enabled: bool,
    /// Payload length of this pipe.
    /// Dynamic length if `None`.
    pub packetlen: Option<u8>,
}

impl PipeConfig {
    /// Creates a new empty PipeConfig.
    pub fn empty() -> (pipe: Self)
        ensures
            pipe == (PipeConfig { sub: 0, autoack: false, enabled: false, packetlen: None }),
    {
        PipeConfig { sub: 0u8, autoack: false, enabled: false, packetlen: None }
    }

    /// Creates a new configured PipeConfig.
    pub fn configured(sub: u8, autoack: bool, enabled: bool, packetlen: Option<u8>) -> (pipe: Self)
        ensures
            pipe == (PipeConfig { sub, autoack, enabled, packetlen }),
    {
        PipeConfig { sub, autoack, enabled, packetlen }
    }

    /// Enables the PipeConfig.
    pub fn enable(&mut self)
        ensures
            *final(self) == (PipeConfig { enabled: true, ..*old(self) }),
    {
        self.enabled = true;
    }

    /// Disables the PipeConfig.
    pub fn disable(&mut self)
        ensures
            *final(self) == (PipeConfig { enabled: false, ..*old(self) }),
    {
        self.enabled = false;
    }

    /// Sets the address of the PipeConfig.
    pub fn address(&mut self, address: u8)
        ensures
            *final(self) == (PipeConfig { sub: address, ..*old(self) }),
    {
        self.sub = address;
    }

    /// Sets the auto-acknowledge of the PipeConfig.
    pub fn autoack(&mut self, auto: bool)
        ensures
            *final(self) == (PipeConfig { autoack: auto, ..*old(self) }),
    {
        self.autoack = auto;
    }

    /// Sets the payload length of the pipe.
    pub fn packetlen(&mut self, len: u8)
        ensures
            *final(self) == (PipeConfig { packetlen: Some(len), ..*old(self) }),
    {
        self.packetlen = Some(len);
    }

    /// Sets the payload length to dynamic.
    pub fn dynlength(&mut self)
        ensures
            *final(self) == (PipeConfig { packetlen: None, ..*old(self) }),
    {
        self.packetlen = None;
    }
}

} // verus!
