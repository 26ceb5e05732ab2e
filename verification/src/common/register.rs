//! Registers of the NRF24L01(+) devices.

use vstd::prelude::*;

verus! {

#[derive(Clone, Copy, Debug, PartialEq, Eq, Structural)]
pub enum Register {
    /// Configuration register.
    Config,
    /// Enable Auto-Acknowledge register.
    AutoAck,
    /// Enable RX Address register.
    RXEnable,
    /// Setup Address Width register.
    AddressWidth,
    /// Setup Retries register.
    Retries,
    /// Radio Frequency Channel register.
    RFChannel,
    /// Radio Frequency Setup register.
    RFSetup,
    /// Status register.
    Status,
    /// Observe TX register.
    Observe,
    /// Receive Power Detector / Carrier Detect register.
    Detector,
    /// Pipe 2 Address LSB register.
    RX2Address,
    /// Pipe 3 Address LSB register.
    RX3Address,
    /// Pipe 4 Address LSB register.
    RX4Address,
    /// Pipe 5 Address LSB register.
    RX5Address,
    /// Pipe 0 Payload Width register.
    RX0Width,
    /// Pipe 1 Payload Width register.
    RX1Width,
    /// Pipe 2 Payload Width register.
    RX2Width,
    /// Pipe 3 Payload Width register.
    RX3Width,
    /// Pipe 4 Payload Width register.
    RX4Width,
    /// Pipe 5 Payload Width register.
    RX5Width,
    /// FIFO Status register.
    FifoStatus,
    /// Dynamic Payload register.
    DynamicPayload,
    /// Feature register.
    Feature,
}

impl Register {
    /// The address of the register in the device's register map.
    pub open spec fn address(self) -> u8 {
        match self {
            Register::Config => 0x00,
            Register::AutoAck => 0x01,
            Register::RXEnable => 0x02,
            Register::AddressWidth => 0x03,
            Register::Retries => 0x04,
            Register::RFChannel => 0x05,
            Register::RFSetup => 0x06,
            Register::Status => 0x07,
            Register::Observe => 0x08,
            Register::Detector => 0x09,
            Register::RX2Address => 0x0C,
            Register::RX3Address => 0x0D,
            Register::RX4Address => 0x0E,
            Register::RX5Address => 0x0F,
            Register::RX0Width => 0x11,
            Register::RX1Width => 0x12,
            Register::RX2Width => 0x13,
            Register::RX3Width => 0x14,
            Register::RX4Width => 0x15,
            Register::RX5Width => 0x16,
            Register::FifoStatus => 0x17,
            Register::DynamicPayload => 0x1C,
            Register::Feature => 0x1D,
        }
    }

    /// Returns the address of the register.
    pub fn code(self) -> (byte: u8)
        ensures
            byte == self.address(),
            byte < 0x20,
    {
        match self {
            Register::Config => 0x00,
            Register::AutoAck => 0x01,
            Register::RXEnable => 0x02,
            Register::AddressWidth => 0x03,
            Register::Retries => 0x04,
            Register::RFChannel => 0x05,
            Register::RFSetup => 0x06,
            Register::Status => 0x07,
            Register::Observe => 0x08,
            Register::Detector => 0x09,
            Register::RX2Address => 0x0C,
            Register::RX3Address => 0x0D,
            Register::RX4Address => 0x0E,
            Register::RX5Address => 0x0F,
            Register::RX0Width => 0x11,
            Register::RX1Width => 0x12,
            Register::RX2Width => 0x13,
            Register::RX3Width => 0x14,
            Register::RX4Width => 0x15,
            Register::RX5Width => 0x16,
            Register::FifoStatus => 0x17,
            Register::DynamicPayload => 0x1C,
            Register::Feature => 0x1D,
        }
    }
}

#[derive(Clone, Copy, Debug, PartialEq, Eq, Structural)]
pub enum BlockRegister {
    /// Pipe 0 RX Address register.
    RX0Address,
    /// Pipe 1 RX Address register.
    RX1Address,
    /// TX Address register.
    TXAddress,
}

impl BlockRegister {
    /// The address of the block register in the device's register map.
    pub open spec fn address(self) -> u8 {
        match self {
            BlockRegister::RX0Address => 0x0A,
            BlockRegister::RX1Address => 0x0B,
            BlockRegister::TXAddress => 0x10,
        }
    }

    /// Returns the address of the block register.
    pub fn code(self) -> (byte: u8)
        ensures
            byte == self.address(),
            byte < 0x20,
    {
        match self {
            BlockRegister::RX0Address => 0x0A,
            BlockRegister::RX1Address => 0x0B,
            BlockRegister::TXAddress => 0x10,
        }
    }
}

} // verus!
