//! Commands of NRF24L01(+) devices.

use vstd::prelude::*;

verus! {

#[derive(Clone, Copy, Debug, PartialEq, Eq, Structural)]
pub enum Command {
    /// Flushes the TX FIFO.
    TXFlush,
    /// Flushes the RX FIFO.
    RXFlush,
    /// Sends the previous payload.
    TXReusePayload,
    /// Reads the RX payload width.
    RXPayloadWidth,
    /// Reads the RX payload.
    RXPayload,
    /// No operation.
    Nop,
}

impl Command {
    /// The opcode byte that stands for this command on the wire.
    pub open spec fn opcode(self) -> u8 {
        match self {
            Command::TXFlush => 0b1110_0001,
            Command::RXFlush => 0b1110_0010,
            Command::TXReusePayload => 0b1110_0011,
            Command::RXPayloadWidth => 0b0110_0000,
            Command::RXPayload => 0b0110_0001,
            Command::Nop => 0b1111_1111,
        }
    }

    /// Returns the opcode byte of the command.
    pub fn code(self) -> (byte: u8)
        ensures
            byte == self.opcode(),
    {
        match self {
            Command::TXFlush => 0b1110_0001,
            Command::RXFlush => 0b1110_0010,
            Command::TXReusePayload => 0b1110_0011,
            Command::RXPayloadWidth => 0b0110_0000,
            Command::RXPayload => 0b0110_0001,
            Command::Nop => 0b1111_1111,
        }
    }
}

} // verus!
