//! A model of the device's register file, against which the transaction
//! layer's register exchanges are held.

use vstd::prelude::*;
use crate::base::{Exchange, WRITECMD};
use crate::common::Register;

verus! {

/// The single-byte registers of a device and the status it reports.
pub struct Device {
    /// The value of each register, by its five-bit address.
    pub cells: Map<u8, u8>,
    /// The status byte shifted back first on every exchange.
    pub status: u8,
}

impl Device {
    /// What a two-byte exchange does to the device and what it shifts back.
    /// An opcode with the three high bits `001` writes the register that its
    /// five low bits address; one with `000` reads it.
    pub open spec fn exchange(self, frame: Seq<u8>) -> (Device, Seq<u8>) {
        let opcode = frame[0];
        let address = opcode & 0b0001_1111;
        if opcode & 0b1110_0000 == WRITECMD {
            (Device { cells: self.cells.insert(address, frame[1]), ..self }, seq![self.status, 0u8])
        } else if opcode & 0b1110_0000 == 0 {
            (self, seq![self.status, self.cells[address]])
        } else {
            (self, seq![self.status, 0u8])
        }
    }
}

proof fn lemma_opcodes(address: u8)
    by (bit_vector)
    requires
        address < 0x20,
    ensures
        (address | 0b0010_0000u8) & 0b1110_0000 == 0b0010_0000u8,
        (address | 0b0010_0000u8) & 0b0001_1111 == address,
        address & 0b1110_0000 == 0,
        address & 0b0001_1111 == address,
{
}

/// Each register has an address of its own, below 32.
pub proof fn lemma_addresses_differ(a: Register, b: Register)
    ensures
        a.address() < 0x20,
        a.address() == b.address() ==> a == b,
{
}

/// Writing a value to a register and then reading that register gives the
/// value back, and the read changes nothing. A write to another register in
/// between does not disturb it.
pub proof fn lemma_register_round_trip(device: Device, r: Register, v: u8, other: Register, w: u8)
    requires
        other != r,
    ensures
        ({
            let written = device.exchange(Exchange::WriteRegister(r, v).wire()).0;
            let read = written.exchange(Exchange::ReadRegister(r).wire());
            let disturbed = written.exchange(Exchange::WriteRegister(other, w).wire()).0;
            &&& read.1 == seq![device.status, v]
            &&& read.0 == written
            &&& disturbed.exchange(Exchange::ReadRegister(r).wire()).1 == seq![device.status, v]
        }),
{
    lemma_opcodes(r.address());
    lemma_opcodes(other.address());
    lemma_addresses_differ(r, other);
}

} // verus!
