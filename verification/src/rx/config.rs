//! NRF24L01(+) receiver configuration.

use vstd::prelude::*;
use crate::common::{AddressWidth, CRCBytes, DataRate, Gain};
use super::pipe::Pipe;

verus! {

#[derive(Clone, Copy, Debug, PartialEq, Eq)]
pub struct Config {
    /// RF Channel.
    pub channel: u8,
    /// Antenna gain.
    pub gain: Gain,
    /// Device data rate.
    pub datarate: DataRate,
    /// CRC configuration.
    pub crc: Option<CRCBytes>,
    /// Address Width.
    pub addrwidth: AddressWidth,
    /// Main address.
    pub address: [u8; 5],
    /// Common sub address.
    pub subaddress: [u8; 4],
    /// Pipe configuration.
    pub pipes: [Option<Pipe>; 6],
}

/// The byte with only bit `i` set when `flag` holds, zero otherwise.
pub open spec fn flag_bit(flag: bool, i: u8) -> u8 {
    if flag {
        1u8 << i
    } else {
        0u8
    }
}

/// The mask that gathers the first `n` flags, flag `i` at bit `i`.
pub open spec fn mask_of(flags: Seq<bool>, n: nat) -> u8
    decreases n,
{
    if n == 0 {
        0u8
    } else {
        mask_of(flags, (n - 1) as nat) | flag_bit(flags[n - 1], (n - 1) as u8)
    }
}

/// The 2-bit code of a gain.
pub open spec fn gain_code(gain: Gain) -> u8 {
    match gain {
        Gain::Min => 0b00,
        Gain::Low => 0b01,
        Gain::High => 0b10,
        Gain::Max => 0b11,
    }
}

/// The bits of the RF-setup register that a data rate sets.
pub open spec fn rate_bits(rate: DataRate) -> u8 {
    match rate {
        DataRate::Max => 0b0000_1000,
        DataRate::Low => 0b0010_0000,
        DataRate::High => 0,
    }
}

/// The code of an address width.
pub open spec fn width_code(width: AddressWidth) -> u8 {
    match width {
        AddressWidth::ThreeBytes => 0b01,
        AddressWidth::FourBytes => 0b10,
        AddressWidth::FiveBytes => 0b11,
    }
}

/// What the pipe slots of a configuration compile to.
pub struct PipeTables {
    /// Auto-acknowledge mask.
    pub enaa: u8,
    /// Receive-enable mask.
    pub enrx: u8,
    /// Dynamic-payload mask.
    pub dynp: u8,
    /// Fixed payload width of each slot.
    pub width: Seq<u8>,
    /// Low address byte of slots 2 to 5.
    pub addr: Seq<u8>,
}

impl Config {
    /// Whether slot `i` holds a pipe.
    pub open spec fn populated(self, i: int) -> bool {
        self.pipes@[i] is Some
    }

    /// Whether slot `i` holds a pipe that acknowledges automatically.
    pub open spec fn acked(self, i: int) -> bool {
        self.pipes@[i] matches Some(p) && p.autoack
    }

    /// Whether slot `i` holds a pipe of dynamic payload length.
    pub open spec fn dynamic(self, i: int) -> bool {
        self.pipes@[i] matches Some(p) && p.width is None
    }

    /// The fixed payload width of slot `i`: zero when absent or dynamic.
    pub open spec fn slot_width(self, i: int) -> u8 {
        match self.pipes@[i] {
            Some(p) => match p.width {
                Some(w) => w,
                None => 0,
            },
            None => 0,
        }
    }

    /// The sub-address of slot `i`: zero when absent.
    pub open spec fn slot_sub(self, i: int) -> u8 {
        match self.pipes@[i] {
            Some(p) => p.sub,
            None => 0,
        }
    }

    /// The value of the CONFIG register.
    pub open spec fn config_word(self) -> u8 {
        match self.crc {
            None => 0b0001_0001,
            Some(CRCBytes::OneByte) => 0b0001_1001,
            Some(CRCBytes::TwoBytes) => 0b0001_1101,
        }
    }

    /// The value of the RF SETUP register.
    pub open spec fn rfsetup_word(self) -> u8 {
        (gain_code(self.gain) << 1u8) | rate_bits(self.datarate)
    }

    /// The secondary address: the shared high bytes, then the sub-address of slot 1.
    pub open spec fn secondary_bytes(self) -> Seq<u8> {
        seq![
            self.subaddress@[0],
            self.subaddress@[1],
            self.subaddress@[2],
            self.subaddress@[3],
            self.slot_sub(1),
        ]
    }

    /// The masks and tables that the six pipe slots compile to.
    pub open spec fn pipe_tables(self) -> PipeTables {
        PipeTables {
            enaa: mask_of(Seq::new(6, |i: int| self.acked(i)), 6),
            enrx: mask_of(Seq::new(6, |i: int| self.populated(i)), 6),
            dynp: mask_of(Seq::new(6, |i: int| self.dynamic(i)), 6),
            width: Seq::new(6, |i: int| self.slot_width(i)),
            addr: Seq::new(4, |i: int| self.slot_sub(i + 2)),
        }
    }

    /// Builds the CONFIG register.
    pub fn config(&self) -> (word: u8)
        ensures
            word == self.config_word(),
    {
        // Mask the MAX RT interrupt, set PRX.
        let mut word: u8 = (1 << 4) | 1;

        // Configure the CRC.
        if let Some(crc) = self.crc {
            // Set the CRC bit.
            word |= 1 << 3;

            match crc {
                CRCBytes::TwoBytes => word |= 1 << 2,
                _ => (),
            }
        }
        proof {
            assert((1u8 << 4) | 1 == 0b0001_0001) by (bit_vector);
            assert(0b0001_0001u8 | (1u8 << 3) == 0b0001_1001) by (bit_vector);
            assert(0b0001_1001u8 | (1u8 << 2) == 0b0001_1101) by (bit_vector);
        }
        word
    }

    /// Builds the RF SETUP register.
    pub fn rfsetup(&self) -> (word: u8)
        ensures
            word == self.rfsetup_word(),
    {
        // Set the gain.
        let gain: u8 = match self.gain {
            Gain::Max => 0b11,
            Gain::High => 0b10,
            Gain::Low => 0b01,
            Gain::Min => 0b00,
        };
        let mut word: u8 = gain << 1;

        // Set the datarate.
        match self.datarate {
            DataRate::Max => word |= 1 << 3,
            DataRate::Low => word |= 1 << 5,
            _ => (),
        }
        proof {
            let shifted = gain_code(self.gain) << 1u8;
            assert(1u8 << 3 == 0b0000_1000) by (bit_vector);
            assert(1u8 << 5 == 0b0010_0000) by (bit_vector);
            assert(shifted | 0 == shifted) by (bit_vector);
        }
        word
    }

    /// Creates the SETUP AW register.
    pub fn addrwidth(&self) -> (word: u8)
        ensures
            word == width_code(self.addrwidth),
    {
        match self.addrwidth {
            AddressWidth::FiveBytes => 0b11,
            AddressWidth::FourBytes => 0b10,
            AddressWidth::ThreeBytes => 0b01,
        }
    }

    /// Creates the secondary address.
    pub fn secondary(&self) -> (bytes: [u8; 5])
        ensures
            bytes@ == self.secondary_bytes(),
    {
        let low: u8 = match self.pipes[1] {
            Some(pipe) => pipe.sub,
            _ => 0,
        };
        let bytes = [
            self.subaddress[0],
            self.subaddress[1],
            self.subaddress[2],
            self.subaddress[3],
            low,
        ];
        assert(bytes@ =~= self.secondary_bytes());
        bytes
    }

    /// Creates the pipe configuration: the auto-acknowledge, receive-enable and
    /// dynamic-payload masks, the width table and the address table of slots 2 to 5.
    pub fn pipeconfig(&self) -> (out: (u8, u8, u8, [u8; 6], [u8; 4]))
        ensures
            out.0 == self.pipe_tables().enaa,
            out.1 == self.pipe_tables().enrx,
            out.2 == self.pipe_tables().dynp,
            out.3@ == self.pipe_tables().width,
            out.4@ == self.pipe_tables().addr,
    {
        // Register words.
        let mut enaa: u8 = 0;
        let mut enrx: u8 = 0;
        let mut dynp: u8 = 0;

        // Width registers.
        let mut width: [u8; 6] = [0; 6];

        // Address registers.
        let mut addr: [u8; 4] = [0; 4];

        let ghost acked = Seq::new(6, |i: int| self.acked(i));
        let ghost populated = Seq::new(6, |i: int| self.populated(i));
        let ghost dynamic = Seq::new(6, |i: int| self.dynamic(i));

        let mut i: usize = 0;
        while i < 6
            invariant
                i <= 6,
                acked == Seq::new(6, |i: int| self.acked(i)),
                populated == Seq::new(6, |i: int| self.populated(i)),
                dynamic == Seq::new(6, |i: int| self.dynamic(i)),
                enaa == mask_of(acked, i as nat),
                enrx == mask_of(populated, i as nat),
                dynp == mask_of(dynamic, i as nat),
                forall|k: int| 0 <= k < 6 ==> width@[k] == if k < i { self.slot_width(k) } else { 0 },
                forall|k: int| 0 <= k < 4 ==> addr@[k] == if k + 2 < i { self.slot_sub(k + 2) } else { 0 },
            decreases 6 - i,
        {
            let bit: u8 = 1u8 << (i as u8);
            let ghost before = (enaa, enrx, dynp);
            if let Some(pipe) = self.pipes[i] {
                // Enable the pipe.
                enrx |= bit;

                // Set auto-acknowledge.
                if pipe.autoack {
                    enaa |= bit;
                }

                // Set pipe width.
                match pipe.width {
                    Some(w) => {
                        width[i] = w;
                    },
                    _ => {
                        dynp |= bit;
                    },
                }

                // Set address.
                if i > 1 {
                    addr[i - 2] = pipe.sub;
                }
            }
            proof {
                assert(before.0 | 0 == before.0) by (bit_vector);
                assert(before.1 | 0 == before.1) by (bit_vector);
                assert(before.2 | 0 == before.2) by (bit_vector);
            }
            i += 1;
        }
        assert(width@ =~= self.pipe_tables().width);
        assert(addr@ =~= self.pipe_tables().addr);
        (enaa, enrx, dynp, width, addr)
    }

    /// Creates the features register.
    pub fn features(&self) -> (word: u8)
        ensures
            word == 0b111,
    {
        0b111
    }
}

} // verus!
