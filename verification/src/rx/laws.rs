//! What holds of every compiled configuration.

use vstd::prelude::*;
use crate::common::{AddressWidth, CRCBytes};
use super::config::{flag_bit, gain_code, mask_of, width_code, Config};

verus! {

/// The CONFIG register always has bits 4 and 0 set; bit 3 is set exactly when a
/// CRC is configured, and bit 2 exactly when that CRC is two bytes wide.
pub proof fn lemma_config_bits(config: Config)
    ensures
        config.config_word() & 0b0001_0001 == 0b0001_0001,
        (config.config_word() & 0b0000_1000 != 0) <==> config.crc is Some,
        (config.config_word() & 0b0000_0100 != 0) <==> config.crc == Some(CRCBytes::TwoBytes),
        config.config_word() & 0b1110_0010 == 0,
{
    assert(0b0001_0001u8 & 0b0001_0001 == 0b0001_0001 && 0b0001_0001u8 & 0b0000_1000 == 0
        && 0b0001_0001u8 & 0b0000_0100 == 0 && 0b0001_0001u8 & 0b1110_0010 == 0) by (bit_vector);
    assert(0b0001_1001u8 & 0b0001_0001 == 0b0001_0001 && 0b0001_1001u8 & 0b0000_1000 != 0
        && 0b0001_1001u8 & 0b0000_0100 == 0 && 0b0001_1001u8 & 0b1110_0010 == 0) by (bit_vector);
    assert(0b0001_1101u8 & 0b0001_0001 == 0b0001_0001 && 0b0001_1101u8 & 0b0000_1000 != 0
        && 0b0001_1101u8 & 0b0000_0100 != 0 && 0b0001_1101u8 & 0b1110_0010 == 0) by (bit_vector);
}

/// The two bits of the RF SETUP register at offset 1 hold the code of the
/// gain, whatever the data rate.
pub proof fn lemma_rfsetup_gain(config: Config)
    ensures
        (config.rfsetup_word() >> 1u8) & 0b11 == gain_code(config.gain),
{
    let g = gain_code(config.gain);
    assert(g < 4);
    assert((((g << 1u8) | 0b0000_1000u8) >> 1u8) & 0b11 == g) by (bit_vector)
        requires
            g < 4,
    ;
    assert((((g << 1u8) | 0b0010_0000u8) >> 1u8) & 0b11 == g) by (bit_vector)
        requires
            g < 4,
    ;
    assert((((g << 1u8) | 0u8) >> 1u8) & 0b11 == g) by (bit_vector)
        requires
            g < 4,
    ;
}

/// Each address width has a code of its own, and the codes are exactly 1, 2 and 3:
/// two widths with one code are one width, and a byte is one of the three
/// codes exactly when some width has it.
pub proof fn lemma_addrwidth_bijection(a: AddressWidth, b: AddressWidth, code: u8)
    ensures
        width_code(a) == width_code(b) ==> a == b,
        (code == 0b01 || code == 0b10 || code == 0b11) <==> (exists|w: AddressWidth|
            #[trigger] width_code(w) == code),
{
    assert(width_code(AddressWidth::ThreeBytes) == 0b01);
    assert(width_code(AddressWidth::FourBytes) == 0b10);
    assert(width_code(AddressWidth::FiveBytes) == 0b11);
}

proof fn lemma_or_bits(b0: u8, b1: u8, b2: u8, b3: u8, b4: u8, b5: u8, i: u8)
    by (bit_vector)
    requires
        b0 == 0 || b0 == 1u8 << 0u8,
        b1 == 0 || b1 == 1u8 << 1u8,
        b2 == 0 || b2 == 1u8 << 2u8,
        b3 == 0 || b3 == 1u8 << 3u8,
        b4 == 0 || b4 == 1u8 << 4u8,
        b5 == 0 || b5 == 1u8 << 5u8,
        i < 8,
    ensures
        ((((((0u8 | b0) | b1) | b2) | b3) | b4) | b5) & (1u8 << i) != 0 <==> ((i == 0 && b0 != 0)
            || (i == 1 && b1 != 0) || (i == 2 && b2 != 0) || (i == 3 && b3 != 0) || (i == 4 && b4
            != 0) || (i == 5 && b5 != 0)),
        1u8 << 0u8 != 0,
        1u8 << 1u8 != 0,
        1u8 << 2u8 != 0,
        1u8 << 3u8 != 0,
        1u8 << 4u8 != 0,
        1u8 << 5u8 != 0,
{
}

/// Bit `i` of a mask of six flags is set exactly when `i` is below six and
/// flag `i` holds.
pub proof fn lemma_mask_bit(flags: Seq<bool>, i: u8)
    requires
        flags.len() == 6,
        i < 8,
    ensures
        (mask_of(flags, 6) & (1u8 << i) != 0) <==> (i < 6 && flags[i as int]),
{
    reveal_with_fuel(mask_of, 7);
    lemma_or_bits(
        flag_bit(flags[0], 0),
        flag_bit(flags[1], 1),
        flag_bit(flags[2], 2),
        flag_bit(flags[3], 3),
        flag_bit(flags[4], 4),
        flag_bit(flags[5], 5),
        i,
    );
}

/// In each of the three masks that the pipe slots compile to, bit `i` is set
/// exactly when slot `i` is one of the six and holds a pipe; for the
/// auto-acknowledge mask the pipe must also acknowledge, for the
/// dynamic-payload mask it must also be of dynamic length.
pub proof fn lemma_pipe_masks(config: Config, i: u8)
    requires
        i < 8,
    ensures
        (config.pipe_tables().enrx & (1u8 << i) != 0) <==> (i < 6 && config.pipes@[i as int] is Some),
        (config.pipe_tables().enaa & (1u8 << i) != 0) <==> (i < 6 && config.pipes@[i as int] is Some
            && config.pipes@[i as int]->Some_0.autoack),
        (config.pipe_tables().dynp & (1u8 << i) != 0) <==> (i < 6 && config.pipes@[i as int] is Some
            && config.pipes@[i as int]->Some_0.width is None),
{
    lemma_mask_bit(Seq::new(6, |k: int| config.populated(k)), i);
    lemma_mask_bit(Seq::new(6, |k: int| config.acked(k)), i);
    lemma_mask_bit(Seq::new(6, |k: int| config.dynamic(k)), i);
}

/// The width table has six entries: the fixed width of a pipe that has one,
/// zero for a dynamic pipe and for an empty slot. The address table has four
/// entries: the sub-address of each pipe in slots 2 to 5, zero for an empty slot.
pub proof fn lemma_pipe_tables(config: Config, i: int)
    requires
        0 <= i < 6,
    ensures
        config.pipe_tables().width.len() == 6,
        config.pipe_tables().addr.len() == 4,
        config.pipes@[i] is None ==> config.pipe_tables().width[i] == 0,
        config.dynamic(i) ==> config.pipe_tables().width[i] == 0,
        config.pipes@[i] is Some && config.pipes@[i]->Some_0.width is Some
            ==> config.pipe_tables().width[i] == config.pipes@[i]->Some_0.width->Some_0,
        config.pipe_tables().width[i] != 0 ==> config.pipes@[i] is Some && !config.dynamic(i),
        i >= 2 && config.pipes@[i] is Some ==> config.pipe_tables().addr[i - 2]
            == config.pipes@[i]->Some_0.sub,
        i >= 2 && config.pipes@[i] is None ==> config.pipe_tables().addr[i - 2] == 0,
{
}

} // verus!
