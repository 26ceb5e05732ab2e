use nrf24_rx::common::{AddressWidth, CRCBytes, DataRate, Gain, PipeConfig};
use nrf24_rx::rx::{Config, Pipe};

fn sample() -> Config {
    Config {
        channel: 40,
        gain: Gain::Max,
        datarate: DataRate::High,
        crc: Some(CRCBytes::TwoBytes),
        addrwidth: AddressWidth::FiveBytes,
        address: [0xE7; 5],
        subaddress: [0xC2; 4],
        pipes: [Some(Pipe::sized(0xE7, true, 32)), None, None, None, None, None],
    }
}

#[test]
fn sample_compiles_to_register_values() {
    let config = sample();
    assert_eq!(config.config(), 0b0001_1101);
    assert_eq!(config.rfsetup(), 0b0000_0110);
    assert_eq!(config.addrwidth(), 0b11);
    let (enaa, enrx, dynp, width, addr) = config.pipeconfig();
    assert_eq!(enaa, 0b00_0001);
    assert_eq!(enrx, 0b00_0001);
    assert_eq!(dynp, 0b00_0000);
    assert_eq!(width, [32, 0, 0, 0, 0, 0]);
    assert_eq!(addr, [0, 0, 0, 0]);
    assert_eq!(config.features(), 0b111);
    assert_eq!(config.secondary(), [0xC2, 0xC2, 0xC2, 0xC2, 0]);
}

#[test]
fn config_word_for_each_crc() {
    let mut config = sample();
    config.crc = None;
    assert_eq!(config.config(), 0b0001_0001);
    config.crc = Some(CRCBytes::OneByte);
    assert_eq!(config.config(), 0b0001_1001);
    config.crc = Some(CRCBytes::TwoBytes);
    assert_eq!(config.config(), 0b0001_1101);
}

#[test]
fn config_word_bits_four_and_zero_always_set() {
    for crc in [None, Some(CRCBytes::OneByte), Some(CRCBytes::TwoBytes)] {
        let mut config = sample();
        config.crc = crc;
        let word = config.config();
        assert_eq!(word & 0b0001_0001, 0b0001_0001);
        assert_eq!(word & 0b1000 != 0, crc.is_some());
        assert_eq!(word & 0b0100 != 0, crc == Some(CRCBytes::TwoBytes));
    }
}

#[test]
fn rfsetup_holds_gain_code_for_every_rate() {
    let gains = [(Gain::Min, 0b00u8), (Gain::Low, 0b01), (Gain::High, 0b10), (Gain::Max, 0b11)];
    let rates = [(DataRate::Low, 0b0010_0000u8), (DataRate::High, 0), (DataRate::Max, 0b0000_1000)];
    for (gain, code) in gains {
        for (rate, bits) in rates {
            let mut config = sample();
            config.gain = gain;
            config.datarate = rate;
            let word = config.rfsetup();
            assert_eq!((word >> 1) & 0b11, code);
            assert_eq!(word, (code << 1) | bits);
        }
    }
}

#[test]
fn rfsetup_exact_values() {
    let mut config = sample();
    config.gain = Gain::Low;
    config.datarate = DataRate::Low;
    assert_eq!(config.rfsetup(), 0b0010_0010);
    config.gain = Gain::High;
    config.datarate = DataRate::Max;
    assert_eq!(config.rfsetup(), 0b0000_1100);
    config.gain = Gain::Min;
    config.datarate = DataRate::High;
    assert_eq!(config.rfsetup(), 0);
}

#[test]
fn addrwidth_codes_are_one_two_three() {
    let mut config = sample();
    config.addrwidth = AddressWidth::ThreeBytes;
    assert_eq!(config.addrwidth(), 0b01);
    config.addrwidth = AddressWidth::FourBytes;
    assert_eq!(config.addrwidth(), 0b10);
    config.addrwidth = AddressWidth::FiveBytes;
    assert_eq!(config.addrwidth(), 0b11);
}

#[test]
fn secondary_takes_low_byte_from_slot_one() {
    let mut config = sample();
    config.subaddress = [1, 2, 3, 4];
    config.pipes[1] = Some(Pipe::dynamic(0x99, false));
    assert_eq!(config.secondary(), [1, 2, 3, 4, 0x99]);
    config.pipes[1] = None;
    assert_eq!(config.secondary(), [1, 2, 3, 4, 0]);
}

#[test]
fn pipeconfig_mixed_slots() {
    let mut config = sample();
    config.pipes = [
        Some(Pipe::dynamic(0x10, true)),
        None,
        Some(Pipe::sized(0x22, false, 8)),
        Some(Pipe::dynamic(0x33, false)),
        None,
        Some(Pipe::sized(0x55, true, 0)),
    ];
    let (enaa, enrx, dynp, width, addr) = config.pipeconfig();
    assert_eq!(enaa, 0b10_0001);
    assert_eq!(enrx, 0b10_1101);
    assert_eq!(dynp, 0b00_1001);
    assert_eq!(width, [0, 0, 8, 0, 0, 0]);
    assert_eq!(addr, [0x22, 0x33, 0, 0x55]);
}

#[test]
fn pipeconfig_every_subset_of_slots() {
    for subset in 0u8..64 {
        let mut config = sample();
        for i in 0..6usize {
            config.pipes[i] = if subset & (1 << i) != 0 {
                Some(if i % 2 == 0 {
                    Pipe::dynamic(0xA0 + i as u8, i % 3 == 0)
                } else {
                    Pipe::sized(0xA0 + i as u8, i % 3 == 0, 4 + i as u8)
                })
            } else {
                None
            };
        }
        let (enaa, enrx, dynp, width, addr) = config.pipeconfig();
        assert_eq!(enrx, subset);
        for i in 0..6usize {
            let present = subset & (1 << i) != 0;
            assert_eq!(enaa & (1 << i) != 0, present && i % 3 == 0);
            assert_eq!(dynp & (1 << i) != 0, present && i % 2 == 0);
            let expected = if present && i % 2 == 1 { 4 + i as u8 } else { 0 };
            assert_eq!(width[i], expected);
            if i >= 2 {
                assert_eq!(addr[i - 2], if present { 0xA0 + i as u8 } else { 0 });
            }
        }
        assert_eq!(enaa & 0b1100_0000, 0);
        assert_eq!(dynp & 0b1100_0000, 0);
    }
}

#[test]
fn pipeconfig_all_empty() {
    let mut config = sample();
    config.pipes = [None; 6];
    assert_eq!(config.pipeconfig(), (0, 0, 0, [0; 6], [0; 4]));
}

#[test]
fn pipe_builders() {
    assert_eq!(Pipe::dynamic(7, true), Pipe { sub: 7, autoack: true, width: None });
    assert_eq!(Pipe::sized(9, false, 16), Pipe { sub: 9, autoack: false, width: Some(16) });
}

#[test]
fn pipe_config_builders_and_setters() {
    let mut pipe = PipeConfig::empty();
    assert_eq!(pipe.sub, 0);
    assert!(!pipe.autoack);
    assert!(!pipe.enabled);
    assert_eq!(pipe.packetlen, None);
    pipe.enable();
    assert!(pipe.enabled);
    pipe.address(0x42);
    assert_eq!(pipe.sub, 0x42);
    pipe.autoack(true);
    assert!(pipe.autoack);
    pipe.packetlen(12);
    assert_eq!(pipe.packetlen, Some(12));
    pipe.dynlength();
    assert_eq!(pipe.packetlen, None);
    pipe.disable();
    assert!(!pipe.enabled);
    assert_eq!(pipe, PipeConfig::configured(0x42, true, false, None));
    let other = PipeConfig::configured(1, false, true, Some(5));
    assert_eq!(other.sub, 1);
    assert!(other.enabled);
    assert_eq!(other.packetlen, Some(5));
}
