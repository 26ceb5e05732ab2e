use nrf24_rx::base::{BaseDriver, Drain, Drained, Exchange, Reply, WRITECMD};
use nrf24_rx::common::{BlockRegister, Command, Register, Status};
use nrf24_rx::rx::Payload;

#[test]
fn command_opcodes() {
    assert_eq!(Command::TXFlush.code(), 0b1110_0001);
    assert_eq!(Command::RXFlush.code(), 0b1110_0010);
    assert_eq!(Command::TXReusePayload.code(), 0b1110_0011);
    assert_eq!(Command::RXPayloadWidth.code(), 0b0110_0000);
    assert_eq!(Command::RXPayload.code(), 0b0110_0001);
    assert_eq!(Command::Nop.code(), 0b1111_1111);
}

#[test]
fn register_addresses() {
    let all = [
        (Register::Config, 0x00u8),
        (Register::AutoAck, 0x01),
        (Register::RXEnable, 0x02),
        (Register::AddressWidth, 0x03),
        (Register::Retries, 0x04),
        (Register::RFChannel, 0x05),
        (Register::RFSetup, 0x06),
        (Register::Status, 0x07),
        (Register::Observe, 0x08),
        (Register::Detector, 0x09),
        (Register::RX2Address, 0x0C),
        (Register::RX3Address, 0x0D),
        (Register::RX4Address, 0x0E),
        (Register::RX5Address, 0x0F),
        (Register::RX0Width, 0x11),
        (Register::RX1Width, 0x12),
        (Register::RX2Width, 0x13),
        (Register::RX3Width, 0x14),
        (Register::RX4Width, 0x15),
        (Register::RX5Width, 0x16),
        (Register::FifoStatus, 0x17),
        (Register::DynamicPayload, 0x1C),
        (Register::Feature, 0x1D),
    ];
    for (register, address) in all {
        assert_eq!(register.code(), address);
    }
    assert_eq!(BlockRegister::RX0Address.code(), 0x0A);
    assert_eq!(BlockRegister::RX1Address.code(), 0x0B);
    assert_eq!(BlockRegister::TXAddress.code(), 0x10);
}

#[test]
fn single_register_frames() {
    let base = BaseDriver::new();
    assert_eq!(WRITECMD, 0b0010_0000);
    assert_eq!(base.readreg(Register::FifoStatus), [0x17, 0]);
    assert_eq!(base.writereg(Register::RFChannel, 40), [0x25, 40]);
    assert_eq!(base.writereg(Register::Feature, 7), [0x3D, 7]);
    assert_eq!(base.command(Command::RXFlush), [0xE2]);
    assert_eq!(base.rxpldwidth(), [0x60, 0]);
}

#[test]
fn block_register_frames() {
    let base = BaseDriver::new();
    assert_eq!(base.readblock(BlockRegister::RX1Address), [0x0B, 0, 0, 0, 0, 0]);
    assert_eq!(
        base.writeblock(BlockRegister::RX0Address, &[1, 2, 3, 4, 5]),
        [0x2A, 1, 2, 3, 4, 5]
    );
    assert_eq!(
        base.writeblock(BlockRegister::TXAddress, &[9, 8, 7, 6, 5]),
        [0x30, 9, 8, 7, 6, 5]
    );
}

#[test]
fn drain_frame_is_opcode_and_32_zeros() {
    let base = BaseDriver::new();
    let words = base.rxwords();
    assert_eq!(words.len(), 33);
    assert_eq!(words[0], 0b0110_0001);
    assert!(words[1..].iter().all(|b| *b == 0));
}

#[test]
fn frame_of_each_exchange() {
    let base = BaseDriver::new();
    assert_eq!(base.frame(&Exchange::Command(Command::Nop)), vec![0xFF]);
    assert_eq!(base.frame(&Exchange::ReadRegister(Register::Status)), vec![0x07, 0]);
    assert_eq!(base.frame(&Exchange::WriteRegister(Register::Status, 0x70)), vec![0x27, 0x70]);
    assert_eq!(
        base.frame(&Exchange::ReadBlock(BlockRegister::RX0Address)),
        vec![0x0A, 0, 0, 0, 0, 0]
    );
    assert_eq!(
        base.frame(&Exchange::WriteBlock(BlockRegister::RX1Address, [5, 4, 3, 2, 1])),
        vec![0x2B, 5, 4, 3, 2, 1]
    );
    assert_eq!(base.frame(&Exchange::PayloadWidth), vec![0x60, 0]);
    let drain = base.frame(&Exchange::Payload);
    assert_eq!(drain.len(), 33);
    assert_eq!(drain[0], 0x61);
    assert!(drain[1..].iter().all(|b| *b == 0));
}

#[test]
fn chip_enable_level_follows_enable_and_disable() {
    let mut base = BaseDriver::new();
    assert!(!base.chip_enable());
    base.enable();
    assert!(base.chip_enable());
    base.enable();
    assert!(base.chip_enable());
    base.disable();
    assert!(!base.chip_enable());
}

#[test]
fn reply_pads_with_zeros() {
    let reply = Reply::received(&[0x0E, 0x11]);
    assert!(!reply.failed);
    assert_eq!(reply.raw[0], 0x0E);
    assert_eq!(reply.raw[1], 0x11);
    assert!(reply.raw[2..].iter().all(|b| *b == 0));
    assert_eq!(reply.status(), Status(0x0E));
    assert_eq!(reply.status().raw(), 0x0E);
    assert_eq!(reply.value(), 0x11);

    let empty = Reply::received(&[]);
    assert!(!empty.failed);
    assert_eq!(empty.raw, [0u8; 33]);

    let long = [7u8; 40];
    let cut = Reply::received(&long);
    assert_eq!(cut.raw, [7u8; 33]);
}

#[test]
fn reply_block_is_bytes_one_to_five() {
    let reply = Reply::received(&[0x0E, 1, 2, 3, 4, 5]);
    assert_eq!(reply.block(), [1, 2, 3, 4, 5]);
}

#[test]
fn reply_failure_is_marked() {
    let reply = Reply::failure();
    assert!(reply.failed);
    assert_eq!(reply.raw, [0u8; 33]);
}

#[test]
fn drain_starts_with_fifo_status() {
    let base = BaseDriver::new();
    assert_eq!(
        base.rxpayload(Drain::Start, &[0xAA; 33]),
        Drained::More(Exchange::ReadRegister(Register::FifoStatus), Drain::Fifo)
    );
}

#[test]
fn drain_reports_no_frame_when_fifo_empty() {
    let base = BaseDriver::new();
    let mut raw = [0u8; 33];
    raw[1] = 0b0000_0001;
    assert_eq!(base.rxpayload(Drain::Fifo, &raw), Drained::Empty);
    raw[1] = 0b0001_0001;
    assert_eq!(base.rxpayload(Drain::Fifo, &raw), Drained::Empty);
}

#[test]
fn drain_asks_width_then_frame() {
    let base = BaseDriver::new();
    let mut raw = [0u8; 33];
    raw[1] = 0b0001_0000;
    assert_eq!(
        base.rxpayload(Drain::Fifo, &raw),
        Drained::More(Exchange::PayloadWidth, Drain::Width)
    );
    raw[1] = 17;
    assert_eq!(
        base.rxpayload(Drain::Width, &raw),
        Drained::More(Exchange::Payload, Drain::Data(17))
    );
    let mut data = [0u8; 33];
    for (i, byte) in data.iter_mut().enumerate() {
        *byte = i as u8;
    }
    assert_eq!(base.rxpayload(Drain::Data(17), &data), Drained::Frame(17, data));
}

#[test]
fn payload_view_is_first_len_bytes() {
    let mut raw = [0u8; 33];
    for (i, byte) in raw.iter_mut().enumerate() {
        *byte = 100 + i as u8;
    }
    let payload = Payload::new(3, &raw);
    assert_eq!(payload.len(), 3);
    assert_eq!(payload.status, Status(100));
    assert_eq!(payload.view(), &[101, 102, 103]);

    let full = Payload::new(32, &raw);
    assert_eq!(full.view().len(), 32);
    assert_eq!(full.view()[31], 132);

    let none = Payload::new(0, &raw);
    assert!(none.view().is_empty());
}

#[test]
fn select_and_release_frame_an_exchange() {
    let mut base = BaseDriver::new();
    assert!(!base.chip_select());
    let write = base.select(&Exchange::WriteRegister(Register::RFSetup, 6));
    assert_eq!(write, vec![0x26, 6]);
    assert!(base.chip_select());
    let reply = base.release(false, &[0x0E, 0]);
    assert!(!base.chip_select());
    assert!(!reply.failed);
    assert_eq!(reply.status(), Status(0x0E));
}

#[test]
fn release_after_failure_still_deselects() {
    let mut base = BaseDriver::new();
    base.enable();
    let write = base.select(&Exchange::Command(Command::RXFlush));
    assert_eq!(write, vec![0xE2]);
    assert!(base.chip_select());
    let reply = base.release(true, &[0xFF]);
    assert!(reply.failed);
    assert_eq!(reply.raw, [0u8; 33]);
    assert!(!base.chip_select());
    assert!(base.chip_enable());
}
