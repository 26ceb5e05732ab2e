//! Base part of the driver: the transaction layer.
//!
//! The layer decides every byte that crosses the bus and reads every byte that
//! comes back. The host frames each exchange with chip-select: it drives the
//! line low, exchanges the bytes full duplex, and drives the line high again
//! on every path, also when the exchange fails.

use vstd::prelude::*;
use vstd::slice::slice_to_vec;
use crate::common::{BlockRegister, Command, Register, Status};

verus! {

/// The bit that turns a register address into a write opcode.
pub const WRITECMD: u8 = 0b0010_0000;

/// One chip-select framed exchange, by what it asks of the device.
#[derive(Clone, Copy, Debug, PartialEq, Eq)]
pub enum Exchange {
    /// A single opcode with no data.
    Command(Command),
    /// Read one register.
    ReadRegister(Register),
    /// Write one register.
    WriteRegister(Register, u8),
    /// Read one five-byte register.
    ReadBlock(BlockRegister),
    /// Write one five-byte register.
    WriteBlock(BlockRegister, [u8; 5]),
    /// Ask for the width of the frame at the head of the receive FIFO.
    PayloadWidth,
    /// Drain the frame at the head of the receive FIFO.
    Payload,
}

impl Exchange {
    /// The bytes that the exchange shifts out, in order.
    pub open spec fn wire(self) -> Seq<u8> {
        match self {
            Exchange::Command(cmd) => seq![cmd.opcode()],
            Exchange::ReadRegister(r) => seq![r.address(), 0u8],
            Exchange::WriteRegister(r, v) => seq![r.address() | WRITECMD, v],
            Exchange::ReadBlock(r) => seq![r.address(), 0u8, 0u8, 0u8, 0u8, 0u8],
            Exchange::WriteBlock(r, data) => seq![r.address() | WRITECMD] + data@,
            Exchange::PayloadWidth => seq![Command::RXPayloadWidth.opcode(), 0u8],
            Exchange::Payload => seq![Command::RXPayload.opcode()] + Seq::new(32, |i: int| 0u8),
        }
    }
}

/// What came back from one action of the host.
#[derive(Clone, Copy, Debug, PartialEq, Eq)]
pub struct Reply {
    /// Whether the bus failed during the exchange.
    pub failed: bool,
    /// The bytes shifted back, in order, with zeros behind them.
    pub raw: [u8; 33],
}

impl Reply {
    /// The reply to an exchange that the bus could not complete.
    pub fn failure() -> (reply: Reply)
        ensures
            reply.failed,
            reply.raw@ == Seq::new(33, |i: int| 0u8),
    {
        let reply = Reply { failed: true, raw: [0u8; 33] };
        assert(reply.raw@ =~= Seq::new(33, |i: int| 0u8));
        reply
    }

    /// The reply that holds the bytes shifted back, at most 33 of them, zero padded.
    pub fn received(bytes: &[u8]) -> (reply: Reply)
        ensures
            !reply.failed,
            forall|i: int|
                0 <= i < 33 ==> reply.raw@[i] == if i < bytes@.len() {
                    bytes@[i]
                } else {
                    0u8
                },
    {
        let mut raw: [u8; 33] = [0u8; 33];
        let mut i: usize = 0;
        while i < 33 && i < bytes.len()
            invariant
                i <= 33,
                forall|k: int|
                    0 <= k < 33 ==> raw@[k] == if k < i && k < bytes@.len() {
                        bytes@[k]
                    } else {
                        0u8
                    },
            decreases 33 - i,
        {
            raw[i] = bytes[i];
            i += 1;
        }
        Reply { failed: false, raw }
    }

    /// The status byte: the first byte of every reply.
    pub fn status(&self) -> (status: Status)
        ensures
            status == Status(self.raw@[0]),
    {
        Status(self.raw[0])
    }

    /// The data byte of a two-byte exchange.
    pub fn value(&self) -> (value: u8)
        ensures
            value == self.raw@[1],
    {
        self.raw[1]
    }

    /// The five data bytes of a block exchange.
    pub fn block(&self) -> (data: [u8; 5])
        ensures
            data@ == self.raw@.subrange(1, 6),
    {
        let data = [self.raw[1], self.raw[2], self.raw[3], self.raw[4], self.raw[5]];
        assert(data@ =~= self.raw@.subrange(1, 6));
        data
    }
}

/// How far the draining of one received frame has come.
#[derive(Clone, Copy, Debug, PartialEq, Eq, Structural)]
pub enum Drain {
    /// Nothing was asked yet.
    Start,
    /// The FIFO status was asked for.
    Fifo,
    /// The frame's width was asked for.
    Width,
    /// The frame itself, of the given declared length, was asked for.
    Data(u8),
}

/// The next move while draining one received frame.
#[derive(Clone, Copy, Debug, PartialEq, Eq)]
pub enum Drained {
    /// The receive FIFO holds no frame.
    Empty,
    /// Make this exchange and come back with its reply.
    More(Exchange, Drain),
    /// The declared length of the frame and the raw bytes of the drain exchange.
    Frame(u8, [u8; 33]),
}

/// The next move of a drain that stands at `at` and got `raw` back.
pub open spec fn drain_next(at: Drain, raw: [u8; 33]) -> Drained {
    match at {
        Drain::Start => Drained::More(Exchange::ReadRegister(Register::FifoStatus), Drain::Fifo),
        Drain::Fifo => if raw@[1] & 1 != 0 {
            Drained::Empty
        } else {
            Drained::More(Exchange::PayloadWidth, Drain::Width)
        },
        Drain::Width => Drained::More(Exchange::Payload, Drain::Data(raw@[1])),
        Drain::Data(len) => Drained::Frame(len, raw),
    }
}

/// What a whole drain comes to, given the replies to its three exchanges: the
/// FIFO status, the frame's width and the frame. The last two are not asked
/// for when the first reports the receive FIFO empty.
pub open spec fn drained(fifo: [u8; 33], width: [u8; 33], data: [u8; 33]) -> Option<(u8, [u8; 33])> {
    if fifo@[1] & 1 != 0 {
        None
    } else {
        Some((width@[1], data))
    }
}

/// A drain begins with a read of the FIFO status. When bit 0 of the value
/// read is set, the receive FIFO is empty and the drain ends with no frame.
/// Otherwise the drain asks for the frame's width and then for the frame, and
/// ends with the width that the device declared and the 33 bytes of the last
/// exchange: a status byte and a buffer of 32.
pub proof fn lemma_drain(fifo: [u8; 33], width: [u8; 33], data: [u8; 33])
    ensures
        drain_next(Drain::Start, fifo) == Drained::More(
            Exchange::ReadRegister(Register::FifoStatus),
            Drain::Fifo,
        ),
        drained(fifo, width, data) is None ==> drain_next(Drain::Fifo, fifo) == Drained::Empty,
        drained(fifo, width, data) is Some ==> {
            &&& drain_next(Drain::Fifo, fifo) == Drained::More(Exchange::PayloadWidth, Drain::Width)
            &&& drain_next(Drain::Width, width) == Drained::More(
                Exchange::Payload,
                Drain::Data(width@[1]),
            )
            &&& drain_next(Drain::Data(width@[1]), data) == Drained::Frame(width@[1], data)
            &&& drained(fifo, width, data) == Some((width@[1], data))
            &&& data@.subrange(1, 33).len() == 32
        },
        (fifo@[1] & 1 != 0) <==> drained(fifo, width, data) is None,
{
}

/// The transaction layer. It remembers the levels it last asked for on
/// chip-enable and on chip-select.
#[derive(Clone, Copy, Debug, PartialEq, Eq)]
pub struct BaseDriver {
    /// Whether chip-enable is asserted (driven high).
    ce: bool,
    /// Whether chip-select is asserted (driven low).
    cs: bool,
}

impl BaseDriver {
    /// Whether chip-enable is asserted.
    pub closed spec fn armed(self) -> bool {
        self.ce
    }

    /// Whether chip-select is asserted: an exchange is in flight.
    pub closed spec fn selected(self) -> bool {
        self.cs
    }

    /// Creates the base driver, with chip-enable and chip-select deasserted.
    pub fn new() -> (base: Self)
        ensures
            !base.armed(),
            !base.selected(),
    {
        BaseDriver { ce: false, cs: false }
    }

    /// Returns whether chip-enable is to be asserted (high).
    pub fn chip_enable(&self) -> (level: bool)
        ensures
            level == self.armed(),
    {
        self.ce
    }

    /// Returns whether chip-select is to be asserted (low).
    pub fn chip_select(&self) -> (level: bool)
        ensures
            level == self.selected(),
    {
        self.cs
    }

    /// Enables the CE signal.
    pub fn enable(&mut self)
        ensures
            final(self).armed(),
            final(self).selected() == old(self).selected(),
    {
        self.ce = true;
    }

    /// Disables the CE signal.
    pub fn disable(&mut self)
        ensures
            !final(self).armed(),
            final(self).selected() == old(self).selected(),
    {
        self.ce = false;
    }

    /// Opens an exchange: asserts chip-select and hands out the bytes to shift.
    pub fn select(&mut self, exchange: &Exchange) -> (write: Vec<u8>)
        ensures
            final(self).selected(),
            final(self).armed() == old(self).armed(),
            write@ == exchange.wire(),
    {
        self.cs = true;
        self.frame(exchange)
    }

    /// Closes an exchange: releases chip-select, whether the bus failed or
    /// not, and makes the reply of what was shifted back.
    pub fn release(&mut self, failed: bool, read: &[u8]) -> (reply: Reply)
        ensures
            !final(self).selected(),
            final(self).armed() == old(self).armed(),
            reply.failed == failed,
            forall|i: int|
                0 <= i < 33 ==> reply.raw@[i] == if !failed && i < read@.len() {
                    read@[i]
                } else {
                    0u8
                },
    {
        self.cs = false;
        if failed {
            Reply::failure()
        } else {
            Reply::received(read)
        }
    }

    /// The bytes that send a command to the device.
    pub fn command(&self, cmd: Command) -> (write: [u8; 1])
        ensures
            write@ == Exchange::Command(cmd).wire(),
    {
        let write = [cmd.code()];
        assert(write@ =~= Exchange::Command(cmd).wire());
        write
    }

    /// The bytes that read the given register.
    pub fn readreg(&self, r: Register) -> (write: [u8; 2])
        ensures
            write@ == Exchange::ReadRegister(r).wire(),
    {
        let write = [r.code(), 0];
        assert(write@ =~= Exchange::ReadRegister(r).wire());
        write
    }

    /// The bytes that write the given value to the register.
    pub fn writereg(&self, r: Register, v: u8) -> (write: [u8; 2])
        ensures
            write@ == Exchange::WriteRegister(r, v).wire(),
    {
        let write = [r.code() | WRITECMD, v];
        assert(write@ =~= Exchange::WriteRegister(r, v).wire());
        write
    }

    /// The bytes that read the given register block.
    pub fn readblock(&self, r: BlockRegister) -> (write: [u8; 6])
        ensures
            write@ == Exchange::ReadBlock(r).wire(),
    {
        let write = [r.code(), 0, 0, 0, 0, 0];
        assert(write@ =~= Exchange::ReadBlock(r).wire());
        write
    }

    /// The bytes that write the given data to the register block.
    pub fn writeblock(&self, r: BlockRegister, data: &[u8; 5]) -> (write: [u8; 6])
        ensures
            write@ == Exchange::WriteBlock(r, *data).wire(),
    {
        let write = [r.code() | WRITECMD, data[0], data[1], data[2], data[3], data[4]];
        assert(write@ =~= Exchange::WriteBlock(r, *data).wire());
        write
    }

    /// The bytes that read the RX payload width.
    pub fn rxpldwidth(&self) -> (write: [u8; 2])
        ensures
            write@ == Exchange::PayloadWidth.wire(),
    {
        let write = [Command::RXPayloadWidth.code(), 0];
        assert(write@ =~= Exchange::PayloadWidth.wire());
        write
    }

    /// The bytes that drain one frame, exchanged in place: the opcode, then 32 zeros.
    pub fn rxwords(&self) -> (words: [u8; 33])
        ensures
            words@ == Exchange::Payload.wire(),
    {
        let mut words: [u8; 33] = [0u8; 33];
        words[0] = Command::RXPayload.code();
        assert(words@ =~= Exchange::Payload.wire());
        words
    }

    /// The bytes of any exchange.
    pub fn frame(&self, exchange: &Exchange) -> (write: Vec<u8>)
        ensures
            write@ == exchange.wire(),
    {
        match exchange {
            Exchange::Command(cmd) => {
                let bytes = self.command(*cmd);
                slice_to_vec(&bytes)
            },
            Exchange::ReadRegister(r) => {
                let bytes = self.readreg(*r);
                slice_to_vec(&bytes)
            },
            Exchange::WriteRegister(r, v) => {
                let bytes = self.writereg(*r, *v);
                slice_to_vec(&bytes)
            },
            Exchange::ReadBlock(r) => {
                let bytes = self.readblock(*r);
                slice_to_vec(&bytes)
            },
            Exchange::WriteBlock(r, data) => {
                let bytes = self.writeblock(*r, data);
                slice_to_vec(&bytes)
            },
            Exchange::PayloadWidth => {
                let bytes = self.rxpldwidth();
                slice_to_vec(&bytes)
            },
            Exchange::Payload => {
                let bytes = self.rxwords();
                slice_to_vec(&bytes)
            },
        }
    }

    /// Reads in a RX payload, one exchange at a time. Called with where the
    /// drain stands and what came back last, it says what to do next: first
    /// read the FIFO status; stop if the receive FIFO is empty; else ask for
    /// the frame's width; then drain the frame.
    pub fn rxpayload(&self, at: Drain, raw: &[u8; 33]) -> (next: Drained)
        ensures
            next == drain_next(at, *raw),
    {
        match at {
            Drain::Start => Drained::More(Exchange::ReadRegister(Register::FifoStatus), Drain::Fifo),
            Drain::Fifo => {
                if (raw[1] & 1) != 0 {
                    Drained::Empty
                } else {
                    Drained::More(Exchange::PayloadWidth, Drain::Width)
                }
            },
            Drain::Width => Drained::More(Exchange::Payload, Drain::Data(raw[1])),
            Drain::Data(len) => Drained::Frame(len, *raw),
        }
    }
}

} // verus!
