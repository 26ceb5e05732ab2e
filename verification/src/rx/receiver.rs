//! The receive-side lifecycle.
//!
//! The receiver performs no input or output itself. An operation begins with a
//! call that hands back the first [`Action`]; the host carries the action out
//! and hands its [`Reply`] to [`Receiver::resume`], which answers with the next
//! action, until the action is [`Action::Done`].

use vstd::prelude::*;
use embassy_time::Duration;
use crate::base::{drain_next, BaseDriver, Drain, Drained, Exchange, Reply};
use crate::common::{BlockRegister, Command, Register, State, Status};
use super::config::Config;
use super::payload::Payload;

verus! {

/// The power-up bit of the CONFIG register.
pub const POWER_UP: u8 = 0b0000_0010;

/// The three interrupt flags of the STATUS register; writing them clears them.
pub const CLEAR_IRQ: u8 = 0b0111_0000;

/// The span of time of `embassy_time`, in ticks of its clock. The receiver
/// reads nothing of such a value: it carries the caller's time limit to the
/// wait, where the host applies it.
#[verifier::external_type_specification]
#[verifier::external_body]
pub struct ExDuration(embassy_time::Duration);

/// What an operation in flight is heading for.
#[derive(Clone, Copy, Debug, PartialEq, Eq)]
pub enum Goal {
    /// Powering the device up.
    PowerUp,
    /// Listening.
    Listen,
    /// Receiving one frame; the flag says whether to stop listening after it,
    /// the span how long to wait for it.
    Receive(bool, Duration),
}

/// Where an operation in flight stands: the reply that the receiver waits for.
#[derive(Clone, Copy, Debug, PartialEq, Eq)]
pub enum Phase {
    /// No operation is in flight.
    Idle,
    /// The write of the given position in the set-up sequence.
    Setup(u8),
    /// The write of the RF channel.
    Channel,
    /// The read of the CONFIG register.
    PowerRead(Goal),
    /// The write of the CONFIG register with the power-up bit.
    PowerWrite(Goal),
    /// The write that clears the interrupt flags before listening.
    Clear(Goal),
    /// The flush of the receive FIFO.
    Flush(Goal),
    /// The assertion of chip-enable.
    Arm(Goal),
    /// The wait for the interrupt or the deadline.
    Await(bool),
    /// The release of chip-enable after the wait.
    Disarm(bool),
    /// An exchange of the drain, which stands at the given point.
    Drain(bool, Drain),
    /// The write that clears the interrupt flags after a frame.
    Rearm,
    /// The release of chip-enable after a frame.
    Halt,
    /// The release of chip-enable that ends listening.
    Release,
}

/// How an operation ended.
#[derive(Clone, Copy, Debug, PartialEq, Eq)]
pub enum Outcome {
    /// The operation is complete and has nothing to report.
    Ready,
    /// The operation is complete; this is the status the device sent last.
    Status(Status),
    /// The receive is complete, with the frame if there was one.
    Frame(Option<Payload>),
    /// The bus failed; the operation was abandoned where it stood.
    Failed,
}

/// What the host is to do next.
#[derive(Clone, Copy, Debug, PartialEq, Eq)]
pub enum Action {
    /// Make this exchange, framed by chip-select.
    Transfer(Exchange),
    /// Drive chip-enable to this level.
    ChipEnable(bool),
    /// Suspend until the interrupt line goes low or this span of time has passed.
    Wait(Duration),
    /// Nothing: the operation has ended.
    Done(Outcome),
}

/// The register written at position `n` of the set-up sequence, for `n` below 18.
pub open spec fn setup_register(n: int) -> Register {
    if n == 0 {
        Register::Config
    } else if n == 1 {
        Register::AutoAck
    } else if n == 2 {
        Register::RXEnable
    } else if n == 3 {
        Register::AddressWidth
    } else if n == 4 {
        Register::RFChannel
    } else if n == 5 {
        Register::RFSetup
    } else if n == 6 {
        Register::DynamicPayload
    } else if n == 7 {
        Register::Feature
    } else if n == 8 {
        Register::RX0Width
    } else if n == 9 {
        Register::RX1Width
    } else if n == 10 {
        Register::RX2Width
    } else if n == 11 {
        Register::RX3Width
    } else if n == 12 {
        Register::RX4Width
    } else if n == 13 {
        Register::RX5Width
    } else if n == 14 {
        Register::RX2Address
    } else if n == 15 {
        Register::RX3Address
    } else if n == 16 {
        Register::RX4Address
    } else {
        Register::RX5Address
    }
}

/// The value written at position `n` of the set-up sequence, for `n` below 18.
pub open spec fn setup_value(config: Config, n: int) -> u8 {
    if n == 0 {
        config.config_word()
    } else if n == 1 {
        config.pipe_tables().enaa
    } else if n == 2 {
        config.pipe_tables().enrx
    } else if n == 3 {
        super::config::width_code(config.addrwidth)
    } else if n == 4 {
        config.channel
    } else if n == 5 {
        config.rfsetup_word()
    } else if n == 6 {
        config.pipe_tables().dynp
    } else if n == 7 {
        0b111
    } else if n < 14 {
        config.pipe_tables().width[n - 8]
    } else {
        config.pipe_tables().addr[n - 14]
    }
}

/// Whether `action` is the write at position `n` of the set-up sequence: 18
/// single registers in a fixed order, then the primary address, then the
/// secondary address.
pub open spec fn is_setup_write(config: Config, n: int, action: Action) -> bool {
    if n < 18 {
        action == Action::Transfer(
            Exchange::WriteRegister(setup_register(n), setup_value(config, n)),
        )
    } else if n == 18 {
        action matches Action::Transfer(Exchange::WriteBlock(r, data))
            && r == BlockRegister::RX0Address && data@ == config.address@
    } else {
        action matches Action::Transfer(Exchange::WriteBlock(r, data))
            && r == BlockRegister::RX1Address && data@ == config.secondary_bytes()
    }
}

/// The receiver as the contracts see it.
pub struct Machine {
    /// The configuration.
    pub config: Config,
    /// The tracked lifecycle state.
    pub state: State,
    /// Whether chip-enable is asserted.
    pub armed: bool,
    /// Where the operation in flight stands.
    pub phase: Phase,
    /// The frame that a receive has drained and not yet handed out.
    pub held: Option<Payload>,
}

impl Machine {
    /// The same receiver with no operation in flight.
    pub open spec fn rests(self) -> Machine {
        Machine { phase: Phase::Idle, held: None, ..self }
    }

    /// The same receiver waiting in `phase`, holding no frame.
    pub open spec fn at(self, phase: Phase) -> Machine {
        Machine { phase, held: None, ..self }
    }

    /// How an operation towards `goal` begins: the receiver it leaves and the
    /// first action. A powered-down device is powered up first, a device in
    /// standby is armed, and a device that is past standby needs neither.
    pub open spec fn begins(self, goal: Goal) -> (Machine, Action) {
        match self.state {
            State::PowerDown => (
                self.at(Phase::PowerRead(goal)),
                Action::Transfer(Exchange::ReadRegister(Register::Config)),
            ),
            State::Standby => (
                self.at(Phase::Clear(goal)),
                Action::Transfer(Exchange::WriteRegister(Register::Status, CLEAR_IRQ)),
            ),
            _ => match goal {
                Goal::Receive(stop, limit) => (self.at(Phase::Await(stop)), Action::Wait(limit)),
                _ => (self.rests(), Action::Done(Outcome::Ready)),
            },
        }
    }

    /// How the receiver looks once it has asked to end listening: chip-enable
    /// is released, the tracked state is as it was.
    pub open spec fn released(self) -> Machine {
        Machine { armed: false, phase: Phase::Release, held: None, ..self }
    }

    /// Whether a drain that stands at `at` and got `raw` back leaves the
    /// receiver as `next` and asks for `action`.
    pub open spec fn drains(
        self,
        stop: bool,
        at: Drain,
        raw: [u8; 33],
        next: Machine,
        action: Action,
    ) -> bool {
        match drain_next(at, raw) {
            Drained::Empty => next == self.rests() && action == Action::Done(Outcome::Frame(None)),
            Drained::More(exchange, then) => next == self.at(Phase::Drain(stop, then)) && action
                == Action::Transfer(exchange),
            Drained::Frame(len, bytes) => {
                &&& next.held matches Some(payload) && payload.declared() == len && payload.seen()
                    == Status(bytes@[0]) && payload.bytes() == bytes@.subrange(1, 33)
                &&& if stop {
                    next == (Machine { armed: false, phase: Phase::Halt, held: next.held, ..self })
                        && action == Action::ChipEnable(false)
                } else {
                    next == (Machine { phase: Phase::Rearm, held: next.held, ..self }) && action
                        == Action::Transfer(Exchange::WriteRegister(Register::Status, CLEAR_IRQ))
                }
            },
        }
    }

    /// Whether the receiver, handed `reply`, becomes `next` and asks for `action`.
    ///
    /// A failed exchange ends the operation with [`Outcome::Failed`]; nothing that
    /// was written or tracked before it is taken back. The reply to a
    /// chip-enable or wait action carries nothing and is not read.
    pub open spec fn steps_to(self, reply: Reply, next: Machine, action: Action) -> bool {
        match self.phase {
            Phase::Idle => next == self.rests() && action == Action::Done(Outcome::Ready),
            Phase::Setup(n) => if reply.failed {
                next == self.rests() && action == Action::Done(Outcome::Failed)
            } else if n >= 19 {
                next == self.rests() && action == Action::Done(Outcome::Ready)
            } else {
                next == self.at(Phase::Setup((n + 1) as u8)) && is_setup_write(
                    self.config,
                    n + 1,
                    action,
                )
            },
            Phase::Channel => next == self.rests() && if reply.failed {
                action == Action::Done(Outcome::Failed)
            } else {
                action == Action::Done(Outcome::Status(Status(reply.raw@[0])))
            },
            Phase::PowerRead(goal) => if reply.failed {
                next == self.rests() && action == Action::Done(Outcome::Failed)
            } else {
                next == self.at(Phase::PowerWrite(goal)) && action == Action::Transfer(
                    Exchange::WriteRegister(Register::Config, reply.raw@[1] | POWER_UP),
                )
            },
            Phase::PowerWrite(goal) => if reply.failed {
                next == self.rests() && action == Action::Done(Outcome::Failed)
            } else if goal == Goal::PowerUp {
                next == self.rests() && action == Action::Done(
                    Outcome::Status(Status(reply.raw@[0])),
                )
            } else {
                next == (Machine { state: State::Standby, ..self.at(Phase::Clear(goal)) })
                    && action == Action::Transfer(
                    Exchange::WriteRegister(Register::Status, CLEAR_IRQ),
                )
            },
            Phase::Clear(goal) => if reply.failed {
                next == self.rests() && action == Action::Done(Outcome::Failed)
            } else {
                next == self.at(Phase::Flush(goal)) && action == Action::Transfer(
                    Exchange::Command(Command::RXFlush),
                )
            },
            Phase::Flush(goal) => if reply.failed {
                next == self.rests() && action == Action::Done(Outcome::Failed)
            } else {
                next == (Machine {
                    state: State::Listening,
                    armed: true,
                    ..self.at(Phase::Arm(goal))
                }) && action == Action::ChipEnable(true)
            },
            Phase::Arm(goal) => match goal {
                Goal::Receive(stop, limit) => next == self.at(Phase::Await(stop)) && action
                    == Action::Wait(limit),
                _ => next == self.rests() && action == Action::Done(Outcome::Ready),
            },
            Phase::Await(stop) => next == (Machine { armed: false, ..self.at(Phase::Disarm(stop)) })
                && action == Action::ChipEnable(false),
            Phase::Disarm(stop) => self.drains(stop, Drain::Start, reply.raw, next, action),
            Phase::Drain(stop, at) => if reply.failed {
                next == self.rests() && action == Action::Done(Outcome::Failed)
            } else {
                self.drains(stop, at, reply.raw, next, action)
            },
            Phase::Rearm => next == self.rests() && if reply.failed {
                action == Action::Done(Outcome::Failed)
            } else {
                action == Action::Done(Outcome::Frame(self.held))
            },
            Phase::Halt => next == self.rests() && action == Action::Done(
                Outcome::Frame(self.held),
            ),
            Phase::Release => next == self.rests() && action == Action::Done(Outcome::Ready),
        }
    }
}

/// The receive side of the driver.
pub struct Receiver {
    /// Basic device driver.
    pub base: BaseDriver,
    /// Configuration of the receiver.
    config: Config,
    /// Power State of the device.
    state: State,
    /// Where the operation in flight stands.
    phase: Phase,
    /// The frame drained and not yet handed out.
    held: Option<Payload>,
}

impl View for Receiver {
    type V = Machine;

    closed spec fn view(&self) -> Machine {
        Machine {
            config: self.config,
            state: self.state,
            armed: self.base.armed(),
            phase: self.phase,
            held: self.held,
        }
    }
}

impl Receiver {
    /// The write at position `n` of the set-up sequence.
    fn setup_write(config: &Config, n: u8) -> (action: Action)
        requires
            n < 20,
        ensures
            is_setup_write(*config, n as int, action),
    {
        let (rxautoack, rxenable, dynpd, width, addr) = config.pipeconfig();
        if n == 18 {
            Action::Transfer(Exchange::WriteBlock(BlockRegister::RX0Address, config.address))
        } else if n == 19 {
            Action::Transfer(Exchange::WriteBlock(BlockRegister::RX1Address, config.secondary()))
        } else {
            let (r, v): (Register, u8) = if n == 0 {
                (Register::Config, config.config())
            } else if n == 1 {
                (Register::AutoAck, rxautoack)
            } else if n == 2 {
                (Register::RXEnable, rxenable)
            } else if n == 3 {
                (Register::AddressWidth, config.addrwidth())
            } else if n == 4 {
                (Register::RFChannel, config.channel)
            } else if n == 5 {
                (Register::RFSetup, config.rfsetup())
            } else if n == 6 {
                (Register::DynamicPayload, dynpd)
            } else if n == 7 {
                (Register::Feature, config.features())
            } else if n == 8 {
                (Register::RX0Width, width[0])
            } else if n == 9 {
                (Register::RX1Width, width[1])
            } else if n == 10 {
                (Register::RX2Width, width[2])
            } else if n == 11 {
                (Register::RX3Width, width[3])
            } else if n == 12 {
                (Register::RX4Width, width[4])
            } else if n == 13 {
                (Register::RX5Width, width[5])
            } else if n == 14 {
                (Register::RX2Address, addr[0])
            } else if n == 15 {
                (Register::RX3Address, addr[1])
            } else if n == 16 {
                (Register::RX4Address, addr[2])
            } else {
                (Register::RX5Address, addr[3])
            };
            Action::Transfer(Exchange::WriteRegister(r, v))
        }
    }

    /// Creates a new receiver with the given configuration and begins to set
    /// the device up. The tracked state is `PowerDown`, whatever the device's
    /// own state is.
    pub fn new(base: BaseDriver, config: Config) -> (out: (Self, Action))
        ensures
            out.0@ == (Machine {
                config,
                state: State::PowerDown,
                armed: base.armed(),
                phase: Phase::Setup(0),
                held: None,
            }),
            is_setup_write(config, 0, out.1),
    {
        let action = Self::setup_write(&config, 0);
        let device = Receiver {
            base,
            config,
            state: State::PowerDown,
            phase: Phase::Setup(0),
            held: None,
        };
        (device, action)
    }

    /// Returns the tracked lifecycle state.
    pub fn state(&self) -> (state: State)
        ensures
            state == self@.state,
    {
        self.state
    }

    /// Returns the configuration.
    pub fn config(&self) -> (config: Config)
        ensures
            config == self@.config,
    {
        self.config
    }

    /// Returns where the operation in flight stands.
    pub fn phase(&self) -> (phase: Phase)
        ensures
            phase == self@.phase,
    {
        self.phase
    }

    /// Sets the RF channel used: records it and begins the write of the
    /// RF-channel register. The channel is not held against the legal band.
    pub fn rfchannel(&mut self, channel: u8) -> (action: Action)
        ensures
            final(self)@ == (Machine {
                config: Config { channel, ..old(self)@.config },
                ..old(self)@.at(Phase::Channel)
            }),
            action == Action::Transfer(Exchange::WriteRegister(Register::RFChannel, channel)),
    {
        self.config.channel = channel;
        self.phase = Phase::Channel;
        self.held = None;
        Action::Transfer(Exchange::WriteRegister(Register::RFChannel, channel))
    }

    /// Begins to power the device up: a read of the CONFIG register, which a
    /// write with the power-up bit follows. The tracked state does not change.
    pub fn powerup(&mut self) -> (action: Action)
        ensures
            final(self)@ == old(self)@.at(Phase::PowerRead(Goal::PowerUp)),
            action == Action::Transfer(Exchange::ReadRegister(Register::Config)),
    {
        self.phase = Phase::PowerRead(Goal::PowerUp);
        self.held = None;
        Action::Transfer(Exchange::ReadRegister(Register::Config))
    }

    /// Begins an operation towards `goal`.
    fn begin(&mut self, goal: Goal) -> (action: Action)
        ensures
            (final(self)@, action) == old(self)@.begins(goal),
    {
        self.held = None;
        match self.state {
            State::PowerDown => {
                self.phase = Phase::PowerRead(goal);
                Action::Transfer(Exchange::ReadRegister(Register::Config))
            },
            State::Standby => {
                self.phase = Phase::Clear(goal);
                Action::Transfer(Exchange::WriteRegister(Register::Status, CLEAR_IRQ))
            },
            _ => match goal {
                Goal::Receive(stop, limit) => {
                    self.phase = Phase::Await(stop);
                    Action::Wait(limit)
                },
                _ => {
                    self.phase = Phase::Idle;
                    Action::Done(Outcome::Ready)
                },
            },
        }
    }

    /// Sets the device up and starts listening for incoming packets.
    pub fn listen(&mut self) -> (action: Action)
        ensures
            (final(self)@, action) == old(self)@.begins(Goal::Listen),
    {
        self.begin(Goal::Listen)
    }

    /// Listens for a payload in one of the active pipes, for at most the
    /// given time. The operation ends with [`Outcome::Frame`]: the frame, or
    /// none when the receive FIFO was empty after the wait.
    pub fn recv(&mut self, stop: bool, timeout: Duration) -> (action: Action)
        ensures
            (final(self)@, action) == old(self)@.begins(Goal::Receive(stop, timeout)),
    {
        self.begin(Goal::Receive(stop, timeout))
    }

    /// Stops the device listening for packets. The tracked state stays as it is.
    pub fn unlisten(&mut self) -> (action: Action)
        ensures
            final(self)@ == old(self)@.released(),
            action == Action::ChipEnable(false),
    {
        self.base.disable();
        self.phase = Phase::Release;
        self.held = None;
        Action::ChipEnable(false)
    }

    /// Ends the operation in flight.
    fn finish(&mut self, outcome: Outcome) -> (action: Action)
        ensures
            final(self)@ == old(self)@.rests(),
            action == Action::Done(outcome),
    {
        self.phase = Phase::Idle;
        self.held = None;
        Action::Done(outcome)
    }

    /// Moves the drain on by one exchange.
    fn drain(&mut self, stop: bool, at: Drain, raw: &[u8; 33]) -> (action: Action)
        requires
            old(self)@.held is None,
        ensures
            old(self)@.drains(stop, at, *raw, final(self)@, action),
    {
        match self.base.rxpayload(at, raw) {
            Drained::Empty => self.finish(Outcome::Frame(None)),
            Drained::More(exchange, then) => {
                self.phase = Phase::Drain(stop, then);
                Action::Transfer(exchange)
            },
            Drained::Frame(len, bytes) => {
                self.held = Some(Payload::new(len, &bytes));
                if stop {
                    self.base.disable();
                    self.phase = Phase::Halt;
                    Action::ChipEnable(false)
                } else {
                    self.phase = Phase::Rearm;
                    Action::Transfer(Exchange::WriteRegister(Register::Status, CLEAR_IRQ))
                }
            },
        }
    }

    /// Takes the reply to the last action and answers with the next one.
    pub fn resume(&mut self, reply: &Reply) -> (action: Action)
        ensures
            old(self)@.steps_to(*reply, final(self)@, action),
    {
        let phase = self.phase;
        let held = self.held;
        self.held = None;
        match phase {
            Phase::Idle => self.finish(Outcome::Ready),
            Phase::Setup(n) => {
                if reply.failed {
                    self.finish(Outcome::Failed)
                } else if n >= 19 {
                    self.finish(Outcome::Ready)
                } else {
                    self.phase = Phase::Setup(n + 1);
                    Self::setup_write(&self.config, n + 1)
                }
            },
            Phase::Channel => {
                if reply.failed {
                    self.finish(Outcome::Failed)
                } else {
                    self.finish(Outcome::Status(reply.status()))
                }
            },
            Phase::PowerRead(goal) => {
                if reply.failed {
                    self.finish(Outcome::Failed)
                } else {
                    self.phase = Phase::PowerWrite(goal);
                    Action::Transfer(
                        Exchange::WriteRegister(Register::Config, reply.value() | POWER_UP),
                    )
                }
            },
            Phase::PowerWrite(goal) => {
                if reply.failed {
                    self.finish(Outcome::Failed)
                } else {
                    match goal {
                        Goal::PowerUp => self.finish(Outcome::Status(reply.status())),
                        _ => {
                            self.state = State::Standby;
                            self.phase = Phase::Clear(goal);
                            Action::Transfer(Exchange::WriteRegister(Register::Status, CLEAR_IRQ))
                        },
                    }
                }
            },
            Phase::Clear(goal) => {
                if reply.failed {
                    self.finish(Outcome::Failed)
                } else {
                    self.phase = Phase::Flush(goal);
                    Action::Transfer(Exchange::Command(Command::RXFlush))
                }
            },
            Phase::Flush(goal) => {
                if reply.failed {
                    self.finish(Outcome::Failed)
                } else {
                    self.base.enable();
                    self.state = State::Listening;
                    self.phase = Phase::Arm(goal);
                    Action::ChipEnable(true)
                }
            },
            Phase::Arm(goal) => match goal {
                Goal::Receive(stop, limit) => {
                    self.phase = Phase::Await(stop);
                    Action::Wait(limit)
                },
                _ => self.finish(Outcome::Ready),
            },
            Phase::Await(stop) => {
                self.base.disable();
                self.phase = Phase::Disarm(stop);
                Action::ChipEnable(false)
            },
            Phase::Disarm(stop) => self.drain(stop, Drain::Start, &reply.raw),
            Phase::Drain(stop, at) => {
                if reply.failed {
                    self.finish(Outcome::Failed)
                } else {
                    self.drain(stop, at, &reply.raw)
                }
            },
            Phase::Rearm => {
                if reply.failed {
                    self.finish(Outcome::Failed)
                } else {
                    self.finish(Outcome::Frame(held))
                }
            },
            Phase::Halt => self.finish(Outcome::Frame(held)),
            Phase::Release => self.finish(Outcome::Ready),
        }
    }
}

} // verus!
