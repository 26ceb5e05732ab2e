//! What holds of the lifecycle, whatever the device answers.

use vstd::prelude::*;
use embassy_time::Duration;
use crate::base::{Exchange, Reply};
use crate::common::{Command, Register, State};
use super::receiver::{Action, Goal, Machine, Outcome, Phase, CLEAR_IRQ, POWER_UP};

verus! {

/// The place of a state in the lifecycle.
pub open spec fn rank(state: State) -> nat {
    match state {
        State::PowerDown => 0,
        State::Standby => 1,
        State::Listening => 2,
        State::Transmitting => 3,
    }
}

/// Whether the phase fits the tracked state: an operation that is powering
/// the device up on its way to listening found it powered down, and one that
/// is arming it found it in standby.
pub open spec fn coherent(receiver: Machine) -> bool {
    match receiver.phase {
        Phase::PowerRead(goal) => goal != Goal::PowerUp ==> receiver.state == State::PowerDown,
        Phase::PowerWrite(goal) => goal != Goal::PowerUp ==> receiver.state == State::PowerDown,
        Phase::Clear(_) => receiver.state == State::Standby,
        Phase::Flush(_) => receiver.state == State::Standby,
        _ => true,
    }
}

/// Every operation begins with a phase that fits the tracked state, and none
/// changes the tracked state by beginning.
pub proof fn lemma_begin_is_coherent(receiver: Machine, goal: Goal)
    ensures
        coherent(receiver.begins(goal).0),
        receiver.begins(goal).0.state == receiver.state,
        coherent(receiver.at(Phase::Setup(0))),
        coherent(receiver.at(Phase::Channel)),
        coherent(receiver.at(Phase::PowerRead(Goal::PowerUp))),
        coherent(receiver.released()),
{
}

/// The tracked state never walks backward: whatever the reply, a step leaves
/// it where it was or moves it forward, keeps the phase fitting, and leaves
/// the configuration alone.
pub proof fn lemma_state_only_advances(
    receiver: Machine,
    reply: Reply,
    next: Machine,
    action: Action,
)
    requires
        coherent(receiver),
        receiver.steps_to(reply, next, action),
    ensures
        coherent(next),
        rank(next.state) >= rank(receiver.state),
        next.config == receiver.config,
{
}

/// From `PowerDown`, one call to listen, carried through while the bus does
/// not fail, asks for exactly four exchanges and one change of chip-enable:
/// read CONFIG, write it back with the power-up bit, clear the interrupt
/// flags, flush the receive FIFO, assert chip-enable. It ends with the
/// tracked state `Listening`, chip-enable asserted and nothing in flight.
pub proof fn lemma_listen_from_power_down(
    start: Machine,
    replies: Seq<Reply>,
    stops: Seq<Machine>,
    actions: Seq<Action>,
)
    requires
        start.state == State::PowerDown,
        replies.len() == 5,
        stops.len() == 6,
        actions.len() == 6,
        (stops[0], actions[0]) == start.begins(Goal::Listen),
        forall|i: int| 0 <= i < 4 ==> !(#[trigger] replies[i]).failed,
        forall|i: int|
            0 <= i < 5 ==> (#[trigger] stops[i]).steps_to(replies[i], stops[i + 1], actions[i + 1]),
    ensures
        actions[0] == Action::Transfer(Exchange::ReadRegister(Register::Config)),
        actions[1] == Action::Transfer(
            Exchange::WriteRegister(Register::Config, replies[0].raw@[1] | POWER_UP),
        ),
        actions[2] == Action::Transfer(Exchange::WriteRegister(Register::Status, CLEAR_IRQ)),
        actions[3] == Action::Transfer(Exchange::Command(Command::RXFlush)),
        actions[4] == Action::ChipEnable(true),
        actions[5] == Action::Done(Outcome::Ready),
        stops[5] == (Machine { state: State::Listening, armed: true, ..start.rests() }),
{
    assert(!replies[0].failed && !replies[1].failed && !replies[2].failed && !replies[3].failed);
    assert(stops[0].steps_to(replies[0], stops[1], actions[1]));
    assert(stops[1].steps_to(replies[1], stops[2], actions[2]));
    assert(stops[2].steps_to(replies[2], stops[3], actions[3]));
    assert(stops[3].steps_to(replies[3], stops[4], actions[4]));
    assert(stops[4].steps_to(replies[4], stops[5], actions[5]));
}

/// A call to listen on a receiver that is already `Listening` is over at
/// once: it asks for no exchange and no change of chip-enable, and the
/// tracked state, the configuration and chip-enable stay as they are.
pub proof fn lemma_listen_when_listening(receiver: Machine)
    requires
        receiver.state == State::Listening,
    ensures
        receiver.begins(Goal::Listen) == (receiver.rests(), Action::Done(Outcome::Ready)),
        receiver.rests().state == State::Listening,
        receiver.rests().armed == receiver.armed,
        receiver.rests().config == receiver.config,
{
}

/// Ending the listening releases chip-enable and leaves the tracked state as
/// it was: after a listen it is still `Listening`. The reply to the release
/// ends the operation and changes neither.
pub proof fn lemma_unlisten_keeps_state(
    receiver: Machine,
    reply: Reply,
    next: Machine,
    action: Action,
)
    requires
        receiver.released().steps_to(reply, next, action),
    ensures
        !receiver.released().armed,
        receiver.released().state == receiver.state,
        receiver.released().config == receiver.config,
        next == (Machine { armed: false, ..receiver.rests() }),
        action == Action::Done(Outcome::Ready),
{
}

/// A receive on a listening device waits, releases chip-enable whichever of
/// interrupt and deadline came first, and reads the FIFO status; when that
/// reports the receive FIFO empty the receive ends with no frame, chip-enable
/// released and the tracked state unchanged.
pub proof fn lemma_receive_nothing(
    start: Machine,
    replies: Seq<Reply>,
    stops: Seq<Machine>,
    actions: Seq<Action>,
    stop: bool,
    limit: Duration,
)
    requires
        start.state == State::Listening,
        replies.len() == 3,
        stops.len() == 4,
        actions.len() == 4,
        (stops[0], actions[0]) == start.begins(Goal::Receive(stop, limit)),
        !replies[2].failed,
        replies[2].raw@[1] & 1 != 0,
        forall|i: int|
            0 <= i < 3 ==> (#[trigger] stops[i]).steps_to(replies[i], stops[i + 1], actions[i + 1]),
    ensures
        actions[0] == Action::Wait(limit),
        actions[1] == Action::ChipEnable(false),
        actions[2] == Action::Transfer(Exchange::ReadRegister(Register::FifoStatus)),
        actions[3] == Action::Done(Outcome::Frame(None)),
        stops[3] == (Machine { armed: false, ..start.rests() }),
{
    assert(stops[0].steps_to(replies[0], stops[1], actions[1]));
    assert(stops[1].steps_to(replies[1], stops[2], actions[2]));
    assert(stops[2].steps_to(replies[2], stops[3], actions[3]));
}

} // verus!
