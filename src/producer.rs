//! The acquisition producer's decisions: when to open the transport, what to
//! do with each frame read, and when to stop.
//!
//! The acquisition loop performs the actions and reports what happened as
//! events; it owns the transport and the channels.
use vstd::prelude::*;
use crate::codec::{frame_value, parse_buffer_data};

verus! {

/// The one-shot signals that the consumer sends to the producer.
#[derive(Clone, Copy, Debug, PartialEq, Eq, Structural)]
pub enum ControlSignal {
    /// The consumer has a surface to draw on: acquisition may begin.
    Start,
    /// The consumer has left its loop: acquisition must end.
    Stop,
}

/// The producer's phase.
#[derive(Clone, Copy, Debug, PartialEq, Eq, Structural)]
pub enum ProducerState {
    AwaitingStart,
    Running,
    Stopped,
}

/// What the acquisition loop observed.
#[derive(Clone, Copy, Debug)]
pub enum ProducerEvent {
    /// A control signal arrived.
    Signal { signal: ControlSignal },
    /// A whole frame was read from the transport.
    FrameRead { frame: [u8; 2] },
    /// Reading a frame failed; nothing was read.
    ReadFailed,
}

/// What the acquisition loop must do next.
#[derive(Clone, Copy, Debug, PartialEq, Eq, Structural)]
pub enum ProducerAction {
    /// Keep waiting for the start signal.
    AwaitStart,
    /// Open the transport, then check for the stop signal and read a frame.
    OpenTransport,
    /// Send `sample` to the consumer, then check for stop and read again.
    Send { sample: u16 },
    /// Check for the stop signal and read a frame again.
    ReadAgain,
    /// Release the transport and end the loop.
    Exit,
}

/// The phase after an event.
pub open spec fn producer_next(s: ProducerState, e: ProducerEvent) -> ProducerState {
    match (s, e) {
        (ProducerState::Stopped, _) => ProducerState::Stopped,
        (_, ProducerEvent::Signal { signal: ControlSignal::Stop }) => ProducerState::Stopped,
        (ProducerState::AwaitingStart, ProducerEvent::Signal { signal: ControlSignal::Start }) =>
            ProducerState::Running,
        (s, _) => s,
    }
}

/// The action after an event.
pub open spec fn producer_action(s: ProducerState, e: ProducerEvent) -> ProducerAction {
    match (s, e) {
        (ProducerState::Stopped, _) => ProducerAction::Exit,
        (_, ProducerEvent::Signal { signal: ControlSignal::Stop }) => ProducerAction::Exit,
        (ProducerState::AwaitingStart, ProducerEvent::Signal { signal: ControlSignal::Start }) =>
            ProducerAction::OpenTransport,
        (ProducerState::AwaitingStart, _) => ProducerAction::AwaitStart,
        (ProducerState::Running, ProducerEvent::FrameRead { frame }) => ProducerAction::Send {
            sample: frame_value(frame[0], frame[1]) as u16,
        },
        (ProducerState::Running, _) => ProducerAction::ReadAgain,
    }
}

/// The phase after a run of events.
pub open spec fn producer_run(s: ProducerState, events: Seq<ProducerEvent>) -> ProducerState
    decreases events.len(),
{
    if events.len() == 0 {
        s
    } else {
        producer_run(producer_next(s, events[0]), events.drop_first())
    }
}

impl ProducerState {
    /// The phase at launch: nothing is read before the start signal.
    pub fn new() -> (r: ProducerState)
        ensures
            r == ProducerState::AwaitingStart,
    {
        ProducerState::AwaitingStart
    }

    /// Takes one event and returns the next action. Read failures are
    /// retried without end; a stop signal ends acquisition for good.
    pub fn step(&mut self, event: ProducerEvent) -> (r: ProducerAction)
        ensures
            *final(self) == producer_next(*old(self), event),
            r == producer_action(*old(self), event),
    {
        match *self {
            ProducerState::Stopped => ProducerAction::Exit,
            ProducerState::AwaitingStart => match event {
                ProducerEvent::Signal { signal: ControlSignal::Start } => {
                    *self = ProducerState::Running;
                    ProducerAction::OpenTransport
                },
                ProducerEvent::Signal { signal: ControlSignal::Stop } => {
                    *self = ProducerState::Stopped;
                    ProducerAction::Exit
                },
                _ => ProducerAction::AwaitStart,
            },
            ProducerState::Running => match event {
                ProducerEvent::Signal { signal: ControlSignal::Stop } => {
                    *self = ProducerState::Stopped;
                    ProducerAction::Exit
                },
                ProducerEvent::FrameRead { frame } => ProducerAction::Send {
                    sample: parse_buffer_data(&frame),
                },
                _ => ProducerAction::ReadAgain,
            },
        }
    }
}

/// Once the stop signal has been taken, in whatever phase, acquisition ends
/// at once and stays ended: no event after it sends a sample or reopens the
/// transport.
pub proof fn lemma_stop_is_final(s: ProducerState, later: Seq<ProducerEvent>)
    ensures
        producer_next(s, ProducerEvent::Signal { signal: ControlSignal::Stop })
            == ProducerState::Stopped,
        producer_action(s, ProducerEvent::Signal { signal: ControlSignal::Stop })
            == ProducerAction::Exit,
        producer_run(ProducerState::Stopped, later) == ProducerState::Stopped,
        forall|e: ProducerEvent|
            #[trigger] producer_action(ProducerState::Stopped, e) == ProducerAction::Exit,
    decreases later.len(),
{
    if later.len() > 0 {
        lemma_stop_is_final(s, later.drop_first());
    }
}

/// Before the start signal nothing is opened, read or sent.
pub proof fn lemma_nothing_before_start(e: ProducerEvent)
    requires
        e != (ProducerEvent::Signal { signal: ControlSignal::Start }),
        e != (ProducerEvent::Signal { signal: ControlSignal::Stop }),
    ensures
        producer_next(ProducerState::AwaitingStart, e) == ProducerState::AwaitingStart,
        producer_action(ProducerState::AwaitingStart, e) == ProducerAction::AwaitStart,
{
}

/// A failed read while running produces no sample and keeps running.
pub proof fn lemma_read_failure_retries()
    ensures
        producer_next(ProducerState::Running, ProducerEvent::ReadFailed)
            == ProducerState::Running,
        producer_action(ProducerState::Running, ProducerEvent::ReadFailed)
            == ProducerAction::ReadAgain,
{
}

} // verus!
