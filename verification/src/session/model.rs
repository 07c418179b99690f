//! The session as a transition system on plain values: what each event does
//! to the state, and what the node has to carry out in return.
use vstd::prelude::*;
use crate::actuation::{actuation_of, level_byte, Actuation, MachineLevel, Relay};
use crate::digest::{keyed_digest, Challenge};
use crate::params::CHALLENGE_LENGTH;
use crate::wire::{
    frame_answer, frame_command, introduction_bytes, is_command_frame, round_start_bytes,
    SATISFIED_ACK,
};

verus! {

/// Why a session ended.
#[derive(Clone, Copy, Debug, PartialEq, Eq, Structural)]
pub enum CloseReason {
    /// The controller could not be reached.
    ConnectFailed,
    /// The controller's challenge did not arrive whole, or the introduction
    /// could not be written.
    HandshakeFailed,
    /// A read or write failed while serving.
    IoError,
    /// The controller used up its fault tolerance.
    FaultLimit,
}

/// The four phases of a session.
#[derive(Clone, Copy, Debug, PartialEq, Eq, Structural)]
pub enum Phase {
    Connecting,
    Handshaking,
    Serving,
    Closed(CloseReason),
}

/// Where exactly a session stands: the operation it waits for.
#[derive(Clone, Copy, Debug, PartialEq, Eq, Structural)]
pub enum Step {
    /// The connection to the controller is being opened.
    Connecting,
    /// The controller's challenge is being read.
    AwaitingChallenge,
    /// The introduction is being written.
    Introducing,
    /// Between rounds: the next round needs a fresh challenge.
    Idle,
    /// The round start is being written.
    Announcing,
    /// The command frame is being read while the machine is watched.
    Listening,
    /// A pulse or an acknowledgement is under way.
    Acting,
    /// The session has ended.
    Closed(CloseReason),
}

/// What the node's side reports to the session.
#[derive(Debug)]
pub enum Event {
    /// The operation under way finished: the connection stands, the bytes
    /// are written, the pulse is over.
    Completed,
    /// The operation under way failed or timed out.
    Failed,
    /// Bytes read from the controller during the handshake.
    ServerChallenge(Vec<u8>),
    /// A challenge freshly drawn from the random source.
    FreshChallenge(Challenge),
    /// Bytes read as a command frame, and the machine's level sensed on
    /// their arrival.
    Command(Vec<u8>, MachineLevel),
    /// The machine's level as the watch just read it.
    Level(MachineLevel),
}

/// What the session asks the node's side to do next, in mathematical form.
pub enum Effect {
    /// Nothing new: go on with what is under way.
    Nothing,
    /// Read a challenge from the controller.
    ReadChallenge,
    /// Write the introduction frame.
    Introduce(Seq<u8>),
    /// Draw a fresh challenge.
    DrawChallenge,
    /// Write the round start.
    OpenRound(Seq<u8>),
    /// Read a command frame and watch the machine meanwhile.
    AwaitCommand,
    /// Write the state report.
    Report(u8),
    /// Pulse a relay.
    Pulse(Relay),
    /// Write the acknowledgement byte.
    Acknowledge(u8),
    /// Release the socket and force both relays to their safe level.
    Release,
}

/// State of a session.
pub struct SessionState {
    pub step: Step,
    pub key: Seq<u8>,
    pub identity: Seq<u8>,
    /// Faults that are swallowed; one more closes the session.
    pub tolerance: nat,
    /// Faults counted so far.
    pub faults: nat,
    /// The challenge of the round under way, while it can still be answered.
    pub live: Option<Seq<u8>>,
    /// The level last reported to the controller.
    pub reported: Option<MachineLevel>,
}

impl Step {
    /// The phase a step belongs to.
    pub open spec fn phase(self) -> Phase {
        match self {
            Step::Connecting => Phase::Connecting,
            Step::AwaitingChallenge | Step::Introducing => Phase::Handshaking,
            Step::Idle | Step::Announcing | Step::Listening | Step::Acting => Phase::Serving,
            Step::Closed(reason) => Phase::Closed(reason),
        }
    }
}

impl Effect {
    /// Whether the effect moves a relay or acknowledges a command: what only
    /// an authenticated command may cause.
    pub open spec fn is_dispatch(self) -> bool {
        self is Pulse || self is Acknowledge
    }
}

/// The fault counter after one more fault. It stops at the largest count
/// the machine can hold.
pub open spec fn bumped(faults: nat) -> nat {
    if faults < usize::MAX {
        faults + 1
    } else {
        faults
    }
}

impl SessionState {
    /// The state a session starts in.
    pub open spec fn initial(key: Seq<u8>, identity: Seq<u8>, tolerance: nat) -> SessionState {
        SessionState {
            step: Step::Connecting,
            key,
            identity,
            tolerance,
            faults: 0,
            live: None,
            reported: None,
        }
    }

    /// A session whose faults exceed its tolerance is closed, and a
    /// challenge is live exactly while its round is under way.
    pub open spec fn wf(self) -> bool {
        &&& self.faults > self.tolerance ==> self.step is Closed
        &&& self.live is Some <==> (self.step == Step::Announcing || self.step == Step::Listening)
    }

    /// The answer that the live challenge expects.
    pub open spec fn expected(self) -> Option<Seq<u8>> {
        match self.live {
            Some(challenge) => Some(keyed_digest(self.key, challenge)),
            None => None,
        }
    }

    /// Whether `frame` is a command frame that answers the live challenge
    /// and names a command of the closed set.
    pub open spec fn accepts(self, frame: Seq<u8>) -> bool {
        &&& is_command_frame(frame)
        &&& self.expected() == Some(frame_answer(frame))
        &&& !(frame_command(frame) is Invalid)
    }

    /// The state with its step replaced.
    pub open spec fn at(self, step: Step) -> SessionState {
        SessionState { step, ..self }
    }

    /// The state after closing for `reason`. No challenge stays live.
    pub open spec fn closed(self, reason: CloseReason) -> SessionState {
        SessionState { step: Step::Closed(reason), live: None, ..self }
    }

    /// The state at the top of a round: idle, or closed once the faults
    /// exceed the tolerance.
    pub open spec fn next_round(self) -> SessionState {
        if self.faults > self.tolerance {
            self.closed(CloseReason::FaultLimit)
        } else {
            SessionState { step: Step::Idle, live: None, ..self }
        }
    }

    /// The state after one more fault: the round's challenge is discarded
    /// and the next round is due, if one is still allowed.
    pub open spec fn faulted(self) -> SessionState {
        SessionState { faults: bumped(self.faults), ..self }.next_round()
    }

    /// The state after `event`.
    pub open spec fn step(self, event: Event) -> SessionState {
        match (self.step, event) {
            (Step::Connecting, Event::Completed) => self.at(Step::AwaitingChallenge),
            (Step::Connecting, Event::Failed) => self.closed(CloseReason::ConnectFailed),
            (Step::AwaitingChallenge, Event::ServerChallenge(bytes)) => if bytes@.len()
                == CHALLENGE_LENGTH {
                self.at(Step::Introducing)
            } else {
                self.closed(CloseReason::HandshakeFailed)
            },
            (Step::AwaitingChallenge, Event::Failed) => self.closed(CloseReason::HandshakeFailed),
            (Step::Introducing, Event::Completed) => self.next_round(),
            (Step::Introducing, Event::Failed) => self.closed(CloseReason::HandshakeFailed),
            (Step::Idle, Event::FreshChallenge(challenge)) => SessionState {
                step: Step::Announcing,
                live: Some(challenge@),
                ..self
            },
            (Step::Announcing, Event::Completed) => self.at(Step::Listening),
            (Step::Announcing, Event::Failed) => self.closed(CloseReason::IoError),
            (Step::Listening, Event::Level(level)) => SessionState {
                reported: Some(level),
                ..self
            },
            (Step::Listening, Event::Command(frame, _)) => if self.accepts(frame@) {
                SessionState { step: Step::Acting, live: None, ..self }
            } else {
                self.faulted()
            },
            (Step::Listening, Event::Failed) => self.closed(CloseReason::IoError),
            (Step::Acting, Event::Completed) => self.next_round(),
            (Step::Acting, Event::Failed) => self.closed(CloseReason::IoError),
            _ => self,
        }
    }

    /// What the node has to do at the top of a round.
    pub open spec fn round_effect(self) -> Effect {
        if self.faults > self.tolerance {
            Effect::Release
        } else {
            Effect::DrawChallenge
        }
    }

    /// What the node has to do in answer to `event`.
    pub open spec fn effect(self, event: Event) -> Effect {
        match (self.step, event) {
            (Step::Connecting, Event::Completed) => Effect::ReadChallenge,
            (Step::Connecting, Event::Failed) => Effect::Release,
            (Step::AwaitingChallenge, Event::ServerChallenge(bytes)) => if bytes@.len()
                == CHALLENGE_LENGTH {
                Effect::Introduce(
                    introduction_bytes(self.identity, keyed_digest(self.key, bytes@)),
                )
            } else {
                Effect::Release
            },
            (Step::AwaitingChallenge, Event::Failed) => Effect::Release,
            (Step::Introducing, Event::Completed) => self.round_effect(),
            (Step::Introducing, Event::Failed) => Effect::Release,
            (Step::Idle, Event::FreshChallenge(challenge)) => Effect::OpenRound(
                round_start_bytes(challenge@),
            ),
            (Step::Announcing, Event::Completed) => Effect::AwaitCommand,
            (Step::Announcing, Event::Failed) => Effect::Release,
            (Step::Listening, Event::Level(level)) => if self.reported == Some(level) {
                Effect::Nothing
            } else {
                Effect::Report(level_byte(level))
            },
            (Step::Listening, Event::Command(frame, level)) => if self.accepts(frame@) {
                match actuation_of(frame_command(frame@), level) {
                    Actuation::Pulse(relay) => Effect::Pulse(relay),
                    _ => Effect::Acknowledge(SATISFIED_ACK),
                }
            } else {
                self.faulted().round_effect()
            },
            (Step::Listening, Event::Failed) => Effect::Release,
            (Step::Acting, Event::Completed) => self.round_effect(),
            (Step::Acting, Event::Failed) => Effect::Release,
            _ => Effect::Nothing,
        }
    }

    /// The state after the events of `events`, one after the other.
    pub open spec fn run(self, events: Seq<Event>) -> SessionState
        decreases events.len(),
    {
        if events.len() == 0 {
            self
        } else {
            self.step(events[0]).run(events.drop_first())
        }
    }
}

} // verus!
