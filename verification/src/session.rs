//! The command session against a validated controller: connect, introduce
//! the node, then serve authenticated commands round by round.
//!
//! The session owns no socket and no pin. The caller performs each
//! [`Action`] and reports how it went as the next [`Event`].
pub mod model;
pub mod laws;

use vstd::prelude::*;
use crate::actuation::{actuation_of, dispatch, Actuation, MachineLevel, Relay};
use crate::digest::{answer, keyed_digest, verify, Answer, Challenge, SecretKey};
use crate::session::model::{CloseReason, Effect, Event, Phase, SessionState, Step};
use crate::wire::{
    frame_command, introduction, parse_challenge, parse_command, round_start, NodeIdentity,
    INTRODUCTION_LENGTH, ROUND_START_LENGTH, SATISFIED_ACK,
};

verus! {

/// What the session asks its caller to do next.
#[derive(Clone, Copy, Debug, PartialEq, Eq)]
pub enum Action {
    /// Nothing new: go on with what is under way.
    Nothing,
    /// Read a challenge of `CHALLENGE_LENGTH` bytes from the controller and
    /// report it as `Event::ServerChallenge`.
    ReadChallenge,
    /// Write this introduction frame.
    Introduce([u8; INTRODUCTION_LENGTH]),
    /// Draw a fresh challenge and report it as `Event::FreshChallenge`.
    DrawChallenge,
    /// Write this round start.
    OpenRound([u8; ROUND_START_LENGTH]),
    /// Read a command frame of `COMMAND_LENGTH` bytes and report it as
    /// `Event::Command`; meanwhile report each level the machine is seen at
    /// as `Event::Level`.
    AwaitCommand,
    /// Write this state report.
    Report(u8),
    /// Hold the relay active for `RELAY_PULSE_MILLIS`, then return it to its
    /// safe level.
    Pulse(Relay),
    /// Write this acknowledgement byte.
    Acknowledge(u8),
    /// Flush, abort and close the socket, and force both relays to their
    /// safe level.
    Release,
}

impl View for Action {
    type V = Effect;

    open spec fn view(&self) -> Effect {
        match *self {
            Action::Nothing => Effect::Nothing,
            Action::ReadChallenge => Effect::ReadChallenge,
            Action::Introduce(frame) => Effect::Introduce(frame@),
            Action::DrawChallenge => Effect::DrawChallenge,
            Action::OpenRound(frame) => Effect::OpenRound(frame@),
            Action::AwaitCommand => Effect::AwaitCommand,
            Action::Report(byte) => Effect::Report(byte),
            Action::Pulse(relay) => Effect::Pulse(relay),
            Action::Acknowledge(byte) => Effect::Acknowledge(byte),
            Action::Release => Effect::Release,
        }
    }
}

/// The challenge of a round with the answer it expects.
#[derive(Clone, Copy, Debug)]
struct Round {
    challenge: Challenge,
    expected: Answer,
}

/// One command session, from the connection attempt to its close.
#[derive(Debug)]
pub struct Session {
    step: Step,
    key: SecretKey,
    identity: NodeIdentity,
    tolerance: usize,
    faults: usize,
    round: Option<Round>,
    reported: Option<MachineLevel>,
}

impl View for Session {
    type V = SessionState;

    closed spec fn view(&self) -> SessionState {
        SessionState {
            step: self.step,
            key: self.key@,
            identity: self.identity@,
            tolerance: self.tolerance as nat,
            faults: self.faults as nat,
            live: match self.round {
                Some(round) => Some(round.challenge@),
                None => None,
            },
            reported: self.reported,
        }
    }
}

impl Session {
    #[verifier::type_invariant]
    spec fn inv(self) -> bool {
        &&& self@.wf()
        &&& match self.round {
            Some(round) => round.expected@ == keyed_digest(self.key@, round.challenge@),
            None => true,
        }
    }

    /// A session for the node `identity` that swallows `tolerance` faults,
    /// about to connect.
    pub fn new(key: SecretKey, identity: NodeIdentity, tolerance: usize) -> (session: Session)
        ensures
            session@ == SessionState::initial(key@, identity@, tolerance as nat),
    {
        Session {
            step: Step::Connecting,
            key,
            identity,
            tolerance,
            faults: 0,
            round: None,
            reported: None,
        }
    }

    /// The step the session stands at.
    pub fn current_step(&self) -> (step: Step)
        ensures
            step == self@.step,
    {
        self.step
    }

    /// The phase the session is in.
    pub fn phase(&self) -> (phase: Phase)
        ensures
            phase == self@.step.phase(),
    {
        match self.step {
            Step::Connecting => Phase::Connecting,
            Step::AwaitingChallenge => Phase::Handshaking,
            Step::Introducing => Phase::Handshaking,
            Step::Idle => Phase::Serving,
            Step::Announcing => Phase::Serving,
            Step::Listening => Phase::Serving,
            Step::Acting => Phase::Serving,
            Step::Closed(reason) => Phase::Closed(reason),
        }
    }

    /// Why the session ended, once it has.
    pub fn close_reason(&self) -> (reason: Option<CloseReason>)
        ensures
            reason == match self@.step {
                Step::Closed(why) => Some(why),
                _ => None::<CloseReason>,
            },
    {
        match self.step {
            Step::Closed(why) => Some(why),
            _ => None,
        }
    }

    /// Whether the session has ended.
    pub fn is_closed(&self) -> (closed: bool)
        ensures
            closed == self@.step is Closed,
    {
        match self.step {
            Step::Closed(_) => true,
            _ => false,
        }
    }

    /// The faults counted so far.
    pub fn faults(&self) -> (faults: usize)
        ensures
            faults == self@.faults,
    {
        self.faults
    }

    /// The faults that the session swallows.
    pub fn tolerance(&self) -> (tolerance: usize)
        ensures
            tolerance == self@.tolerance,
    {
        self.tolerance
    }

    /// The level last reported to the controller.
    pub fn reported(&self) -> (level: Option<MachineLevel>)
        ensures
            level == self@.reported,
    {
        self.reported
    }

    /// The challenge that can be answered right now.
    pub fn live_challenge(&self) -> (challenge: Option<Challenge>)
        ensures
            challenge is Some <==> self@.live is Some,
            challenge is Some ==> Some(challenge->Some_0@) == self@.live,
    {
        match self.round {
            Some(round) => Some(round.challenge),
            None => None,
        }
    }

    /// Ends the session for `reason`.
    fn close(&mut self, reason: CloseReason) -> (action: Action)
        ensures
            final(self)@ == old(self)@.closed(reason),
            action@ == Effect::Release,
    {
        proof {
            use_type_invariant(&*self);
        }
        *self = Session { step: Step::Closed(reason), round: None, ..*self };
        Action::Release
    }

    /// Goes to the top of the next round, or ends the session if the faults
    /// exceed the tolerance.
    fn begin_round(&mut self) -> (action: Action)
        ensures
            final(self)@ == old(self)@.next_round(),
            action@ == old(self)@.round_effect(),
    {
        proof {
            use_type_invariant(&*self);
        }
        if self.faults > self.tolerance {
            *self = Session { step: Step::Closed(CloseReason::FaultLimit), round: None, ..*self };
            Action::Release
        } else {
            *self = Session { step: Step::Idle, round: None, ..*self };
            Action::DrawChallenge
        }
    }

    /// Counts one fault against the controller and goes on to the next
    /// round, if one is still allowed.
    fn record_fault(&mut self) -> (action: Action)
        ensures
            final(self)@ == old(self)@.faulted(),
            action@ == old(self)@.faulted().round_effect(),
    {
        proof {
            use_type_invariant(&*self);
        }
        let faults: usize = if self.faults < usize::MAX {
            self.faults + 1
        } else {
            self.faults
        };
        if faults > self.tolerance {
            *self = Session {
                step: Step::Closed(CloseReason::FaultLimit),
                faults,
                round: None,
                ..*self
            };
            Action::Release
        } else {
            *self = Session { step: Step::Idle, faults, round: None, ..*self };
            Action::DrawChallenge
        }
    }

    /// Advances the session by one event and says what to do next.
    pub fn step(&mut self, event: Event) -> (action: Action)
        ensures
            old(self)@.wf(),
            final(self)@.wf(),
            final(self)@ == old(self)@.step(event),
            action@ == old(self)@.effect(event),
    {
        proof {
            use_type_invariant(&*self);
        }
        match self.step {
            Step::Connecting => match event {
                Event::Completed => {
                    *self = Session { step: Step::AwaitingChallenge, ..*self };
                    Action::ReadChallenge
                },
                Event::Failed => self.close(CloseReason::ConnectFailed),
                _ => Action::Nothing,
            },
            Step::AwaitingChallenge => match event {
                Event::ServerChallenge(bytes) => match parse_challenge(bytes.as_slice()) {
                    Some(challenge) => {
                        let proof_of_key = answer(&challenge, &self.key);
                        *self = Session { step: Step::Introducing, ..*self };
                        Action::Introduce(introduction(&self.identity, &proof_of_key))
                    },
                    None => self.close(CloseReason::HandshakeFailed),
                },
                Event::Failed => self.close(CloseReason::HandshakeFailed),
                _ => Action::Nothing,
            },
            Step::Introducing => match event {
                Event::Completed => self.begin_round(),
                Event::Failed => self.close(CloseReason::HandshakeFailed),
                _ => Action::Nothing,
            },
            Step::Idle => match event {
                Event::FreshChallenge(challenge) => {
                    let expected = answer(&challenge, &self.key);
                    *self = Session {
                        step: Step::Announcing,
                        round: Some(Round { challenge, expected }),
                        ..*self
                    };
                    Action::OpenRound(round_start(&challenge))
                },
                _ => Action::Nothing,
            },
            Step::Announcing => match event {
                Event::Completed => {
                    *self = Session { step: Step::Listening, ..*self };
                    Action::AwaitCommand
                },
                Event::Failed => self.close(CloseReason::IoError),
                _ => Action::Nothing,
            },
            Step::Listening => match event {
                Event::Level(level) => {
                    let known = match self.reported {
                        Some(last) => last == level,
                        None => false,
                    };
                    *self = Session { reported: Some(level), ..*self };
                    if known {
                        Action::Nothing
                    } else {
                        Action::Report(level.report_byte())
                    }
                },
                Event::Command(frame, level) => self.on_command(frame.as_slice(), level),
                Event::Failed => self.close(CloseReason::IoError),
                _ => Action::Nothing,
            },
            Step::Acting => match event {
                Event::Completed => self.begin_round(),
                Event::Failed => self.close(CloseReason::IoError),
                _ => Action::Nothing,
            },
            Step::Closed(_) => Action::Nothing,
        }
    }

    /// Judges a command frame against the live challenge: a frame that
    /// proves the key and names a command is dispatched, any other is a
    /// fault. Either way the challenge is spent.
    fn on_command(&mut self, frame: &[u8], level: MachineLevel) -> (action: Action)
        requires
            old(self)@.step == Step::Listening,
        ensures
            final(self)@ == if old(self)@.accepts(frame@) {
                SessionState { step: Step::Acting, live: None, ..old(self)@ }
            } else {
                old(self)@.faulted()
            },
            action@ == if old(self)@.accepts(frame@) {
                match actuation_of(frame_command(frame@), level) {
                    Actuation::Pulse(relay) => Effect::Pulse(relay),
                    _ => Effect::Acknowledge(SATISFIED_ACK),
                }
            } else {
                old(self)@.faulted().round_effect()
            },
    {
        proof {
            use_type_invariant(&*self);
        }
        let parsed = parse_command(frame);
        let proven = match (parsed, self.round) {
            (Some(command_frame), Some(round)) => verify(&command_frame.answer, &round.expected),
            _ => false,
        };
        if !proven {
            return self.record_fault();
        }
        let command = parsed.unwrap().command;
        match dispatch(command, level) {
            Actuation::Rejected => self.record_fault(),
            Actuation::Pulse(relay) => {
                *self = Session { step: Step::Acting, round: None, ..*self };
                Action::Pulse(relay)
            },
            Actuation::AlreadySatisfied => {
                *self = Session { step: Step::Acting, round: None, ..*self };
                Action::Acknowledge(SATISFIED_ACK)
            },
        }
    }
}

} // verus!
