//! The discovery beacon: the node's periodic announcement of its challenge.
//!
//! The beacon is best effort. A failed send is not an error: the next one
//! follows after the usual interval. It ends only when it is told to stop.
use vstd::prelude::*;
use crate::digest::Challenge;
use crate::params::BEACON_INTERVAL_SECS;
use crate::wire::{beacon_bytes, beacon_message, BEACON_LENGTH};

verus! {

/// What the caller reports to the beacon.
#[derive(Clone, Copy, Debug, PartialEq, Eq, Structural)]
pub enum BeaconEvent {
    /// A transmission is due: the beacon has just started, or its interval
    /// has passed.
    Due,
    /// The transmission went out.
    Sent,
    /// The transmission failed.
    SendFailed,
    /// The stop signal has arrived.
    Stop,
}

/// What the beacon asks its caller to do next.
#[derive(Clone, Copy, Debug, PartialEq, Eq)]
pub enum BeaconAction {
    /// Send this message to the multicast group.
    Transmit([u8; BEACON_LENGTH]),
    /// Wait this many seconds, then report `BeaconEvent::Due`.
    Sleep(u64),
    /// End the beacon: nothing more is sent.
    Halt,
}

/// A beacon's action in mathematical form.
pub enum BeaconEffect {
    Transmit(Seq<u8>),
    Sleep(u64),
    Halt,
}

impl View for BeaconAction {
    type V = BeaconEffect;

    open spec fn view(&self) -> BeaconEffect {
        match *self {
            BeaconAction::Transmit(message) => BeaconEffect::Transmit(message@),
            BeaconAction::Sleep(seconds) => BeaconEffect::Sleep(seconds),
            BeaconAction::Halt => BeaconEffect::Halt,
        }
    }
}

/// State of a beacon: the challenge it announces, and whether it still
/// runs.
pub struct BeaconState {
    pub challenge: Seq<u8>,
    pub active: bool,
}

impl BeaconState {
    /// The state a beacon starts in.
    pub open spec fn initial(challenge: Seq<u8>) -> BeaconState {
        BeaconState { challenge, active: true }
    }

    /// The state after `event`: only the stop signal changes it.
    pub open spec fn step(self, event: BeaconEvent) -> BeaconState {
        match event {
            BeaconEvent::Stop => BeaconState { active: false, ..self },
            _ => self,
        }
    }

    /// What the caller has to do in answer to `event`.
    pub open spec fn effect(self, event: BeaconEvent) -> BeaconEffect {
        if !self.active {
            BeaconEffect::Halt
        } else {
            match event {
                BeaconEvent::Due => BeaconEffect::Transmit(beacon_bytes(self.challenge)),
                BeaconEvent::Sent | BeaconEvent::SendFailed => BeaconEffect::Sleep(
                    BEACON_INTERVAL_SECS,
                ),
                BeaconEvent::Stop => BeaconEffect::Halt,
            }
        }
    }
}

/// The beacon for one challenge.
#[derive(Clone, Copy, Debug)]
pub struct Beacon {
    challenge: Challenge,
    active: bool,
}

impl View for Beacon {
    type V = BeaconState;

    closed spec fn view(&self) -> BeaconState {
        BeaconState { challenge: self.challenge@, active: self.active }
    }
}

impl Beacon {
    /// A running beacon that announces `challenge`.
    pub fn new(challenge: Challenge) -> (beacon: Beacon)
        ensures
            beacon@ == BeaconState::initial(challenge@),
    {
        Beacon { challenge, active: true }
    }

    /// Whether the beacon still runs.
    pub fn is_active(&self) -> (active: bool)
        ensures
            active == self@.active,
    {
        self.active
    }

    /// The challenge that the beacon announces.
    pub fn challenge(&self) -> (challenge: Challenge)
        ensures
            challenge@ == self@.challenge,
    {
        self.challenge
    }

    /// Advances the beacon by one event and says what to do next.
    pub fn step(&mut self, event: BeaconEvent) -> (action: BeaconAction)
        ensures
            final(self)@ == old(self)@.step(event),
            action@ == old(self)@.effect(event),
    {
        if !self.active {
            return BeaconAction::Halt;
        }
        match event {
            BeaconEvent::Due => BeaconAction::Transmit(beacon_message(&self.challenge)),
            BeaconEvent::Sent => BeaconAction::Sleep(BEACON_INTERVAL_SECS),
            BeaconEvent::SendFailed => BeaconAction::Sleep(BEACON_INTERVAL_SECS),
            BeaconEvent::Stop => {
                self.active = false;
                BeaconAction::Halt
            },
        }
    }
}

/// A stopped beacon stays stopped and transmits nothing, whatever it is
/// told.
pub proof fn lemma_stopped_beacon_is_silent(state: BeaconState, event: BeaconEvent)
    requires
        !state.active,
    ensures
        state.step(event) == state,
        state.effect(event) == BeaconEffect::Halt,
{
}

/// A running beacon transmits whenever a transmission is due, and what it
/// transmits is the beacon message of its challenge. A failed send is
/// followed by the same wait as a good one.
pub proof fn lemma_running_beacon(state: BeaconState)
    requires
        state.active,
    ensures
        state.effect(BeaconEvent::Due) == BeaconEffect::Transmit(beacon_bytes(state.challenge)),
        state.effect(BeaconEvent::SendFailed) == state.effect(BeaconEvent::Sent),
        state.step(BeaconEvent::SendFailed) == state,
        !state.step(BeaconEvent::Stop).active,
{
}

} // verus!
