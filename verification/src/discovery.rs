//! One round of discovery: the beacon and the listener side by side, until
//! a controller is validated.
//!
//! Both run on the same challenge. The beacon announces it; the listener
//! waits for its answer. The moment the listener validates a controller the
//! beacon is stopped, and the round ends with the controller's address.
use vstd::prelude::*;
use crate::beacon::{Beacon, BeaconAction, BeaconEffect, BeaconEvent, BeaconState};
use crate::digest::{answer, keyed_digest, Challenge, SecretKey};
use crate::rendezvous::{
    Listener, ListenerAction, ListenerEvent, ListenerState, ListenerStep, ServerAddress,
};

verus! {

/// What the caller reports to a round of discovery.
#[derive(Debug)]
pub enum DiscoveryEvent {
    /// Something happened on the beacon's side.
    Beacon(BeaconEvent),
    /// Something happened on the listener's side.
    Listener(ListenerEvent),
}

/// What a round of discovery asks its caller to do next.
#[derive(Clone, Copy, Debug, PartialEq, Eq)]
pub enum DiscoveryAction {
    /// For the beacon's side.
    Beacon(BeaconAction),
    /// For the listener's side.
    Listener(ListenerAction),
}

/// A discovery action in mathematical form.
pub enum DiscoveryEffect {
    Beacon(BeaconEffect),
    Listener(ListenerAction),
}

impl View for DiscoveryAction {
    type V = DiscoveryEffect;

    open spec fn view(&self) -> DiscoveryEffect {
        match *self {
            DiscoveryAction::Beacon(action) => DiscoveryEffect::Beacon(action@),
            DiscoveryAction::Listener(action) => DiscoveryEffect::Listener(action),
        }
    }
}

impl DiscoveryEffect {
    /// Whether the effect sends a beacon message.
    pub open spec fn is_transmission(self) -> bool {
        self is Beacon && self->Beacon_0 is Transmit
    }
}

/// How the node goes on after a round of discovery.
#[derive(Clone, Copy, Debug, PartialEq, Eq, Structural)]
pub enum NextMove {
    /// No controller was validated: discover again, on a fresh challenge.
    Rediscover,
    /// Open a session with the controller at this address. When the session
    /// has closed, discover again.
    Serve(ServerAddress),
}

/// State of a round of discovery.
pub struct DiscoveryState {
    pub beacon: BeaconState,
    pub listener: ListenerState,
}

impl DiscoveryState {
    /// The state a round starts in: the beacon announces `challenge`, and
    /// the listener waits for its answer under `key`.
    pub open spec fn initial(key: Seq<u8>, challenge: Seq<u8>) -> DiscoveryState {
        DiscoveryState {
            beacon: BeaconState::initial(challenge),
            listener: ListenerState::initial(keyed_digest(key, challenge)),
        }
    }

    /// Whether a controller has been validated.
    pub open spec fn found(self) -> bool {
        self.listener.step is Validated
    }

    /// The beacon does not run beside a validated controller.
    pub open spec fn wf(self) -> bool {
        self.found() ==> !self.beacon.active
    }

    /// The state after `event`. An event that validates a controller stops
    /// the beacon in the same step.
    pub open spec fn step(self, event: DiscoveryEvent) -> DiscoveryState {
        match event {
            DiscoveryEvent::Beacon(beacon_event) => DiscoveryState {
                beacon: self.beacon.step(beacon_event),
                ..self
            },
            DiscoveryEvent::Listener(listener_event) => {
                let listener = self.listener.step(listener_event);
                DiscoveryState {
                    beacon: if listener.step is Validated {
                        self.beacon.step(BeaconEvent::Stop)
                    } else {
                        self.beacon
                    },
                    listener,
                }
            },
        }
    }

    /// What the caller has to do in answer to `event`.
    pub open spec fn effect(self, event: DiscoveryEvent) -> DiscoveryEffect {
        match event {
            DiscoveryEvent::Beacon(beacon_event) => DiscoveryEffect::Beacon(
                self.beacon.effect(beacon_event),
            ),
            DiscoveryEvent::Listener(listener_event) => DiscoveryEffect::Listener(
                self.listener.effect(listener_event),
            ),
        }
    }

    /// How the node goes on from this state.
    pub open spec fn next_move(self) -> NextMove {
        match self.listener.step {
            ListenerStep::Validated(address) => NextMove::Serve(address),
            _ => NextMove::Rediscover,
        }
    }

    /// The state after the events of `events`, one after the other.
    pub open spec fn run(self, events: Seq<DiscoveryEvent>) -> DiscoveryState
        decreases events.len(),
    {
        if events.len() == 0 {
            self
        } else {
            self.step(events[0]).run(events.drop_first())
        }
    }

    /// How many beacon messages go out over the events of `events`.
    pub open spec fn transmissions(self, events: Seq<DiscoveryEvent>) -> nat
        decreases events.len(),
    {
        if events.len() == 0 {
            0
        } else {
            let first: nat = if self.effect(events[0]).is_transmission() {
                1
            } else {
                0
            };
            first + self.step(events[0]).transmissions(events.drop_first())
        }
    }
}

/// One round of discovery.
#[derive(Clone, Copy, Debug)]
pub struct Discovery {
    beacon: Beacon,
    listener: Listener,
}

impl View for Discovery {
    type V = DiscoveryState;

    closed spec fn view(&self) -> DiscoveryState {
        DiscoveryState { beacon: self.beacon@, listener: self.listener@ }
    }
}

impl Discovery {
    #[verifier::type_invariant]
    spec fn inv(self) -> bool {
        self@.wf()
    }

    /// A round on the fresh `challenge`: its beacon runs, and its listener
    /// waits for the answer to that challenge under `key`.
    pub fn new(key: &SecretKey, challenge: Challenge) -> (discovery: Discovery)
        ensures
            discovery@ == DiscoveryState::initial(key@, challenge@),
    {
        Discovery { beacon: Beacon::new(challenge), listener: Listener::new(answer(&challenge, key)) }
    }

    /// The validated controller's address, once there is one.
    pub fn found(&self) -> (address: Option<ServerAddress>)
        ensures
            address is Some <==> self@.found(),
            address is Some ==> self@.listener.step == ListenerStep::Validated(address->Some_0),
    {
        self.listener.validated()
    }

    /// Whether the beacon still runs.
    pub fn beacon_active(&self) -> (active: bool)
        ensures
            active == self@.beacon.active,
            self@.found() ==> !active,
    {
        proof {
            use_type_invariant(self);
        }
        self.beacon.is_active()
    }

    /// Advances the round by one event and says what to do next.
    pub fn step(&mut self, event: DiscoveryEvent) -> (action: DiscoveryAction)
        ensures
            old(self)@.wf(),
            final(self)@ == old(self)@.step(event),
            action@ == old(self)@.effect(event),
    {
        proof {
            use_type_invariant(&*self);
        }
        let mut beacon = self.beacon;
        let mut listener = self.listener;
        match event {
            DiscoveryEvent::Beacon(beacon_event) => {
                let action = beacon.step(beacon_event);
                *self = Discovery { beacon, listener };
                DiscoveryAction::Beacon(action)
            },
            DiscoveryEvent::Listener(listener_event) => {
                let action = listener.step(listener_event);
                if listener.validated().is_some() {
                    let _ = beacon.step(BeaconEvent::Stop);
                }
                *self = Discovery { beacon, listener };
                DiscoveryAction::Listener(action)
            },
        }
    }

    /// How the node goes on once the race between beacon and listener is
    /// over: to a session with the validated controller, or to another
    /// round if there is none.
    pub fn next_move(&self) -> (next: NextMove)
        ensures
            next == self@.next_move(),
    {
        match self.listener.validated() {
            Some(address) => NextMove::Serve(address),
            None => NextMove::Rediscover,
        }
    }
}

/// Once a controller is validated the beacon is stopped, and both stay so:
/// no later event sends a beacon message or lets the controller go.
pub proof fn lemma_found_silences_beacon(state: DiscoveryState, event: DiscoveryEvent)
    requires
        state.wf(),
        state.found(),
    ensures
        !state.effect(event).is_transmission(),
        state.step(event).found(),
        state.step(event).wf(),
        state.step(event).next_move() == state.next_move(),
{
}

/// Every event leaves a well-formed round well formed: the event that
/// validates a controller is the one that stops the beacon.
pub proof fn lemma_step_preserves_wf(state: DiscoveryState, event: DiscoveryEvent)
    requires
        state.wf(),
    ensures
        state.step(event).wf(),
        !state.found() && state.step(event).found() ==> !state.step(event).beacon.active,
{
}

/// After a controller is validated, no beacon message goes out over any
/// sequence of events: the round has to be started anew for the beacon to
/// speak again.
pub proof fn lemma_no_transmission_once_found(state: DiscoveryState, events: Seq<DiscoveryEvent>)
    requires
        state.wf(),
        state.found(),
    ensures
        state.transmissions(events) == 0,
        state.run(events).found(),
        state.run(events).next_move() == state.next_move(),
    decreases events.len(),
{
    if events.len() > 0 {
        lemma_found_silences_beacon(state, events[0]);
        lemma_no_transmission_once_found(state.step(events[0]), events.drop_first());
    }
}

/// A round finds a controller only through a claim that is the answer to
/// the very challenge its beacon announces: whatever came before, the
/// listener goes on to take a peer's address only for that claim. The answer
/// to the challenge of an earlier round, with another digest, is no such
/// claim.
pub proof fn lemma_found_needs_current_answer(
    key: Seq<u8>,
    challenge: Seq<u8>,
    events: Seq<DiscoveryEvent>,
    event: DiscoveryEvent,
)
    requires
        DiscoveryState::initial(key, challenge).run(events).listener.step
            != ListenerStep::Resolving,
        DiscoveryState::initial(key, challenge).run(events).step(event).listener.step
            == ListenerStep::Resolving,
    ensures
        event is Listener,
        event->Listener_0 is Claim,
        event->Listener_0->Claim_0@ == keyed_digest(key, challenge),
{
    lemma_run_keeps_challenge(DiscoveryState::initial(key, challenge), events);
}

/// Every state that a round can reach is well formed: the beacon never
/// runs beside a validated controller.
pub proof fn lemma_reachable_wf(key: Seq<u8>, challenge: Seq<u8>, events: Seq<DiscoveryEvent>)
    ensures
        DiscoveryState::initial(key, challenge).wf(),
        DiscoveryState::initial(key, challenge).run(events).wf(),
{
    lemma_run_preserves_wf(DiscoveryState::initial(key, challenge), events);
}

/// A well-formed round stays well formed over any sequence of events.
pub proof fn lemma_run_preserves_wf(state: DiscoveryState, events: Seq<DiscoveryEvent>)
    requires
        state.wf(),
    ensures
        state.run(events).wf(),
    decreases events.len(),
{
    if events.len() > 0 {
        lemma_step_preserves_wf(state, events[0]);
        lemma_run_preserves_wf(state.step(events[0]), events.drop_first());
    }
}

/// No sequence of events changes the challenge that the beacon announces or
/// the answer that the listener waits for.
pub proof fn lemma_run_keeps_challenge(state: DiscoveryState, events: Seq<DiscoveryEvent>)
    ensures
        state.run(events).beacon.challenge == state.beacon.challenge,
        state.run(events).listener.expected == state.listener.expected,
    decreases events.len(),
{
    if events.len() > 0 {
        lemma_run_keeps_challenge(state.step(events[0]), events.drop_first());
    }
}

/// A wrong claim leaves the beacon running: it sends the listener back to
/// accepting and the caller is told to drop the connection.
pub proof fn lemma_wrong_claim_keeps_beacon(state: DiscoveryState, claim: Vec<u8>)
    requires
        state.listener.step == ListenerStep::Reading,
        claim@ != state.listener.expected,
    ensures
        state.step(DiscoveryEvent::Listener(ListenerEvent::Claim(claim))).beacon == state.beacon,
        state.step(DiscoveryEvent::Listener(ListenerEvent::Claim(claim))).listener.step
            == ListenerStep::Accepting,
        state.effect(DiscoveryEvent::Listener(ListenerEvent::Claim(claim)))
            == DiscoveryEffect::Listener(ListenerAction::Reject),
{
}

} // verus!
