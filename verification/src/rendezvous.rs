//! The rendezvous listener: the one place where an unknown peer's claim
//! becomes a trusted controller address.
//!
//! The listener owns no socket. The caller accepts connections and reads
//! from them, reports each outcome as a [`ListenerEvent`] and carries out the
//! [`ListenerAction`] it gets back.
use vstd::prelude::*;
use crate::digest::{verify, Answer};
use crate::wire::{parse_claim, CLAIM_LENGTH};

verus! {

/// Network address of a controller, as the bits of its IP address.
#[derive(Clone, Copy, Debug, PartialEq, Eq, Structural)]
pub enum ServerAddress {
    V4(u32),
    V6(u128),
}

/// Where the listener stands.
#[derive(Clone, Copy, Debug, PartialEq, Eq, Structural)]
pub enum ListenerStep {
    /// Waiting for a peer to connect.
    Accepting,
    /// A peer has connected and its claim is being read.
    Reading,
    /// The claim was right and the peer's address is being taken.
    Resolving,
    /// A controller has been validated at this address.
    Validated(ServerAddress),
}

/// What the caller reports to the listener.
#[derive(Debug)]
pub enum ListenerEvent {
    /// A peer has connected.
    Connected,
    /// Accepting or reading failed or timed out.
    Failed,
    /// The bytes read as the peer's claim.
    Claim(Vec<u8>),
    /// The address of the connected peer.
    Peer(ServerAddress),
}

/// What the listener asks its caller to do next.
#[derive(Clone, Copy, Debug, PartialEq, Eq, Structural)]
pub enum ListenerAction {
    /// Nothing new.
    Nothing,
    /// Accept a connection on `NODE_PORT`, waiting `LISTEN_TIMEOUT_SECS` at
    /// most.
    Accept,
    /// Read a claim of `CLAIM_LENGTH` bytes from the peer.
    ReadClaim,
    /// Abort and close the connection, then accept again.
    Reject,
    /// Take the peer's address and report it as `ListenerEvent::Peer`.
    ResolvePeer,
    /// Close the connection, tell the beacon to stop and connect back to
    /// this address.
    Conclude(ServerAddress),
}

/// State of a listener: the answer it waits for and the step it is at.
pub struct ListenerState {
    pub expected: Seq<u8>,
    pub step: ListenerStep,
}

impl ListenerState {
    /// The state a listener starts in.
    pub open spec fn initial(expected: Seq<u8>) -> ListenerState {
        ListenerState { expected, step: ListenerStep::Accepting }
    }

    /// Whether `claim` proves possession of the key: it is the expected
    /// answer, byte for byte.
    pub open spec fn admits(self, claim: Seq<u8>) -> bool {
        claim == self.expected
    }

    /// The state with its step replaced.
    pub open spec fn at(self, step: ListenerStep) -> ListenerState {
        ListenerState { step, ..self }
    }

    /// The state after `event`.
    pub open spec fn step(self, event: ListenerEvent) -> ListenerState {
        match (self.step, event) {
            (ListenerStep::Accepting, ListenerEvent::Connected) => self.at(ListenerStep::Reading),
            (ListenerStep::Reading, ListenerEvent::Claim(claim)) => if self.admits(claim@) {
                self.at(ListenerStep::Resolving)
            } else {
                self.at(ListenerStep::Accepting)
            },
            (ListenerStep::Reading, ListenerEvent::Failed) => self.at(ListenerStep::Accepting),
            (ListenerStep::Resolving, ListenerEvent::Peer(address)) => self.at(
                ListenerStep::Validated(address),
            ),
            _ => self,
        }
    }

    /// What the caller has to do in answer to `event`.
    pub open spec fn effect(self, event: ListenerEvent) -> ListenerAction {
        match (self.step, event) {
            (ListenerStep::Accepting, ListenerEvent::Connected) => ListenerAction::ReadClaim,
            (ListenerStep::Accepting, ListenerEvent::Failed) => ListenerAction::Accept,
            (ListenerStep::Reading, ListenerEvent::Claim(claim)) => if self.admits(claim@) {
                ListenerAction::ResolvePeer
            } else {
                ListenerAction::Reject
            },
            (ListenerStep::Reading, ListenerEvent::Failed) => ListenerAction::Reject,
            (ListenerStep::Resolving, ListenerEvent::Peer(address)) => ListenerAction::Conclude(
                address,
            ),
            _ => ListenerAction::Nothing,
        }
    }

    /// The state after the events of `events`, one after the other.
    pub open spec fn run(self, events: Seq<ListenerEvent>) -> ListenerState
        decreases events.len(),
    {
        if events.len() == 0 {
            self
        } else {
            self.step(events[0]).run(events.drop_first())
        }
    }
}

/// A listener for the claim on one challenge.
#[derive(Clone, Copy, Debug)]
pub struct Listener {
    expected: Answer,
    step: ListenerStep,
}

impl View for Listener {
    type V = ListenerState;

    closed spec fn view(&self) -> ListenerState {
        ListenerState { expected: self.expected@, step: self.step }
    }
}

impl Listener {
    /// A listener that waits for `expected`, about to accept its first
    /// connection.
    pub fn new(expected: Answer) -> (listener: Listener)
        ensures
            listener@ == ListenerState::initial(expected@),
    {
        Listener { expected, step: ListenerStep::Accepting }
    }

    /// The step the listener stands at.
    pub fn current_step(&self) -> (step: ListenerStep)
        ensures
            step == self@.step,
    {
        self.step
    }

    /// The validated controller's address, once there is one.
    pub fn validated(&self) -> (address: Option<ServerAddress>)
        ensures
            address == match self@.step {
                ListenerStep::Validated(found) => Some(found),
                _ => None::<ServerAddress>,
            },
    {
        match self.step {
            ListenerStep::Validated(found) => Some(found),
            _ => None,
        }
    }

    /// Whether `claim` is the answer this listener waits for. Bytes of any
    /// other length than a claim's are none.
    pub fn admits(&self, claim: &[u8]) -> (admitted: bool)
        ensures
            admitted == self@.admits(claim@),
    {
        proof {
            self.expected.lemma_len();
        }
        match parse_claim(claim) {
            Some(answer) => verify(&answer, &self.expected),
            None => false,
        }
    }

    /// Advances the listener by one event and says what to do next. A bad
    /// claim, a failed read and a failed accept all lead back to accepting:
    /// no peer can end the listener but one that proves the key.
    pub fn step(&mut self, event: ListenerEvent) -> (action: ListenerAction)
        ensures
            final(self)@ == old(self)@.step(event),
            action == old(self)@.effect(event),
    {
        match self.step {
            ListenerStep::Accepting => match event {
                ListenerEvent::Connected => {
                    self.step = ListenerStep::Reading;
                    ListenerAction::ReadClaim
                },
                ListenerEvent::Failed => ListenerAction::Accept,
                _ => ListenerAction::Nothing,
            },
            ListenerStep::Reading => match event {
                ListenerEvent::Claim(claim) => {
                    if self.admits(claim.as_slice()) {
                        self.step = ListenerStep::Resolving;
                        ListenerAction::ResolvePeer
                    } else {
                        self.step = ListenerStep::Accepting;
                        ListenerAction::Reject
                    }
                },
                ListenerEvent::Failed => {
                    self.step = ListenerStep::Accepting;
                    ListenerAction::Reject
                },
                _ => ListenerAction::Nothing,
            },
            ListenerStep::Resolving => match event {
                ListenerEvent::Peer(address) => {
                    self.step = ListenerStep::Validated(address);
                    ListenerAction::Conclude(address)
                },
                _ => ListenerAction::Nothing,
            },
            ListenerStep::Validated(_) => ListenerAction::Nothing,
        }
    }
}

/// A claim is admitted only if it has the length of a claim.
pub proof fn lemma_admitted_claim_length(listener: Listener, claim: Seq<u8>)
    requires
        listener@.admits(claim),
    ensures
        claim.len() == CLAIM_LENGTH,
{
    listener.expected.lemma_len();
}

/// The listener never changes the answer it waits for.
pub proof fn lemma_expected_is_fixed(state: ListenerState, event: ListenerEvent)
    ensures
        state.step(event).expected == state.expected,
{
}

/// A controller is validated only through a claim that is the expected
/// answer: the listener reaches the step that takes the peer's address by
/// no other event.
pub proof fn lemma_validation_needs_proof(state: ListenerState, event: ListenerEvent)
    requires
        state.step(event).step == ListenerStep::Resolving,
        state.step != ListenerStep::Resolving,
    ensures
        state.step == ListenerStep::Reading,
        event is Claim,
        event->Claim_0@ == state.expected,
{
}

/// A wrong claim, a failed read or a failed accept sends the listener back
/// to accepting and never ends it.
pub proof fn lemma_bad_peer_is_tolerated(state: ListenerState, event: ListenerEvent)
    requires
        state.step == ListenerStep::Accepting || state.step == ListenerStep::Reading,
        event is Failed || (event is Claim && event->Claim_0@ != state.expected),
    ensures
        state.step(event).step == ListenerStep::Accepting || state.step(event).step
            == ListenerStep::Reading,
        !(state.step(event).step is Validated),
        state.step == ListenerStep::Reading ==> state.effect(event) == ListenerAction::Reject,
{
}

/// The address that the listener concludes with is the one it keeps, and a
/// validated listener stays as it is.
pub proof fn lemma_validated_is_final(state: ListenerState, event: ListenerEvent)
    ensures
        state.effect(event) is Conclude ==> state.step(event).step == ListenerStep::Validated(
            state.effect(event)->Conclude_0,
        ),
        state.step is Validated ==> state.step(event) == state && state.effect(event)
            == ListenerAction::Nothing,
{
}

} // verus!
