//! What holds of every session, whatever the controller sends.
use vstd::prelude::*;
use crate::actuation::{level_byte, target_level, ActionCommand, MachineLevel, Relay};
use crate::digest::{keyed_digest, Challenge};
use crate::session::model::{bumped, CloseReason, Effect, Event, SessionState, Step};
use crate::wire::{frame_answer, frame_command, is_command_frame, SATISFIED_ACK};

verus! {

/// A session starts well formed, with no fault counted and no challenge
/// live.
pub proof fn lemma_initial_wf(key: Seq<u8>, identity: Seq<u8>, tolerance: nat)
    ensures
        SessionState::initial(key, identity, tolerance).wf(),
        SessionState::initial(key, identity, tolerance).faults == 0,
        SessionState::initial(key, identity, tolerance).live is None,
{
}

/// Every event leaves a well-formed session well formed.
pub proof fn lemma_step_preserves_wf(state: SessionState, event: Event)
    requires
        state.wf(),
    ensures
        state.step(event).wf(),
{
}

/// No event changes the key, the identity or the tolerance of a session.
pub proof fn lemma_step_keeps_parameters(state: SessionState, event: Event)
    ensures
        state.step(event).key == state.key,
        state.step(event).identity == state.identity,
        state.step(event).tolerance == state.tolerance,
{
}

/// The fault counter never decreases, and it moves only when a command
/// frame is turned down.
pub proof fn lemma_faults_never_decrease(state: SessionState, event: Event)
    ensures
        state.step(event).faults >= state.faults,
        state.step(event).faults != state.faults ==> state.step == Step::Listening
            && event is Command && !state.accepts(event->Command_0@),
{
}

/// A command frame that is turned down counts as exactly one fault, up to
/// the largest count the machine can hold, and nothing is actuated for it.
pub proof fn lemma_rejected_frame_is_a_fault(
    state: SessionState,
    frame: Vec<u8>,
    level: MachineLevel,
)
    requires
        state.step == Step::Listening,
        !state.accepts(frame@),
    ensures
        state.step(Event::Command(frame, level)).faults == bumped(state.faults),
        state.faults < usize::MAX ==> state.step(Event::Command(frame, level)).faults
            == state.faults + 1,
        !state.effect(Event::Command(frame, level)).is_dispatch(),
        state.step(Event::Command(frame, level)).live is None,
{
}

/// The session closes for faults exactly when the count exceeds the
/// tolerance: the fault that makes it `tolerance + 1` closes it, no earlier
/// one does.
pub proof fn lemma_fault_limit(state: SessionState, frame: Vec<u8>, level: MachineLevel)
    requires
        state.wf(),
        state.step == Step::Listening,
        !state.accepts(frame@),
        state.tolerance < usize::MAX,
    ensures
        state.faults < state.tolerance ==> state.step(Event::Command(frame, level)).step
            == Step::Idle,
        state.faults == state.tolerance ==> state.step(Event::Command(frame, level)).step
            == Step::Closed(CloseReason::FaultLimit),
        state.faults == state.tolerance ==> state.effect(Event::Command(frame, level))
            == Effect::Release,
{
}

/// A closed session stays as it is and asks for nothing more.
pub proof fn lemma_closed_is_final(state: SessionState, event: Event)
    requires
        state.step is Closed,
    ensures
        state.step(event) == state,
        state.effect(event) == Effect::Nothing,
{
}

/// Once the faults exceed the tolerance, no event dispatches an action any
/// more: the session is closed and stays so.
pub proof fn lemma_no_dispatch_beyond_tolerance(state: SessionState, event: Event)
    requires
        state.wf(),
        state.faults > state.tolerance,
    ensures
        !state.effect(event).is_dispatch(),
        state.step(event) == state,
{
}

/// A relay is pulsed or a command acknowledged only for a command frame
/// that answers the live challenge, and in no other step than listening.
pub proof fn lemma_dispatch_needs_proof(state: SessionState, event: Event)
    requires
        state.effect(event).is_dispatch(),
    ensures
        state.step == Step::Listening,
        event is Command,
        state.accepts(event->Command_0@),
        state.live is Some,
        frame_answer(event->Command_0@) == keyed_digest(state.key, state.live->Some_0),
{
}

/// The node is told to release the socket and the relays exactly when an
/// event closes the session, whatever the step it closes from.
pub proof fn lemma_release_on_close(state: SessionState, event: Event)
    ensures
        state.effect(event) == Effect::Release <==> (!(state.step is Closed) && state.step(
            event,
        ).step is Closed),
{
}

/// An accepted command never pulses the power relay while the machine
/// already is where the command wants it: the node acknowledges instead.
/// Power-on at high and power-off at low are the two cases.
pub proof fn lemma_satisfied_command_is_acknowledged(
    state: SessionState,
    frame: Vec<u8>,
    level: MachineLevel,
)
    requires
        state.step == Step::Listening,
        state.accepts(frame@),
        target_level(frame_command(frame@)) == Some(level),
    ensures
        state.effect(Event::Command(frame, level)) == Effect::Acknowledge(SATISFIED_ACK),
        !(state.effect(Event::Command(frame, level)) is Pulse),
{
}

/// An accepted command pulses the power relay exactly when it asks for the
/// level the machine is not at, and the reset relay exactly when it is a
/// reset.
pub proof fn lemma_accepted_command_effect(
    state: SessionState,
    frame: Vec<u8>,
    level: MachineLevel,
)
    requires
        state.step == Step::Listening,
        state.accepts(frame@),
    ensures
        state.effect(Event::Command(frame, level)) == Effect::Pulse(Relay::Power) <==> (
        target_level(frame_command(frame@)) is Some && target_level(frame_command(frame@))
            != Some(level)),
        state.effect(Event::Command(frame, level)) == Effect::Pulse(Relay::Reset)
            <==> frame_command(frame@) == ActionCommand::Reset,
        state.step(Event::Command(frame, level)).step == Step::Acting,
        state.step(Event::Command(frame, level)).faults == state.faults,
{
}

/// Only the challenge of the round under way can be answered. Once a round
/// has been opened on `current`, a frame that carries the answer to any
/// challenge with another digest is turned down and counted as a fault,
/// whatever was live before and even if that frame would have been taken
/// in an earlier round.
pub proof fn lemma_superseded_answer_rejected(
    state: SessionState,
    current: Challenge,
    superseded: Seq<u8>,
    frame: Vec<u8>,
    level: MachineLevel,
)
    requires
        state.step == Step::Idle,
        frame_answer(frame@) == keyed_digest(state.key, superseded),
        keyed_digest(state.key, superseded) != keyed_digest(state.key, current@),
    ensures
        ({
            let listening = state.step(Event::FreshChallenge(current)).step(Event::Completed);
            &&& listening.step == Step::Listening
            &&& listening.live == Some(current@)
            &&& !listening.accepts(frame@)
            &&& !listening.effect(Event::Command(frame, level)).is_dispatch()
            &&& listening.step(Event::Command(frame, level)).faults == bumped(state.faults)
        }),
{
}

/// A frame is accepted exactly when it has the length of a command frame,
/// carries the digest of the live challenge and names a command.
pub proof fn lemma_accepts_only_live_answer(state: SessionState, frame: Seq<u8>)
    ensures
        state.accepts(frame) <==> (is_command_frame(frame) && state.live is Some
            && frame_answer(frame) == keyed_digest(state.key, state.live->Some_0) && !(
        frame_command(frame) is Invalid)),
{
}

/// A level is reported only when it differs from the one last reported,
/// and is then remembered as reported.
pub proof fn lemma_report_on_change(state: SessionState, level: MachineLevel)
    requires
        state.step == Step::Listening,
    ensures
        state.effect(Event::Level(level)) is Report <==> state.reported != Some(level),
        state.effect(Event::Level(level)) is Report ==> state.effect(Event::Level(level))
            == Effect::Report(level_byte(level)),
        state.step(Event::Level(level)).reported == Some(level),
        state.step(Event::Level(level)).step(Event::Level(level)) == state.step(
            Event::Level(level),
        ),
        state.step(Event::Level(level)).effect(Event::Level(level)) == Effect::Nothing,
{
}

/// Along any sequence of events a well-formed session stays well formed
/// and its fault counter never decreases.
pub proof fn lemma_run_monotonic(state: SessionState, events: Seq<Event>)
    requires
        state.wf(),
    ensures
        state.run(events).wf(),
        state.run(events).faults >= state.faults,
        state.run(events).tolerance == state.tolerance,
    decreases events.len(),
{
    if events.len() > 0 {
        lemma_step_preserves_wf(state, events[0]);
        lemma_faults_never_decrease(state, events[0]);
        lemma_run_monotonic(state.step(events[0]), events.drop_first());
    }
}

/// Once the faults exceed the tolerance, no sequence of events changes the
/// session any more.
pub proof fn lemma_run_after_limit(state: SessionState, events: Seq<Event>)
    requires
        state.wf(),
        state.faults > state.tolerance,
    ensures
        state.run(events) == state,
    decreases events.len(),
{
    if events.len() > 0 {
        lemma_no_dispatch_beyond_tolerance(state, events[0]);
        lemma_run_after_limit(state, events.drop_first());
    }
}

} // verus!
