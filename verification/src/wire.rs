//! The fixed-length messages of the protocol. None carries a length prefix:
//! each is recognised by its length alone.
use vstd::prelude::*;
use crate::actuation::{command_of, ActionCommand};
use crate::digest::{Answer, Challenge};
use crate::params::{ANSWER_LENGTH, CHALLENGE_LENGTH, IDENTITY_LENGTH};

verus! {

/// First byte of every beacon.
pub const BEACON_SENTINEL: u8 = 0x45;

/// Second byte of every beacon.
pub const BEACON_VERSION: u8 = 0x00;

/// Byte that opens a round, in front of the round's challenge.
pub const ROUND_NOTIFIER: u8 = 0x02;

/// Byte that tells the controller that the machine already is where the
/// command wants it.
pub const SATISFIED_ACK: u8 = 0x01;

/// Length of a beacon: sentinel, version, challenge.
pub const BEACON_LENGTH: usize = 34;

/// Length of a controller's claim: one answer.
pub const CLAIM_LENGTH: usize = 32;

/// Length of the introduction: identity, answer.
pub const INTRODUCTION_LENGTH: usize = 38;

/// Length of a round start: notifier, challenge.
pub const ROUND_START_LENGTH: usize = 33;

/// Length of a command frame: tag, answer.
pub const COMMAND_LENGTH: usize = 33;

/// The node's stable link-layer address.
#[derive(Clone, Copy, Debug, PartialEq, Eq)]
pub struct NodeIdentity {
    bytes: [u8; IDENTITY_LENGTH],
}

impl View for NodeIdentity {
    type V = Seq<u8>;

    closed spec fn view(&self) -> Seq<u8> {
        self.bytes@
    }
}

impl NodeIdentity {
    /// The identity made of the given address bytes.
    pub fn new(bytes: [u8; IDENTITY_LENGTH]) -> (identity: NodeIdentity)
        ensures
            identity@ == bytes@,
    {
        NodeIdentity { bytes }
    }

    /// The address bytes.
    pub fn as_bytes(&self) -> (bytes: &[u8; IDENTITY_LENGTH])
        ensures
            bytes@ == self@,
    {
        &self.bytes
    }

    /// An identity is always `IDENTITY_LENGTH` bytes long.
    pub proof fn lemma_len(self)
        ensures
            self@.len() == IDENTITY_LENGTH,
    {
    }
}

/// A command frame taken apart.
#[derive(Clone, Copy, Debug)]
pub struct CommandFrame {
    pub command: ActionCommand,
    pub answer: Answer,
}

/// Bytes of the beacon that carries `challenge`.
pub open spec fn beacon_bytes(challenge: Seq<u8>) -> Seq<u8> {
    seq![BEACON_SENTINEL, BEACON_VERSION] + challenge
}

/// Bytes of the introduction of `identity` with its `answer`.
pub open spec fn introduction_bytes(identity: Seq<u8>, answer: Seq<u8>) -> Seq<u8> {
    identity + answer
}

/// Bytes that open a round on `challenge`.
pub open spec fn round_start_bytes(challenge: Seq<u8>) -> Seq<u8> {
    seq![ROUND_NOTIFIER] + challenge
}

/// Whether `bytes` has the length of a command frame.
pub open spec fn is_command_frame(bytes: Seq<u8>) -> bool {
    bytes.len() == COMMAND_LENGTH
}

/// The command that a frame carries.
pub open spec fn frame_command(bytes: Seq<u8>) -> ActionCommand
    recommends
        is_command_frame(bytes),
{
    command_of(bytes[0])
}

/// The answer that a frame carries.
pub open spec fn frame_answer(bytes: Seq<u8>) -> Seq<u8>
    recommends
        is_command_frame(bytes),
{
    bytes.subrange(1, COMMAND_LENGTH as int)
}

/// Copies `source` into `target` from index `at` on and leaves the rest of
/// `target` as it was.
fn place<const N: usize>(target: &mut [u8; N], at: usize, source: &[u8])
    requires
        at + source@.len() <= N,
    ensures
        final(target)@ == old(target)@.subrange(0, at as int) + source@ + old(target)@.subrange(
            at + source@.len(),
            N as int,
        ),
{
    let mut index: usize = 0;
    while index < source.len()
        invariant
            index <= source@.len(),
            at + source@.len() <= N,
            target@.len() == N,
            forall|k: int| 0 <= k < index ==> target@[at + k] == source@[k],
            forall|k: int| 0 <= k < at ==> target@[k] == old(target)@[k],
            forall|k: int| at + index <= k < N ==> target@[k] == old(target)@[k],
        decreases source@.len() - index,
    {
        target[at + index] = source[index];
        index += 1;
    }
    assert(target@ =~= old(target)@.subrange(0, at as int) + source@ + old(target)@.subrange(
        at + source@.len(),
        N as int,
    ));
}

/// Reads the `N` bytes of `source` that start at index `at`.
fn take<const N: usize>(source: &[u8], at: usize) -> (out: [u8; N])
    requires
        at + N <= source@.len(),
    ensures
        out@ == source@.subrange(at as int, at + N),
{
    let total: usize = source.len();
    let mut out: [u8; N] = [0u8; N];
    let mut index: usize = 0;
    while index < N
        invariant
            index <= N,
            at + N <= total == source@.len(),
            out@.len() == N,
            forall|k: int| 0 <= k < index ==> out@[k] == source@[at + k],
        decreases N - index,
    {
        out[index] = source[at + index];
        index += 1;
    }
    assert(out@ =~= source@.subrange(at as int, at + N));
    out
}

/// The beacon that announces `challenge`: sentinel, version, challenge.
pub fn beacon_message(challenge: &Challenge) -> (message: [u8; BEACON_LENGTH])
    ensures
        message@ == beacon_bytes(challenge@),
{
    let mut message: [u8; BEACON_LENGTH] = [0u8; BEACON_LENGTH];
    message[0] = BEACON_SENTINEL;
    message[1] = BEACON_VERSION;
    proof {
        challenge.lemma_len();
    }
    place(&mut message, 2, challenge.as_bytes().as_slice());
    assert(message@ =~= beacon_bytes(challenge@));
    message
}

/// The frame by which the node introduces itself: its identity, then its
/// answer to the controller's challenge.
pub fn introduction(identity: &NodeIdentity, answer: &Answer) -> (frame: [u8; INTRODUCTION_LENGTH])
    ensures
        frame@ == introduction_bytes(identity@, answer@),
{
    let mut frame: [u8; INTRODUCTION_LENGTH] = [0u8; INTRODUCTION_LENGTH];
    proof {
        identity.lemma_len();
        answer.lemma_len();
    }
    place(&mut frame, 0, identity.as_bytes().as_slice());
    place(&mut frame, IDENTITY_LENGTH, answer.as_bytes().as_slice());
    assert(frame@ =~= introduction_bytes(identity@, answer@));
    frame
}

/// The frame that opens a round: the notifier, then the round's challenge.
pub fn round_start(challenge: &Challenge) -> (frame: [u8; ROUND_START_LENGTH])
    ensures
        frame@ == round_start_bytes(challenge@),
{
    let mut frame: [u8; ROUND_START_LENGTH] = [0u8; ROUND_START_LENGTH];
    frame[0] = ROUND_NOTIFIER;
    proof {
        challenge.lemma_len();
    }
    place(&mut frame, 1, challenge.as_bytes().as_slice());
    assert(frame@ =~= round_start_bytes(challenge@));
    frame
}

/// Reads a challenge that a controller sent: any `CHALLENGE_LENGTH` bytes
/// are one, anything else is none.
pub fn parse_challenge(bytes: &[u8]) -> (parsed: Option<Challenge>)
    ensures
        parsed is Some <==> bytes@.len() == CHALLENGE_LENGTH,
        parsed is Some ==> parsed->Some_0@ == bytes@,
{
    if bytes.len() != CHALLENGE_LENGTH {
        return None;
    }
    let raw: [u8; CHALLENGE_LENGTH] = take(bytes, 0);
    assert(bytes@.subrange(0, CHALLENGE_LENGTH as int) =~= bytes@);
    Some(Challenge::new(raw))
}

/// Reads a controller's claim: any `CLAIM_LENGTH` bytes are an answer,
/// anything else is none.
pub fn parse_claim(bytes: &[u8]) -> (parsed: Option<Answer>)
    ensures
        parsed is Some <==> bytes@.len() == CLAIM_LENGTH,
        parsed is Some ==> parsed->Some_0@ == bytes@,
{
    if bytes.len() != CLAIM_LENGTH {
        return None;
    }
    let raw: [u8; ANSWER_LENGTH] = take(bytes, 0);
    assert(bytes@.subrange(0, ANSWER_LENGTH as int) =~= bytes@);
    Some(Answer::new(raw))
}

/// Takes a command frame apart: the first byte is the command's tag, the
/// rest the answer. Bytes of any other length are no frame.
pub fn parse_command(bytes: &[u8]) -> (parsed: Option<CommandFrame>)
    ensures
        parsed is Some <==> is_command_frame(bytes@),
        parsed is Some ==> parsed->Some_0.command == frame_command(bytes@),
        parsed is Some ==> parsed->Some_0.answer@ == frame_answer(bytes@),
{
    if bytes.len() != COMMAND_LENGTH {
        return None;
    }
    let command = ActionCommand::from_tag(bytes[0]);
    let raw: [u8; ANSWER_LENGTH] = take(bytes, 1);
    Some(CommandFrame { command, answer: Answer::new(raw) })
}

} // verus!
