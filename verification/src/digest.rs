//! Challenge and answer: a nonce and its keyed digest under the shared key.
use vstd::prelude::*;
use crate::params::{ANSWER_LENGTH, CHALLENGE_LENGTH, KEY_LENGTH};

verus! {

/// The BLAKE3 keyed hash of `input` under `key`, as a function of the two
/// byte strings. Its definition lives in the hashing crate; here it is only
/// known to be a function.
pub uninterp spec fn keyed_digest(key: Seq<u8>, input: Seq<u8>) -> Seq<u8>;

/// The 256-bit secret that node and controller share. It never leaves the
/// node.
#[derive(Clone, Copy, Debug)]
pub struct SecretKey {
    bytes: [u8; KEY_LENGTH],
}

/// A nonce issued at the start of an authentication round.
#[derive(Clone, Copy, Debug)]
pub struct Challenge {
    bytes: [u8; CHALLENGE_LENGTH],
}

/// The keyed digest of a challenge.
#[derive(Clone, Copy, Debug)]
pub struct Answer {
    bytes: [u8; ANSWER_LENGTH],
}

impl View for SecretKey {
    type V = Seq<u8>;

    closed spec fn view(&self) -> Seq<u8> {
        self.bytes@
    }
}

impl View for Challenge {
    type V = Seq<u8>;

    closed spec fn view(&self) -> Seq<u8> {
        self.bytes@
    }
}

impl View for Answer {
    type V = Seq<u8>;

    closed spec fn view(&self) -> Seq<u8> {
        self.bytes@
    }
}

impl SecretKey {
    /// The key made of the given bytes.
    pub fn new(bytes: [u8; KEY_LENGTH]) -> (key: SecretKey)
        ensures
            key@ == bytes@,
    {
        SecretKey { bytes }
    }

    /// A key is always `KEY_LENGTH` bytes long.
    pub proof fn lemma_len(self)
        ensures
            self@.len() == KEY_LENGTH,
    {
    }
}

impl Challenge {
    /// The challenge made of the given bytes, which the caller drew from its
    /// random source.
    pub fn new(bytes: [u8; CHALLENGE_LENGTH]) -> (challenge: Challenge)
        ensures
            challenge@ == bytes@,
    {
        Challenge { bytes }
    }

    /// The bytes of the challenge.
    pub fn as_bytes(&self) -> (bytes: &[u8; CHALLENGE_LENGTH])
        ensures
            bytes@ == self@,
    {
        &self.bytes
    }

    /// A challenge is always `CHALLENGE_LENGTH` bytes long.
    pub proof fn lemma_len(self)
        ensures
            self@.len() == CHALLENGE_LENGTH,
    {
    }
}

impl Answer {
    /// The answer made of the given bytes.
    pub fn new(bytes: [u8; ANSWER_LENGTH]) -> (answer: Answer)
        ensures
            answer@ == bytes@,
    {
        Answer { bytes }
    }

    /// The bytes of the answer.
    pub fn as_bytes(&self) -> (bytes: &[u8; ANSWER_LENGTH])
        ensures
            bytes@ == self@,
    {
        &self.bytes
    }

    /// An answer is always `ANSWER_LENGTH` bytes long.
    pub proof fn lemma_len(self)
        ensures
            self@.len() == ANSWER_LENGTH,
    {
    }
}

/// Calls `blake3::keyed_hash` and copies the 32 bytes out of the `Hash` it
/// returns. The contract gives that result its name and claims nothing else
/// of it.
#[verifier::external_body]
fn keyed_hash_bytes(key: &[u8; 32], input: &[u8]) -> (out: [u8; 32])
    ensures
        out@ == keyed_digest(key@, input@),
{
    *blake3::keyed_hash(key, input).as_bytes()
}

/// Compares two digests with `blake3::Hash`'s `==`, which looks at all 32
/// bytes whatever they hold. The contract claims that it is true exactly
/// when the two arrays hold the same bytes.
#[verifier::external_body]
fn hash_eq(left: &[u8; 32], right: &[u8; 32]) -> (same: bool)
    ensures
        same == (left@ == right@),
{
    blake3::Hash::from_bytes(*left) == blake3::Hash::from_bytes(*right)
}

/// The answer that proves possession of `key` for `challenge`.
pub fn answer(challenge: &Challenge, key: &SecretKey) -> (digest: Answer)
    ensures
        digest@ == keyed_digest(key@, challenge@),
{
    Answer { bytes: keyed_hash_bytes(&key.bytes, challenge.bytes.as_slice()) }
}

/// Whether `answer` is byte for byte the `expected` one. This is the only
/// trust decision in the protocol.
pub fn verify(answer: &Answer, expected: &Answer) -> (accepted: bool)
    ensures
        accepted == (answer@ == expected@),
{
    hash_eq(&answer.bytes, &expected.bytes)
}

/// Equal challenges under equal keys have equal answers: the digest depends
/// on nothing but the key and the challenge.
pub proof fn lemma_answer_deterministic(key1: SecretKey, key2: SecretKey, c1: Challenge, c2: Challenge)
    requires
        key1@ == key2@,
        c1@ == c2@,
    ensures
        keyed_digest(key1@, c1@) == keyed_digest(key2@, c2@),
{
}

} // verus!
