use relay_node::digest::{answer, verify, Answer, Challenge, SecretKey};

fn sample_key() -> SecretKey {
    let mut bytes = [0u8; 32];
    for (index, byte) in bytes.iter_mut().enumerate() {
        *byte = (index as u8).wrapping_mul(7).wrapping_add(3);
    }
    SecretKey::new(bytes)
}

fn key_bytes() -> [u8; 32] {
    let mut bytes = [0u8; 32];
    for (index, byte) in bytes.iter_mut().enumerate() {
        *byte = (index as u8).wrapping_mul(7).wrapping_add(3);
    }
    bytes
}

#[test]
fn answer_is_the_keyed_hash_of_the_challenge() {
    let challenge = [0xabu8; 32];
    let digest = answer(&Challenge::new(challenge), &sample_key());
    let reference = blake3::keyed_hash(&key_bytes(), &challenge);
    assert_eq!(digest.as_bytes(), reference.as_bytes());
}

#[test]
fn answer_under_the_zero_key_matches_the_hasher() {
    let challenge = [0u8; 32];
    let digest = answer(&Challenge::new(challenge), &SecretKey::new([0u8; 32]));
    let reference = blake3::Hasher::new_keyed(&[0u8; 32]).update(&challenge).finalize();
    assert_eq!(digest.as_bytes(), reference.as_bytes());
}

#[test]
fn answer_is_not_the_challenge_handed_back() {
    let challenge = [0x11u8; 32];
    let digest = answer(&Challenge::new(challenge), &sample_key());
    assert_ne!(digest.as_bytes(), &challenge);
    assert_ne!(digest.as_bytes(), &key_bytes());
}

#[test]
fn answer_is_deterministic() {
    let challenge = Challenge::new([0x5au8; 32]);
    let first = answer(&challenge, &sample_key());
    let second = answer(&challenge, &sample_key());
    assert_eq!(first.as_bytes(), second.as_bytes());
    assert!(verify(&first, &second));
}

#[test]
fn different_challenges_have_different_answers() {
    let mut other = [0x5au8; 32];
    other[31] = 0x5b;
    let first = answer(&Challenge::new([0x5au8; 32]), &sample_key());
    let second = answer(&Challenge::new(other), &sample_key());
    assert_ne!(first.as_bytes(), second.as_bytes());
    assert!(!verify(&first, &second));
}

#[test]
fn different_keys_have_different_answers() {
    let challenge = Challenge::new([0x5au8; 32]);
    let first = answer(&challenge, &sample_key());
    let second = answer(&challenge, &SecretKey::new([0u8; 32]));
    assert_ne!(first.as_bytes(), second.as_bytes());
}

#[test]
fn verify_accepts_equal_bytes_only() {
    let expected = Answer::new([9u8; 32]);
    assert!(verify(&Answer::new([9u8; 32]), &expected));
    for index in 0..32 {
        let mut bytes = [9u8; 32];
        bytes[index] ^= 1;
        assert!(!verify(&Answer::new(bytes), &expected));
    }
}

#[test]
fn challenge_and_answer_keep_their_bytes() {
    let mut bytes = [0u8; 32];
    for (index, byte) in bytes.iter_mut().enumerate() {
        *byte = index as u8;
    }
    assert_eq!(Challenge::new(bytes).as_bytes(), &bytes);
    assert_eq!(Answer::new(bytes).as_bytes(), &bytes);
}
