use relay_node::beacon::{Beacon, BeaconAction, BeaconEvent};
use relay_node::digest::{Challenge, SecretKey};
use relay_node::discovery::{Discovery, DiscoveryAction, DiscoveryEvent, NextMove};
use relay_node::params::BEACON_INTERVAL_SECS;
use relay_node::rendezvous::{ListenerAction, ListenerEvent, ServerAddress};

const SHARED: [u8; 32] = [0x99; 32];

fn beacon_of(challenge: [u8; 32]) -> [u8; 34] {
    let mut message = [0u8; 34];
    message[0] = 0x45;
    message[1] = 0x00;
    message[2..].copy_from_slice(&challenge);
    message
}

fn right_claim(challenge: [u8; 32]) -> Vec<u8> {
    blake3::keyed_hash(&SHARED, &challenge).as_bytes().to_vec()
}

#[test]
fn beacon_transmits_when_due_and_sleeps_after() {
    let mut beacon = Beacon::new(Challenge::new([5; 32]));
    assert!(beacon.is_active());
    assert_eq!(beacon.challenge().as_bytes(), &[5; 32]);
    assert_eq!(beacon.step(BeaconEvent::Due), BeaconAction::Transmit(beacon_of([5; 32])));
    assert_eq!(beacon.step(BeaconEvent::Sent), BeaconAction::Sleep(2));
    assert_eq!(beacon.step(BeaconEvent::Due), BeaconAction::Transmit(beacon_of([5; 32])));
    assert_eq!(BEACON_INTERVAL_SECS, 2);
}

#[test]
fn beacon_ignores_a_failed_send() {
    let mut beacon = Beacon::new(Challenge::new([5; 32]));
    beacon.step(BeaconEvent::Due);
    assert_eq!(beacon.step(BeaconEvent::SendFailed), BeaconAction::Sleep(2));
    assert!(beacon.is_active());
    assert_eq!(beacon.step(BeaconEvent::Due), BeaconAction::Transmit(beacon_of([5; 32])));
}

#[test]
fn stopped_beacon_stays_silent() {
    let mut beacon = Beacon::new(Challenge::new([5; 32]));
    assert_eq!(beacon.step(BeaconEvent::Stop), BeaconAction::Halt);
    assert!(!beacon.is_active());
    assert_eq!(beacon.step(BeaconEvent::Due), BeaconAction::Halt);
    assert_eq!(beacon.step(BeaconEvent::Sent), BeaconAction::Halt);
    assert_eq!(beacon.step(BeaconEvent::SendFailed), BeaconAction::Halt);
    assert_eq!(beacon.step(BeaconEvent::Stop), BeaconAction::Halt);
    assert!(!beacon.is_active());
}

#[test]
fn discovery_listens_for_the_answer_to_its_beacon() {
    let mut discovery = Discovery::new(&SecretKey::new(SHARED), Challenge::new([8; 32]));
    assert!(discovery.beacon_active());
    assert_eq!(discovery.found(), None);
    assert_eq!(discovery.next_move(), NextMove::Rediscover);
    assert_eq!(
        discovery.step(DiscoveryEvent::Beacon(BeaconEvent::Due)),
        DiscoveryAction::Beacon(BeaconAction::Transmit(beacon_of([8; 32])))
    );
    assert_eq!(
        discovery.step(DiscoveryEvent::Listener(ListenerEvent::Connected)),
        DiscoveryAction::Listener(ListenerAction::ReadClaim)
    );
    assert_eq!(
        discovery.step(DiscoveryEvent::Listener(ListenerEvent::Claim(right_claim([8; 32])))),
        DiscoveryAction::Listener(ListenerAction::ResolvePeer)
    );
    assert!(discovery.beacon_active());
    let address = ServerAddress::V4(0x0a00_0002);
    assert_eq!(
        discovery.step(DiscoveryEvent::Listener(ListenerEvent::Peer(address))),
        DiscoveryAction::Listener(ListenerAction::Conclude(address))
    );
    assert_eq!(discovery.found(), Some(address));
    assert_eq!(discovery.next_move(), NextMove::Serve(address));
    assert!(!discovery.beacon_active());
}

#[test]
fn no_beacon_goes_out_once_a_controller_is_validated() {
    let mut discovery = Discovery::new(&SecretKey::new(SHARED), Challenge::new([8; 32]));
    discovery.step(DiscoveryEvent::Listener(ListenerEvent::Connected));
    discovery.step(DiscoveryEvent::Listener(ListenerEvent::Claim(right_claim([8; 32]))));
    discovery.step(DiscoveryEvent::Listener(ListenerEvent::Peer(ServerAddress::V4(1))));
    for _ in 0..5 {
        assert_eq!(
            discovery.step(DiscoveryEvent::Beacon(BeaconEvent::Due)),
            DiscoveryAction::Beacon(BeaconAction::Halt)
        );
        assert_eq!(
            discovery.step(DiscoveryEvent::Beacon(BeaconEvent::Sent)),
            DiscoveryAction::Beacon(BeaconAction::Halt)
        );
        assert_eq!(
            discovery.step(DiscoveryEvent::Listener(ListenerEvent::Connected)),
            DiscoveryAction::Listener(ListenerAction::Nothing)
        );
    }
    assert_eq!(discovery.next_move(), NextMove::Serve(ServerAddress::V4(1)));
    let mut next = Discovery::new(&SecretKey::new(SHARED), Challenge::new([9; 32]));
    assert_eq!(
        next.step(DiscoveryEvent::Beacon(BeaconEvent::Due)),
        DiscoveryAction::Beacon(BeaconAction::Transmit(beacon_of([9; 32])))
    );
}

#[test]
fn replayed_claim_is_rejected_and_the_beacon_keeps_running() {
    let replayed = right_claim([8; 32]);
    let mut discovery = Discovery::new(&SecretKey::new(SHARED), Challenge::new([9; 32]));
    discovery.step(DiscoveryEvent::Listener(ListenerEvent::Connected));
    assert_eq!(
        discovery.step(DiscoveryEvent::Listener(ListenerEvent::Claim(replayed))),
        DiscoveryAction::Listener(ListenerAction::Reject)
    );
    assert_eq!(discovery.found(), None);
    assert!(discovery.beacon_active());
    assert_eq!(discovery.next_move(), NextMove::Rediscover);
    assert_eq!(
        discovery.step(DiscoveryEvent::Beacon(BeaconEvent::Due)),
        DiscoveryAction::Beacon(BeaconAction::Transmit(beacon_of([9; 32])))
    );
}

#[test]
fn claim_under_another_key_is_rejected() {
    let forged = blake3::keyed_hash(&[0u8; 32], &[9; 32]).as_bytes().to_vec();
    let mut discovery = Discovery::new(&SecretKey::new(SHARED), Challenge::new([9; 32]));
    discovery.step(DiscoveryEvent::Listener(ListenerEvent::Connected));
    assert_eq!(
        discovery.step(DiscoveryEvent::Listener(ListenerEvent::Claim(forged))),
        DiscoveryAction::Listener(ListenerAction::Reject)
    );
    assert!(discovery.beacon_active());
}
