//! Parameters that node and controller share out of band.
use vstd::prelude::*;

verus! {

/// Number of bytes in a challenge.
pub const CHALLENGE_LENGTH: usize = 32;

/// Number of bytes in an answer, the length of the keyed digest.
pub const ANSWER_LENGTH: usize = 32;

/// Number of bytes in the shared secret key.
pub const KEY_LENGTH: usize = 32;

/// Number of bytes in a node's link-layer address.
pub const IDENTITY_LENGTH: usize = 6;

/// Multicast group the beacon is sent to, 224.0.0.127 as a big-endian word.
pub const MULTICAST_IP: u32 = 3758096511;

/// UDP port of the multicast group.
pub const MULTICAST_PORT: u16 = 4265;

/// Port the node listens on for a controller's claim.
pub const NODE_PORT: u16 = 5325;

/// Port on the controller that the node connects back to.
pub const SERVER_PORT: u16 = 7325;

/// Protocol faults a session swallows; one more closes it.
pub const FAULT_TOLERANCE: usize = 10;

/// Size of each socket buffer. No message is longer than 150 bytes.
pub const STACK_BUFFER_SIZE: usize = 512;

/// Seconds between two beacon transmissions.
pub const BEACON_INTERVAL_SECS: u64 = 2;

/// Seconds a listening socket waits before it gives up an attempt.
pub const LISTEN_TIMEOUT_SECS: u64 = 2;

/// Milliseconds a relay is held active for one pulse.
pub const RELAY_PULSE_MILLIS: u64 = 500;

} // verus!
