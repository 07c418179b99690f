//! Rendezvous and authenticated command protocol of a network-attached relay
//! node.
//!
//! The node announces itself with a beacon, lets a controller that proves
//! possession of the shared key claim it, and then serves a command session
//! against that controller. Everything here is pure protocol logic on plain
//! values: the caller owns the sockets, the pins and the random source, feeds
//! what they produced into these functions and carries out what they return.
pub mod params;
pub mod digest;
pub mod actuation;
pub mod wire;
pub mod session;
pub mod rendezvous;
pub mod beacon;
pub mod discovery;
pub mod diagnostics;
