//! Boop: announce a friendly name on the local network and send playful
//! notifications ("boops") to one named peer or to everyone listening.
//!
//! The library holds the datagram codec and the decisions of the two roles,
//! the short-lived client and the long-lived daemon. It performs no I/O: a
//! caller owns the socket and the announcer, hands each outcome to the
//! library as an event and carries out the action that comes back.

pub mod text;
pub mod wire;
pub mod daemon;
pub mod client;
pub mod speech;
pub mod autostart;
