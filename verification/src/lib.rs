//! A peer's ICE transport and the Chord messages that travel over it.
//!
//! Every decision of the transport is a verified function on plain values. What has to wait for
//! the network (creating a connection, applying a description, sending bytes) is handed out as a
//! request and comes back as an event; the program around the library performs it.

pub mod error;
pub mod granting;
pub mod handler;
pub mod handshake;
pub mod ice_transport;
pub mod message;
pub mod negotiation;
pub mod promise;
pub mod registration;
pub mod rtc;
pub mod startup;
pub mod transport;
pub mod types;

