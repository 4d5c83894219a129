//! Core of a peer-to-peer messaging client built on WebRTC data channels.
//!
//! The client attaches to a signalling service, discovers peers, negotiates
//! direct sessions through the Offer/Answer SDP exchange with trickle ICE,
//! and then exposes a duplex datagram interface for application payloads.
//!
//! This crate holds the decision core: the two handshake state machines
//! (offerer and accepter), the candidate-trickle buffer that reconciles
//! locally gathered ICE candidates with the ordering rules of the SDP
//! exchange, and the message-loop dispatcher that routes signalling events,
//! handshake completions and application packets. Every step is a plain
//! function from state and event to new state and a sequence of actions;
//! the platform WebRTC stack and the async plumbing that perform those
//! actions live outside the library.

use vstd::prelude::*;

pub mod accepter;
pub mod config;
pub mod connection;
pub mod data_channel;
pub mod handshake;
pub mod messages;
pub mod offerer;
pub mod signal_peer;
pub mod socket;
pub mod trickle;

verus! {

/// Negotiated id of the unreliable data channel. With `negotiated = true`
/// each side constructs its endpoint independently, so the ids are agreed
/// out of band, and the two profiles of a channel pair use two distinct
/// fixed ids.
pub const UNRELIABLE_DATA_CHANNEL_ID: u16 = 0;

/// Negotiated id of the reliable data channel.
pub const RELIABLE_DATA_CHANNEL_ID: u16 = 1;

/// Period of the keep-alive requests to the signalling service,
/// in milliseconds.
pub const KEEP_ALIVE_INTERVAL: u64 = 10_000;

} // verus!
