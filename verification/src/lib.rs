//! Core logic of a peer voice-call session layer: converting captured
//! sample batches into outbound frames (with runtime mute), a bounded
//! playback ring buffer with oldest-first eviction, the participant
//! roster derived from room membership events, the session lifecycle
//! state machine, and the join/leave/mute signaling message shapes.
//!
//! Hardware streams, the transport room and the messaging channel are
//! external: the surrounding application owns them and drives the state
//! machines here with the outcomes of those calls.

pub mod frames;
pub mod ring;
pub mod roster;
pub mod session;
pub mod signaling;
pub mod commands;
pub mod manager;
