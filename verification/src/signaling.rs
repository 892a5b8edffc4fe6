//! The three signaling message shapes.
//!
//! Session lifecycle transitions are announced to other room members over
//! the external messaging channel: a join carrying a fresh session
//! identifier, an empty leave, and a mute-state change. The sends are
//! fire and forget — failures are logged by the sender, never retried,
//! and no ordering beyond best effort is promised.

use vstd::prelude::*;

verus! {

/// Sent when the local user joins the voice channel.
#[derive(Debug, Clone)]
pub struct VoiceJoinEventContent {
    /// Opaque session identifier so other clients can correlate events;
    /// fresh per voice session, never reused across reconnects.
    pub session_id: String,
}

/// Sent when the local user leaves the voice channel.
#[derive(Debug, Clone)]
pub struct VoiceLeaveEventContent {}

/// Sent when the local user toggles microphone mute state.
#[derive(Debug, Clone)]
pub struct VoiceMuteEventContent {
    pub muted: bool,
}

} // verus!
