//! The command and event surface between the UI and the background task,
//! and the small derivations behind it: room list entries with their
//! name fallback, and full user ids from bare usernames.

use vstd::prelude::*;
use vstd::string::{StrSliceExecFns, StringExecFns};

verus! {

/// A joined room as listed in the sidebar.
#[derive(Debug, Clone)]
pub struct RoomInfo {
    pub id: String,
    pub name: String,
}

/// A pending room invitation.
#[derive(Debug, Clone)]
pub struct InviteInfo {
    pub room_id: String,
    pub room_name: String,
    pub inviter: String,
}

/// Notifications flowing from the background task to the UI.
#[derive(Debug)]
pub enum AppEvent {
    Connected { username: String },
    RoomsUpdated(Vec<RoomInfo>),
    InvitesUpdated(Vec<InviteInfo>),
    Message { room_id: String, sender: String, body: String },
    Joined { room_id: String },
    Error(String),
    VoiceJoined { room_id: String },
    VoiceLeft,
    VoiceParticipantsUpdated(Vec<String>),
    HistoryLoaded { room_id: String, messages: Vec<(String, String)> },
}

/// User intent flowing from the UI to the background task.
#[derive(Debug)]
pub enum AppCommand {
    SendMessage { room_id: String, body: String },
    InviteUser { room_id: String, mxid: String },
    JoinRoom { room_id: String },
    CreateRoom { name: String },
    JoinRoomByAlias { alias: String },
    LeaveRoom { room_id: String },
    JoinVoice { room_id: String },
    LeaveVoice,
    MuteVoice { muted: bool },
    FetchHistory { room_id: String },
}

/// A room list entry: the display name falls back to the room id when
/// the room has no name.
pub fn room_entry(id: String, name: Option<String>) -> (r: RoomInfo)
    ensures
        r.id == id,
        (match name {
            Some(n) => r.name == n,
            None => r.name == id,
        }),
{
    match name {
        Some(n) => RoomInfo { id, name: n },
        None => {
            let fallback = id.clone();
            RoomInfo { id, name: fallback }
        },
    }
}

/// An invite list entry: the room name falls back to the room id, and no
/// inviter is recorded.
pub fn invite_entry(room_id: String, room_name: Option<String>) -> (r: InviteInfo)
    ensures
        r.room_id == room_id,
        (match room_name {
            Some(n) => r.room_name == n,
            None => r.room_name == room_id,
        }),
        r.inviter@ == Seq::<char>::empty(),
{
    match room_name {
        Some(n) => InviteInfo { room_id, room_name: n, inviter: String::new() },
        None => {
            let fallback = room_id.clone();
            InviteInfo { room_id, room_name: fallback, inviter: String::new() }
        },
    }
}

/// A full user id from a bare username and the homeserver's host: a
/// username already starting with '@' passes through unchanged,
/// otherwise it becomes `@username:server`.
pub fn full_mxid(username: &str, server: &str) -> (r: String)
    ensures
        (username@.len() > 0 && username@[0] == '@') ==> r@ == username@,
        !(username@.len() > 0 && username@[0] == '@') ==> r@ == seq!['@'] + username@ + seq![':'] + server@,
{
    if username.unicode_len() > 0 && username.get_char(0) == '@' {
        return String::from_str(username);
    }
    let mut r = String::from_str("@");
    r.append(username);
    r.append(":");
    r.append(server);
    proof {
        reveal_strlit("@");
        reveal_strlit(":");
        assert(r@ =~= seq!['@'] + username@ + seq![':'] + server@);
    }
    r
}

} // verus!
