//! The session manager: the single authority over the active voice
//! session.
//!
//! At most one voice session is active per local identity. Joining a
//! voice room first fully tears down any prior session before any new
//! resource is established, announces the join with a fresh session
//! identifier, and only then starts the connect state machine with the
//! endpoint the token service handed back. Leaving tears the session
//! down and announces it; a mute command flips the session's flag and
//! announces the new state.

use vstd::prelude::*;
use vstd::string::StringExecFns;
use crate::session::{SessionAction, StepEvent, VoiceSession};
use crate::signaling::{VoiceJoinEventContent, VoiceLeaveEventContent, VoiceMuteEventContent};

verus! {

/// Relies on `uuid::Uuid::new_v4` and its `Display` form: a fresh random
/// version-4 UUID rendered as the hyphenated lower-case string, which is
/// always exactly 36 characters. The value itself is random; nothing
/// beyond its length is relied on.
#[verifier::external_body]
fn fresh_session_id() -> (r: String)
    ensures
        r@.len() == 36,
{
    uuid::Uuid::new_v4().to_string()
}

/// What a join command requires of the application before connecting:
/// tear down the prior session, if one held resources, then broadcast
/// the join announcement to the target room.
#[derive(Debug)]
pub struct JoinPrelude {
    /// Teardown of the prior session, to be performed first; nothing to
    /// do when no resources were held.
    pub prior_teardown: Option<SessionAction>,
    /// The join announcement for the target room.
    pub join_signal: VoiceJoinEventContent,
}

/// What a leave command asks of the application.
#[derive(Debug)]
pub struct LeaveOutcome {
    /// Teardown of the session, if one held resources.
    pub teardown: Option<SessionAction>,
    /// The room the leave announcement goes to, when a voice room was
    /// joined.
    pub signal_room: Option<String>,
    /// The (empty) leave announcement.
    pub signal: VoiceLeaveEventContent,
}

/// What a mute command asks of the application.
#[derive(Debug)]
pub struct MuteOutcome {
    /// The room the mute announcement goes to, when a session exists and
    /// a voice room is known.
    pub signal_room: Option<String>,
    /// The mute announcement; absent when no session exists.
    pub signal: Option<VoiceMuteEventContent>,
}

/// The resources a session still holds, as a teardown action; nothing
/// when it holds none.
pub open spec fn teardown_of(s: VoiceSession) -> Option<SessionAction> {
    if s.idle() {
        Option::None
    } else {
        Option::Some(SessionAction::Teardown {
            abort_dispatch: s.dispatch_running,
            close_transport: s.transport_open,
            stop_capture: s.capture_running,
            stop_playback: s.playback_running,
        })
    }
}

/// Owns the lifecycle of the one active voice session, the room it is
/// tied to, and the session identifier announced for it.
pub struct SessionManager {
    pub session: Option<VoiceSession>,
    pub room_id: Option<String>,
    pub session_id: Option<String>,
}

impl SessionManager {
    /// Any held session is well formed, and a session that has fallen
    /// back to Disconnected is never retained: the manager drops it the
    /// moment it aborts or is torn down.
    pub open spec fn wf(&self) -> bool {
        match self.session {
            Option::Some(s) => s.wf() && !(s.phase is Disconnected),
            Option::None => true,
        }
    }

    /// A manager with no session.
    pub fn new() -> (r: Self)
        ensures
            r.wf(),
            r.session is None,
            r.room_id is None,
            r.session_id is None,
    {
        SessionManager { session: None, room_id: None, session_id: None }
    }

    /// Drop whatever session is held, returning the teardown the
    /// application must perform for it.
    fn take_down_current(&mut self) -> (t: Option<SessionAction>)
        ensures
            final(self).session is None,
            final(self).room_id is None,
            final(self).session_id is None,
            (match old(self).session {
                Option::Some(s) => t == teardown_of(s),
                Option::None => t is None,
            }),
    {
        let t = match &self.session {
            Some(s) => {
                if !s.transport_open && !s.capture_running && !s.playback_running
                    && !s.dispatch_running {
                    None
                } else {
                    Some(SessionAction::Teardown {
                        abort_dispatch: s.dispatch_running,
                        close_transport: s.transport_open,
                        stop_capture: s.capture_running,
                        stop_playback: s.playback_running,
                    })
                }
            }
            None => None,
        };
        self.session = None;
        self.room_id = None;
        self.session_id = None;
        t
    }

    /// Handle a join-voice command: fully tear down any prior session
    /// first, record the target room, and draw a fresh session identifier
    /// that the join announcement carries — the same identifier the
    /// manager remembers for this session.
    pub fn begin_join(&mut self, room_id: String) -> (r: JoinPrelude)
        requires
            old(self).wf(),
        ensures
            final(self).wf(),
            final(self).session is None,
            final(self).room_id == Some(room_id),
            final(self).session_id == Some(r.join_signal.session_id),
            r.join_signal.session_id@.len() == 36,
            (match old(self).session {
                Option::Some(s) => r.prior_teardown == teardown_of(s),
                Option::None => r.prior_teardown is None,
            }),
    {
        let prior_teardown = self.take_down_current();
        let sid = fresh_session_id();
        let join_signal = VoiceJoinEventContent { session_id: sid.clone() };
        self.session_id = Some(sid);
        self.room_id = Some(room_id);
        JoinPrelude { prior_teardown, join_signal }
    }

    /// Start the connect state machine once the transport endpoint is
    /// known. Does nothing if a session already exists — the join flow
    /// always clears it first.
    pub fn start_connect(&mut self) -> (a: SessionAction)
        requires
            old(self).wf(),
        ensures
            final(self).wf(),
            old(self).session is None ==> {
                &&& final(self).session == Some(VoiceSession::connect_start())
                &&& a == SessionAction::DialTransport
                &&& final(self).room_id == old(self).room_id
                &&& final(self).session_id == old(self).session_id
            },
            old(self).session is Some ==> *final(self) == *old(self) && a == SessionAction::Idle,
    {
        if self.session.is_none() {
            let (s, a) = VoiceSession::connect();
            self.session = Some(s);
            a
        } else {
            SessionAction::Idle
        }
    }

    /// Feed the outcome of the last connect step to the session. If the
    /// connect aborts, the failed session is dropped whole: no room, no
    /// session identifier, no partial state is left behind.
    pub fn step(&mut self, ev: StepEvent) -> (a: SessionAction)
        requires
            old(self).wf(),
        ensures
            final(self).wf(),
            (match old(self).session {
                Option::Some(s) => ({
                    let (s1, act) = VoiceSession::step_spec(s, ev);
                    &&& a == act
                    &&& act is Abort ==> {
                        &&& final(self).session is None
                        &&& final(self).room_id is None
                        &&& final(self).session_id is None
                    }
                    &&& !(act is Abort) ==> {
                        &&& final(self).session == Some(s1)
                        &&& final(self).room_id == old(self).room_id
                        &&& final(self).session_id == old(self).session_id
                    }
                }),
                Option::None => a == SessionAction::Idle && *final(self) == *old(self),
            }),
    {
        let a = match &mut self.session {
            Some(s) => s.step(ev),
            None => SessionAction::Idle,
        };
        if matches!(a, SessionAction::Abort { .. }) {
            self.session = None;
            self.room_id = None;
            self.session_id = None;
        }
        a
    }

    /// Handle a leave-voice command: tear down the session, and announce
    /// the leave to the voice room if one was joined.
    pub fn leave(&mut self) -> (r: LeaveOutcome)
        requires
            old(self).wf(),
        ensures
            final(self).wf(),
            final(self).session is None,
            final(self).room_id is None,
            final(self).session_id is None,
            r.signal_room == old(self).room_id,
            (match old(self).session {
                Option::Some(s) => r.teardown == teardown_of(s),
                Option::None => r.teardown is None,
            }),
    {
        let signal_room = match &self.room_id {
            Some(room) => Some(room.clone()),
            None => None,
        };
        let teardown = self.take_down_current();
        LeaveOutcome { teardown, signal_room, signal: VoiceLeaveEventContent {} }
    }

    /// Handle a mute command: when a session exists, flip its mute flag
    /// and announce the new state to the voice room; with no session,
    /// nothing happens and nothing is announced.
    pub fn mute(&mut self, muted: bool) -> (r: MuteOutcome)
        requires
            old(self).wf(),
        ensures
            final(self).wf(),
            (match old(self).session {
                Option::Some(s) => {
                    &&& final(self).session == Some(VoiceSession { muted, ..s })
                    &&& final(self).room_id == old(self).room_id
                    &&& final(self).session_id == old(self).session_id
                    &&& r.signal == Some(VoiceMuteEventContent { muted })
                    &&& r.signal_room == old(self).room_id
                },
                Option::None => {
                    &&& *final(self) == *old(self)
                    &&& r.signal is None
                    &&& r.signal_room is None
                },
            }),
    {
        match &mut self.session {
            Some(s) => {
                s.set_muted(muted);
                let signal_room = match &self.room_id {
                    Some(room) => Some(room.clone()),
                    None => None,
                };
                MuteOutcome { signal_room, signal: Some(VoiceMuteEventContent { muted }) }
            }
            None => MuteOutcome { signal_room: None, signal: None },
        }
    }

    /// The capture mute flag of the active session; false with none.
    pub fn is_muted(&self) -> (m: bool)
        ensures
            m == (match self.session {
                Option::Some(s) => s.muted,
                Option::None => false,
            }),
    {
        match &self.session {
            Some(s) => s.is_muted(),
            None => false,
        }
    }
}

/// The transport endpoint from the token service's reply: a missing URL
/// falls back to the local development endpoint, a missing credential to
/// the empty string.
pub fn token_endpoint(url: Option<String>, token: Option<String>) -> (r: (String, String))
    ensures
        (match url {
            Option::Some(u) => r.0 == u,
            Option::None => r.0@ == "ws://localhost:7880"@,
        }),
        (match token {
            Option::Some(t) => r.1 == t,
            Option::None => r.1@ == Seq::<char>::empty(),
        }),
{
    let u = match url {
        Some(u) => u,
        None => String::from_str("ws://localhost:7880"),
    };
    let t = match token {
        Some(t) => t,
        None => String::new(),
    };
    (u, t)
}

} // verus!
