//! The participant roster and room-event dispatch.
//!
//! The flat list of remote participant display names is derived from the
//! transport room's live membership: it is recomputed whenever a
//! connect/disconnect event fires and sent to the UI as a snapshot. A
//! newly subscribed remote audio track asks for a detached relay task;
//! all other event kinds are ignored.

use vstd::prelude::*;

verus! {

/// A room membership / track event delivered by the transport room's
/// ordered event stream.
#[derive(Debug)]
pub enum RoomEvent {
    /// A remote track was subscribed; `audio` tells whether it is an
    /// audio track (only those get a relay task).
    TrackSubscribed { audio: bool },
    ParticipantConnected { name: String },
    ParticipantDisconnected { name: String },
    /// Any event kind the session does not react to.
    Other,
}

/// What the room-event dispatch asks the surrounding task to do.
#[derive(Debug)]
pub enum DispatchOutcome {
    /// Spawn a detached relay task draining the new remote audio track
    /// into the playback ring buffer.
    SpawnRelay,
    /// Emit a `ParticipantsUpdated` notification with this name list.
    Participants(Vec<String>),
    /// Nothing to do.
    Ignore,
}

/// A name list with `n` added at the back, unless already present.
pub open spec fn insert_name(s: Seq<Seq<char>>, n: Seq<char>) -> Seq<Seq<char>> {
    if s.contains(n) {
        s
    } else {
        s.push(n)
    }
}

/// A name list with the first occurrence of `n` removed.
pub open spec fn remove_name(s: Seq<Seq<char>>, n: Seq<char>) -> Seq<Seq<char>>
    decreases s.len(),
{
    if s.len() == 0 {
        Seq::empty()
    } else if s[0] == n {
        s.drop_first()
    } else {
        seq![s[0]] + remove_name(s.drop_first(), n)
    }
}

/// Removing at the first index where `n` occurs yields `remove_name`.
proof fn lemma_remove_at_first(s: Seq<Seq<char>>, n: Seq<char>, i: int)
    requires
        0 <= i < s.len(),
        s[i] == n,
        forall|j: int| 0 <= j < i ==> s[j] != n,
    ensures
        s.remove(i) == remove_name(s, n),
    decreases i,
{
    if i == 0 {
        assert(s.remove(0) =~= s.drop_first());
    } else {
        lemma_remove_at_first(s.drop_first(), n, i - 1);
        assert(s.remove(i) =~= seq![s[0]] + s.drop_first().remove(i - 1));
    }
}

/// A list without `n` is unchanged by `remove_name`.
proof fn lemma_remove_absent(s: Seq<Seq<char>>, n: Seq<char>)
    requires
        !s.contains(n),
    ensures
        remove_name(s, n) == s,
    decreases s.len(),
{
    if s.len() > 0 {
        assert(s[0] != n);
        assert(!s.drop_first().contains(n)) by {
            if s.drop_first().contains(n) {
                let j = choose|j: int| 0 <= j < s.drop_first().len() && s.drop_first()[j] == n;
                assert(s[j + 1] == n);
            }
        }
        lemma_remove_absent(s.drop_first(), n);
        assert(seq![s[0]] + s.drop_first() =~= s);
    }
}

/// The remote participant display names, in order of first connection.
pub struct ParticipantRoster {
    names: Vec<String>,
}

impl View for ParticipantRoster {
    type V = Seq<Seq<char>>;

    closed spec fn view(&self) -> Seq<Seq<char>> {
        self.names.deep_view()
    }
}

impl ParticipantRoster {
    /// No display name occurs twice.
    pub open spec fn wf(&self) -> bool {
        forall|i: int, j: int| 0 <= i < j < self@.len() ==> self@[i] != self@[j]
    }

    /// An empty roster.
    pub fn new() -> (r: Self)
        ensures
            r@ == Seq::<Seq<char>>::empty(),
            r.wf(),
    {
        ParticipantRoster { names: Vec::new() }
    }

    /// Index of the first name equal to `name`, if any.
    fn find_name(&self, name: &String) -> (r: Option<usize>)
        ensures
            (match r {
                Some(i) => {
                    &&& i < self@.len()
                    &&& self@[i as int] == name@
                    &&& forall|j: int| 0 <= j < i ==> self@[j] != name@
                },
                None => !self@.contains(name@),
            }),
    {
        let mut i: usize = 0;
        while i < self.names.len()
            invariant
                i <= self@.len(),
                self@.len() == self.names@.len(),
                forall|j: int| 0 <= j < i ==> self@[j] != name@,
            decreases self.names@.len() - i,
        {
            if self.names[i] == *name {
                return Some(i);
            }
            i = i + 1;
        }
        proof {
            if self@.contains(name@) {
                let j = choose|j: int| 0 <= j < self@.len() && self@[j] == name@;
                assert(self@[j] != name@);
            }
        }
        None
    }

    /// Record a participant connection: the name is appended unless it is
    /// already listed.
    pub fn note_connected(&mut self, name: String)
        requires
            old(self).wf(),
        ensures
            final(self).wf(),
            final(self)@ == insert_name(old(self)@, name@),
    {
        match self.find_name(&name) {
            Some(_) => {}
            None => {
                self.names.push(name);
                proof {
                    assert(self@ =~= old(self)@.push(name@));
                }
            }
        }
    }

    /// Record a participant disconnection: the name is removed if listed.
    pub fn note_disconnected(&mut self, name: &String)
        requires
            old(self).wf(),
        ensures
            final(self).wf(),
            final(self)@ == remove_name(old(self)@, name@),
    {
        match self.find_name(name) {
            Some(i) => {
                let _ = self.names.remove(i);
                proof {
                    assert(self@ =~= old(self)@.remove(i as int));
                    lemma_remove_at_first(old(self)@, name@, i as int);
                }
            }
            None => {
                proof {
                    lemma_remove_absent(old(self)@, name@);
                }
            }
        }
    }

    /// The current flat name list, as sent to the UI.
    pub fn snapshot(&self) -> (r: Vec<String>)
        ensures
            r.deep_view() == self@,
    {
        let mut r: Vec<String> = Vec::new();
        proof {
            assert(r@ =~= self.names@.subrange(0, 0));
        }
        let mut i: usize = 0;
        while i < self.names.len()
            invariant
                i <= self.names@.len(),
                r@ == self.names@.subrange(0, i as int),
            decreases self.names@.len() - i,
        {
            r.push(self.names[i].clone());
            i = i + 1;
            proof {
                assert(r@ =~= self.names@.subrange(0, i as int));
            }
        }
        proof {
            assert(r@ =~= self.names@);
            assert(r.deep_view() =~= self.names.deep_view());
        }
        r
    }

    /// Consume one room event: a new remote audio track asks for a relay
    /// task; membership changes update the roster and emit a fresh
    /// snapshot; everything else is ignored.
    pub fn dispatch(&mut self, ev: RoomEvent) -> (out: DispatchOutcome)
        requires
            old(self).wf(),
        ensures
            final(self).wf(),
            (match ev {
                RoomEvent::TrackSubscribed { audio } => {
                    &&& final(self)@ == old(self)@
                    &&& audio ==> out is SpawnRelay
                    &&& !audio ==> out is Ignore
                },
                RoomEvent::ParticipantConnected { name } => {
                    &&& final(self)@ == insert_name(old(self)@, name@)
                    &&& (out matches DispatchOutcome::Participants(ns)
                        && ns.deep_view() == final(self)@)
                },
                RoomEvent::ParticipantDisconnected { name } => {
                    &&& final(self)@ == remove_name(old(self)@, name@)
                    &&& (out matches DispatchOutcome::Participants(ns)
                        && ns.deep_view() == final(self)@)
                },
                RoomEvent::Other => {
                    &&& final(self)@ == old(self)@
                    &&& out is Ignore
                },
            }),
    {
        match ev {
            RoomEvent::TrackSubscribed { audio } => {
                if audio {
                    DispatchOutcome::SpawnRelay
                } else {
                    DispatchOutcome::Ignore
                }
            }
            RoomEvent::ParticipantConnected { name } => {
                self.note_connected(name);
                DispatchOutcome::Participants(self.snapshot())
            }
            RoomEvent::ParticipantDisconnected { name } => {
                self.note_disconnected(&name);
                DispatchOutcome::Participants(self.snapshot())
            }
            RoomEvent::Other => DispatchOutcome::Ignore,
        }
    }
}

} // verus!
