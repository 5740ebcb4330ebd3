//! The table of live WebSocket control sessions, one per peer device, and the events
//! that report a session coming or going.
use vstd::prelude::*;

use crate::text::str_eq;

verus! {

broadcast use vstd::string::group_string_axioms;

/// Who this device is on the control channel.
#[derive(Clone, Debug)]
pub struct LocalWsIdentity {
    pub device_id: String,
    pub device_name: String,
}

/// One row of the list of control connections shown to the user.
#[derive(Clone, Debug)]
pub struct WsConnectionInfo {
    pub peer_device_id: String,
    pub peer_device_name: Option<String>,
    pub connected: bool,
    pub state: String,
    pub last_event_at: Option<i64>,
}

/// Event raised when a control connection comes up, goes down or is being retried.
#[derive(Clone, Debug)]
pub struct WsConnectionChangedEvent {
    pub peer_device_id: String,
    pub peer_device_name: Option<String>,
    pub connected: bool,
    pub state: String,
    pub last_event_at: Option<i64>,
    pub error: Option<String>,
}

/// The mathematical value of a [`WsConnectionChangedEvent`].
pub ghost struct WsConnectionChangedEventView {
    pub peer_device_id: Seq<char>,
    pub peer_device_name: Option<Seq<char>>,
    pub connected: bool,
    pub state: Seq<char>,
    pub last_event_at: Option<i64>,
    pub error: Option<Seq<char>>,
}

impl View for WsConnectionChangedEvent {
    type V = WsConnectionChangedEventView;

    open spec fn view(&self) -> WsConnectionChangedEventView {
        WsConnectionChangedEventView {
            peer_device_id: self.peer_device_id@,
            peer_device_name: self.peer_device_name.deep_view(),
            connected: self.connected,
            state: self.state@,
            last_event_at: self.last_event_at,
            error: self.error.deep_view(),
        }
    }
}

/// A live control session with one peer; `sender` is the channel that feeds its socket.
#[derive(Debug)]
pub struct PeerSession<S> {
    pub session_id: String,
    pub peer_device_id: String,
    pub peer_device_name: Option<String>,
    pub sender: S,
    pub state: String,
    pub last_event_at: Option<i64>,
}

/// The mathematical value of a [`PeerSession`], without its sender.
pub ghost struct SessionView {
    pub session_id: Seq<char>,
    pub peer_device_id: Seq<char>,
    pub peer_device_name: Option<Seq<char>>,
    pub state: Seq<char>,
    pub last_event_at: Option<i64>,
}

impl<S> View for PeerSession<S> {
    type V = SessionView;

    open spec fn view(&self) -> SessionView {
        SessionView {
            session_id: self.session_id@,
            peer_device_id: self.peer_device_id@,
            peer_device_name: self.peer_device_name.deep_view(),
            state: self.state@,
            last_event_at: self.last_event_at,
        }
    }
}

/// The sessions of a table, in the order they were opened.
pub open spec fn sessions_view<S>(v: Seq<PeerSession<S>>) -> Seq<SessionView> {
    v.map_values(|s: PeerSession<S>| s@)
}

/// No peer has two sessions.
pub open spec fn peers_distinct(s: Seq<SessionView>) -> bool {
    forall|i: int, j: int|
        0 <= i < s.len() && 0 <= j < s.len() && i != j ==> #[trigger] s[i].peer_device_id
            != #[trigger] s[j].peer_device_id
}

/// `peer` has a session in `s`.
pub open spec fn has_peer(s: Seq<SessionView>, peer: Seq<char>) -> bool {
    exists|i: int| 0 <= i < s.len() && #[trigger] s[i].peer_device_id == peer
}

/// The index of `peer`'s session in `s`, where it has one.
pub open spec fn peer_index(s: Seq<SessionView>, peer: Seq<char>) -> int {
    choose|i: int| 0 <= i < s.len() && #[trigger] s[i].peer_device_id == peer
}

/// The row of the connection list that describes session `s`.
pub open spec fn connection_info(s: SessionView) -> (Seq<char>, Option<Seq<char>>, bool, Seq<char>, Option<i64>) {
    (s.peer_device_id, s.peer_device_name, true, s.state, s.last_event_at)
}

/// The live control sessions, at most one per peer device. They are kept in a `Vec`
/// under the invariant that no peer occurs twice: peers are known by their text ids, and
/// vstd specifies `HashMap` only for keys that obey its key model, which it grants to
/// integer and `bool` keys and not to `String`.
pub struct SessionTable<S> {
    sessions: Vec<PeerSession<S>>,
}

impl<S> View for SessionTable<S> {
    type V = Seq<SessionView>;

    closed spec fn view(&self) -> Seq<SessionView> {
        sessions_view(self.sessions@)
    }
}

impl<S> SessionTable<S> {
    /// The channels of the sessions, in the same order as the sessions.
    pub closed spec fn senders(&self) -> Seq<S> {
        self.sessions@.map_values(|p: PeerSession<S>| p.sender)
    }

    /// The table is well formed: no peer has two sessions.
    pub open spec fn wf(&self) -> bool {
        peers_distinct(self@)
    }

    /// An empty table.
    pub fn new() -> (t: Self)
        ensures
            t@ == Seq::<SessionView>::empty(),
            t.senders() == Seq::<S>::empty(),
            t.wf(),
    {
        let t = SessionTable { sessions: Vec::new() };
        proof {
            assert(t@ =~= Seq::<SessionView>::empty());
            assert(t.senders() =~= Seq::<S>::empty());
        }
        t
    }

    fn find(&self, peer_device_id: &str) -> (r: Option<usize>)
        ensures
            r matches Some(i) ==> i < self@.len() && self@[i as int].peer_device_id
                == peer_device_id@,
            r is None ==> !has_peer(self@, peer_device_id@),
    {
        let mut i: usize = 0;
        while i < self.sessions.len()
            invariant
                i <= self.sessions@.len(),
                self@ == sessions_view(self.sessions@),
                forall|k: int| 0 <= k < i ==> self@[k].peer_device_id != peer_device_id@,
            decreases self.sessions.len() - i,
        {
            if str_eq(self.sessions[i].peer_device_id.as_str(), peer_device_id) {
                return Some(i);
            }
            i = i + 1;
        }
        None
    }

    /// Whether `peer_device_id` has a live session.
    pub fn is_connected(&self, peer_device_id: &str) -> (b: bool)
        ensures
            b == has_peer(self@, peer_device_id@),
    {
        self.find(peer_device_id).is_some()
    }

    /// The channel of `peer_device_id`'s session, where it has one.
    pub fn sender_of(&self, peer_device_id: &str) -> (r: Option<&S>)
        requires
            self.wf(),
        ensures
            r is Some <==> has_peer(self@, peer_device_id@),
            r matches Some(s) ==> *s == self.senders()[peer_index(self@, peer_device_id@)],
    {
        match self.find(peer_device_id) {
            Some(i) => {
                proof {
                    assert(peer_index(self@, peer_device_id@) == i as int);
                }
                Some(&self.sessions[i].sender)
            },
            None => None,
        }
    }

    /// Opens a session for a peer that has none: it is added, connected, last heard of
    /// at `now`, and `session_id` is returned. A peer that already has a session keeps it,
    /// the table is left as it was, and `None` is returned.
    pub fn register(
        &mut self,
        peer_device_id: String,
        peer_device_name: Option<String>,
        sender: S,
        session_id: String,
        now: i64,
    ) -> (r: Option<String>)
        requires
            old(self).wf(),
        ensures
            final(self).wf(),
            has_peer(old(self)@, peer_device_id@) ==> r is None && final(self)@ == old(self)@
                && final(self).senders() == old(self).senders(),
            !has_peer(old(self)@, peer_device_id@) ==> r == Some(session_id)
                && final(self).senders() == old(self).senders().push(sender) && final(self)@
                == old(self)@.push(
                SessionView {
                    session_id: session_id@,
                    peer_device_id: peer_device_id@,
                    peer_device_name: peer_device_name.deep_view(),
                    state: "connected"@,
                    last_event_at: Some(now),
                },
            ),
    {
        if self.find(peer_device_id.as_str()).is_some() {
            return None;
        }
        let session = PeerSession {
            session_id: session_id.clone(),
            peer_device_id,
            peer_device_name,
            sender,
            state: "connected".to_owned(),
            last_event_at: Some(now),
        };
        let ghost before = self.sessions@;
        self.sessions.push(session);
        proof {
            assert(sessions_view(self.sessions@) =~= sessions_view(before).push(
                self.sessions@.last()@,
            ));
            assert(self.senders() =~= old(self).senders().push(self.sessions@.last().sender));
            let s = self@;
            assert forall|i: int, j: int|
                0 <= i < s.len() && 0 <= j < s.len() && i != j implies #[trigger] s[i].peer_device_id
                != #[trigger] s[j].peer_device_id by {
                if i == s.len() - 1 {
                    assert(s[j] == old(self)@[j]);
                } else if j == s.len() - 1 {
                    assert(s[i] == old(self)@[i]);
                } else {
                    assert(s[i] == old(self)@[i] && s[j] == old(self)@[j]);
                }
            }
        }
        Some(session_id)
    }

    /// Records that `peer_device_id` was heard from at `now`, where it has a session.
    pub fn mark_event(&mut self, peer_device_id: &str, now: i64)
        requires
            old(self).wf(),
        ensures
            final(self).wf(),
            final(self).senders() == old(self).senders(),
            !has_peer(old(self)@, peer_device_id@) ==> final(self)@ == old(self)@,
            has_peer(old(self)@, peer_device_id@) ==> ({
                let i = peer_index(old(self)@, peer_device_id@);
                final(self)@ == old(self)@.update(
                    i,
                    SessionView { last_event_at: Some(now), ..old(self)@[i] },
                )
            }),
    {
        match self.find(peer_device_id) {
            Some(i) => {
                let ghost before = self.sessions@;
                let mut session = self.sessions.remove(i);
                session.last_event_at = Some(now);
                self.sessions.insert(i, session);
                proof {
                    let k = peer_index(old(self)@, peer_device_id@);
                    assert(k == i as int);
                    assert(self.senders() =~= old(self).senders());
                    assert(sessions_view(self.sessions@) =~= sessions_view(before).update(
                        i as int,
                        SessionView { last_event_at: Some(now), ..sessions_view(before)[i as int] },
                    ));
                    let s = self@;
                    assert forall|a: int, b: int|
                        0 <= a < s.len() && 0 <= b < s.len() && a != b implies #[trigger] s[a].peer_device_id
                        != #[trigger] s[b].peer_device_id by {
                        assert(s[a].peer_device_id == old(self)@[a].peer_device_id);
                        assert(s[b].peer_device_id == old(self)@[b].peer_device_id);
                    }
                }
            },
            None => {},
        }
    }

    /// Closes `peer_device_id`'s session, but only if it has one and, where
    /// `session_id` is given, that session is the one with that id; the closed session is
    /// returned. Otherwise nothing changes and `None` is returned.
    pub fn unregister(&mut self, peer_device_id: &str, session_id: Option<&str>) -> (r: Option<
        PeerSession<S>,
    >)
        requires
            old(self).wf(),
        ensures
            final(self).wf(),
            ({
                let i = peer_index(old(self)@, peer_device_id@);
                let removes = has_peer(old(self)@, peer_device_id@) && match session_id {
                    Some(sid) => old(self)@[i].session_id == sid@,
                    None => true,
                };
                &&& removes ==> r is Some && r->0@ == old(self)@[i] && r->0.sender == old(
                    self,
                ).senders()[i] && final(self)@ == old(self)@.remove(i) && final(self).senders()
                    == old(self).senders().remove(i)
                &&& !removes ==> r is None && final(self)@ == old(self)@ && final(self).senders()
                    == old(self).senders()
            }),
    {
        match self.find(peer_device_id) {
            Some(i) => {
                let matches = match session_id {
                    Some(sid) => str_eq(self.sessions[i].session_id.as_str(), sid),
                    None => true,
                };
                proof {
                    let k = peer_index(old(self)@, peer_device_id@);
                    assert(self@[i as int].peer_device_id == peer_device_id@);
                    assert(k == i as int);
                }
                if matches {
                    let ghost before = self.sessions@;
                    let s = self.sessions.remove(i);
                    proof {
                        assert(sessions_view(self.sessions@) =~= sessions_view(before).remove(
                            i as int,
                        ));
                        assert(self.senders() =~= old(self).senders().remove(i as int));
                        let v = self@;
                        assert forall|a: int, b: int|
                            0 <= a < v.len() && 0 <= b < v.len() && a != b implies #[trigger] v[a].peer_device_id
                            != #[trigger] v[b].peer_device_id by {
                            let a2 = if a < i { a } else { a + 1 };
                            let b2 = if b < i { b } else { b + 1 };
                            assert(v[a] == old(self)@[a2]);
                            assert(v[b] == old(self)@[b2]);
                        }
                    }
                    Some(s)
                } else {
                    None
                }
            },
            None => None,
        }
    }

    /// One row per live session, in the order the sessions were opened.
    pub fn list_connections(&self) -> (r: Vec<WsConnectionInfo>)
        ensures
            r@.len() == self@.len(),
            forall|i: int|
                0 <= i < r@.len() ==> connection_info(self@[i]) == (
                    #[trigger] r@[i].peer_device_id@,
                    r@[i].peer_device_name.deep_view(),
                    r@[i].connected,
                    r@[i].state@,
                    r@[i].last_event_at,
                ),
    {
        let mut out: Vec<WsConnectionInfo> = Vec::new();
        let mut i: usize = 0;
        while i < self.sessions.len()
            invariant
                i <= self.sessions@.len(),
                self@ == sessions_view(self.sessions@),
                out@.len() == i,
                forall|k: int|
                    0 <= k < i ==> connection_info(self@[k]) == (
                        #[trigger] out@[k].peer_device_id@,
                        out@[k].peer_device_name.deep_view(),
                        out@[k].connected,
                        out@[k].state@,
                        out@[k].last_event_at,
                    ),
            decreases self.sessions.len() - i,
        {
            let s = &self.sessions[i];
            let name = match &s.peer_device_name {
                Some(n) => Some(n.clone()),
                None => None,
            };
            out.push(
                WsConnectionInfo {
                    peer_device_id: s.peer_device_id.clone(),
                    peer_device_name: name,
                    connected: true,
                    state: s.state.clone(),
                    last_event_at: s.last_event_at,
                },
            );
            i = i + 1;
        }
        out
    }
}

/// A session opened for a peer that had none, then closed with its own id, leaves the
/// table as it was before it was opened.
pub proof fn lemma_register_then_unregister_restores(s: Seq<SessionView>, added: SessionView)
    requires
        peers_distinct(s),
        !has_peer(s, added.peer_device_id),
    ensures
        has_peer(s.push(added), added.peer_device_id),
        peer_index(s.push(added), added.peer_device_id) == s.len(),
        s.push(added)[peer_index(s.push(added), added.peer_device_id)].session_id
            == added.session_id,
        s.push(added).remove(s.len() as int) == s,
{
    let t = s.push(added);
    assert(t[s.len() as int].peer_device_id == added.peer_device_id);
    let k = peer_index(t, added.peer_device_id);
    if k != s.len() {
        assert(t[k] == s[k]);
    }
    assert(t.remove(s.len() as int) =~= s);
}

/// Once a peer's session is closed, the peer has no session.
pub proof fn lemma_unregistered_peer_is_gone(s: Seq<SessionView>, peer: Seq<char>)
    requires
        peers_distinct(s),
        has_peer(s, peer),
    ensures
        !has_peer(s.remove(peer_index(s, peer)), peer),
        s.remove(peer_index(s, peer)).len() == s.len() - 1,
{
    let i = peer_index(s, peer);
    let t = s.remove(i);
    if has_peer(t, peer) {
        let j = choose|j: int| 0 <= j < t.len() && #[trigger] t[j].peer_device_id == peer;
        let j2 = if j < i { j } else { j + 1 };
        assert(t[j] == s[j2]);
        assert(s[j2].peer_device_id == s[i].peer_device_id);
    }
}

} // verus!
