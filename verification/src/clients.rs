//! The client registry: one record for each connected client that has
//! initialized, found by its session id.

use crate::text::str_eq;
use crate::types::{ClientCapabilities, ClientCapabilitiesView, ServerCapabilities, ServerCapabilitiesView};
use vstd::prelude::*;

verus! {

/// The name and version that a client gives of itself.
#[derive(Debug, PartialEq, Eq)]
pub struct ClientInfo {
    pub name: String,
    pub version: String,
}

/// The view of `ClientInfo`: what the contracts see of it, with texts as sequences of
/// characters.
pub struct ClientInfoView {
    pub name: Seq<char>,
    pub version: Seq<char>,
}

impl View for ClientInfo {
    type V = ClientInfoView;

    open spec fn view(&self) -> ClientInfoView {
        ClientInfoView { name: self.name@, version: self.version@ }
    }
}

impl Clone for ClientInfo {
    fn clone(&self) -> (r: Self)
        ensures
            r == *self,
    {
        ClientInfo { name: self.name.clone(), version: self.version.clone() }
    }
}

/// A moment in time: seconds since the start of 1970 in UTC, and the
/// nanoseconds into that second.
#[derive(Debug, Clone, Copy, PartialEq, Eq, Structural)]
pub struct Timestamp {
    pub secs: i64,
    pub nanos: u32,
}

/// The registry's record of one connected client.
#[derive(Debug, PartialEq)]
pub struct ConnectedClient {
    pub id: String,
    pub client_info: ClientInfo,
    pub connected_at: Timestamp,
    /// The method of the request that was dispatched last.
    pub last_message: String,
    /// What the client declared.
    pub capabilities: ClientCapabilities,
    /// What the server offered in answer, once that was settled.
    pub negotiated_capabilities: Option<ServerCapabilities>,
}

/// The view of `ConnectedClient`: what the contracts see of it, with texts as sequences of
/// characters.
pub struct ConnectedClientView {
    pub id: Seq<char>,
    pub client_info: ClientInfoView,
    pub connected_at: Timestamp,
    pub last_message: Seq<char>,
    pub capabilities: ClientCapabilitiesView,
    pub negotiated_capabilities: Option<ServerCapabilitiesView>,
}

/// The view of an optional set of offered capabilities.
pub open spec fn opt_negotiated(o: Option<ServerCapabilities>) -> Option<ServerCapabilitiesView> {
    match o {
        Some(c) => Some(c@),
        None => None,
    }
}

impl View for ConnectedClient {
    type V = ConnectedClientView;

    open spec fn view(&self) -> ConnectedClientView {
        ConnectedClientView {
            id: self.id@,
            client_info: self.client_info@,
            connected_at: self.connected_at,
            last_message: self.last_message@,
            capabilities: self.capabilities@,
            negotiated_capabilities: opt_negotiated(self.negotiated_capabilities),
        }
    }
}

impl Clone for ConnectedClient {
    fn clone(&self) -> (r: Self)
        ensures
            r@ == self@,
    {
        ConnectedClient {
            id: self.id.clone(),
            client_info: self.client_info.clone(),
            connected_at: self.connected_at,
            last_message: self.last_message.clone(),
            capabilities: self.capabilities.clone(),
            negotiated_capabilities: match &self.negotiated_capabilities {
                Some(c) => Some(c.clone()),
                None => None,
            },
        }
    }
}

/// The views of a list of sessions.
pub open spec fn session_views(v: Seq<ConnectedClient>) -> Seq<ConnectedClientView> {
    v.map_values(|c: ConnectedClient| c@)
}

/// Whether no two of `sessions` share an id.
pub open spec fn distinct_ids(sessions: Seq<ConnectedClientView>) -> bool {
    forall|i: int, j: int|
        0 <= i < j < sessions.len() ==> (#[trigger] sessions[i]).id != (#[trigger] sessions[j]).id
}

/// Where the first session with `id` stands in `sessions`; their number
/// where there is none.
pub open spec fn index_of(sessions: Seq<ConnectedClientView>, id: Seq<char>) -> nat
    decreases sessions.len(),
{
    if sessions.len() == 0 || sessions[0].id == id {
        0
    } else {
        1 + index_of(sessions.drop_first(), id)
    }
}

/// Whether a session with `id` is among `sessions`.
pub open spec fn has_session(sessions: Seq<ConnectedClientView>, id: Seq<char>) -> bool {
    index_of(sessions, id) < sessions.len()
}

/// How many of `sessions` have `id`.
pub open spec fn count_sessions(sessions: Seq<ConnectedClientView>, id: Seq<char>) -> nat
    decreases sessions.len(),
{
    if sessions.len() == 0 {
        0
    } else if sessions[0].id == id {
        1 + count_sessions(sessions.drop_first(), id)
    } else {
        count_sessions(sessions.drop_first(), id)
    }
}

/// `sessions` without the session that has `id`.
pub open spec fn removed(sessions: Seq<ConnectedClientView>, id: Seq<char>) -> Seq<
    ConnectedClientView,
> {
    if has_session(sessions, id) {
        sessions.remove(index_of(sessions, id) as int)
    } else {
        sessions
    }
}

/// `sessions` with `session` in place of any earlier session of the same id.
pub open spec fn registered(
    sessions: Seq<ConnectedClientView>,
    session: ConnectedClientView,
) -> Seq<ConnectedClientView> {
    removed(sessions, session.id).push(session)
}

/// `sessions` with `method` noted as the last request of the session that has
/// `id`, if there is one.
pub open spec fn touched(
    sessions: Seq<ConnectedClientView>,
    id: Seq<char>,
    method: Seq<char>,
) -> Seq<ConnectedClientView> {
    if has_session(sessions, id) {
        let i = index_of(sessions, id) as int;
        sessions.update(i, ConnectedClientView { last_message: method, ..sessions[i] })
    } else {
        sessions
    }
}

/// The session a client has when it has just been added: its last request
/// reads "Connected", and `offer` is what the server offered it, if that is
/// settled.
pub open spec fn fresh_session(
    id: Seq<char>,
    info: ClientInfoView,
    capabilities: ClientCapabilitiesView,
    offer: Option<ServerCapabilitiesView>,
    connected_at: Timestamp,
) -> ConnectedClientView {
    ConnectedClientView {
        id,
        client_info: info,
        connected_at,
        last_message: "Connected"@,
        capabilities,
        negotiated_capabilities: offer,
    }
}

/// What `index_of` finds: the first session with the id, and none before it.
pub proof fn lemma_index_of(sessions: Seq<ConnectedClientView>, id: Seq<char>)
    ensures
        index_of(sessions, id) <= sessions.len(),
        has_session(sessions, id) ==> sessions[index_of(sessions, id) as int].id == id,
        forall|k: int| 0 <= k < index_of(sessions, id) ==> (#[trigger] sessions[k]).id != id,
    decreases sessions.len(),
{
    if sessions.len() == 0 || sessions[0].id == id {
    } else {
        let rest = sessions.drop_first();
        lemma_index_of(rest, id);
        assert forall|k: int| 0 <= k < index_of(sessions, id) implies (#[trigger] sessions[k]).id
            != id by {
            if k > 0 {
                assert(sessions[k] == rest[k - 1]);
            }
        }
        if has_session(sessions, id) {
            assert(sessions[index_of(sessions, id) as int] == rest[index_of(rest, id) as int]);
        }
    }
}

/// `index_of` is the place of the session with the id, wherever one is known
/// to be the first.
pub proof fn lemma_index_of_is(sessions: Seq<ConnectedClientView>, id: Seq<char>, n: int)
    requires
        0 <= n <= sessions.len(),
        forall|k: int| 0 <= k < n ==> (#[trigger] sessions[k]).id != id,
        n == sessions.len() || sessions[n].id == id,
    ensures
        index_of(sessions, id) == n,
    decreases sessions.len(),
{
    if n > 0 {
        let rest = sessions.drop_first();
        assert forall|k: int| 0 <= k < n - 1 implies (#[trigger] rest[k]).id != id by {
            assert(rest[k] == sessions[k + 1]);
        }
        lemma_index_of_is(rest, id, n - 1);
    }
}

/// Among sessions with distinct ids, a session counts once if its id is
/// there, and not at all if it is not.
pub proof fn lemma_count_distinct(sessions: Seq<ConnectedClientView>, id: Seq<char>)
    requires
        distinct_ids(sessions),
    ensures
        count_sessions(sessions, id) == if has_session(sessions, id) {
            1nat
        } else {
            0nat
        },
    decreases sessions.len(),
{
    if sessions.len() > 0 {
        let rest = sessions.drop_first();
        assert(distinct_ids(rest)) by {
            assert forall|i: int, j: int| 0 <= i < j < rest.len() implies (#[trigger] rest[i]).id
                != (#[trigger] rest[j]).id by {
                assert(rest[i] == sessions[i + 1]);
                assert(rest[j] == sessions[j + 1]);
            }
        }
        lemma_count_distinct(rest, id);
        if sessions[0].id == id {
            lemma_index_of(rest, id);
            if has_session(rest, id) {
                let k = index_of(rest, id) as int;
                assert(rest[k] == sessions[k + 1]);
                assert(sessions[0].id != sessions[k + 1].id);
            }
        }
    }
}

/// Removing a session keeps ids distinct and leaves no session with that id.
pub proof fn lemma_removed(sessions: Seq<ConnectedClientView>, id: Seq<char>)
    requires
        distinct_ids(sessions),
    ensures
        distinct_ids(removed(sessions, id)),
        !has_session(removed(sessions, id), id),
        count_sessions(removed(sessions, id), id) == 0,
        forall|other: Seq<char>|
            other != id ==> has_session(removed(sessions, id), other) == has_session(
                sessions,
                other,
            ),
{
    lemma_index_of(sessions, id);
    let out = removed(sessions, id);
    let n = index_of(sessions, id) as int;
    assert forall|i: int, j: int| 0 <= i < j < out.len() implies (#[trigger] out[i]).id != (
    #[trigger] out[j]).id by {
        if has_session(sessions, id) {
            let a = if i < n { i } else { i + 1 };
            let b = if j < n { j } else { j + 1 };
            assert(out[i] == sessions[a]);
            assert(out[j] == sessions[b]);
        }
    }
    assert forall|k: int| 0 <= k < out.len() implies (#[trigger] out[k]).id != id by {
        if has_session(sessions, id) {
            let a = if k < n { k } else { k + 1 };
            assert(out[k] == sessions[a]);
            if a > n {
                assert(sessions[n].id != sessions[a].id);
            }
        }
    }
    lemma_index_of_is(out, id, out.len() as int);
    lemma_count_distinct(out, id);
    assert forall|other: Seq<char>| other != id implies has_session(out, other) == has_session(
        sessions,
        other,
    ) by {
        lemma_index_of(sessions, other);
        lemma_index_of(out, other);
        if has_session(sessions, id) {
            if has_session(sessions, other) {
                let m = index_of(sessions, other) as int;
                let m2 = if m < n { m } else { m - 1 };
                assert(out[m2] == sessions[m]);
                if !has_session(out, other) {
                    assert(out[m2].id != other);
                }
            }
            if has_session(out, other) {
                let m = index_of(out, other) as int;
                let m2 = if m < n { m } else { m + 1 };
                assert(out[m] == sessions[m2]);
                if !has_session(sessions, other) {
                    assert(sessions[m2].id != other);
                }
            }
        }
    }
}

/// Adding a session keeps ids distinct and leaves exactly one session with
/// its id: the one that was added.
pub proof fn lemma_registered(sessions: Seq<ConnectedClientView>, session: ConnectedClientView)
    requires
        distinct_ids(sessions),
    ensures
        distinct_ids(registered(sessions, session)),
        has_session(registered(sessions, session), session.id),
        count_sessions(registered(sessions, session), session.id) == 1,
        registered(sessions, session)[index_of(registered(sessions, session), session.id) as int]
            == session,
{
    lemma_removed(sessions, session.id);
    let base = removed(sessions, session.id);
    let out = registered(sessions, session);
    lemma_index_of(base, session.id);
    assert forall|k: int| 0 <= k < base.len() implies (#[trigger] out[k]).id != session.id by {
        assert(out[k] == base[k]);
    }
    assert forall|i: int, j: int| 0 <= i < j < out.len() implies (#[trigger] out[i]).id != (
    #[trigger] out[j]).id by {
        if j < base.len() {
            assert(out[i] == base[i]);
            assert(out[j] == base[j]);
        }
    }
    lemma_index_of_is(out, session.id, base.len() as int);
    lemma_count_distinct(out, session.id);
}

/// Putting a session in the place of one with the same id keeps ids distinct.
pub proof fn lemma_update_keeps_ids(
    sessions: Seq<ConnectedClientView>,
    i: int,
    session: ConnectedClientView,
)
    requires
        distinct_ids(sessions),
        0 <= i < sessions.len(),
        sessions[i].id == session.id,
    ensures
        distinct_ids(sessions.update(i, session)),
{
    let out = sessions.update(i, session);
    assert forall|a: int, b: int| 0 <= a < b < out.len() implies (#[trigger] out[a]).id != (
    #[trigger] out[b]).id by {
        assert(out[a].id == sessions[a].id);
        assert(out[b].id == sessions[b].id);
    }
}

/// Removing a session a second time changes nothing.
pub proof fn lemma_remove_twice(sessions: Seq<ConnectedClientView>, id: Seq<char>)
    requires
        distinct_ids(sessions),
    ensures
        removed(removed(sessions, id), id) == removed(sessions, id),
{
    lemma_removed(sessions, id);
}

/// A client that is added to an empty registry is its only session, and the
/// registry is empty again once that client is removed.
pub proof fn lemma_register_then_remove(session: ConnectedClientView)
    ensures
        registered(Seq::empty(), session) == seq![session],
        removed(seq![session], session.id) == Seq::<ConnectedClientView>::empty(),
{
    assert(registered(Seq::empty(), session) =~= seq![session]);
    assert(removed(seq![session], session.id) =~= Seq::<ConnectedClientView>::empty());
}

/// `chrono::Utc::now`: the time on the system clock. Nothing is promised of
/// the moment that comes back.
#[verifier::external_body]
fn current_time() -> Timestamp {
    let now = chrono::Utc::now();
    Timestamp { secs: now.timestamp(), nanos: now.timestamp_subsec_nanos() }
}

/// The registry of connected clients. No two of its sessions share an id.
#[derive(Debug)]
pub struct ClientManager {
    clients: Vec<ConnectedClient>,
}

impl View for ClientManager {
    type V = Seq<ConnectedClientView>;

    closed spec fn view(&self) -> Seq<ConnectedClientView> {
        session_views(self.clients@)
    }
}

impl ClientManager {
    #[verifier::type_invariant]
    spec fn well_formed(&self) -> bool {
        distinct_ids(session_views(self.clients@))
    }

    /// An empty registry.
    pub fn new() -> (r: Self)
        ensures
            r@ == Seq::<ConnectedClientView>::empty(),
    {
        let r = ClientManager { clients: Vec::new() };
        assert(r@ =~= Seq::<ConnectedClientView>::empty());
        r
    }

    /// Hands out the sessions and leaves the registry empty, to be filled
    /// again by the caller.
    fn take(&mut self) -> (r: Vec<ConnectedClient>)
        ensures
            r == old(self).clients,
            final(self).clients@ == Seq::<ConnectedClient>::empty(),
            distinct_ids(session_views(r@)),
    {
        proof {
            use_type_invariant(&*self);
        }
        let mut clients: Vec<ConnectedClient> = Vec::new();
        std::mem::swap(&mut self.clients, &mut clients);
        clients
    }

    /// Where the session with `id` stands, if there is one.
    fn find(&self, id: &str) -> (r: Option<usize>)
        ensures
            match r {
                Some(i) => has_session(self@, id@) && i == index_of(self@, id@),
                None => !has_session(self@, id@),
            },
    {
        let mut i: usize = 0;
        while i < self.clients.len()
            invariant
                i <= self.clients.len(),
                forall|k: int| 0 <= k < i ==> (#[trigger] self@[k]).id != id@,
            decreases self.clients.len() - i,
        {
            if str_eq(self.clients[i].id.as_str(), id) {
                proof {
                    lemma_index_of_is(self@, id@, i as int);
                }
                return Some(i);
            }
            i = i + 1;
        }
        proof {
            lemma_index_of_is(self@, id@, i as int);
        }
        None
    }

    /// Puts `client` in the registry, in place of any earlier session of the
    /// same id.
    fn insert(&mut self, client: ConnectedClient)
        ensures
            final(self)@ == registered(old(self)@, client@),
    {
        let found = self.find(client.id.as_str());
        let mut clients = self.take();
        let ghost before = clients@;
        proof {
            lemma_removed(session_views(before), client.id@);
            lemma_registered(session_views(before), client@);
        }
        if let Some(i) = found {
            clients.remove(i);
            assert(session_views(clients@) =~= removed(session_views(before), client.id@));
        }
        let ghost base = clients@;
        clients.push(client);
        assert(session_views(clients@) =~= session_views(base).push(client@));
        self.clients = clients;
    }

    /// Adds a client that connected at `connected_at`, in place of any earlier
    /// session of the same id. Its last request reads "Connected"; what the
    /// server offers it is not settled.
    pub fn add_client_at(
        &mut self,
        id: String,
        info: ClientInfo,
        capabilities: ClientCapabilities,
        connected_at: Timestamp,
    )
        ensures
            final(self)@ == registered(
                old(self)@,
                fresh_session(id@, info@, capabilities@, None, connected_at),
            ),
    {
        self.insert(
            ConnectedClient {
                id,
                client_info: info,
                connected_at,
                last_message: "Connected".to_owned(),
                capabilities,
                negotiated_capabilities: None,
            },
        );
    }

    /// Adds a client that connects now, in place of any earlier session of
    /// the same id.
    pub fn add_client(&mut self, id: String, info: ClientInfo, capabilities: ClientCapabilities)
        ensures
            exists|connected_at: Timestamp|
                final(self)@ == registered(
                    old(self)@,
                    #[trigger] fresh_session(id@, info@, capabilities@, None, connected_at),
                ),
    {
        let connected_at = current_time();
        self.add_client_at(id, info, capabilities, connected_at);
    }

    /// Adds a client that connected at `connected_at` and was offered `offer`,
    /// in place of any earlier session of the same id.
    pub fn add_session_at(
        &mut self,
        id: String,
        info: ClientInfo,
        capabilities: ClientCapabilities,
        offer: ServerCapabilities,
        connected_at: Timestamp,
    )
        ensures
            final(self)@ == registered(
                old(self)@,
                fresh_session(id@, info@, capabilities@, Some(offer@), connected_at),
            ),
    {
        self.insert(
            ConnectedClient {
                id,
                client_info: info,
                connected_at,
                last_message: "Connected".to_owned(),
                capabilities,
                negotiated_capabilities: Some(offer),
            },
        );
    }

    /// Adds a client that connects now and was offered `offer`, in place of
    /// any earlier session of the same id.
    pub fn add_session(
        &mut self,
        id: String,
        info: ClientInfo,
        capabilities: ClientCapabilities,
        offer: ServerCapabilities,
    )
        ensures
            exists|connected_at: Timestamp|
                final(self)@ == registered(
                    old(self)@,
                    #[trigger] fresh_session(
                        id@,
                        info@,
                        capabilities@,
                        Some(offer@),
                        connected_at,
                    ),
                ),
    {
        let connected_at = current_time();
        self.add_session_at(id, info, capabilities, offer, connected_at);
    }

    /// Removes the session with `id`. Where there is none, nothing changes.
    pub fn remove_client(&mut self, id: &str)
        ensures
            final(self)@ == removed(old(self)@, id@),
            !has_session(final(self)@, id@),
    {
        let found = self.find(id);
        let mut clients = self.take();
        let ghost before = clients@;
        proof {
            lemma_removed(session_views(before), id@);
        }
        if let Some(i) = found {
            clients.remove(i);
            assert(session_views(clients@) =~= removed(session_views(before), id@));
        }
        self.clients = clients;
    }

    /// Removes every session.
    pub fn clear_clients(&mut self)
        ensures
            final(self)@ == Seq::<ConnectedClientView>::empty(),
    {
        self.clients = Vec::new();
        assert(session_views(self.clients@) =~= Seq::<ConnectedClientView>::empty());
    }

    /// Notes `message` as the last request of the session with `id`. Where
    /// there is none, nothing changes.
    pub fn update_last_message(&mut self, id: &str, message: String)
        ensures
            final(self)@ == touched(old(self)@, id@, message@),
    {
        let found = self.find(id);
        let mut clients = self.take();
        let ghost before = clients@;
        if let Some(i) = found {
            proof {
                lemma_index_of(session_views(before), id@);
            }
            let mut client = clients.remove(i);
            assert(session_views(clients@) =~= session_views(before).remove(i as int));
            client.last_message = message;
            clients.insert(i, client);
            assert(session_views(clients@) =~= touched(session_views(before), id@, message@));
            proof {
                lemma_update_keeps_ids(
                    session_views(before),
                    i as int,
                    session_views(clients@)[i as int],
                );
            }
        }
        self.clients = clients;
    }

    /// A copy of every session, in the order in which they were added.
    pub fn get_clients(&self) -> (r: Vec<ConnectedClient>)
        ensures
            session_views(r@) == self@,
            distinct_ids(self@),
    {
        proof {
            use_type_invariant(self);
        }
        let mut out: Vec<ConnectedClient> = Vec::new();
        let mut i: usize = 0;
        while i < self.clients.len()
            invariant
                i <= self.clients.len(),
                session_views(out@) == self@.subrange(0, i as int),
            decreases self.clients.len() - i,
        {
            let ghost before = out@;
            out.push(self.clients[i].clone());
            assert(session_views(out@) =~= session_views(before).push(self@[i as int]));
            assert(session_views(out@) =~= self@.subrange(0, i + 1));
            i = i + 1;
        }
        assert(self@.subrange(0, self.clients.len() as int) =~= self@);
        out
    }
}

impl Default for ClientManager {
    fn default() -> (r: Self)
        ensures
            r@ == Seq::<ConnectedClientView>::empty(),
    {
        ClientManager::new()
    }
}

} // verus!
