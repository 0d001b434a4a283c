//! The registry of connected agent sessions.
//!
//! Sessions are kept in a `dashmap::DashMap` keyed by session id. The registry
//! is modelled as a finite map from session id to session record, and every
//! operation is one atomic step on that map: a caller holds the registry
//! exclusively for the length of one call, so any interleaving of callers is
//! some sequence of steps.

use vstd::prelude::*;
use dashmap::DashMap;
use crate::clock::{Timestamp, utc_now};

verus! {

/// What is known about one connected session.
#[derive(Debug)]
pub struct ClientInfo {
    pub socket_id: String,
    pub ip_address: String,
    pub connected_at: Timestamp,
    pub last_activity: Timestamp,
}

/// A session record as a mathematical value.
pub struct SessionView {
    pub socket_id: Seq<char>,
    pub ip_address: Seq<char>,
    pub connected_at: Timestamp,
    pub last_activity: Timestamp,
}

impl View for ClientInfo {
    type V = SessionView;

    open spec fn view(&self) -> SessionView {
        SessionView {
            socket_id: self.socket_id@,
            ip_address: self.ip_address@,
            connected_at: self.connected_at,
            last_activity: self.last_activity,
        }
    }
}

impl Clone for ClientInfo {
    fn clone(&self) -> (copy: Self)
        ensures
            copy == *self,
    {
        ClientInfo {
            socket_id: self.socket_id.clone(),
            ip_address: self.ip_address.clone(),
            connected_at: self.connected_at,
            last_activity: self.last_activity,
        }
    }
}

/// One atomic operation on the registry.
pub enum RegistryOp {
    /// A session connects, or reconnects under an id that is already known.
    Add { socket_id: Seq<char>, ip_address: Seq<char>, at: Timestamp },
    /// A session disconnects.
    Remove { socket_id: Seq<char> },
    /// A session shows activity.
    Touch { socket_id: Seq<char>, at: Timestamp },
    /// A session reports its address.
    UpdateIp { socket_id: Seq<char>, ip_address: Seq<char>, at: Timestamp },
}

/// The registry after one operation.
pub open spec fn registry_step(sessions: Map<Seq<char>, SessionView>, op: RegistryOp) -> Map<
    Seq<char>,
    SessionView,
> {
    match op {
        RegistryOp::Add { socket_id, ip_address, at } => sessions.insert(
            socket_id,
            SessionView { socket_id, ip_address, connected_at: at, last_activity: at },
        ),
        RegistryOp::Remove { socket_id } => sessions.remove(socket_id),
        RegistryOp::Touch { socket_id, at } => if sessions.contains_key(socket_id) {
            sessions.insert(socket_id, SessionView { last_activity: at, ..sessions[socket_id] })
        } else {
            sessions
        },
        RegistryOp::UpdateIp { socket_id, ip_address, at } => if sessions.contains_key(socket_id) {
            sessions.insert(
                socket_id,
                SessionView { ip_address, last_activity: at, ..sessions[socket_id] },
            )
        } else {
            sessions
        },
    }
}

/// The registry that a sequence of operations builds, starting from an empty one.
pub open spec fn registry_after(ops: Seq<RegistryOp>) -> Map<Seq<char>, SessionView>
    decreases ops.len(),
{
    if ops.len() == 0 {
        Map::empty()
    } else {
        registry_step(registry_after(ops.drop_last()), ops.last())
    }
}

/// A session is connected after `ops` when some operation added it and no later
/// operation removed it.
pub open spec fn connected_after(ops: Seq<RegistryOp>, socket_id: Seq<char>) -> bool {
    exists|i: int|
        0 <= i < ops.len() && #[trigger] adds(ops[i], socket_id) && forall|j: int|
            i < j < ops.len() ==> !#[trigger] removes(ops[j], socket_id)
}

/// `op` connects the session `socket_id`.
pub open spec fn adds(op: RegistryOp, socket_id: Seq<char>) -> bool {
    op matches RegistryOp::Add { socket_id: added, .. } && added == socket_id
}

/// `op` disconnects the session `socket_id`.
pub open spec fn removes(op: RegistryOp, socket_id: Seq<char>) -> bool {
    op matches RegistryOp::Remove { socket_id: removed } && removed == socket_id
}

/// Every record is filed under its own session id, and there are finitely many.
pub open spec fn registry_wf(sessions: Map<Seq<char>, SessionView>) -> bool {
    &&& sessions.dom().finite()
    &&& forall|id: Seq<char>| #[trigger] sessions.contains_key(id) ==> sessions[id].socket_id == id
}

/// The records of a snapshot as mathematical values.
pub open spec fn session_views(listing: Seq<ClientInfo>) -> Seq<SessionView> {
    listing.map_values(|info: ClientInfo| info@)
}

/// `listing` names every session of `sessions` exactly once, in some order.
pub open spec fn is_listing(listing: Seq<SessionView>, sessions: Map<Seq<char>, SessionView>) -> bool {
    &&& forall|i: int|
        0 <= i < listing.len() ==> sessions.contains_key(#[trigger] listing[i].socket_id)
            && sessions[listing[i].socket_id] == listing[i]
    &&& forall|i: int, j: int|
        0 <= i < j < listing.len() ==> #[trigger] listing[i].socket_id != #[trigger] listing[j].socket_id
    &&& forall|id: Seq<char>| #[trigger]
        sessions.contains_key(id) ==> exists|i: int|
            0 <= i < listing.len() && #[trigger] listing[i].socket_id == id
}

#[verifier::external_type_specification]
#[verifier::external_body]
#[verifier::reject_recursive_types(K)]
#[verifier::reject_recursive_types(V)]
#[verifier::reject_recursive_types(S)]
pub struct ExDashMap<K, V, S>(DashMap<K, V, S>);

/// The entries of a session table: session id to session record.
pub uninterp spec fn sessions_of(table: DashMap<String, ClientInfo>) -> Map<Seq<char>, ClientInfo>;

/// `DashMap::new`: a table without entries.
#[verifier::external_body]
fn table_new() -> (table: DashMap<String, ClientInfo>)
    ensures
        sessions_of(table) =~= Map::empty(),
{
    DashMap::new()
}

/// `DashMap::insert`: the entry under `key` becomes `value`, all other entries
/// stay, and the value that was under `key` before, if any, is returned.
#[verifier::external_body]
fn table_insert(table: &mut DashMap<String, ClientInfo>, key: String, value: ClientInfo) -> (previous: Option<ClientInfo>)
    ensures
        sessions_of(*final(table)) == sessions_of(*old(table)).insert(key@, value),
        previous == (if sessions_of(*old(table)).contains_key(key@) {
            Some(sessions_of(*old(table))[key@])
        } else {
            None
        }),
{
    table.insert(key, value)
}

/// `DashMap::remove`: the entry under `key` leaves the table and its value is
/// returned; a table without such an entry stays as it is.
#[verifier::external_body]
fn table_remove(table: &mut DashMap<String, ClientInfo>, key: &str) -> (removed: Option<ClientInfo>)
    ensures
        sessions_of(*final(table)) == sessions_of(*old(table)).remove(key@),
        removed == (if sessions_of(*old(table)).contains_key(key@) {
            Some(sessions_of(*old(table))[key@])
        } else {
            None
        }),
{
    table.remove(key).map(|(_, value)| value)
}

/// `DashMap::get`: a copy of the value under `key`, if there is one.
#[verifier::external_body]
fn table_get(table: &DashMap<String, ClientInfo>, key: &str) -> (found: Option<ClientInfo>)
    ensures
        found == (if sessions_of(*table).contains_key(key@) {
            Some(sessions_of(*table)[key@])
        } else {
            None
        }),
{
    table.get(key).map(|entry| entry.value().clone())
}

/// `DashMap::iter`: copies of all entries, each key once, in an order that is
/// not specified.
#[verifier::external_body]
fn table_entries(table: &DashMap<String, ClientInfo>) -> (entries: Vec<(String, ClientInfo)>)
    ensures
        forall|i: int|
            0 <= i < entries@.len() ==> sessions_of(*table).contains_key(#[trigger] entries@[i].0@)
                && sessions_of(*table)[entries@[i].0@] == entries@[i].1,
        forall|i: int, j: int|
            0 <= i < j < entries@.len() ==> #[trigger] entries@[i].0@ != #[trigger] entries@[j].0@,
        forall|key: Seq<char>| #[trigger]
            sessions_of(*table).contains_key(key) ==> exists|i: int|
                0 <= i < entries@.len() && #[trigger] entries@[i].0@ == key,
{
    table.iter().map(|entry| (entry.key().clone(), entry.value().clone())).collect()
}

/// `DashMap::len`: the number of entries.
#[verifier::external_body]
fn table_len(table: &DashMap<String, ClientInfo>) -> (count: usize)
    ensures
        count == sessions_of(*table).len(),
{
    table.len()
}

/// The records of a table as mathematical values.
spec fn views_of(table: Map<Seq<char>, ClientInfo>) -> Map<Seq<char>, SessionView> {
    table.map_values(|info: ClientInfo| info@)
}

proof fn lemma_views_of(table: Map<Seq<char>, ClientInfo>)
    ensures
        views_of(table).dom() == table.dom(),
        forall|id: Seq<char>| #[trigger]
            table.contains_key(id) ==> views_of(table).contains_key(id) && views_of(table)[id]
                == table[id]@,
{
    assert(views_of(table).dom() =~= table.dom());
}

/// The registry of connected sessions.
pub struct ClientState {
    clients: Option<DashMap<String, ClientInfo>>,
}

impl View for ClientState {
    type V = Map<Seq<char>, SessionView>;

    closed spec fn view(&self) -> Map<Seq<char>, SessionView> {
        match self.clients {
            Some(table) => views_of(sessions_of(table)),
            None => Map::empty(),
        }
    }
}

impl ClientState {
    #[verifier::type_invariant]
    spec fn filed_by_id(self) -> bool {
        registry_wf(self@)
    }

    /// A registry without sessions.
    pub fn new() -> (state: Self)
        ensures
            state@ =~= Map::empty(),
            registry_wf(state@),
    {
        let clients = table_new();
        assert(views_of(sessions_of(clients)) =~= Map::empty());
        ClientState { clients: Some(clients) }
    }

    /// Takes the table out of the registry, which is empty until the table is
    /// put back.
    fn take_table(&mut self) -> (table: DashMap<String, ClientInfo>)
        ensures
            views_of(sessions_of(table)) == old(self)@,
            registry_wf(old(self)@),
            final(self).clients is None,
    {
        proof {
            use_type_invariant(&*self);
        }
        let mut taken: Option<DashMap<String, ClientInfo>> = None;
        std::mem::swap(&mut taken, &mut self.clients);
        match taken {
            Some(table) => table,
            None => {
                let table = table_new();
                assert(views_of(sessions_of(table)) =~= Map::empty());
                table
            },
        }
    }

    /// Registers a session that connected at `now`, replacing any record that
    /// is filed under the same id.
    pub fn add_client_at(&mut self, socket_id: String, ip_address: String, now: Timestamp)
        ensures
            final(self)@ == registry_step(
                old(self)@,
                (RegistryOp::Add { socket_id: socket_id@, ip_address: ip_address@, at: now }),
            ),
            registry_wf(final(self)@),
    {
        let mut table = self.take_table();
        let ghost before = sessions_of(table);
        let info = ClientInfo {
            socket_id: socket_id.clone(),
            ip_address,
            connected_at: now,
            last_activity: now,
        };
        let _ = table_insert(&mut table, socket_id, info);
        assert(views_of(sessions_of(table)) =~= views_of(before).insert(info.socket_id@, info@));
        self.clients = Some(table);
    }

    /// Registers a session that connects now.
    pub fn add_client(&mut self, socket_id: String, ip_address: String)
        ensures
            exists|at: Timestamp| #[trigger]
                registry_step(
                    old(self)@,
                    (RegistryOp::Add { socket_id: socket_id@, ip_address: ip_address@, at }),
                ) == final(self)@,
            registry_wf(final(self)@),
    {
        let now = utc_now();
        self.add_client_at(socket_id, ip_address, now);
    }

    /// Removes a session and returns its record, or `None` when no session is
    /// filed under `socket_id`.
    pub fn remove_client(&mut self, socket_id: &str) -> (removed: Option<ClientInfo>)
        ensures
            final(self)@ == registry_step(old(self)@, (RegistryOp::Remove { socket_id: socket_id@ })),
            registry_wf(final(self)@),
            old(self)@.contains_key(socket_id@) ==> removed.is_some() && removed.unwrap()@ == old(
                self,
            )@[socket_id@],
            !old(self)@.contains_key(socket_id@) ==> removed.is_none(),
    {
        let mut table = self.take_table();
        let ghost before = sessions_of(table);
        let removed = table_remove(&mut table, socket_id);
        proof {
            lemma_views_of(before);
            assert(views_of(sessions_of(table)) =~= views_of(before).remove(socket_id@));
        }
        self.clients = Some(table);
        removed
    }

    /// Records activity of a session at `now`; does nothing when no session is
    /// filed under `socket_id`.
    pub fn update_activity_at(&mut self, socket_id: &str, now: Timestamp)
        ensures
            final(self)@ == registry_step(
                old(self)@,
                (RegistryOp::Touch { socket_id: socket_id@, at: now }),
            ),
            registry_wf(final(self)@),
    {
        let mut table = self.take_table();
        let ghost before = sessions_of(table);
        proof {
            lemma_views_of(before);
        }
        match table_get(&table, socket_id) {
            Some(info) => {
                let updated = ClientInfo { last_activity: now, ..info };
                let _ = table_insert(&mut table, socket_id.to_owned(), updated);
                assert(views_of(sessions_of(table)) =~= views_of(before).insert(
                    socket_id@,
                    updated@,
                ));
            },
            None => {},
        }
        self.clients = Some(table);
    }

    /// Records activity of a session now.
    pub fn update_activity(&mut self, socket_id: &str)
        ensures
            exists|at: Timestamp| #[trigger]
                registry_step(old(self)@, (RegistryOp::Touch { socket_id: socket_id@, at }))
                    == final(self)@,
            registry_wf(final(self)@),
    {
        let now = utc_now();
        self.update_activity_at(socket_id, now);
    }

    /// Records the address that a session reported at `now`, which also counts
    /// as activity; does nothing when no session is filed under `socket_id`.
    pub fn update_ip_at(&mut self, socket_id: &str, ip_address: String, now: Timestamp)
        ensures
            final(self)@ == registry_step(
                old(self)@,
                (RegistryOp::UpdateIp { socket_id: socket_id@, ip_address: ip_address@, at: now }),
            ),
            registry_wf(final(self)@),
    {
        let mut table = self.take_table();
        let ghost before = sessions_of(table);
        proof {
            lemma_views_of(before);
        }
        match table_get(&table, socket_id) {
            Some(info) => {
                let updated = ClientInfo { ip_address, last_activity: now, ..info };
                let _ = table_insert(&mut table, socket_id.to_owned(), updated);
                assert(views_of(sessions_of(table)) =~= views_of(before).insert(
                    socket_id@,
                    updated@,
                ));
            },
            None => {},
        }
        self.clients = Some(table);
    }

    /// Records the address that a session reports now.
    pub fn update_ip(&mut self, socket_id: &str, ip_address: String)
        ensures
            exists|at: Timestamp| #[trigger]
                registry_step(
                    old(self)@,
                    (RegistryOp::UpdateIp { socket_id: socket_id@, ip_address: ip_address@, at }),
                ) == final(self)@,
            registry_wf(final(self)@),
    {
        let now = utc_now();
        self.update_ip_at(socket_id, ip_address, now);
    }

    /// A snapshot of all sessions: copies of the records, in no particular
    /// order.
    pub fn get_all_clients(&self) -> (listing: Vec<ClientInfo>)
        ensures
            is_listing(session_views(listing@), self@),
            listing@.len() == self@.len(),
            registry_wf(self@),
    {
        proof {
            use_type_invariant(self);
        }
        let mut listing: Vec<ClientInfo> = Vec::new();
        match &self.clients {
            Some(table) => {
                let entries = table_entries(table);
                let mut i: usize = 0;
                while i < entries.len()
                    invariant
                        0 <= i <= entries@.len(),
                        listing@.len() == i,
                        forall|k: int| 0 <= k < i ==> listing@[k] == entries@[k].1,
                    decreases entries@.len() - i,
                {
                    listing.push(entries[i].1.clone());
                    i = i + 1;
                }
                proof {
                    let views = session_views(listing@);
                    lemma_views_of(sessions_of(*table));
                    assert forall|k: int| 0 <= k < views.len() implies views[k].socket_id
                        == entries@[k].0@ && self@.contains_key(entries@[k].0@) && self@[entries@[k].0@]
                        == views[k] by {
                        assert(sessions_of(*table).contains_key(entries@[k].0@));
                        assert(views[k] == entries@[k].1@);
                    }
                    assert(is_listing(views, self@)) by {
                        assert forall|id: Seq<char>| #[trigger] self@.contains_key(id) implies exists|
                            i: int,
                        | 0 <= i < views.len() && #[trigger] views[i].socket_id == id by {
                            assert(sessions_of(*table).contains_key(id));
                            let i = choose|i: int|
                                0 <= i < entries@.len() && #[trigger] entries@[i].0@ == id;
                            assert(views[i].socket_id == id);
                        }
                    }
                    lemma_listing_len(views, self@);
                }
            },
            None => {
                proof {
                    assert(self@.dom() =~= Set::empty());
                }
            },
        }
        listing
    }

    /// The number of sessions.
    pub fn get_client_count(&self) -> (count: usize)
        ensures
            count == self@.len(),
            registry_wf(self@),
    {
        proof {
            use_type_invariant(self);
        }
        match &self.clients {
            Some(table) => {
                proof {
                    lemma_views_of(sessions_of(*table));
                }
                table_len(table)
            },
            None => 0,
        }
    }
}

impl Default for ClientState {
    fn default() -> (state: Self)
        ensures
            state@ =~= Map::empty(),
            registry_wf(state@),
    {
        ClientState::new()
    }
}

/// A listing has as many entries as the registry has sessions, so the count
/// of sessions and the length of a snapshot agree.
pub proof fn lemma_listing_len(listing: Seq<SessionView>, sessions: Map<Seq<char>, SessionView>)
    requires
        sessions.dom().finite(),
        is_listing(listing, sessions),
    ensures
        listing.len() == sessions.len(),
{
    let ids = listing.map_values(|session: SessionView| session.socket_id);
    assert(ids.no_duplicates()) by {
        assert forall|i: int, j: int| 0 <= i < ids.len() && 0 <= j < ids.len() && i != j implies ids[i]
            != ids[j] by {
            if i < j {
                assert(listing[i].socket_id != listing[j].socket_id);
            } else {
                assert(listing[j].socket_id != listing[i].socket_id);
            }
        }
    }
    ids.unique_seq_to_set();
    assert(ids.to_set() =~= sessions.dom()) by {
        assert forall|id: Seq<char>| ids.to_set().contains(id) <==> sessions.dom().contains(id) by {
            if ids.to_set().contains(id) {
                let i = choose|i: int| 0 <= i < ids.len() && ids[i] == id;
                assert(sessions.contains_key(listing[i].socket_id));
            }
            if sessions.dom().contains(id) {
                assert(sessions.contains_key(id));
                let i = choose|i: int| 0 <= i < listing.len() && #[trigger] listing[i].socket_id == id;
                assert(ids[i] == id);
            }
        }
    }
}

/// Whatever the interleaving of connects, disconnects, activity and address
/// updates, the registry holds exactly the sessions that are connected: those
/// that some operation added and no later operation removed. Every record is
/// filed under its own id.
pub proof fn lemma_registry_tracks_connected(ops: Seq<RegistryOp>)
    ensures
        registry_wf(registry_after(ops)),
        forall|id: Seq<char>| #[trigger]
            registry_after(ops).contains_key(id) <==> connected_after(ops, id),
    decreases ops.len(),
{
    if ops.len() == 0 {
    } else {
        let earlier = ops.drop_last();
        let last = ops.last();
        lemma_registry_tracks_connected(earlier);
        let before = registry_after(earlier);
        let after = registry_after(ops);
        assert forall|id: Seq<char>| #[trigger] after.contains_key(id) <==> connected_after(
            ops,
            id,
        ) by {
            if connected_after(earlier, id) {
                let i = choose|i: int|
                    0 <= i < earlier.len() && #[trigger] adds(earlier[i], id) && forall|j: int|
                        i < j < earlier.len() ==> !#[trigger] removes(earlier[j], id);
                assert(ops[i] == earlier[i]);
                if !removes(last, id) {
                    assert forall|j: int| i < j < ops.len() implies !#[trigger] removes(ops[j], id) by {
                        if j < earlier.len() {
                            assert(ops[j] == earlier[j]);
                        }
                    }
                    assert(adds(ops[i], id));
                    assert(connected_after(ops, id));
                }
            }
            if adds(last, id) {
                assert(adds(ops[ops.len() - 1], id));
                assert(connected_after(ops, id));
            }
            if connected_after(ops, id) {
                let i = choose|i: int|
                    0 <= i < ops.len() && #[trigger] adds(ops[i], id) && forall|j: int|
                        i < j < ops.len() ==> !#[trigger] removes(ops[j], id);
                if i < earlier.len() {
                    assert(earlier[i] == ops[i]);
                    assert forall|j: int| i < j < earlier.len() implies !#[trigger] removes(
                        earlier[j],
                        id,
                    ) by {
                        assert(earlier[j] == ops[j]);
                    }
                    assert(connected_after(earlier, id));
                    assert(!removes(ops[ops.len() - 1], id));
                }
            }
        }
    }
}

} // verus!
