//! The client service: who is connected, as text.

use vstd::prelude::*;
use crate::client_state::{ClientInfo, ClientState, is_listing, session_views};
use crate::clock::{Timestamp, rfc3339, rfc3339_text};

verus! {

/// A connected session, its times written as RFC 3339 texts.
#[derive(Debug)]
pub struct ConnectedClient {
    pub socket_id: String,
    pub ip_address: String,
    pub connected_at: String,
    pub last_activity: String,
}

/// The connected sessions and their number.
#[derive(Debug)]
pub struct ClientList {
    pub clients: Vec<ConnectedClient>,
    pub total: i32,
}

/// The client service.
#[derive(Debug)]
pub struct ClientServiceImpl;

/// The RFC 3339 text of a point in time, and the empty text for one that has
/// none.
pub open spec fn time_text(at: Timestamp) -> Seq<char> {
    match rfc3339_text(at.secs, at.nanos) {
        Some(text) => text,
        None => Seq::empty(),
    }
}

/// `client` describes the session `info`.
pub open spec fn describes(client: ConnectedClient, info: ClientInfo) -> bool {
    &&& client.socket_id == info.socket_id
    &&& client.ip_address == info.ip_address
    &&& client.connected_at@ == time_text(info.connected_at)
    &&& client.last_activity@ == time_text(info.last_activity)
}

fn time_as_text(at: Timestamp) -> (text: String)
    ensures
        text@ == time_text(at),
{
    match rfc3339(at) {
        Some(text) => text,
        None => String::new(),
    }
}

/// Describes a session.
pub fn connected_client(info: &ClientInfo) -> (client: ConnectedClient)
    ensures
        describes(client, *info),
{
    ConnectedClient {
        socket_id: info.socket_id.clone(),
        ip_address: info.ip_address.clone(),
        connected_at: time_as_text(info.connected_at),
        last_activity: time_as_text(info.last_activity),
    }
}

impl ClientServiceImpl {
    /// The client service.
    pub fn new() -> (service: Self)
        ensures
            service == ClientServiceImpl,
    {
        ClientServiceImpl
    }

    /// Describes the sessions of a snapshot, in its order, and counts them.
    /// The count is the length of the list, cut to 32 bits.
    pub fn list_of(listing: &Vec<ClientInfo>) -> (list: ClientList)
        ensures
            list.clients@.len() == listing@.len(),
            forall|i: int|
                0 <= i < listing@.len() ==> describes(#[trigger] list.clients@[i], listing@[i]),
            list.total == listing@.len() as i32,
    {
        let mut clients: Vec<ConnectedClient> = Vec::new();
        let mut i: usize = 0;
        while i < listing.len()
            invariant
                0 <= i <= listing@.len(),
                clients@.len() == i,
                forall|k: int| 0 <= k < i ==> describes(#[trigger] clients@[k], listing@[k]),
            decreases listing@.len() - i,
        {
            clients.push(connected_client(&listing[i]));
            i = i + 1;
        }
        let total = #[verifier::truncate]
        (clients.len() as i32);
        ClientList { clients, total }
    }

    /// All connected sessions, in no particular order, and their number.
    pub fn get_all(&self, state: &ClientState) -> (list: ClientList)
        ensures
            list.clients@.len() == state@.len(),
            exists|listing: Seq<ClientInfo>|
                #![trigger session_views(listing)]
                is_listing(session_views(listing), state@) && listing.len() == list.clients@.len()
                    && forall|i: int|
                    0 <= i < listing.len() ==> describes(#[trigger] list.clients@[i], listing[i]),
            list.total == state@.len() as i32,
    {
        let listing = state.get_all_clients();
        let list = ClientServiceImpl::list_of(&listing);
        proof {
            assert(is_listing(session_views(listing@), state@));
        }
        list
    }
}

} // verus!
