//! What a desktop shell is shown of the connected clients.

use crate::clients::{ClientManager, ConnectedClient, ConnectedClientView, Timestamp};
use crate::types::{clone_opt_experimental, clone_opt_settings, Experimental, Settings};
use std::collections::HashMap;
use vstd::prelude::*;

verus! {

/// What `chrono` prints for a moment in UTC in the RFC 3339 format, where
/// the moment can be represented.
pub uninterp spec fn rfc3339_text(secs: i64, nanos: u32) -> Option<Seq<char>>;

/// `chrono::DateTime::from_timestamp`, then `to_rfc3339`. The result is
/// named, not described; there is none for a moment that is out of range.
#[verifier::external_body]
fn rfc3339(at: Timestamp) -> (r: Option<String>)
    ensures
        crate::types::opt_text(r) == rfc3339_text(at.secs, at.nanos),
{
    match chrono::DateTime::from_timestamp(at.secs, at.nanos) {
        Some(moment) => Some(moment.to_rfc3339()),
        None => None,
    }
}

/// The name and version of a client, as shown.
#[derive(Debug, PartialEq, Eq)]
pub struct ClientInfoResponse {
    pub name: String,
    pub version: String,
}

/// A client's declaration of roots, as shown.
#[derive(Debug, Clone, Copy, PartialEq, Eq, Structural)]
pub struct RootsCapabilityResponse {
    pub list_changed: bool,
}

/// What a client declared, as shown: a block that the client left out is
/// shown empty.
#[derive(Debug, PartialEq)]
pub struct CapabilitiesResponse {
    pub experimental: Experimental,
    pub roots: RootsCapabilityResponse,
    pub sampling: Settings,
}

/// One connected client, as shown.
#[derive(Debug, PartialEq)]
pub struct ClientResponse {
    pub id: String,
    pub client_info: ClientInfoResponse,
    pub connected_at: String,
    pub last_message: String,
    pub capabilities: CapabilitiesResponse,
}

/// The moment of connection as it is shown: in the RFC 3339 format, and
/// empty for a moment that cannot be represented.
pub open spec fn shown_time(at: Timestamp) -> Seq<char> {
    match rfc3339_text(at.secs, at.nanos) {
        Some(text) => text,
        None => Seq::empty(),
    }
}

/// Whether `shown` is what is shown of the session `client`.
pub open spec fn shows(shown: ClientResponse, client: ConnectedClientView) -> bool {
    &&& shown.id@ == client.id
    &&& shown.client_info.name@ == client.client_info.name
    &&& shown.client_info.version@ == client.client_info.version
    &&& shown.connected_at@ == shown_time(client.connected_at)
    &&& shown.last_message@ == client.last_message
    &&& shown.capabilities.experimental@ == match client.capabilities.experimental {
        Some(block) => block,
        None => Map::empty(),
    }
    &&& shown.capabilities.roots.list_changed == match client.capabilities.roots {
        Some(roots) => roots.list_changed,
        None => false,
    }
    &&& shown.capabilities.sampling@ == match client.capabilities.sampling {
        Some(block) => block,
        None => Map::empty(),
    }
}

/// What is shown of one session.
fn client_response(client: &ConnectedClient) -> (r: ClientResponse)
    ensures
        shows(r, client@),
{
    ClientResponse {
        id: client.id.clone(),
        client_info: ClientInfoResponse {
            name: client.client_info.name.clone(),
            version: client.client_info.version.clone(),
        },
        connected_at: match rfc3339(client.connected_at) {
            Some(text) => text,
            None => String::new(),
        },
        last_message: client.last_message.clone(),
        capabilities: CapabilitiesResponse {
            experimental: match clone_opt_experimental(&client.capabilities.experimental) {
                Some(block) => block,
                None => HashMap::new(),
            },
            roots: RootsCapabilityResponse {
                list_changed: match client.capabilities.roots {
                    Some(roots) => roots.list_changed,
                    None => false,
                },
            },
            sampling: match clone_opt_settings(&client.capabilities.sampling) {
                Some(block) => block,
                None => HashMap::new(),
            },
        },
    }
}

/// The connected clients as they are shown, one for each session of the
/// registry, in the registry's order.
pub fn get_connected_clients(registry: &ClientManager) -> (r: Vec<ClientResponse>)
    ensures
        r.len() == registry@.len(),
        forall|i: int| 0 <= i < r.len() ==> shows(#[trigger] r[i], registry@[i]),
{
    let clients = registry.get_clients();
    let mut out: Vec<ClientResponse> = Vec::new();
    let mut i: usize = 0;
    while i < clients.len()
        invariant
            i <= clients.len(),
            crate::clients::session_views(clients@) == registry@,
            out.len() == i,
            forall|k: int| 0 <= k < i ==> shows(#[trigger] out[k], registry@[k]),
        decreases clients.len() - i,
    {
        assert(crate::clients::session_views(clients@)[i as int] == clients[i as int]@);
        out.push(client_response(&clients[i]));
        i = i + 1;
    }
    out
}

} // verus!
