//! Capability negotiation: what the server offers a client, given what the
//! client declares; and a table of clients with what was settled for each.

use crate::types::{
    ClientCapabilities, ClientCapabilitiesView, PromptsCapability, ResourcesCapability,
    ServerCapabilities, ServerCapabilitiesView, ToolsCapability,
};
use std::collections::HashMap;
use vstd::prelude::*;

verus! {

broadcast use vstd::std_specs::hash::group_hash_axioms;

/// Whether the client declared a free-form block with something in it.
pub open spec fn declares_experimental(client: ClientCapabilitiesView) -> bool {
    client.experimental matches Some(block) && !block.is_empty()
}

/// What the server offers a client: its defaults, with resources offered
/// with subscriptions where the client declares roots, and with the listing
/// of tools offered where the client declares a free-form block that is not
/// empty, and not offered otherwise.
pub open spec fn negotiated(
    defaults: ServerCapabilitiesView,
    client: ClientCapabilitiesView,
) -> ServerCapabilitiesView {
    ServerCapabilitiesView {
        resources: if client.roots is Some {
            Some(ResourcesCapability { list_changed: true, subscribe: true })
        } else {
            defaults.resources
        },
        tools: if declares_experimental(client) {
            Some(ToolsCapability { list_changed: true })
        } else {
            None
        },
        ..defaults
    }
}

/// Computes what the server offers a client that declares `client`, given
/// the server's `defaults`.
pub fn negotiate(defaults: &ServerCapabilities, client: &ClientCapabilities) -> (r:
    ServerCapabilities)
    ensures
        r@ == negotiated(defaults@, client@),
{
    let mut offer = defaults.clone();
    if client.roots.is_some() {
        offer.resources = Some(ResourcesCapability { list_changed: true, subscribe: true });
    }
    let declared = match &client.experimental {
        Some(block) => !block.is_empty(),
        None => false,
    };
    if declared {
        offer.tools = Some(ToolsCapability { list_changed: true });
    } else {
        offer.tools = None;
    }
    offer
}

/// A client that offers roots is always offered resources with
/// subscriptions, whatever the server's defaults.
pub proof fn lemma_roots_give_subscriptions(
    defaults: ServerCapabilitiesView,
    client: ClientCapabilitiesView,
)
    requires
        client.roots is Some,
    ensures
        negotiated(defaults, client).resources matches Some(r) && r.subscribe,
{
}

/// The listing of tools is offered exactly to the clients that declare a
/// free-form block with something in it.
pub proof fn lemma_tools_iff_experimental(
    defaults: ServerCapabilitiesView,
    client: ClientCapabilitiesView,
)
    ensures
        negotiated(defaults, client).tools is Some <==> declares_experimental(client),
{
}

/// What the table holds of one client.
#[derive(Debug)]
pub struct ClientState {
    pub id: u128,
    pub capabilities: ClientCapabilities,
    pub negotiated_capabilities: ServerCapabilities,
}

/// `uuid::Uuid::new_v4`: a random 128-bit identifier. Nothing is promised of
/// the value that comes back.
#[verifier::external_body]
pub(crate) fn fresh_client_id() -> u128 {
    uuid::Uuid::new_v4().as_u128()
}

/// The server's default offer, and the clients that registered with what was
/// settled for each.
pub struct CapabilityManager {
    clients: HashMap<u128, ClientState>,
    server_capabilities: ServerCapabilities,
}

/// The offer of a server that serves resources with subscriptions, tools and
/// prompts, each with change notices.
pub open spec fn default_offer() -> ServerCapabilitiesView {
    ServerCapabilitiesView {
        experimental: None,
        logging: None,
        prompts: Some(PromptsCapability { list_changed: true }),
        resources: Some(ResourcesCapability { list_changed: true, subscribe: true }),
        tools: Some(ToolsCapability { list_changed: true }),
        ollama: None,
    }
}

impl CapabilityManager {
    /// The clients in the table, by id.
    pub closed spec fn clients(&self) -> Map<u128, ClientState> {
        self.clients@
    }

    /// The server's default offer.
    pub closed spec fn defaults(&self) -> ServerCapabilitiesView {
        self.server_capabilities@
    }

    /// Whether `state` is what is kept of a client with `id` that declared
    /// `declared`.
    pub open spec fn holds(&self, state: ClientState, id: u128, declared: ClientCapabilitiesView)
        -> bool {
        &&& state.id == id
        &&& state.capabilities@ == declared
        &&& state.negotiated_capabilities@ == negotiated(self.defaults(), declared)
    }

    /// A table without clients, with the default offer.
    pub fn new() -> (r: Self)
        ensures
            r.clients() == Map::<u128, ClientState>::empty(),
            r.defaults() == default_offer(),
    {
        CapabilityManager {
            clients: HashMap::new(),
            server_capabilities: ServerCapabilities {
                experimental: None,
                logging: None,
                prompts: Some(PromptsCapability { list_changed: true }),
                resources: Some(ResourcesCapability { list_changed: true, subscribe: true }),
                tools: Some(ToolsCapability { list_changed: true }),
                ollama: None,
            },
        }
    }

    /// What the server offers a client that declares `client_caps`.
    pub fn negotiate_capabilities(&self, client_caps: &ClientCapabilities) -> (r:
        ServerCapabilities)
        ensures
            r@ == negotiated(self.defaults(), client_caps@),
    {
        negotiate(&self.server_capabilities, client_caps)
    }

    /// Enters a client under `id`, in place of any client that had that id.
    pub fn register_client_as(&mut self, id: u128, capabilities: ClientCapabilities)
        ensures
            final(self).defaults() == old(self).defaults(),
            final(self).clients().dom() == old(self).clients().dom().insert(id),
            final(self).holds(final(self).clients()[id], id, capabilities@),
            forall|other: u128|
                other != id && old(self).clients().contains_key(other) ==> final(self).clients()[other]
                    == old(self).clients()[other],
    {
        let negotiated_capabilities = self.negotiate_capabilities(&capabilities);
        let state = ClientState { id, capabilities, negotiated_capabilities };
        self.clients.insert(id, state);
    }

    /// Enters a client under a fresh random id, and returns the id.
    pub fn register_client(&mut self, capabilities: ClientCapabilities) -> (id: u128)
        ensures
            final(self).defaults() == old(self).defaults(),
            final(self).clients().dom() == old(self).clients().dom().insert(id),
            final(self).holds(final(self).clients()[id], id, capabilities@),
            forall|other: u128|
                other != id && old(self).clients().contains_key(other) ==> final(self).clients()[other]
                    == old(self).clients()[other],
    {
        let id = fresh_client_id();
        self.register_client_as(id, capabilities);
        id
    }

    /// What was settled for the client with `client_id`, if it is in the
    /// table.
    pub fn get_client_capabilities(&self, client_id: &u128) -> (r: Option<ServerCapabilities>)
        ensures
            match r {
                Some(offer) => self.clients().contains_key(*client_id) && offer@
                    == self.clients()[*client_id].negotiated_capabilities@,
                None => !self.clients().contains_key(*client_id),
            },
    {
        match self.clients.get(client_id) {
            Some(state) => Some(state.negotiated_capabilities.clone()),
            None => None,
        }
    }

    /// Settles anew what the server offers the client with `client_id`, now
    /// that it declares `capabilities`, and returns the offer. A client that
    /// is not in the table is not entered, and nothing is returned.
    pub fn update_client_capabilities(
        &mut self,
        client_id: &u128,
        capabilities: ClientCapabilities,
    ) -> (r: Option<ServerCapabilities>)
        ensures
            final(self).defaults() == old(self).defaults(),
            final(self).clients().dom() == old(self).clients().dom(),
            forall|other: u128|
                other != *client_id && old(self).clients().contains_key(other)
                    ==> final(self).clients()[other] == old(self).clients()[other],
            match r {
                Some(offer) => {
                    &&& old(self).clients().contains_key(*client_id)
                    &&& offer@ == negotiated(old(self).defaults(), capabilities@)
                    &&& final(self).holds(
                        final(self).clients()[*client_id],
                        *client_id,
                        capabilities@,
                    )
                },
                None => !old(self).clients().contains_key(*client_id) && final(self).clients()
                    == old(self).clients(),
            },
    {
        if self.clients.contains_key(client_id) {
            let negotiated_capabilities = self.negotiate_capabilities(&capabilities);
            let offer = negotiated_capabilities.clone();
            let state = ClientState { id: *client_id, capabilities, negotiated_capabilities };
            self.clients.insert(*client_id, state);
            assert(final(self).clients().dom() =~= old(self).clients().dom());
            Some(offer)
        } else {
            None
        }
    }

    /// Takes the client with `client_id` out of the table, and says whether
    /// it was there.
    pub fn remove_client(&mut self, client_id: &u128) -> (r: bool)
        ensures
            final(self).defaults() == old(self).defaults(),
            r == old(self).clients().contains_key(*client_id),
            final(self).clients() == old(self).clients().remove(*client_id),
    {
        self.clients.remove(client_id).is_some()
    }
}

impl Default for CapabilityManager {
    fn default() -> (r: Self)
        ensures
            r.clients() == Map::<u128, ClientState>::empty(),
            r.defaults() == default_offer(),
    {
        CapabilityManager::new()
    }
}

} // verus!
