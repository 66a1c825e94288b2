use pylon::capabilities::{negotiate, CapabilityManager};
use pylon::types::{
    ClientCapabilities, PromptsCapability, ResourcesCapability, RootsCapability,
    ServerCapabilities, ToolsCapability,
};
use std::collections::HashMap;

fn experimental_block() -> HashMap<String, HashMap<String, serde_json::Value>> {
    let mut inner = HashMap::new();
    inner.insert("enabled".to_string(), serde_json::Value::Bool(true));
    let mut block = HashMap::new();
    block.insert("tracing".to_string(), inner);
    block
}

#[test]
fn test_client_registration() {
    let mut manager = CapabilityManager::new();
    let caps = ClientCapabilities::default();
    let client_id = manager.register_client(caps);

    assert!(manager.get_client_capabilities(&client_id).is_some());
}

#[test]
fn test_capability_negotiation_with_roots() {
    let manager = CapabilityManager::new();
    let mut caps = ClientCapabilities::default();
    caps.roots = Some(RootsCapability { list_changed: true });

    let negotiated = manager.negotiate_capabilities(&caps);
    assert!(negotiated.resources.is_some());
    assert!(negotiated.resources.unwrap().subscribe);
}

// Tools are offered only to a client whose experimental block holds
// something: an empty block, as here, is not enough.
#[test]
fn test_capability_negotiation_with_experimental() {
    let manager = CapabilityManager::new();
    let mut caps = ClientCapabilities::default();
    caps.experimental = Some(HashMap::new());

    let negotiated = manager.negotiate_capabilities(&caps);
    assert!(negotiated.tools.is_none());

    caps.experimental = Some(experimental_block());
    let negotiated = manager.negotiate_capabilities(&caps);
    assert!(negotiated.tools.is_some());
}

#[test]
fn test_capability_update() {
    let mut manager = CapabilityManager::new();
    let caps = ClientCapabilities::default();
    let client_id = manager.register_client(caps);

    let mut new_caps = ClientCapabilities::default();
    new_caps.roots = Some(RootsCapability { list_changed: true });

    let updated = manager.update_client_capabilities(&client_id, new_caps);
    assert!(updated.is_some());
    assert!(updated.unwrap().resources.is_some());
}

#[test]
fn test_client_removal() {
    let mut manager = CapabilityManager::new();
    let caps = ClientCapabilities::default();
    let client_id = manager.register_client(caps);

    assert!(manager.remove_client(&client_id));
    assert!(manager.get_client_capabilities(&client_id).is_none());
}

#[test]
fn removing_an_unknown_client_reports_false() {
    let mut manager = CapabilityManager::new();
    assert!(!manager.remove_client(&7));
    assert!(manager.update_client_capabilities(&7, ClientCapabilities::default()).is_none());
    assert!(manager.get_client_capabilities(&7).is_none());
}

#[test]
fn registering_under_a_given_id_replaces_the_earlier_client() {
    let mut manager = CapabilityManager::new();
    manager.register_client_as(42, ClientCapabilities::default());
    assert!(manager.get_client_capabilities(&42).unwrap().tools.is_none());

    let mut caps = ClientCapabilities::default();
    caps.experimental = Some(experimental_block());
    manager.register_client_as(42, caps);
    assert_eq!(
        manager.get_client_capabilities(&42).unwrap().tools,
        Some(ToolsCapability { list_changed: true })
    );
}

#[test]
fn fresh_ids_differ() {
    let mut manager = CapabilityManager::new();
    let a = manager.register_client(ClientCapabilities::default());
    let b = manager.register_client(ClientCapabilities::default());
    assert_ne!(a, b);
    assert!(manager.get_client_capabilities(&a).is_some());
    assert!(manager.get_client_capabilities(&b).is_some());
}

#[test]
fn negotiation_passes_other_defaults_through() {
    let mut logging = HashMap::new();
    logging.insert("level".to_string(), serde_json::Value::String("debug".to_string()));
    let defaults = ServerCapabilities {
        experimental: None,
        logging: Some(logging.clone()),
        prompts: Some(PromptsCapability { list_changed: false }),
        resources: Some(ResourcesCapability { list_changed: false, subscribe: false }),
        tools: Some(ToolsCapability { list_changed: false }),
        ollama: None,
    };

    // Nothing declared: resources stay as the server has them, tools go.
    let offer = negotiate(&defaults, &ClientCapabilities::default());
    assert_eq!(
        offer.resources,
        Some(ResourcesCapability { list_changed: false, subscribe: false })
    );
    assert_eq!(offer.tools, None);
    assert_eq!(offer.prompts, Some(PromptsCapability { list_changed: false }));
    assert_eq!(offer.logging, Some(logging));
    assert!(offer.ollama.is_none());

    // Roots and a block with content declared.
    let declared = ClientCapabilities {
        experimental: Some(experimental_block()),
        roots: Some(RootsCapability { list_changed: false }),
        sampling: None,
        ollama: None,
    };
    let offer = negotiate(&defaults, &declared);
    assert_eq!(
        offer.resources,
        Some(ResourcesCapability { list_changed: true, subscribe: true })
    );
    assert_eq!(offer.tools, Some(ToolsCapability { list_changed: true }));
    assert_eq!(offer.prompts, Some(PromptsCapability { list_changed: false }));
}

#[test]
fn negotiation_offers_resources_where_the_server_has_none() {
    let defaults = ServerCapabilities::default();
    let declared = ClientCapabilities {
        experimental: None,
        roots: Some(RootsCapability { list_changed: true }),
        sampling: None,
        ollama: None,
    };
    let offer = negotiate(&defaults, &declared);
    assert_eq!(
        offer.resources,
        Some(ResourcesCapability { list_changed: true, subscribe: true })
    );
    assert_eq!(negotiate(&defaults, &ClientCapabilities::default()).resources, None);
}
