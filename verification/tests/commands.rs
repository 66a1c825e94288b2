use pylon::clients::{ClientInfo, ClientManager, Timestamp};
use pylon::commands::{
    get_connected_clients, CapabilitiesResponse, ClientInfoResponse, ClientResponse,
    RootsCapabilityResponse,
};
use pylon::types::{ClientCapabilities, RootsCapability};
use std::collections::HashMap;

#[test]
fn clients_are_shown_with_empty_blocks_for_what_they_left_out() {
    let mut registry = ClientManager::new();
    let info = || ClientInfo { name: "shell".to_string(), version: "2.0".to_string() };
    registry.add_client_at(
        "a".to_string(),
        info(),
        ClientCapabilities::default(),
        Timestamp { secs: 1_431_648_000, nanos: 0 },
    );
    let mut sampling = HashMap::new();
    sampling.insert("temperature".to_string(), serde_json::Value::from(1));
    registry.add_client_at(
        "b".to_string(),
        info(),
        ClientCapabilities {
            experimental: None,
            roots: Some(RootsCapability { list_changed: true }),
            sampling: Some(sampling.clone()),
            ollama: None,
        },
        Timestamp { secs: 0, nanos: 500_000_000 },
    );
    registry.update_last_message("b", "ping".to_string());

    let shown = get_connected_clients(&registry);
    assert_eq!(
        shown,
        vec![
            ClientResponse {
                id: "a".to_string(),
                client_info: ClientInfoResponse {
                    name: "shell".to_string(),
                    version: "2.0".to_string()
                },
                connected_at: "2015-05-15T00:00:00+00:00".to_string(),
                last_message: "Connected".to_string(),
                capabilities: CapabilitiesResponse {
                    experimental: HashMap::new(),
                    roots: RootsCapabilityResponse { list_changed: false },
                    sampling: HashMap::new(),
                },
            },
            ClientResponse {
                id: "b".to_string(),
                client_info: ClientInfoResponse {
                    name: "shell".to_string(),
                    version: "2.0".to_string()
                },
                connected_at: "1970-01-01T00:00:00.500+00:00".to_string(),
                last_message: "ping".to_string(),
                capabilities: CapabilitiesResponse {
                    experimental: HashMap::new(),
                    roots: RootsCapabilityResponse { list_changed: true },
                    sampling,
                },
            },
        ]
    );
    assert!(get_connected_clients(&ClientManager::new()).is_empty());
}

#[test]
fn a_moment_out_of_range_is_shown_empty() {
    let mut registry = ClientManager::new();
    registry.add_client_at(
        "a".to_string(),
        ClientInfo { name: "n".to_string(), version: "v".to_string() },
        ClientCapabilities::default(),
        Timestamp { secs: i64::MAX, nanos: 0 },
    );
    assert_eq!(get_connected_clients(&registry)[0].connected_at, "");
}
