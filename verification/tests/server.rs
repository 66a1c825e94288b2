use pylon::prompts::types::{Arguments, Error, Prompt, PromptMessage};
use pylon::prompts::PromptProvider;
use pylon::protocol::{
    Envelope, JsonRpcRequest, MCPProtocol, RequestParams, ResponsePayload,
};
use pylon::providers::ollama::{
    ChatBackendError, ChatMessage, ChatProvider, ChatResponse, ModelInfo,
};
use pylon::providers::{ResourceError, ResourceProvider};
use pylon::server::{Connection, ConnectionAction, ConnectionState, MCPServer, TransportEvent};
use pylon::types::{
    ClientCapabilities, Implementation, InitializeParams, Resource, ResourceContents,
};
use serde_json::Value;

struct Nothing;

impl ResourceProvider for Nothing {
    fn name(&self) -> &'static str {
        "nothing"
    }

    fn list(&self, _path: &str) -> Result<Vec<Resource>, ResourceError> {
        Ok(Vec::new())
    }

    fn read(&self, path: &str) -> Result<Vec<ResourceContents>, ResourceError> {
        Err(ResourceError::NotFound(path.to_string()))
    }

    fn watch(&self, _path: &str) -> Result<(), ResourceError> {
        Ok(())
    }

    fn unwatch(&self, path: &str) -> Result<(), ResourceError> {
        Err(ResourceError::NotFound(path.to_string()))
    }
}

impl PromptProvider for Nothing {
    fn list_prompts(
        &self,
        _cursor: Option<String>,
    ) -> Result<(Vec<Prompt>, Option<String>), Error> {
        Ok((Vec::new(), None))
    }

    fn get_prompt(
        &self,
        name: &str,
        _arguments: Option<Arguments>,
    ) -> Result<Vec<PromptMessage>, Error> {
        Err(Error::PromptNotFound(name.to_string()))
    }

    fn validate_arguments(&self, _prompt: &Prompt, _arguments: &Arguments) -> Result<(), Error> {
        Ok(())
    }
}

impl ChatProvider for Nothing {
    fn list_models(&self) -> Result<Vec<ModelInfo>, ChatBackendError> {
        Ok(Vec::new())
    }

    fn chat(
        &self,
        _model: &str,
        _messages: Vec<ChatMessage>,
    ) -> Result<ChatResponse, ChatBackendError> {
        Err(ChatBackendError { message: "no backend".to_string() })
    }
}

type Protocol = MCPProtocol<Nothing, Nothing, Nothing>;

fn protocol() -> Protocol {
    MCPProtocol::new(Nothing, Nothing, Nothing)
}

fn initialize(id: i64, client: &str) -> TransportEvent {
    TransportEvent::Text(Ok(JsonRpcRequest {
        jsonrpc: "2.0".to_string(),
        id: Value::Number(serde_json::Number::from(id)),
        method: "initialize".to_string(),
        params: RequestParams::Initialize(InitializeParams {
            capabilities: ClientCapabilities::default(),
            client_info: Implementation { name: client.to_string(), version: "1.0.0".to_string() },
            protocol_version: "0.1.0".to_string(),
        }),
    }))
}

fn ping_request(id: i64) -> TransportEvent {
    TransportEvent::Text(Ok(JsonRpcRequest {
        jsonrpc: "2.0".to_string(),
        id: Value::Number(serde_json::Number::from(id)),
        method: "ping".to_string(),
        params: RequestParams::Empty,
    }))
}

fn open(id: &str, window: u64, now: u64) -> Connection {
    let mut connection = Connection::new(window);
    assert_eq!(connection.current_state(), ConnectionState::Connecting);
    connection.open_as(id.to_string(), now);
    assert_eq!(connection.current_state(), ConnectionState::Open);
    connection
}

fn sessions(protocol: &Protocol) -> Vec<String> {
    protocol.get_client_manager().get_clients().into_iter().map(|c| c.id).collect()
}

#[test]
fn a_client_is_listed_from_initialize_to_disconnect() {
    let mut protocol = protocol();
    let mut connection = open("conn-1", 30_000, 0);

    let action = connection.on_event(&mut protocol, initialize(1, "test-client"), 10);
    match action {
        ConnectionAction::Reply(Envelope::Response(response)) => {
            assert_eq!(response.id, Value::Number(serde_json::Number::from(1)));
            match response.result {
                ResponsePayload::Initialize(result) => assert_eq!(result.protocol_version, "0.1.0"),
                other => panic!("Expected an initialize result, got {:?}", other),
            }
        }
        other => panic!("Expected a reply, got {:?}", other),
    }
    let clients = protocol.get_client_manager().get_clients();
    assert_eq!(clients.len(), 1);
    assert_eq!(clients[0].id, connection.session_id());
    assert_eq!(clients[0].client_info.name, "test-client");
    assert_eq!(clients[0].client_info.version, "1.0.0");

    assert_eq!(
        connection.on_event(&mut protocol, TransportEvent::Close, 20),
        ConnectionAction::Shutdown
    );
    assert_eq!(connection.current_state(), ConnectionState::Closing);
    assert!(sessions(&protocol).is_empty());

    connection.close(&mut protocol);
    assert_eq!(connection.current_state(), ConnectionState::Closed);
    assert!(sessions(&protocol).is_empty());
}

#[test]
fn test_multiple_clients() {
    let mut protocol = protocol();
    let mut first = open("conn-1", 30_000, 0);
    let mut second = open("conn-2", 30_000, 0);

    for (connection, name) in [(&mut first, "test1-client"), (&mut second, "test2-client")] {
        match connection.on_event(&mut protocol, initialize(1, name), 1) {
            ConnectionAction::Reply(Envelope::Response(response)) => {
                assert_eq!(response.jsonrpc, "2.0");
                assert!(matches!(response.result, ResponsePayload::Initialize(_)));
            }
            other => panic!("Expected a reply, got {:?}", other),
        }
    }
    assert_eq!(sessions(&protocol), vec!["conn-1".to_string(), "conn-2".to_string()]);

    // One connection ends; the other stays.
    assert_eq!(first.on_event(&mut protocol, TransportEvent::Ended, 2), ConnectionAction::Shutdown);
    first.close(&mut protocol);
    assert_eq!(sessions(&protocol), vec!["conn-2".to_string()]);
    assert!(matches!(
        second.on_event(&mut protocol, ping_request(2), 3),
        ConnectionAction::Reply(Envelope::Response(_))
    ));
    assert_eq!(protocol.get_client_manager().get_clients()[0].last_message, "ping");
}

#[test]
fn pings_are_answered_and_noise_is_ignored() {
    let mut protocol = protocol();
    let mut connection = open("c", 100, 0);
    assert_eq!(
        connection.on_event(&mut protocol, TransportEvent::Ping(vec![1, 2, 3]), 5),
        ConnectionAction::Pong(vec![1, 2, 3])
    );
    assert_eq!(
        connection.on_event(&mut protocol, TransportEvent::Binary, 6),
        ConnectionAction::Nothing
    );
    assert_eq!(connection.on_event(&mut protocol, TransportEvent::Pong, 7), ConnectionAction::Nothing);
    assert_eq!(connection.current_state(), ConnectionState::Open);
}

#[test]
fn a_message_that_is_no_request_is_answered_with_the_complaint() {
    let mut protocol = protocol();
    let mut connection = open("c", 100, 0);
    assert_eq!(
        connection.on_event(
            &mut protocol,
            TransportEvent::Text(Err("expected ident at line 1 column 2".to_string())),
            1
        ),
        ConnectionAction::ReplyText("{\"error\": \"expected ident at line 1 column 2\"}".to_string())
    );
    assert_eq!(connection.current_state(), ConnectionState::Open);
}

#[test]
fn silence_for_the_whole_window_ends_the_connection() {
    let mut protocol = protocol();
    let mut connection = open("c", 100, 1_000);
    connection.on_event(&mut protocol, initialize(1, "quiet"), 1_000);
    assert_eq!(sessions(&protocol), vec!["c".to_string()]);

    assert!(!connection.is_expired(1_099));
    assert!(connection.is_expired(1_100));
    assert!(!connection.is_expired(999));
    assert_eq!(connection.on_event(&mut protocol, TransportEvent::Tick, 1_099), ConnectionAction::Nothing);
    // Traffic resets the heartbeat.
    connection.on_event(&mut protocol, TransportEvent::Ping(vec![]), 1_099);
    assert_eq!(connection.on_event(&mut protocol, TransportEvent::Tick, 1_198), ConnectionAction::Nothing);
    assert_eq!(connection.current_state(), ConnectionState::Open);
    assert_eq!(connection.on_event(&mut protocol, TransportEvent::Tick, 1_199), ConnectionAction::Shutdown);
    assert_eq!(connection.current_state(), ConnectionState::Closing);
    assert!(sessions(&protocol).is_empty());
}

#[test]
fn a_failed_send_ends_the_connection() {
    let mut protocol = protocol();
    let mut connection = open("c", 100, 0);
    connection.on_event(&mut protocol, initialize(1, "x"), 0);
    assert_eq!(
        connection.on_event(&mut protocol, TransportEvent::SendFailed, 1),
        ConnectionAction::Shutdown
    );
    assert_eq!(connection.current_state(), ConnectionState::Closing);
    assert!(sessions(&protocol).is_empty());
}

#[test]
fn nothing_happens_unless_the_connection_is_open() {
    let mut protocol = protocol();
    let mut connection = Connection::new(100);
    assert_eq!(connection.on_event(&mut protocol, initialize(1, "early"), 0), ConnectionAction::Nothing);
    assert_eq!(connection.on_event(&mut protocol, TransportEvent::Close, 0), ConnectionAction::Nothing);
    assert_eq!(connection.current_state(), ConnectionState::Connecting);
    assert!(sessions(&protocol).is_empty());

    connection.open_as("c".to_string(), 0);
    connection.on_event(&mut protocol, TransportEvent::Close, 1);
    assert_eq!(connection.on_event(&mut protocol, initialize(2, "late"), 2), ConnectionAction::Nothing);
    assert_eq!(connection.on_event(&mut protocol, TransportEvent::Tick, 5_000), ConnectionAction::Nothing);
    assert_eq!(connection.current_state(), ConnectionState::Closing);
    assert!(sessions(&protocol).is_empty());

    // Opening again does not bring a connection back.
    connection.open_as("again".to_string(), 3);
    connection.open(3);
    assert_eq!(connection.session_id(), "c");
    assert_eq!(connection.current_state(), ConnectionState::Closing);
    connection.close(&mut protocol);
    connection.open(4);
    assert_eq!(connection.current_state(), ConnectionState::Closed);
}

#[test]
fn a_fresh_identity_is_a_uuid() {
    let mut first = Connection::new(100);
    let mut second = Connection::new(100);
    first.open(0);
    second.open(0);
    assert_eq!(first.current_state(), ConnectionState::Open);
    assert_ne!(first.session_id(), second.session_id());
    let id = first.session_id();
    assert_eq!(id.len(), 36);
    let bytes = id.as_bytes();
    for (i, b) in bytes.iter().enumerate() {
        if i == 8 || i == 13 || i == 18 || i == 23 {
            assert_eq!(*b, b'-');
        } else {
            assert!(b.is_ascii_hexdigit());
        }
    }
    assert_eq!(bytes[14], b'4');
}

#[test]
fn starting_the_server_clears_what_was_left_over() {
    let mut protocol = protocol();
    let mut connection = open("stale", 100, 0);
    connection.on_event(&mut protocol, initialize(1, "x"), 0);
    assert_eq!(sessions(&protocol).len(), 1);

    let mut server = MCPServer::new(protocol);
    server.start();
    assert!(sessions(&server.protocol).is_empty());
}

#[test]
fn test_websocket_connection() {
    // A connection that opens has an identity and no session yet.
    let protocol = protocol();
    let mut connection = Connection::new(30_000);
    connection.open(0);
    assert_eq!(connection.current_state(), ConnectionState::Open);
    assert!(!connection.session_id().is_empty());
    assert!(sessions(&protocol).is_empty());
}

#[test]
fn test_websocket_echo() {
    let mut protocol = protocol();
    let mut connection = Connection::new(30_000);
    connection.open(0);

    let action = connection.on_event(&mut protocol, initialize(1, "test-client"), 1);
    let response = match action {
        ConnectionAction::Reply(Envelope::Response(response)) => response,
        other => panic!("Expected text response, got {:?}", other),
    };
    assert_eq!(response.jsonrpc, "2.0");
    assert_eq!(response.id, Value::Number(serde_json::Number::from(1)));
    match response.result {
        ResponsePayload::Initialize(result) => {
            assert!(result.capabilities.prompts.is_some());
            assert_eq!(result.protocol_version, "0.1.0");
            assert_eq!(result.server_info.name, "pylon");
        }
        other => panic!("Result should be an initialize result, got {:?}", other),
    }
    assert_eq!(sessions(&protocol), vec![connection.session_id().to_string()]);
}
