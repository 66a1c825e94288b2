use pylon::prompts::types::{Arguments, Error, Prompt, PromptMessage};
use pylon::prompts::PromptProvider;
use pylon::protocol::{
    ChatParams, Envelope, JsonRpcRequest, MCPProtocol, RequestParams, ResponsePayload,
};
use pylon::providers::ollama::{
    chunk_text, parse_stream_chunk, ChatAggregator, ChatBackendError, ChatMessage, ChatProvider,
    ChatResponse, HttpReply, ModelInfo, OllamaProvider, OllamaResponse, Progress, StreamDecoder,
    StreamStart,
};
use pylon::providers::{ResourceError, ResourceProvider};
use pylon::types::{Resource, ResourceContents, JSONRPC_VERSION};
use serde_json::Value;

/// What a backend sends for "Why is the sky blue?", one JSON value to a line.
const ANSWER: &str =
    "{\"model\":\"llama3.2\",\"created_at\":\"t1\",\"message\":{\"role\":\"assistant\",\"content\":\"The\"},\"done\":false}\n\
     {\"model\":\"llama3.2\",\"created_at\":\"t2\",\"message\":{\"role\":\"assistant\",\"content\":\" sky\"},\"done\":false}\n\
     {\"model\":\"llama3.2\",\"created_at\":\"t3\",\"message\":{\"role\":\"assistant\",\"content\":\" is\"},\"done\":false}\n\
     {\"model\":\"llama3.2\",\"created_at\":\"t4\",\"message\":{\"role\":\"assistant\",\"content\":\" blue\"},\"done\":true}\n";

fn text_field(value: &Value, name: &str) -> Result<String, String> {
    value[name].as_str().map(String::from).ok_or(format!("missing field `{}`", name))
}

/// Decodes one line as the backend words it.
fn decode(text: &str) -> Result<OllamaResponse, String> {
    let value: Value = serde_json::from_str(text.trim()).map_err(|e| e.to_string())?;
    Ok(OllamaResponse {
        model: text_field(&value, "model")?,
        message: ChatMessage {
            role: text_field(&value["message"], "role")?,
            content: text_field(&value["message"], "content")?,
        },
        done: value["done"].as_bool().ok_or("missing field `done`".to_string())?,
        created_at: value["created_at"].as_str().map(String::from),
    })
}

fn chunk_of(line: Vec<u8>) -> Result<ChatResponse, ChatBackendError> {
    let text = chunk_text(line)?;
    parse_stream_chunk(decode(&text))
}

/// The elements of the stream that the bytes of a backend make, when they
/// arrive in pieces of `piece` bytes.
fn stream(bytes: &[u8], piece: usize) -> Vec<Result<ChatResponse, ChatBackendError>> {
    let mut decoder = OllamaProvider::default().chat_stream(StreamStart::Open).unwrap();
    let mut chunks = Vec::new();
    for part in bytes.chunks(piece) {
        chunks.extend(decoder.feed(part).into_iter().map(chunk_of));
    }
    chunks.extend(decoder.finish().into_iter().map(chunk_of));
    chunks
}

/// A chat provider whose backend always answers with the same bytes.
struct Canned {
    bytes: Vec<u8>,
    models: String,
}

impl Canned {
    fn new() -> Self {
        Canned {
            bytes: ANSWER.as_bytes().to_vec(),
            models: "{\"models\":[{\"name\":\"llama3.2\",\"digest\":\"d\",\"size\":7,\"modified_at\":\"m\"}]}"
                .to_string(),
        }
    }
}

impl ChatProvider for Canned {
    fn list_models(&self) -> Result<Vec<ModelInfo>, ChatBackendError> {
        let provider = OllamaProvider::default();
        let reply = HttpReply { success: true, body: self.models.clone() };
        let body = provider.accept_reply("Failed to list models", Ok(reply))?;
        let value: Result<Value, String> = serde_json::from_str(&body).map_err(|e| e.to_string());
        let decoded = value.and_then(|v| {
            v["models"]
                .as_array()
                .ok_or("missing field `models`".to_string())?
                .iter()
                .map(|m| {
                    Ok(ModelInfo {
                        name: text_field(m, "name")?,
                        digest: text_field(m, "digest")?,
                        size: m["size"].as_u64().ok_or("missing field `size`".to_string())?,
                        modified_at: text_field(m, "modified_at")?,
                    })
                })
                .collect()
        });
        provider.list_models(decoded)
    }

    fn chat(
        &self,
        model: &str,
        _messages: Vec<ChatMessage>,
    ) -> Result<ChatResponse, ChatBackendError> {
        let provider = OllamaProvider::default();
        if model == "non-existent-model" {
            let rejected = StreamStart::Rejected("{\"error\":\"model not found\"}".to_string());
            return provider.chat_stream(rejected).map(|_| unreachable!());
        }
        provider.chat(&stream(&self.bytes, 16))
    }
}

struct Unused;

impl ResourceProvider for Unused {
    fn name(&self) -> &'static str {
        "unused"
    }

    fn list(&self, _path: &str) -> Result<Vec<Resource>, ResourceError> {
        Ok(Vec::new())
    }

    fn read(&self, path: &str) -> Result<Vec<ResourceContents>, ResourceError> {
        Err(ResourceError::NotFound(path.to_string()))
    }

    fn watch(&self, _path: &str) -> Result<(), ResourceError> {
        Ok(())
    }

    fn unwatch(&self, _path: &str) -> Result<(), ResourceError> {
        Ok(())
    }
}

impl PromptProvider for Unused {
    fn list_prompts(
        &self,
        _cursor: Option<String>,
    ) -> Result<(Vec<Prompt>, Option<String>), Error> {
        Ok((Vec::new(), None))
    }

    fn get_prompt(
        &self,
        name: &str,
        _arguments: Option<Arguments>,
    ) -> Result<Vec<PromptMessage>, Error> {
        Err(Error::PromptNotFound(name.to_string()))
    }

    fn validate_arguments(&self, _prompt: &Prompt, _arguments: &Arguments) -> Result<(), Error> {
        Ok(())
    }
}

fn question() -> Vec<ChatMessage> {
    vec![ChatMessage { role: "user".to_string(), content: "Why is the sky blue?".to_string() }]
}

fn chat_over_the_protocol() {
    let mut protocol = MCPProtocol::new(Unused, Unused, Canned::new());
    let request = JsonRpcRequest {
        jsonrpc: JSONRPC_VERSION.to_string(),
        id: Value::Number(serde_json::Number::from(1)),
        method: "chat/send".to_string(),
        params: RequestParams::Chat(ChatParams {
            model: "llama3.2".to_string(),
            messages: question(),
        }),
    };

    let response = match protocol.handle_message("c", Ok(request)).unwrap() {
        Envelope::Response(response) => response,
        Envelope::Error(error) => panic!("Expected a result, got {:?}", error),
    };
    assert_eq!(response.jsonrpc, JSONRPC_VERSION);
    assert_eq!(response.id, Value::Number(serde_json::Number::from(1)));
    match response.result {
        ResponsePayload::Chat { message, done } => {
            assert!(!message.content.is_empty());
            assert_eq!(message.content, "The sky is blue");
            assert_eq!(message.role, "assistant");
            assert!(done);
        }
        other => panic!("Expected a chat result, got {:?}", other),
    }
}

#[test]
fn protocol_test_ollama_chat() {
    chat_over_the_protocol();
}

#[test]
fn tests_test_ollama_chat() {
    chat_over_the_protocol();
}

#[test]
fn ollama_test_list_models() {
    let models = Canned::new().list_models().unwrap();
    assert!(!models.is_empty());
}

#[test]
fn tests_test_list_models() {
    let models = Canned::new().list_models().unwrap();
    assert_eq!(
        models,
        vec![ModelInfo {
            name: "llama3.2".to_string(),
            digest: "d".to_string(),
            size: 7,
            modified_at: "m".to_string(),
        }]
    );
    let mut broken = Canned::new();
    broken.models = "[]".to_string();
    assert_eq!(
        broken.list_models(),
        Err(ChatBackendError { message: "missing field `models`".to_string() })
    );
}

#[test]
fn ollama_test_chat() {
    let response = Canned::new().chat("llama3.2", question()).unwrap();
    assert!(!response.message.content.is_empty());
}

#[test]
fn tests_test_chat() {
    let response = Canned::new().chat("llama3.2", question()).unwrap();
    assert_eq!(
        response,
        ChatResponse {
            message: ChatMessage {
                role: "assistant".to_string(),
                content: "The sky is blue".to_string()
            },
            done: true,
            model: "llama3.2".to_string(),
            created_at: "t4".to_string(),
        }
    );
}

fn streamed_parts(piece: usize) -> (Vec<String>, String) {
    let mut response_parts = Vec::new();
    let mut full_response = String::new();
    for element in stream(ANSWER.as_bytes(), piece) {
        let Ok(response) = element else { break };
        response_parts.push(response.message.content.clone());
        full_response.push_str(&response.message.content);
        if response.done {
            break;
        }
    }
    (response_parts, full_response)
}

#[test]
fn ollama_test_chat_stream() {
    let (response_parts, _) = streamed_parts(32);
    assert!(!response_parts.is_empty());
}

#[test]
fn tests_test_chat_stream() {
    let (response_parts, full_response) = streamed_parts(1);
    assert_eq!(response_parts, vec!["The", " sky", " is", " blue"]);
    assert_eq!(full_response, "The sky is blue");
}

#[test]
fn test_ollama_streaming() {
    // However the bytes are cut, the parts and their order are the same.
    for piece in 1..ANSWER.len() + 2 {
        let (response_parts, full_response) = streamed_parts(piece);
        assert_eq!(response_parts.len(), 4, "pieces of {}", piece);
        assert_eq!(full_response, "The sky is blue");
    }
}

#[test]
fn test_ollama_integration() {
    let provider = Canned::new();
    let models = provider.list_models().unwrap();
    assert!(!models.is_empty());

    let response = provider.chat("llama3.2", question()).unwrap();
    assert!(!response.message.content.is_empty());

    let mut folder = ChatAggregator::new();
    let mut outcome = None;
    for element in stream(ANSWER.as_bytes(), 7) {
        if let Progress::Finished(finished) = folder.push(&element) {
            outcome = Some(finished);
            break;
        }
    }
    assert_eq!(outcome, Some(Ok(response)));
}

#[test]
fn test_ollama_error_handling() {
    let result = Canned::new().chat("non-existent-model", question());
    assert_eq!(
        result,
        Err(ChatBackendError {
            message: "Chat stream failed: {\"error\":\"model not found\"}".to_string()
        })
    );

    // A line that is no answer fails the stream where it stands.
    let bytes = b"{\"model\":\"m\",\"message\":{\"role\":\"assistant\",\"content\":\"a\"},\"done\":false}\nnot json\n";
    let elements = stream(bytes, 5);
    assert_eq!(elements.len(), 2);
    assert!(elements[0].is_ok());
    assert!(elements[1].is_err());
    let message = match &elements[1] {
        Err(e) => e.message.clone(),
        Ok(_) => String::new(),
    };
    assert_eq!(OllamaProvider::default().chat(&elements), Err(ChatBackendError { message }));
}
