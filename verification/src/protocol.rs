//! The protocol dispatcher: it routes a request by its method to a handler
//! and wraps what the handler gives in a JSON-RPC envelope.

use crate::capabilities::{negotiate, negotiated};
use crate::clients::{
    fresh_session, has_session, registered, removed, touched, ClientInfo, ClientInfoView, ClientManager,
    ConnectedClientView, Timestamp,
};
use crate::prompts::provider::PromptProvider;
use crate::prompts::types::{
    message_views, Arguments, Error, ErrorView, Prompt, PromptMessage, PromptMessageView, PromptView,
};
use crate::providers::ollama::{
    model_views, ChatBackendError, ChatMessage, ChatMessageView, ChatProvider, ChatResponse,
    ChatResponseView, ModelInfo, ModelInfoView,
};
use crate::providers::{
    contents_views, resource_views, ResourceError, ResourceErrorView, ResourceProvider,
};
use crate::text::{concat, concat3, str_eq};
use crate::types::{
    opt_text, ClientCapabilitiesView, Implementation, ImplementationView,
    InitializeParams, InitializeResult,
    InitializeResultView, OllamaCapability, PromptsCapability, Resource, ResourceContents,
    ResourceContentsView, ResourceView, ResourcesCapability, ServerCapabilities,
    ServerCapabilitiesView, ToolsCapability, JSONRPC_VERSION, MCP_VERSION,
};
use vstd::prelude::*;

verus! {

/// The code of the error for a method that the server does not know.
pub const METHOD_NOT_FOUND: i32 = -32601;

/// The code of the error for a request that its handler could not serve.
pub const HANDLER_FAILURE: i32 = -32000;

/// The code of the error for a failure of the server itself.
pub const INTERNAL_ERROR: i32 = -32603;

/// The methods that the server serves, and `Unknown` for every other name.
#[derive(Debug, Clone, Copy, PartialEq, Eq, Structural)]
pub enum Method {
    Initialize,
    ResourceList,
    ResourceRead,
    ResourceWatch,
    ResourceUnwatch,
    PromptsList,
    PromptsGet,
    ChatSend,
    ChatModels,
    Ping,
    Unknown,
}

/// The method that a name stands for.
pub open spec fn method_of(name: Seq<char>) -> Method {
    if name == "initialize"@ {
        Method::Initialize
    } else if name == "resource/list"@ {
        Method::ResourceList
    } else if name == "resource/read"@ {
        Method::ResourceRead
    } else if name == "resource/watch"@ {
        Method::ResourceWatch
    } else if name == "resource/unwatch"@ {
        Method::ResourceUnwatch
    } else if name == "prompts/list"@ {
        Method::PromptsList
    } else if name == "prompts/get"@ {
        Method::PromptsGet
    } else if name == "chat/send"@ {
        Method::ChatSend
    } else if name == "chat/models"@ {
        Method::ChatModels
    } else if name == "ping"@ {
        Method::Ping
    } else {
        Method::Unknown
    }
}

/// Routes a request by the name of its method.
pub fn route(method: &str) -> (r: Method)
    ensures
        r == method_of(method@),
{
    if str_eq(method, "initialize") {
        Method::Initialize
    } else if str_eq(method, "resource/list") {
        Method::ResourceList
    } else if str_eq(method, "resource/read") {
        Method::ResourceRead
    } else if str_eq(method, "resource/watch") {
        Method::ResourceWatch
    } else if str_eq(method, "resource/unwatch") {
        Method::ResourceUnwatch
    } else if str_eq(method, "prompts/list") {
        Method::PromptsList
    } else if str_eq(method, "prompts/get") {
        Method::PromptsGet
    } else if str_eq(method, "chat/send") {
        Method::ChatSend
    } else if str_eq(method, "chat/models") {
        Method::ChatModels
    } else if str_eq(method, "ping") {
        Method::Ping
    } else {
        Method::Unknown
    }
}

/// The parameters of `chat/send`.
#[derive(Debug, PartialEq, Eq)]
pub struct ChatParams {
    pub model: String,
    pub messages: Vec<ChatMessage>,
}

/// The parameters of `resource/list`. Without a path, the root is listed.
#[derive(Debug, PartialEq, Eq)]
pub struct ListParams {
    pub path: Option<String>,
}

/// The parameters of `resource/read`.
#[derive(Debug, PartialEq, Eq)]
pub struct ReadParams {
    pub path: String,
}

/// The parameters of `resource/watch`.
#[derive(Debug, PartialEq, Eq)]
pub struct WatchParams {
    pub path: String,
}

/// The parameters of `resource/unwatch`.
#[derive(Debug, PartialEq, Eq)]
pub struct UnwatchParams {
    pub path: String,
}

/// The parameters of `prompts/list`.
#[derive(Debug, PartialEq, Eq)]
pub struct PromptsListParams {
    pub cursor: Option<String>,
}

/// The parameters of `prompts/get`.
pub struct PromptsGetParams {
    pub name: String,
    pub arguments: Option<Arguments>,
}

/// The parameters of a request, decoded for its method. `Malformed` holds the
/// decoder's complaint about parameters that do not have the shape that the
/// method asks for.
pub enum RequestParams {
    Initialize(InitializeParams),
    List(ListParams),
    Read(ReadParams),
    Watch(WatchParams),
    Unwatch(UnwatchParams),
    PromptsList(PromptsListParams),
    PromptsGet(PromptsGetParams),
    Chat(ChatParams),
    Empty,
    Malformed(String),
}

/// A request: the envelope of a call, with the id that its answer echoes.
pub struct JsonRpcRequest {
    pub jsonrpc: String,
    pub id: serde_json::Value,
    pub method: String,
    pub params: RequestParams,
}

/// What a successful answer carries, by the method that was called.
#[derive(Debug, PartialEq)]
pub enum ResponsePayload {
    Initialize(InitializeResult),
    Resources(Vec<Resource>),
    Contents(Vec<ResourceContents>),
    Flag(bool),
    Prompts { prompts: Vec<Prompt>, next_cursor: Option<String> },
    Messages(Vec<PromptMessage>),
    Chat { message: ChatMessage, done: bool },
    Models(Vec<ModelInfo>),
    Empty,
}

/// The view of `ResponsePayload`: what the contracts see of it, with texts as sequences of
/// characters.
pub enum PayloadView {
    Initialize(InitializeResultView),
    Resources(Seq<ResourceView>),
    Contents(Seq<ResourceContentsView>),
    Flag(bool),
    Prompts { prompts: Seq<PromptView>, next_cursor: Option<Seq<char>> },
    Messages(Seq<PromptMessageView>),
    Chat { message: ChatMessageView, done: bool },
    Models(Seq<ModelInfoView>),
    Empty,
}

/// The views of a list of prompts.
pub open spec fn prompt_views(v: Seq<Prompt>) -> Seq<PromptView> {
    v.map_values(|p: Prompt| p@)
}

impl View for ResponsePayload {
    type V = PayloadView;

    open spec fn view(&self) -> PayloadView {
        match self {
            ResponsePayload::Initialize(r) => PayloadView::Initialize(r@),
            ResponsePayload::Resources(v) => PayloadView::Resources(resource_views(v@)),
            ResponsePayload::Contents(v) => PayloadView::Contents(contents_views(v@)),
            ResponsePayload::Flag(b) => PayloadView::Flag(*b),
            ResponsePayload::Prompts { prompts, next_cursor } => PayloadView::Prompts {
                prompts: prompt_views(prompts@),
                next_cursor: opt_text(*next_cursor),
            },
            ResponsePayload::Messages(v) => PayloadView::Messages(message_views(v@)),
            ResponsePayload::Chat { message, done } => PayloadView::Chat {
                message: message@,
                done: *done,
            },
            ResponsePayload::Models(v) => PayloadView::Models(model_views(v@)),
            ResponsePayload::Empty => PayloadView::Empty,
        }
    }
}

/// A successful answer.
#[derive(Debug, PartialEq)]
pub struct JsonRpcResponse {
    pub jsonrpc: String,
    pub id: serde_json::Value,
    pub result: ResponsePayload,
}

/// What went wrong: a code, a message, and further data if there is any.
#[derive(Debug, PartialEq)]
pub struct JsonRpcErrorDetail {
    pub code: i32,
    pub message: String,
    pub data: Option<serde_json::Value>,
}

/// An answer that reports an error.
#[derive(Debug, PartialEq)]
pub struct JsonRpcError {
    pub jsonrpc: String,
    pub id: serde_json::Value,
    pub error: JsonRpcErrorDetail,
}

/// The answer to a request: a result, or an error.
#[derive(Debug, PartialEq)]
pub enum Envelope {
    Response(JsonRpcResponse),
    Error(JsonRpcError),
}

/// What an answer says: the payload of a result, or the code and message of
/// an error.
pub enum Outcome {
    Result(PayloadView),
    Error { code: int, message: Seq<char> },
}

/// An answer as the contracts see it: the version it names, the id it
/// echoes, and what it says. An error carries no further data.
pub struct EnvelopeView {
    pub jsonrpc: Seq<char>,
    pub id: serde_json::Value,
    pub outcome: Outcome,
}

impl View for JsonRpcError {
    type V = EnvelopeView;

    open spec fn view(&self) -> EnvelopeView {
        EnvelopeView {
            jsonrpc: self.jsonrpc@,
            id: self.id,
            outcome: Outcome::Error { code: self.error.code as int, message: self.error.message@ },
        }
    }
}

impl View for JsonRpcResponse {
    type V = EnvelopeView;

    open spec fn view(&self) -> EnvelopeView {
        EnvelopeView { jsonrpc: self.jsonrpc@, id: self.id, outcome: Outcome::Result(self.result@) }
    }
}

impl View for Envelope {
    type V = EnvelopeView;

    open spec fn view(&self) -> EnvelopeView {
        match self {
            Envelope::Response(r) => r@,
            Envelope::Error(e) => e@,
        }
    }
}

impl Envelope {
    /// Whether the error of an answer, if it is one, carries no further
    /// data.
    pub open spec fn plain(&self) -> bool {
        match self {
            Envelope::Response(_) => true,
            Envelope::Error(e) => e.error.data is None,
        }
    }
}

/// The answer that carries `payload` for the request `id`.
pub open spec fn result_reply(id: serde_json::Value, payload: PayloadView) -> EnvelopeView {
    EnvelopeView { jsonrpc: JSONRPC_VERSION@, id, outcome: Outcome::Result(payload) }
}

/// The answer that reports an error for the request `id`.
pub open spec fn error_reply(id: serde_json::Value, code: int, message: Seq<char>) -> EnvelopeView {
    EnvelopeView { jsonrpc: JSONRPC_VERSION@, id, outcome: Outcome::Error { code, message } }
}

/// The answer for a request that its handler could not serve: `what`, then
/// the failure's own text.
pub open spec fn failure_reply(id: serde_json::Value, what: Seq<char>, detail: Seq<char>)
    -> EnvelopeView {
    error_reply(id, HANDLER_FAILURE as int, what + detail)
}

/// Builds the answer that reports an error with `code` and `message` for the
/// request `id`. The error carries no further data.
pub fn create_error_response(id: serde_json::Value, code: i32, message: String) -> (r: JsonRpcError)
    ensures
        r@ == error_reply(id, code as int, message@),
        r.error.data is None,
{
    JsonRpcError {
        jsonrpc: JSONRPC_VERSION.to_owned(),
        id,
        error: JsonRpcErrorDetail { code, message, data: None },
    }
}

/// Builds the answer that carries `result` for the request `id`.
pub fn create_response(id: serde_json::Value, result: ResponsePayload) -> (r: JsonRpcResponse)
    ensures
        r@ == result_reply(id, result@),
{
    JsonRpcResponse { jsonrpc: JSONRPC_VERSION.to_owned(), id, result }
}

/// The answer for a request that its handler could not serve.
fn failure(id: serde_json::Value, what: &str, detail: &str) -> (r: Envelope)
    ensures
        r@ == failure_reply(id, what@, detail@),
        r.plain(),
{
    Envelope::Error(create_error_response(id, HANDLER_FAILURE, concat(what, detail)))
}

/// The text that is sent where an answer could not be put into words: an
/// error without an id, whose message ends in `detail`, the words of the
/// failure.
pub fn serialization_failure_text(detail: &str) -> (r: String)
    ensures
        r@ == "{\"jsonrpc\":\"2.0\",\"id\":null,\"error\":{\"code\":-32603,\"message\":\"Error creating error response: "@
            + detail@ + "\"}}"@,
{
    concat3(
        "{\"jsonrpc\":\"2.0\",\"id\":null,\"error\":{\"code\":-32603,\"message\":\"Error creating error response: ",
        detail,
        "\"}}",
    )
}

/// The text that is sent for a message that is no request: the words of the
/// parser, as the only field.
pub fn parse_failure_text(detail: &str) -> (r: String)
    ensures
        r@ == "{\"error\": \""@ + detail@ + "\"}"@,
{
    concat3("{\"error\": \"", detail, "\"}")
}

/// What is said of parameters that a handler cannot use.
pub open spec fn bad_params_detail(params: RequestParams) -> Seq<char> {
    match params {
        RequestParams::Malformed(complaint) => complaint@,
        _ => "parameters do not fit the method"@,
    }
}

/// The answer for a request whose parameters its handler cannot use.
pub open spec fn bad_params_reply(id: serde_json::Value, params: RequestParams) -> EnvelopeView {
    failure_reply(id, "Invalid params: "@, bad_params_detail(params))
}

/// The answer for a request whose parameters its handler cannot use.
fn bad_params(id: serde_json::Value, params: RequestParams) -> (r: Envelope)
    ensures
        r@ == bad_params_reply(id, params),
        r.plain(),
{
    match params {
        RequestParams::Malformed(complaint) => failure(id, "Invalid params: ", complaint.as_str()),
        _ => failure(id, "Invalid params: ", "parameters do not fit the method"),
    }
}

/// The answer to `resource/list`, given what the provider gave.
pub open spec fn list_reply(
    id: serde_json::Value,
    outcome: Result<Seq<ResourceView>, ResourceErrorView>,
) -> EnvelopeView {
    match outcome {
        Ok(resources) => result_reply(id, PayloadView::Resources(resources)),
        Err(e) => failure_reply(id, "Error listing resources: "@, e.message()),
    }
}

/// The answer to `resource/read`, given what the provider gave.
pub open spec fn read_reply(
    id: serde_json::Value,
    outcome: Result<Seq<ResourceContentsView>, ResourceErrorView>,
) -> EnvelopeView {
    match outcome {
        Ok(contents) => result_reply(id, PayloadView::Contents(contents)),
        Err(e) => failure_reply(id, "Error reading resource: "@, e.message()),
    }
}

/// The answer to `resource/watch`, given what the provider gave.
pub open spec fn watch_reply(id: serde_json::Value, outcome: Result<(), ResourceErrorView>)
    -> EnvelopeView {
    match outcome {
        Ok(_) => result_reply(id, PayloadView::Flag(true)),
        Err(e) => failure_reply(id, "Error watching resource: "@, e.message()),
    }
}

/// The answer to `resource/unwatch`, given what the provider gave.
pub open spec fn unwatch_reply(id: serde_json::Value, outcome: Result<(), ResourceErrorView>)
    -> EnvelopeView {
    match outcome {
        Ok(_) => result_reply(id, PayloadView::Flag(true)),
        Err(e) => failure_reply(id, "Error unwatching resource: "@, e.message()),
    }
}

/// The answer to `prompts/list`, given what the provider gave.
pub open spec fn prompts_reply(
    id: serde_json::Value,
    outcome: Result<(Seq<PromptView>, Option<Seq<char>>), ErrorView>,
) -> EnvelopeView {
    match outcome {
        Ok(page) => result_reply(id, PayloadView::Prompts { prompts: page.0, next_cursor: page.1 }),
        Err(e) => failure_reply(id, "Error listing prompts: "@, e.message()),
    }
}

/// The answer to `prompts/get`, given what the provider gave.
pub open spec fn prompt_reply(
    id: serde_json::Value,
    outcome: Result<Seq<PromptMessageView>, ErrorView>,
) -> EnvelopeView {
    match outcome {
        Ok(messages) => result_reply(id, PayloadView::Messages(messages)),
        Err(e) => failure_reply(id, "Error getting prompt: "@, e.message()),
    }
}

/// The answer to `chat/send`, given what the provider gave: the message of
/// the response and whether it is done.
pub open spec fn chat_reply(id: serde_json::Value, outcome: Result<ChatResponseView, Seq<char>>)
    -> EnvelopeView {
    match outcome {
        Ok(response) => result_reply(
            id,
            PayloadView::Chat { message: response.message, done: response.done },
        ),
        Err(e) => failure_reply(id, "Chat error: "@, e),
    }
}

/// The answer to `chat/models`, given what the provider gave.
pub open spec fn models_reply(id: serde_json::Value, outcome: Result<Seq<ModelInfoView>, Seq<char>>)
    -> EnvelopeView {
    match outcome {
        Ok(models) => result_reply(id, PayloadView::Models(models)),
        Err(e) => failure_reply(id, "Error listing models: "@, e),
    }
}

/// The answer to `resource/list`, given what the provider gave.
pub fn reply_to_list(id: serde_json::Value, outcome: Result<Vec<Resource>, ResourceError>) -> (r:
    Envelope)
    ensures
        r@ == list_reply(
            id,
            match outcome {
                Ok(v) => Ok(resource_views(v@)),
                Err(e) => Err(e@),
            },
        ),
        r.plain(),
{
    match outcome {
        Ok(resources) => Envelope::Response(
            create_response(id, ResponsePayload::Resources(resources)),
        ),
        Err(e) => failure(id, "Error listing resources: ", e.message().as_str()),
    }
}

/// The answer to `resource/read`, given what the provider gave.
pub fn reply_to_read(
    id: serde_json::Value,
    outcome: Result<Vec<ResourceContents>, ResourceError>,
) -> (r: Envelope)
    ensures
        r@ == read_reply(
            id,
            match outcome {
                Ok(v) => Ok(contents_views(v@)),
                Err(e) => Err(e@),
            },
        ),
        r.plain(),
{
    match outcome {
        Ok(contents) => Envelope::Response(
            create_response(id, ResponsePayload::Contents(contents)),
        ),
        Err(e) => failure(id, "Error reading resource: ", e.message().as_str()),
    }
}

/// The view of the outcome of a watch or an unwatch.
pub open spec fn unit_outcome(outcome: Result<(), ResourceError>) -> Result<(), ResourceErrorView> {
    match outcome {
        Ok(_) => Ok(()),
        Err(e) => Err(e@),
    }
}

/// The answer to `resource/watch`, given what the provider gave.
pub fn reply_to_watch(id: serde_json::Value, outcome: Result<(), ResourceError>) -> (r: Envelope)
    ensures
        r@ == watch_reply(id, unit_outcome(outcome)),
        r.plain(),
{
    match outcome {
        Ok(_) => Envelope::Response(create_response(id, ResponsePayload::Flag(true))),
        Err(e) => failure(id, "Error watching resource: ", e.message().as_str()),
    }
}

/// The answer to `resource/unwatch`, given what the provider gave.
pub fn reply_to_unwatch(id: serde_json::Value, outcome: Result<(), ResourceError>) -> (r: Envelope)
    ensures
        r@ == unwatch_reply(id, unit_outcome(outcome)),
        r.plain(),
{
    match outcome {
        Ok(_) => Envelope::Response(create_response(id, ResponsePayload::Flag(true))),
        Err(e) => failure(id, "Error unwatching resource: ", e.message().as_str()),
    }
}

/// The view of the outcome of a listing of prompts.
pub open spec fn page_outcome(outcome: Result<(Vec<Prompt>, Option<String>), Error>) -> Result<
    (Seq<PromptView>, Option<Seq<char>>),
    ErrorView,
> {
    match outcome {
        Ok(page) => Ok((prompt_views(page.0@), opt_text(page.1))),
        Err(e) => Err(e@),
    }
}

/// The answer to `prompts/list`, given what the provider gave.
pub fn reply_to_prompts_list(
    id: serde_json::Value,
    outcome: Result<(Vec<Prompt>, Option<String>), Error>,
) -> (r: Envelope)
    ensures
        r@ == prompts_reply(id, page_outcome(outcome)),
        r.plain(),
{
    match outcome {
        Ok(page) => {
            let (prompts, next_cursor) = page;
            Envelope::Response(
                create_response(id, ResponsePayload::Prompts { prompts, next_cursor }),
            )
        },
        Err(e) => failure(id, "Error listing prompts: ", e.message().as_str()),
    }
}

/// The view of the outcome of a rendering of a prompt.
pub open spec fn messages_outcome(outcome: Result<Vec<PromptMessage>, Error>) -> Result<
    Seq<PromptMessageView>,
    ErrorView,
> {
    match outcome {
        Ok(v) => Ok(message_views(v@)),
        Err(e) => Err(e@),
    }
}

/// The answer to `prompts/get`, given what the provider gave.
pub fn reply_to_prompts_get(id: serde_json::Value, outcome: Result<Vec<PromptMessage>, Error>) -> (r:
    Envelope)
    ensures
        r@ == prompt_reply(id, messages_outcome(outcome)),
        r.plain(),
{
    match outcome {
        Ok(messages) => Envelope::Response(
            create_response(id, ResponsePayload::Messages(messages)),
        ),
        Err(e) => failure(id, "Error getting prompt: ", e.message().as_str()),
    }
}

/// The view of the outcome of a chat.
pub open spec fn chat_outcome(outcome: Result<ChatResponse, ChatBackendError>) -> Result<
    ChatResponseView,
    Seq<char>,
> {
    match outcome {
        Ok(r) => Ok(r@),
        Err(e) => Err(e.message@),
    }
}

/// The answer to `chat/send`, given what the provider gave.
pub fn reply_to_chat(id: serde_json::Value, outcome: Result<ChatResponse, ChatBackendError>) -> (r:
    Envelope)
    ensures
        r@ == chat_reply(id, chat_outcome(outcome)),
        r.plain(),
{
    match outcome {
        Ok(response) => Envelope::Response(
            create_response(
                id,
                ResponsePayload::Chat { message: response.message, done: response.done },
            ),
        ),
        Err(e) => failure(id, "Chat error: ", e.message.as_str()),
    }
}

/// The view of the outcome of a listing of models.
pub open spec fn models_outcome(outcome: Result<Vec<ModelInfo>, ChatBackendError>) -> Result<
    Seq<ModelInfoView>,
    Seq<char>,
> {
    match outcome {
        Ok(v) => Ok(model_views(v@)),
        Err(e) => Err(e.message@),
    }
}

/// The answer to `chat/models`, given what the provider gave.
pub fn reply_to_models(id: serde_json::Value, outcome: Result<Vec<ModelInfo>, ChatBackendError>) -> (r:
    Envelope)
    ensures
        r@ == models_reply(id, models_outcome(outcome)),
        r.plain(),
{
    match outcome {
        Ok(models) => Envelope::Response(create_response(id, ResponsePayload::Models(models))),
        Err(e) => failure(id, "Error listing models: ", e.message.as_str()),
    }
}

/// What the server says to a client that has initialized.
pub open spec fn instructions() -> Seq<char> {
    "Pylon MCP Server ready for connections"@
}

/// The offer of a server that serves resources with subscriptions, tools and
/// prompts, each with change notices, and a chat backend on this machine
/// that streams.
pub open spec fn protocol_offer() -> ServerCapabilitiesView {
    ServerCapabilitiesView {
        experimental: None,
        logging: None,
        prompts: Some(PromptsCapability { list_changed: true }),
        resources: Some(ResourcesCapability { list_changed: true, subscribe: true }),
        tools: Some(ToolsCapability { list_changed: true }),
        ollama: Some(
            crate::types::OllamaCapabilityView {
                available_models: Seq::empty(),
                endpoint: "http://localhost:11434"@,
                streaming: true,
            },
        ),
    }
}

/// What `initialize` answers to a client that declares `declared`: what the
/// server offers it, the instructions, the protocol version and the server's
/// own name and version.
pub open spec fn initialize_result(
    defaults: ServerCapabilitiesView,
    info: ImplementationView,
    declared: ClientCapabilitiesView,
) -> InitializeResultView {
    InitializeResultView {
        capabilities: negotiated(defaults, declared),
        instructions: Some(instructions()),
        protocol_version: MCP_VERSION@,
        server_info: info,
    }
}

/// The session that `initialize` enters for a client.
pub open spec fn initialized_session(
    client_id: Seq<char>,
    defaults: ServerCapabilitiesView,
    params: InitializeParams,
    connected_at: Timestamp,
) -> ConnectedClientView {
    fresh_session(
        client_id,
        ClientInfoView { name: params.client_info.name@, version: params.client_info.version@ },
        params.capabilities@,
        Some(negotiated(defaults, params.capabilities@)),
        connected_at,
    )
}

/// The path that `resource/list` lists: the one that was asked for, or `.`.
pub open spec fn listed_path(params: ListParams) -> Seq<char> {
    match params.path {
        Some(p) => p@,
        None => "."@,
    }
}

/// The path that `resource/list` lists: the one that was asked for, or `.`.
pub fn list_path(params: &ListParams) -> (r: String)
    ensures
        r@ == listed_path(*params),
{
    match &params.path {
        Some(p) => p.clone(),
        None => ".".to_owned(),
    }
}

/// Whether `reply` is an answer that the method may give to the request
/// `id` with `params`: the one answer, where the server decides alone, and
/// otherwise the answer to something that the provider may have given.
pub open spec fn answers(
    method: Method,
    id: serde_json::Value,
    params: RequestParams,
    reply: EnvelopeView,
) -> bool {
    match method {
        Method::Initialize => true,
        Method::ResourceList => match params {
            RequestParams::List(_) => exists|o: Result<Seq<ResourceView>, ResourceErrorView>|
                #[trigger] list_reply(id, o) == reply,
            _ => reply == bad_params_reply(id, params),
        },
        Method::ResourceRead => match params {
            RequestParams::Read(_) => exists|o: Result<Seq<ResourceContentsView>, ResourceErrorView>|
                #[trigger] read_reply(id, o) == reply,
            _ => reply == bad_params_reply(id, params),
        },
        Method::ResourceWatch => match params {
            RequestParams::Watch(_) => exists|o: Result<(), ResourceErrorView>|
                #[trigger] watch_reply(id, o) == reply,
            _ => reply == bad_params_reply(id, params),
        },
        Method::ResourceUnwatch => match params {
            RequestParams::Unwatch(_) => exists|o: Result<(), ResourceErrorView>|
                #[trigger] unwatch_reply(id, o) == reply,
            _ => reply == bad_params_reply(id, params),
        },
        Method::PromptsList => match params {
            RequestParams::PromptsList(_) => exists|
                o: Result<(Seq<PromptView>, Option<Seq<char>>), ErrorView>,
            | #[trigger] prompts_reply(id, o) == reply,
            _ => reply == bad_params_reply(id, params),
        },
        Method::PromptsGet => match params {
            RequestParams::PromptsGet(_) => exists|o: Result<Seq<PromptMessageView>, ErrorView>|
                #[trigger] prompt_reply(id, o) == reply,
            _ => reply == bad_params_reply(id, params),
        },
        Method::ChatSend => match params {
            RequestParams::Chat(_) => exists|o: Result<ChatResponseView, Seq<char>>|
                #[trigger] chat_reply(id, o) == reply,
            _ => reply == bad_params_reply(id, params),
        },
        Method::ChatModels => exists|o: Result<Seq<ModelInfoView>, Seq<char>>|
            #[trigger] models_reply(id, o) == reply,
        Method::Ping => reply == result_reply(id, PayloadView::Empty),
        Method::Unknown => reply == error_reply(
            id,
            METHOD_NOT_FOUND as int,
            "Method not found"@,
        ),
    }
}

/// Whether `reply` and `after` are what `initialize` gives for the client
/// `client_id` with `params`, where the sessions were `before`: with
/// parameters of the right shape, the client is entered as connected at some
/// moment and the answer is the initialize result; with others, nothing is
/// entered and the answer reports them.
pub open spec fn initializes(
    client_id: Seq<char>,
    id: serde_json::Value,
    params: RequestParams,
    defaults: ServerCapabilitiesView,
    info: ImplementationView,
    before: Seq<ConnectedClientView>,
    after: Seq<ConnectedClientView>,
    reply: EnvelopeView,
) -> bool {
    match params {
        RequestParams::Initialize(p) => {
            &&& reply == result_reply(
                id,
                PayloadView::Initialize(initialize_result(defaults, info, p.capabilities@)),
            )
            &&& exists|connected_at: Timestamp|
                after == registered(
                    before,
                    #[trigger] initialized_session(client_id, defaults, p, connected_at),
                )
        },
        _ => reply == bad_params_reply(id, params) && after == before,
    }
}

/// Whether `r` and `after` are what the dispatcher gives for a message of
/// the client `client_id`, where the sessions were `before`. A message that
/// is no request fails as a whole and changes nothing. A request is answered
/// by its method's handler, and the answer echoes its id. `initialize`
/// enters the client's session; every other request is noted as the last
/// request of the client's session, if it has one.
pub open spec fn dispatched(
    client_id: Seq<char>,
    message: Result<JsonRpcRequest, String>,
    defaults: ServerCapabilitiesView,
    info: ImplementationView,
    before: Seq<ConnectedClientView>,
    after: Seq<ConnectedClientView>,
    r: Result<Envelope, String>,
) -> bool {
    match message {
        Err(complaint) => r == Err::<Envelope, String>(complaint) && after == before,
        Ok(request) => {
            &&& r matches Ok(reply)
            &&& reply@.id == request.id
            &&& reply@.jsonrpc == JSONRPC_VERSION@
            &&& reply.plain()
            &&& answers(method_of(request.method@), request.id, request.params, reply@)
            &&& if method_of(request.method@) == Method::Initialize {
                initializes(
                    client_id,
                    request.id,
                    request.params,
                    defaults,
                    info,
                    before,
                    after,
                    reply@,
                )
            } else {
                after == touched(before, client_id, request.method@)
            }
        },
    }
}

/// The answer to `initialize` echoes the id of the request and names the
/// protocol version that the server advertises; the answer to a method that
/// the server does not know is an error with the code for that.
pub proof fn lemma_initialize_and_unknown_method(
    client_id: Seq<char>,
    request: JsonRpcRequest,
    defaults: ServerCapabilitiesView,
    info: ImplementationView,
    before: Seq<ConnectedClientView>,
    after: Seq<ConnectedClientView>,
    reply: Envelope,
)
    requires
        dispatched(client_id, Ok(request), defaults, info, before, after, Ok(reply)),
    ensures
        reply@.id == request.id,
        method_of(request.method@) == Method::Initialize && request.params is Initialize ==> {
            &&& reply@.outcome matches Outcome::Result(PayloadView::Initialize(result))
            &&& result.protocol_version == MCP_VERSION@
        },
        method_of(request.method@) == Method::Unknown ==> {
            &&& reply@.outcome matches Outcome::Error { code, .. }
            &&& code == METHOD_NOT_FOUND
        },
{
}

/// The protocol engine: the server's name and default offer, the providers
/// that serve resources, prompts and chats, and the registry of clients.
pub struct MCPProtocol<R, P, C> {
    server_info: Implementation,
    server_capabilities: ServerCapabilities,
    resources: R,
    prompts: P,
    chat: C,
    client_manager: ClientManager,
}

impl<R: ResourceProvider, P: PromptProvider, C: ChatProvider> MCPProtocol<R, P, C> {
    /// The sessions of the clients that have initialized.
    pub closed spec fn sessions(&self) -> Seq<ConnectedClientView> {
        self.client_manager@
    }

    /// The server's default offer.
    pub closed spec fn defaults(&self) -> ServerCapabilitiesView {
        self.server_capabilities@
    }

    /// The server's own name and version.
    pub closed spec fn info(&self) -> ImplementationView {
        self.server_info@
    }

    /// A protocol engine over the given providers, with no client, the
    /// server's own name and version, and the default offer.
    pub fn new(resources: R, prompts: P, chat: C) -> (r: Self)
        ensures
            r.sessions() == Seq::<ConnectedClientView>::empty(),
            r.defaults() == protocol_offer(),
            r.info().name == "pylon"@,
            r.info().version == "0.1.0"@,
    {
        let r = MCPProtocol {
            server_info: Implementation::default(),
            server_capabilities: ServerCapabilities {
                experimental: None,
                logging: None,
                prompts: Some(PromptsCapability { list_changed: true }),
                resources: Some(ResourcesCapability { list_changed: true, subscribe: true }),
                tools: Some(ToolsCapability { list_changed: true }),
                ollama: Some(
                    OllamaCapability {
                        available_models: Vec::new(),
                        endpoint: "http://localhost:11434".to_owned(),
                        streaming: true,
                    },
                ),
            },
            resources,
            prompts,
            chat,
            client_manager: ClientManager::new(),
        };
        assert(r.server_capabilities@.ollama->0.available_models =~= Seq::empty());
        r
    }

    /// The registry of clients.
    pub fn get_client_manager(&self) -> (r: &ClientManager)
        ensures
            r@ == self.sessions(),
    {
        &self.client_manager
    }

    /// Removes the session of the client `client_id`. Where there is none,
    /// nothing changes.
    pub fn remove_client(&mut self, client_id: &str)
        ensures
            final(self).sessions() == removed(old(self).sessions(), client_id@),
            !has_session(final(self).sessions(), client_id@),
            final(self).defaults() == old(self).defaults(),
            final(self).info() == old(self).info(),
    {
        self.client_manager.remove_client(client_id);
    }

    /// Removes every session.
    pub fn clear_clients(&mut self)
        ensures
            final(self).sessions() == Seq::<ConnectedClientView>::empty(),
            final(self).defaults() == old(self).defaults(),
            final(self).info() == old(self).info(),
    {
        self.client_manager.clear_clients();
    }

    /// Serves `initialize`: settles what the server offers the client, enters
    /// the client in the registry under `client_id`, and answers with the
    /// offer, the protocol version and the server's name and version.
    pub fn handle_initialize(
        &mut self,
        client_id: &str,
        id: serde_json::Value,
        params: RequestParams,
    ) -> (r: Envelope)
        ensures
            initializes(
                client_id@,
                id,
                params,
                old(self).defaults(),
                old(self).info(),
                old(self).sessions(),
                final(self).sessions(),
                r@,
            ),
            r.plain(),
            final(self).defaults() == old(self).defaults(),
            final(self).info() == old(self).info(),
    {
        match params {
            RequestParams::Initialize(p) => {
                let offer = negotiate(&self.server_capabilities, &p.capabilities);
                let result = InitializeResult {
                    capabilities: offer.clone(),
                    instructions: Some("Pylon MCP Server ready for connections".to_owned()),
                    protocol_version: MCP_VERSION.to_owned(),
                    server_info: self.server_info.clone(),
                };
                let client_info = ClientInfo {
                    name: p.client_info.name,
                    version: p.client_info.version,
                };
                let ghost declared = p.capabilities@;
                let ghost info = client_info@;
                let ghost offered = offer@;
                assert(result@ == initialize_result(
                    old(self).defaults(),
                    old(self).info(),
                    declared,
                ));
                self.client_manager.add_session(
                    client_id.to_owned(),
                    client_info,
                    p.capabilities,
                    offer,
                );
                proof {
                    let connected_at = choose|connected_at: Timestamp|
                        self.sessions() == registered(
                            old(self).sessions(),
                            #[trigger] fresh_session(
                                client_id@,
                                info,
                                declared,
                                Some(offered),
                                connected_at,
                            ),
                        );
                    assert(initialized_session(client_id@, old(self).defaults(), p, connected_at)
                        == fresh_session(client_id@, info, declared, Some(offered), connected_at));
                }
                Envelope::Response(create_response(id, ResponsePayload::Initialize(result)))
            },
            other => bad_params(id, other),
        }
    }

    /// Serves `resource/list` through the resource provider.
    pub fn handle_list_resources(&self, id: serde_json::Value, params: RequestParams) -> (r:
        Envelope)
        ensures
            answers(Method::ResourceList, id, params, r@),
            r.plain(),
    {
        match params {
            RequestParams::List(p) => {
                let path = list_path(&p);
                let outcome = self.resources.list(path.as_str());
                let r = reply_to_list(id, outcome);
                assert(list_reply(
                    id,
                    match outcome {
                        Ok(v) => Ok(resource_views(v@)),
                        Err(e) => Err(e@),
                    },
                ) == r@);
                r
            },
            other => bad_params(id, other),
        }
    }

    /// Serves `resource/read` through the resource provider.
    pub fn handle_read_resource(&self, id: serde_json::Value, params: RequestParams) -> (r:
        Envelope)
        ensures
            answers(Method::ResourceRead, id, params, r@),
            r.plain(),
    {
        match params {
            RequestParams::Read(p) => {
                let outcome = self.resources.read(p.path.as_str());
                let r = reply_to_read(id, outcome);
                assert(read_reply(
                    id,
                    match outcome {
                        Ok(v) => Ok(contents_views(v@)),
                        Err(e) => Err(e@),
                    },
                ) == r@);
                r
            },
            other => bad_params(id, other),
        }
    }

    /// Serves `resource/watch` through the resource provider.
    pub fn handle_watch_resource(&self, id: serde_json::Value, params: RequestParams) -> (r:
        Envelope)
        ensures
            answers(Method::ResourceWatch, id, params, r@),
            r.plain(),
    {
        match params {
            RequestParams::Watch(p) => {
                let outcome = self.resources.watch(p.path.as_str());
                let r = reply_to_watch(id, outcome);
                assert(watch_reply(id, unit_outcome(outcome)) == r@);
                r
            },
            other => bad_params(id, other),
        }
    }

    /// Serves `resource/unwatch` through the resource provider.
    pub fn handle_unwatch_resource(&self, id: serde_json::Value, params: RequestParams) -> (r:
        Envelope)
        ensures
            answers(Method::ResourceUnwatch, id, params, r@),
            r.plain(),
    {
        match params {
            RequestParams::Unwatch(p) => {
                let outcome = self.resources.unwatch(p.path.as_str());
                let r = reply_to_unwatch(id, outcome);
                assert(unwatch_reply(id, unit_outcome(outcome)) == r@);
                r
            },
            other => bad_params(id, other),
        }
    }

    /// Serves `prompts/list` through the prompt provider.
    pub fn handle_list_prompts(&self, id: serde_json::Value, params: RequestParams) -> (r: Envelope)
        ensures
            answers(Method::PromptsList, id, params, r@),
            r.plain(),
    {
        match params {
            RequestParams::PromptsList(p) => {
                let outcome = self.prompts.list_prompts(p.cursor);
                let r = reply_to_prompts_list(id, outcome);
                assert(prompts_reply(id, page_outcome(outcome)) == r@);
                r
            },
            other => bad_params(id, other),
        }
    }

    /// Serves `prompts/get` through the prompt provider.
    pub fn handle_get_prompt(&self, id: serde_json::Value, params: RequestParams) -> (r: Envelope)
        ensures
            answers(Method::PromptsGet, id, params, r@),
            r.plain(),
    {
        match params {
            RequestParams::PromptsGet(p) => {
                let outcome = self.prompts.get_prompt(p.name.as_str(), p.arguments);
                let r = reply_to_prompts_get(id, outcome);
                assert(prompt_reply(id, messages_outcome(outcome)) == r@);
                r
            },
            other => bad_params(id, other),
        }
    }

    /// Serves `chat/send` through the chat provider.
    pub fn handle_ollama_chat(&self, id: serde_json::Value, params: RequestParams) -> (r: Envelope)
        ensures
            answers(Method::ChatSend, id, params, r@),
            r.plain(),
    {
        match params {
            RequestParams::Chat(p) => {
                let outcome = self.chat.chat(p.model.as_str(), p.messages);
                let r = reply_to_chat(id, outcome);
                assert(chat_reply(id, chat_outcome(outcome)) == r@);
                r
            },
            other => bad_params(id, other),
        }
    }

    /// Serves `chat/models` through the chat provider.
    pub fn handle_ollama_models(&self, id: serde_json::Value) -> (r: Envelope)
        ensures
            exists|o: Result<Seq<ModelInfoView>, Seq<char>>| #[trigger] models_reply(id, o) == r@,
            r.plain(),
    {
        let outcome = self.chat.list_models();
        let r = reply_to_models(id, outcome);
        assert(models_reply(id, models_outcome(outcome)) == r@);
        r
    }

    /// Takes one message of the client `client_id`. A message that is no
    /// request fails as a whole, with the words of the parser. A request is
    /// routed by its method, and its answer echoes its id. Every request but
    /// `initialize` is noted as the client's last request, if the client has
    /// a session; `initialize` enters the session.
    pub fn handle_message(&mut self, client_id: &str, message: Result<JsonRpcRequest, String>) -> (r:
        Result<Envelope, String>)
        ensures
            final(self).defaults() == old(self).defaults(),
            final(self).info() == old(self).info(),
            dispatched(
                client_id@,
                message,
                old(self).defaults(),
                old(self).info(),
                old(self).sessions(),
                final(self).sessions(),
                r,
            ),
    {
        let request = match message {
            Ok(request) => request,
            Err(complaint) => {
                return Err(complaint);
            },
        };
        let method = route(request.method.as_str());
        if method != Method::Initialize {
            self.client_manager.update_last_message(client_id, request.method);
        }
        let id = request.id;
        let params = request.params;
        let reply = match method {
            Method::Initialize => self.handle_initialize(client_id, id, params),
            Method::ResourceList => self.handle_list_resources(id, params),
            Method::ResourceRead => self.handle_read_resource(id, params),
            Method::ResourceWatch => self.handle_watch_resource(id, params),
            Method::ResourceUnwatch => self.handle_unwatch_resource(id, params),
            Method::PromptsList => self.handle_list_prompts(id, params),
            Method::PromptsGet => self.handle_get_prompt(id, params),
            Method::ChatSend => self.handle_ollama_chat(id, params),
            Method::ChatModels => self.handle_ollama_models(id),
            Method::Ping => Envelope::Response(create_response(id, ResponsePayload::Empty)),
            Method::Unknown => Envelope::Error(
                create_error_response(id, METHOD_NOT_FOUND, "Method not found".to_owned()),
            ),
        };
        Ok(reply)
    }
}

} // verus!
