//! The data that travels between a client and the server: capability blocks,
//! the initialize exchange, resources and the JSON-RPC envelopes.

use std::collections::HashMap;
use vstd::prelude::*;

verus! {

/// `serde_json::Value`: any JSON value. The library carries such values through
/// (a request id, free-form capability data) and never looks inside one.
#[verifier::external_type_specification]
#[verifier::external_body]
pub struct ExJsonValue(serde_json::Value);

/// The JSON-RPC version that every envelope names.
pub const JSONRPC_VERSION: &'static str = "2.0";

/// The protocol version that the server advertises.
pub const MCP_VERSION: &'static str = "0.1.0";

/// The view of an optional string.
pub open spec fn opt_text(o: Option<String>) -> Option<Seq<char>> {
    match o {
        Some(s) => Some(s@),
        None => None,
    }
}

/// The views of a sequence of strings.
pub open spec fn texts(v: Seq<String>) -> Seq<Seq<char>> {
    v.map_values(|s: String| s@)
}

/// A copy of an optional string.
pub fn clone_opt_text(o: &Option<String>) -> (r: Option<String>)
    ensures
        r == *o,
{
    match o {
        Some(s) => Some(s.clone()),
        None => None,
    }
}

/// A copy of a list of strings.
pub fn clone_texts(v: &Vec<String>) -> (r: Vec<String>)
    ensures
        r@ == v@,
{
    let mut out: Vec<String> = Vec::new();
    let mut i: usize = 0;
    while i < v.len()
        invariant
            i <= v.len(),
            out@ == v@.subrange(0, i as int),
        decreases v.len() - i,
    {
        out.push(v[i].clone());
        i = i + 1;
    }
    assert(v@.subrange(0, v.len() as int) == v@);
    out
}

/// The name and version of a client or server implementation.
#[derive(Debug, PartialEq, Eq)]
pub struct Implementation {
    pub name: String,
    pub version: String,
}

/// The view of `Implementation`: what the contracts see of it, with texts as sequences of
/// characters.
pub struct ImplementationView {
    pub name: Seq<char>,
    pub version: Seq<char>,
}

impl View for Implementation {
    type V = ImplementationView;

    open spec fn view(&self) -> ImplementationView {
        ImplementationView { name: self.name@, version: self.version@ }
    }
}

impl Clone for Implementation {
    fn clone(&self) -> (r: Self)
        ensures
            r == *self,
    {
        Implementation { name: self.name.clone(), version: self.version.clone() }
    }
}

impl Default for Implementation {
    /// The server's own name and version.
    fn default() -> (r: Self)
        ensures
            r.name@ == "pylon"@,
            r.version@ == "0.1.0"@,
    {
        Implementation { name: "pylon".to_owned(), version: "0.1.0".to_owned() }
    }
}

/// A client's declaration that it exposes filesystem roots.
#[derive(Debug, Clone, Copy, PartialEq, Eq, Structural)]
pub struct RootsCapability {
    pub list_changed: bool,
}

/// The server's offer to serve prompts.
#[derive(Debug, Clone, Copy, PartialEq, Eq, Structural)]
pub struct PromptsCapability {
    pub list_changed: bool,
}

/// The server's offer to serve resources, with or without subscriptions.
#[derive(Debug, Clone, Copy, PartialEq, Eq, Structural)]
pub struct ResourcesCapability {
    pub list_changed: bool,
    pub subscribe: bool,
}

/// The server's offer to list tools.
#[derive(Debug, Clone, Copy, PartialEq, Eq, Structural)]
pub struct ToolsCapability {
    pub list_changed: bool,
}

/// What a party says of its chat backend.
#[derive(Debug, PartialEq, Eq)]
pub struct OllamaCapability {
    pub available_models: Vec<String>,
    pub endpoint: String,
    pub streaming: bool,
}

/// The view of `OllamaCapability`: what the contracts see of it, with texts as sequences of
/// characters.
pub struct OllamaCapabilityView {
    pub available_models: Seq<Seq<char>>,
    pub endpoint: Seq<char>,
    pub streaming: bool,
}

impl View for OllamaCapability {
    type V = OllamaCapabilityView;

    open spec fn view(&self) -> OllamaCapabilityView {
        OllamaCapabilityView {
            available_models: texts(self.available_models@),
            endpoint: self.endpoint@,
            streaming: self.streaming,
        }
    }
}

impl Clone for OllamaCapability {
    fn clone(&self) -> (r: Self)
        ensures
            r@ == self@,
    {
        OllamaCapability {
            available_models: clone_texts(&self.available_models),
            endpoint: self.endpoint.clone(),
            streaming: self.streaming,
        }
    }
}

/// The view of an optional chat-backend block.
pub open spec fn opt_ollama(o: Option<OllamaCapability>) -> Option<OllamaCapabilityView> {
    match o {
        Some(c) => Some(c@),
        None => None,
    }
}

/// A copy of an optional chat-backend block.
pub fn clone_opt_ollama(o: &Option<OllamaCapability>) -> (r: Option<OllamaCapability>)
    ensures
        opt_ollama(r) == opt_ollama(*o),
{
    match o {
        Some(c) => Some(c.clone()),
        None => None,
    }
}

/// A free-form capability block: named groups of named JSON values.
pub type Experimental = HashMap<String, HashMap<String, serde_json::Value>>;

/// A flat block of named JSON values.
pub type Settings = HashMap<String, serde_json::Value>;

/// The view of an optional free-form block: the groups it holds.
pub open spec fn opt_experimental(o: Option<Experimental>) -> Option<
    Map<String, HashMap<String, serde_json::Value>>,
> {
    match o {
        Some(m) => Some(m@),
        None => None,
    }
}

/// The view of an optional flat block: the values it holds.
pub open spec fn opt_settings(o: Option<Settings>) -> Option<Map<String, serde_json::Value>> {
    match o {
        Some(m) => Some(m@),
        None => None,
    }
}

/// A copy of an optional free-form block.
pub fn clone_opt_experimental(o: &Option<Experimental>) -> (r: Option<Experimental>)
    ensures
        opt_experimental(r) == opt_experimental(*o),
{
    match o {
        Some(m) => Some(m.clone()),
        None => None,
    }
}

/// A copy of an optional flat block.
pub fn clone_opt_settings(o: &Option<Settings>) -> (r: Option<Settings>)
    ensures
        opt_settings(r) == opt_settings(*o),
{
    match o {
        Some(m) => Some(m.clone()),
        None => None,
    }
}

/// The capability blocks that a client declares. A block that is absent is
/// not used.
#[derive(Debug, PartialEq)]
pub struct ClientCapabilities {
    pub experimental: Option<Experimental>,
    pub roots: Option<RootsCapability>,
    pub sampling: Option<Settings>,
    pub ollama: Option<OllamaCapability>,
}

/// The view of `ClientCapabilities`: what the contracts see of it, with texts as sequences of
/// characters.
pub struct ClientCapabilitiesView {
    pub experimental: Option<Map<String, HashMap<String, serde_json::Value>>>,
    pub roots: Option<RootsCapability>,
    pub sampling: Option<Map<String, serde_json::Value>>,
    pub ollama: Option<OllamaCapabilityView>,
}

impl View for ClientCapabilities {
    type V = ClientCapabilitiesView;

    open spec fn view(&self) -> ClientCapabilitiesView {
        ClientCapabilitiesView {
            experimental: opt_experimental(self.experimental),
            roots: self.roots,
            sampling: opt_settings(self.sampling),
            ollama: opt_ollama(self.ollama),
        }
    }
}

impl Clone for ClientCapabilities {
    fn clone(&self) -> (r: Self)
        ensures
            r@ == self@,
    {
        ClientCapabilities {
            experimental: clone_opt_experimental(&self.experimental),
            roots: self.roots,
            sampling: clone_opt_settings(&self.sampling),
            ollama: clone_opt_ollama(&self.ollama),
        }
    }
}

impl Default for ClientCapabilities {
    /// No block declared.
    fn default() -> (r: Self)
        ensures
            r.experimental is None,
            r.roots is None,
            r.sampling is None,
            r.ollama is None,
    {
        ClientCapabilities { experimental: None, roots: None, sampling: None, ollama: None }
    }
}

/// The capability blocks that the server offers. A block that is absent is
/// not offered.
#[derive(Debug, PartialEq)]
pub struct ServerCapabilities {
    pub experimental: Option<Experimental>,
    pub logging: Option<Settings>,
    pub prompts: Option<PromptsCapability>,
    pub resources: Option<ResourcesCapability>,
    pub tools: Option<ToolsCapability>,
    pub ollama: Option<OllamaCapability>,
}

/// The view of `ServerCapabilities`: what the contracts see of it, with texts as sequences of
/// characters.
pub struct ServerCapabilitiesView {
    pub experimental: Option<Map<String, HashMap<String, serde_json::Value>>>,
    pub logging: Option<Map<String, serde_json::Value>>,
    pub prompts: Option<PromptsCapability>,
    pub resources: Option<ResourcesCapability>,
    pub tools: Option<ToolsCapability>,
    pub ollama: Option<OllamaCapabilityView>,
}

impl View for ServerCapabilities {
    type V = ServerCapabilitiesView;

    open spec fn view(&self) -> ServerCapabilitiesView {
        ServerCapabilitiesView {
            experimental: opt_experimental(self.experimental),
            logging: opt_settings(self.logging),
            prompts: self.prompts,
            resources: self.resources,
            tools: self.tools,
            ollama: opt_ollama(self.ollama),
        }
    }
}

impl Clone for ServerCapabilities {
    fn clone(&self) -> (r: Self)
        ensures
            r@ == self@,
    {
        ServerCapabilities {
            experimental: clone_opt_experimental(&self.experimental),
            logging: clone_opt_settings(&self.logging),
            prompts: self.prompts,
            resources: self.resources,
            tools: self.tools,
            ollama: clone_opt_ollama(&self.ollama),
        }
    }
}

impl Default for ServerCapabilities {
    /// No block offered.
    fn default() -> (r: Self)
        ensures
            r.experimental is None,
            r.logging is None,
            r.prompts is None,
            r.resources is None,
            r.tools is None,
            r.ollama is None,
    {
        ServerCapabilities {
            experimental: None,
            logging: None,
            prompts: None,
            resources: None,
            tools: None,
            ollama: None,
        }
    }
}

/// What a client sends with `initialize`.
#[derive(Debug, PartialEq)]
pub struct InitializeParams {
    pub capabilities: ClientCapabilities,
    pub client_info: Implementation,
    pub protocol_version: String,
}

/// An `initialize` call: the method name and its parameters.
#[derive(Debug, PartialEq)]
pub struct InitializeRequest {
    pub method: String,
    pub params: InitializeParams,
}

/// What the server answers to `initialize`.
#[derive(Debug, PartialEq)]
pub struct InitializeResult {
    pub capabilities: ServerCapabilities,
    pub instructions: Option<String>,
    pub protocol_version: String,
    pub server_info: Implementation,
}

/// The view of `InitializeResult`: what the contracts see of it, with texts as sequences of
/// characters.
pub struct InitializeResultView {
    pub capabilities: ServerCapabilitiesView,
    pub instructions: Option<Seq<char>>,
    pub protocol_version: Seq<char>,
    pub server_info: ImplementationView,
}

impl View for InitializeResult {
    type V = InitializeResultView;

    open spec fn view(&self) -> InitializeResultView {
        InitializeResultView {
            capabilities: self.capabilities@,
            instructions: opt_text(self.instructions),
            protocol_version: self.protocol_version@,
            server_info: self.server_info@,
        }
    }
}

/// Who speaks in a message.
#[derive(Debug, Clone, Copy, PartialEq, Eq, Structural)]
pub enum Role {
    Assistant,
    User,
    System,
}

/// Hints on who a piece of content is for and how much it matters.
#[derive(Debug, PartialEq, Eq)]
pub struct Annotations {
    pub audience: Option<Vec<Role>>,
    /// The priority, a 32-bit float, held as its bit pattern.
    pub priority: Option<u32>,
}

/// The view of `Annotations`: what the contracts see of it, with texts as sequences of
/// characters.
pub struct AnnotationsView {
    pub audience: Option<Seq<Role>>,
    pub priority: Option<u32>,
}

impl View for Annotations {
    type V = AnnotationsView;

    open spec fn view(&self) -> AnnotationsView {
        AnnotationsView {
            audience: match self.audience {
                Some(a) => Some(a@),
                None => None,
            },
            priority: self.priority,
        }
    }
}

impl Clone for Annotations {
    fn clone(&self) -> (r: Self)
        ensures
            r@ == self@,
    {
        let audience = match &self.audience {
            Some(a) => {
                let mut out: Vec<Role> = Vec::new();
                let mut i: usize = 0;
                while i < a.len()
                    invariant
                        i <= a.len(),
                        out@ == a@.subrange(0, i as int),
                    decreases a.len() - i,
                {
                    out.push(a[i]);
                    i = i + 1;
                }
                assert(a@.subrange(0, a.len() as int) == a@);
                Some(out)
            },
            None => None,
        };
        Annotations { audience, priority: self.priority }
    }
}

/// The view of optional annotations.
pub open spec fn opt_annotations(o: Option<Annotations>) -> Option<AnnotationsView> {
    match o {
        Some(a) => Some(a@),
        None => None,
    }
}

/// A copy of optional annotations.
pub fn clone_opt_annotations(o: &Option<Annotations>) -> (r: Option<Annotations>)
    ensures
        opt_annotations(r) == opt_annotations(*o),
{
    match o {
        Some(a) => Some(a.clone()),
        None => None,
    }
}

/// A piece of text with its content tag.
#[derive(Debug, PartialEq, Eq)]
pub struct TextContent {
    pub text: String,
    pub content_type: String,
    pub annotations: Option<Annotations>,
}

/// One entry of a listing: a named thing with an address.
#[derive(Debug, PartialEq, Eq)]
pub struct Resource {
    pub name: String,
    pub uri: String,
    pub description: Option<String>,
    pub mime_type: Option<String>,
    pub annotations: Option<Annotations>,
}

/// The view of `Resource`: what the contracts see of it, with texts as sequences of
/// characters.
pub struct ResourceView {
    pub name: Seq<char>,
    pub uri: Seq<char>,
    pub description: Option<Seq<char>>,
    pub mime_type: Option<Seq<char>>,
    pub annotations: Option<AnnotationsView>,
}

impl View for Resource {
    type V = ResourceView;

    open spec fn view(&self) -> ResourceView {
        ResourceView {
            name: self.name@,
            uri: self.uri@,
            description: opt_text(self.description),
            mime_type: opt_text(self.mime_type),
            annotations: opt_annotations(self.annotations),
        }
    }
}

/// The contents of a resource as text.
#[derive(Debug, PartialEq, Eq)]
pub struct TextResourceContents {
    pub uri: String,
    pub mime_type: Option<String>,
    pub text: String,
}

/// The contents of a resource as bytes.
#[derive(Debug, PartialEq, Eq)]
pub struct BlobResourceContents {
    pub uri: String,
    pub mime_type: Option<String>,
    pub blob: Vec<u8>,
}

/// The contents of a resource: text or bytes, never both.
#[derive(Debug, PartialEq, Eq)]
pub enum ResourceContents {
    Text(TextResourceContents),
    Blob(BlobResourceContents),
}

/// The view of `ResourceContents`: what the contracts see of it, with texts as sequences of
/// characters.
pub enum ResourceContentsView {
    Text { uri: Seq<char>, mime_type: Option<Seq<char>>, text: Seq<char> },
    Blob { uri: Seq<char>, mime_type: Option<Seq<char>>, blob: Seq<u8> },
}

impl View for ResourceContents {
    type V = ResourceContentsView;

    open spec fn view(&self) -> ResourceContentsView {
        match self {
            ResourceContents::Text(t) => ResourceContentsView::Text {
                uri: t.uri@,
                mime_type: opt_text(t.mime_type),
                text: t.text@,
            },
            ResourceContents::Blob(b) => ResourceContentsView::Blob {
                uri: b.uri@,
                mime_type: opt_text(b.mime_type),
                blob: b.blob@,
            },
        }
    }
}

impl ResourceContentsView {
    /// The address of the contents.
    pub open spec fn uri(self) -> Seq<char> {
        match self {
            ResourceContentsView::Text { uri, .. } => uri,
            ResourceContentsView::Blob { uri, .. } => uri,
        }
    }

    /// The same contents under another address.
    pub open spec fn with_uri(self, to: Seq<char>) -> ResourceContentsView {
        match self {
            ResourceContentsView::Text { uri, mime_type, text } => ResourceContentsView::Text {
                uri: to,
                mime_type,
                text,
            },
            ResourceContentsView::Blob { uri, mime_type, blob } => ResourceContentsView::Blob {
                uri: to,
                mime_type,
                blob,
            },
        }
    }
}

impl ResourceContents {
    /// The address of the contents.
    pub fn uri(&self) -> (r: &str)
        ensures
            r@ == self@.uri(),
    {
        match self {
            ResourceContents::Text(t) => t.uri.as_str(),
            ResourceContents::Blob(b) => b.uri.as_str(),
        }
    }

    /// Replaces the address and leaves the rest as it is.
    pub fn set_uri(&mut self, uri: String)
        ensures
            final(self)@ == old(self)@.with_uri(uri@),
    {
        match self {
            ResourceContents::Text(t) => {
                t.uri = uri;
            },
            ResourceContents::Blob(b) => {
                b.uri = uri;
            },
        }
    }
}

impl Clone for ResourceContents {
    fn clone(&self) -> (r: Self)
        ensures
            r@ == self@,
    {
        match self {
            ResourceContents::Text(t) => ResourceContents::Text(
                TextResourceContents {
                    uri: t.uri.clone(),
                    mime_type: clone_opt_text(&t.mime_type),
                    text: t.text.clone(),
                },
            ),
            ResourceContents::Blob(b) => {
                let mut blob: Vec<u8> = Vec::new();
                let mut i: usize = 0;
                while i < b.blob.len()
                    invariant
                        i <= b.blob.len(),
                        blob@ == b.blob@.subrange(0, i as int),
                    decreases b.blob.len() - i,
                {
                    blob.push(b.blob[i]);
                    i = i + 1;
                }
                assert(b.blob@.subrange(0, b.blob.len() as int) == b.blob@);
                ResourceContents::Blob(
                    BlobResourceContents {
                        uri: b.uri.clone(),
                        mime_type: clone_opt_text(&b.mime_type),
                        blob,
                    },
                )
            },
        }
    }
}

} // verus!
