//! The chat provider's own part: what is asked of the backend and where, how
//! its answers are taken, how a stream of bytes becomes lines, and how the
//! chunks of a streamed answer fold into one response.

use crate::text::{concat, concat3, copy_range, lemma_offset_of, lemma_offset_of_is, offset_of};
use vstd::prelude::*;
use vstd::string::StringExecFns;

verus! {

/// One message of a chat: who speaks, and what.
#[derive(Debug, PartialEq, Eq)]
pub struct ChatMessage {
    pub role: String,
    pub content: String,
}

/// The view of `ChatMessage`: what the contracts see of it, with texts as sequences of
/// characters.
pub struct ChatMessageView {
    pub role: Seq<char>,
    pub content: Seq<char>,
}

impl View for ChatMessage {
    type V = ChatMessageView;

    open spec fn view(&self) -> ChatMessageView {
        ChatMessageView { role: self.role@, content: self.content@ }
    }
}

impl Clone for ChatMessage {
    fn clone(&self) -> (r: Self)
        ensures
            r == *self,
    {
        ChatMessage { role: self.role.clone(), content: self.content.clone() }
    }
}

/// What is sent to the backend: the model, and the chat so far.
#[derive(Debug, PartialEq, Eq)]
pub struct ChatRequest {
    pub model: String,
    pub messages: Vec<ChatMessage>,
}

/// An answer of the backend, whole or in part. A part with `done` set ends
/// the answer.
#[derive(Debug, PartialEq, Eq)]
pub struct ChatResponse {
    pub message: ChatMessage,
    pub done: bool,
    pub model: String,
    pub created_at: String,
}

/// The view of `ChatResponse`: what the contracts see of it, with texts as sequences of
/// characters.
pub struct ChatResponseView {
    pub message: ChatMessageView,
    pub done: bool,
    pub model: Seq<char>,
    pub created_at: Seq<char>,
}

impl View for ChatResponse {
    type V = ChatResponseView;

    open spec fn view(&self) -> ChatResponseView {
        ChatResponseView {
            message: self.message@,
            done: self.done,
            model: self.model@,
            created_at: self.created_at@,
        }
    }
}

/// A model that the backend can run.
#[derive(Debug, PartialEq, Eq)]
pub struct ModelInfo {
    pub name: String,
    pub digest: String,
    pub size: u64,
    pub modified_at: String,
}

/// The view of `ModelInfo`: what the contracts see of it, with texts as sequences of
/// characters.
pub struct ModelInfoView {
    pub name: Seq<char>,
    pub digest: Seq<char>,
    pub size: u64,
    pub modified_at: Seq<char>,
}

impl View for ModelInfo {
    type V = ModelInfoView;

    open spec fn view(&self) -> ModelInfoView {
        ModelInfoView {
            name: self.name@,
            digest: self.digest@,
            size: self.size,
            modified_at: self.modified_at@,
        }
    }
}

/// The views of a list of models.
pub open spec fn model_views(v: Seq<ModelInfo>) -> Seq<ModelInfoView> {
    v.map_values(|m: ModelInfo| m@)
}

/// A source of chat answers. An implementation decides which backend
/// answers.
pub trait ChatProvider {
    /// The models that the backend can run.
    fn list_models(&self) -> Result<Vec<ModelInfo>, ChatBackendError>;

    /// The backend's whole answer to the chat `messages`, by `model`.
    fn chat(&self, model: &str, messages: Vec<ChatMessage>) -> Result<
        ChatResponse,
        ChatBackendError,
    >;
}

/// A failure of the chat backend or on the way to it, with its text.
#[derive(Debug, PartialEq, Eq)]
pub struct ChatBackendError {
    pub message: String,
}

/// A part of an answer as the backend words it; the time may be missing.
#[derive(Debug, PartialEq, Eq)]
pub struct OllamaResponse {
    pub model: String,
    pub message: ChatMessage,
    pub done: bool,
    pub created_at: Option<String>,
}

/// What came back from a call to the backend: whether the status says
/// success, and the body.
#[derive(Debug, PartialEq, Eq)]
pub struct HttpReply {
    pub success: bool,
    pub body: String,
}

/// One element of a streamed answer: a part, or the text of a failure.
pub type ChunkView = Result<ChatResponseView, Seq<char>>;

/// The view of one element of a streamed answer.
pub open spec fn chunk_view(chunk: Result<ChatResponse, ChatBackendError>) -> ChunkView {
    match chunk {
        Ok(c) => Ok(c@),
        Err(e) => Err(e.message@),
    }
}

/// The views of the elements of a streamed answer.
pub open spec fn chunk_views(chunks: Seq<Result<ChatResponse, ChatBackendError>>) -> Seq<
    ChunkView,
> {
    chunks.map_values(|c: Result<ChatResponse, ChatBackendError>| chunk_view(c))
}

/// What has been folded of a streamed answer so far.
pub struct Folded {
    pub content: Seq<char>,
    pub model: Seq<char>,
    pub created_at: Seq<char>,
}

/// Nothing folded yet.
pub open spec fn nothing_folded() -> Folded {
    Folded { content: Seq::empty(), model: Seq::empty(), created_at: Seq::empty() }
}

/// `so_far` with one more part folded in: its content is appended, its model
/// and time replace the earlier ones.
pub open spec fn fold_in(so_far: Folded, part: ChatResponseView) -> Folded {
    Folded {
        content: so_far.content + part.message.content,
        model: part.model,
        created_at: part.created_at,
    }
}

/// The response that stands for what was folded: the assistant speaks, and
/// the answer is done.
pub open spec fn folded_response(folded: Folded) -> ChatResponseView {
    ChatResponseView {
        message: ChatMessageView { role: "assistant"@, content: folded.content },
        done: true,
        model: folded.model,
        created_at: folded.created_at,
    }
}

/// The text of the failure for a stream that ended without any content.
pub open spec fn empty_stream_message() -> Seq<char> {
    "No response received from stream"@
}

/// What a stream that ends after `folded` amounts to.
pub open spec fn end_of_stream(folded: Folded) -> ChunkView {
    if folded.content.len() > 0 {
        Ok(folded_response(folded))
    } else {
        Err(empty_stream_message())
    }
}

/// The one response that the elements `chunks` of a streamed answer fold
/// into, after `so_far`: contents are concatenated in order up to the first
/// part that is done; the first failure ends the fold and is the result.
pub open spec fn aggregate_from(so_far: Folded, chunks: Seq<ChunkView>) -> ChunkView
    decreases chunks.len(),
{
    if chunks.len() == 0 {
        end_of_stream(so_far)
    } else {
        match chunks[0] {
            Err(e) => Err(e),
            Ok(part) => if part.done {
                Ok(folded_response(fold_in(so_far, part)))
            } else {
                aggregate_from(fold_in(so_far, part), chunks.drop_first())
            },
        }
    }
}

/// Whether an element ends the stream: a failure, or a part that is done.
pub open spec fn ends_stream(chunk: ChunkView) -> bool {
    match chunk {
        Err(_) => true,
        Ok(part) => part.done,
    }
}

/// The one response that a whole streamed answer folds into.
pub open spec fn aggregate(chunks: Seq<ChunkView>) -> ChunkView {
    aggregate_from(nothing_folded(), chunks)
}

/// Folds the parts of a streamed answer as they arrive.
pub struct ChatAggregator {
    content: String,
    model: String,
    created_at: String,
}

/// What folding one more element led to.
#[derive(Debug, PartialEq, Eq)]
pub enum Progress {
    /// The answer goes on.
    Continue,
    /// The answer is complete, or has failed.
    Finished(Result<ChatResponse, ChatBackendError>),
}

impl View for ChatAggregator {
    type V = Folded;

    closed spec fn view(&self) -> Folded {
        Folded { content: self.content@, model: self.model@, created_at: self.created_at@ }
    }
}

impl ChatAggregator {
    /// An aggregator that has folded nothing.
    pub fn new() -> (r: Self)
        ensures
            r@ == nothing_folded(),
    {
        ChatAggregator { content: String::new(), model: String::new(), created_at: String::new() }
    }

    /// The response for what was folded so far.
    fn response(&self) -> (r: ChatResponse)
        ensures
            r@ == folded_response(self@),
    {
        ChatResponse {
            message: ChatMessage { role: "assistant".to_owned(), content: self.content.clone() },
            done: true,
            model: self.model.clone(),
            created_at: self.created_at.clone(),
        }
    }

    /// Folds in the next element of the stream. A failure, or a part that is
    /// done, finishes the answer; the elements after it must not be folded.
    pub fn push(&mut self, chunk: &Result<ChatResponse, ChatBackendError>) -> (r: Progress)
        ensures
            match r {
                Progress::Continue => {
                    &&& !ends_stream(chunk_view(*chunk))
                    &&& chunk matches Ok(part) && final(self)@ == fold_in(old(self)@, part@)
                },
                Progress::Finished(outcome) => ends_stream(chunk_view(*chunk)) && chunk_view(
                    outcome,
                ) == aggregate_from(old(self)@, seq![chunk_view(*chunk)]),
            },
            forall|rest: Seq<ChunkView>|
                #![trigger aggregate_from(old(self)@, seq![chunk_view(*chunk)] + rest)]
                aggregate_from(old(self)@, seq![chunk_view(*chunk)] + rest) == match r {
                    Progress::Continue => aggregate_from(final(self)@, rest),
                    Progress::Finished(outcome) => chunk_view(outcome),
                },
    {
        proof {
            assert forall|rest: Seq<ChunkView>|
                (#[trigger] (seq![chunk_view(*chunk)] + rest)).drop_first() == rest by {
                assert((seq![chunk_view(*chunk)] + rest).drop_first() =~= rest);
            }
            assert(seq![chunk_view(*chunk)].drop_first() =~= Seq::<ChunkView>::empty());
        }
        match chunk {
            Err(e) => Progress::Finished(Err(ChatBackendError { message: e.message.clone() })),
            Ok(part) => {
                self.content.append(part.message.content.as_str());
                self.model = part.model.clone();
                self.created_at = part.created_at.clone();
                if part.done {
                    Progress::Finished(Ok(self.response()))
                } else {
                    Progress::Continue
                }
            },
        }
    }

    /// The outcome for a stream that ended without a part that is done.
    pub fn finish(self) -> (r: Result<ChatResponse, ChatBackendError>)
        ensures
            chunk_view(r) == end_of_stream(self@),
    {
        if self.content.as_str().unicode_len() > 0 {
            Ok(self.response())
        } else {
            Err(ChatBackendError { message: "No response received from stream".to_owned() })
        }
    }
}

/// The byte that ends a line.
pub const NEWLINE: u8 = 10;

/// The lines of `data` that are complete, each without the newline that ends
/// it, in order; empty lines are left out.
pub open spec fn complete_lines(data: Seq<u8>) -> Seq<Seq<u8>>
    decreases data.len(),
{
    let n = offset_of(data, NEWLINE) as int;
    if n >= data.len() {
        Seq::empty()
    } else if n == 0 {
        complete_lines(data.skip(1))
    } else {
        seq![data.subrange(0, n)] + complete_lines(data.skip(n + 1))
    }
}

/// What of `data` stands after its last newline: the start of a line that is
/// not complete yet.
pub open spec fn unfinished(data: Seq<u8>) -> Seq<u8>
    decreases data.len(),
{
    let n = offset_of(data, NEWLINE) as int;
    if n >= data.len() {
        data
    } else {
        unfinished(data.skip(n + 1))
    }
}

/// The views of a list of lines.
pub open spec fn line_views(lines: Seq<Vec<u8>>) -> Seq<Seq<u8>> {
    lines.map_values(|l: Vec<u8>| l@)
}

/// However the bytes of a stream are cut into pieces, the same lines come
/// out in the same order: feeding `a` and then `b` gives what feeding both
/// at once gives.
pub proof fn lemma_lines_of_pieces(a: Seq<u8>, b: Seq<u8>)
    ensures
        complete_lines(a + b) == complete_lines(a) + complete_lines(unfinished(a) + b),
        unfinished(a + b) == unfinished(unfinished(a) + b),
    decreases a.len(),
{
    let n = offset_of(a, NEWLINE) as int;
    lemma_offset_of(a, NEWLINE);
    if n >= a.len() {
        assert(complete_lines(a) + complete_lines(a + b) =~= complete_lines(a + b));
    } else {
        assert forall|k: int| 0 <= k < n implies (a + b)[k] != NEWLINE by {
            assert((a + b)[k] == a[k]);
        }
        assert((a + b)[n] == a[n]);
        lemma_offset_of_is(a + b, NEWLINE, n);
        assert((a + b).skip(n + 1) =~= a.skip(n + 1) + b);
        lemma_lines_of_pieces(a.skip(n + 1), b);
        if n == 0 {
        } else {
            assert((a + b).subrange(0, n) =~= a.subrange(0, n));
            assert(complete_lines(a + b) =~= complete_lines(a) + complete_lines(unfinished(a) + b));
        }
    }
}

/// Cuts the bytes of a stream into lines, whatever the pieces in which the
/// bytes arrive.
pub struct StreamDecoder {
    pending: Vec<u8>,
}

impl StreamDecoder {
    /// The bytes that arrived after the last newline.
    pub closed spec fn pending(&self) -> Seq<u8> {
        self.pending@
    }

    /// A decoder that has seen no bytes.
    pub fn new() -> (r: Self)
        ensures
            r.pending() == Seq::<u8>::empty(),
    {
        StreamDecoder { pending: Vec::new() }
    }

    /// Takes the next piece of the stream and hands out the lines that are
    /// complete with it, in order. What follows the last newline is kept for
    /// the next piece.
    pub fn feed(&mut self, bytes: &[u8]) -> (r: Vec<Vec<u8>>)
        ensures
            line_views(r@) == complete_lines(old(self).pending() + bytes@),
            final(self).pending() == unfinished(old(self).pending() + bytes@),
    {
        let ghost data = self.pending@ + bytes@;
        let mut buffer: Vec<u8> = Vec::new();
        std::mem::swap(&mut self.pending, &mut buffer);
        let mut k: usize = 0;
        while k < bytes.len()
            invariant
                k <= bytes.len(),
                buffer@ == old(self).pending@ + bytes@.subrange(0, k as int),
            decreases bytes.len() - k,
        {
            buffer.push(bytes[k]);
            assert(bytes@.subrange(0, k + 1) =~= bytes@.subrange(0, k as int).push(bytes@[k as int]));
            k = k + 1;
        }
        assert(bytes@.subrange(0, bytes.len() as int) =~= bytes@);
        assert(buffer@ == data);
        let n = buffer.len();
        let mut lines: Vec<Vec<u8>> = Vec::new();
        let mut start: usize = 0;
        let mut i: usize = 0;
        assert(data.skip(0) =~= data);
        assert(line_views(lines@) + complete_lines(data) =~= complete_lines(data));
        while i < n
            invariant
                start <= i <= n,
                n == buffer.len(),
                buffer@ == data,
                forall|k: int| start <= k < i ==> data[k] != NEWLINE,
                line_views(lines@) + complete_lines(data.skip(start as int)) == complete_lines(data),
                unfinished(data.skip(start as int)) == unfinished(data),
            decreases n - i,
        {
            if buffer[i] == NEWLINE {
                let ghost tail = data.skip(start as int);
                proof {
                    assert forall|k: int| 0 <= k < i - start implies tail[k] != NEWLINE by {
                        assert(tail[k] == data[start + k]);
                    }
                    assert(tail[i - start] == data[i as int]);
                    lemma_offset_of_is(tail, NEWLINE, i - start);
                    assert(tail.skip(i - start + 1) =~= data.skip(i + 1));
                }
                if i > start {
                    let ghost before = lines@;
                    let line = copy_range(&buffer, start, i);
                    lines.push(line);
                    proof {
                        assert(line@ =~= tail.subrange(0, i - start));
                        assert(line_views(lines@) =~= line_views(before).push(line@));
                        assert(line_views(lines@) + complete_lines(data.skip(i + 1))
                            =~= line_views(before) + complete_lines(tail));
                    }
                }
                start = i + 1;
            }
            i = i + 1;
        }
        proof {
            let tail = data.skip(start as int);
            assert forall|k: int| 0 <= k < n - start implies tail[k] != NEWLINE by {
                assert(tail[k] == data[start + k]);
            }
            lemma_offset_of_is(tail, NEWLINE, n - start);
            assert(line_views(lines@) + complete_lines(tail) =~= line_views(lines@));
            assert(data.subrange(start as int, n as int) =~= tail);
        }
        self.pending = copy_range(&buffer, start, n);
        lines
    }

    /// Ends the stream and hands out the line that no newline ended, if
    /// there is one.
    pub fn finish(&mut self) -> (r: Option<Vec<u8>>)
        ensures
            final(self).pending() == Seq::<u8>::empty(),
            match r {
                Some(line) => line@ == old(self).pending() && line@.len() > 0,
                None => old(self).pending().len() == 0,
            },
    {
        let mut rest: Vec<u8> = Vec::new();
        std::mem::swap(&mut self.pending, &mut rest);
        if rest.len() > 0 {
            Some(rest)
        } else {
            None
        }
    }
}

/// `String::from_utf8`: the text that `bytes` encode, or the text of the
/// error where they are not valid UTF-8.
#[verifier::external_body]
fn text_of_bytes(bytes: Vec<u8>) -> (r: Result<String, String>)
    ensures
        r is Ok <==> vstd::utf8::valid_utf8(bytes@),
        r matches Ok(text) ==> text@ == vstd::utf8::decode_utf8(bytes@),
{
    match String::from_utf8(bytes) {
        Ok(text) => Ok(text),
        Err(e) => Err(e.to_string()),
    }
}

/// The text of one line of a streamed answer. Bytes that are not valid
/// UTF-8 are a failure of the backend.
pub fn chunk_text(line: Vec<u8>) -> (r: Result<String, ChatBackendError>)
    ensures
        r is Ok <==> vstd::utf8::valid_utf8(line@),
        r matches Ok(text) ==> text@ == vstd::utf8::decode_utf8(line@),
{
    match text_of_bytes(line) {
        Ok(text) => Ok(text),
        Err(message) => Err(ChatBackendError { message }),
    }
}

/// The part of an answer that a decoded line stands for, or the failure for
/// a line that could not be decoded. A part without a time has an empty
/// one.
pub fn parse_stream_chunk(decoded: Result<OllamaResponse, String>) -> (r: Result<
    ChatResponse,
    ChatBackendError,
>)
    ensures
        match decoded {
            Ok(part) => r matches Ok(chunk) && chunk@ == (ChatResponseView {
                message: part.message@,
                done: part.done,
                model: part.model@,
                created_at: match part.created_at {
                    Some(t) => t@,
                    None => Seq::empty(),
                },
            }),
            Err(failure) => r matches Err(e) && e.message == failure,
        },
{
    match decoded {
        Ok(part) => Ok(
            ChatResponse {
                message: part.message,
                done: part.done,
                model: part.model,
                created_at: match part.created_at {
                    Some(t) => t,
                    None => String::new(),
                },
            },
        ),
        Err(failure) => Err(ChatBackendError { message: failure }),
    }
}

/// How a call for a streamed answer began.
#[derive(Debug, PartialEq, Eq)]
pub enum StreamStart {
    /// The call did not get through; the text says why.
    Failed(String),
    /// The backend answered with a status that is not success; the text is
    /// the body of its answer.
    Rejected(String),
    /// The backend answers, piece by piece.
    Open,
}

/// The chat provider: where the backend is to be found.
#[derive(Debug, PartialEq, Eq)]
pub struct OllamaProvider {
    endpoint: String,
}

impl OllamaProvider {
    /// The address of the backend.
    pub closed spec fn endpoint(&self) -> Seq<char> {
        self.endpoint@
    }

    /// A provider for the backend at `endpoint`.
    pub fn new(endpoint: String) -> (r: Self)
        ensures
            r.endpoint() == endpoint@,
    {
        OllamaProvider { endpoint }
    }

    /// Where the list of models is asked for.
    pub fn tags_url(&self) -> (r: String)
        ensures
            r@ == self.endpoint() + "/api/tags"@,
    {
        concat(self.endpoint.as_str(), "/api/tags")
    }

    /// Where chats are sent.
    pub fn chat_url(&self) -> (r: String)
        ensures
            r@ == self.endpoint() + "/api/chat"@,
    {
        concat(self.endpoint.as_str(), "/api/chat")
    }

    /// The request for a chat with `model`.
    pub fn chat_request(&self, model: &str, messages: Vec<ChatMessage>) -> (r: ChatRequest)
        ensures
            r.model@ == model@,
            r.messages == messages,
    {
        ChatRequest { model: model.to_owned(), messages }
    }

    /// Takes what came back from a call: the body of a reply whose status
    /// says success. A call that failed keeps its failure; a reply whose
    /// status says otherwise fails with `what`, a colon and the body.
    pub fn accept_reply(&self, what: &str, reply: Result<HttpReply, String>) -> (r: Result<
        String,
        ChatBackendError,
    >)
        ensures
            match reply {
                Err(failure) => r matches Err(e) && e.message@ == failure@,
                Ok(reply) => if reply.success {
                    r matches Ok(body) && body@ == reply.body@
                } else {
                    r matches Err(e) && e.message@ == what@ + ": "@ + reply.body@
                },
            },
    {
        match reply {
            Err(failure) => Err(ChatBackendError { message: failure }),
            Ok(reply) => {
                if reply.success {
                    Ok(reply.body)
                } else {
                    Err(ChatBackendError { message: concat3(what, ": ", reply.body.as_str()) })
                }
            },
        }
    }

    /// The models that the backend listed, given its reply and, for a reply
    /// that was accepted, what its body decoded to.
    pub fn list_models(&self, decoded: Result<Vec<ModelInfo>, String>) -> (r: Result<
        Vec<ModelInfo>,
        ChatBackendError,
    >)
        ensures
            match decoded {
                Ok(models) => r == Ok::<Vec<ModelInfo>, ChatBackendError>(models),
                Err(failure) => r matches Err(e) && e.message == failure,
            },
    {
        match decoded {
            Ok(models) => Ok(models),
            Err(failure) => Err(ChatBackendError { message: failure }),
        }
    }

    /// Begins to take a streamed answer, given how the call for it began: a
    /// decoder for the bytes to come, or the failure that is the stream's
    /// only element.
    pub fn chat_stream(&self, start: StreamStart) -> (r: Result<StreamDecoder, ChatBackendError>)
        ensures
            match start {
                StreamStart::Failed(failure) => r matches Err(e) && e.message == failure,
                StreamStart::Rejected(body) => r matches Err(e) && e.message@
                    == "Chat stream failed: "@ + body@,
                StreamStart::Open => r matches Ok(decoder) && decoder.pending() == Seq::<
                    u8,
                >::empty(),
            },
    {
        match start {
            StreamStart::Failed(failure) => Err(ChatBackendError { message: failure }),
            StreamStart::Rejected(body) => Err(
                ChatBackendError { message: concat("Chat stream failed: ", body.as_str()) },
            ),
            StreamStart::Open => Ok(StreamDecoder::new()),
        }
    }

    /// Folds the elements of a streamed answer into one response. Contents
    /// are concatenated in the order of arrival; the result is always done;
    /// the first failure is the result.
    pub fn chat(&self, chunks: &Vec<Result<ChatResponse, ChatBackendError>>) -> (r: Result<
        ChatResponse,
        ChatBackendError,
    >)
        ensures
            chunk_view(r) == aggregate(chunk_views(chunks@)),
    {
        let ghost all = chunk_views(chunks@);
        let mut folder = ChatAggregator::new();
        let mut i: usize = 0;
        assert(all.skip(0) =~= all);
        while i < chunks.len()
            invariant
                i <= chunks.len(),
                all == chunk_views(chunks@),
                aggregate_from(folder@, all.skip(i as int)) == aggregate(all),
            decreases chunks.len() - i,
        {
            proof {
                assert(all.skip(i as int) =~= seq![chunk_view(chunks@[i as int])] + all.skip(
                    i + 1,
                ));
            }
            match folder.push(&chunks[i]) {
                Progress::Continue => {},
                Progress::Finished(outcome) => {
                    return outcome;
                },
            }
            i = i + 1;
        }
        assert(all.skip(chunks.len() as int) =~= Seq::<ChunkView>::empty());
        folder.finish()
    }
}

impl Default for OllamaProvider {
    /// The provider for a backend on this machine, at its usual port.
    fn default() -> (r: Self)
        ensures
            r.endpoint() == "http://localhost:11434"@,
    {
        OllamaProvider::new("http://localhost:11434".to_owned())
    }
}

} // verus!
