//! Prompt definitions, the arguments a caller supplies, and template
//! substitution.

use crate::text::{
    chars_of, concat, contains_char, lemma_offset_of, lemma_offset_of_is, offset_of,
    string_of_range,
};
use crate::types::{
    clone_opt_text, opt_annotations, opt_text, Annotations, AnnotationsView, ResourceContents,
    ResourceContentsView, Role,
};
use vstd::hash_map::StringHashMap;
use vstd::prelude::*;
use vstd::string::StringExecFns;

verus! {

/// One parameter of a prompt.
#[derive(Debug, PartialEq, Eq)]
pub struct PromptArgument {
    pub name: String,
    pub description: Option<String>,
    pub required: bool,
}

/// The view of `PromptArgument`: what the contracts see of it, with texts as sequences of
/// characters.
pub struct PromptArgumentView {
    pub name: Seq<char>,
    pub description: Option<Seq<char>>,
    pub required: bool,
}

impl View for PromptArgument {
    type V = PromptArgumentView;

    open spec fn view(&self) -> PromptArgumentView {
        PromptArgumentView {
            name: self.name@,
            description: opt_text(self.description),
            required: self.required,
        }
    }
}

impl Clone for PromptArgument {
    fn clone(&self) -> (r: Self)
        ensures
            r == *self,
    {
        PromptArgument {
            name: self.name.clone(),
            description: clone_opt_text(&self.description),
            required: self.required,
        }
    }
}

/// What a message holds: text, an image, or an embedded resource.
#[derive(Debug, PartialEq, Eq)]
pub enum MessageContent {
    Text { text: String, annotations: Option<Annotations> },
    Image { data: Vec<u8>, mime_type: String, annotations: Option<Annotations> },
    Resource { kind: String, resource: ResourceContents, annotations: Option<Annotations> },
}

/// The view of `MessageContent`: what the contracts see of it, with texts as sequences of
/// characters.
pub enum MessageContentView {
    Text { text: Seq<char>, annotations: Option<AnnotationsView> },
    Image { data: Seq<u8>, mime_type: Seq<char>, annotations: Option<AnnotationsView> },
    Resource { kind: Seq<char>, resource: ResourceContentsView, annotations: Option<AnnotationsView> },
}

impl View for MessageContent {
    type V = MessageContentView;

    open spec fn view(&self) -> MessageContentView {
        match self {
            MessageContent::Text { text, annotations } => MessageContentView::Text {
                text: text@,
                annotations: opt_annotations(*annotations),
            },
            MessageContent::Image { data, mime_type, annotations } => MessageContentView::Image {
                data: data@,
                mime_type: mime_type@,
                annotations: opt_annotations(*annotations),
            },
            MessageContent::Resource { kind, resource, annotations } => MessageContentView::Resource {
                kind: kind@,
                resource: resource@,
                annotations: opt_annotations(*annotations),
            },
        }
    }
}

impl MessageContent {
    /// Text content without annotations.
    pub fn with_text(text: String) -> (r: Self)
        ensures
            r == (MessageContent::Text { text, annotations: None }),
    {
        MessageContent::Text { text, annotations: None }
    }

    /// An embedded resource without annotations.
    pub fn with_resource(resource: ResourceContents) -> (r: Self)
        ensures
            r@ == (MessageContentView::Resource {
                kind: "resource"@,
                resource: resource@,
                annotations: None,
            }),
    {
        MessageContent::Resource { kind: "resource".to_owned(), resource, annotations: None }
    }
}

/// One message of a prompt: who speaks, and what.
#[derive(Debug, PartialEq, Eq)]
pub struct PromptMessage {
    pub role: Role,
    pub content: MessageContent,
}

/// The view of `PromptMessage`: what the contracts see of it, with texts as sequences of
/// characters.
pub struct PromptMessageView {
    pub role: Role,
    pub content: MessageContentView,
}

impl View for PromptMessage {
    type V = PromptMessageView;

    open spec fn view(&self) -> PromptMessageView {
        PromptMessageView { role: self.role, content: self.content@ }
    }
}

/// The views of a list of messages.
pub open spec fn message_views(v: Seq<PromptMessage>) -> Seq<PromptMessageView> {
    v.map_values(|m: PromptMessage| m@)
}

/// A prompt definition. Its name is the stem of the file that defines it.
#[derive(Debug, PartialEq, Eq)]
pub struct Prompt {
    pub name: String,
    pub description: Option<String>,
    pub arguments: Vec<PromptArgument>,
    pub messages: Vec<PromptMessage>,
}

/// The view of `Prompt`: what the contracts see of it, with texts as sequences of
/// characters.
pub struct PromptView {
    pub name: Seq<char>,
    pub description: Option<Seq<char>>,
    pub arguments: Seq<PromptArgumentView>,
    pub messages: Seq<PromptMessageView>,
}

/// The views of a list of parameters.
pub open spec fn argument_views(v: Seq<PromptArgument>) -> Seq<PromptArgumentView> {
    v.map_values(|a: PromptArgument| a@)
}

impl View for Prompt {
    type V = PromptView;

    open spec fn view(&self) -> PromptView {
        PromptView {
            name: self.name@,
            description: opt_text(self.description),
            arguments: argument_views(self.arguments@),
            messages: message_views(self.messages@),
        }
    }
}

/// Why a prompt operation failed. Each variant carries a message for the
/// reader.
#[derive(Debug, PartialEq, Eq)]
pub enum Error {
    /// No prompt of that name exists.
    PromptNotFound(String),
    /// A required argument was not supplied; the message is its name.
    MissingRequiredArgument(String),
    /// The definition or the rendered text is not acceptable.
    InvalidTemplate(String),
    /// An embedded resource could not be loaded.
    ResourceError(String),
    /// The store failed; the message is the failure's own text.
    IoError(String),
    /// The definition could not be parsed; the message is the parser's own
    /// text.
    YamlError(String),
}

/// The view of `Error`: what the contracts see of it, with texts as sequences of
/// characters.
pub enum ErrorView {
    PromptNotFound(Seq<char>),
    MissingRequiredArgument(Seq<char>),
    InvalidTemplate(Seq<char>),
    ResourceError(Seq<char>),
    IoError(Seq<char>),
    YamlError(Seq<char>),
}

impl View for Error {
    type V = ErrorView;

    open spec fn view(&self) -> ErrorView {
        match self {
            Error::PromptNotFound(m) => ErrorView::PromptNotFound(m@),
            Error::MissingRequiredArgument(m) => ErrorView::MissingRequiredArgument(m@),
            Error::InvalidTemplate(m) => ErrorView::InvalidTemplate(m@),
            Error::ResourceError(m) => ErrorView::ResourceError(m@),
            Error::IoError(m) => ErrorView::IoError(m@),
            Error::YamlError(m) => ErrorView::YamlError(m@),
        }
    }
}

impl ErrorView {
    /// The error as one line of text: what kind it is, then its message.
    pub open spec fn message(self) -> Seq<char> {
        match self {
            ErrorView::PromptNotFound(m) => "Prompt not found: "@ + m,
            ErrorView::MissingRequiredArgument(m) => "Missing required argument: "@ + m,
            ErrorView::InvalidTemplate(m) => "Invalid template: "@ + m,
            ErrorView::ResourceError(m) => "Resource error: "@ + m,
            ErrorView::IoError(m) => "IO error: "@ + m,
            ErrorView::YamlError(m) => "YAML error: "@ + m,
        }
    }
}

impl Error {
    /// The error as one line of text: what kind it is, then its message.
    pub fn message(&self) -> (r: String)
        ensures
            r@ == self@.message(),
    {
        match self {
            Error::PromptNotFound(m) => concat("Prompt not found: ", m.as_str()),
            Error::MissingRequiredArgument(m) => concat("Missing required argument: ", m.as_str()),
            Error::InvalidTemplate(m) => concat("Invalid template: ", m.as_str()),
            Error::ResourceError(m) => concat("Resource error: ", m.as_str()),
            Error::IoError(m) => concat("IO error: ", m.as_str()),
            Error::YamlError(m) => concat("YAML error: ", m.as_str()),
        }
    }
}

/// The values that a caller supplies for a prompt's parameters, by name.
pub struct Arguments {
    entries: StringHashMap<String>,
}

impl View for Arguments {
    type V = Map<Seq<char>, Seq<char>>;

    closed spec fn view(&self) -> Map<Seq<char>, Seq<char>> {
        self.entries@.map_values(|v: String| v@)
    }
}

impl Arguments {
    /// No argument supplied.
    pub fn new() -> (r: Self)
        ensures
            r@ == Map::<Seq<char>, Seq<char>>::empty(),
    {
        let r = Arguments { entries: StringHashMap::new() };
        assert(r@ =~= Map::<Seq<char>, Seq<char>>::empty());
        r
    }

    /// Supplies `value` for `name`, in place of an earlier value for it.
    pub fn insert(&mut self, name: String, value: String)
        ensures
            final(self)@ == old(self)@.insert(name@, value@),
    {
        self.entries.insert(name, value);
        assert(self@ =~= old(self)@.insert(name@, value@));
    }

    /// Whether a value was supplied for `name`.
    pub fn contains_key(&self, name: &str) -> (r: bool)
        ensures
            r == self@.contains_key(name@),
    {
        self.entries.contains_key(name)
    }

    /// The value supplied for `name`, if any.
    pub fn get(&self, name: &str) -> (r: Option<&String>)
        ensures
            match r {
                Some(v) => self@.contains_key(name@) && v@ == self@[name@],
                None => !self@.contains_key(name@),
            },
    {
        self.entries.get(name)
    }

    /// Whether nothing was supplied.
    pub fn is_empty(&self) -> (r: bool)
        ensures
            r == (self@ == Map::<Seq<char>, Seq<char>>::empty()),
    {
        let r = self.entries.is_empty();
        proof {
            if r {
                assert(self@ =~= Map::<Seq<char>, Seq<char>>::empty());
            } else {
                let k = choose|k: Seq<char>| self.entries@.contains_key(k);
                assert(self@.contains_key(k));
            }
        }
        r
    }
}

/// How many characters stand before the first `}` of `t`; the length of `t`
/// where it holds none.
pub open spec fn close_offset(t: Seq<char>) -> nat {
    offset_of(t, '}')
}

/// Whether `t` begins with a placeholder whose key was supplied: a `{`, a
/// key without `}` that `args` knows, and a `}`.
pub open spec fn starts_with_known_placeholder(
    t: Seq<char>,
    args: Map<Seq<char>, Seq<char>>,
) -> bool {
    &&& t.len() > 0
    &&& t[0] == '{'
    &&& close_offset(t.drop_first()) + 1 < t.len()
    &&& args.contains_key(t.subrange(1, 1 + close_offset(t.drop_first()) as int))
}

/// The template `t` with each placeholder whose key was supplied replaced by
/// the key's value, in one pass from left to right. A value that was put in
/// is not looked at again.
pub open spec fn expand(t: Seq<char>, args: Map<Seq<char>, Seq<char>>) -> Seq<char>
    decreases t.len(),
{
    if t.len() == 0 {
        Seq::empty()
    } else if starts_with_known_placeholder(t, args) {
        let k = close_offset(t.drop_first()) as int;
        args[t.subrange(1, 1 + k)] + expand(t.skip(k + 2), args)
    } else {
        seq![t[0]] + expand(t.drop_first(), args)
    }
}

/// Whether `s` still holds both kinds of brace, so that a placeholder may be
/// left in it.
pub open spec fn unresolved(s: Seq<char>) -> bool {
    s.contains('{') && s.contains('}')
}

/// Whether `s` holds a `{` with a `}` somewhere after it.
pub open spec fn has_placeholder(s: Seq<char>) -> bool {
    exists|i: int, j: int| 0 <= i < j < s.len() && s[i] == '{' && s[j] == '}'
}

/// The text of the error for a rendered template that still holds braces.
pub open spec fn unresolved_message() -> Seq<char> {
    "Template contains unsubstituted placeholders"@
}

/// What rendering `template` with `args` gives: the expanded text, or the
/// error for text that still holds both kinds of brace.
pub open spec fn render(template: Seq<char>, args: Map<Seq<char>, Seq<char>>) -> Result<
    Seq<char>,
    ErrorView,
> {
    let out = expand(template, args);
    if unresolved(out) {
        Err(ErrorView::InvalidTemplate(unresolved_message()))
    } else {
        Ok(out)
    }
}

/// The placeholder for `key`: the key between braces.
pub open spec fn placeholder(key: Seq<char>) -> Seq<char> {
    seq!['{'] + key + seq!['}']
}

/// Text that rendering accepts holds no `{` with a `}` after it.
pub proof fn lemma_rendered_has_no_placeholder(
    template: Seq<char>,
    args: Map<Seq<char>, Seq<char>>,
)
    ensures
        render(template, args) matches Ok(s) ==> !has_placeholder(s),
{
    let out = expand(template, args);
    if !unresolved(out) && has_placeholder(out) {
        let (i, j) = choose|i: int, j: int|
            0 <= i < j < out.len() && out[i] == '{' && out[j] == '}';
        assert(out.contains('{'));
        assert(out.contains('}'));
    }
}

/// Where the first `}` of `a` lies inside `a`, text put after `a` does not
/// move it.
proof fn lemma_close_offset_within(a: Seq<char>, b: Seq<char>)
    requires
        close_offset(a) < a.len(),
    ensures
        close_offset(a + b) == close_offset(a),
{
    lemma_offset_of(a, '}');
    let n = close_offset(a) as int;
    assert forall|k: int| 0 <= k < n implies (a + b)[k] != '}' by {
        assert((a + b)[k] == a[k]);
    }
    assert((a + b)[n] == a[n]);
    lemma_offset_of_is(a + b, '}', n);
}

/// Every placeholder whose key was supplied is replaced by the key's value,
/// as it stands, and what is around it is expanded by itself. This holds
/// where no supplied key holds a `{` and the key holds no `}`.
pub proof fn lemma_known_placeholder_is_replaced(
    pre: Seq<char>,
    key: Seq<char>,
    post: Seq<char>,
    args: Map<Seq<char>, Seq<char>>,
)
    requires
        args.contains_key(key),
        !key.contains('}'),
        forall|k: Seq<char>| args.contains_key(k) ==> !k.contains('{'),
    ensures
        expand(pre + placeholder(key) + post, args) == expand(pre, args) + args[key] + expand(
            post,
            args,
        ),
    decreases pre.len(),
{
    let t = pre + placeholder(key) + post;
    let rest = t.drop_first();
    if pre.len() == 0 {
        assert(t =~= placeholder(key) + post);
        assert forall|k: int| 0 <= k < key.len() implies rest[k] != '}' by {
            assert(rest[k] == key[k]);
            assert(key.contains(key[k]));
        }
        assert(rest[key.len() as int] == '}');
        lemma_offset_of_is(rest, '}', key.len() as int);
        assert(t.subrange(1, 1 + key.len() as int) =~= key);
        assert(t.skip(key.len() as int + 2) =~= post);
        assert(starts_with_known_placeholder(t, args));
        assert(expand(pre, args) =~= Seq::<char>::empty());
        assert(expand(t, args) =~= expand(pre, args) + args[key] + expand(post, args));
    } else {
        let p = pre.len() as int;
        let inner = pre.drop_first();
        assert(t[0] == pre[0]);
        assert(t[p] == '{');
        assert(rest =~= inner + placeholder(key) + post);
        if starts_with_known_placeholder(t, args) {
            let k = close_offset(rest) as int;
            let found = t.subrange(1, 1 + k);
            lemma_offset_of(rest, '}');
            assert(rest[k] == '}');
            assert(t[1 + k] == '}');
            if 1 + k > p {
                assert(found[p - 1] == t[p]);
                assert(found.contains('{'));
            }
            assert(1 + k < p);
            assert forall|m: int| 0 <= m < k implies inner[m] != '}' by {
                assert(inner[m] == rest[m]);
            }
            assert(inner[k] == rest[k]);
            lemma_offset_of_is(inner, '}', k);
            assert(pre.subrange(1, 1 + k) =~= found);
            assert(starts_with_known_placeholder(pre, args));
            assert(t.skip(k + 2) =~= pre.skip(k + 2) + placeholder(key) + post);
            lemma_known_placeholder_is_replaced(pre.skip(k + 2), key, post, args);
            assert(expand(t, args) =~= expand(pre, args) + args[key] + expand(post, args));
        } else {
            if starts_with_known_placeholder(pre, args) {
                let k = close_offset(inner) as int;
                lemma_close_offset_within(inner, placeholder(key) + post);
                assert(inner + (placeholder(key) + post) =~= rest);
                assert(t.subrange(1, 1 + k) =~= pre.subrange(1, 1 + k));
                assert(false);
            }
            lemma_known_placeholder_is_replaced(inner, key, post, args);
            assert(expand(t, args) =~= expand(pre, args) + args[key] + expand(post, args));
        }
    }
}

/// Replaces each `{key}` of `template` whose key `arguments` holds by the
/// key's value, in one pass. Text that still holds `{` and `}` afterwards is
/// refused.
pub fn substitute_template(template: &str, arguments: &Arguments) -> (r: Result<String, Error>)
    ensures
        match r {
            Ok(s) => render(template@, arguments@) == Ok::<Seq<char>, ErrorView>(s@),
            Err(e) => render(template@, arguments@) == Err::<Seq<char>, ErrorView>(e@),
        },
{
    let chars = chars_of(template);
    let n = chars.len();
    let mut out = String::new();
    let mut i: usize = 0;
    assert(chars@.skip(0) =~= chars@);
    assert(out@ + expand(chars@, arguments@) =~= expand(chars@, arguments@));
    while i < n
        invariant
            n == chars.len(),
            i <= n,
            chars@ == template@,
            out@ + expand(chars@.skip(i as int), arguments@) == expand(chars@, arguments@),
        decreases n - i,
    {
        let ghost t = chars@.skip(i as int);
        let mut matched = false;
        if chars[i] == '{' {
            let mut j: usize = i + 1;
            while j < n && chars[j] != '}'
                invariant
                    n == chars.len(),
                    i < j <= n,
                    forall|k: int| i < k < j ==> chars@[k] != '}',
                decreases n - j,
            {
                j = j + 1;
            }
            proof {
                let rest = t.drop_first();
                assert forall|k: int| 0 <= k < j - i - 1 implies rest[k] != '}' by {
                    assert(rest[k] == chars@[i + 1 + k]);
                }
                if j < n {
                    assert(rest[j - i - 1] == chars@[j as int]);
                }
                lemma_offset_of_is(rest, '}', j - i - 1);
            }
            if j < n {
                let key = string_of_range(&chars, i + 1, j);
                assert(key@ =~= t.subrange(1, 1 + close_offset(t.drop_first()) as int));
                match arguments.get(key.as_str()) {
                    Some(value) => {
                        let ghost before = out@;
                        out.append(value.as_str());
                        proof {
                            lemma_offset_of(t.drop_first(), '}');
                            assert(starts_with_known_placeholder(t, arguments@));
                            assert(t.skip(j - i + 1) =~= chars@.skip(j + 1));
                            assert(out@ + expand(chars@.skip(j + 1), arguments@) =~= before
                                + expand(t, arguments@));
                        }
                        i = j + 1;
                        matched = true;
                    },
                    None => {},
                }
            }
        }
        if !matched {
            proof {
                assert(!starts_with_known_placeholder(t, arguments@));
                assert(t.drop_first() =~= chars@.skip(i + 1));
                assert(t[0] == chars@[i as int]);
            }
            let ghost before = out@;
            out.push(chars[i]);
            proof {
                assert(out@ + expand(chars@.skip(i + 1), arguments@) =~= before + expand(
                    t,
                    arguments@,
                ));
            }
            i = i + 1;
        }
    }
    assert(chars@.skip(n as int) =~= Seq::<char>::empty());
    assert(out@ =~= expand(template@, arguments@));
    let rendered = chars_of(out.as_str());
    if contains_char(&rendered, '{') && contains_char(&rendered, '}') {
        Err(Error::InvalidTemplate("Template contains unsubstituted placeholders".to_owned()))
    } else {
        Ok(out)
    }
}

} // verus!
