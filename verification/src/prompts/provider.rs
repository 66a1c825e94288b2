//! The prompt provider interface, and what every provider shares: checking
//! the supplied arguments and rendering a prompt's messages.

use crate::prompts::types::{
    render, substitute_template, Arguments, Error, ErrorView, MessageContent, MessageContentView,
    Prompt, PromptArgumentView, PromptMessage, PromptMessageView,
};
use crate::providers::{contents_views, ResourceError, ResourceErrorView, ResourceProvider};
use crate::types::{
    clone_opt_annotations, Annotations, ResourceContents, ResourceContentsView, Role,
};
use vstd::prelude::*;

verus! {

/// A source of prompts. An implementation decides where definitions come
/// from.
pub trait PromptProvider {
    /// The prompts on offer and, where there are more, a cursor for the next
    /// call.
    fn list_prompts(&self, cursor: Option<String>) -> Result<(Vec<Prompt>, Option<String>), Error>;

    /// The messages of the prompt `name`, rendered with `arguments`.
    fn get_prompt(&self, name: &str, arguments: Option<Arguments>) -> Result<
        Vec<PromptMessage>,
        Error,
    >;

    /// Checks `arguments` against what `prompt` declares.
    fn validate_arguments(&self, prompt: &Prompt, arguments: &Arguments) -> Result<(), Error>;
}

/// What a resource provider answered when asked for an embedded resource:
/// `None` where none was asked.
pub type ReadOutcome = Option<Result<Seq<ResourceContentsView>, ResourceErrorView>>;

/// The name of the first declared parameter that is required and was not
/// supplied.
pub open spec fn first_missing(
    declared: Seq<PromptArgumentView>,
    supplied: Map<Seq<char>, Seq<char>>,
) -> Option<Seq<char>>
    decreases declared.len(),
{
    if declared.len() == 0 {
        None
    } else if declared[0].required && !supplied.contains_key(declared[0].name) {
        Some(declared[0].name)
    } else {
        first_missing(declared.drop_first(), supplied)
    }
}

/// The resource that an embedded reference stands for once it is rendered:
/// the first of the contents that were read, or else the declared resource
/// under its rendered address.
pub open spec fn resolved_resource(
    declared: ResourceContentsView,
    uri: Seq<char>,
    read: ReadOutcome,
) -> ResourceContentsView {
    match read {
        Some(Ok(contents)) => if contents.len() > 0 {
            contents[0]
        } else {
            declared.with_uri(uri)
        },
        _ => declared.with_uri(uri),
    }
}

/// The error for content that cannot be rendered.
pub open spec fn unknown_content_message() -> Seq<char> {
    "Unknown content type: image"@
}

/// What rendering `message` with `args` gives, where `read` is what the
/// resource provider answered for the message's embedded resource.
pub open spec fn rendered_message(
    message: PromptMessageView,
    args: Map<Seq<char>, Seq<char>>,
    read: ReadOutcome,
) -> Result<PromptMessageView, ErrorView> {
    match message.content {
        MessageContentView::Text { text, annotations } => match render(text, args) {
            Ok(t) => Ok(
                PromptMessageView {
                    role: message.role,
                    content: MessageContentView::Text { text: t, annotations },
                },
            ),
            Err(e) => Err(e),
        },
        MessageContentView::Resource { kind, resource, annotations } => match render(
            resource.uri(),
            args,
        ) {
            Ok(u) => Ok(
                PromptMessageView {
                    role: message.role,
                    content: MessageContentView::Resource {
                        kind: "resource"@,
                        resource: resolved_resource(resource, u, read),
                        annotations,
                    },
                },
            ),
            Err(e) => Err(e),
        },
        MessageContentView::Image { .. } => Err(
            ErrorView::InvalidTemplate(unknown_content_message()),
        ),
    }
}

/// The error that rendering `message` with `args` ends in, if it fails. No
/// answer of a resource provider changes it.
pub open spec fn message_error(
    message: PromptMessageView,
    args: Map<Seq<char>, Seq<char>>,
) -> Option<ErrorView> {
    match rendered_message(message, args, None) {
        Ok(_) => None,
        Err(e) => Some(e),
    }
}

/// The error of the first of `messages` that fails to render.
pub open spec fn first_message_error(
    messages: Seq<PromptMessageView>,
    args: Map<Seq<char>, Seq<char>>,
) -> Option<ErrorView>
    decreases messages.len(),
{
    if messages.len() == 0 {
        None
    } else if message_error(messages[0], args) is Some {
        message_error(messages[0], args)
    } else {
        first_message_error(messages.drop_first(), args)
    }
}

/// Whether `result` is what rendering `message` with `args` gives for some
/// answer of the resource provider; without a provider, for no answer.
pub open spec fn renders_as(
    message: PromptMessageView,
    args: Map<Seq<char>, Seq<char>>,
    provided: bool,
    result: Result<PromptMessageView, ErrorView>,
) -> bool {
    exists|read: ReadOutcome|
        (!provided ==> read is None) && #[trigger] rendered_message(message, args, read) == result
}

/// The arguments that count where a caller may supply none.
pub open spec fn supplied(arguments: Option<&Arguments>) -> Map<Seq<char>, Seq<char>> {
    match arguments {
        Some(a) => a@,
        None => Map::empty(),
    }
}

/// The view of a rendering result.
pub open spec fn message_result_view(r: Result<PromptMessage, Error>) -> Result<
    PromptMessageView,
    ErrorView,
> {
    match r {
        Ok(m) => Ok(m@),
        Err(e) => Err(e@),
    }
}

/// The view of what a resource provider answered.
pub open spec fn read_view(read: Option<Result<Vec<ResourceContents>, ResourceError>>) -> ReadOutcome {
    match read {
        Some(Ok(contents)) => Some(Ok(contents_views(contents@))),
        Some(Err(e)) => Some(Err(e@)),
        None => None,
    }
}

/// Checks that every required parameter of `prompt` was supplied. The error
/// names the first that was not, in the order of declaration.
pub fn validate_required_arguments(prompt: &Prompt, arguments: &Arguments) -> (r: Result<
    (),
    Error,
>)
    ensures
        match r {
            Ok(_) => first_missing(prompt@.arguments, arguments@) is None,
            Err(e) => first_missing(prompt@.arguments, arguments@) matches Some(name) && e@
                == ErrorView::MissingRequiredArgument(name),
        },
{
    let ghost declared = prompt@.arguments;
    let mut i: usize = 0;
    assert(declared.skip(0) =~= declared);
    while i < prompt.arguments.len()
        invariant
            i <= prompt.arguments.len(),
            declared == prompt@.arguments,
            declared.len() == prompt.arguments.len(),
            first_missing(declared, arguments@) == first_missing(
                declared.skip(i as int),
                arguments@,
            ),
        decreases prompt.arguments.len() - i,
    {
        let arg = &prompt.arguments[i];
        proof {
            assert(declared.skip(i as int)[0] == arg@);
            assert(declared.skip(i as int).drop_first() =~= declared.skip(i + 1));
        }
        if arg.required && !arguments.contains_key(arg.name.as_str()) {
            return Err(Error::MissingRequiredArgument(arg.name.clone()));
        }
        i = i + 1;
    }
    Ok(())
}

/// The message that stands for an embedded resource once its address is
/// rendered as `uri` and the resource provider answered `read`.
pub fn resolve_resource_message(
    role: Role,
    declared: &ResourceContents,
    annotations: &Option<Annotations>,
    uri: String,
    read: Option<Result<Vec<ResourceContents>, ResourceError>>,
) -> (r: PromptMessage)
    ensures
        r@ == (PromptMessageView {
            role,
            content: MessageContentView::Resource {
                kind: "resource"@,
                resource: resolved_resource(declared@, uri@, read_view(read)),
                annotations: crate::types::opt_annotations(*annotations),
            },
        }),
{
    let resource = match read {
        Some(Ok(contents)) => {
            if contents.len() > 0 {
                contents[0].clone()
            } else {
                let mut fallback = declared.clone();
                fallback.set_uri(uri);
                fallback
            }
        },
        _ => {
            let mut fallback = declared.clone();
            fallback.set_uri(uri);
            fallback
        },
    };
    PromptMessage {
        role,
        content: MessageContent::Resource {
            kind: "resource".to_owned(),
            resource,
            annotations: clone_opt_annotations(annotations),
        },
    }
}

/// Renders one message with `arguments`. Text has its placeholders replaced.
/// An embedded resource has the placeholders of its address replaced and,
/// where a provider is given, is read through it; whatever the provider
/// answers, rendering goes on, with the reference itself where nothing was
/// read.
pub fn process_message_template<R: ResourceProvider>(
    message: &PromptMessage,
    arguments: &Arguments,
    resource_provider: Option<&R>,
) -> (r: Result<PromptMessage, Error>)
    ensures
        renders_as(message@, arguments@, resource_provider is Some, message_result_view(r)),
        r matches Err(e) ==> message_error(message@, arguments@) == Some(e@),
        r is Ok ==> message_error(message@, arguments@) is None,
{
    match &message.content {
        MessageContent::Text { text, annotations } => {
            match substitute_template(text.as_str(), arguments) {
                Ok(processed) => {
                    let out = PromptMessage {
                        role: message.role,
                        content: MessageContent::Text {
                            text: processed,
                            annotations: clone_opt_annotations(annotations),
                        },
                    };
                    assert(rendered_message(message@, arguments@, None) == message_result_view(
                        Ok(out),
                    ));
                    Ok(out)
                },
                Err(e) => {
                    assert(rendered_message(message@, arguments@, None) == message_result_view(
                        Err(e),
                    ));
                    Err(e)
                },
            }
        },
        MessageContent::Resource { kind, resource, annotations } => {
            match substitute_template(resource.uri(), arguments) {
                Ok(uri) => {
                    let read = match resource_provider {
                        Some(provider) => Some(provider.read(uri.as_str())),
                        None => None,
                    };
                    let ghost outcome = read_view(read);
                    let out = resolve_resource_message(
                        message.role,
                        resource,
                        annotations,
                        uri,
                        read,
                    );
                    assert(rendered_message(message@, arguments@, outcome) == message_result_view(
                        Ok(out),
                    ));
                    Ok(out)
                },
                Err(e) => {
                    assert(rendered_message(message@, arguments@, None) == message_result_view(
                        Err(e),
                    ));
                    Err(e)
                },
            }
        },
        MessageContent::Image { .. } => {
            let e = Error::InvalidTemplate("Unknown content type: image".to_owned());
            assert(rendered_message(message@, arguments@, None) == message_result_view(Err(e)));
            Err(e)
        },
    }
}

/// Renders every message of `prompt` with `arguments`, in order, after
/// checking that the required arguments are there. The first failure ends
/// the rendering.
pub fn process_prompt_messages<R: ResourceProvider>(
    prompt: &Prompt,
    arguments: Option<&Arguments>,
    resource_provider: Option<&R>,
) -> (r: Result<Vec<PromptMessage>, Error>)
    ensures
        match r {
            Ok(v) => {
                &&& first_missing(prompt@.arguments, supplied(arguments)) is None
                &&& first_message_error(prompt@.messages, supplied(arguments)) is None
                &&& v.len() == prompt.messages.len()
                &&& forall|i: int|
                    0 <= i < v.len() ==> renders_as(
                        #[trigger] prompt@.messages[i],
                        supplied(arguments),
                        resource_provider is Some,
                        Ok(v[i]@),
                    )
            },
            Err(e) => match first_missing(prompt@.arguments, supplied(arguments)) {
                Some(name) => e@ == ErrorView::MissingRequiredArgument(name),
                None => first_message_error(prompt@.messages, supplied(arguments)) == Some(e@),
            },
        },
{
    let empty = Arguments::new();
    let args: &Arguments = match arguments {
        Some(a) => a,
        None => &empty,
    };
    assert(args@ == supplied(arguments));
    match validate_required_arguments(prompt, args) {
        Err(e) => {
            return Err(e);
        },
        Ok(_) => {},
    }
    let ghost all = prompt@.messages;
    let mut processed: Vec<PromptMessage> = Vec::new();
    let mut i: usize = 0;
    assert(all.skip(0) =~= all);
    while i < prompt.messages.len()
        invariant
            i <= prompt.messages.len(),
            all == prompt@.messages,
            all.len() == prompt.messages.len(),
            args@ == supplied(arguments),
            first_missing(prompt@.arguments, args@) is None,
            processed.len() == i,
            first_message_error(all, args@) == first_message_error(all.skip(i as int), args@),
            forall|k: int|
                0 <= k < i ==> renders_as(
                    #[trigger] all[k],
                    args@,
                    resource_provider is Some,
                    Ok(processed[k]@),
                ),
        decreases prompt.messages.len() - i,
    {
        let message = &prompt.messages[i];
        proof {
            assert(all.skip(i as int)[0] == message@);
            assert(all.skip(i as int).drop_first() =~= all.skip(i + 1));
        }
        match process_message_template(message, args, resource_provider) {
            Ok(m) => {
                processed.push(m);
            },
            Err(e) => {
                return Err(e);
            },
        }
        i = i + 1;
    }
    Ok(processed)
}

/// A prompt fails the check of its arguments exactly when some parameter is
/// required and was not supplied.
pub proof fn lemma_missing_iff_required_absent(
    declared: Seq<PromptArgumentView>,
    supplied: Map<Seq<char>, Seq<char>>,
)
    ensures
        first_missing(declared, supplied) is Some <==> exists|i: int|
            0 <= i < declared.len() && (#[trigger] declared[i]).required && !supplied.contains_key(
                declared[i].name,
            ),
    decreases declared.len(),
{
    if declared.len() == 0 {
    } else {
        let rest = declared.drop_first();
        lemma_missing_iff_required_absent(rest, supplied);
        if declared[0].required && !supplied.contains_key(declared[0].name) {
        } else {
            if first_missing(rest, supplied) is Some {
                let i = choose|i: int|
                    0 <= i < rest.len() && (#[trigger] rest[i]).required && !supplied.contains_key(
                        rest[i].name,
                    );
                assert(declared[i + 1] == rest[i]);
            }
            if exists|i: int|
                0 <= i < declared.len() && (#[trigger] declared[i]).required
                    && !supplied.contains_key(declared[i].name) {
                let i = choose|i: int|
                    0 <= i < declared.len() && (#[trigger] declared[i]).required
                        && !supplied.contains_key(declared[i].name);
                assert(i > 0);
                assert(rest[i - 1] == declared[i]);
            }
        }
    }
}

/// Arguments that pass the check still pass it when more are supplied: an
/// argument that no parameter asks for never makes the check fail.
pub proof fn lemma_extra_arguments_never_fail(
    declared: Seq<PromptArgumentView>,
    supplied: Map<Seq<char>, Seq<char>>,
    more: Map<Seq<char>, Seq<char>>,
)
    requires
        first_missing(declared, supplied) is None,
        forall|k: Seq<char>| supplied.contains_key(k) ==> more.contains_key(k),
    ensures
        first_missing(declared, more) is None,
    decreases declared.len(),
{
    if declared.len() > 0 {
        lemma_extra_arguments_never_fail(declared.drop_first(), supplied, more);
    }
}

} // verus!
