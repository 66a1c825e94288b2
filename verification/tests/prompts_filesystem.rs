use pylon::prompts::types::{
    Arguments, Error, MessageContent, Prompt, PromptArgument, PromptMessage,
};
use pylon::prompts::FileSystemPromptProvider;
use pylon::providers::{ResourceError, ResourceProvider};
use pylon::types::{Annotations, Resource, ResourceContents, Role, TextResourceContents};

/// A resource provider that serves one file.
struct OneFile {
    path: String,
    text: String,
}

impl ResourceProvider for OneFile {
    fn name(&self) -> &'static str {
        "one-file"
    }

    fn list(&self, _path: &str) -> Result<Vec<Resource>, ResourceError> {
        Ok(Vec::new())
    }

    fn read(&self, path: &str) -> Result<Vec<ResourceContents>, ResourceError> {
        if path == self.path {
            Ok(vec![ResourceContents::Text(TextResourceContents {
                uri: path.to_string(),
                mime_type: Some("text/plain".to_string()),
                text: self.text.clone(),
            })])
        } else {
            Err(ResourceError::NotFound(path.to_string()))
        }
    }

    fn watch(&self, _path: &str) -> Result<(), ResourceError> {
        Ok(())
    }

    fn unwatch(&self, _path: &str) -> Result<(), ResourceError> {
        Ok(())
    }
}

fn provider() -> FileSystemPromptProvider {
    FileSystemPromptProvider::new("/store")
}

fn argument(name: &str, required: bool) -> PromptArgument {
    PromptArgument { name: name.to_string(), description: None, required }
}

fn user_text(text: &str) -> PromptMessage {
    PromptMessage {
        role: Role::User,
        content: MessageContent::Text { text: text.to_string(), annotations: None },
    }
}

fn prompt(name: &str, arguments: Vec<PromptArgument>, messages: Vec<PromptMessage>) -> Prompt {
    Prompt { name: name.to_string(), description: None, arguments, messages }
}

fn described(name: &str, description: &str) -> Prompt {
    Prompt {
        name: name.to_string(),
        description: Some(description.to_string()),
        arguments: vec![],
        messages: vec![],
    }
}

fn text_of(message: &PromptMessage) -> &str {
    match &message.content {
        MessageContent::Text { text, .. } => text,
        _ => panic!("Expected TextContent"),
    }
}

#[test]
fn test_load_prompt() {
    let provider = provider();
    let defined = Prompt {
        name: "test".to_string(),
        description: Some("Test prompt".to_string()),
        arguments: vec![argument("arg1", true)],
        messages: vec![user_text("Hello {arg1}!")],
    };

    let prompt = provider.load_prompt("test", Ok(defined)).unwrap();
    assert_eq!(prompt.name, "test");
    assert_eq!(prompt.description, Some("Test prompt".to_string()));
    assert_eq!(prompt.arguments.len(), 1);
    assert_eq!(prompt.messages.len(), 1);
}

#[test]
fn a_definition_must_carry_the_name_that_was_asked_for() {
    let provider = provider();
    assert_eq!(
        provider.load_prompt("asked", Ok(described("other", "d"))),
        Err(Error::InvalidTemplate(
            "Prompt name mismatch: expected asked, found other".to_string()
        ))
    );
    assert_eq!(
        provider.load_prompt("asked", Err(Error::IoError("no such file".to_string()))),
        Err(Error::IoError("no such file".to_string()))
    );
    assert_eq!(
        provider.get_prompt::<OneFile>("asked", Ok(described("other", "d")), None, None),
        Err(Error::InvalidTemplate(
            "Prompt name mismatch: expected asked, found other".to_string()
        ))
    );
}

#[test]
fn filesystem_test_list_prompts() {
    let provider = provider();

    let (prompts, cursor) = provider.list_prompts(
        None,
        vec![
            Ok(described("test1", "First test prompt")),
            Ok(described("test2", "Second test prompt")),
        ],
    );
    assert_eq!(prompts.len(), 2);
    assert!(cursor.is_none());

    assert_eq!(prompts[0].name, "test1");
    assert_eq!(prompts[1].name, "test2");
}

#[test]
fn test_list_prompts_from_directory() {
    let provider = provider();

    let (prompts, cursor) = provider.list_prompts(
        None,
        vec![
            Ok(described("prompt2", "Second test prompt")),
            Ok(described("prompt1", "First test prompt")),
        ],
    );
    assert_eq!(prompts.len(), 2);
    assert!(cursor.is_none());

    let names: Vec<_> = prompts.iter().map(|p| &p.name).collect();
    assert!(names.contains(&&"prompt1".to_string()));
    assert!(names.contains(&&"prompt2".to_string()));
}

#[test]
fn prompts_are_listed_by_name_whatever_the_order_of_the_store() {
    let provider = provider();
    let names = ["b", "a", "c", "B", "ab", "", "é", "a0"];
    let forward: Vec<_> = names.iter().map(|n| Ok(described(n, "d"))).collect();
    let mut backward: Vec<_> = names.iter().map(|n| Ok(described(n, "d"))).collect();
    backward.reverse();

    let (first, _) = provider.list_prompts(None, forward);
    let (second, cursor) = provider.list_prompts(Some("ignored".to_string()), backward);
    assert_eq!(cursor, None);
    assert_eq!(first, second);
    let listed: Vec<&str> = first.iter().map(|p| p.name.as_str()).collect();
    assert_eq!(listed, vec!["", "B", "a", "a0", "ab", "b", "c", "é"]);
}

#[test]
fn definitions_that_failed_to_load_are_left_out() {
    let provider = provider();
    let (prompts, _) = provider.list_prompts(
        None,
        vec![
            Err(Error::YamlError("bad".to_string())),
            Ok(described("z", "last")),
            Err(Error::InvalidTemplate("mismatch".to_string())),
            Ok(described("a", "first")),
        ],
    );
    assert_eq!(prompts, vec![described("a", "first"), described("z", "last")]);
    let (none, _) = provider.list_prompts(None, vec![]);
    assert!(none.is_empty());
}

#[test]
fn prompts_of_one_name_keep_their_order() {
    let provider = provider();
    let (prompts, _) = provider.list_prompts(
        None,
        vec![Ok(described("same", "one")), Ok(described("a", "x")), Ok(described("same", "two"))],
    );
    assert_eq!(
        prompts,
        vec![described("a", "x"), described("same", "one"), described("same", "two")]
    );
}

#[test]
fn only_yaml_files_define_prompts() {
    let provider = provider();
    let paths = vec![
        "/store/a.yaml".to_string(),
        "/store/readme.md".to_string(),
        "/store/b.yml".to_string(),
        "/store/yaml".to_string(),
        "/store/.yaml".to_string(),
        "/store/c.d.yaml".to_string(),
        "/store/D.YAML".to_string(),
    ];
    assert_eq!(
        provider.list_prompt_files(Ok(paths)),
        Ok(vec!["/store/a.yaml".to_string(), "/store/c.d.yaml".to_string()])
    );
    assert_eq!(
        provider.list_prompt_files(Err("cannot read directory".to_string())),
        Err(Error::IoError("cannot read directory".to_string()))
    );
    assert_eq!(provider.prompt_path("greeting"), "/store/greeting.yaml");
    assert_eq!(provider.prompt_name("/store/greeting.yaml"), Some("greeting".to_string()));
    assert_eq!(provider.prompt_name("/store/c.d.yaml"), Some("c.d".to_string()));
    assert_eq!(provider.prompt_name("/"), None);
}

#[test]
fn test_get_prompt_with_arguments() {
    let provider = provider();
    let defined = prompt("greeting", vec![argument("name", true)], vec![user_text("Hello {name}!")]);

    let mut args = Arguments::new();
    args.insert("name".to_string(), "world".to_string());

    let messages =
        provider.get_prompt::<OneFile>("greeting", Ok(defined), Some(&args), None).unwrap();
    assert_eq!(messages.len(), 1);
    assert_eq!(text_of(&messages[0]), "Hello world!");
}

#[test]
fn test_invalid_prompt() {
    let provider = provider();
    // The definition could not be parsed.
    let loaded = Err(Error::YamlError("did not find expected key".to_string()));
    assert!(provider.get_prompt::<OneFile>("invalid", loaded, None, None).is_err());
}

#[test]
fn test_invalid_prompt_file() {
    let provider = provider();
    let loaded = Err(Error::YamlError("mapping values are not allowed".to_string()));
    let result = provider.get_prompt::<OneFile>("invalid", loaded, None, None);
    assert_eq!(result, Err(Error::YamlError("mapping values are not allowed".to_string())));
}

#[test]
fn test_missing_required_fields() {
    let provider = provider();
    let loaded = Err(Error::YamlError("missing field `name`".to_string()));
    let result = provider.get_prompt::<OneFile>("missing_name", loaded, None, None);
    assert!(result.is_err());
}

#[test]
fn test_load_prompt_from_file() {
    let provider = provider();
    let defined = Prompt {
        name: "test_prompt".to_string(),
        description: Some("A test prompt".to_string()),
        arguments: vec![PromptArgument {
            name: "test_arg".to_string(),
            description: Some("A test argument".to_string()),
            required: true,
        }],
        messages: vec![user_text("Test message with {test_arg}")],
    };

    let mut args = Arguments::new();
    args.insert("test_arg".to_string(), "test_value".to_string());

    let messages =
        provider.get_prompt::<OneFile>("test_prompt", Ok(defined), Some(&args), None).unwrap();
    assert_eq!(messages.len(), 1);
    assert_eq!(text_of(&messages[0]), "Test message with test_value");
}

#[test]
fn filesystem_test_template_substitution() {
    let provider = provider();
    let defined = prompt(
        "template_prompt",
        vec![argument("var1", true), argument("var2", true)],
        vec![user_text("First value: {var1}, Second value: {var2}")],
    );

    let mut args = Arguments::new();
    args.insert("var1".to_string(), "hello".to_string());
    args.insert("var2".to_string(), "world".to_string());

    let messages =
        provider.get_prompt::<OneFile>("template_prompt", Ok(defined), Some(&args), None).unwrap();
    assert_eq!(text_of(&messages[0]), "First value: hello, Second value: world");
}

#[test]
fn test_prompt_with_multiple_messages() {
    let provider = provider();
    let text = |role: Role, t: &str| PromptMessage {
        role,
        content: MessageContent::Text { text: t.to_string(), annotations: None },
    };
    let defined = prompt(
        "multi_message",
        vec![],
        vec![
            text(Role::System, "System message"),
            text(Role::User, "User message"),
            text(Role::Assistant, "Assistant message"),
        ],
    );

    let messages = provider.get_prompt::<OneFile>("multi_message", Ok(defined), None, None).unwrap();
    assert_eq!(messages.len(), 3);
    assert_eq!(messages[0].role, Role::System);
    assert_eq!(messages[1].role, Role::User);
    assert_eq!(messages[2].role, Role::Assistant);
}

#[test]
fn filesystem_test_prompt_with_annotations() {
    let provider = provider();
    let priority = 0.8f32;
    let defined = prompt(
        "annotated_prompt",
        vec![],
        vec![PromptMessage {
            role: Role::User,
            content: MessageContent::Text {
                text: "Test message".to_string(),
                annotations: Some(Annotations {
                    audience: Some(vec![Role::User, Role::Assistant]),
                    priority: Some(priority.to_bits()),
                }),
            },
        }],
    );

    let messages =
        provider.get_prompt::<OneFile>("annotated_prompt", Ok(defined), None, None).unwrap();
    match &messages[0].content {
        MessageContent::Text { annotations, .. } => {
            let annotations = annotations.as_ref().unwrap();
            assert_eq!(annotations.audience.as_ref().unwrap().len(), 2);
            assert_eq!(f32::from_bits(annotations.priority.unwrap()), 0.8);
        }
        _ => panic!("Expected TextContent"),
    }
}

fn resource_prompt(name: &str, argument_name: &str) -> Prompt {
    prompt(
        name,
        vec![argument(argument_name, true)],
        vec![PromptMessage {
            role: Role::User,
            content: MessageContent::Resource {
                kind: "resource".to_string(),
                resource: ResourceContents::Text(TextResourceContents {
                    uri: format!("{{{}}}", argument_name),
                    mime_type: Some("text/plain".to_string()),
                    text: String::new(),
                }),
                annotations: None,
            },
        }],
    )
}

#[test]
fn filesystem_test_prompt_with_resource() {
    let provider = provider();
    let files = OneFile { path: "/store/test.txt".to_string(), text: "Test content".to_string() };

    let mut args = Arguments::new();
    args.insert("file_path".to_string(), "/store/test.txt".to_string());

    let messages = provider
        .get_prompt(
            "resource_prompt",
            Ok(resource_prompt("resource_prompt", "file_path")),
            Some(&args),
            Some(&files),
        )
        .unwrap();
    assert_eq!(messages.len(), 1);

    match &messages[0].content {
        MessageContent::Resource { resource, .. } => match resource {
            ResourceContents::Text(text) => {
                assert_eq!(text.text, "Test content");
            }
            _ => panic!("Expected TextResourceContents"),
        },
        _ => panic!("Expected ResourceContent"),
    }
}

#[test]
fn mod_test_prompt_with_resource() {
    let provider = provider();
    let files = OneFile {
        path: "file:///store/resource.txt".to_string(),
        text: "Test resource content".to_string(),
    };

    let mut args = Arguments::new();
    args.insert("resource_path".to_string(), "file:///store/resource.txt".to_string());

    let messages = provider
        .get_prompt("test", Ok(resource_prompt("test", "resource_path")), Some(&args), Some(&files))
        .unwrap();
    assert_eq!(messages.len(), 1);

    match &messages[0].content {
        MessageContent::Resource { resource, kind, .. } => {
            assert_eq!(kind, "resource");
            match resource {
                ResourceContents::Text(text) => {
                    assert_eq!(text.text, "Test resource content");
                }
                _ => panic!("Expected TextResourceContents"),
            }
        }
        other => panic!("Expected ResourceContent, got {:?}", other),
    }
}

#[test]
fn test_filesystem_provider() {
    let provider = provider();
    let defined = || Prompt {
        name: "test".to_string(),
        description: Some("Test prompt".to_string()),
        arguments: vec![PromptArgument {
            name: "name".to_string(),
            description: Some("Test argument".to_string()),
            required: true,
        }],
        messages: vec![user_text("Hello {name}!")],
    };

    // Test listing prompts
    let files = provider.list_prompt_files(Ok(vec!["/store/test.yaml".to_string()])).unwrap();
    let loaded: Vec<_> = files
        .iter()
        .map(|path| {
            let name = provider.prompt_name(path).unwrap();
            provider.load_prompt(&name, Ok(defined()))
        })
        .collect();
    let (prompts, _) = provider.list_prompts(None, loaded);
    assert_eq!(prompts.len(), 1);
    assert_eq!(prompts[0].name, "test");

    // Test getting prompt with arguments
    let mut args = Arguments::new();
    args.insert("name".to_string(), "world".to_string());
    let messages =
        provider.get_prompt::<OneFile>("test", Ok(defined()), Some(&args), None).unwrap();

    assert_eq!(messages.len(), 1);
    assert_eq!(text_of(&messages[0]), "Hello world!");
    assert!(provider.validate_arguments(&defined(), &args).is_ok());
    assert_eq!(
        provider.validate_arguments(&defined(), &Arguments::new()),
        Err(Error::MissingRequiredArgument("name".to_string()))
    );
}

#[test]
fn embedded_resources_are_files() {
    let provider = provider();
    assert_eq!(
        provider.resource_path("file:///tmp/resource.txt"),
        Ok("/tmp/resource.txt".to_string())
    );
    assert_eq!(
        provider.resource_path("file://file://x"),
        Ok("x".to_string())
    );
    assert_eq!(
        provider.resource_path("https://example.org/x"),
        Err(Error::ResourceError("Unsupported URI scheme: https://example.org/x".to_string()))
    );
    assert_eq!(provider.load_resource(Ok("text".to_string())), Ok("text".to_string()));
    assert_eq!(
        provider.load_resource(Err("permission denied".to_string())),
        Err(Error::ResourceError("Failed to read resource: permission denied".to_string()))
    );
}
