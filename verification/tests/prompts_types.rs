use pylon::prompts::types::{substitute_template, Arguments, Error, MessageContent};
use pylon::types::{ResourceContents, TextResourceContents};

#[test]
fn types_test_template_substitution() {
    let mut args = Arguments::new();
    args.insert("name".to_string(), "world".to_string());

    assert_eq!(
        substitute_template("Hello {name}!", &args).unwrap(),
        "Hello world!"
    );

    // Test missing argument
    assert!(substitute_template("Hello {missing}!", &args).is_err());

    // Test multiple substitutions
    args.insert("greeting".to_string(), "Hi".to_string());
    assert_eq!(
        substitute_template("{greeting} {name}!", &args).unwrap(),
        "Hi world!"
    );
}

#[test]
fn unresolved_placeholder_is_an_invalid_template() {
    let args = Arguments::new();
    assert_eq!(
        substitute_template("Hello {missing}!", &args),
        Err(Error::InvalidTemplate(
            "Template contains unsubstituted placeholders".to_string()
        ))
    );
}

fn args(pairs: &[(&str, &str)]) -> Arguments {
    let mut out = Arguments::new();
    for (k, v) in pairs {
        out.insert(k.to_string(), v.to_string());
    }
    out
}

#[test]
fn substitution_is_one_pass() {
    // A value that was put in is not looked at again.
    let a = args(&[("a", "[b]"), ("b", "x")]);
    assert_eq!(substitute_template("{a}-{b}", &a).unwrap(), "[b]-x");

    // A value that brings braces of its own makes the result unacceptable.
    let b = args(&[("a", "{b}"), ("b", "x")]);
    assert!(substitute_template("{a}", &b).is_err());
}

#[test]
fn substitution_keeps_what_is_not_a_placeholder() {
    let a = args(&[("name", "world")]);
    assert_eq!(substitute_template("", &a).unwrap(), "");
    assert_eq!(substitute_template("no braces", &a).unwrap(), "no braces");
    assert_eq!(substitute_template("only { open", &a).unwrap(), "only { open");
    assert_eq!(substitute_template("only } close", &a).unwrap(), "only } close");
    assert_eq!(substitute_template("{name}{name}", &a).unwrap(), "worldworld");
    assert_eq!(substitute_template("x{name}", &a).unwrap(), "xworld");
    // An opening brace before a known placeholder stays, and so the result
    // holds one kind of brace only.
    assert_eq!(substitute_template("{{name}", &a).unwrap(), "{world");
    // Both kinds of brace in the result, in any order, are refused.
    assert!(substitute_template("} {name} {", &a).is_err());
    assert!(substitute_template("{ {name}", &args(&[("name", "}")])).is_err());
    assert_eq!(substitute_template("{name", &args(&[("name", "}")])).unwrap(), "{name");
}

#[test]
fn substitution_takes_the_key_up_to_the_first_closing_brace() {
    let a = args(&[("a", "1"), ("a}b", "2"), ("", "empty")]);
    assert_eq!(substitute_template("{a}b}", &a).unwrap(), "1b}");
    assert_eq!(substitute_template("{a}b", &a).unwrap(), "1b");
    assert_eq!(substitute_template("<{}>", &a).unwrap(), "<empty>");
    assert_eq!(substitute_template("héllo {a} ✓", &a).unwrap(), "héllo 1 ✓");
}

#[test]
fn arguments_are_a_map() {
    let mut a = Arguments::new();
    assert!(a.is_empty());
    assert!(!a.contains_key("k"));
    assert_eq!(a.get("k"), None);
    a.insert("k".to_string(), "v".to_string());
    a.insert("k".to_string(), "w".to_string());
    assert!(!a.is_empty());
    assert!(a.contains_key("k"));
    assert_eq!(a.get("k"), Some(&"w".to_string()));
}

#[test]
fn content_is_made_without_annotations() {
    assert_eq!(
        MessageContent::with_text("Hello".to_string()),
        MessageContent::Text { text: "Hello".to_string(), annotations: None }
    );
    let resource = || {
        ResourceContents::Text(TextResourceContents {
            uri: "test.txt".to_string(),
            mime_type: Some("text/plain".to_string()),
            text: "Hello".to_string(),
        })
    };
    assert_eq!(
        MessageContent::with_resource(resource()),
        MessageContent::Resource {
            kind: "resource".to_string(),
            resource: resource(),
            annotations: None
        }
    );
    let mut moved = resource();
    moved.set_uri("other.txt".to_string());
    assert_eq!(moved.uri(), "other.txt");
    assert_eq!(
        moved,
        ResourceContents::Text(TextResourceContents {
            uri: "other.txt".to_string(),
            mime_type: Some("text/plain".to_string()),
            text: "Hello".to_string(),
        })
    );
}
