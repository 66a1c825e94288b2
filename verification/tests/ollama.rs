use pylon::providers::ollama::{
    chunk_text, parse_stream_chunk, ChatAggregator, ChatBackendError, ChatMessage, ChatRequest,
    ChatResponse, HttpReply, ModelInfo, OllamaProvider, OllamaResponse, Progress, StreamDecoder,
    StreamStart,
};

fn part(content: &str, done: bool) -> Result<ChatResponse, ChatBackendError> {
    Ok(ChatResponse {
        message: ChatMessage { role: "assistant".to_string(), content: content.to_string() },
        done,
        model: "llama3.2".to_string(),
        created_at: format!("t-{}", content.len()),
    })
}

fn failed(message: &str) -> Result<ChatResponse, ChatBackendError> {
    Err(ChatBackendError { message: message.to_string() })
}

#[test]
fn the_sky_is_blue() {
    let provider = OllamaProvider::default();
    let chunks =
        vec![part("The", false), part(" sky", false), part(" is", false), part(" blue", true)];
    let response = provider.chat(&chunks).unwrap();
    assert_eq!(
        response.message,
        ChatMessage { role: "assistant".to_string(), content: "The sky is blue".to_string() }
    );
    assert!(response.done);
    assert_eq!(response.model, "llama3.2");
    assert_eq!(response.created_at, "t-5");
}

#[test]
fn the_fold_stops_at_the_first_part_that_is_done() {
    let provider = OllamaProvider::default();
    let chunks = vec![part("a", false), part("b", true), part("c", false), failed("late")];
    assert_eq!(provider.chat(&chunks).unwrap().message.content, "ab");
}

#[test]
fn the_fold_stops_at_the_first_failure() {
    let provider = OllamaProvider::default();
    let chunks = vec![part("a", false), failed("backend went away"), part("b", true)];
    assert_eq!(
        provider.chat(&chunks),
        Err(ChatBackendError { message: "backend went away".to_string() })
    );
}

#[test]
fn a_stream_that_just_ends() {
    let provider = OllamaProvider::default();
    // With content, what came is the answer, and it is done.
    let response = provider.chat(&vec![part("a", false), part("b", false)]).unwrap();
    assert_eq!(response.message.content, "ab");
    assert_eq!(response.message.role, "assistant");
    assert!(response.done);
    // Without content there is no answer.
    let nothing = ChatBackendError { message: "No response received from stream".to_string() };
    assert_eq!(provider.chat(&vec![]), Err(nothing));
    let nothing = ChatBackendError { message: "No response received from stream".to_string() };
    assert_eq!(provider.chat(&vec![part("", false)]), Err(nothing));
    // A part that is done ends the answer even if it is empty.
    let done = provider.chat(&vec![part("", true)]).unwrap();
    assert_eq!(done.message.content, "");
    assert!(done.done);
}

#[test]
fn the_aggregator_folds_as_parts_arrive() {
    let mut folder = ChatAggregator::new();
    assert_eq!(folder.push(&part("The", false)), Progress::Continue);
    assert_eq!(folder.push(&part(" sky", false)), Progress::Continue);
    match folder.push(&part(" is blue", true)) {
        Progress::Finished(Ok(response)) => {
            assert_eq!(response.message.content, "The sky is blue");
            assert_eq!(response.message.role, "assistant");
            assert!(response.done);
        }
        _ => panic!("Expected a finished answer"),
    }

    let mut folder = ChatAggregator::new();
    assert_eq!(folder.push(&part("x", false)), Progress::Continue);
    assert_eq!(
        folder.push(&failed("broken")),
        Progress::Finished(Err(ChatBackendError { message: "broken".to_string() }))
    );

    let mut folder = ChatAggregator::new();
    assert_eq!(folder.push(&part("x", false)), Progress::Continue);
    assert_eq!(folder.finish().unwrap().message.content, "x");
    assert!(ChatAggregator::new().finish().is_err());
}

#[test]
fn lines_come_out_whatever_the_pieces() {
    let whole = b"{\"a\":1}\n{\"b\":2}\n\n{\"c\":3}\ntail";
    let expected: Vec<Vec<u8>> =
        vec![b"{\"a\":1}".to_vec(), b"{\"b\":2}".to_vec(), b"{\"c\":3}".to_vec()];

    let mut decoder = StreamDecoder::new();
    assert_eq!(decoder.feed(whole), expected);
    assert_eq!(decoder.finish(), Some(b"tail".to_vec()));
    assert_eq!(decoder.finish(), None);

    // The same bytes in every cut into two pieces.
    for cut in 0..=whole.len() {
        let mut decoder = StreamDecoder::new();
        let mut lines = decoder.feed(&whole[..cut]);
        lines.extend(decoder.feed(&whole[cut..]));
        assert_eq!(lines, expected);
        assert_eq!(decoder.finish(), Some(b"tail".to_vec()));
    }

    // Byte by byte.
    let mut decoder = StreamDecoder::new();
    let mut lines = Vec::new();
    for byte in whole.iter() {
        lines.extend(decoder.feed(&[*byte]));
    }
    assert_eq!(lines, expected);

    let mut decoder = StreamDecoder::new();
    assert!(decoder.feed(b"").is_empty());
    assert!(decoder.feed(b"\n\n").is_empty());
    assert_eq!(decoder.feed(b"x\n"), vec![b"x".to_vec()]);
    assert_eq!(decoder.finish(), None);
}

#[test]
fn a_line_is_text_if_it_is_utf8() {
    assert_eq!(chunk_text("{\"ok\":\"✓\"}".as_bytes().to_vec()), Ok("{\"ok\":\"✓\"}".to_string()));
    assert_eq!(chunk_text(vec![]), Ok(String::new()));
    assert!(chunk_text(vec![0xff, 0xfe]).is_err());
    assert!(chunk_text(vec![b'a', 0xc3]).is_err());
}

#[test]
fn a_decoded_line_is_a_part_of_the_answer() {
    let decoded = OllamaResponse {
        model: "m".to_string(),
        message: ChatMessage { role: "assistant".to_string(), content: "hi".to_string() },
        done: false,
        created_at: None,
    };
    assert_eq!(
        parse_stream_chunk(Ok(decoded)),
        Ok(ChatResponse {
            message: ChatMessage { role: "assistant".to_string(), content: "hi".to_string() },
            done: false,
            model: "m".to_string(),
            created_at: String::new(),
        })
    );
    let decoded = OllamaResponse {
        model: "m".to_string(),
        message: ChatMessage { role: "assistant".to_string(), content: "".to_string() },
        done: true,
        created_at: Some("2024-01-01T00:00:00Z".to_string()),
    };
    let chunk = parse_stream_chunk(Ok(decoded)).unwrap();
    assert!(chunk.done);
    assert_eq!(chunk.created_at, "2024-01-01T00:00:00Z");
    assert_eq!(
        parse_stream_chunk(Err("expected value at line 1 column 1".to_string())),
        Err(ChatBackendError { message: "expected value at line 1 column 1".to_string() })
    );
}

#[test]
fn replies_of_the_backend() {
    let provider = OllamaProvider::new("http://example.org:1234".to_string());
    assert_eq!(provider.tags_url(), "http://example.org:1234/api/tags");
    assert_eq!(provider.chat_url(), "http://example.org:1234/api/chat");
    assert_eq!(OllamaProvider::default().chat_url(), "http://localhost:11434/api/chat");

    let ok = HttpReply { success: true, body: "{}".to_string() };
    assert_eq!(provider.accept_reply("Chat failed", Ok(ok)), Ok("{}".to_string()));
    let refused = HttpReply { success: false, body: "model not found".to_string() };
    assert_eq!(
        provider.accept_reply("Chat failed", Ok(refused)),
        Err(ChatBackendError { message: "Chat failed: model not found".to_string() })
    );
    assert_eq!(
        provider.accept_reply("Failed to list models", Err("connection refused".to_string())),
        Err(ChatBackendError { message: "connection refused".to_string() })
    );

    let model = || ModelInfo {
        name: "llama3.2".to_string(),
        digest: "abc".to_string(),
        size: 2_019_393_189,
        modified_at: "yesterday".to_string(),
    };
    assert_eq!(provider.list_models(Ok(vec![model()])), Ok(vec![model()]));
    assert_eq!(
        provider.list_models(Err("not json".to_string())),
        Err(ChatBackendError { message: "not json".to_string() })
    );

    let messages =
        vec![ChatMessage { role: "user".to_string(), content: "Why is the sky blue?".to_string() }];
    assert_eq!(
        provider.chat_request("llama3.2", messages.clone()),
        ChatRequest { model: "llama3.2".to_string(), messages }
    );
}

#[test]
fn how_a_stream_begins() {
    let provider = OllamaProvider::default();
    assert!(provider.chat_stream(StreamStart::Open).is_ok());
    match provider.chat_stream(StreamStart::Failed("connection refused".to_string())) {
        Err(e) => assert_eq!(e.message, "connection refused"),
        Ok(_) => panic!("Expected a failure"),
    }
    match provider.chat_stream(StreamStart::Rejected("no such model".to_string())) {
        Err(e) => assert_eq!(e.message, "Chat stream failed: no such model"),
        Ok(_) => panic!("Expected a failure"),
    }
}
