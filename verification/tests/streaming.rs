use latchlm::gemini;
use latchlm::openai::{self, OpenaiStreamResponse};
use latchlm::openrouter::{self, OpenrouterStreamResponse, StreamChoice, StreamDelta};
use latchlm::sse::SseDecoder;
use latchlm::stream::{StreamEvent, StreamStep};
use latchlm::Error;

#[test]
fn sse_single_event() {
    let mut d = SseDecoder::new();
    let evs = d.push_chunk("data: hello\n\n");
    assert_eq!(evs, vec!["hello".to_string()]);
}

#[test]
fn sse_event_split_across_chunks() {
    let mut d = SseDecoder::new();
    assert_eq!(d.push_chunk("data: hel"), Vec::<String>::new());
    assert_eq!(d.push_chunk("lo\n\nda"), vec!["hello".to_string()]);
    assert_eq!(d.push_chunk("ta: x\n\n"), vec!["x".to_string()]);
}

#[test]
fn sse_crlf_line_endings() {
    let mut d = SseDecoder::new();
    let evs = d.push_chunk("data: a\r\n\r\n");
    assert_eq!(evs, vec!["a".to_string()]);
}

#[test]
fn sse_multiple_data_lines_join_with_newline() {
    let mut d = SseDecoder::new();
    let evs = d.push_chunk("data: a\ndata: b\n\n");
    assert_eq!(evs, vec!["a\nb".to_string()]);
}

#[test]
fn sse_comments_and_foreign_fields_are_ignored() {
    let mut d = SseDecoder::new();
    assert_eq!(d.push_chunk(": ping\n\n"), Vec::<String>::new());
    let evs = d.push_chunk("event: message\nid: 7\ndata: y\n\n");
    assert_eq!(evs, vec!["y".to_string()]);
}

#[test]
fn sse_value_without_space_and_pending_event() {
    let mut d = SseDecoder::new();
    assert_eq!(d.push_chunk("data:z\n"), Vec::<String>::new());
    // the event is dispatched only by the blank line
    assert_eq!(d.push_chunk("\n"), vec!["z".to_string()]);
}

#[test]
fn sse_two_events_in_one_chunk() {
    let mut d = SseDecoder::new();
    let evs = d.push_chunk("data: one\n\ndata: two\n\n");
    assert_eq!(evs, vec!["one".to_string(), "two".to_string()]);
}

// A sentinel termination payload ends the sequence cleanly: no trailing
// element and no error.
#[test]
fn sentinel_terminates_with_no_trailing_element() {
    let mut d = SseDecoder::new();
    let payloads = d.push_chunk("data: {\"id\":\"gen-123\"}\n\ndata: [DONE]\n\n");
    assert_eq!(payloads.len(), 2);
    assert!(!openrouter::is_terminator(&payloads[0]));
    assert!(openrouter::is_terminator(&payloads[1]));

    // drive the decode as the application would: the sentinel stops the
    // sequence before any decoding, yielding nothing for it
    let mut yielded: Vec<String> = Vec::new();
    for p in &payloads {
        if openrouter::is_terminator(p) {
            break;
        }
        yielded.push(p.clone());
    }
    assert_eq!(yielded.len(), 1);
}

// The sentinel is the whole payload, not a substring: a document that
// merely mentions the marker does not end the sequence.
#[test]
fn sentinel_is_the_literal_payload_only() {
    assert!(openrouter::is_terminator("[DONE]"));
    assert!(openrouter::is_terminator("  [DONE]\r"));
    assert!(!openrouter::is_terminator("{\"text\":\"mentions [DONE] inside\"}"));
    assert!(!openrouter::is_terminator("[DONE] trailing words"));
    assert!(matches!(openrouter::payload_step("[DONE]"), Some(StreamStep::Done)));
    assert!(openrouter::payload_step("{\"id\":\"x\"}").is_none());
}

fn or_chunk(content: Option<&str>, usage: Option<openrouter::Usage>) -> OpenrouterStreamResponse {
    OpenrouterStreamResponse {
        id: String::new(),
        provider: String::new(),
        model: String::new(),
        object: String::new(),
        created: 0,
        choices: match content {
            Some(c) => vec![StreamChoice {
                index: 0,
                delta: StreamDelta { role: Some("assistant".to_string()), content: Some(c.to_string()) },
                finish_reason: None,
                native_finish_reason: None,
            }],
            None => vec![],
        },
        usage,
    }
}

#[test]
fn openrouter_stream_steps_yield_chunk_texts() {
    match openrouter::stream_step(StreamEvent::Decoded(or_chunk(Some("Hel"), None))) {
        StreamStep::Yield(a) => {
            assert_eq!(a.text, "Hel");
            assert_eq!(a.token_usage.input_tokens, None);
        },
        other => panic!("expected Yield, got {:?}", other),
    }
    let usage = openrouter::Usage { prompt_tokens: 1, completion_tokens: 2, total_tokens: 3 };
    match openrouter::stream_step(StreamEvent::Decoded(or_chunk(None, Some(usage)))) {
        StreamStep::Yield(a) => {
            assert_eq!(a.text, "");
            assert_eq!(a.token_usage.total_tokens, Some(3));
        },
        other => panic!("expected Yield, got {:?}", other),
    }
}

#[test]
fn broken_transport_is_terminal_provider_error() {
    match openrouter::stream_step(StreamEvent::<OpenrouterStreamResponse>::Broken(
        "connection reset".to_string(),
    )) {
        StreamStep::Terminal(Error::ProviderError { provider, error }) => {
            assert_eq!(provider, "OpenRouter");
            assert_eq!(error, "connection reset");
        },
        other => panic!("expected Terminal(ProviderError), got {:?}", other),
    }
    match gemini::stream_step(StreamEvent::Broken("eof".to_string())) {
        StreamStep::Terminal(Error::ProviderError { provider, .. }) => {
            assert_eq!(provider, "Gemini");
        },
        other => panic!("expected Terminal(ProviderError), got {:?}", other),
    }
}

#[test]
fn undecodable_event_is_terminal_parse_error() {
    match openai::stream_step(StreamEvent::<OpenaiStreamResponse>::Undecodable(
        "unknown variant".to_string(),
    )) {
        StreamStep::Terminal(Error::ParseError(d)) => assert_eq!(d, "unknown variant"),
        other => panic!("expected Terminal(ParseError), got {:?}", other),
    }
}

fn oa_response(texts: &[&str], usage: Option<openai::Usage>) -> openai::OpenaiResponse {
    openai::OpenaiResponse {
        id: String::new(),
        object: String::new(),
        created_at: 0,
        status: String::new(),
        model: String::new(),
        reasoning: None,
        text: openai::Text { format: openai::Format { kind: String::new() }, verbosity: None },
        output: vec![openai::Output::Content {
            kind: "message".to_string(),
            id: "m".to_string(),
            status: None,
            role: None,
            content: texts
                .iter()
                .map(|t| openai::Content {
                    kind: String::new(),
                    text: t.to_string(),
                    annotations: vec![],
                })
                .collect(),
        }],
        usage,
    }
}

fn delta(d: &str) -> OpenaiStreamResponse {
    OpenaiStreamResponse::OutputTextDelta {
        response_id: None,
        item_id: "i".to_string(),
        output_index: 0,
        content_index: 0,
        delta: d.to_string(),
        sequence_number: 0,
    }
}

#[test]
fn openai_lifecycle_events_are_skipped() {
    let created = OpenaiStreamResponse::ResponseCreated {
        response: oa_response(&[], None),
        sequence_number: 0,
    };
    assert!(matches!(
        openai::stream_step(StreamEvent::Decoded(created)),
        StreamStep::Skip
    ));
}

#[test]
fn openai_completed_event_yields_usage_only() {
    let usage = openai::Usage {
        input_tokens: 36,
        input_tokens_details: None,
        output_tokens: 87,
        output_tokens_details: None,
        total_tokens: 123,
    };
    let completed = OpenaiStreamResponse::ResponseCompleted {
        response: oa_response(&["ignored here"], Some(usage)),
        sequence_number: 9,
    };
    match openai::stream_step(StreamEvent::Decoded(completed)) {
        StreamStep::Yield(a) => {
            assert_eq!(a.text, "");
            assert_eq!(a.token_usage.input_tokens, Some(36));
            assert_eq!(a.token_usage.output_tokens, Some(87));
            assert_eq!(a.token_usage.total_tokens, Some(123));
        },
        other => panic!("expected Yield, got {:?}", other),
    }
}

// Round trip: concatenating every text yielded by the streaming decode
// equals the text the blocking exchange produces, when the mocked backend
// splits the same content across chunks.
#[test]
fn openai_round_trip_stream_equals_blocking() {
    let whole = oa_response(&["This is a mock response"], None);
    let blocking_text = match openai::decode_body(Ok(whole)) {
        Ok(a) => a.text,
        Err(e) => panic!("unexpected error {:?}", e),
    };

    let events = vec![
        OpenaiStreamResponse::ResponseCreated {
            response: oa_response(&[], None),
            sequence_number: 0,
        },
        delta("This is "),
        delta("a mock "),
        delta("response"),
        OpenaiStreamResponse::ResponseCompleted {
            response: oa_response(&["This is a mock response"], None),
            sequence_number: 4,
        },
    ];
    let mut streamed = String::new();
    for e in events {
        match openai::stream_step(StreamEvent::Decoded(e)) {
            StreamStep::Yield(a) => streamed.push_str(&a.text),
            StreamStep::Skip => {},
            other => panic!("unexpected step {:?}", other),
        }
    }
    assert_eq!(streamed, blocking_text);
}

// The blocking normalizers concatenate multi-fragment bodies without
// separators, so a backend that splits the same fragments across deltas
// round-trips exactly.
#[test]
fn openai_round_trip_multiple_fragments() {
    let whole = oa_response(&["This is ", "a mock response"], None);
    let blocking_text = match openai::decode_body(Ok(whole)) {
        Ok(a) => a.text,
        Err(e) => panic!("unexpected error {:?}", e),
    };
    assert_eq!(blocking_text, "This is a mock response");

    let events = vec![delta("This is "), delta("a mock response")];
    let mut streamed = String::new();
    for e in events {
        match openai::stream_step(StreamEvent::Decoded(e)) {
            StreamStep::Yield(a) => streamed.push_str(&a.text),
            other => panic!("unexpected step {:?}", other),
        }
    }
    assert_eq!(streamed, blocking_text);
}

#[test]
fn gemini_round_trip_stream_equals_blocking() {
    let part = |t: &str| latchlm::gemini::Text { text: t.to_string() };
    let mk = |parts: Vec<latchlm::gemini::Text>| latchlm::gemini::GeminiResponse {
        candidates: vec![latchlm::gemini::Candidate {
            content: latchlm::gemini::Content { parts },
            finish_reason: String::new(),
            index: None,
            avg_log_probs: None,
        }],
        usage_metadata: latchlm::gemini::UsageMetadata {
            prompt_token_count: 0,
            candidates_token_count: 0,
            total_token_count: 0,
            prompt_tokens_details: vec![],
            thoughts_token_count: None,
            candidates_tokens_details: None,
        },
        model_version: String::new(),
        response_id: String::new(),
    };

    let whole = mk(vec![part("Hello "), part("world")]);
    let blocking_text = whole.to_ai_response().text;

    let chunks = vec![mk(vec![part("Hello ")]), mk(vec![part("world")])];
    let mut streamed = String::new();
    for c in chunks {
        match gemini::stream_step(StreamEvent::Decoded(c)) {
            StreamStep::Yield(a) => streamed.push_str(&a.text),
            other => panic!("unexpected step {:?}", other),
        }
    }
    assert_eq!(streamed, blocking_text);
}

#[test]
fn openrouter_round_trip_stream_equals_blocking() {
    let whole = openrouter::OpenrouterResponse {
        id: String::new(),
        provider: String::new(),
        model: String::new(),
        object: String::new(),
        created: 0,
        choices: vec![openrouter::Choice {
            finish_reason: "stop".to_string(),
            native_finish_reason: "STOP".to_string(),
            index: 0,
            message: openrouter::Message {
                role: "assistant".to_string(),
                content: "Hello".to_string(),
            },
        }],
        usage: openrouter::Usage { prompt_tokens: 0, completion_tokens: 0, total_tokens: 0 },
    };
    let blocking_text = whole.to_ai_response().text;

    let chunks = vec![or_chunk(Some("Hel"), None), or_chunk(Some("lo"), None)];
    let mut streamed = String::new();
    for c in chunks {
        match openrouter::stream_step(StreamEvent::Decoded(c)) {
            StreamStep::Yield(a) => streamed.push_str(&a.text),
            other => panic!("unexpected step {:?}", other),
        }
    }
    assert_eq!(streamed, blocking_text);
}

#[test]
fn openrouter_round_trip_multiple_choices() {
    let choice = |content: &str| openrouter::Choice {
        finish_reason: String::new(),
        native_finish_reason: String::new(),
        index: 0,
        message: openrouter::Message { role: String::new(), content: content.to_string() },
    };
    let whole = openrouter::OpenrouterResponse {
        id: String::new(),
        provider: String::new(),
        model: String::new(),
        object: String::new(),
        created: 0,
        choices: vec![choice("First Choice"), choice("Second Choice")],
        usage: openrouter::Usage { prompt_tokens: 0, completion_tokens: 0, total_tokens: 0 },
    };
    let blocking_text = whole.to_ai_response().text;
    assert_eq!(blocking_text, "First ChoiceSecond Choice");

    let chunks = vec![
        or_chunk(Some("First Choice"), None),
        or_chunk(Some("Second Choice"), None),
    ];
    let mut streamed = String::new();
    for c in chunks {
        match openrouter::stream_step(StreamEvent::Decoded(c)) {
            StreamStep::Yield(a) => streamed.push_str(&a.text),
            other => panic!("unexpected step {:?}", other),
        }
    }
    assert_eq!(streamed, blocking_text);
}

#[test]
fn gemini_stream_yields_whole_chunk_normalizations() {
    let resp = latchlm::gemini::GeminiResponse {
        candidates: vec![],
        usage_metadata: latchlm::gemini::UsageMetadata {
            prompt_token_count: 1,
            candidates_token_count: 2,
            total_token_count: 3,
            prompt_tokens_details: vec![],
            thoughts_token_count: None,
            candidates_tokens_details: None,
        },
        model_version: String::new(),
        response_id: String::new(),
    };
    match gemini::stream_step(StreamEvent::Decoded(resp)) {
        StreamStep::Yield(a) => {
            assert_eq!(a.text, "");
            assert_eq!(a.token_usage.input_tokens, Some(1));
        },
        other => panic!("expected Yield, got {:?}", other),
    }
}
