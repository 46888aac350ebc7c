use llm_provider::decoder::{decode_chunk, decode_chunks, parse_sse_line, stream_item};
use llm_provider::error::LLMError;
use llm_provider::event::{event_from_json, payload_fragment};
use llm_provider::json::{parse_json, Json};
use llm_provider::text::split_lines;

const HI: &str = r#"data: {"object":"chat.completion.chunk","choices":[{"delta":{"content":"hi"}}]}"#;

fn delta_line(content: &str) -> String {
    format!(
        r#"data: {{"object":"chat.completion.chunk","choices":[{{"delta":{{"content":"{}"}}}}]}}"#,
        content
    )
}

#[test]
fn content_delta_line_yields_content() {
    assert_eq!(parse_sse_line(HI), Some("hi".to_string()));
}

#[test]
fn other_object_kind_yields_nothing() {
    let line = r#"data: {"object":"other","choices":[{"delta":{"content":"x"}}]}"#;
    assert_eq!(parse_sse_line(line), None);
}

#[test]
fn keep_alive_and_empty_lines_yield_nothing() {
    assert_eq!(parse_sse_line(": keep-alive"), None);
    assert_eq!(parse_sse_line(""), None);
}

#[test]
fn malformed_payload_yields_nothing() {
    assert_eq!(parse_sse_line("data: not-json"), None);
}

#[test]
fn other_lines_yield_nothing() {
    assert_eq!(parse_sse_line("event: message"), None);
    assert_eq!(parse_sse_line(&HI[..5]), None);
    assert_eq!(parse_sse_line(&format!("x{}", HI)), None);
}

#[test]
fn missing_parts_yield_nothing() {
    let no_choices = r#"data: {"object":"chat.completion.chunk","choices":[]}"#;
    let no_delta = r#"data: {"object":"chat.completion.chunk","choices":[{}]}"#;
    let null_delta = r#"data: {"object":"chat.completion.chunk","choices":[{"delta":null}]}"#;
    let no_content = r#"data: {"object":"chat.completion.chunk","choices":[{"delta":{}}]}"#;
    let no_object = r#"data: {"choices":[{"delta":{"content":"x"}}]}"#;
    let bad_content = r#"data: {"object":"chat.completion.chunk","choices":[{"delta":{"content":3}}]}"#;
    let bad_later_choice =
        r#"data: {"object":"chat.completion.chunk","choices":[{"delta":{"content":"a"}},5]}"#;
    for line in [no_choices, no_delta, null_delta, no_content, no_object, bad_content, bad_later_choice] {
        assert_eq!(parse_sse_line(line), None, "{}", line);
    }
}

#[test]
fn first_choice_is_read_and_extra_members_ignored() {
    let line = r#"data: {"id":"1","object":"chat.completion.chunk","choices":[{"delta":{"role":"assistant","content":"a"},"finish_reason":null},{"delta":{"content":"b"}}]}"#;
    assert_eq!(parse_sse_line(line), Some("a".to_string()));
}

#[test]
fn empty_content_is_yielded_by_the_line_rule() {
    assert_eq!(parse_sse_line(&delta_line("")), Some(String::new()));
}

#[test]
fn two_delta_lines_concatenate_in_order() {
    let chunk = format!("{}\n\n{}\n\n", delta_line("He"), delta_line("llo"));
    assert_eq!(decode_chunk(chunk.as_bytes()), "Hello");
}

#[test]
fn crlf_line_endings_are_accepted() {
    let chunk = format!("{}\r\n\r\n{}\r\n", delta_line("a"), delta_line("b"));
    assert_eq!(decode_chunk(chunk.as_bytes()), "ab");
}

#[test]
fn chunk_without_content_decodes_to_empty() {
    assert_eq!(decode_chunk(b": keep-alive\n\n"), "");
    assert_eq!(decode_chunk(b""), "");
    assert_eq!(decode_chunk(b"data: [DONE]\n\n"), "");
}

#[test]
fn invalid_bytes_degrade_without_error() {
    let mut chunk: Vec<u8> = vec![0xff, 0xfe, b'\n'];
    chunk.extend_from_slice(delta_line("ok").as_bytes());
    chunk.extend_from_slice(b"\n\xc3\n");
    assert_eq!(decode_chunk(&chunk), "ok");
    let mut with_invalid = delta_line("a").into_bytes();
    let pos = with_invalid.iter().rposition(|b| *b == b'a').unwrap() + 1;
    with_invalid.insert(pos, 0xff);
    assert_eq!(decode_chunk(&with_invalid), "a\u{fffd}");
}

#[test]
fn stream_items_filter_empty_and_keep_errors() {
    let chunk = format!("{}\n\n", delta_line("x")).into_bytes();
    match stream_item(Ok(chunk)) {
        Some(Ok(s)) => assert_eq!(s, "x"),
        _ => panic!("expected text"),
    }
    assert!(stream_item(Ok(b": ping\n\n".to_vec())).is_none());
    match stream_item(Err("connection reset".to_string())) {
        Some(Err(LLMError::NetworkError(m))) => assert_eq!(m, "connection reset"),
        _ => panic!("expected a network error"),
    }
}

#[test]
fn decoding_twice_gives_identical_output() {
    let chunks: Vec<Vec<u8>> = vec![
        format!("{}\n\n", delta_line("He")).into_bytes(),
        b": keep-alive\n\n".to_vec(),
        format!("{}\n\n{}\n\n", delta_line("l"), delta_line("lo")).into_bytes(),
        b"data: not-json\n\n".to_vec(),
    ];
    let first = decode_chunks(&chunks);
    let second = decode_chunks(&chunks);
    assert_eq!(first, vec!["He".to_string(), "llo".to_string()]);
    assert_eq!(first, second);
    let mut split = decode_chunks(&chunks[..2].to_vec());
    split.extend(decode_chunks(&chunks[2..].to_vec()));
    assert_eq!(split, first);
}

#[test]
fn lines_split_like_str_lines() {
    let cases = ["", "a", "a\n", "a\r\nb", "a\n\nb\n", "\n", "a\r", "a\r\r\n", "x\ny\r\n"];
    for t in cases {
        let cs: Vec<char> = t.chars().collect();
        let got: Vec<String> = split_lines(&cs).iter().map(|l| l.iter().collect()).collect();
        let want: Vec<String> = t.lines().map(|l| l.to_string()).collect();
        assert_eq!(got, want, "{:?}", t);
    }
}

#[test]
fn parse_json_reads_values() {
    match parse_json(r#"{"a":[null,true,1.5,"s"]}"#) {
        Some(Json::Object(fields)) => {
            assert_eq!(fields.len(), 1);
            assert_eq!(fields[0].0, "a");
            match &fields[0].1 {
                Json::Array(items) => {
                    assert_eq!(items.len(), 4);
                    assert!(matches!(items[0], Json::Null));
                    assert!(matches!(items[1], Json::Bool(true)));
                    assert!(matches!(items[2], Json::Number));
                    assert!(matches!(&items[3], Json::Str(s) if s == "s"));
                }
                _ => panic!("expected an array"),
            }
        }
        _ => panic!("expected an object"),
    }
    assert!(parse_json("not-json").is_none());
}

fn event_json(object: &str, choices: Vec<Json>) -> Json {
    Json::Object(vec![
        ("object".to_string(), Json::Str(object.to_string())),
        ("choices".to_string(), Json::Array(choices)),
    ])
}

fn choice_with(content: Json) -> Json {
    Json::Object(vec![(
        "delta".to_string(),
        Json::Object(vec![("content".to_string(), content)]),
    )])
}

#[test]
fn event_read_from_built_value() {
    let j = event_json("chat.completion.chunk", vec![choice_with(Json::Str("hi".to_string()))]);
    let e = event_from_json(&j).unwrap();
    assert_eq!(e.object, "chat.completion.chunk");
    assert_eq!(e.choices.len(), 1);
    assert_eq!(e.content(), Some("hi".to_string()));
    assert_eq!(payload_fragment(&Some(j)), Some("hi".to_string()));
    assert_eq!(payload_fragment(&None), None);
}

#[test]
fn event_shape_errors_from_built_values() {
    let wrong_kind = event_json("other", vec![choice_with(Json::Str("x".to_string()))]);
    assert!(event_from_json(&wrong_kind).is_some());
    assert_eq!(payload_fragment(&Some(wrong_kind)), None);
    let numeric = event_json("chat.completion.chunk", vec![choice_with(Json::Number)]);
    assert!(event_from_json(&numeric).is_none());
    let null_content = event_json("chat.completion.chunk", vec![choice_with(Json::Null)]);
    assert_eq!(event_from_json(&null_content).unwrap().content(), None);
    assert!(event_from_json(&Json::Array(vec![])).is_none());
    let bad_object = Json::Object(vec![
        ("object".to_string(), Json::Bool(false)),
        ("choices".to_string(), Json::Array(vec![])),
    ]);
    assert!(event_from_json(&bad_object).is_none());
}
