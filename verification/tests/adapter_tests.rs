use chatcore::adapter::{build_request, parse_reply, ApiConfig, ApiError, Provider};
use chatcore::json::Json;
use chatcore::msg::{Message, Role};

fn obj(entries: Vec<(&str, Json)>) -> Json {
    Json::Obj(entries.into_iter().map(|(k, v)| (k.to_string(), v)).collect())
}

fn openai_response(text: &str) -> Json {
    obj(vec![(
        "choices",
        Json::Arr(vec![obj(vec![(
            "message",
            obj(vec![("content", Json::Str(text.to_string()))]),
        )])]),
    )])
}

fn gemini_response(text: &str) -> Json {
    obj(vec![(
        "candidates",
        Json::Arr(vec![obj(vec![(
            "content",
            obj(vec![(
                "parts",
                Json::Arr(vec![obj(vec![("text", Json::Str(text.to_string()))])]),
            )]),
        )])]),
    )])
}

fn config(provider: Provider) -> ApiConfig {
    ApiConfig {
        provider,
        api_key: "k-123".to_string(),
        base_url: "https://example.test/v1".to_string(),
        model_name: "test-model".to_string(),
    }
}

fn msg(role: Role, content: &str) -> Message {
    Message { role, content: content.to_string() }
}

fn text_at<'a>(v: &'a Json, path: &[&str]) -> &'a str {
    let mut cur = v;
    for step in path {
        cur = match step.parse::<usize>() {
            Ok(i) => cur.at(i).expect("index missing"),
            Err(_) => cur.key(step).expect("key missing"),
        };
    }
    cur.text_of().expect("not a string").as_str()
}

#[test]
fn parse_reply_openai() {
    assert_eq!(parse_reply(Provider::OpenAI, &openai_response("4")), "4");
    assert_eq!(parse_reply(Provider::Sambanova, &openai_response("hi")), "hi");
}

#[test]
fn parse_reply_gemini() {
    assert_eq!(parse_reply(Provider::Gemini, &gemini_response("bonjour")), "bonjour");
}

#[test]
fn parse_reply_missing_field_gives_sentinel() {
    assert_eq!(parse_reply(Provider::OpenAI, &Json::Null), "[No response]");
    assert_eq!(parse_reply(Provider::OpenAI, &obj(vec![])), "[No response]");
    assert_eq!(
        parse_reply(Provider::OpenAI, &obj(vec![("choices", Json::Arr(vec![]))])),
        "[No response]"
    );
    // a non-string at the end of the path degrades too
    assert_eq!(
        parse_reply(
            Provider::OpenAI,
            &obj(vec![(
                "choices",
                Json::Arr(vec![obj(vec![("message", obj(vec![("content", Json::Null)]))])]),
            )])
        ),
        "[No response]"
    );
    assert_eq!(parse_reply(Provider::Gemini, &openai_response("4")), "[No response]");
}

#[test]
fn openai_request_shape() {
    let h = vec![msg(Role::System, "be brief"), msg(Role::User, "2+2?")];
    let r = build_request(&config(Provider::OpenAI), &h);
    assert_eq!(r.url, "https://example.test/v1");
    assert_eq!(r.bearer.as_deref(), Some("k-123"));
    assert_eq!(text_at(&r.body, &["model"]), "test-model");
    assert_eq!(text_at(&r.body, &["messages", "0", "role"]), "system");
    assert_eq!(text_at(&r.body, &["messages", "0", "content"]), "be brief");
    assert_eq!(text_at(&r.body, &["messages", "1", "role"]), "user");
    assert_eq!(text_at(&r.body, &["messages", "1", "content"]), "2+2?");
    match r.body.key("temperature").expect("temperature missing") {
        Json::Num(s) => assert_eq!(s, "0.1"),
        _ => panic!("temperature is not a number"),
    }
    match r.body.key("top_p").expect("top_p missing") {
        Json::Num(s) => assert_eq!(s, "0.1"),
        _ => panic!("top_p is not a number"),
    }
}

#[test]
fn gemini_request_shape() {
    let h = vec![
        msg(Role::System, "be brief"),
        msg(Role::User, "2+2?"),
        msg(Role::Assistant, "4"),
        msg(Role::User, "thanks"),
    ];
    let r = build_request(&config(Provider::Gemini), &h);
    assert_eq!(r.url, "https://example.test/v1?key=k-123");
    assert!(r.bearer.is_none());
    // leading system message becomes a user turn plus a fixed acknowledgment
    assert_eq!(text_at(&r.body, &["contents", "0", "role"]), "user");
    assert_eq!(text_at(&r.body, &["contents", "0", "parts", "0", "text"]), "be brief");
    assert_eq!(text_at(&r.body, &["contents", "1", "role"]), "model");
    assert_eq!(text_at(&r.body, &["contents", "1", "parts", "0", "text"]), "Understood.");
    // the rest alternates user/model by the original roles
    assert_eq!(text_at(&r.body, &["contents", "2", "role"]), "user");
    assert_eq!(text_at(&r.body, &["contents", "2", "parts", "0", "text"]), "2+2?");
    assert_eq!(text_at(&r.body, &["contents", "3", "role"]), "model");
    assert_eq!(text_at(&r.body, &["contents", "4", "role"]), "user");
    assert!(r.body.key("contents").unwrap().at(5).is_none());
}

#[test]
fn gemini_transform_alternates_on_engine_history() {
    // a history shaped like a finished tool round-trip still alternates
    let h = vec![
        msg(Role::System, "prompt"),
        msg(Role::User, "question"),
        msg(Role::Assistant, "[RUN_COMMAND date]"),
        msg(Role::System, "Command output:\n2024"),
        msg(Role::Assistant, "It is 2024."),
    ];
    let r = build_request(&config(Provider::Gemini), &h);
    let contents = r.body.key("contents").unwrap();
    let expected = ["user", "model", "user", "model", "user", "model"];
    for (i, want) in expected.iter().enumerate() {
        let turn = contents.at(i).expect("turn missing");
        assert_eq!(turn.key("role").unwrap().text_of().unwrap(), want);
    }
}

#[test]
fn api_error_message_text() {
    let e = ApiError { status: 404, body: "not found".to_string() };
    assert_eq!(e.message(), "API Error: not found (404)");
}
