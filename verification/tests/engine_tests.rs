use chatcore::adapter::{parse_reply, Provider};
use chatcore::engine::{shell_capture, Engine, InputOutcome, Phase, ReplyOutcome};
use chatcore::json::Json;
use chatcore::msg::Role;

fn obj(entries: Vec<(&str, Json)>) -> Json {
    Json::Obj(entries.into_iter().map(|(k, v)| (k.to_string(), v)).collect())
}

fn openai_response(text: &str) -> Json {
    obj(vec![(
        "choices",
        Json::Arr(vec![obj(vec![(
            "message",
            obj(vec![("content", Json::Str(text.to_string()))]),
        )])]),
    )])
}

fn persisted(e: &Engine) -> Vec<(Role, String)> {
    e.persisted.iter().map(|m| (m.role, m.content.clone())).collect()
}

#[test]
fn plain_prompt_text() {
    let e = Engine::new_with_year("gpt-4-turbo", false, 2024);
    assert_eq!(e.history.len(), 1);
    assert_eq!(e.history[0].role, Role::System);
    assert_eq!(
        e.history[0].content,
        "You are an AI assistant powered by the gpt-4-turbo model."
    );
}

#[test]
fn tool_aware_prompt_text() {
    let e = Engine::new_with_year("gemini-2.0-flash", true, 2025);
    let expected = format!(
        "You are a helpful AI assistant powered by the {} model.
You have the ability to run any Linux shell command.
Your response MUST be ONLY the tool command. Do not add any explanation.
Do NOT use interactive commands (like 'nano', 'vim'). Use non-interactive commands like `cat` to read files.

Tool format:
- Run a shell command: `[RUN_COMMAND <command to run>]`
- Search the web: `[SEARCH: your query]`. Current year: {}",
        "gemini-2.0-flash", 2025
    );
    assert_eq!(e.history[0].content, expected);
}

#[test]
fn start_uses_current_year_only_when_tool_aware() {
    // without web search the prompt has no year at all
    let e = Engine::start("gpt-4-turbo", false);
    assert_eq!(
        e.history[0].content,
        "You are an AI assistant powered by the gpt-4-turbo model."
    );
    assert_eq!(e.phase, Phase::AwaitingInput);
    // with web search the prompt ends in some current year
    let t = Engine::start("gpt-4-turbo", true);
    let content = &t.history[0].content;
    let tail = content.rsplit(' ').next().unwrap();
    assert!(tail.chars().all(|c| c.is_ascii_digit()));
    assert!(content.contains("Current year: "));
}

#[test]
fn scenario_plain_turn() {
    // a plain OpenAI-style exchange: the reply "4" is final and exactly the
    // user message and "4" are persisted
    let mut e = Engine::new_with_year("gpt-4-turbo", false, 2024);
    assert_eq!(e.submit_input("2+2?"), InputOutcome::CallModel);
    let reply = parse_reply(Provider::OpenAI, &openai_response("4"));
    assert_eq!(reply, "4");
    assert!(matches!(e.handle_model_reply(&reply), ReplyOutcome::Final));
    assert_eq!(
        persisted(&e),
        vec![(Role::User, "2+2?".to_string()), (Role::Assistant, "4".to_string())]
    );
    assert_eq!(e.history.len(), 3);
    assert_eq!(e.history[2].content, "4");
    assert_eq!(e.phase, Phase::AwaitingInput);
}

#[test]
fn scenario_search_round_trip() {
    // the search directive and its result are spliced into history but never
    // persisted; only the second reply is
    let mut e = Engine::new_with_year("gpt-4-turbo", true, 2024);
    assert_eq!(e.submit_input("capital of France?"), InputOutcome::CallModel);
    let o = e.handle_model_reply("[SEARCH: capital of France]");
    match o {
        ReplyOutcome::RunSearch(q) => assert_eq!(q, " capital of France"),
        _ => panic!("expected a search round-trip"),
    }
    e.handle_tool_result("Paris is the capital of France.");
    assert_eq!(e.history.len(), 4);
    assert_eq!(e.history[2].role, Role::Assistant);
    assert_eq!(e.history[2].content, "[SEARCH: capital of France]");
    assert_eq!(e.history[3].role, Role::System);
    assert_eq!(
        e.history[3].content,
        "Web search results for ' capital of France':\nParis is the capital of France."
    );
    e.handle_second_reply("The capital of France is Paris.");
    // the persisted log omits the intermediate directive and tool result
    assert_eq!(
        persisted(&e),
        vec![
            (Role::User, "capital of France?".to_string()),
            (Role::Assistant, "The capital of France is Paris.".to_string()),
        ]
    );
}

#[test]
fn scenario_shell_round_trip() {
    // the command's captured stdout feeds the second call; the persisted
    // assistant message is the second reply, not the raw output
    let mut e = Engine::new_with_year("gpt-4-turbo", true, 2024);
    assert_eq!(e.submit_input("say hi"), InputOutcome::CallModel);
    let o = e.handle_model_reply("[RUN_COMMAND echo hi]");
    match o {
        ReplyOutcome::RunShell(c) => assert_eq!(c, "echo hi"),
        _ => panic!("expected a shell round-trip"),
    }
    let captured = shell_capture(true, "hi\n".to_string(), String::new());
    assert_eq!(captured, "hi\n");
    e.handle_tool_result(&captured);
    assert_eq!(e.history[3].content, "Command output:\nhi\n");
    e.handle_second_reply("The command printed hi.");
    assert_eq!(
        persisted(&e),
        vec![
            (Role::User, "say hi".to_string()),
            (Role::Assistant, "The command printed hi.".to_string()),
        ]
    );
}

#[test]
fn scenario_empty_command_warns() {
    // an empty [RUN_COMMAND] yields a warning: no execution, no second model
    // call, nothing persisted for the reply
    let mut e = Engine::new_with_year("gpt-4-turbo", true, 2024);
    assert_eq!(e.submit_input("do something"), InputOutcome::CallModel);
    let before_history = e.history.len();
    let before_persisted = e.persisted.len();
    assert!(matches!(e.handle_model_reply("[RUN_COMMAND]"), ReplyOutcome::Warned));
    assert_eq!(e.history.len(), before_history);
    assert_eq!(e.persisted.len(), before_persisted);
    assert_eq!(e.phase, Phase::AwaitingInput);
}

#[test]
fn shell_capture_picks_stderr_on_failure() {
    assert_eq!(
        shell_capture(false, "out".to_string(), "boom".to_string()),
        "boom"
    );
}

#[test]
fn empty_input_reprompts() {
    let mut e = Engine::new_with_year("m", false, 2024);
    assert_eq!(e.submit_input(""), InputOutcome::Reprompt);
    assert_eq!(e.submit_input("   \t "), InputOutcome::Reprompt);
    assert_eq!(e.history.len(), 1);
    assert_eq!(e.persisted.len(), 0);
}

#[test]
fn exit_and_quit_end_the_session() {
    let mut e = Engine::new_with_year("m", false, 2024);
    assert_eq!(e.submit_input("EXIT"), InputOutcome::End);
    assert_eq!(e.phase, Phase::Ended);
    let mut e2 = Engine::new_with_year("m", false, 2024);
    assert_eq!(e2.submit_input(" Quit "), InputOutcome::End);
    assert_eq!(e2.phase, Phase::Ended);
}

#[test]
fn input_is_trimmed_before_use() {
    let mut e = Engine::new_with_year("m", false, 2024);
    assert_eq!(e.submit_input("  hello  "), InputOutcome::CallModel);
    assert_eq!(e.history[1].content, "hello");
    assert_eq!(e.persisted[0].content, "hello");
}

#[test]
fn failed_model_call_keeps_user_message() {
    // the turn is discarded but the history is not rolled back
    let mut e = Engine::new_with_year("m", false, 2024);
    e.submit_input("hello");
    e.model_call_failed();
    assert_eq!(e.phase, Phase::AwaitingInput);
    assert_eq!(e.history.len(), 2);
    assert_eq!(persisted(&e), vec![(Role::User, "hello".to_string())]);
}

#[test]
fn failed_second_call_keeps_unpersisted_pair() {
    // after a failed second call the directive and tool result stay in the
    // context although they were never persisted
    let mut e = Engine::new_with_year("m", true, 2024);
    e.submit_input("go");
    e.handle_model_reply("[RUN_COMMAND date]");
    e.handle_tool_result("2024-05-05\n");
    e.model_call_failed();
    assert_eq!(e.phase, Phase::AwaitingInput);
    assert_eq!(e.history.len(), 4);
    assert_eq!(persisted(&e), vec![(Role::User, "go".to_string())]);
}

#[test]
fn search_directive_ignored_when_disabled() {
    // with web search off the same reply is final and is persisted as is
    let mut e = Engine::new_with_year("m", false, 2024);
    e.submit_input("q");
    assert!(matches!(
        e.handle_model_reply("[SEARCH: capital of France]"),
        ReplyOutcome::Final
    ));
    assert_eq!(
        persisted(&e),
        vec![
            (Role::User, "q".to_string()),
            (Role::Assistant, "[SEARCH: capital of France]".to_string()),
        ]
    );
}
