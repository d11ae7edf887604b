use chatcore::dispatch::{inspect, Directive};

fn expect_run(reply: &str, web: bool, cmd: &str) {
    match inspect(reply, web) {
        Directive::Run(c) => assert_eq!(c, cmd),
        _ => panic!("expected a shell directive for {:?}", reply),
    }
}

fn expect_search(reply: &str, web: bool, query: &str) {
    match inspect(reply, web) {
        Directive::Search(q) => assert_eq!(q, query),
        _ => panic!("expected a search directive for {:?}", reply),
    }
}

fn expect_plain(reply: &str, web: bool) {
    match inspect(reply, web) {
        Directive::Plain => {}
        _ => panic!("expected a plain reply for {:?}", reply),
    }
}

fn expect_empty_run(reply: &str, web: bool) {
    match inspect(reply, web) {
        Directive::EmptyRun => {}
        _ => panic!("expected an empty shell directive for {:?}", reply),
    }
}

#[test]
fn run_command_detected() {
    expect_run("[RUN_COMMAND echo hi]", false, "echo hi");
    expect_run("[RUN_COMMAND cat file.txt]", true, "cat file.txt");
}

#[test]
fn run_command_case_insensitive() {
    expect_run("[run_command ls]", false, "ls");
    expect_run("[Run_Command ls -la]", false, "ls -la");
}

#[test]
fn search_case_insensitive() {
    expect_search("[search: weather]", true, " weather");
    expect_search("[SeArCh:weather]", true, "weather");
}

#[test]
fn surrounding_whitespace_trimmed() {
    expect_run("   [RUN_COMMAND pwd]  \n", false, "pwd");
}

#[test]
fn quotes_stripped_one_layer() {
    expect_run("\"[RUN_COMMAND ls]\"", false, "ls");
    expect_run("`[RUN_COMMAND ls]`", false, "ls");
    expect_run("'[RUN_COMMAND ls]'", false, "ls");
    // a second layer of quotes is kept, so the directive is not recognised
    expect_plain("''[RUN_COMMAND ls]''", false);
}

#[test]
fn trailing_bracket_stripped_once() {
    // exactly one trailing `]` is removed; an inner one stays
    expect_run("[RUN_COMMAND echo hi]]", false, "echo hi]");
}

#[test]
fn empty_command_is_invalid() {
    expect_empty_run("[RUN_COMMAND]", false);
    expect_empty_run("[RUN_COMMAND ]", false);
    expect_empty_run("[RUN_COMMAND    ]", true);
}

#[test]
fn search_query_extracted() {
    expect_search("[SEARCH: capital of France]", true, " capital of France");
}

#[test]
fn search_disabled_is_plain() {
    // with web search off the search prefix is no directive at all
    expect_plain("[SEARCH: capital of France]", false);
    expect_plain("[search: anything]", false);
}

#[test]
fn ordinary_replies_are_plain() {
    expect_plain("The answer is 4.", true);
    expect_plain("RUN_COMMAND without brackets", true);
    expect_plain("", true);
}
