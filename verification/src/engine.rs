//! The conversation engine: a state machine over one interactive session.
//! Each user turn runs to completion — append the user message, call the
//! model, inspect the reply for a tool directive, execute at most one tool
//! round-trip, and surface a final reply — before the next input is accepted.
//! The engine decides; the surrounding program performs the outside calls and
//! hands their results back as events.

use vstd::prelude::*;
use vstd::string::{StrSliceExecFns, StringExecFns};
use crate::dispatch::{Directive, DirectiveV, inspect, spec_inspect};
use crate::msg::{Message, Role};
use crate::text::{dec_int, eq_ci_str, i64_to_string, seq_eq_ci, trim_spec, trim_str};

verus! {

/// Where the engine stands between events.
#[derive(Clone, Copy, Debug, PartialEq, Eq, Structural)]
pub enum Phase {
    AwaitingInput,
    AwaitingModel,
    AwaitingTool,
    AwaitingSecondModel,
    Ended,
}

/// The directive in flight while a tool executes: kept so the original
/// assistant reply and, for a search, the query can be spliced into history
/// together with the tool's result.
pub enum PendingTool {
    NoTool,
    Shell { directive: String },
    Search { directive: String, query: String },
}

/// One session's engine state. `history` is the full conversation context the
/// model sees; `persisted` is the prefix of it the engine has ordered written
/// to durable storage — tool bookkeeping messages never appear there.
pub struct Engine {
    pub web_search_enabled: bool,
    pub phase: Phase,
    pub history: Vec<Message>,
    pub persisted: Vec<Message>,
    pub pending: PendingTool,
}

/// The system prompt opening a session: tool-aware (with the directive
/// grammar and the current year) when web search is enabled, plain otherwise.
pub open spec fn spec_system_prompt(model: Seq<char>, web: bool, year: int) -> Seq<char> {
    if web {
        "You are a helpful AI assistant powered by the "@ + model
            + " model.\nYou have the ability to run any Linux shell command.\nYour response MUST be ONLY the tool command. Do not add any explanation.\nDo NOT use interactive commands (like 'nano', 'vim'). Use non-interactive commands like `cat` to read files.\n\nTool format:\n- Run a shell command: `[RUN_COMMAND <command to run>]`\n- Search the web: `[SEARCH: your query]`. Current year: "@
            + dec_int(year)
    } else {
        "You are an AI assistant powered by the "@ + model + " model."@
    }
}

pub fn system_prompt(model_name: &str, web_search_enabled: bool, year: i64) -> (r: String)
    ensures
        r@ == spec_system_prompt(model_name@, web_search_enabled, year as int),
{
    if web_search_enabled {
        let mut s = String::from_str("You are a helpful AI assistant powered by the ");
        s.append(model_name);
        s.append(
            " model.\nYou have the ability to run any Linux shell command.\nYour response MUST be ONLY the tool command. Do not add any explanation.\nDo NOT use interactive commands (like 'nano', 'vim'). Use non-interactive commands like `cat` to read files.\n\nTool format:\n- Run a shell command: `[RUN_COMMAND <command to run>]`\n- Search the web: `[SEARCH: your query]`. Current year: ",
        );
        let digits = i64_to_string(year);
        s.append(digits.as_str());
        s
    } else {
        let mut s = String::from_str("You are an AI assistant powered by the ");
        s.append(model_name);
        s.append(" model.");
        s
    }
}

/// Relies on chrono's `Local::now` and `Datelike::year`: the current local
/// calendar year.
#[verifier::external_body]
fn current_year() -> i64 {
    chrono::Datelike::year(&chrono::Local::now()) as i64
}

/// What the tool directive's shell command captured: combined standard output
/// on success, standard error otherwise — either way an in-band result.
pub fn shell_capture(success: bool, stdout: String, stderr: String) -> (r: String)
    ensures
        r@ == (if success {
            stdout@
        } else {
            stderr@
        }),
{
    if success {
        stdout
    } else {
        stderr
    }
}

/// What `submit_input` asks of the caller.
#[derive(Clone, Copy, Debug, PartialEq, Eq, Structural)]
pub enum InputOutcome {
    /// Empty input: prompt again, nothing changed.
    Reprompt,
    /// The session is over.
    End,
    /// A user message was appended and persisted: call the model.
    CallModel,
}

/// What `handle_model_reply` asks of the caller.
pub enum ReplyOutcome {
    /// The reply is final, appended and persisted.
    Final,
    /// A shell directive with an empty command: report it, take new input.
    Warned,
    /// Execute this shell command and hand back its captured output.
    RunShell(String),
    /// Perform this web search and hand back its textual result.
    RunSearch(String),
}

impl Engine {
    /// The state invariant: a directive is pending exactly while a tool
    /// round-trip is in flight, the history starts with the system prompt,
    /// and no system-role message is ever ordered persisted.
    pub open spec fn wf(self) -> bool {
        &&& (self.phase is AwaitingTool) <==> !(self.pending is NoTool)
        &&& self.history@.len() >= 1
        &&& self.history@[0].role is System
        &&& forall|i: int| 0 <= i < self.persisted@.len() ==> !(self.persisted@[i].role is System)
    }

    /// A fresh engine whose history holds exactly the system prompt for the
    /// given model name, tool choice and year.
    pub fn new_with_year(model_name: &str, web_search_enabled: bool, year: i64) -> (e: Engine)
        ensures
            e.wf(),
            e.web_search_enabled == web_search_enabled,
            e.phase is AwaitingInput,
            e.pending is NoTool,
            e.persisted@.len() == 0,
            e.history@.len() == 1,
            e.history@[0].role is System,
            e.history@[0].content@ == spec_system_prompt(
                model_name@,
                web_search_enabled,
                year as int,
            ),
    {
        let prompt = system_prompt(model_name, web_search_enabled, year);
        let mut history: Vec<Message> = Vec::new();
        history.push(Message { role: Role::System, content: prompt });
        Engine {
            web_search_enabled,
            phase: Phase::AwaitingInput,
            history,
            persisted: Vec::new(),
            pending: PendingTool::NoTool,
        }
    }

    /// A fresh engine for the current calendar year.
    pub fn start(model_name: &str, web_search_enabled: bool) -> (e: Engine)
        ensures
            e.wf(),
            e.web_search_enabled == web_search_enabled,
            e.phase is AwaitingInput,
            e.pending is NoTool,
            e.persisted@.len() == 0,
            e.history@.len() == 1,
            e.history@[0].role is System,
            exists|y: int|
                e.history@[0].content@ == spec_system_prompt(model_name@, web_search_enabled, y),
    {
        let year = current_year();
        let e = Engine::new_with_year(model_name, web_search_enabled, year);
        proof {
            assert(e.history@[0].content@ == spec_system_prompt(
                model_name@,
                web_search_enabled,
                year as int,
            ));
        }
        e
    }

    /// One line of user input. Empty input changes nothing; "exit"/"quit"
    /// (case-insensitively) ends the session; anything else is appended and
    /// persisted as the user's message, and the model must be called.
    pub fn submit_input(&mut self, input: &str) -> (o: InputOutcome)
        requires
            old(self).wf(),
            old(self).phase is AwaitingInput,
        ensures
            final(self).wf(),
            final(self).web_search_enabled == old(self).web_search_enabled,
            final(self).pending is NoTool,
            ({
                let t = trim_spec(input@);
                if t.len() == 0 {
                    &&& o is Reprompt
                    &&& final(self).phase is AwaitingInput
                    &&& final(self).history@ == old(self).history@
                    &&& final(self).persisted@ == old(self).persisted@
                } else if seq_eq_ci(t, "exit"@) || seq_eq_ci(t, "quit"@) {
                    &&& o is End
                    &&& final(self).phase is Ended
                    &&& final(self).history@ == old(self).history@
                    &&& final(self).persisted@ == old(self).persisted@
                } else {
                    &&& o is CallModel
                    &&& final(self).phase is AwaitingModel
                    &&& final(self).history@.len() == old(self).history@.len() + 1
                    &&& final(self).history@.drop_last() == old(self).history@
                    &&& final(self).history@.last().role is User
                    &&& final(self).history@.last().content@ == t
                    &&& final(self).persisted@.len() == old(self).persisted@.len() + 1
                    &&& final(self).persisted@.drop_last() == old(self).persisted@
                    &&& final(self).persisted@.last().role is User
                    &&& final(self).persisted@.last().content@ == t
                }
            }),
    {
        let t: &str = trim_str(input);
        if t.unicode_len() == 0 {
            return InputOutcome::Reprompt;
        }
        if eq_ci_str(t, "exit") || eq_ci_str(t, "quit") {
            self.phase = Phase::Ended;
            return InputOutcome::End;
        }
        self.history.push(Message { role: Role::User, content: String::from_str(t) });
        self.persisted.push(Message { role: Role::User, content: String::from_str(t) });
        self.phase = Phase::AwaitingModel;
        proof {
            assert(self.history@.drop_last() =~= old(self).history@);
            assert(self.persisted@.drop_last() =~= old(self).persisted@);
        }
        InputOutcome::CallModel
    }

    /// The model's reply for the turn. A plain reply is final: appended and
    /// persisted. A directive leaves history untouched and starts a tool
    /// round-trip, remembering the original reply; an empty shell command is
    /// only warned about.
    pub fn handle_model_reply(&mut self, reply: &str) -> (o: ReplyOutcome)
        requires
            old(self).wf(),
            old(self).phase is AwaitingModel,
        ensures
            final(self).wf(),
            final(self).web_search_enabled == old(self).web_search_enabled,
            ({
                let d = spec_inspect(reply@, old(self).web_search_enabled);
                match d {
                    DirectiveV::Run(cmd) => {
                        &&& o matches ReplyOutcome::RunShell(c) && c@ == cmd
                        &&& final(self).phase is AwaitingTool
                        &&& final(self).pending matches PendingTool::Shell { directive }
                            && directive@ == reply@
                        &&& final(self).history@ == old(self).history@
                        &&& final(self).persisted@ == old(self).persisted@
                    },
                    DirectiveV::EmptyRun => {
                        &&& o is Warned
                        &&& final(self).phase is AwaitingInput
                        &&& final(self).pending is NoTool
                        &&& final(self).history@ == old(self).history@
                        &&& final(self).persisted@ == old(self).persisted@
                    },
                    DirectiveV::Search(q) => {
                        &&& o matches ReplyOutcome::RunSearch(qq) && qq@ == q
                        &&& final(self).phase is AwaitingTool
                        &&& final(self).pending matches PendingTool::Search { directive, query }
                            && directive@ == reply@ && query@ == q
                        &&& final(self).history@ == old(self).history@
                        &&& final(self).persisted@ == old(self).persisted@
                    },
                    DirectiveV::Plain => {
                        &&& o is Final
                        &&& final(self).phase is AwaitingInput
                        &&& final(self).pending is NoTool
                        &&& final(self).history@.len() == old(self).history@.len() + 1
                        &&& final(self).history@.drop_last() == old(self).history@
                        &&& final(self).history@.last().role is Assistant
                        &&& final(self).history@.last().content@ == reply@
                        &&& final(self).persisted@.len() == old(self).persisted@.len() + 1
                        &&& final(self).persisted@.drop_last() == old(self).persisted@
                        &&& final(self).persisted@.last().role is Assistant
                        &&& final(self).persisted@.last().content@ == reply@
                    },
                }
            }),
    {
        let d = inspect(reply, self.web_search_enabled);
        match d {
            Directive::Run(cmd) => {
                self.pending = PendingTool::Shell { directive: String::from_str(reply) };
                self.phase = Phase::AwaitingTool;
                ReplyOutcome::RunShell(cmd)
            },
            Directive::EmptyRun => {
                self.phase = Phase::AwaitingInput;
                ReplyOutcome::Warned
            },
            Directive::Search(q) => {
                self.pending = PendingTool::Search {
                    directive: String::from_str(reply),
                    query: q.clone(),
                };
                self.phase = Phase::AwaitingTool;
                ReplyOutcome::RunSearch(q)
            },
            Directive::Plain => {
                self.history.push(
                    Message { role: Role::Assistant, content: String::from_str(reply) },
                );
                self.persisted.push(
                    Message { role: Role::Assistant, content: String::from_str(reply) },
                );
                self.phase = Phase::AwaitingInput;
                proof {
                    assert(self.history@.drop_last() =~= old(self).history@);
                    assert(self.persisted@.drop_last() =~= old(self).persisted@);
                }
                ReplyOutcome::Final
            },
        }
    }

    /// A model call failed. The turn is discarded, but the history is not
    /// rolled back: whatever was appended before the call stays as context.
    pub fn model_call_failed(&mut self)
        requires
            old(self).wf(),
            old(self).phase is AwaitingModel || old(self).phase is AwaitingSecondModel,
        ensures
            final(self).wf(),
            final(self).phase is AwaitingInput,
            final(self).pending is NoTool,
            final(self).web_search_enabled == old(self).web_search_enabled,
            final(self).history@ == old(self).history@,
            final(self).persisted@ == old(self).persisted@,
    {
        self.phase = Phase::AwaitingInput;
    }

    /// The tool finished. The original directive reply and a system-role
    /// message carrying the tool's result are appended to history — neither
    /// is persisted — and the model must be called a second time.
    pub fn handle_tool_result(&mut self, result: &str)
        requires
            old(self).wf(),
            old(self).phase is AwaitingTool,
        ensures
            final(self).wf(),
            final(self).phase is AwaitingSecondModel,
            final(self).pending is NoTool,
            final(self).web_search_enabled == old(self).web_search_enabled,
            final(self).persisted@ == old(self).persisted@,
            final(self).history@.len() == old(self).history@.len() + 2,
            final(self).history@.subrange(0, old(self).history@.len() as int) == old(self).history@,
            ({
                let n = old(self).history@.len() as int;
                let dir = final(self).history@[n];
                let sys = final(self).history@[n + 1];
                &&& dir.role is Assistant
                &&& sys.role is System
                &&& match old(self).pending {
                    PendingTool::Shell { directive } => dir.content@ == directive@
                        && sys.content@ == "Command output:\n"@ + result@,
                    PendingTool::Search { directive, query } => dir.content@ == directive@
                        && sys.content@ == "Web search results for '"@ + query@ + "':\n"@
                        + result@,
                    PendingTool::NoTool => false,
                }
            }),
    {
        let (dir, sys): (String, String) = match &self.pending {
            PendingTool::Shell { directive } => {
                let mut m = String::from_str("Command output:\n");
                m.append(result);
                (directive.clone(), m)
            },
            PendingTool::Search { directive, query } => {
                let mut m = String::from_str("Web search results for '");
                m.append(query.as_str());
                m.append("':\n");
                m.append(result);
                (directive.clone(), m)
            },
            PendingTool::NoTool => {
                proof {
                    assert(false);
                }
                (String::new(), String::new())
            },
        };
        self.history.push(Message { role: Role::Assistant, content: dir });
        self.history.push(Message { role: Role::System, content: sys });
        self.pending = PendingTool::NoTool;
        self.phase = Phase::AwaitingSecondModel;
        proof {
            assert(self.history@.subrange(0, old(self).history@.len() as int) =~= old(
                self,
            ).history@);
        }
    }

    /// The second model reply after a tool round-trip: it becomes the final
    /// reply of the turn, appended and persisted.
    pub fn handle_second_reply(&mut self, reply: &str)
        requires
            old(self).wf(),
            old(self).phase is AwaitingSecondModel,
        ensures
            final(self).wf(),
            final(self).phase is AwaitingInput,
            final(self).pending is NoTool,
            final(self).web_search_enabled == old(self).web_search_enabled,
            final(self).history@.len() == old(self).history@.len() + 1,
            final(self).history@.drop_last() == old(self).history@,
            final(self).history@.last().role is Assistant,
            final(self).history@.last().content@ == reply@,
            final(self).persisted@.len() == old(self).persisted@.len() + 1,
            final(self).persisted@.drop_last() == old(self).persisted@,
            final(self).persisted@.last().role is Assistant,
            final(self).persisted@.last().content@ == reply@,
    {
        self.history.push(Message { role: Role::Assistant, content: String::from_str(reply) });
        self.persisted.push(Message { role: Role::Assistant, content: String::from_str(reply) });
        self.phase = Phase::AwaitingInput;
        proof {
            assert(self.history@.drop_last() =~= old(self).history@);
            assert(self.persisted@.drop_last() =~= old(self).persisted@);
        }
    }
}

} // verus!
