//! The tool dispatcher: decides whether an assistant reply is a tool
//! directive. The reply is normalized (surrounding whitespace trimmed, one
//! layer of enclosing quote characters stripped) and matched case-
//! insensitively against the two directive prefixes; the shell command or the
//! search query is cut out of the remainder, with one trailing `]` stripped.

use vstd::prelude::*;
use vstd::string::{StrSliceExecFns, StringExecFns};
use crate::text::{
    after_first, contains_char, find_char, fold_char, has_prefix_ci, lemma_after_first_absent,
    lemma_after_first_ci, lemma_fold_rigid, lemma_starts_with_ci_congruence, lemma_strip_one_suffix_ci,
    lemma_strip_quotes_ci, lemma_trim_end_ci, lemma_trim_start_ci, seq_eq_ci, starts_with_ci,
    strip_one_suffix, strip_quotes_spec, strip_quotes_str, strip_suffix_char, trim_spec,
    trim_start_spec, trim_start_str, trim_str,
};

verus! {

/// What inspecting one assistant reply decided.
pub enum Directive {
    /// No tool use: the reply is final as it stands.
    Plain,
    /// A shell directive with its command text.
    Run(String),
    /// A shell directive with an empty command: detected but invalid.
    EmptyRun,
    /// A search directive with its query text.
    Search(String),
}

/// The spec-level shape of a `Directive`.
pub enum DirectiveV {
    Plain,
    Run(Seq<char>),
    EmptyRun,
    Search(Seq<char>),
}

pub open spec fn directive_view(d: Directive) -> DirectiveV {
    match d {
        Directive::Plain => DirectiveV::Plain,
        Directive::Run(c) => DirectiveV::Run(c@),
        Directive::EmptyRun => DirectiveV::EmptyRun,
        Directive::Search(q) => DirectiveV::Search(q@),
    }
}

pub open spec fn run_prefix() -> Seq<char> {
    "[RUN_COMMAND"@
}

pub open spec fn search_prefix() -> Seq<char> {
    "[SEARCH:"@
}

/// A reply as detection sees it: whitespace trimmed, one layer of enclosing
/// quote characters stripped.
pub open spec fn spec_normalized(reply: Seq<char>) -> Seq<char> {
    strip_quotes_spec(trim_spec(reply))
}

/// The command of a shell directive: everything after the first space, its
/// leading whitespace trimmed and one trailing `]` stripped; empty when the
/// directive has no space at all.
pub open spec fn spec_run_command(t: Seq<char>) -> Seq<char> {
    if contains_char(t, ' ') {
        strip_one_suffix(trim_start_spec(after_first(t, ' ')), ']')
    } else {
        Seq::empty()
    }
}

/// The query of a search directive: everything after the first colon, with
/// one trailing `]` stripped.
pub open spec fn spec_search_query(t: Seq<char>) -> Seq<char> {
    strip_one_suffix(after_first(t, ':'), ']')
}

/// The full detection policy. The shell prefix is always live; the search
/// prefix only when web search was enabled for the session.
pub open spec fn spec_inspect(reply: Seq<char>, web_search_enabled: bool) -> DirectiveV {
    let t = spec_normalized(reply);
    if starts_with_ci(t, run_prefix()) {
        let c = spec_run_command(t);
        if c.len() == 0 {
            DirectiveV::EmptyRun
        } else {
            DirectiveV::Run(c)
        }
    } else if web_search_enabled && starts_with_ci(t, search_prefix()) {
        DirectiveV::Search(spec_search_query(t))
    } else {
        DirectiveV::Plain
    }
}

pub fn inspect(reply: &str, web_search_enabled: bool) -> (d: Directive)
    ensures
        directive_view(d) == spec_inspect(reply@, web_search_enabled),
{
    let t: &str = strip_quotes_str(trim_str(reply));
    if has_prefix_ci(t, "[RUN_COMMAND") {
        match find_char(t, ' ') {
            Some(pos) => {
                let n: usize = t.unicode_len();
                let rest: &str = t.substring_char(pos + 1, n);
                let cmd: &str = strip_suffix_char(trim_start_str(rest), ']');
                if cmd.unicode_len() == 0 {
                    Directive::EmptyRun
                } else {
                    Directive::Run(String::from_str(cmd))
                }
            },
            None => Directive::EmptyRun,
        }
    } else if web_search_enabled && has_prefix_ci(t, "[SEARCH:") {
        match find_char(t, ':') {
            Some(pos) => {
                let n: usize = t.unicode_len();
                let rest: &str = t.substring_char(pos + 1, n);
                Directive::Search(String::from_str(strip_suffix_char(rest, ']')))
            },
            None => {
                proof {
                    lemma_after_first_absent(t@, ':');
                }
                Directive::Search(String::new())
            },
        }
    } else {
        Directive::Plain
    }
}

/// Replies equal up to ASCII case normalize to case-equal texts, so detection
/// is case-insensitive: both are detected as the same directive kind.
pub proof fn lemma_inspect_case_insensitive(a: Seq<char>, b: Seq<char>, web: bool)
    requires
        seq_eq_ci(a, b),
    ensures
        (spec_inspect(a, web) is Run) == (spec_inspect(b, web) is Run),
        (spec_inspect(a, web) is EmptyRun) == (spec_inspect(b, web) is EmptyRun),
        (spec_inspect(a, web) is Search) == (spec_inspect(b, web) is Search),
        (spec_inspect(a, web) is Plain) == (spec_inspect(b, web) is Plain),
{
    let ta = spec_normalized(a);
    let tb = spec_normalized(b);
    lemma_trim_start_ci(a, b);
    lemma_trim_end_ci(trim_start_spec(a), trim_start_spec(b));
    lemma_strip_quotes_ci(trim_spec(a), trim_spec(b));
    assert(seq_eq_ci(ta, tb));
    lemma_starts_with_ci_congruence(ta, tb, run_prefix());
    lemma_starts_with_ci_congruence(ta, tb, search_prefix());
    lemma_fold_rigid(' ');
    lemma_fold_rigid(']');
    lemma_after_first_ci(ta, tb, ' ');
    lemma_trim_start_ci(after_first(ta, ' '), after_first(tb, ' '));
    lemma_strip_one_suffix_ci(
        trim_start_spec(after_first(ta, ' ')),
        trim_start_spec(after_first(tb, ' ')),
        ']',
    );
    assert(spec_run_command(ta).len() == spec_run_command(tb).len());
}

/// With web search disabled, a reply whose normalized text begins with the
/// search prefix is no directive at all: it is treated as a plain final
/// reply.
pub proof fn lemma_search_disabled_is_plain(reply: Seq<char>)
    requires
        starts_with_ci(spec_normalized(reply), search_prefix()),
    ensures
        spec_inspect(reply, false) is Plain,
{
    let t = spec_normalized(reply);
    reveal_strlit("[SEARCH:");
    reveal_strlit("[RUN_COMMAND");
    if starts_with_ci(t, run_prefix()) {
        assert(t.subrange(0, search_prefix().len() as int)[1] == t[1]);
        assert(t.subrange(0, run_prefix().len() as int)[1] == t[1]);
        assert(fold_char(t[1]) == fold_char(search_prefix()[1]));
        assert(fold_char(t[1]) == fold_char(run_prefix()[1]));
        assert(false);
    }
}

} // verus!
