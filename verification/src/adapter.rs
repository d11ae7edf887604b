//! The provider adapter: builds a wire request from a neutral message history
//! for each backend family and extracts the assistant's reply from a response
//! body. OpenAI and Sambanova share one wire shape; Gemini has its own, with
//! a synthetic leading exchange in place of the system role.

use vstd::prelude::*;
use vstd::string::StringExecFns;
use crate::json::{Json, at_opt, key_opt, opt_at, opt_key, opt_text, text_opt};
use crate::msg::{Message, Role, role_name, spec_role_name};
use crate::text::{dec_nat, u64_to_string};

verus! {

#[derive(Clone, Copy, Debug, PartialEq, Eq, Structural)]
pub enum Provider {
    OpenAI,
    Sambanova,
    Gemini,
}

/// The per-session backend selection. Immutable after it is chosen.
#[derive(Clone, Debug)]
pub struct ApiConfig {
    pub provider: Provider,
    pub api_key: String,
    pub base_url: String,
    pub model_name: String,
}

/// Everything the transport needs for one model call: where to post, how to
/// authenticate, and the body. OpenAI-style backends take a bearer header;
/// Gemini takes the key as a query parameter spliced into the URL.
pub struct WireRequest {
    pub url: String,
    pub bearer: Option<String>,
    pub body: Json,
}

/// A model call that came back with a non-success status: the status code and
/// the response body text, never silently swallowed.
pub struct ApiError {
    pub status: u16,
    pub body: String,
}

/// Seconds before a model call is abandoned and treated as a turn failure.
pub const MODEL_CALL_TIMEOUT_SECS: u64 = 90;

pub open spec fn spec_success_status(status: u16) -> bool {
    200 <= status < 300
}

pub fn is_success_status(status: u16) -> (b: bool)
    ensures
        b == spec_success_status(status),
{
    200 <= status && status < 300
}

impl ApiError {
    pub open spec fn spec_message(self) -> Seq<char> {
        "API Error: "@ + self.body@ + " ("@ + dec_nat(self.status as nat) + ")"@
    }

    /// The turn-level failure text: the response body, then the status code.
    pub fn message(&self) -> (r: String)
        ensures
            r@ == self.spec_message(),
    {
        let mut s = String::from_str("API Error: ");
        s.append(self.body.as_str());
        s.append(" (");
        let digits = u64_to_string(self.status as u64);
        s.append(digits.as_str());
        s.append(")");
        s
    }
}

/// The sentinel surfaced when a response carries no reply text.
pub open spec fn no_response() -> Seq<char> {
    "[No response]"@
}

/// The reply text at the provider's fixed path into the response body, when
/// the whole path exists and ends at a string.
pub open spec fn spec_reply_path(p: Provider, v: Json) -> Option<Seq<char>> {
    match p {
        Provider::Gemini => opt_text(
            opt_key(
                opt_at(opt_key(opt_key(opt_at(opt_key(Some(v), "candidates"@), 0), "content"@), "parts"@), 0),
                "text"@,
            ),
        ),
        _ => opt_text(opt_key(opt_key(opt_at(opt_key(Some(v), "choices"@), 0), "message"@), "content"@)),
    }
}

/// What `parse_reply` returns: the extracted text, or the sentinel when any
/// step of the path is missing or of the wrong kind.
pub open spec fn spec_parse_reply(p: Provider, v: Json) -> Seq<char> {
    match spec_reply_path(p, v) {
        Some(t) => t,
        None => no_response(),
    }
}

/// Reply extraction never fails: a response missing the expected field
/// degrades to the fixed sentinel text.
pub fn parse_reply(provider: Provider, resp: &Json) -> (r: String)
    ensures
        r@ == spec_parse_reply(provider, *resp),
{
    let found: Option<&String> = match provider {
        Provider::Gemini => {
            let c = key_opt(Some(resp), "candidates");
            let c = at_opt(c, 0);
            let c = key_opt(c, "content");
            let c = key_opt(c, "parts");
            let c = at_opt(c, 0);
            let c = key_opt(c, "text");
            text_opt(c)
        },
        _ => {
            let c = key_opt(Some(resp), "choices");
            let c = at_opt(c, 0);
            let c = key_opt(c, "message");
            let c = key_opt(c, "content");
            text_opt(c)
        },
    };
    match found {
        Some(s) => s.clone(),
        None => String::from_str("[No response]"),
    }
}

/// A response on which the provider's reply path is missing yields exactly
/// the "no response" sentinel.
pub proof fn lemma_parse_reply_missing(p: Provider, v: Json)
    ensures
        spec_reply_path(p, v) is None ==> spec_parse_reply(p, v) == no_response(),
{
}

#[derive(Clone, Copy, Debug, PartialEq, Eq, Structural)]
pub enum WireRole {
    User,
    Model,
}

pub open spec fn spec_wire_role_name(w: WireRole) -> Seq<char> {
    match w {
        WireRole::User => "user"@,
        WireRole::Model => "model"@,
    }
}

/// The role a history message takes on the Gemini wire: assistant turns
/// become "model", everything else becomes "user".
pub open spec fn spec_map_role(r: Role) -> WireRole {
    if r is Assistant {
        WireRole::Model
    } else {
        WireRole::User
    }
}

/// The synthetic leading exchange: a leading system message is converted to a
/// user turn carrying its content followed by a fixed model acknowledgment.
pub open spec fn spec_gemini_lead(h: Seq<Message>) -> Seq<(WireRole, Seq<char>)> {
    if h.len() > 0 && h[0].role is System {
        seq![(WireRole::User, h[0].content@), (WireRole::Model, "Understood."@)]
    } else {
        Seq::empty()
    }
}

/// Every message after the first, mapped to its wire role and text.
pub open spec fn spec_gemini_tail(h: Seq<Message>) -> Seq<(WireRole, Seq<char>)> {
    if h.len() <= 1 {
        Seq::empty()
    } else {
        Seq::new((h.len() - 1) as nat, |i: int| (spec_map_role(h[i + 1].role), h[i + 1].content@))
    }
}

/// The full Gemini transform of a history.
pub open spec fn spec_gemini(h: Seq<Message>) -> Seq<(WireRole, Seq<char>)> {
    spec_gemini_lead(h) + spec_gemini_tail(h)
}

/// Strict user/model alternation beginning with a user turn.
pub open spec fn alternating_from_user(s: Seq<(WireRole, Seq<char>)>) -> bool {
    forall|i: int|
        0 <= i < s.len() ==> s[i].0 == (if i % 2 == 0 {
            WireRole::User
        } else {
            WireRole::Model
        })
}

/// For a history with a leading system message whose later messages take
/// alternating wire roles (user-side on odd positions), the Gemini transform
/// produces strict user/model alternation starting with user. Histories whose
/// tail breaks that alternation are the inputs on which no transform of this
/// shape could alternate, and are excluded.
pub proof fn lemma_gemini_alternates(h: Seq<Message>)
    requires
        h.len() > 0,
        h[0].role is System,
        forall|i: int|
            1 <= i < h.len() ==> spec_map_role(h[i].role) == (if i % 2 == 1 {
                WireRole::User
            } else {
                WireRole::Model
            }),
    ensures
        spec_gemini(h).len() > 0,
        alternating_from_user(spec_gemini(h)),
{
    let g = spec_gemini(h);
    let lead = spec_gemini_lead(h);
    let tail = spec_gemini_tail(h);
    assert(lead.len() == 2);
    assert forall|k: int|
        0 <= k < g.len() implies g[k].0 == (if k % 2 == 0 {
        WireRole::User
    } else {
        WireRole::Model
    }) by {
        if k == 0 {
            assert(g[0] == lead[0]);
        } else if k == 1 {
            assert(g[1] == lead[1]);
        } else {
            assert(g[k] == tail[k - 2]);
            assert(tail[k - 2] == (spec_map_role(h[k - 1].role), h[k - 1].content@));
            assert(spec_map_role(h[k - 1].role) == (if (k - 1) % 2 == 1 {
                WireRole::User
            } else {
                WireRole::Model
            }));
        }
    }
}

pub open spec fn is_str_val(v: Json, t: Seq<char>) -> bool {
    v matches Json::Str(s) && s@ == t
}

pub open spec fn is_num_val(v: Json, t: Seq<char>) -> bool {
    v matches Json::Num(s) && s@ == t
}

/// One OpenAI-style message object: exactly a role name and a content text.
pub open spec fn spec_chat_entry(v: Json, m: Message) -> bool {
    v matches Json::Obj(es) && es@.len() == 2 && es@[0].0@ == "role"@ && is_str_val(
        es@[0].1,
        spec_role_name(m.role),
    ) && es@[1].0@ == "content"@ && is_str_val(es@[1].1, m.content@)
}

/// The OpenAI-style body: the model name, every history message mapped one to
/// one in order, and the fixed low-randomness sampling parameters.
pub open spec fn spec_openai_body(b: Json, h: Seq<Message>, model: Seq<char>) -> bool {
    b matches Json::Obj(es) && es@.len() == 4 && es@[0].0@ == "model"@ && is_str_val(
        es@[0].1,
        model,
    ) && es@[1].0@ == "messages"@ && (es@[1].1 matches Json::Arr(a) && a@.len() == h.len() && (
    forall|i: int| 0 <= i < h.len() ==> spec_chat_entry(a@[i], h[i]))) && es@[2].0@
        == "temperature"@ && is_num_val(es@[2].1, "0.1"@) && es@[3].0@ == "top_p"@ && is_num_val(
        es@[3].1,
        "0.1"@,
    )
}

/// One Gemini turn object: a wire role and a single text part.
pub open spec fn spec_turn_obj(v: Json, t: (WireRole, Seq<char>)) -> bool {
    v matches Json::Obj(es) && es@.len() == 2 && es@[0].0@ == "role"@ && is_str_val(
        es@[0].1,
        spec_wire_role_name(t.0),
    ) && es@[1].0@ == "parts"@ && (es@[1].1 matches Json::Arr(p) && p@.len() == 1 && (p@[0] matches
    Json::Obj(pe) && pe@.len() == 1 && pe@[0].0@ == "text"@ && is_str_val(pe@[0].1, t.1)))
}

/// The Gemini body: one "contents" array holding the transform of the history.
pub open spec fn spec_gemini_body(b: Json, h: Seq<Message>) -> bool {
    b matches Json::Obj(es) && es@.len() == 1 && es@[0].0@ == "contents"@ && (es@[0].1 matches
    Json::Arr(a) && a@.len() == spec_gemini(h).len() && (forall|i: int|
        0 <= i < a@.len() ==> spec_turn_obj(a@[i], spec_gemini(h)[i])))
}

fn chat_entry(m: &Message) -> (v: Json)
    ensures
        spec_chat_entry(v, *m),
{
    let mut es: Vec<(String, Json)> = Vec::new();
    es.push((String::from_str("role"), Json::Str(String::from_str(role_name(m.role)))));
    es.push((String::from_str("content"), Json::Str(m.content.clone())));
    Json::Obj(es)
}

fn openai_body(history: &Vec<Message>, model_name: &str) -> (b: Json)
    ensures
        spec_openai_body(b, history@, model_name@),
{
    let n: usize = history.len();
    let mut arr: Vec<Json> = Vec::new();
    let mut i: usize = 0;
    while i < n
        invariant
            n == history@.len(),
            i <= n,
            arr@.len() == i,
            forall|j: int| 0 <= j < i ==> spec_chat_entry(arr@[j], history@[j]),
        decreases n - i,
    {
        arr.push(chat_entry(&history[i]));
        i = i + 1;
    }
    let mut es: Vec<(String, Json)> = Vec::new();
    es.push((String::from_str("model"), Json::Str(String::from_str(model_name))));
    es.push((String::from_str("messages"), Json::Arr(arr)));
    es.push((String::from_str("temperature"), Json::Num(String::from_str("0.1"))));
    es.push((String::from_str("top_p"), Json::Num(String::from_str("0.1"))));
    Json::Obj(es)
}

fn turn_obj(w: WireRole, text: String) -> (v: Json)
    ensures
        spec_turn_obj(v, (w, text@)),
{
    let mut pe: Vec<(String, Json)> = Vec::new();
    pe.push((String::from_str("text"), Json::Str(text)));
    let mut parts: Vec<Json> = Vec::new();
    parts.push(Json::Obj(pe));
    let rn: &str = match w {
        WireRole::User => "user",
        WireRole::Model => "model",
    };
    let mut es: Vec<(String, Json)> = Vec::new();
    es.push((String::from_str("role"), Json::Str(String::from_str(rn))));
    es.push((String::from_str("parts"), Json::Arr(parts)));
    Json::Obj(es)
}

fn gemini_body(history: &Vec<Message>) -> (b: Json)
    ensures
        spec_gemini_body(b, history@),
{
    let n: usize = history.len();
    let mut arr: Vec<Json> = Vec::new();
    if n > 0 && history[0].role == Role::System {
        arr.push(turn_obj(WireRole::User, history[0].content.clone()));
        arr.push(turn_obj(WireRole::Model, String::from_str("Understood.")));
    }
    proof {
        assert(arr@.len() == spec_gemini_lead(history@).len());
        assert(forall|j: int|
            0 <= j < arr@.len() ==> spec_turn_obj(arr@[j], spec_gemini(history@)[j]));
    }
    let mut i: usize = 1;
    while i < n
        invariant
            n == history@.len(),
            1 <= i,
            i <= n || i == 1,
            arr@.len() == spec_gemini_lead(history@).len() + i - 1,
            forall|j: int| 0 <= j < arr@.len() ==> spec_turn_obj(arr@[j], spec_gemini(history@)[j]),
        decreases n - i,
    {
        let w: WireRole = if history[i].role == Role::Assistant {
            WireRole::Model
        } else {
            WireRole::User
        };
        arr.push(turn_obj(w, history[i].content.clone()));
        proof {
            let g = spec_gemini(history@);
            let at = spec_gemini_lead(history@).len() + i - 1;
            assert(g[at as int] == spec_gemini_tail(history@)[i - 1]);
            assert(spec_gemini_tail(history@)[i - 1] == (
                spec_map_role(history@[i as int].role),
                history@[i as int].content@,
            ));
        }
        i = i + 1;
    }
    let mut es: Vec<(String, Json)> = Vec::new();
    es.push((String::from_str("contents"), Json::Arr(arr)));
    Json::Obj(es)
}

/// Builds the complete wire request for one model call: the Gemini style
/// posts to the base URL with the key as a query parameter and the
/// transformed contents; the OpenAI style posts to the base URL with a bearer
/// key and the flat message list.
pub fn build_request(config: &ApiConfig, history: &Vec<Message>) -> (r: WireRequest)
    ensures
        config.provider is Gemini ==> r.url@ == config.base_url@ + "?key="@ + config.api_key@
            && r.bearer is None && spec_gemini_body(r.body, history@),
        !(config.provider is Gemini) ==> r.url@ == config.base_url@ && (r.bearer matches Some(k)
            && k@ == config.api_key@) && spec_openai_body(r.body, history@, config.model_name@),
{
    match config.provider {
        Provider::Gemini => {
            let mut url = config.base_url.clone();
            url.append("?key=");
            url.append(config.api_key.as_str());
            WireRequest { url, bearer: None, body: gemini_body(history) }
        },
        _ => WireRequest {
            url: config.base_url.clone(),
            bearer: Some(config.api_key.clone()),
            body: openai_body(history, config.model_name.as_str()),
        },
    }
}

} // verus!
