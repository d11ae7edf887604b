//! The compute side of the web search tool: the request URL for a query and
//! the degradation rules that turn any search response — success, non-success
//! status, or transport failure — into an in-band textual result. Search
//! failures never propagate as hard errors.

use vstd::prelude::*;
use vstd::string::StringExecFns;
use crate::adapter::{is_success_status, spec_success_status};
use crate::text::{dec_nat, u64_to_string};

verus! {

/// Seconds before a search call is abandoned and degraded to an error text.
pub const SEARCH_TIMEOUT_SECS: u64 = 15;

pub open spec fn spec_search_url(q: Seq<char>) -> Seq<char> {
    "https://api.duckduckgo.com/?q="@ + q + "&format=json"@
}

/// The GET URL for one web search.
pub fn search_url(query: &str) -> (r: String)
    ensures
        r@ == spec_search_url(query@),
{
    let mut s = String::from_str("https://api.duckduckgo.com/?q=");
    s.append(query);
    s.append("&format=json");
    s
}

/// The in-band text of a search response: the body itself on success, a
/// descriptive error string on a non-success status.
pub open spec fn spec_search_outcome(status: u16, body: Seq<char>) -> Seq<char> {
    if spec_success_status(status) {
        body
    } else {
        "Search API returned a non-success status: "@ + dec_nat(status as nat) + ". Body: "@ + body
    }
}

pub fn search_outcome(status: u16, body: &str) -> (r: String)
    ensures
        r@ == spec_search_outcome(status, body@),
{
    if is_success_status(status) {
        String::from_str(body)
    } else {
        let mut s = String::from_str("Search API returned a non-success status: ");
        let digits = u64_to_string(status as u64);
        s.append(digits.as_str());
        s.append(". Body: ");
        s.append(body);
        s
    }
}

/// The in-band text when the search transport itself failed.
pub open spec fn spec_search_failure(err: Seq<char>) -> Seq<char> {
    "Failed to perform web search: "@ + err
}

pub fn search_failure_text(err: &str) -> (r: String)
    ensures
        r@ == spec_search_failure(err@),
{
    let mut s = String::from_str("Failed to perform web search: ");
    s.append(err);
    s
}

} // verus!
