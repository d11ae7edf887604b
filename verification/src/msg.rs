//! The conversation's value types: a role, a message, and the text forms
//! other parts render them with.

use vstd::prelude::*;
use vstd::string::StringExecFns;

verus! {

#[derive(Clone, Copy, Debug, PartialEq, Eq, Structural)]
pub enum Role {
    System,
    User,
    Assistant,
}

/// One conversation message. Immutable once created; its position in the
/// history is its only identity.
#[derive(Clone, Debug)]
pub struct Message {
    pub role: Role,
    pub content: String,
}

/// The wire name of a role.
pub open spec fn spec_role_name(r: Role) -> Seq<char> {
    match r {
        Role::System => "system"@,
        Role::User => "user"@,
        Role::Assistant => "assistant"@,
    }
}

pub fn role_name(r: Role) -> (n: &'static str)
    ensures
        n@ == spec_role_name(r),
{
    match r {
        Role::System => "system",
        Role::User => "user",
        Role::Assistant => "assistant",
    }
}

/// One line of an exported transcript: the role's name, a separator, the
/// content, and a newline.
pub open spec fn spec_transcript_line(m: Message) -> Seq<char> {
    spec_role_name(m.role) + ": "@ + m.content@ + "\n"@
}

pub fn transcript_line(m: &Message) -> (r: String)
    ensures
        r@ == spec_transcript_line(*m),
{
    let mut s = String::from_str(role_name(m.role));
    s.append(": ");
    s.append(m.content.as_str());
    s.append("\n");
    s
}

} // verus!
