//! The session store the engine's transcripts are kept in: an append-only log
//! of sessions and messages, keyed by an opaque session identifier. Session
//! creation is idempotent — a duplicate id is a no-op, never an error and
//! never a change to the existing record.

use vstd::prelude::*;
use vstd::string::StringExecFns;
use crate::msg::{Message, Role};
use crate::text::str_eq;

verus! {

pub struct SessionRecord {
    pub id: String,
    pub created_at: u64,
}

pub struct StoredMessage {
    pub session_id: String,
    pub role: Role,
    pub content: String,
}

pub struct Store {
    pub sessions: Vec<SessionRecord>,
    pub messages: Vec<StoredMessage>,
}

pub open spec fn session_view(r: SessionRecord) -> (Seq<char>, u64) {
    (r.id@, r.created_at)
}

pub open spec fn sessions_view(s: Seq<SessionRecord>) -> Seq<(Seq<char>, u64)> {
    s.map_values(|r: SessionRecord| session_view(r))
}

pub open spec fn message_view(m: StoredMessage) -> (Seq<char>, Role, Seq<char>) {
    (m.session_id@, m.role, m.content@)
}

pub open spec fn messages_view(s: Seq<StoredMessage>) -> Seq<(Seq<char>, Role, Seq<char>)> {
    s.map_values(|m: StoredMessage| message_view(m))
}

pub open spec fn has_session(sv: Seq<(Seq<char>, u64)>, id: Seq<char>) -> bool {
    exists|i: int| 0 <= i < sv.len() && sv[i].0 == id
}

/// The sessions after an idempotent create: unchanged when the id already
/// exists, extended by one record otherwise.
pub open spec fn spec_create(sv: Seq<(Seq<char>, u64)>, id: Seq<char>, now: u64) -> Seq<
    (Seq<char>, u64),
> {
    if has_session(sv, id) {
        sv
    } else {
        sv.push((id, now))
    }
}

/// Creating a session under an id that exists neither duplicates the record
/// nor alters its creation time: a second create is absorbed by the first,
/// whatever time it carries.
pub proof fn lemma_create_idempotent(sv: Seq<(Seq<char>, u64)>, id: Seq<char>, t1: u64, t2: u64)
    ensures
        spec_create(spec_create(sv, id, t1), id, t2) == spec_create(sv, id, t1),
{
    let sv1 = spec_create(sv, id, t1);
    if !has_session(sv, id) {
        assert(sv1[sv.len() as int].0 == id);
        assert(has_session(sv1, id));
    }
}

/// The role/content pairs of the messages of one session, in insertion order.
pub open spec fn spec_history_of(mv: Seq<(Seq<char>, Role, Seq<char>)>, id: Seq<char>) -> Seq<
    (Role, Seq<char>),
>
    decreases mv.len(),
{
    if mv.len() == 0 {
        Seq::empty()
    } else {
        let head: Seq<(Role, Seq<char>)> = if mv[0].0 == id {
            seq![(mv[0].1, mv[0].2)]
        } else {
            Seq::empty()
        };
        head + spec_history_of(mv.drop_first(), id)
    }
}

pub proof fn lemma_history_of_push(
    mv: Seq<(Seq<char>, Role, Seq<char>)>,
    x: (Seq<char>, Role, Seq<char>),
    id: Seq<char>,
)
    ensures
        spec_history_of(mv.push(x), id) == spec_history_of(mv, id) + (if x.0 == id {
            seq![(x.1, x.2)]
        } else {
            Seq::<(Role, Seq<char>)>::empty()
        }),
    decreases mv.len(),
{
    let tail: Seq<(Role, Seq<char>)> = if x.0 == id {
        seq![(x.1, x.2)]
    } else {
        Seq::empty()
    };
    if mv.len() == 0 {
        assert(mv.push(x)[0] == x);
        assert(mv.push(x).drop_first() =~= mv);
        assert(spec_history_of(mv, id) + tail =~= tail);
        if x.0 == id {
            assert(spec_history_of(mv.push(x), id) =~= tail);
        } else {
            assert(spec_history_of(mv.push(x), id) =~= tail);
        }
    } else {
        assert(mv.push(x)[0] == mv[0]);
        assert(mv.push(x).drop_first() =~= mv.drop_first().push(x));
        lemma_history_of_push(mv.drop_first(), x, id);
        let head: Seq<(Role, Seq<char>)> = if mv[0].0 == id {
            seq![(mv[0].1, mv[0].2)]
        } else {
            Seq::empty()
        };
        assert(head + (spec_history_of(mv.drop_first(), id) + tail) =~= (head + spec_history_of(
            mv.drop_first(),
            id,
        )) + tail);
    }
}

/// Relies on uuid's `Uuid::new_v4` and its hyphenated text form: a fresh
/// random identifier, always 36 characters long.
#[verifier::external_body]
fn fresh_session_id() -> (id: String)
    ensures
        id@.len() == 36,
{
    uuid::Uuid::new_v4().to_string()
}

impl Store {
    pub fn new() -> (s: Store)
        ensures
            s.sessions@.len() == 0,
            s.messages@.len() == 0,
    {
        Store { sessions: Vec::new(), messages: Vec::new() }
    }

    /// Idempotent session creation: a duplicate id changes nothing, a new id
    /// appends one record carrying `now`.
    pub fn create_session(&mut self, id: &str, now: u64)
        ensures
            sessions_view(final(self).sessions@) == spec_create(
                sessions_view(old(self).sessions@),
                id@,
                now,
            ),
            final(self).messages@ == old(self).messages@,
    {
        let n: usize = self.sessions.len();
        let mut i: usize = 0;
        while i < n
            invariant
                n == self.sessions@.len(),
                i <= n,
                *self == *old(self),
                forall|j: int| 0 <= j < i ==> self.sessions@[j].id@ != id@,
            decreases n - i,
        {
            if str_eq(self.sessions[i].id.as_str(), id) {
                proof {
                    let sv = sessions_view(self.sessions@);
                    assert(sv[i as int].0 == id@);
                    assert(has_session(sv, id@));
                }
                return ;
            }
            i = i + 1;
        }
        proof {
            let sv = sessions_view(self.sessions@);
            assert forall|j: int| 0 <= j < sv.len() implies sv[j].0 != id@ by {
                assert(sv[j].0 == self.sessions@[j].id@);
            }
            assert(!has_session(sv, id@));
        }
        self.sessions.push(SessionRecord { id: String::from_str(id), created_at: now });
        proof {
            assert(sessions_view(final(self).sessions@) =~= sessions_view(
                old(self).sessions@,
            ).push((id@, now)));
        }
    }

    /// A fresh session: a new random identifier, created idempotently.
    pub fn start_session(&mut self, now: u64) -> (id: String)
        ensures
            id@.len() == 36,
            sessions_view(final(self).sessions@) == spec_create(
                sessions_view(old(self).sessions@),
                id@,
                now,
            ),
            final(self).messages@ == old(self).messages@,
    {
        let id = fresh_session_id();
        self.create_session(id.as_str(), now);
        id
    }

    /// Appends one message row: append-only, never updated or deleted.
    pub fn append_message(&mut self, session_id: &str, role: Role, content: &str)
        ensures
            final(self).sessions@ == old(self).sessions@,
            messages_view(final(self).messages@) == messages_view(old(self).messages@).push(
                (session_id@, role, content@),
            ),
    {
        self.messages.push(
            StoredMessage {
                session_id: String::from_str(session_id),
                role,
                content: String::from_str(content),
            },
        );
        proof {
            assert(messages_view(final(self).messages@) =~= messages_view(
                old(self).messages@,
            ).push((session_id@, role, content@)));
        }
    }

    /// The stored role/content sequence of one session, in insertion order:
    /// reloading a session id reproduces exactly what was appended under it.
    pub fn load_history(&self, session_id: &str) -> (r: Vec<Message>)
        ensures
            r@.map_values(|m: Message| (m.role, m.content@)) == spec_history_of(
                messages_view(self.messages@),
                session_id@,
            ),
    {
        let n: usize = self.messages.len();
        let mut r: Vec<Message> = Vec::new();
        proof {
            assert(messages_view(self.messages@).subrange(0, 0) =~= Seq::<
                (Seq<char>, Role, Seq<char>),
            >::empty());
            assert(r@.map_values(|m: Message| (m.role, m.content@)) =~= Seq::<
                (Role, Seq<char>),
            >::empty());
        }
        let mut i: usize = 0;
        while i < n
            invariant
                n == self.messages@.len(),
                i <= n,
                r@.map_values(|m: Message| (m.role, m.content@)) == spec_history_of(
                    messages_view(self.messages@).subrange(0, i as int),
                    session_id@,
                ),
            decreases n - i,
        {
            let ghost pre = r@.map_values(|m: Message| (m.role, m.content@));
            let ghost mv = messages_view(self.messages@);
            let hit: bool = str_eq(self.messages[i].session_id.as_str(), session_id);
            if hit {
                r.push(
                    Message {
                        role: self.messages[i].role,
                        content: self.messages[i].content.clone(),
                    },
                );
            }
            proof {
                assert(mv.subrange(0, i + 1) =~= mv.subrange(0, i as int).push(mv[i as int]));
                lemma_history_of_push(mv.subrange(0, i as int), mv[i as int], session_id@);
                assert(mv[i as int].0 == self.messages@[i as int].session_id@);
                if hit {
                    assert(r@.map_values(|m: Message| (m.role, m.content@)) =~= pre.push(
                        (mv[i as int].1, mv[i as int].2),
                    ));
                    assert(pre.push((mv[i as int].1, mv[i as int].2)) =~= pre + seq![
                        (mv[i as int].1, mv[i as int].2),
                    ]);
                } else {
                    assert(pre + Seq::<(Role, Seq<char>)>::empty() =~= pre);
                }
            }
            i = i + 1;
        }
        proof {
            assert(messages_view(self.messages@).subrange(0, n as int) =~= messages_view(
                self.messages@,
            ));
        }
        r
    }
}

} // verus!
