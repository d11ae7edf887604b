//! A model of a JSON document: wire bodies are built from it and reply
//! extraction walks it. A number is carried as its decimal literal text, so
//! the model stays exact; the surrounding program turns the model into real
//! JSON at the transport boundary.

use vstd::prelude::*;
use crate::text::str_eq;

verus! {

pub enum Json {
    Null,
    Bool(bool),
    Num(String),
    Str(String),
    Arr(Vec<Json>),
    Obj(Vec<(String, Json)>),
}

/// The value under `key` among the entries, first match first.
pub open spec fn obj_lookup(entries: Seq<(String, Json)>, key: Seq<char>) -> Option<Json>
    decreases entries.len(),
{
    if entries.len() == 0 {
        None
    } else if entries[0].0@ == key {
        Some(entries[0].1)
    } else {
        obj_lookup(entries.drop_first(), key)
    }
}

/// Member access: `Some` only on an object that has the key.
pub open spec fn get_key(v: Json, key: Seq<char>) -> Option<Json> {
    match v {
        Json::Obj(entries) => obj_lookup(entries@, key),
        _ => None,
    }
}

/// Element access: `Some` only on an array long enough.
pub open spec fn get_at(v: Json, i: int) -> Option<Json> {
    match v {
        Json::Arr(items) => if 0 <= i < items@.len() {
            Some(items@[i])
        } else {
            None
        },
        _ => None,
    }
}

/// The text of a string value; `None` on every other kind.
pub open spec fn as_text(v: Json) -> Option<Seq<char>> {
    match v {
        Json::Str(s) => Some(s@),
        _ => None,
    }
}

pub open spec fn opt_key(v: Option<Json>, key: Seq<char>) -> Option<Json> {
    match v {
        Some(j) => get_key(j, key),
        None => None,
    }
}

pub open spec fn opt_at(v: Option<Json>, i: int) -> Option<Json> {
    match v {
        Some(j) => get_at(j, i),
        None => None,
    }
}

pub open spec fn opt_text(v: Option<Json>) -> Option<Seq<char>> {
    match v {
        Some(j) => as_text(j),
        None => None,
    }
}

/// The value an optional reference stands for.
pub open spec fn deref_opt(v: Option<&Json>) -> Option<Json> {
    match v {
        Some(j) => Some(*j),
        None => None,
    }
}

pub fn key_opt<'a>(v: Option<&'a Json>, name: &str) -> (r: Option<&'a Json>)
    ensures
        deref_opt(r) == opt_key(deref_opt(v), name@),
{
    match v {
        Some(j) => j.key(name),
        None => None,
    }
}

pub fn at_opt<'a>(v: Option<&'a Json>, i: usize) -> (r: Option<&'a Json>)
    ensures
        deref_opt(r) == opt_at(deref_opt(v), i as int),
{
    match v {
        Some(j) => j.at(i),
        None => None,
    }
}

pub fn text_opt<'a>(v: Option<&'a Json>) -> (r: Option<&'a String>)
    ensures
        match r {
            Some(s) => opt_text(deref_opt(v)) == Some(s@),
            None => opt_text(deref_opt(v)) is None,
        },
{
    match v {
        Some(j) => j.text_of(),
        None => None,
    }
}

impl Json {
    pub fn key<'a>(&'a self, name: &str) -> (r: Option<&'a Json>)
        ensures
            match r {
                Some(j) => get_key(*self, name@) == Some(*j),
                None => get_key(*self, name@) is None,
            },
    {
        match self {
            Json::Obj(entries) => {
                let n: usize = entries.len();
                proof {
                    assert(entries@.subrange(0, n as int) =~= entries@);
                }
                let mut i: usize = 0;
                while i < n
                    invariant
                        n == entries@.len(),
                        i <= n,
                        get_key(*self, name@) == obj_lookup(
                            entries@.subrange(i as int, n as int),
                            name@,
                        ),
                    decreases n - i,
                {
                    let hit: bool = str_eq(entries[i].0.as_str(), name);
                    proof {
                        let rest = entries@.subrange(i as int, n as int);
                        assert(rest[0] == entries@[i as int]);
                        if !hit {
                            assert(rest.drop_first() =~= entries@.subrange(i as int + 1, n as int));
                        } else {
                            assert(rest[0].0@ == name@);
                            assert(obj_lookup(rest, name@) == Some(rest[0].1));
                        }
                    }
                    if hit {
                        return Some(&entries[i].1);
                    }
                    i = i + 1;
                }
                proof {
                    assert(entries@.subrange(n as int, n as int).len() == 0);
                }
                None
            },
            _ => None,
        }
    }

    pub fn at<'a>(&'a self, i: usize) -> (r: Option<&'a Json>)
        ensures
            match r {
                Some(j) => get_at(*self, i as int) == Some(*j),
                None => get_at(*self, i as int) is None,
            },
    {
        match self {
            Json::Arr(items) => if i < items.len() {
                Some(&items[i])
            } else {
                None
            },
            _ => None,
        }
    }

    pub fn text_of<'a>(&'a self) -> (r: Option<&'a String>)
        ensures
            match r {
                Some(s) => as_text(*self) == Some(s@),
                None => as_text(*self) is None,
            },
    {
        match self {
            Json::Str(s) => Some(s),
            _ => None,
        }
    }
}

} // verus!
