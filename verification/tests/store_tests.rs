use chatcore::msg::Role;
use chatcore::store::Store;

#[test]
fn create_session_is_idempotent() {
    let mut s = Store::new();
    s.create_session("abc", 100);
    assert_eq!(s.sessions.len(), 1);
    assert_eq!(s.sessions[0].id, "abc");
    assert_eq!(s.sessions[0].created_at, 100);
    // creating the same id again, later, neither duplicates nor alters it
    s.create_session("abc", 999);
    assert_eq!(s.sessions.len(), 1);
    assert_eq!(s.sessions[0].created_at, 100);
}

#[test]
fn distinct_ids_get_distinct_records() {
    let mut s = Store::new();
    s.create_session("a", 1);
    s.create_session("b", 2);
    assert_eq!(s.sessions.len(), 2);
    assert_eq!(s.sessions[1].id, "b");
    assert_eq!(s.sessions[1].created_at, 2);
}

#[test]
fn start_session_yields_fresh_id() {
    let mut s = Store::new();
    let id1 = s.start_session(1);
    let id2 = s.start_session(2);
    assert_eq!(id1.len(), 36);
    assert_eq!(id2.len(), 36);
    assert_ne!(id1, id2);
    assert_eq!(s.sessions.len(), 2);
}

#[test]
fn history_reloads_in_order() {
    let mut s = Store::new();
    s.create_session("one", 1);
    s.create_session("two", 2);
    s.append_message("one", Role::User, "2+2?");
    s.append_message("two", Role::User, "other session");
    s.append_message("one", Role::Assistant, "4");
    let h = s.load_history("one");
    assert_eq!(h.len(), 2);
    assert_eq!(h[0].role, Role::User);
    assert_eq!(h[0].content, "2+2?");
    assert_eq!(h[1].role, Role::Assistant);
    assert_eq!(h[1].content, "4");
    let other = s.load_history("two");
    assert_eq!(other.len(), 1);
    assert_eq!(other[0].content, "other session");
    assert!(s.load_history("missing").is_empty());
}
