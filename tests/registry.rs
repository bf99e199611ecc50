use chat_server::event::SessionAndUserId;
use chat_server::registry::UserRegistry;

fn id(session: &str, user: &str) -> SessionAndUserId {
    SessionAndUserId::new(session, user)
}

fn sorted(mut v: Vec<String>) -> Vec<String> {
    v.sort();
    v
}

#[test]
fn insert_reports_first_session_only() {
    let mut reg = UserRegistry::new();
    assert!(reg.insert(&id("s1", "alice")));
    assert!(!reg.insert(&id("s2", "alice")));
    assert!(reg.insert(&id("s3", "bob")));
    assert!(!reg.insert(&id("s1", "alice")));
}

#[test]
fn remove_reports_last_session_only() {
    let mut reg = UserRegistry::new();
    reg.insert(&id("s1", "alice"));
    reg.insert(&id("s2", "alice"));
    assert!(!reg.remove(&id("s1", "alice")));
    assert!(reg.remove(&id("s2", "alice")));
    assert!(reg.get_unique_user_ids().is_empty());
}

#[test]
fn remove_of_absent_session_is_noop() {
    let mut reg = UserRegistry::new();
    reg.insert(&id("s1", "alice"));
    assert!(!reg.remove(&id("s9", "alice")));
    assert!(!reg.remove(&id("s1", "bob")));
    assert_eq!(reg.get_unique_user_ids(), vec!["alice".to_string()]);
    assert!(reg.remove(&id("s1", "alice")));
    assert!(!reg.remove(&id("s1", "alice")));
}

#[test]
fn unique_user_ids_ignores_session_count() {
    let mut reg = UserRegistry::new();
    reg.insert(&id("s1", "alice"));
    reg.insert(&id("s2", "alice"));
    reg.insert(&id("s3", "alice"));
    reg.insert(&id("s4", "bob"));
    assert_eq!(
        sorted(reg.get_unique_user_ids()),
        vec!["alice".to_string(), "bob".to_string()]
    );
}
