use aog_core::gate::authenticate;
use aog_core::gate::authorize;
use aog_core::gate::operator_name;
use aog_core::state::Config;
use aog_core::state::Session;
use aog_core::state::Sessions;

fn config_with_password(p: &str) -> Config {
    let mut c = Config::default();
    c.encrypted_password = p.to_string();
    c
}

#[test]
fn operator_account_is_admin() {
    assert_eq!(operator_name(), "admin");
}

#[test]
fn exact_identifier_is_authorized() {
    let t = Sessions { sessions: vec![Session { id: "abcdef".to_string(), delta: 0 }] };
    assert!(authorize(&t, "abcdef"));
}

#[test]
fn strict_substring_of_stored_identifier_is_denied() {
    let t = Sessions { sessions: vec![Session { id: "abcdef".to_string(), delta: 0 }] };
    assert!(!authorize(&t, "abc"));
    assert!(!authorize(&t, "bcd"));
    assert!(!authorize(&t, "def"));
    assert!(!authorize(&t, ""));
}

#[test]
fn superstring_of_stored_identifier_is_denied() {
    let t = Sessions { sessions: vec![Session { id: "abc".to_string(), delta: 0 }] };
    assert!(!authorize(&t, "abcdef"));
}

#[test]
fn empty_table_denies_everyone() {
    let t = Sessions { sessions: vec![] };
    assert!(!authorize(&t, "anything"));
}

#[test]
fn login_appends_exactly_one_session_and_authorizes_it() {
    let cfg = config_with_password("secret");
    let mut t = Sessions { sessions: vec![] };
    let granted = authenticate(&cfg, &mut t, "admin", "secret", "sess-1");
    assert!(granted);
    assert_eq!(t.sessions.len(), 1);
    assert_eq!(t.sessions[0].id, "sess-1");
    assert_eq!(t.sessions[0].delta, 0);
    assert!(authorize(&t, "sess-1"));
}

#[test]
fn repeated_login_does_not_duplicate_the_session() {
    let cfg = config_with_password("secret");
    let mut t = Sessions { sessions: vec![] };
    assert!(authenticate(&cfg, &mut t, "admin", "secret", "sess-1"));
    assert!(authenticate(&cfg, &mut t, "admin", "secret", "sess-1"));
    assert_eq!(t.sessions.len(), 1);
}

#[test]
fn wrong_password_is_denied_and_table_unchanged() {
    let cfg = config_with_password("secret");
    let mut t = Sessions { sessions: vec![] };
    assert!(!authenticate(&cfg, &mut t, "admin", "wrong", "sess-1"));
    assert!(t.sessions.is_empty());
    assert!(!authorize(&t, "sess-1"));
}

#[test]
fn wrong_username_is_denied() {
    let cfg = config_with_password("secret");
    let mut t = Sessions { sessions: vec![] };
    assert!(!authenticate(&cfg, &mut t, "root", "secret", "sess-1"));
    assert!(t.sessions.is_empty());
}

#[test]
fn login_keeps_existing_sessions() {
    let cfg = config_with_password("secret");
    let mut t = Sessions { sessions: vec![Session { id: "older".to_string(), delta: 0 }] };
    assert!(authenticate(&cfg, &mut t, "admin", "secret", "newer"));
    assert_eq!(t.sessions.len(), 2);
    assert_eq!(t.sessions[0].id, "older");
    assert_eq!(t.sessions[1].id, "newer");
    assert!(authorize(&t, "older"));
    assert!(authorize(&t, "newer"));
}
