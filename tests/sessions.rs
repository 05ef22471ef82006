use katastr::auth::{check_password, login, LoginError, SESSION_ID_LEN};
use katastr::gate::{check_request, session_cookie, GateDecision, HttpMethod};
use katastr::models::AppState;
use katastr::session::SessionRegistry;

#[test]
fn cookie_value_is_found_among_pairs() {
    assert_eq!(session_cookie("katastr_session=abc").as_deref(), Some("abc"));
    assert_eq!(session_cookie("theme=dark; katastr_session=xyz ; lang=cs").as_deref(), Some("xyz"));
    assert_eq!(session_cookie("  katastr_session=a=b").as_deref(), Some("a=b"));
    assert_eq!(session_cookie("katastr_session=first; katastr_session=second").as_deref(), Some("first"));
}

#[test]
fn cookie_value_absent() {
    assert_eq!(session_cookie(""), None);
    assert_eq!(session_cookie("theme=dark"), None);
    assert_eq!(session_cookie("katastr_session"), None);
    assert_eq!(session_cookie("katastr_sessionX=1; xkatastr_session=2"), None);
}

#[test]
fn reads_pass_without_a_cookie() {
    let sessions = SessionRegistry::new();
    assert_eq!(check_request(HttpMethod::Get, "/kraj", None, &sessions, 0), GateDecision::Allow);
    assert_eq!(check_request(HttpMethod::Options, "/kraj", None, &sessions, 0), GateDecision::Allow);
}

#[test]
fn writes_need_a_cookie() {
    let sessions = SessionRegistry::new();
    let d = check_request(HttpMethod::Post, "/kraj", None, &sessions, 0);
    assert_eq!(d, GateDecision::MissingCookie);
    assert_eq!(d.status(), Some(401));
    assert_eq!(d.message(), "Missing auth cookie");
    let d = check_request(HttpMethod::Delete, "/kraj", Some("other=1"), &sessions, 0);
    assert_eq!(d, GateDecision::MissingCookie);
}

#[test]
fn unknown_session_is_refused() {
    let sessions = SessionRegistry::new();
    let d = check_request(HttpMethod::Put, "/kraj", Some("katastr_session=nope"), &sessions, 0);
    assert_eq!(d, GateDecision::InvalidSession);
    assert_eq!(d.message(), "Invalid session");
    assert_eq!(d.status(), Some(401));
}

#[test]
fn public_paths_pass_writes() {
    let sessions = SessionRegistry::new();
    assert_eq!(check_request(HttpMethod::Post, "/auth", None, &sessions, 0), GateDecision::Allow);
    assert_eq!(check_request(HttpMethod::Post, "/health", None, &sessions, 0), GateDecision::Allow);
    assert_eq!(check_request(HttpMethod::Head, "/kraj", None, &sessions, 0), GateDecision::MissingCookie);
}

#[test]
fn fresh_login_cookie_passes_the_gate() {
    let mut state = AppState::new("unused".to_string(), false);
    let grant = login(Ok(true), &mut state.sessions, 1000).unwrap();
    assert_eq!(grant.session_id.len(), SESSION_ID_LEN);
    assert!(grant.session_id.chars().all(|c| c.is_ascii_alphanumeric()));
    assert_eq!(
        grant.set_cookie,
        format!("katastr_session={}; Max-Age=3600; Path=/; HttpOnly", grant.session_id)
    );
    assert_eq!(state.sessions.len(), 1);
    assert_eq!(state.sessions.created_at(&grant.session_id), Some(1000));
    let header = format!("katastr_session={}", grant.session_id);
    assert_eq!(check_request(HttpMethod::Post, "/kraj", Some(&header), &state.sessions, 1001), GateDecision::Allow);
    assert_eq!(check_request(HttpMethod::Post, "/kraj", None, &state.sessions, 1001), GateDecision::MissingCookie);
}

#[test]
fn sessions_never_expire_by_default() {
    let mut sessions = SessionRegistry::new();
    sessions.create("abc".to_string(), 10);
    assert!(sessions.is_valid("abc", 10 + 1_000_000));
    assert!(!sessions.is_valid("abd", 10));
}

#[test]
fn expiry_policy_is_explicit() {
    let mut sessions = SessionRegistry::with_max_age(3600);
    sessions.create("abc".to_string(), 100);
    assert!(sessions.is_valid("abc", 3700));
    assert!(!sessions.is_valid("abc", 3701));
    let d = check_request(HttpMethod::Post, "/kraj", Some("katastr_session=abc"), &sessions, 5000);
    assert_eq!(d, GateDecision::InvalidSession);
}

#[test]
fn recreating_a_session_replaces_it() {
    let mut sessions = SessionRegistry::new();
    sessions.create("a".to_string(), 1);
    sessions.create("b".to_string(), 2);
    sessions.create("a".to_string(), 3);
    assert_eq!(sessions.len(), 2);
    assert_eq!(sessions.created_at("a"), Some(3));
    assert_eq!(sessions.created_at("b"), Some(2));
}

#[test]
fn wrong_password_gives_401_and_no_cookie() {
    let hash = bcrypt::hash("heslo", 4).unwrap();
    let check = check_password("wrong", &hash);
    assert_eq!(check, Ok(false));
    let mut sessions = SessionRegistry::new();
    let err = login(check, &mut sessions, 0).unwrap_err();
    assert!(matches!(err, LoginError::Denied));
    assert_eq!(err.status(), 401);
    assert_eq!(err.message(), "Invalid hash");
    assert_eq!(sessions.len(), 0);
}

#[test]
fn right_password_is_accepted() {
    let hash = bcrypt::hash("heslo", 4).unwrap();
    assert_eq!(check_password("heslo", &hash), Ok(true));
}

#[test]
fn unreadable_hash_fails_the_check() {
    let check = check_password("heslo", "not a hash");
    let m = check.clone().unwrap_err();
    assert!(m.starts_with("Bcrypt error: "));
    let mut sessions = SessionRegistry::new();
    let err = login(check, &mut sessions, 0).unwrap_err();
    assert_eq!(err.status(), 500);
    assert_eq!(err.message(), m);
}
