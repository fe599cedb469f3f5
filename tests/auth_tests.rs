use podfetch::auth::{create_session_cookie, login, login_with_digest, LoginOutcome};

const HELLO_DIGEST: &str = "2cf24dba5fb0a30e26e83b2ac5b9e29e1b161e5c1fa7425e73043362938b9824";

fn s(v: &str) -> String {
    v.to_string()
}

#[test]
fn session_cookie_attributes() {
    let c = create_session_cookie(s("abc"));
    assert_eq!(c.name, "sessionid");
    assert_eq!(c.value, "abc");
    assert!(c.http_only && !c.secure && c.same_site_strict);
    assert_eq!(c.path, "/api");
}

#[test]
fn valid_session_is_refreshed() {
    let r = login(Some(s("sess")), &s("u"), &s("x"), &s("p"), &s("admin"), &s("pw"), &None);
    assert!(matches!(r, LoginOutcome::RefreshSession(c) if c.value == "sess"));
}

#[test]
fn mismatched_basic_user_is_unauthorized() {
    let r = login(None, &s("alice"), &s("bob"), &s("pw"), &s("alice"), &s("pw"), &None);
    assert!(matches!(r, LoginOutcome::Unauthorized));
}

#[test]
fn admin_credentials_pass() {
    let r = login(None, &s("admin"), &s("admin"), &s("pw"), &s("admin"), &s("pw"), &None);
    assert!(matches!(r, LoginOutcome::Admin));
}

#[test]
fn stored_digest_must_match() {
    let ok = login(None, &s("alice"), &s("alice"), &s("hello"), &s("admin"), &s("pw"), &Some(Some(s(HELLO_DIGEST))));
    assert!(matches!(ok, LoginOutcome::NewSession(u) if u == "alice"));
    let bad = login(None, &s("alice"), &s("alice"), &s("hellO"), &s("admin"), &s("pw"), &Some(Some(s(HELLO_DIGEST))));
    assert!(matches!(bad, LoginOutcome::Unauthorized));
    let plain = login(None, &s("alice"), &s("alice"), &s("hello"), &s("admin"), &s("pw"), &Some(Some(s("hello"))));
    assert!(matches!(plain, LoginOutcome::Unauthorized));
}

#[test]
fn unknown_user_or_missing_password_is_unauthorized() {
    let r = login(None, &s("alice"), &s("alice"), &s("hello"), &s("admin"), &s("pw"), &None);
    assert!(matches!(r, LoginOutcome::Unauthorized));
    let r = login(None, &s("alice"), &s("alice"), &s("hello"), &s("admin"), &s("pw"), &Some(None));
    assert!(matches!(r, LoginOutcome::Unauthorized));
}

#[test]
fn decision_with_given_digest() {
    let r = login_with_digest(None, &s("a"), &s("a"), &s("x"), &s("admin"), &s("pw"), &Some(Some(s("d"))), &s("d"));
    assert!(matches!(r, LoginOutcome::NewSession(u) if u == "a"));
}
