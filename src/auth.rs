//! Login by session cookie or by basic-auth credentials.

use vstd::prelude::*;

verus! {

/// The lowercase hex SHA-256 digest that `sha256::digest` gives for a text.
pub uninterp spec fn sha256_hex_of(s: Seq<char>) -> Seq<char>;

/// Relies on sha256::digest on a `&str`: the hex digest of the text's bytes,
/// which depends on the text alone.
#[verifier::external_body]
fn sha256_digest(s: &str) -> (r: String)
    ensures
        r@ == sha256_hex_of(s@),
{
    sha256::digest(s)
}

/// The session cookie handed to a client that logged in.
pub struct SessionCookie {
    pub name: String,
    pub value: String,
    pub http_only: bool,
    pub secure: bool,
    pub same_site_strict: bool,
    pub path: String,
}

/// How a login attempt ends.
pub enum LoginOutcome {
    /// The cookie's session is valid: it is handed out again.
    RefreshSession(SessionCookie),
    /// The credentials are the administrator's: no session is made.
    Admin,
    /// The user's password matched: a new session is to be made for the user.
    NewSession(String),
    Unauthorized,
}

/// The cookie that carries a session id: HTTP-only, strict same-site, not
/// secure-only, for the API's path.
pub fn create_session_cookie(session_id: String) -> (r: SessionCookie)
    ensures
        r.name@ == "sessionid"@,
        r.value == session_id,
        r.http_only,
        !r.secure,
        r.same_site_strict,
        r.path@ == "/api"@,
{
    SessionCookie {
        name: String::from_str("sessionid"),
        value: session_id,
        http_only: true,
        secure: false,
        same_site_strict: true,
        path: String::from_str("/api"),
    }
}

/// `r` is the outcome a login attempt owes, given the digest of its password.
/// `stored_password` is `None` where the user does not exist, `Some(None)`
/// where the user has no password.
pub open spec fn is_login_outcome(
    r: LoginOutcome,
    valid_session: Option<String>,
    path_username: Seq<char>,
    basic_username: Seq<char>,
    password: Seq<char>,
    admin_username: Seq<char>,
    admin_password: Seq<char>,
    stored_password: Option<Option<String>>,
    password_digest: Seq<char>,
) -> bool {
    if valid_session is Some {
        &&& r is RefreshSession
        &&& r->RefreshSession_0.value == valid_session->Some_0
        &&& r->RefreshSession_0.name@ == "sessionid"@
        &&& r->RefreshSession_0.http_only && !r->RefreshSession_0.secure
        &&& r->RefreshSession_0.same_site_strict && r->RefreshSession_0.path@ == "/api"@
    } else if basic_username != path_username {
        r is Unauthorized
    } else if path_username == admin_username && password == admin_password {
        r is Admin
    } else {
        match stored_password {
            Some(Some(hash)) => if hash@ == password_digest {
                r is NewSession && r->NewSession_0@ == path_username
            } else {
                r is Unauthorized
            },
            _ => r is Unauthorized,
        }
    }
}

/// Decides a login, given the digest of the offered password: a valid
/// session cookie wins; else the basic-auth user must be the user of the path,
/// and either the administrator's credentials or the user's stored digest
/// must match.
pub fn login_with_digest(
    valid_session: Option<String>,
    path_username: &String,
    basic_username: &String,
    password: &String,
    admin_username: &String,
    admin_password: &String,
    stored_password: &Option<Option<String>>,
    password_digest: &String,
) -> (r: LoginOutcome)
    ensures
        is_login_outcome(
            r,
            valid_session,
            path_username@,
            basic_username@,
            password@,
            admin_username@,
            admin_password@,
            *stored_password,
            password_digest@,
        ),
{
    if let Some(session_id) = valid_session {
        return LoginOutcome::RefreshSession(create_session_cookie(session_id));
    }
    if *basic_username != *path_username {
        return LoginOutcome::Unauthorized;
    }
    if *path_username == *admin_username && *password == *admin_password {
        return LoginOutcome::Admin;
    }
    match stored_password {
        Some(Some(hash)) => {
            if *hash == *password_digest {
                LoginOutcome::NewSession(path_username.clone())
            } else {
                LoginOutcome::Unauthorized
            }
        },
        _ => LoginOutcome::Unauthorized,
    }
}

/// Decides a login; the user's stored password is compared with the SHA-256
/// digest of the offered one.
pub fn login(
    valid_session: Option<String>,
    path_username: &String,
    basic_username: &String,
    password: &String,
    admin_username: &String,
    admin_password: &String,
    stored_password: &Option<Option<String>>,
) -> (r: LoginOutcome)
    ensures
        is_login_outcome(
            r,
            valid_session,
            path_username@,
            basic_username@,
            password@,
            admin_username@,
            admin_password@,
            *stored_password,
            sha256_hex_of(password@),
        ),
{
    let digest = sha256_digest(password.as_str());
    login_with_digest(
        valid_session,
        path_username,
        basic_username,
        password,
        admin_username,
        admin_password,
        stored_password,
        &digest,
    )
}

} // verus!
