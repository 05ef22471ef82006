//! Login: the password check and the opening of a session.

use vstd::prelude::*;

use rand::Rng;

use crate::session::{SessionRegistry, SESSION_COOKIE};

verus! {

/// Length of a session id.
pub const SESSION_ID_LEN: usize = 32;

/// What `bcrypt::verify` answers for a password and a stored hash: `Some(matches)`, or
/// `None` where the hash cannot be read.
pub uninterp spec fn bcrypt_verdict(password: Seq<char>, hash: Seq<char>) -> Option<bool>;

#[verifier::external_type_specification]
#[verifier::external_body]
pub struct ExBcryptError(bcrypt::BcryptError);

/// Relies on `bcrypt::verify`: its answer depends on the password and the hash alone
/// (the salt and cost are read from the hash), and it fails exactly where it cannot use
/// the hash.
#[verifier::external_body]
fn bcrypt_verify(password: &str, hash: &str) -> (r: Result<bool, bcrypt::BcryptError>)
    ensures
        match r {
            Ok(b) => bcrypt_verdict(password@, hash@) == Some(b),
            Err(_) => bcrypt_verdict(password@, hash@) is None,
        },
{
    bcrypt::verify(password, hash)
}

/// Relies on the `Display` impl of `bcrypt::BcryptError` for the text of the error.
#[verifier::external_body]
fn bcrypt_error_text(e: &bcrypt::BcryptError) -> String {
    e.to_string()
}

/// An ASCII letter or digit.
pub open spec fn is_alphanumeric_ascii(c: char) -> bool {
    let u = c as u32;
    (0x30 <= u <= 0x39) || (0x41 <= u <= 0x5a) || (0x61 <= u <= 0x7a)
}

/// Relies on `rand::distr::Alphanumeric`, sampled with the thread-local generator: each
/// sample is one of `A-Z`, `a-z`, `0-9`, and `take(len)` keeps `len` of them.
#[verifier::external_body]
fn random_alphanumeric(len: usize) -> (r: String)
    ensures
        r@.len() == len,
        forall|i: int| 0 <= i < len ==> is_alphanumeric_ascii(#[trigger] r@[i]),
{
    rand::rng().sample_iter(&rand::distr::Alphanumeric).take(len).map(char::from).collect()
}

/// Checks a submitted password against the server's stored bcrypt hash.
///
/// This is the slow step of a login; callers run it away from request handling.
pub fn check_password(password: &str, hash: &str) -> (r: Result<bool, String>)
    ensures
        match r {
            Ok(b) => bcrypt_verdict(password@, hash@) == Some(b),
            Err(m) => bcrypt_verdict(password@, hash@) is None && m@.len() >= "Bcrypt error: "@.len()
                && m@.subrange(0, "Bcrypt error: "@.len() as int) == "Bcrypt error: "@,
        },
{
    match bcrypt_verify(password, hash) {
        Ok(b) => Ok(b),
        Err(e) => {
            let prefix = String::from_str("Bcrypt error: ");
            let m = prefix.concat(bcrypt_error_text(&e).as_str());
            assert(m@.subrange(0, "Bcrypt error: "@.len() as int) =~= "Bcrypt error: "@);
            Err(m)
        },
    }
}

/// The `Set-Cookie` value that hands a session id to the client.
pub open spec fn set_cookie_text(id: Seq<char>) -> Seq<char> {
    SESSION_COOKIE@ + "="@ + id + "; Max-Age=3600; Path=/; HttpOnly"@
}

/// A started session: its id and the `Set-Cookie` value that carries it.
#[derive(Clone, Debug)]
pub struct LoginGrant {
    pub session_id: String,
    pub set_cookie: String,
}

/// Why a login gives no session.
#[derive(Clone, Debug)]
pub enum LoginError {
    /// The password does not match; status 401.
    Denied,
    /// The check itself failed; status 500 with the text.
    Failed(String),
}

impl LoginError {
    pub fn status(&self) -> (r: u16)
        ensures
            r == match self {
                LoginError::Denied => 401u16,
                LoginError::Failed(_) => 500u16,
            },
    {
        match self {
            LoginError::Denied => 401,
            LoginError::Failed(_) => 500,
        }
    }

    pub fn message(&self) -> (r: String)
        ensures
            r@ == match self {
                LoginError::Denied => "Invalid hash"@,
                LoginError::Failed(m) => m@,
            },
    {
        match self {
            LoginError::Denied => String::from_str("Invalid hash"),
            LoginError::Failed(m) => m.clone(),
        }
    }
}

/// A session id as minted: `SESSION_ID_LEN` ASCII letters and digits.
pub open spec fn is_session_id(id: Seq<char>) -> bool {
    id.len() == SESSION_ID_LEN && forall|i: int| 0 <= i < id.len() ==> is_alphanumeric_ascii(#[trigger] id[i])
}

/// Finishes a login from the outcome of the password check: on a match, mints a random
/// session id, records it as created at `now` and returns it with its cookie; otherwise
/// the registry is left as it was.
pub fn login(check: Result<bool, String>, sessions: &mut SessionRegistry, now: u64) -> (r: Result<
    LoginGrant,
    LoginError,
>)
    requires
        old(sessions).wf(),
    ensures
        final(sessions).wf(),
        final(sessions).max_age_spec() == old(sessions).max_age_spec(),
        match check {
            Ok(true) => r matches Ok(g) && is_session_id(g.session_id@) && g.set_cookie@
                == set_cookie_text(g.session_id@) && final(sessions)@ == old(sessions)@.insert(
                g.session_id@,
                now,
            ),
            Ok(false) => r matches Err(LoginError::Denied) && final(sessions)@ == old(sessions)@,
            Err(m) => r matches Err(LoginError::Failed(t)) && t@ == m@ && final(sessions)@ == old(
                sessions,
            )@,
        },
{
    match check {
        Err(m) => Err(LoginError::Failed(m)),
        Ok(false) => Err(LoginError::Denied),
        Ok(true) => {
            let id = random_alphanumeric(SESSION_ID_LEN);
            let set_cookie = String::from_str(SESSION_COOKIE).concat("=").concat(id.as_str()).concat(
                "; Max-Age=3600; Path=/; HttpOnly",
            );
            sessions.create(id.clone(), now);
            Ok(LoginGrant { session_id: id, set_cookie })
        },
    }
}

} // verus!
