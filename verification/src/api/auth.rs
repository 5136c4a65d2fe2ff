//! The web interface's password, sessions and cookies.

use crate::clock::{rfc3339_text, to_rfc3339, Moment};
use crate::codec::{argon2_accepts, argon2_hash, argon2_verify, base64url_encode, base64url_text, random_bytes};
use crate::error::{bad_request, AppError};
use crate::text::{
    after_char, before_char, cat2, cat5, cut, int_text, int_to_text, lemma_place_of, opt_str,
    opt_text, same, trim, trim_end_matches, trim_start_matches, trimmed, without_leading,
    without_trailing,
};
use vstd::prelude::*;
use vstd::utf8::encode_utf8;

verus! {

/// The setting that holds the password's hash.
pub const SETTING_WEB_UI_PASSWORD_HASH: &'static str = "web_ui_password_hash";

/// The cookie that holds a session's token.
pub const SESSION_COOKIE: &'static str = "keysat_session";

/// How long a session lasts, in seconds: a day.
pub const SESSION_TTL_SECS: i64 = 86_400;

/// Sets the password.
#[derive(Clone, Debug)]
pub struct SetPasswordReq {
    /// At least twelve characters.
    pub password: String,
}

/// Opens a session.
#[derive(Clone, Debug)]
pub struct LoginReq {
    pub password: String,
}

/// A hash of a password to store. Hashes of one password differ; each is
/// accepted for the password.
pub fn hash_password(plaintext: &str) -> (r: Result<String, AppError>)
    ensures
        match r {
            Ok(hash) => argon2_accepts(encode_utf8(plaintext@), hash@),
            Err(e) => e is Internal && encode_utf8(plaintext@).len() > 0xFFFF_FFFF,
        },
{
    match argon2_hash(plaintext.as_bytes()) {
        Ok(hash) => Ok(hash),
        Err(e) => Err(AppError::Internal(cat2("argon2 hash failed: ", e.as_str()))),
    }
}

/// Whether a password is the one that was hashed.
pub fn verify_password(plaintext: &str, phc_hash: &str) -> (r: bool)
    ensures
        r == argon2_accepts(encode_utf8(plaintext@), phc_hash@),
{
    argon2_verify(plaintext.as_bytes(), phc_hash)
}

/// The token of a session that is made of the given bytes.
pub fn session_token_of(raw: &[u8; 32]) -> (r: String)
    ensures
        r@ == base64url_text(raw@),
{
    base64url_encode(raw.as_slice())
}

/// A session's token, made of 32 random bytes.
pub fn new_session_token() -> (r: String)
    ensures
        exists|raw: [u8; 32]| r@ == #[trigger] base64url_text(raw@),
{
    let raw: [u8; 32] = random_bytes();
    session_token_of(&raw)
}

/// Is `r` the hash to store for a new password?
pub open spec fn is_password_set(password: Seq<char>, r: Result<String, AppError>) -> bool {
    match r {
        Ok(hash) => password.len() >= 12 && argon2_accepts(encode_utf8(password), hash@),
        Err(e) => {
            ||| password.len() < 12 && e.is_bad_request("password must be at least 12 characters"@)
            ||| password.len() >= 12 && e is Internal && encode_utf8(password).len() > 0xFFFF_FFFF
        },
    }
}

/// The hash to store for a new password, which is at least twelve characters.
pub fn set_password(req: &SetPasswordReq) -> (r: Result<String, AppError>)
    ensures
        is_password_set(req.password@, r),
{
    if req.password.as_str().unicode_len() < 12 {
        return Err(bad_request("password must be at least 12 characters"));
    }
    hash_password(req.password.as_str())
}

// ---------- logging in ----------

/// What has been found out about an attempt to log in so far.
#[derive(Clone, Debug)]
pub struct LoginFacts {
    /// Whether the rate limit lets the attempt through.
    pub admitted: Option<bool>,
    /// The stored hash of the password.
    pub stored: Option<Option<String>>,
}

/// What an attempt to log in needs next.
#[derive(Clone, Debug)]
pub enum LoginStep {
    ConsumeToken { bucket: String },
    FindHash,
    Refuse { error: AppError },
    /// The password is wrong: the attempt is logged, and refused.
    WrongPassword,
    OpenSession,
}

/// Is `step` what an attempt to log in needs next?
pub open spec fn is_login_step(
    client: Option<String>,
    password: Seq<char>,
    facts: LoginFacts,
    step: LoginStep,
) -> bool {
    match facts.admitted {
        None => step matches LoginStep::ConsumeToken { bucket } && bucket@ == match client {
            Some(ip) => ip@,
            None => "unknown"@,
        },
        Some(admitted) => if !admitted {
            step matches LoginStep::Refuse { error } && (error matches AppError::TooManyRequests(m)
                && m@ == "too many login attempts; try again in a few minutes"@)
        } else {
            match facts.stored {
                None => step is FindHash,
                Some(None) => step matches LoginStep::Refuse { error } && (
                error matches AppError::ServiceUnavailable(m) && m@
                    == "web UI password is not configured. Set one via the StartOS \"Set web UI password\" action."@),
                Some(Some(hash)) => if argon2_accepts(encode_utf8(password), hash@) {
                    step is OpenSession
                } else {
                    step is WrongPassword
                },
            }
        },
    }
}

/// What an attempt to log in needs next.
pub fn login(client: &Option<String>, req: &LoginReq, facts: &LoginFacts) -> (r: LoginStep)
    ensures
        is_login_step(*client, req.password@, *facts, r),
{
    match facts.admitted {
        None => {
            return LoginStep::ConsumeToken {
                bucket: match client {
                    Some(ip) => ip.clone(),
                    None => String::from_str("unknown"),
                },
            };
        },
        Some(admitted) => {
            if !admitted {
                return LoginStep::Refuse {
                    error: AppError::TooManyRequests(
                        String::from_str("too many login attempts; try again in a few minutes"),
                    ),
                };
            }
        },
    }
    match &facts.stored {
        None => LoginStep::FindHash,
        Some(None) => LoginStep::Refuse {
            error: AppError::ServiceUnavailable(
                String::from_str(
                    "web UI password is not configured. Set one via the StartOS \"Set web UI password\" action.",
                ),
            ),
        },
        Some(Some(hash)) => if verify_password(req.password.as_str(), hash.as_str()) {
            LoginStep::OpenSession
        } else {
            LoginStep::WrongPassword
        },
    }
}

/// Whoever sets a password can log in with it: once its hash is stored, an
/// admitted attempt with the same password opens a session.
pub proof fn the_password_that_was_set_opens_a_session(
    client: Option<String>,
    password: Seq<char>,
    hash: String,
    facts: LoginFacts,
    step: LoginStep,
)
    requires
        argon2_accepts(encode_utf8(password), hash@),
        facts.admitted == Some(true),
        facts.stored == Some(Some(hash)),
        is_login_step(client, password, facts, step),
    ensures
        step is OpenSession,
{
}

/// A session to store.
#[derive(Clone, Debug)]
pub struct NewSession {
    pub token: String,
    pub created_at: String,
    pub expires_at: String,
}

/// Is `r` the session to store for a token?
pub open spec fn is_session(token: String, now: Moment, r: NewSession) -> bool {
    &&& r.token == token
    &&& r.created_at@ == rfc3339_text(now.secs, now.nanos)
    &&& r.expires_at@ == rfc3339_text((now.secs + SESSION_TTL_SECS) as i64, now.nanos)
}

/// The session to store for a token: it lasts a day from now.
pub fn open_session(token: String, now: &Moment) -> (r: NewSession)
    requires
        now.in_calendar(),
        now.can_add(SESSION_TTL_SECS as int),
    ensures
        is_session(token, *now, r),
{
    let end: Moment = now.plus(SESSION_TTL_SECS);
    NewSession { token, created_at: to_rfc3339(now), expires_at: to_rfc3339(&end) }
}

// ---------- cookies ----------

/// The cookie that carries a session's token: out of scripts' reach, over
/// secure connections and to this site only.
pub fn session_cookie(token: &str) -> (r: String)
    ensures
        r@ == SESSION_COOKIE@ + "="@ + token@
            + "; Path=/; HttpOnly; Secure; SameSite=Strict; Max-Age="@ + int_text(
            SESSION_TTL_SECS as int,
        ),
{
    cat5(
        SESSION_COOKIE,
        "=",
        token,
        "; Path=/; HttpOnly; Secure; SameSite=Strict; Max-Age=",
        int_to_text(SESSION_TTL_SECS).as_str(),
    )
}

/// The cookie that ends a session.
pub fn cleared_cookie() -> (r: String)
    ensures
        r@ == SESSION_COOKIE@ + "=; Path=/; HttpOnly; Secure; SameSite=Strict; Max-Age=0"@,
{
    cat2(SESSION_COOKIE, "=; Path=/; HttpOnly; Secure; SameSite=Strict; Max-Age=0")
}

/// The value of a cookie: without white space, then without quotes, around it.
pub open spec fn cookie_value(v: Seq<char>) -> Seq<char> {
    without_trailing(without_leading(trimmed(v), '"'), '"')
}

/// The session's token in the text of a cookie header.
pub open spec fn session_in(raw: Seq<char>) -> Option<Seq<char>>
    decreases raw.len(),
{
    proof {
        lemma_place_of(raw, ';');
    }
    let pair = trimmed(before_char(raw, ';'));
    match after_char(pair, '=') {
        Some(v) if trimmed(before_char(pair, '=')) == SESSION_COOKIE@ => Some(cookie_value(v)),
        _ => match after_char(raw, ';') {
            Some(rest) => session_in(rest),
            None => None,
        },
    }
}

/// The session's token in a cookie header.
pub fn extract_session_cookie(header: Option<&str>) -> (r: Option<String>)
    ensures
        opt_text(r) == match opt_str(header) {
            Some(raw) => session_in(raw),
            None => None,
        },
{
    let raw: &str = match header {
        None => {
            return None;
        },
        Some(raw) => raw,
    };
    let mut rest: &str = raw;
    loop
        invariant
            opt_str(header) == Some(raw@),
            session_in(raw@) == session_in(rest@),
        decreases rest@.len(),
    {
        proof {
            lemma_place_of(rest@, ';');
        }
        let (first, more) = cut(rest, ';');
        let pair: &str = trim(first);
        let (k, v) = cut(pair, '=');
        if let Some(v) = v {
            if same(trim(k), SESSION_COOKIE) {
                let value: &str = trim_end_matches(trim_start_matches(trim(v), '"'), '"');
                return Some(String::from_str(value));
            }
        }
        match more {
            None => {
                return None;
            },
            Some(more) => {
                rest = more;
            },
        }
    }
}

/// What the web interface is told before anyone has logged in.
#[derive(Clone, Copy, Debug, PartialEq, Eq)]
pub struct LoginStatus {
    pub has_password: bool,
    pub logged_in: bool,
}

/// What the web interface is told: whether there is a password, and whether the
/// request carries a session that is valid.
pub fn login_status(stored: &Option<String>, session_valid: Option<bool>) -> (r: LoginStatus)
    ensures
        r.has_password == stored is Some,
        r.logged_in == (session_valid == Some(true)),
{
    LoginStatus { has_password: stored.is_some(), logged_in: session_valid.unwrap_or(false) }
}

} // verus!
