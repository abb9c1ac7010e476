//! Login and the bearer header: what the HTTP front door asks of the bus,
//! and what it answers.
use vstd::prelude::*;
use vstd::string::StrSliceExecFns;

use crate::actors::{auth_topic, reply_body};
use crate::message::{Message, MessageBody};
use crate::overlay::RequestResult;

verus! {

/// The answer to a login attempt: the token, or the generic failure text.
#[derive(Debug, PartialEq, Eq)]
pub struct AuthenticationResponse {
    pub success: bool,
    pub message: String,
}

/// The outcome of checking an `Authorization` header: the bearer token it
/// carries, or why it carries none.
#[derive(Debug, PartialEq, Eq)]
pub struct AuthorizationResponse {
    pub authorized: bool,
    pub message: String,
}

/// The request a login attempt publishes to the authentication actor,
/// stamped `now`.
pub fn login_request(user: String, password: String, now: u64) -> (r: Message)
    ensures
        r.body == (MessageBody::AuthenticationRequest { user, password }),
        r.topic matches Some(t) && t@ == "auth"@,
        r.is_request,
        r.timestamp == now,
{
    Message::new(
        MessageBody::AuthenticationRequest { user, password },
        Some(auth_topic()),
        true,
        now,
    )
}

/// The answer to a login attempt, from the authentication actor's reply:
/// success with the token when the reply grants one, and otherwise the
/// failure text `Authentication failed`, whatever went wrong.
pub fn login_outcome(outcome: &RequestResult) -> (r: AuthenticationResponse)
    ensures
        match reply_body(*outcome) {
            Some(MessageBody::AuthenticationResponse(Ok(token))) => r.success && r.message == token,
            _ => !r.success && r.message@ == "Authentication failed"@,
        },
{
    if let Ok(Some(m)) = outcome {
        if let MessageBody::AuthenticationResponse(Ok(token)) = &m.body {
            return AuthenticationResponse { success: true, message: token.clone() };
        }
    }
    AuthenticationResponse { success: false, message: String::from_str("Authentication failed") }
}

/// The scheme prefix of a bearer credential.
pub open spec fn bearer_prefix() -> Seq<char> {
    "Bearer "@
}

/// Whether `s` begins with `Bearer `.
pub open spec fn has_bearer_prefix(s: Seq<char>) -> bool {
    s.len() >= 7 && s.subrange(0, 7) == bearer_prefix()
}

/// `s` with every leading repetition of `Bearer ` removed.
pub open spec fn strip_bearer(s: Seq<char>) -> Seq<char>
    decreases s.len(),
{
    if has_bearer_prefix(s) {
        strip_bearer(s.subrange(7, s.len() as int))
    } else {
        s
    }
}

/// What `str::trim` gives for a text.
pub uninterp spec fn trimmed(s: Seq<char>) -> Seq<char>;

/// Relies on str::trim: the text without leading and trailing whitespace,
/// which depends on the text alone.
#[verifier::external_body]
fn trim(s: &str) -> (r: &str)
    ensures
        r@ == trimmed(s@),
{
    s.trim()
}

/// Whether `s` begins with `Bearer `.
fn starts_with_bearer(s: &str) -> (r: bool)
    ensures
        r == has_bearer_prefix(s@),
{
    proof {
        reveal_strlit("Bearer ");
    }
    let prefix = "Bearer ";
    let n = s.unicode_len();
    if n < 7 {
        return false;
    }
    let mut i: usize = 0;
    while i < 7
        invariant
            i <= 7,
            n == s@.len(),
            n >= 7,
            prefix@ == bearer_prefix(),
            prefix@.len() == 7,
            s@.subrange(0, i as int) == prefix@.subrange(0, i as int),
        decreases 7 - i,
    {
        if s.get_char(i) != prefix.get_char(i) {
            proof {
                assert(s@.subrange(0, 7)[i as int] != prefix@[i as int]);
            }
            return false;
        }
        proof {
            assert(s@.subrange(0, i + 1) =~= s@.subrange(0, i as int).push(s@[i as int]));
            assert(prefix@.subrange(0, i + 1) =~= prefix@.subrange(0, i as int).push(
                prefix@[i as int],
            ));
        }
        i += 1;
    }
    proof {
        assert(prefix@.subrange(0, 7) =~= prefix@);
    }
    true
}

/// The check of an `Authorization` header: a header that begins with
/// `Bearer ` carries the token that follows, once every leading `Bearer `
/// is removed and the rest trimmed; anything else is refused.
pub fn check_authorization(header: Option<&str>) -> (r: AuthorizationResponse)
    ensures
        match header {
            Some(h) => if has_bearer_prefix(h@) {
                r.authorized && r.message@ == trimmed(strip_bearer(h@))
            } else {
                !r.authorized && r.message@ == "Missing or invalid Authorization header"@
            },
            None => !r.authorized && r.message@ == "Missing or invalid Authorization header"@,
        },
{
    if let Some(h) = header {
        if starts_with_bearer(h) {
            let mut rest: &str = h;
            while starts_with_bearer(rest)
                invariant
                    strip_bearer(rest@) == strip_bearer(h@),
                decreases rest@.len(),
            {
                let n = rest.unicode_len();
                rest = rest.substring_char(7, n);
            }
            return AuthorizationResponse {
                authorized: true,
                message: String::from_str(trim(rest)),
            };
        }
    }
    AuthorizationResponse {
        authorized: false,
        message: String::from_str("Missing or invalid Authorization header"),
    }
}

} // verus!
