use vstd::prelude::*;

use crate::models::opt_view;
use crate::store::{has_id, AccountStore, StoreError, User, UserView};
use crate::text::same_text;

verus! {

/// What uuid's parser reads from a text: the identifier as a 128-bit
/// integer, or `None` when the text is not a UUID in any of its formats.
pub uninterp spec fn parsed_uuid(s: Seq<char>) -> Option<u128>;

/// Relies on uuid::Uuid::parse_str (simple, hyphenated, braced and URN
/// forms): the answer depends on the text alone.
#[verifier::external_body]
fn parse_uuid(s: &str) -> (r: Option<u128>)
    ensures
        r == parsed_uuid(s@),
{
    match uuid::Uuid::parse_str(s) {
        Ok(u) => Some(u.as_u128()),
        Err(_) => None,
    }
}

/// Relies on jsonwebtoken::decode with its default validation (an HS256
/// signature under `secret`, and an `exp` claim that has not passed, give or
/// take its default leeway of 60 seconds): the
/// `sub` claim of a token that passes, `None` for a token that does not, or
/// whose subject is not a string. The answer depends on the clock.
#[verifier::external_body]
fn decode_subject(token: &str, secret: &[u8]) -> (r: Option<String>) {
    let key = jsonwebtoken::DecodingKey::from_secret(secret);
    let validation = jsonwebtoken::Validation::default();
    match jsonwebtoken::decode::<std::collections::HashMap<String, serde_json::Value>>(token, &key, &validation) {
        Ok(data) => match data.claims.get("sub") {
            Some(serde_json::Value::String(s)) => Some(s.clone()),
            _ => None,
        },
        Err(_) => None,
    }
}

/// Why a request was not authenticated.
#[derive(Clone, Copy, Debug, PartialEq, Eq, Structural)]
pub enum AuthError {
    /// Neither the cookie nor the header carried a token.
    NotProvided,
    /// The token is forged, expired or malformed, or its subject is not an identifier.
    InvalidToken,
    /// The account behind a valid token no longer exists.
    UserGone,
    /// The store failed while loading the account.
    InternalError,
}

pub open spec fn auth_message(e: AuthError) -> Seq<char> {
    match e {
        AuthError::NotProvided => "Token not provided"@,
        AuthError::InvalidToken => "Invalid token"@,
        AuthError::UserGone => "The user belonging to this token no longer exists"@,
        AuthError::InternalError => "Internal server error"@,
    }
}

impl AuthError {
    /// The client-facing message for this rejection; it does not say which check a token failed.
    pub fn message(&self) -> (r: String)
        ensures
            r@ == auth_message(*self),
    {
        match self {
            AuthError::NotProvided => String::from_str("Token not provided"),
            AuthError::InvalidToken => String::from_str("Invalid token"),
            AuthError::UserGone => String::from_str("The user belonging to this token no longer exists"),
            AuthError::InternalError => String::from_str("Internal server error"),
        }
    }
}
pub open spec fn auth_status(e: AuthError) -> u16 {
    match e {
        AuthError::InternalError => 500,
        _ => 401,
    }
}

impl AuthError {
    /// The HTTP status of the rejection: 401, or 500 when the store failed.
    pub fn status(&self) -> (r: u16)
        ensures
            r == auth_status(*self),
    {
        match self {
            AuthError::InternalError => 500,
            _ => 401,
        }
    }
}

pub open spec fn opt_str_view(o: Option<&str>) -> Option<Seq<char>> {
    match o {
        Some(s) => Some(s@),
        None => None,
    }
}

/// The scheme prefix of an `Authorization` header that carries a token.
pub open spec fn bearer_prefix() -> Seq<char> {
    "Bearer "@
}

/// The token of a request: the cookie's value if there is a cookie, else what
/// follows `Bearer ` in the `Authorization` header.
pub open spec fn extracted_token(cookie: Option<Seq<char>>, authorization: Option<Seq<char>>) -> Option<Seq<char>> {
    match cookie {
        Some(c) => Some(c),
        None => match authorization {
            Some(h) => if h.len() >= 7 && h.subrange(0, 7) == bearer_prefix() {
                Some(h.subrange(7, h.len() as int))
            } else {
                None
            },
            None => None,
        },
    }
}

/// Takes the token from the cookie, or failing that from a bearer `Authorization` header.
pub fn extract_token(cookie: Option<&str>, authorization: Option<&str>) -> (r: Option<String>)
    ensures
        opt_view(r) == extracted_token(opt_str_view(cookie), opt_str_view(authorization)),
{
    match cookie {
        Some(c) => Some(String::from_str(c)),
        None => match authorization {
            Some(h) => {
                let n = h.unicode_len();
                if n >= 7 && same_text(h.substring_char(0, 7), "Bearer ") {
                    Some(String::from_str(h.substring_char(7, n)))
                } else {
                    None
                }
            },
            None => None,
        },
    }
}

/// The account identifier that a token's subject names.
pub fn account_id_from_subject(subject: Option<String>) -> (r: Result<u128, AuthError>)
    ensures
        match opt_view(subject) {
            None => r == Err::<u128, AuthError>(AuthError::InvalidToken),
            Some(s) => match parsed_uuid(s) {
                None => r == Err::<u128, AuthError>(AuthError::InvalidToken),
                Some(id) => r == Ok::<u128, AuthError>(id),
            },
        },
{
    match subject {
        None => Err(AuthError::InvalidToken),
        Some(s) => match parse_uuid(s.as_str()) {
            None => Err(AuthError::InvalidToken),
            Some(id) => Ok(id),
        },
    }
}

/// The account identifier that a token names: its signature and expiry are
/// checked under `secret`, then its subject is read as an identifier. Every
/// failure is `InvalidToken`, whichever check failed.
pub fn token_account_id(token: &str, secret: &[u8]) -> (r: Result<u128, AuthError>)
    ensures
        r is Ok || r == Err::<u128, AuthError>(AuthError::InvalidToken),
        r matches Ok(id) ==> exists|s: Seq<char>| parsed_uuid(s) == Some(id),
{
    let subject = decode_subject(token, secret);
    let r = account_id_from_subject(subject);
    if let Ok(id) = r {
        assert(parsed_uuid(subject->Some_0@) == Some(id));
    }
    r
}

/// Maps an account lookup: a store failure is internal, a missing account is gone.
pub fn resolve_account(lookup: Result<Option<User>, StoreError>) -> (r: Result<User, AuthError>)
    ensures
        match lookup {
            Err(_) => r == Err::<User, AuthError>(AuthError::InternalError),
            Ok(None) => r == Err::<User, AuthError>(AuthError::UserGone),
            Ok(Some(u)) => r matches Ok(v) && v == u,
        },
{
    match lookup {
        Err(_) => Err(AuthError::InternalError),
        Ok(None) => Err(AuthError::UserGone),
        Ok(Some(u)) => Ok(u),
    }
}

/// The outcome of authenticating a token whose decoded subject is `subject`
/// against the accounts `a`: the account it names, or why not.
pub open spec fn subject_outcome(a: Seq<UserView>, subject: Option<Seq<char>>, r: Result<User, AuthError>) -> bool {
    match subject {
        None => r == Err::<User, AuthError>(AuthError::InvalidToken),
        Some(s) => match parsed_uuid(s) {
            None => r == Err::<User, AuthError>(AuthError::InvalidToken),
            Some(id) => if has_id(a, id) {
                r matches Ok(u) && u@.id == id && exists|i: int| 0 <= i < a.len() && #[trigger] a[i] == u@
            } else {
                r == Err::<User, AuthError>(AuthError::UserGone)
            },
        },
    }
}

/// Loads the account that a decoded subject names.
pub fn authorize_subject(store: &AccountStore, subject: Option<String>) -> (r: Result<User, AuthError>)
    requires
        store.wf(),
    ensures
        subject_outcome(store.accounts(), opt_view(subject), r),
{
    let id = account_id_from_subject(subject)?;
    resolve_account(Ok(store.find_by_id(id)))
}

/// Authenticates a request from its `token` cookie and its `Authorization`
/// header: no token is `NotProvided`; otherwise the token is decoded under
/// `secret` and its subject's account is loaded.
pub fn auth_middleware(
    store: &AccountStore,
    cookie: Option<&str>,
    authorization: Option<&str>,
    secret: &[u8],
) -> (r: Result<User, AuthError>)
    requires
        store.wf(),
    ensures
        extracted_token(opt_str_view(cookie), opt_str_view(authorization)) is None ==> r
            == Err::<User, AuthError>(AuthError::NotProvided),
        extracted_token(opt_str_view(cookie), opt_str_view(authorization)) is Some ==> exists|
            s: Option<Seq<char>>,
        | subject_outcome(store.accounts(), s, r),
{
    let token = match extract_token(cookie, authorization) {
        Some(t) => t,
        None => return Err(AuthError::NotProvided),
    };
    let subject = decode_subject(token.as_str(), secret);
    let ghost s = opt_view(subject);
    let r = authorize_subject(store, subject);
    assert(subject_outcome(store.accounts(), s, r));
    r
}

} // verus!
