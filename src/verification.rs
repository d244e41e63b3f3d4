use vstd::prelude::*;

use crate::store::{has_token, keys_unique, redeemed, AccountStore, StoreError, UserView};

verus! {

/// Why a verification link was refused.
#[derive(Clone, Copy, Debug, PartialEq, Eq, Structural)]
pub enum VerifyError {
    /// No account holds the token: it never existed or was already used.
    NotFound,
    /// The store failed.
    Internal,
}

pub open spec fn verify_message(e: VerifyError) -> Seq<char> {
    match e {
        VerifyError::NotFound => "Token not found"@,
        VerifyError::Internal => "Error querying client"@,
    }
}

impl VerifyError {
    /// The client-facing message for this error.
    pub fn message(&self) -> (r: String)
        ensures
            r@ == verify_message(*self),
    {
        match self {
            VerifyError::NotFound => String::from_str("Token not found"),
            VerifyError::Internal => String::from_str("Error querying client"),
        }
    }
}
pub open spec fn verify_status(r: Result<(), VerifyError>) -> u16 {
    match r {
        Ok(_) => 200,
        Err(VerifyError::NotFound) => 404,
        Err(VerifyError::Internal) => 500,
    }
}

/// The HTTP status of a verification reply: 200, 404 for an unknown token, 500 on a store failure.
pub fn verification_status(r: Result<(), VerifyError>) -> (s: u16)
    ensures
        s == verify_status(r),
{
    match r {
        Ok(_) => 200,
        Err(VerifyError::NotFound) => 404,
        Err(VerifyError::Internal) => 500,
    }
}

/// Maps a failed redemption: an unknown token is `NotFound`, anything else a store failure.
pub fn map_redeem_error(e: StoreError) -> (r: VerifyError)
    ensures
        e == StoreError::NotFound ==> r == VerifyError::NotFound,
        e != StoreError::NotFound ==> r == VerifyError::Internal,
{
    match e {
        StoreError::NotFound => VerifyError::NotFound,
        _ => VerifyError::Internal,
    }
}

/// What redeeming `token` at `now` does to the accounts `a0`, giving `a1`
/// and the result `r`.
pub open spec fn verification_outcome(
    a0: Seq<UserView>,
    token: Seq<char>,
    now: i64,
    r: Result<String, VerifyError>,
    a1: Seq<UserView>,
) -> bool {
    if has_token(a0, token) {
        &&& r is Ok
        &&& exists|i: int|
            0 <= i < a0.len() && #[trigger] a0[i].verification_token == Some(token)
                && a0[i].username == r->Ok_0@ && a1 == a0.update(i, redeemed(a0[i], token, now))
    } else {
        r == Err::<String, VerifyError>(VerifyError::NotFound) && a1 == a0
    }
}

/// Redeems a verification token and returns the username of the account it
/// verified. The token is used up: a second visit gets `NotFound`.
pub fn verify_user(store: &mut AccountStore, token: &str, now: i64) -> (r: Result<String, VerifyError>)
    requires
        old(store).wf(),
    ensures
        final(store).wf(),
        final(store).next_id() == old(store).next_id(),
        verification_outcome(old(store).accounts(), token@, now, r, final(store).accounts()),
{
    match store.redeem_verification_token(token, now) {
        Ok(name) => Ok(name),
        Err(e) => Err(map_redeem_error(e)),
    }
}

/// A verification token works once: redeeming it verifies the one account
/// that held it and changes no other, and redeeming it again finds nothing
/// and changes nothing. No account's verification is undone.
pub proof fn lemma_token_single_use(
    a0: Seq<UserView>,
    token: Seq<char>,
    now1: i64,
    r1: Result<String, VerifyError>,
    a1: Seq<UserView>,
    now2: i64,
    r2: Result<String, VerifyError>,
    a2: Seq<UserView>,
)
    requires
        keys_unique(a0),
        verification_outcome(a0, token, now1, r1, a1),
        verification_outcome(a1, token, now2, r2, a2),
        r1 is Ok,
    ensures
        a1.len() == a0.len(),
        forall|i: int|
            0 <= i < a0.len() && #[trigger] a0[i].verification_token == Some(token) ==> a1[i].verified,
        forall|i: int|
            0 <= i < a0.len() && #[trigger] a0[i].verification_token != Some(token) ==> a1[i] == a0[i],
        forall|i: int| 0 <= i < a0.len() && #[trigger] a0[i].verified ==> a1[i].verified,
        r2 == Err::<String, VerifyError>(VerifyError::NotFound),
        a2 == a1,
{
    let k = choose|k: int|
        0 <= k < a0.len() && #[trigger] a0[k].verification_token == Some(token)
            && a0[k].username == r1->Ok_0@ && a1 == a0.update(k, redeemed(a0[k], token, now1));
    assert forall|i: int| 0 <= i < a1.len() implies #[trigger] a1[i].verification_token != Some(token) by {
        if i != k {
            assert(a0[k].id != a0[i].id);
        }
    }
    assert forall|i: int|
        0 <= i < a0.len() && #[trigger] a0[i].verification_token == Some(token) implies a1[i].verified by {
        if i != k {
            assert(a0[k].id != a0[i].id);
        }
    }
}

} // verus!
