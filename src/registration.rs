use vstd::prelude::*;

use crate::credentials::{digest_shape, hash_password, password_matches};
use crate::models::{opt_view, optional_name_check, CreateUser};
use crate::store::{
    has_email, has_token, has_username, AccountStore, ConflictField, NewUser, StoreError, UserView,
};
use crate::text::{copy_opt, joined};
use crate::validate::{
    email_check, password_check, username_check, validation_message, Field, ValidationError,
};

verus! {

/// Relies on uuid::Uuid::new_v4 and its hyphenated `Display` form: a fresh
/// random identifier from the system's random source, written as 36
/// characters with hyphens at positions 8, 13, 18 and 23. `new_v4` panics
/// only when the system's random source fails.
#[verifier::external_body]
fn random_uuid_text() -> (r: String)
    ensures
        r@.len() == 36,
        r@[8] == '-' && r@[13] == '-' && r@[18] == '-' && r@[23] == '-',
{
    uuid::Uuid::new_v4().to_string()
}

/// A fresh, random verification token (122 random bits, as a hyphenated UUID).
pub fn new_verification_token() -> (r: String)
    ensures
        r@.len() == 36,
        r@[8] == '-' && r@[13] == '-' && r@[18] == '-' && r@[23] == '-',
{
    random_uuid_text()
}

/// The verification link handed to the mailer: the base URL followed by the token.
pub fn verification_link(base: &str, token: &str) -> (r: String)
    ensures
        r@ == base@ + token@,
{
    joined(base, token)
}

/// The data of the verification email: the application's name and the link to visit.
pub struct VerifyEmailTemplate {
    pub app_name: String,
    pub verify_link: String,
}

impl VerifyEmailTemplate {
    /// The email for `token`, linking to `base` followed by the token.
    pub fn for_token(app_name: &str, base: &str, token: &str) -> (r: VerifyEmailTemplate)
        ensures
            r.app_name@ == app_name@,
            r.verify_link@ == base@ + token@,
    {
        VerifyEmailTemplate { app_name: String::from_str(app_name), verify_link: verification_link(base, token) }
    }
}

/// A server-side failure; its cause is logged, never shown to the client.
#[derive(Clone, Copy, Debug, PartialEq, Eq, Structural)]
pub enum InternalCause {
    HashingFailed,
    StoreUnavailable,
}

/// Why a registration did not go through.
#[derive(Clone, Copy, Debug, PartialEq, Eq, Structural)]
pub enum RegistrationError {
    /// A field failed validation; the client can correct it.
    Validation(ValidationError),
    /// The username or the email is already taken.
    Conflict(ConflictField),
    /// Hashing or the store failed.
    Internal(InternalCause),
}

pub open spec fn registration_status(e: RegistrationError) -> u16 {
    match e {
        RegistrationError::Validation(_) => 400,
        RegistrationError::Conflict(_) => 400,
        RegistrationError::Internal(_) => 500,
    }
}

impl RegistrationError {
    /// The HTTP status of the reply: 400 for what the client can correct, 500 otherwise.
    pub fn status(&self) -> (r: u16)
        ensures
            r == registration_status(*self),
    {
        match self {
            RegistrationError::Validation(_) => 400,
            RegistrationError::Conflict(_) => 400,
            RegistrationError::Internal(_) => 500,
        }
    }
}

pub open spec fn registration_message(e: RegistrationError) -> Seq<char> {
    match e {
        RegistrationError::Validation(v) => validation_message(v),
        RegistrationError::Conflict(ConflictField::Email) => "Email already exists"@,
        RegistrationError::Conflict(ConflictField::Username) => "Username already exists"@,
        RegistrationError::Internal(InternalCause::HashingFailed) => "Failed to hash password"@,
        RegistrationError::Internal(InternalCause::StoreUnavailable) => "Failed to create user"@,
    }
}

impl RegistrationError {
    /// The client-facing message: precise for what the client can correct,
    /// a fixed category for server failures.
    pub fn message(&self) -> (r: String)
        ensures
            r@ == registration_message(*self),
    {
        match self {
            RegistrationError::Validation(v) => v.message(),
            RegistrationError::Conflict(ConflictField::Email) => String::from_str("Email already exists"),
            RegistrationError::Conflict(ConflictField::Username) => String::from_str("Username already exists"),
            RegistrationError::Internal(InternalCause::HashingFailed) => String::from_str("Failed to hash password"),
            RegistrationError::Internal(InternalCause::StoreUnavailable) => String::from_str("Failed to create user"),
        }
    }
}

/// The status of a successful registration.
pub const CREATED: u16 = 201;

/// The pre-check of uniqueness: an email conflict is reported before a
/// username conflict.
pub fn uniqueness_verdict(email_exists: bool, username_exists: bool) -> (r: Result<(), ConflictField>)
    ensures
        email_exists ==> r == Err::<(), ConflictField>(ConflictField::Email),
        !email_exists && username_exists ==> r == Err::<(), ConflictField>(ConflictField::Username),
        !email_exists && !username_exists ==> r is Ok,
{
    if email_exists {
        Err(ConflictField::Email)
    } else if username_exists {
        Err(ConflictField::Username)
    } else {
        Ok(())
    }
}

pub open spec fn insert_failure(e: StoreError) -> RegistrationError {
    match e {
        StoreError::Conflict(f) => RegistrationError::Conflict(f),
        _ => RegistrationError::Internal(InternalCause::StoreUnavailable),
    }
}

/// Maps a failed insert: a uniqueness violation is a conflict (also when the
/// pre-check missed it), anything else a store failure.
pub fn map_insert_error(e: StoreError) -> (r: RegistrationError)
    ensures
        r == insert_failure(e),
{
    match e {
        StoreError::Conflict(f) => RegistrationError::Conflict(f),
        _ => RegistrationError::Internal(InternalCause::StoreUnavailable),
    }
}

/// Where a registration stands between two pieces of outside work.
#[derive(Clone, Copy, Debug, PartialEq, Eq, Structural)]
pub enum RegistrationStage {
    Validating,
    CheckingUniqueness,
    Hashing,
    Inserting,
    IssuingVerification,
    Done,
}

/// What the outside work reported.
#[derive(Clone, Debug, PartialEq, Eq)]
pub enum RegistrationEvent {
    /// The request has arrived.
    Start,
    /// The existence check answered.
    Existence { email_exists: bool, username_exists: bool },
    /// The existence check failed.
    CheckFailed,
    /// The password was hashed.
    Hashed,
    /// Hashing failed.
    HashFailed,
    /// The account row was inserted together with this verification token.
    Inserted { token: String },
    /// The insert failed.
    InsertFailed(StoreError),
    /// The mailer took the verification email.
    MailSent,
    /// The mailer failed; the account stays registered and unverified.
    MailFailed,
}

/// What to do next.
#[derive(Clone, Debug, PartialEq, Eq)]
pub enum RegistrationAction {
    /// Ask the store whether the email and the username exist.
    CheckUniqueness,
    /// Hash the password.
    HashPassword,
    /// Insert the account with its digest and a fresh verification token.
    InsertAccount,
    /// Hand the verification link to the mailer for this recipient.
    SendVerification { recipient: String, link: String },
    /// Reply to the client with success and stop.
    Created,
    /// Reply to the client with this error and stop.
    Reject(RegistrationError),
}

/// The mathematical value of a [`RegistrationAction`].
pub enum ActionView {
    CheckUniqueness,
    HashPassword,
    InsertAccount,
    SendVerification { recipient: Seq<char>, link: Seq<char> },
    Created,
    Reject(RegistrationError),
}

impl View for RegistrationAction {
    type V = ActionView;

    open spec fn view(&self) -> ActionView {
        match self {
            RegistrationAction::CheckUniqueness => ActionView::CheckUniqueness,
            RegistrationAction::HashPassword => ActionView::HashPassword,
            RegistrationAction::InsertAccount => ActionView::InsertAccount,
            RegistrationAction::SendVerification { recipient, link } => ActionView::SendVerification {
                recipient: recipient@,
                link: link@,
            },
            RegistrationAction::Created => ActionView::Created,
            RegistrationAction::Reject(e) => ActionView::Reject(*e),
        }
    }
}

/// The registration pipeline for a request whose first validation failure
/// is `invalid` and whose email is `email`, with verification links under
/// `base`: from a stage and an event, the next stage and the action to take.
/// Any failure before the insert ends it at once. After the insert the
/// link (base followed by the inserted token) goes to the mailer once, and
/// the reply is `Created` whatever the mailer answers. An event that does
/// not belong to the stage ends it as a server failure.
pub open spec fn registration_transition(
    invalid: Option<ValidationError>,
    email: Seq<char>,
    base: Seq<char>,
    stage: RegistrationStage,
    event: RegistrationEvent,
) -> (RegistrationStage, ActionView) {
    let fail = |e: RegistrationError| (RegistrationStage::Done, ActionView::Reject(e));
    match (stage, event) {
        (RegistrationStage::Validating, RegistrationEvent::Start) => match invalid {
            Some(e) => fail(RegistrationError::Validation(e)),
            None => (RegistrationStage::CheckingUniqueness, ActionView::CheckUniqueness),
        },
        (
            RegistrationStage::CheckingUniqueness,
            RegistrationEvent::Existence { email_exists, username_exists },
        ) => if email_exists {
            fail(RegistrationError::Conflict(ConflictField::Email))
        } else if username_exists {
            fail(RegistrationError::Conflict(ConflictField::Username))
        } else {
            (RegistrationStage::Hashing, ActionView::HashPassword)
        },
        (RegistrationStage::CheckingUniqueness, RegistrationEvent::CheckFailed) => fail(
            RegistrationError::Internal(InternalCause::StoreUnavailable),
        ),
        (RegistrationStage::Hashing, RegistrationEvent::Hashed) => (
            RegistrationStage::Inserting,
            ActionView::InsertAccount,
        ),
        (RegistrationStage::Hashing, RegistrationEvent::HashFailed) => fail(
            RegistrationError::Internal(InternalCause::HashingFailed),
        ),
        (RegistrationStage::Inserting, RegistrationEvent::Inserted { token }) => (
            RegistrationStage::IssuingVerification,
            ActionView::SendVerification { recipient: email, link: base + token@ },
        ),
        (RegistrationStage::Inserting, RegistrationEvent::InsertFailed(e)) => fail(insert_failure(e)),
        (RegistrationStage::IssuingVerification, RegistrationEvent::MailSent) => (
            RegistrationStage::Done,
            ActionView::Created,
        ),
        (RegistrationStage::IssuingVerification, RegistrationEvent::MailFailed) => (
            RegistrationStage::Done,
            ActionView::Created,
        ),
        _ => fail(RegistrationError::Internal(InternalCause::StoreUnavailable)),
    }
}

/// One step of the registration pipeline for `req`, with verification links under `base`.
pub fn registration_step(
    req: &CreateUser,
    base: &str,
    stage: RegistrationStage,
    event: RegistrationEvent,
) -> (r: (RegistrationStage, RegistrationAction))
    ensures
        r.0 == registration_transition(req.validation_error(), req.email@, base@, stage, event).0,
        r.1@ == registration_transition(req.validation_error(), req.email@, base@, stage, event).1,
{
    let fail = RegistrationAction::Reject(RegistrationError::Internal(InternalCause::StoreUnavailable));
    match stage {
        RegistrationStage::Validating => match event {
            RegistrationEvent::Start => match req.validate() {
                Err(e) => (
                    RegistrationStage::Done,
                    RegistrationAction::Reject(RegistrationError::Validation(e)),
                ),
                Ok(()) => (RegistrationStage::CheckingUniqueness, RegistrationAction::CheckUniqueness),
            },
            _ => (RegistrationStage::Done, fail),
        },
        RegistrationStage::CheckingUniqueness => match event {
            RegistrationEvent::Existence { email_exists, username_exists } => match uniqueness_verdict(
                email_exists,
                username_exists,
            ) {
                Err(f) => (
                    RegistrationStage::Done,
                    RegistrationAction::Reject(RegistrationError::Conflict(f)),
                ),
                Ok(()) => (RegistrationStage::Hashing, RegistrationAction::HashPassword),
            },
            _ => (RegistrationStage::Done, fail),
        },
        RegistrationStage::Hashing => match event {
            RegistrationEvent::Hashed => (RegistrationStage::Inserting, RegistrationAction::InsertAccount),
            RegistrationEvent::HashFailed => (
                RegistrationStage::Done,
                RegistrationAction::Reject(RegistrationError::Internal(InternalCause::HashingFailed)),
            ),
            _ => (RegistrationStage::Done, fail),
        },
        RegistrationStage::Inserting => match event {
            RegistrationEvent::Inserted { token } => (
                RegistrationStage::IssuingVerification,
                RegistrationAction::SendVerification {
                    recipient: req.email.clone(),
                    link: verification_link(base, token.as_str()),
                },
            ),
            RegistrationEvent::InsertFailed(e) => (
                RegistrationStage::Done,
                RegistrationAction::Reject(map_insert_error(e)),
            ),
            _ => (RegistrationStage::Done, fail),
        },
        RegistrationStage::IssuingVerification => match event {
            RegistrationEvent::MailSent => (RegistrationStage::Done, RegistrationAction::Created),
            RegistrationEvent::MailFailed => (RegistrationStage::Done, RegistrationAction::Created),
            _ => (RegistrationStage::Done, fail),
        },
        RegistrationStage::Done => (RegistrationStage::Done, fail),
    }
}

/// The mail hand-off: the pipeline sends the verification link only on the
/// step right after the account was inserted, and only then reaches the
/// stage that waits for the mailer. From that stage, either answer of the
/// mailer ends in `Created`.
pub proof fn lemma_mail_handoff(
    invalid: Option<ValidationError>,
    email: Seq<char>,
    base: Seq<char>,
    stage: RegistrationStage,
    event: RegistrationEvent,
)
    ensures
        registration_transition(invalid, email, base, stage, event).1 is SendVerification <==> (
        stage == RegistrationStage::Inserting && event is Inserted),
        registration_transition(invalid, email, base, stage, event).0
            == RegistrationStage::IssuingVerification <==> (stage == RegistrationStage::Inserting
            && event is Inserted),
        stage == RegistrationStage::IssuingVerification && (event is MailSent || event is MailFailed)
            ==> registration_transition(invalid, email, base, stage, event) == (
            RegistrationStage::Done,
            ActionView::Created,
        ),
{
}

/// A completed registration: the new account's identifier and the token
/// that the verification link carries.
#[derive(Debug)]
pub struct Registered {
    pub id: u128,
    pub verification_token: String,
}

/// `u` is the account that registering `req` at `now` created as `reg`.
pub open spec fn created_from(u: UserView, req: CreateUser, reg: Registered, now: i64) -> bool {
    &&& u.id == reg.id
    &&& u.username == req.usr@
    &&& u.email == req.email@
    &&& u.first_name == opt_view(req.fname)
    &&& u.last_name == opt_view(req.lname)
    &&& digest_shape(u.password_hash)
    &&& password_matches(req.pwd@, u.password_hash)
    &&& u.password_hash != req.pwd@
    &&& u.verification_token == Some(reg.verification_token@)
    &&& reg.verification_token@.len() == 36
    &&& !u.verified
    &&& u.created_at == now
    &&& u.updated_at == now
}

/// What registering `req` at `now` does to a table `(a0, n0)`, giving
/// `(a1, n1)` and the result `r`. Validation comes first, then the
/// uniqueness of the email, then that of the username; past those only
/// a hashing failure, exhausted identifiers, or a fresh token that an
/// account already holds stop it.
pub open spec fn registration_outcome(
    a0: Seq<UserView>,
    n0: u128,
    req: CreateUser,
    now: i64,
    r: Result<Registered, RegistrationError>,
    a1: Seq<UserView>,
    n1: u128,
) -> bool {
    let unchanged = a1 == a0 && n1 == n0;
    match req.validation_error() {
        Some(e) => r == Err::<Registered, RegistrationError>(RegistrationError::Validation(e))
            && unchanged,
        None => if has_email(a0, req.email@) {
            r == Err::<Registered, RegistrationError>(
                RegistrationError::Conflict(ConflictField::Email),
            ) && unchanged
        } else if has_username(a0, req.usr@) {
            r == Err::<Registered, RegistrationError>(
                RegistrationError::Conflict(ConflictField::Username),
            ) && unchanged
        } else {
            match r {
                Ok(reg) => {
                    &&& n0 < u128::MAX
                    &&& reg.id == n0
                    &&& n1 == n0 + 1
                    &&& a1.len() == a0.len() + 1
                    &&& a1.subrange(0, a0.len() as int) == a0
                    &&& created_from(a1[a0.len() as int], req, reg, now)
                },
                Err(RegistrationError::Internal(InternalCause::HashingFailed)) => unchanged,
                Err(RegistrationError::Internal(InternalCause::StoreUnavailable)) => (n0
                    == u128::MAX || exists|t: Seq<char>| t.len() == 36 && has_token(a0, t))
                    && unchanged,
                _ => false,
            }
        },
    }
}

/// Registers an account: validates the request, checks that the email and
/// the username are free, hashes the password, and inserts the account with
/// a fresh verification token, all or nothing.
pub fn register(store: &mut AccountStore, req: &CreateUser, now: i64) -> (r: Result<
    Registered,
    RegistrationError,
>)
    requires
        old(store).wf(),
    ensures
        final(store).wf(),
        registration_outcome(
            old(store).accounts(),
            old(store).next_id(),
            *req,
            now,
            r,
            final(store).accounts(),
            final(store).next_id(),
        ),
{
    if let Err(e) = req.validate() {
        return Err(RegistrationError::Validation(e));
    }
    let (email_exists, username_exists) = store.exists_by_email_or_username(
        req.email.as_str(),
        req.usr.as_str(),
    );
    if let Err(f) = uniqueness_verdict(email_exists, username_exists) {
        return Err(RegistrationError::Conflict(f));
    }
    let digest = match hash_password(req.pwd.as_str()) {
        Ok(d) => d,
        Err(_) => return Err(RegistrationError::Internal(InternalCause::HashingFailed)),
    };
    let token = new_verification_token();
    let n = NewUser {
        username: req.usr.clone(),
        password_hash: digest,
        first_name: copy_opt(&req.fname),
        last_name: copy_opt(&req.lname),
        email: req.email.clone(),
        verification_token: token.clone(),
    };
    let ghost a0 = store.accounts();
    match store.insert_account(n, now) {
        Ok(id) => {
            let reg = Registered { id, verification_token: token };
            assert(store.accounts().subrange(0, a0.len() as int) =~= a0);
            Ok(reg)
        },
        Err(e) => Err(map_insert_error(e)),
    }
}

/// Two registrations with the same email, one after the other on the same
/// table: at most one succeeds, and when the first does, the second (if its
/// fields are valid) fails with an email conflict and changes nothing.
pub proof fn lemma_same_email_at_most_one(
    a0: Seq<UserView>,
    n0: u128,
    req1: CreateUser,
    now1: i64,
    r1: Result<Registered, RegistrationError>,
    a1: Seq<UserView>,
    n1: u128,
    req2: CreateUser,
    now2: i64,
    r2: Result<Registered, RegistrationError>,
    a2: Seq<UserView>,
    n2: u128,
)
    requires
        registration_outcome(a0, n0, req1, now1, r1, a1, n1),
        registration_outcome(a1, n1, req2, now2, r2, a2, n2),
        req1.email@ == req2.email@,
    ensures
        !(r1 is Ok && r2 is Ok),
        r1 is Ok && req2.validation_error() is None ==> r2 == Err::<Registered, RegistrationError>(
            RegistrationError::Conflict(ConflictField::Email),
        ) && a2 == a1 && n2 == n1,
{
    if r1 is Ok {
        assert(a1[a0.len() as int].email == req2.email@);
        assert(has_email(a1, req2.email@));
    }
}

/// A username that breaks its length bounds or any rule of the username
/// grammar makes registration fail with a validation error on the username
/// field, and nothing is stored; a request whose fields all conform passes
/// validation.
pub proof fn lemma_username_rules(
    a0: Seq<UserView>,
    n0: u128,
    req: CreateUser,
    now: i64,
    r: Result<Registered, RegistrationError>,
    a1: Seq<UserView>,
    n1: u128,
)
    requires
        registration_outcome(a0, n0, req, now, r, a1, n1),
    ensures
        username_check(req.usr@) is Some ==> (r matches Err(RegistrationError::Validation(e))
            && e.field == Field::Username) && a1 == a0 && n1 == n0,
        username_check(req.usr@) is None && password_check(req.pwd@, req.cpwd@) is None
            && optional_name_check(opt_view(req.fname)) is None && optional_name_check(
            opt_view(req.lname),
        ) is None && email_check(req.email@) is None ==> req.validation_error() is None && !(
        r is Err && r->Err_0 is Validation),
{
}

} // verus!
