use account_auth::{
    map_insert_error, register, registration_step, store_error_from_driver, uniqueness_verdict, verification_link, verify_password,
    verify_user, AccountStore, ConflictField, CreateUser, Field, InternalCause, NewUser, Reason,
    RegistrationAction, RegistrationError, RegistrationEvent, RegistrationStage, StoreError, ValidationError, VerifyError, CREATED,
};

fn request(usr: &str, email: &str) -> CreateUser {
    CreateUser {
        usr: usr.to_string(),
        pwd: "longenough1".to_string(),
        cpwd: "longenough1".to_string(),
        fname: None,
        lname: None,
        email: email.to_string(),
    }
}

#[test]
fn register_verify_and_reverify_scenario() {
    let mut store = AccountStore::new();
    let req = request("johndoe", "john@example.com");
    let reg = register(&mut store, &req, 1_700_000_000).unwrap();
    assert_eq!(CREATED, 201);
    assert_eq!(reg.id, 1);
    assert_eq!(store.len(), 1);
    let user = store.find_by_id(reg.id).unwrap();
    assert_eq!(user.username, "johndoe");
    assert_eq!(user.email, "john@example.com");
    assert!(!user.verified);
    assert_eq!(user.verification_token.as_deref(), Some(reg.verification_token.as_str()));
    assert_eq!(reg.verification_token.chars().count(), 36);
    assert_ne!(user.password_hash, "longenough1");
    assert!(verify_password("longenough1", &user.password_hash));
    assert_eq!(user.created_at, 1_700_000_000);

    let again = request("janedoe", "john@example.com");
    let err = register(&mut store, &again, 1_700_000_001).unwrap_err();
    assert_eq!(err, RegistrationError::Conflict(ConflictField::Email));
    assert_eq!(err.status(), 400);
    assert_eq!(err.message(), "Email already exists");
    assert_eq!(store.len(), 1);

    let name = verify_user(&mut store, &reg.verification_token, 1_700_000_100).unwrap();
    assert_eq!(name, "johndoe");
    let user = store.find_by_id(reg.id).unwrap();
    assert!(user.verified);
    assert_eq!(user.verification_token, None);
    assert_eq!(user.updated_at, 1_700_000_100);

    let second = verify_user(&mut store, &reg.verification_token, 1_700_000_200);
    assert_eq!(second, Err(VerifyError::NotFound));
    let user = store.find_by_id(reg.id).unwrap();
    assert!(user.verified);
    assert_eq!(user.updated_at, 1_700_000_100);
}

#[test]
fn same_email_twice_only_one_succeeds() {
    let mut store = AccountStore::new();
    let first = register(&mut store, &request("alice_1", "shared@example.com"), 10);
    let second = register(&mut store, &request("bobby_2", "shared@example.com"), 11);
    assert!(first.is_ok());
    assert_eq!(second.unwrap_err(), RegistrationError::Conflict(ConflictField::Email));
    assert_eq!(store.len(), 1);
}

#[test]
fn same_username_is_a_username_conflict() {
    let mut store = AccountStore::new();
    store
        .insert_account(
            NewUser {
                username: "johndoe".to_string(),
                password_hash: "x".to_string(),
                first_name: None,
                last_name: None,
                email: "first@example.com".to_string(),
                verification_token: "t1".to_string(),
            },
            5,
        )
        .unwrap();
    let err = register(&mut store, &request("johndoe", "second@example.com"), 6).unwrap_err();
    assert_eq!(err, RegistrationError::Conflict(ConflictField::Username));
    assert_eq!(err.message(), "Username already exists");
}

#[test]
fn invalid_request_is_a_validation_error_and_stores_nothing() {
    let mut store = AccountStore::new();
    let err = register(&mut store, &request("john__doe", "john@example.com"), 1).unwrap_err();
    assert_eq!(
        err,
        RegistrationError::Validation(ValidationError {
            field: Field::Username,
            reason: Reason::InvalidFormat
        })
    );
    assert_eq!(err.status(), 400);
    assert_eq!(store.len(), 0);
}

#[test]
fn store_insert_enforces_uniqueness() {
    let mut store = AccountStore::new();
    let make = |u: &str, e: &str, t: &str| NewUser {
        username: u.to_string(),
        password_hash: "h".to_string(),
        first_name: Some("John".to_string()),
        last_name: None,
        email: e.to_string(),
        verification_token: t.to_string(),
    };
    assert_eq!(store.insert_account(make("user_one", "a@example.com", "t1"), 1), Ok(1));
    assert_eq!(
        store.insert_account(make("user_two", "a@example.com", "t2"), 2),
        Err(StoreError::Conflict(ConflictField::Email))
    );
    assert_eq!(
        store.insert_account(make("user_one", "b@example.com", "t3"), 3),
        Err(StoreError::Conflict(ConflictField::Username))
    );
    assert_eq!(store.insert_account(make("user_two", "b@example.com", "t4"), 4), Ok(2));
    assert_eq!(store.exists_by_email_or_username("a@example.com", "nobody"), (true, false));
    assert_eq!(store.exists_by_email_or_username("z@example.com", "user_two"), (false, true));
    assert_eq!(store.len(), 2);
    assert!(store.find_by_id(3).is_none());
}

#[test]
fn unknown_token_is_not_found() {
    let mut store = AccountStore::new();
    assert_eq!(verify_user(&mut store, "no-such-token", 1), Err(VerifyError::NotFound));
    assert_eq!(
        store.redeem_verification_token("no-such-token", 1),
        Err(StoreError::NotFound)
    );
}

#[test]
fn uniqueness_verdict_reports_email_first() {
    assert_eq!(uniqueness_verdict(true, true), Err(ConflictField::Email));
    assert_eq!(uniqueness_verdict(false, true), Err(ConflictField::Username));
    assert_eq!(uniqueness_verdict(false, false), Ok(()));
}

#[test]
fn insert_errors_map_to_registration_errors() {
    assert_eq!(
        map_insert_error(StoreError::Conflict(ConflictField::Username)),
        RegistrationError::Conflict(ConflictField::Username)
    );
    let e = map_insert_error(StoreError::Unavailable);
    assert_eq!(e, RegistrationError::Internal(InternalCause::StoreUnavailable));
    assert_eq!(e.status(), 500);
    assert_eq!(e.message(), "Failed to create user");
}

#[test]
fn verification_link_appends_token() {
    let link = verification_link("http://localhost:8000/api/v1/verify_email?token=", "abc-123");
    assert_eq!(link, "http://localhost:8000/api/v1/verify_email?token=abc-123");
}

#[test]
fn a_held_token_is_refused_at_insert() {
    let mut store = AccountStore::new();
    let make = |u: &str, e: &str| NewUser {
        username: u.to_string(),
        password_hash: "h".to_string(),
        first_name: None,
        last_name: None,
        email: e.to_string(),
        verification_token: "same-token".to_string(),
    };
    assert_eq!(store.insert_account(make("user_one", "a@example.com"), 1), Ok(1));
    assert_eq!(
        store.insert_account(make("user_two", "b@example.com"), 2),
        Err(StoreError::TokenTaken)
    );
    assert!(store.holds_token("same-token"));
    assert!(!store.holds_token("other-token"));
    assert_eq!(
        map_insert_error(StoreError::TokenTaken),
        RegistrationError::Internal(InternalCause::StoreUnavailable)
    );
    assert_eq!(store.len(), 1);
}

#[test]
fn redeeming_changes_only_the_holder() {
    let mut store = AccountStore::new();
    let make = |u: &str, e: &str, t: &str| NewUser {
        username: u.to_string(),
        password_hash: "h".to_string(),
        first_name: None,
        last_name: None,
        email: e.to_string(),
        verification_token: t.to_string(),
    };
    store.insert_account(make("user_one", "a@example.com", "t1"), 1).unwrap();
    store.insert_account(make("user_two", "b@example.com", "t2"), 1).unwrap();
    assert_eq!(verify_user(&mut store, "t2", 9), Ok("user_two".to_string()));
    let one = store.find_by_id(1).unwrap();
    assert!(!one.verified);
    assert_eq!(one.verification_token.as_deref(), Some("t1"));
    assert_eq!(one.updated_at, 1);
    let two = store.find_by_id(2).unwrap();
    assert!(two.verified);
    assert_eq!(two.verification_token, None);
}

const BASE: &str = "http://localhost:8000/api/v1/verify_email?token=";

#[test]
fn registration_steps_follow_the_pipeline() {
    let req = request("johndoe", "john@example.com");
    let (s, a) = registration_step(&req, BASE, RegistrationStage::Validating, RegistrationEvent::Start);
    assert_eq!((s, a), (RegistrationStage::CheckingUniqueness, RegistrationAction::CheckUniqueness));
    let ev = RegistrationEvent::Existence { email_exists: false, username_exists: false };
    let (s, a) = registration_step(&req, BASE, s, ev);
    assert_eq!((s, a), (RegistrationStage::Hashing, RegistrationAction::HashPassword));
    let (s, a) = registration_step(&req, BASE, s, RegistrationEvent::Hashed);
    assert_eq!((s, a), (RegistrationStage::Inserting, RegistrationAction::InsertAccount));
    let ev = RegistrationEvent::Inserted { token: "abc-123".to_string() };
    let (s, a) = registration_step(&req, BASE, s, ev);
    assert_eq!(s, RegistrationStage::IssuingVerification);
    assert_eq!(
        a,
        RegistrationAction::SendVerification {
            recipient: "john@example.com".to_string(),
            link: "http://localhost:8000/api/v1/verify_email?token=abc-123".to_string(),
        }
    );
    let (s, a) = registration_step(&req, BASE, s, RegistrationEvent::MailSent);
    assert_eq!((s, a), (RegistrationStage::Done, RegistrationAction::Created));
}

#[test]
fn mailer_failure_still_creates() {
    let req = request("johndoe", "john@example.com");
    assert_eq!(
        registration_step(&req, BASE, RegistrationStage::IssuingVerification, RegistrationEvent::MailFailed),
        (RegistrationStage::Done, RegistrationAction::Created)
    );
}

#[test]
fn registration_steps_stop_on_failure() {
    let req = request("johndoe", "john@example.com");
    let ev = RegistrationEvent::Existence { email_exists: true, username_exists: true };
    assert_eq!(
        registration_step(&req, BASE, RegistrationStage::CheckingUniqueness, ev),
        (
            RegistrationStage::Done,
            RegistrationAction::Reject(RegistrationError::Conflict(ConflictField::Email))
        )
    );
    assert_eq!(
        registration_step(&req, BASE, RegistrationStage::CheckingUniqueness, RegistrationEvent::CheckFailed),
        (
            RegistrationStage::Done,
            RegistrationAction::Reject(RegistrationError::Internal(InternalCause::StoreUnavailable))
        )
    );
    assert_eq!(
        registration_step(&req, BASE, RegistrationStage::Hashing, RegistrationEvent::HashFailed),
        (
            RegistrationStage::Done,
            RegistrationAction::Reject(RegistrationError::Internal(InternalCause::HashingFailed))
        )
    );
    let conflict = RegistrationEvent::InsertFailed(StoreError::Conflict(ConflictField::Username));
    assert_eq!(
        registration_step(&req, BASE, RegistrationStage::Inserting, conflict),
        (
            RegistrationStage::Done,
            RegistrationAction::Reject(RegistrationError::Conflict(ConflictField::Username))
        )
    );
    let bad = request("jd", "john@example.com");
    assert_eq!(
        registration_step(&bad, BASE, RegistrationStage::Validating, RegistrationEvent::Start),
        (
            RegistrationStage::Done,
            RegistrationAction::Reject(RegistrationError::Validation(ValidationError {
                field: Field::Username,
                reason: Reason::InvalidLength
            }))
        )
    );
    assert_eq!(
        registration_step(&req, BASE, RegistrationStage::Hashing, RegistrationEvent::Start),
        (
            RegistrationStage::Done,
            RegistrationAction::Reject(RegistrationError::Internal(InternalCause::StoreUnavailable))
        )
    );
}

#[test]
fn driver_failures_map_to_store_errors() {
    assert_eq!(store_error_from_driver(false, "clients_email_key"), StoreError::Unavailable);
    assert_eq!(
        store_error_from_driver(true, "clients_email_key"),
        StoreError::Conflict(ConflictField::Email)
    );
    assert_eq!(store_error_from_driver(true, "clients_vc_key"), StoreError::TokenTaken);
    assert_eq!(
        store_error_from_driver(true, "clients_usr_key"),
        StoreError::Conflict(ConflictField::Username)
    );
    assert_eq!(store_error_from_driver(true, ""), StoreError::Conflict(ConflictField::Username));
}

#[test]
fn verification_email_carries_the_link() {
    let mail = account_auth::VerifyEmailTemplate::for_token("My App", BASE, "abc-123");
    assert_eq!(mail.app_name, "My App");
    assert_eq!(mail.verify_link, "http://localhost:8000/api/v1/verify_email?token=abc-123");
}
