//! Account provisioning and request authentication: input validation,
//! credential hashing, an account table with uniqueness guarantees,
//! single-use email verification and token-based request authentication.

pub mod auth;
pub mod credentials;
pub mod models;
pub mod registration;
pub mod store;
mod text;
pub mod validate;
pub mod verification;

pub use validate::{
    is_email_valid, is_name_valid, is_username_valid, validate_email, validate_name,
    validate_password, validate_username, CharClass, Field, Reason, ValidationError,
};
pub use models::{ApiResponse, CreateUser, Environment, InvalidEnvironment};
pub use credentials::{accept_digest, hash_password, verify_password, HashingFailed};
pub use store::{store_error_from_driver, AccountStore, ConflictField, NewUser, StoreError, User};
pub use registration::{
    map_insert_error, new_verification_token, register, uniqueness_verdict, verification_link,
    registration_step, ActionView, InternalCause, Registered, RegistrationAction, RegistrationError,
    RegistrationEvent, RegistrationStage, VerifyEmailTemplate, CREATED,
};
pub use verification::{map_redeem_error, verification_status, verify_user, VerifyError};
pub use auth::{
    account_id_from_subject, auth_middleware, authorize_subject, extract_token, resolve_account,
    token_account_id, AuthError,
};
