use vstd::prelude::*;

use crate::auth::opt_str_view;
use crate::text::same_text;
use crate::validate::{
    email_check, name_check, password_check, username_check, validate_email, validate_name,
    validate_password, validate_username, Field, Reason, ValidationError,
};

verus! {

/// A decoded registration request.
pub struct CreateUser {
    pub usr: String,
    pub pwd: String,
    pub cpwd: String,
    pub fname: Option<String>,
    pub lname: Option<String>,
    pub email: String,
}

/// The reply body of every endpoint: a message, and data on success only.
pub struct ApiResponse<T> {
    pub message: String,
    pub data: Option<T>,
}

impl<T> ApiResponse<T> {
    /// A success reply carrying `data`.
    pub fn successful(data: T) -> (r: Self)
        ensures
            r.message@ == "success"@,
            r.data == Some(data),
    {
        ApiResponse { message: String::from_str("success"), data: Some(data) }
    }

    /// A failure reply with `message` and no data.
    pub fn failed(message: String) -> (r: Self)
        ensures
            r.message == message,
            r.data is None,
    {
        ApiResponse { message, data: None }
    }
}

/// The view of an optional name: `None` when the field was left out.
pub open spec fn opt_view(o: Option<String>) -> Option<Seq<char>> {
    match o {
        Some(s) => Some(s@),
        None => None,
    }
}

pub open spec fn optional_name_check(o: Option<Seq<char>>) -> Option<Reason> {
    match o {
        Some(s) => name_check(s),
        None => None,
    }
}

pub open spec fn with_field(field: Field, r: Option<Reason>) -> Option<ValidationError> {
    match r {
        Some(reason) => Some(ValidationError { field, reason }),
        None => None,
    }
}

/// The first failure of a registration request, checked in the order
/// username, password, first name, last name, email; `None` when all pass.
pub open spec fn registration_error(
    usr: Seq<char>,
    pwd: Seq<char>,
    cpwd: Seq<char>,
    fname: Option<Seq<char>>,
    lname: Option<Seq<char>>,
    email: Seq<char>,
) -> Option<ValidationError> {
    if username_check(usr) is Some {
        with_field(Field::Username, username_check(usr))
    } else if password_check(pwd, cpwd) is Some {
        with_field(Field::Password, password_check(pwd, cpwd))
    } else if optional_name_check(fname) is Some {
        with_field(Field::FirstName, optional_name_check(fname))
    } else if optional_name_check(lname) is Some {
        with_field(Field::LastName, optional_name_check(lname))
    } else {
        with_field(Field::Email, email_check(email))
    }
}

impl CreateUser {
    pub open spec fn validation_error(&self) -> Option<ValidationError> {
        registration_error(
            self.usr@,
            self.pwd@,
            self.cpwd@,
            opt_view(self.fname),
            opt_view(self.lname),
            self.email@,
        )
    }

    /// Validates the request and reports its first failure.
    pub fn validate(&self) -> (r: Result<(), ValidationError>)
        ensures
            r is Err <==> self.validation_error() is Some,
            r matches Err(e) ==> self.validation_error() == Some(e),
    {
        if let Err(reason) = validate_username(self.usr.as_str()) {
            return Err(ValidationError { field: Field::Username, reason });
        }
        if let Err(reason) = validate_password(&self.pwd, &self.cpwd) {
            return Err(ValidationError { field: Field::Password, reason });
        }
        if let Some(fname) = &self.fname {
            if let Err(reason) = validate_name(fname.as_str()) {
                return Err(ValidationError { field: Field::FirstName, reason });
            }
        }
        if let Some(lname) = &self.lname {
            if let Err(reason) = validate_name(lname.as_str()) {
                return Err(ValidationError { field: Field::LastName, reason });
            }
        }
        if let Err(reason) = validate_email(self.email.as_str()) {
            return Err(ValidationError { field: Field::Email, reason });
        }
        Ok(())
    }
}

/// Startup settings: whether the service runs in production, and the
/// secret that signs authentication tokens.
pub struct Environment {
    pub prod: bool,
    pub jwt_secret: Vec<u8>,
}

/// The deployment setting named neither `development` nor `production`.
#[derive(Clone, Copy, Debug, PartialEq, Eq, Structural)]
pub struct InvalidEnvironment;

impl InvalidEnvironment {
    /// The message that startup reports.
    pub fn message(&self) -> (r: String)
        ensures
            r@ == "Invalid environment"@,
    {
        String::from_str("Invalid environment")
    }
}

/// The production flag for a deployment setting: unset or `development` is
/// not production, `production` is, anything else is refused.
pub open spec fn production_flag(app_env: Option<Seq<char>>) -> Option<bool> {
    match app_env {
        None => Some(false),
        Some(v) => if v == "development"@ {
            Some(false)
        } else if v == "production"@ {
            Some(true)
        } else {
            None
        },
    }
}

impl Environment {
    /// Builds the settings from the deployment setting `app_env` (absent when
    /// unset) and the signing secret.
    pub fn from_settings(app_env: Option<&str>, jwt_secret: Vec<u8>) -> (r: Result<Environment, InvalidEnvironment>)
        ensures
            match production_flag(opt_str_view(app_env)) {
                None => r is Err,
                Some(p) => r matches Ok(e) && e.prod == p && e.jwt_secret@ == jwt_secret@,
            },
    {
        let prod = match app_env {
            None => false,
            Some(v) => if same_text(v, "development") {
                false
            } else if same_text(v, "production") {
                true
            } else {
                return Err(InvalidEnvironment);
            },
        };
        Ok(Environment { prod, jwt_secret })
    }
}

} // verus!
