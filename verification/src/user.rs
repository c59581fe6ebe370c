//! The placeholder domain entity and its field validation: the one
//! resource the REST surface exposes. Creation requests are validated
//! (email format, optional name length) and turned into records with a
//! fresh generated identifier; storing and listing them is driver work
//! outside this crate.

use vstd::prelude::*;
use crate::error::{AppError, FieldError};
use validator::ValidateEmail;

verus! {

/// A stored user record. The identifier is kept as a string to keep the
/// relational schema simple.
pub struct User {
    pub id: String,
    pub email: String,
    pub name: Option<String>,
}

/// The payload of a creation request: a required email address and an
/// optional display name.
pub struct NewUser {
    pub email: String,
    pub name: Option<String>,
}

/// Whether a string is a valid email address under the HTML5
/// form-validation rule.
pub uninterp spec fn is_valid_email(s: Seq<char>) -> bool;

/// Relies on validator's `ValidateEmail::validate_email` for `&str`: the
/// verdict depends on the characters alone, and the empty string is
/// rejected.
#[verifier::external_body]
fn email_is_valid(s: &str) -> (r: bool)
    ensures
        r == is_valid_email(s@),
        s@.len() == 0 ==> !r,
{
    s.validate_email()
}

/// Whether an optional display name is acceptable: absent, or between one
/// and a hundred characters.
pub open spec fn name_is_valid(name: &Option<String>) -> bool {
    name matches Some(n) ==> 1 <= n@.len() <= 100
}

/// Whether the whole creation payload passes field validation.
pub open spec fn new_user_is_valid(u: &NewUser) -> bool {
    is_valid_email(u.email@) && name_is_valid(&u.name)
}

/// The field names a rejected payload is reported with, in order.
pub open spec fn invalid_fields_of(u: &NewUser) -> Seq<Seq<char>> {
    if !is_valid_email(u.email@) && !name_is_valid(&u.name) {
        seq!["email"@, "name"@]
    } else if !is_valid_email(u.email@) {
        seq!["email"@]
    } else {
        seq!["name"@]
    }
}

impl NewUser {
    /// Validates the payload: the email must be a valid address and the
    /// optional name must have between one and a hundred characters.
    /// Succeeds exactly on valid payloads; otherwise the validation error
    /// carries one entry per offending field, in order.
    pub fn validate(&self) -> (r: Result<(), AppError>)
        ensures
            r is Ok <==> new_user_is_valid(self),
            r matches Err(e) ==> e matches AppError::Validation(v) && v@.map_values(
                |f: FieldError| f.field@,
            ) == invalid_fields_of(self),
    {
        let mut errors: Vec<FieldError> = Vec::new();
        if !email_is_valid(self.email.as_str()) {
            errors.push(
                FieldError {
                    field: String::from_str("email"),
                    message: String::from_str("must be a valid email address"),
                },
            );
        }
        let name_ok: bool = match &self.name {
            Some(n) => {
                let len = n.as_str().unicode_len();
                1 <= len && len <= 100
            },
            None => true,
        };
        if !name_ok {
            errors.push(
                FieldError {
                    field: String::from_str("name"),
                    message: String::from_str("length must be between 1 and 100 characters"),
                },
            );
        }
        if errors.len() == 0 {
            Ok(())
        } else {
            proof {
                assert(errors@.map_values(|f: FieldError| f.field@) =~= invalid_fields_of(self));
            }
            Err(AppError::Validation(errors))
        }
    }
}

/// Relies on `uuid::Uuid::new_v4` and its hyphenated rendering: a freshly
/// drawn random identifier, printed as 36 characters. Nothing more is
/// promised of the value — it is random.
#[verifier::external_body]
fn fresh_user_id() -> (r: String)
    ensures
        r@.len() == 36,
{
    uuid::Uuid::new_v4().to_string()
}

/// The compute part of a creation request: validates the payload and, when
/// it is valid, builds the record to store — the payload's fields unchanged
/// under a fresh 36-character identifier. Fails exactly on invalid
/// payloads, with the field-level validation error.
pub fn create_user(payload: NewUser) -> (r: Result<User, AppError>)
    ensures
        r is Ok <==> new_user_is_valid(&payload),
        r matches Ok(u) ==> u.email == payload.email && u.name == payload.name && u.id@.len()
            == 36,
        r matches Err(e) ==> e matches AppError::Validation(v) && v@.map_values(
            |f: FieldError| f.field@,
        ) == invalid_fields_of(&payload),
{
    match payload.validate() {
        Ok(_) => {
            let id = fresh_user_id();
            Ok(User { id, email: payload.email, name: payload.name })
        },
        Err(e) => Err(e),
    }
}

} // verus!
