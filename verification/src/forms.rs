//! What clients send to the account and catalog services, and the envelope
//! every answer is wrapped in.

use crate::text::opt_str;
use vstd::prelude::*;

verus! {

/// The body of a login request.
#[derive(Debug, Clone, PartialEq, Eq)]
pub struct LoginViewObject {
    pub username: String,
    pub password: String,
}

/// The body of a registration request.
#[derive(Debug, Clone, PartialEq, Eq)]
pub struct RegisterViewObject {
    /// Between 5 and 20 characters.
    pub username: String,
    /// Between 8 and 20 characters.
    pub password: String,
}

/// The body of a request that creates an artist.
#[derive(Debug, Clone, PartialEq, Eq)]
pub struct CreateArtistViewObject {
    pub name: String,
    pub nationality: Option<String>,
    pub birth_date: Option<String>,
    pub avatar: Option<String>,
    pub sex: Option<String>,
}

/// Which fields of a registration are out of bounds.
#[derive(Debug, Clone, Copy, PartialEq, Eq, Structural)]
pub struct RegistrationErrors {
    pub username: bool,
    pub password: bool,
}

/// Whether a text has between `min` and `max` characters.
pub open spec fn within(text: Seq<char>, min: u64, max: u64) -> bool {
    min <= text.len() <= max
}

/// Calls `validator::validate_length` on a text with a lower and an upper
/// bound and no exact length. The crate counts the characters of a text,
/// not its bytes, and accepts a count between the two bounds, both
/// included.
#[verifier::external_body]
fn length_within(text: &str, min: u64, max: u64) -> (ok: bool)
    ensures
        ok == within(text@, min, max),
{
    validator::validate_length(text, Some(min), Some(max), None)
}

/// What validating a registration yields: nothing to object to when the
/// user name has 5 to 20 characters and the password 8 to 20, and else the
/// fields that are out of bounds.
pub open spec fn registration_check(username: Seq<char>, password: Seq<char>) -> Result<
    (),
    RegistrationErrors,
> {
    if within(username, 5, 20) && within(password, 8, 20) {
        Ok(())
    } else {
        Err(
            RegistrationErrors {
                username: !within(username, 5, 20),
                password: !within(password, 8, 20),
            },
        )
    }
}

impl RegisterViewObject {
    /// Checks the bounds on the two fields.
    pub fn validate(&self) -> (r: Result<(), RegistrationErrors>)
        ensures
            r == registration_check(self.username@, self.password@),
    {
        let username = !length_within(self.username.as_str(), 5, 20);
        let password = !length_within(self.password.as_str(), 8, 20);
        if username || password {
            Err(RegistrationErrors { username, password })
        } else {
            Ok(())
        }
    }
}

impl RegistrationErrors {
    /// What a client is told about the user name, if it is out of bounds.
    pub fn username_message(&self) -> (text: Option<&'static str>)
        ensures
            opt_str(text) == (if self.username {
                Some("用户名必须介于5-20个字符之间"@)
            } else {
                None
            }),
    {
        if self.username {
            Some("用户名必须介于5-20个字符之间")
        } else {
            None
        }
    }

    /// What a client is told about the password, if it is out of bounds.
    pub fn password_message(&self) -> (text: Option<&'static str>)
        ensures
            opt_str(text) == (if self.password {
                Some("密码必须介于8-20个字符之间"@)
            } else {
                None
            }),
    {
        if self.password {
            Some("密码必须介于8-20个字符之间")
        } else {
            None
        }
    }
}

/// The envelope of every answer.
#[derive(Debug, Clone, PartialEq, Eq)]
pub struct ApiResponse<T> {
    pub success: bool,
    pub data: Option<T>,
    pub message: Option<String>,
}

/// The `Debug` form of a text: the text between double quotes, with the
/// escapes of std.
pub uninterp spec fn quoted(text: Seq<char>) -> Seq<char>;

/// Formats a text with the `Debug` form of std. The contract only gives
/// the result a name, as a function of the text.
#[verifier::external_body]
fn quote(text: &str) -> (r: String)
    ensures
        r@ == quoted(text@),
{
    format!("{:?}", text)
}

impl<T> ApiResponse<T> {
    /// The envelope of a refusal: no data, and the reason as message.
    pub fn failure(message: &str) -> (r: ApiResponse<T>)
        ensures
            !r.success,
            r.data is None,
            r.message matches Some(m) && m@ == message@,
    {
        ApiResponse { success: false, data: None, message: Some(message.to_owned()) }
    }

    /// The envelope of a result.
    pub fn success(data: T, message: &str) -> (r: ApiResponse<T>)
        ensures
            r.success,
            r.data == Some(data),
            r.message matches Some(m) && m@ == message@,
    {
        ApiResponse { success: true, data: Some(data), message: Some(message.to_owned()) }
    }

    /// The text an envelope is displayed as: its message, quoted.
    pub fn to_text(&self) -> (text: String)
        requires
            self.message is Some,
        ensures
            text@ == quoted(self.message->0@),
    {
        match &self.message {
            Some(message) => quote(message.as_str()),
            None => vstd::pervasive::unreached(),
        }
    }
}

} // verus!
