//! Secret Manager references and the errors of resolving them.

pub mod gcp;

use vstd::prelude::*;
use vstd::string::*;

verus! {

/// Why a secret reference could not be resolved.
#[derive(Debug, Clone, Copy, PartialEq, Eq, Structural)]
pub enum SecretError {
    InvalidReference,
    AuthenticationFailed,
    AccessFailed,
    InvalidPayload,
}

pub open spec fn secret_error_text(e: SecretError) -> Seq<char> {
    match e {
        SecretError::InvalidReference => "secret reference must use projects/<project>/secrets/<secret>/versions/<version>"@,
        SecretError::AuthenticationFailed => "Application Default Credentials could not produce an access token"@,
        SecretError::AccessFailed => "Google Secret Manager could not access this secret reference"@,
        SecretError::InvalidPayload => "Google Secret Manager returned an invalid secret payload"@,
    }
}

impl SecretError {
    /// The description of this error.
    pub fn message(&self) -> (r: String)
        ensures
            r@ == secret_error_text(*self),
    {
        match self {
            SecretError::InvalidReference => String::from_str(
                "secret reference must use projects/<project>/secrets/<secret>/versions/<version>",
            ),
            SecretError::AuthenticationFailed => String::from_str(
                "Application Default Credentials could not produce an access token",
            ),
            SecretError::AccessFailed => String::from_str(
                "Google Secret Manager could not access this secret reference",
            ),
            SecretError::InvalidPayload => String::from_str(
                "Google Secret Manager returned an invalid secret payload",
            ),
        }
    }
}

} // verus!
