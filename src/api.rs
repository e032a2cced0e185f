//! The two operations of the echo service, over plain values.

use vstd::prelude::*;
use vstd::string::*;
use crate::app_state::AppState;
use crate::auth::{issued_claims, signed_token, AuthError};

verus! {

/// The shortest password that sign-in accepts, in bytes.
pub const MIN_PASSWORD_LEN: usize = 8;

/// Why sign-in was refused.
#[derive(Debug, Clone, Copy, PartialEq, Eq, Structural)]
pub enum SigninError {
    /// The password is shorter than [`MIN_PASSWORD_LEN`] bytes.
    InvalidPassword,
    /// The token could not be issued.
    Auth(AuthError),
}

impl From<AuthError> for SigninError {
    fn from(e: AuthError) -> (r: Self)
        ensures
            r == SigninError::Auth(e),
    {
        SigninError::Auth(e)
    }
}

impl vstd::std_specs::convert::FromSpecImpl<AuthError> for SigninError {
    open spec fn obeys_from_spec() -> bool {
        true
    }

    open spec fn from_spec(e: AuthError) -> SigninError {
        SigninError::Auth(e)
    }
}

/// Echo: the message comes back as it was sent.
pub fn echo_message(message: String) -> (r: String)
    ensures
        r == message,
{
    message
}

/// Sign-in: a token for `username` where the password is long enough.
pub fn signin(state: &AppState, username: String, password: &str) -> (r: Result<String, SigninError>)
    ensures
        password.len() < MIN_PASSWORD_LEN ==> r matches Err(SigninError::InvalidPassword),
        password.len() >= MIN_PASSWORD_LEN ==> match r {
            Ok(t) => exists|now: u64| signed_token(
                state.signer.key_pem(),
                #[trigger] issued_claims(state.signer.issuer(), username@, now),
                t@,
            ),
            Err(e) => e == SigninError::Auth(AuthError::SigningFailed),
        },
{
    if password.len() < MIN_PASSWORD_LEN {
        return Err(SigninError::InvalidPassword);
    }
    match state.signer.sign(username) {
        Ok(t) => Ok(t),
        Err(e) => Err(SigninError::from(e)),
    }
}

} // verus!
