//! The admin gate: the check that a request carries the administrator's
//! bearer token. A request without a credential and a request with the
//! wrong one are told apart. The token is always required: an empty admin
//! token is matched only by an empty credential, never by a missing one.

use vstd::prelude::*;

use crate::config::admin_settings::AdminSettings;

verus! {

/// Why a request was turned away.
#[derive(Clone, Copy, Debug, PartialEq, Eq, Structural)]
pub enum AuthError {
    /// The request carried no bearer credential.
    Missing,
    /// The request carried a credential that is not the admin token.
    Invalid,
}

/// The characters of the credential a request carried, if it carried one.
pub open spec fn presented(authorization: Option<String>) -> Option<Seq<char>> {
    match authorization {
        Some(token) => Some(token@),
        None => None,
    }
}

/// The rule of the admin check: a request passes if and only if it carries
/// a credential that equals the admin token character by character.
pub open spec fn gate(token: Seq<char>, credential: Option<Seq<char>>) -> Result<(), AuthError> {
    match credential {
        None => Err(AuthError::Missing),
        Some(given) => if given == token {
            Ok(())
        } else {
            Err(AuthError::Invalid)
        },
    }
}

/// Checks the credential of a request against the admin token.
pub fn authorize(admin: &AdminSettings, authorization: &Option<String>) -> (outcome: Result<
    (),
    AuthError,
>)
    ensures
        outcome == gate(admin.token@, presented(*authorization)),
{
    match authorization {
        None => Err(AuthError::Missing),
        Some(given) => {
            if *given == admin.token {
                Ok(())
            } else {
                Err(AuthError::Invalid)
            }
        },
    }
}

} // verus!
