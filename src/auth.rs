//! The access decision of the service that hands out the document.
use vstd::prelude::*;
use crate::app_config::{AppConfig, AuthConfigView};
use crate::text::text_eq;

verus! {

/// Why a request for the document is refused.
#[derive(Clone, Copy, Debug, PartialEq, Eq, Structural)]
pub enum AuthFailure {
    /// Access control is on but no token is configured.
    NotConfigured,
    /// Access control is on and the request carries no token.
    TokenRequired,
    /// The request carries a token other than the configured one.
    InvalidToken,
}

impl AuthFailure {
    /// The message that explains the refusal.
    pub open spec fn spec_message(self) -> Seq<char> {
        match self {
            AuthFailure::NotConfigured => "Server configuration error"@,
            AuthFailure::TokenRequired => "Token required"@,
            AuthFailure::InvalidToken => "Invalid token"@,
        }
    }

    /// The message that explains the refusal.
    pub fn message(&self) -> (r: &'static str)
        ensures
            r@ == self.spec_message(),
    {
        match self {
            AuthFailure::NotConfigured => "Server configuration error",
            AuthFailure::TokenRequired => "Token required",
            AuthFailure::InvalidToken => "Invalid token",
        }
    }
}

/// The decision on a request that carries `provided`: with access control
/// off or absent every request passes; with it on, a missing or empty
/// configured token refuses all, a missing or empty token is refused, and
/// otherwise the token must equal the configured one.
pub open spec fn access_decision(auth: Option<AuthConfigView>, provided: Option<Seq<char>>) -> Result<
    (),
    AuthFailure,
> {
    match auth {
        Some(a) => if !a.enabled {
            Ok(())
        } else {
            let expected = match a.token {
                Some(t) => t,
                None => Seq::empty(),
            };
            let given = match provided {
                Some(t) => t,
                None => Seq::empty(),
            };
            if expected.len() == 0 {
                Err(AuthFailure::NotConfigured)
            } else if given.len() == 0 {
                Err(AuthFailure::TokenRequired)
            } else if given != expected {
                Err(AuthFailure::InvalidToken)
            } else {
                Ok(())
            }
        },
        None => Ok(()),
    }
}

/// Decides whether a request that carries `token` may have the document.
pub fn validate_token(app_config: &AppConfig, token: Option<&str>) -> (r: Result<(), AuthFailure>)
    ensures
        r == access_decision(app_config.auth.deep_view(), token.deep_view()),
{
    if let Some(auth_config) = &app_config.auth {
        if auth_config.enabled {
            let provided: &str = match token {
                Some(t) => t,
                None => "",
            };
            let expected: &str = match &auth_config.token {
                Some(t) => t.as_str(),
                None => "",
            };
            proof {
                reveal_strlit("");
            }
            if expected.is_empty() {
                return Err(AuthFailure::NotConfigured);
            }
            if provided.is_empty() {
                return Err(AuthFailure::TokenRequired);
            }
            if !text_eq(provided, expected) {
                return Err(AuthFailure::InvalidToken);
            }
        }
    }
    Ok(())
}

} // verus!
