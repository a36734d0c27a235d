//! Authorization of requests by bearer tokens.

use crate::model::views;
use crate::settings::{AuthEntry, AuthEntryView};
use vstd::prelude::*;
use vstd::string::{StrSliceExecFns, StringExecFns};

verus! {

/// Proof of an authorized request.
#[derive(Debug, Clone, Copy, PartialEq, Eq, Structural)]
pub struct Token;

/// Why a request is not authorized.
#[derive(Debug, Clone, Copy, PartialEq, Eq, Structural)]
pub enum ApiTokenError {
    /// The request carries no authorization.
    Missing,
    /// The request carries an authorization that the server does not
    /// accept.
    Invalid,
}

/// The token that an authorization header presents, if it presents one: what
/// follows the word `Bearer` and one space.
pub open spec fn bearer_token(header: Seq<char>) -> Option<Seq<char>> {
    if header.len() >= 7 && header.subrange(0, 7) == "Bearer "@ {
        Some(header.subrange(7, header.len() as int))
    } else {
        None
    }
}

/// Some configured token is `token`.
pub open spec fn is_configured(tokens: Seq<AuthEntryView>, token: Seq<char>) -> bool {
    exists|i: int| 0 <= i < tokens.len() && (#[trigger] tokens[i]).token == token
}

/// Whether a request with the given authorization header is let in: with no
/// token configured, every request is; else the header must be there and
/// present a configured token, under whatever name that token is kept.
pub open spec fn authorized(tokens: Seq<AuthEntryView>, header: Option<Seq<char>>) -> Result<
    Token,
    ApiTokenError,
> {
    if tokens.len() == 0 {
        Ok(Token)
    } else {
        match header {
            None => Err(ApiTokenError::Missing),
            Some(header) => match bearer_token(header) {
                Some(token) => if is_configured(tokens, token) {
                    Ok(Token)
                } else {
                    Err(ApiTokenError::Invalid)
                },
                None => Err(ApiTokenError::Invalid),
            },
        }
    }
}

/// Whether some configured token is `token`.
pub fn token_is_configured(tokens: &[AuthEntry], token: &String) -> (r: bool)
    ensures
        r == is_configured(views(tokens@), token@),
{
    let mut i: usize = 0;
    while i < tokens.len()
        invariant
            i <= tokens.len(),
            forall|k: int| 0 <= k < i ==> (#[trigger] views(tokens@)[k]).token != token@,
        decreases tokens.len() - i,
    {
        assert(views(tokens@)[i as int] == tokens@[i as int]@);
        if tokens[i].token.0 == *token {
            return true;
        }
        i += 1;
    }
    false
}

/// Decides whether a request with the given authorization header is let in.
pub fn authorize(tokens: &[AuthEntry], header: Option<&str>) -> (r: Result<Token, ApiTokenError>)
    ensures
        r == authorized(
            views(tokens@),
            match header {
                Some(h) => Some(h@),
                None => None,
            },
        ),
{
    if tokens.len() == 0 {
        return Ok(Token);
    }
    let header = match header {
        Some(header) => header,
        None => {
            return Err(ApiTokenError::Missing);
        },
    };
    let n = header.unicode_len();
    if n < 7 {
        return Err(ApiTokenError::Invalid);
    }
    let lead = String::from_str(header.substring_char(0, 7));
    if !(lead == String::from_str("Bearer ")) {
        return Err(ApiTokenError::Invalid);
    }
    let token = String::from_str(header.substring_char(7, n));
    if token_is_configured(tokens, &token) {
        Ok(Token)
    } else {
        Err(ApiTokenError::Invalid)
    }
}

} // verus!
