//! Bearer tokens: what a token claims, and which of the tokens that a
//! request carries is the one to check.

use crate::json::option_text;
use crate::text::{strip_all, without};
use vstd::prelude::*;

verus! {

/// What a token claims: when it expires and when it was issued, as
/// seconds since the epoch, and whom it was issued for.
#[derive(Debug, Clone, PartialEq, Eq)]
pub struct Claims {
    pub exp: usize,
    pub iat: usize,
    pub sub: String,
}

/// The time does not fit the claims.
#[derive(Clone, Copy, Debug, PartialEq, Eq)]
pub struct TimeOutOfRange {}

impl Claims {
    /// The claims of a token issued at `now` for the user with the phone
    /// number `phone_number`. Such a token does not expire: its expiry
    /// time is zero and is not checked.
    pub fn issued(phone_number: String, now: u64) -> (r: Result<Claims, TimeOutOfRange>)
        ensures
            match r {
                Ok(c) => now <= usize::MAX && c.exp == 0 && c.iat == now && c.sub == phone_number,
                Err(_) => now > usize::MAX,
            },
    {
        if now > usize::MAX as u64 {
            Err(TimeOutOfRange {  })
        } else {
            Ok(Claims { exp: 0, iat: now as usize, sub: phone_number })
        }
    }
}

/// A token together with what it claims.
#[derive(Debug, Clone)]
pub struct UserToken {
    token: String,
    claims: Claims,
}

impl UserToken {
    /// The token text.
    pub closed spec fn token_text(&self) -> Seq<char> {
        self.token@
    }

    /// The user the token was issued for.
    pub closed spec fn user(&self) -> Seq<char> {
        self.claims.sub@
    }

    /// The time the token was issued at.
    pub closed spec fn issued_at(&self) -> nat {
        self.claims.iat as nat
    }

    /// A token that was signed for, or checked against, `claims`.
    pub fn new(token: String, claims: Claims) -> (r: Self)
        ensures
            r.token_text() == token@,
            r.user() == claims.sub@,
            r.issued_at() == claims.iat,
    {
        UserToken { token, claims }
    }

    /// The token text.
    pub fn token(&self) -> (r: &str)
        ensures
            r@ == self.token_text(),
    {
        self.token.as_str()
    }

    /// The user the token was issued for.
    pub fn get_user(&self) -> (r: &str)
        ensures
            r@ == self.user(),
    {
        self.claims.sub.as_str()
    }
}

/// Why a request carries no usable token.
#[derive(Clone, Copy, Debug, PartialEq, Eq)]
pub enum TokenError {
    /// Neither the header nor the query carries a token.
    Missing,
    /// Both the header and the query carry a token.
    TooMany,
    /// The token did not pass the check.
    Invalid,
}

impl TokenError {
    /// The words that the error is reported with.
    pub fn message(&self) -> (r: &'static str)
        ensures
            r@ == match *self {
                TokenError::Missing => "No token supplied"@,
                TokenError::TooMany => "Too many tokens supplied"@,
                TokenError::Invalid => "Invalid token"@,
            },
    {
        match self {
            TokenError::Missing => "No token supplied",
            TokenError::TooMany => "Too many tokens supplied",
            TokenError::Invalid => "Invalid token",
        }
    }

    /// The status that the error is reported with: a bad request where the
    /// request is at fault, unauthorized where the token is.
    pub fn status(&self) -> (r: u16)
        ensures
            r == match *self {
                TokenError::Missing => 400u16,
                TokenError::TooMany => 400u16,
                TokenError::Invalid => 401u16,
            },
    {
        match self {
            TokenError::Missing => 400,
            TokenError::TooMany => 400,
            TokenError::Invalid => 401,
        }
    }
}

/// The token of an authorization header: the header without the word that
/// introduces a bearer token, wherever it stands.
pub open spec fn header_token(header: Seq<char>) -> Seq<char> {
    without(header, "Bearer "@)
}

/// The token that a request supplies: that of the authorization header or
/// that of the query, where exactly one of them is there.
pub open spec fn supplied(header: Option<Seq<char>>, query: Option<Seq<char>>) -> Result<
    Seq<char>,
    TokenError,
> {
    match (header, query) {
        (None, None) => Err(TokenError::Missing),
        (Some(_), Some(_)) => Err(TokenError::TooMany),
        (Some(h), None) => Ok(header_token(h)),
        (None, Some(q)) => Ok(q),
    }
}

/// The text of `r`, or its error.
pub open spec fn result_text(r: Result<String, TokenError>) -> Result<Seq<char>, TokenError> {
    match r {
        Ok(s) => Ok(s@),
        Err(e) => Err(e),
    }
}

/// The token that a request supplies through its authorization header or
/// its query.
pub fn supplied_token(header: Option<String>, query: Option<String>) -> (r: Result<
    String,
    TokenError,
>)
    ensures
        result_text(r) == supplied(option_text(header), option_text(query)),
{
    match header {
        Some(h) => match query {
            Some(_) => Err(TokenError::TooMany),
            None => Ok(strip_all(h.as_str(), "Bearer ")),
        },
        None => match query {
            Some(q) => Ok(q),
            None => Err(TokenError::Missing),
        },
    }
}

} // verus!
