//! What a token says. Signing a token, checking its signature and hashing
//! passwords are done outside the library; the rules of what goes into a
//! token and of what is read out of it are here.

use vstd::prelude::*;
use vstd::string::*;
use crate::errors::AppError;
use crate::identity::{format_id, id_text, parse_uuid, parsed_id};

verus! {

/// For whom the tokens of this backend are meant.
pub const TOKEN_AUDIENCE: &'static str = "authenticated";

/// Who issues the tokens of this backend.
pub const TOKEN_ISSUER: &'static str = "supabase";

/// How a client is to present its token.
pub const TOKEN_TYPE: &'static str = "Bearer";

/// For how many hours a token is valid unless configured otherwise.
pub const DEFAULT_EXPIRY_HOURS: i64 = 24;

/// What the holder of a token is told when its subject is no identity.
pub const INVALID_SUBJECT: &'static str = "Invalid user ID in token";

/// The claims of a token. Times are in seconds since the epoch.
#[derive(Debug)]
pub struct Claims {
    pub sub: String,
    pub email: String,
    pub exp: i64,
    pub iat: i64,
    pub aud: String,
    pub iss: String,
}

/// The length of `hours` hours in seconds.
pub open spec fn seconds_of(hours: i64) -> int {
    hours * 3600
}

/// Whether a number of seconds can be held.
pub open spec fn fits(seconds: int) -> bool {
    i64::MIN <= seconds <= i64::MAX
}

/// The length of `hours` hours in seconds, as a client is told it with its
/// token; `None` where the number cannot be held.
pub fn expires_in(hours: i64) -> (seconds: Option<i64>)
    ensures
        match seconds {
            Some(seconds) => seconds == seconds_of(hours),
            None => !fits(seconds_of(hours)),
        },
{
    hours.checked_mul(3600)
}

impl Claims {
    /// The claims of a token issued to `user_id` at `now` and valid for
    /// `hours` hours; `None` where the time of expiry cannot be held.
    pub fn issue(user_id: u128, email: &str, now: i64, hours: i64) -> (claims: Option<Claims>)
        ensures
            match claims {
                Some(claims) => {
                    &&& fits(seconds_of(hours))
                    &&& claims.sub@ == id_text(user_id)
                    &&& claims.email@ == email@
                    &&& claims.iat == now
                    &&& claims.exp == now + seconds_of(hours)
                    &&& claims.aud@ == TOKEN_AUDIENCE@
                    &&& claims.iss@ == TOKEN_ISSUER@
                },
                None => !fits(seconds_of(hours)) || !fits(now + seconds_of(hours)),
            },
    {
        let lifetime = match hours.checked_mul(3600) {
            Some(lifetime) => lifetime,
            None => {
                return None;
            },
        };
        match now.checked_add(lifetime) {
            Some(exp) => Some(
                Claims {
                    sub: format_id(user_id),
                    email: String::from_str(email),
                    exp,
                    iat: now,
                    aud: String::from_str(TOKEN_AUDIENCE),
                    iss: String::from_str(TOKEN_ISSUER),
                },
            ),
            None => None,
        }
    }

    /// The user for whom the token was issued: the identity that its subject
    /// holds. A subject that holds none is an authentication failure.
    pub fn subject(&self) -> (user: Result<u128, AppError>)
        ensures
            match parsed_id(self.sub@) {
                Some(id) => user == Ok::<u128, AppError>(id),
                None => user matches Err(AppError::Auth(text)) && text@ == INVALID_SUBJECT@,
            },
    {
        match parse_uuid(self.sub.as_str()) {
            Some(id) => Ok(id),
            None => Err(AppError::Auth(String::from_str(INVALID_SUBJECT))),
        }
    }
}

} // verus!
