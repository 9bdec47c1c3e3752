use vstd::prelude::*;

use crate::numeric::{int_chars, int_literal_value, is_i64_literal, parse_i64};
use crate::numeric::i64_to_string;

verus! {

/// The issuer and audience this service stamps into its tokens.
pub open spec fn site_chars() -> Seq<char> {
    "elerem.com"@
}

pub fn site() -> (r: &'static str)
    ensures
        r@ == site_chars(),
{
    "elerem.com"
}

/// How long a fresh token lives, in seconds.
pub const TOKEN_LIFETIME_SECONDS: u64 = 86400;

/// The leeway granted when checking expiry, in seconds.
pub const VALIDATION_LEEWAY_SECONDS: u64 = 60 * 60 * 60;

/// Tokens expiring in less than this are turned away, in seconds.
pub const MIN_REMAINING_SECONDS: u64 = 86400;

/// The claims carried inside a token.
pub struct JWTClaims {
    pub iss: String,
    pub sub: String,
    pub aud: String,
    pub exp: i64,
    pub iat: u64,
    pub jti: String,
    pub rol: String,
}

impl JWTClaims {
    /// Claims for a fresh token: issued to this user now, by and for this
    /// site, expiring in a day.
    pub fn new(user_id: i64, user_role: String, now: u64, jti: String) -> (r: Self)
        requires
            now + TOKEN_LIFETIME_SECONDS <= i64::MAX,
        ensures
            r.iss@ == site_chars(),
            r.aud@ == site_chars(),
            r.sub@ == int_chars(user_id as int),
            r.exp == now + TOKEN_LIFETIME_SECONDS,
            r.iat == now,
            r.jti@ == jti@,
            r.rol@ == user_role@,
    {
        JWTClaims {
            iss: site().to_owned(),
            sub: i64_to_string(user_id),
            aud: site().to_owned(),
            exp: (now + TOKEN_LIFETIME_SECONDS) as i64,
            iat: now,
            jti,
            rol: user_role,
        }
    }
}

/// Why a decoded token was turned away.
#[derive(Debug, PartialEq, Eq, Structural, Clone, Copy)]
pub enum AuthError {
    WrongIssuer,
    WrongAudience,
    Expired,
    BadSubject,
}

/// When decoded claims are accepted: issued by and for this site, expiring
/// at least a day from now within the configured leeway, and naming the
/// user by a number.
pub open spec fn claims_accepted(c: &JWTClaims, now: u64) -> bool {
    &&& c.iss@ == site_chars()
    &&& c.aud@ == site_chars()
    &&& c.exp >= MIN_REMAINING_SECONDS
    &&& c.exp - MIN_REMAINING_SECONDS + VALIDATION_LEEWAY_SECONDS >= now
    &&& is_i64_literal(c.sub@)
}

/// The error turned-away claims are answered with: the first rule they
/// break, checking the issuer, the audience, the expiry, then the subject.
pub open spec fn claims_rejection(c: &JWTClaims, now: u64) -> AuthError {
    if c.iss@ != site_chars() {
        AuthError::WrongIssuer
    } else if c.aud@ != site_chars() {
        AuthError::WrongAudience
    } else if c.exp < MIN_REMAINING_SECONDS || c.exp - MIN_REMAINING_SECONDS
        + VALIDATION_LEEWAY_SECONDS < now {
        AuthError::Expired
    } else {
        AuthError::BadSubject
    }
}

/// The user a request acts as, read from its token.
#[derive(Clone, Debug, PartialEq, Eq)]
pub struct JWTUserRequest {
    pub id: i64,
    pub role: String,
}

impl JWTUserRequest {
    /// Whether the request's role is exactly the required one.
    pub fn is_authorized(&self, role: &str) -> (r: bool)
        ensures
            r == (self.role@ == role@),
    {
        self.role.eq(&role.to_owned())
    }
}

/// Admits decoded claims to a request: accepted claims name the user whose
/// number the subject carries, under the claimed role; anything else is
/// turned away with the first rule it breaks.
pub fn authorize_claims(c: &JWTClaims, now: u64) -> (r: Result<JWTUserRequest, AuthError>)
    ensures
        r matches Ok(u) ==> claims_accepted(c, now) && u.id == int_literal_value(c.sub@)
            && u.role@ == c.rol@,
        r matches Err(e) ==> !claims_accepted(c, now) && e == claims_rejection(c, now),
{
    let site_name = site().to_owned();
    if !c.iss.eq(&site_name) {
        return Err(AuthError::WrongIssuer);
    }
    if !c.aud.eq(&site_name) {
        return Err(AuthError::WrongAudience);
    }
    if c.exp < MIN_REMAINING_SECONDS as i64 {
        return Err(AuthError::Expired);
    }
    if (c.exp as i128) - (MIN_REMAINING_SECONDS as i128) + (VALIDATION_LEEWAY_SECONDS as i128)
        < (now as i128) {
        return Err(AuthError::Expired);
    }
    match parse_i64(c.sub.as_str()) {
        Some(id) => Ok(JWTUserRequest { id, role: c.rol.clone() }),
        None => Err(AuthError::BadSubject),
    }
}

} // verus!
