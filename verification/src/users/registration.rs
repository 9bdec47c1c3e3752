use vstd::prelude::*;

use crate::users::handlers::RegisterPayload;

verus! {

/// Whether a password agrees with a stored password hash.  Stands for what
/// argon2's verifier computes from the two strings alone.
pub uninterp spec fn password_matches(hash: Seq<char>, password: Seq<char>) -> bool;

/// Hashing failed inside the password library.
#[derive(Debug, PartialEq, Eq, Structural, Clone, Copy)]
pub struct PasswordHashError;

/// Relies on argon2's PasswordHasher::hash_password: it salts and hashes the
/// password, and its verifier accepts the password against the hash it made.
/// The salt is random, so nothing more is assumed of the string.
#[verifier::external_body]
pub(crate) fn hash_password(password: &str) -> (r: Result<String, PasswordHashError>)
    ensures
        r matches Ok(h) ==> password_matches(h@, password@),
{
    argon2::password_hash::PasswordHasher::hash_password(
        &argon2::Argon2::default(),
        password.as_bytes(),
    )
        .map(|h| h.to_string())
        .map_err(|_| PasswordHashError)
}

/// Relies on argon2's PasswordVerifier::verify_password: it recomputes the
/// hash with the stored salt and parameters and compares; the outcome is a
/// function of the two strings.  A string that is no hash verifies nothing.
#[verifier::external_body]
pub(crate) fn verify_password(hash: &str, password: &str) -> (r: bool)
    ensures
        r == password_matches(hash@, password@),
{
    match hash.parse::<argon2::password_hash::phc::PasswordHash>() {
        Ok(parsed) => argon2::password_hash::PasswordVerifier::verify_password(
            &argon2::Argon2::default(),
            password.as_bytes(),
            &parsed,
        ).is_ok(),
        Err(_) => false,
    }
}

/// Checks a presented password against the hash a registration stored.
pub fn password_is_correct(stored_hash: &str, presented: &str) -> (r: bool)
    ensures
        r == password_matches(stored_hash@, presented@),
{
    verify_password(stored_hash, presented)
}

/// The columns a login reads back to check credentials and mint a token.
#[derive(Clone, Debug, PartialEq, Eq)]
pub struct UserCore {
    pub id: i64,
    pub username: String,
    pub email: String,
    pub password: String,
    pub is_active: bool,
    pub is_superuser: bool,
    pub is_staff: bool,
    pub is_test: bool,
}

impl UserCore {
    /// Every signed-in user acts under this role.
    pub fn role(&self) -> (r: String)
        ensures
            r@ == "admin"@,
    {
        let r = "admin".to_owned();
        r
    }
}

/// The row inserted when someone registers, with the password hashed.
pub struct NewUser {
    pub username: String,
    pub email: String,
    pub is_active: bool,
    pub is_superuser: bool,
    pub is_staff: bool,
    pub is_test: bool,
    pub password: String,
}

impl NewUser {
    /// An empty, inactive account.
    pub fn default() -> (r: Self)
        ensures
            r.username@ =~= Seq::<char>::empty(),
            r.email@ =~= Seq::<char>::empty(),
            !r.is_active,
            !r.is_superuser,
            !r.is_staff,
            !r.is_test,
            r.password@ =~= Seq::<char>::empty(),
    {
        NewUser {
            username: String::new(),
            email: String::new(),
            is_active: false,
            is_superuser: false,
            is_staff: false,
            is_test: false,
            password: String::new(),
        }
    }

    /// A fresh active account whose stored password is the hash of the
    /// presented one: the same password verifies against it afterwards.
    pub fn new(query_params: RegisterPayload) -> (r: Result<Self, PasswordHashError>)
        ensures
            r matches Ok(u) ==> {
                &&& u.username@ == query_params.username@
                &&& u.email@ == query_params.email@
                &&& u.is_active
                &&& !u.is_superuser
                &&& !u.is_staff
                &&& !u.is_test
                &&& password_matches(u.password@, query_params.password@)
            },
    {
        let hashed = match hash_password(query_params.password.as_str()) {
            Ok(h) => h,
            Err(e) => {
                return Err(e);
            },
        };
        Ok(
            NewUser {
                username: query_params.username,
                email: query_params.email,
                is_active: true,
                is_superuser: false,
                is_staff: false,
                is_test: false,
                password: hashed,
            },
        )
    }
}

/// Why a login was turned away.
#[derive(Debug, PartialEq, Eq, Structural, Clone, Copy)]
pub enum LoginError {
    DoesNotExist,
    WrongPassword,
}

/// Decides a login from what the user lookup found: no row means an unknown
/// user; a row whose stored hash does not verify the presented password is
/// turned away as a wrong password; otherwise that user signs in.
pub fn check_login(user: Option<UserCore>, presented: &str) -> (r: Result<UserCore, LoginError>)
    ensures
        match r {
            Ok(u) => user matches Some(found) && u == found && password_matches(
                found.password@,
                presented@,
            ),
            Err(e) => match e {
                LoginError::DoesNotExist => user is None,
                LoginError::WrongPassword => user matches Some(found) && !password_matches(
                    found.password@,
                    presented@,
                ),
            },
        },
{
    match user {
        Some(found) => {
            if verify_password(found.password.as_str(), presented) {
                Ok(found)
            } else {
                Err(LoginError::WrongPassword)
            }
        },
        None => Err(LoginError::DoesNotExist),
    }
}

/// The geolocation lookup gave no usable country.
#[derive(Debug, PartialEq, Eq, Structural, Clone, Copy)]
pub struct IpDataNotFound;

/// The country a geolocation lookup names: registration reads the record's
/// country and its ISO code, and anything missing along the way means the
/// address cannot be placed.  The outer option is the record's country, the
/// inner its code.
pub fn country_iso_from_geo(lookup: Option<Option<String>>) -> (r: Result<
    String,
    IpDataNotFound,
>)
    ensures
        match r {
            Ok(iso) => lookup matches Some(c) && c matches Some(code) && iso@ == code@,
            Err(_) => lookup is None || (lookup matches Some(c) && c is None),
        },
{
    match lookup {
        Some(Some(code)) => Ok(code),
        Some(None) => Err(IpDataNotFound),
        None => Err(IpDataNotFound),
    }
}

/// A user's profile: where they are and what currency they see by default.
pub struct Profile {
    pub user_id: i64,
    pub currency_id: i64,
    pub country_id: i64,
    pub image: Option<String>,
}

impl Profile {
    /// The profile created at registration: the location the request came
    /// from, no picture yet.
    pub fn new(user_id: i64, country_id: i64, currency_id: i64) -> (r: Self)
        ensures
            r.user_id == user_id,
            r.country_id == country_id,
            r.currency_id == currency_id,
            r.image is None,
    {
        Profile { user_id, currency_id, country_id, image: None }
    }
}

/// What a successful login answers: the user, their profile data and a
/// token.
pub struct LoginResponse {
    pub id: i64,
    pub role: String,
    pub username: String,
    pub email: String,
    pub image: Option<String>,
    pub currency_id: i64,
    pub token: String,
}

impl LoginResponse {
    /// The response for a signed-in user; the token is set afterwards.
    pub fn new(user: &UserCore, profile: &Profile) -> (r: Self)
        ensures
            r.id == user.id,
            r.role@ == "admin"@,
            r.username@ == user.username@,
            r.email@ == user.email@,
            r.currency_id == profile.currency_id,
            r.token@ =~= Seq::<char>::empty(),
            r.image is Some <==> profile.image is Some,
            r.image matches Some(img) ==> profile.image matches Some(p) && img@ == p@,
    {
        proof {
            reveal_strlit("");
        }
        let image = match &profile.image {
            Some(img) => Some(img.clone()),
            None => None,
        };
        LoginResponse {
            id: user.id,
            role: user.role(),
            username: user.username.clone(),
            email: user.email.clone(),
            image,
            currency_id: profile.currency_id,
            token: String::new(),
        }
    }

    /// Stores the token minted for this user; nothing else changes.
    pub fn set_token(&mut self, token: String)
        ensures
            final (self).token@ == token@,
            final (self).id == old(self).id,
            final (self).role@ == old(self).role@,
            final (self).username@ == old(self).username@,
            final (self).email@ == old(self).email@,
            final (self).currency_id == old(self).currency_id,
            final (self).image == old(self).image,
    {
        self.token = token;
    }
}

} // verus!
