use vstd::prelude::*;

verus! {

/// The row inserted when someone registers.
pub struct NewUser<'a> {
    pub username: String,
    pub first_name: &'a str,
    pub last_name: &'a str,
    pub email: String,
    pub is_actif: bool,
    pub is_superuser: bool,
    pub is_staff: bool,
    pub is_test: bool,
    pub password: String,
}

/// The credentials a login request carries.
pub struct LoginPayload {
    pub username: String,
    pub password: String,
}

/// The data a registration request carries.
pub struct RegisterPayload {
    pub username: String,
    pub email: String,
    pub password: String,
}

/// The columns a login reads back for the signed-in user.
pub struct LoginUser {
    pub id: i32,
    pub username: String,
    pub email: String,
}

/// What a successful login answers: the user and a fresh token.
pub struct LoginResponse {
    pub id: i32,
    pub username: String,
    pub email: String,
    pub token: String,
}

impl<'a> NewUser<'a> {
    /// A fresh active account carrying the registration's credentials.
    pub fn new(query_params: RegisterPayload) -> (r: Self)
        ensures
            r.username@ == query_params.username@,
            r.email@ == query_params.email@,
            r.password@ == query_params.password@,
            r.first_name@ =~= Seq::<char>::empty(),
            r.last_name@ =~= Seq::<char>::empty(),
            r.is_actif,
            !r.is_superuser,
            !r.is_staff,
            !r.is_test,
    {
        proof {
            reveal_strlit("");
        }
        NewUser {
            username: query_params.username,
            first_name: "",
            last_name: "",
            email: query_params.email,
            is_actif: true,
            is_superuser: false,
            is_staff: false,
            is_test: false,
            password: query_params.password,
        }
    }
}

impl LoginResponse {
    /// The response for a signed-in user carrying the token minted for them.
    pub fn new(user: &LoginUser, token: String) -> (r: Self)
        ensures
            r.id == user.id,
            r.username@ == user.username@,
            r.email@ == user.email@,
            r.token@ == token@,
    {
        LoginResponse {
            id: user.id,
            username: user.username.clone(),
            email: user.email.clone(),
            token,
        }
    }
}

} // verus!
