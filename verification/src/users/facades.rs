use vstd::prelude::*;

verus! {

/// The row inserted for a user created through the management endpoint.
pub struct NewUser<'a> {
    pub username: String,
    pub first_name: &'a str,
    pub last_name: &'a str,
    pub email: String,
    pub is_actif: bool,
    pub is_superuser: bool,
    pub is_staff: bool,
    pub is_test: bool,
    pub password: String,
}

/// The request body that creates a user.
pub struct NewUserQueryParams {
    pub username: String,
    pub email: String,
    pub password: String,
}

/// The flags a user listing can filter on.
pub struct FilterUsers {
    pub is_actif: Option<bool>,
    pub is_superuser: Option<bool>,
    pub is_staff: Option<bool>,
    pub is_test: Option<bool>,
}

impl<'a> NewUser<'a> {
    /// A fresh active account carrying the request's credentials.
    pub fn new(query_params: NewUserQueryParams) -> (r: Self)
        ensures
            r.username@ == query_params.username@,
            r.email@ == query_params.email@,
            r.password@ == query_params.password@,
            r.first_name@ =~= Seq::<char>::empty(),
            r.last_name@ =~= Seq::<char>::empty(),
            r.is_actif,
            !r.is_superuser,
            !r.is_staff,
            !r.is_test,
    {
        proof {
            reveal_strlit("");
        }
        NewUser {
            username: query_params.username,
            first_name: "",
            last_name: "",
            email: query_params.email,
            is_actif: true,
            is_superuser: false,
            is_staff: false,
            is_test: false,
            password: query_params.password,
        }
    }
}

} // verus!
