use vstd::prelude::*;

verus! {

/// The row inserted for a new user account, borrowing the caller's strings.
pub struct NewUser<'a> {
    pub username: &'a str,
    pub first_name: &'a str,
    pub last_name: &'a str,
    pub email: &'a str,
    pub is_actif: bool,
    pub is_superuser: bool,
    pub is_staff: bool,
    pub is_test: bool,
    pub password: &'a str,
}

impl<'a> NewUser<'a> {
    /// A fresh active account with no names and no privileges.
    pub fn new(username: &'a str, email: &'a str, password: &'a str) -> (r: Self)
        ensures
            r.username@ == username@,
            r.email@ == email@,
            r.password@ == password@,
            r.first_name@ =~= Seq::<char>::empty(),
            r.last_name@ =~= Seq::<char>::empty(),
            r.is_actif,
            !r.is_superuser,
            !r.is_staff,
            !r.is_test,
    {
        proof {
            reveal_strlit("");
        }
        NewUser {
            username,
            first_name: "",
            last_name: "",
            email,
            is_actif: true,
            is_superuser: false,
            is_staff: false,
            is_test: false,
            password,
        }
    }
}

} // verus!
