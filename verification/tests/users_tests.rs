use elerem::users::facades::{NewUserQueryParams};
use elerem::users::handlers::{LoginResponse, LoginUser, RegisterPayload};
use elerem::users::models;
use elerem::users::registration::{self, check_login, country_iso_from_geo, password_is_correct, IpDataNotFound, LoginError, Profile, UserCore};

#[test]
fn borrowed_new_user_defaults() {
    let u = models::NewUser::new("ada", "ada@example.org", "secret");
    assert_eq!(u.username, "ada");
    assert_eq!(u.email, "ada@example.org");
    assert_eq!(u.password, "secret");
    assert_eq!(u.first_name, "");
    assert_eq!(u.last_name, "");
    assert!(u.is_actif);
    assert!(!u.is_superuser);
    assert!(!u.is_staff);
    assert!(!u.is_test);
}

#[test]
fn facade_new_user_defaults() {
    let u = elerem::users::facades::NewUser::new(NewUserQueryParams {
        username: "bob".to_owned(),
        email: "bob@example.org".to_owned(),
        password: "pw".to_owned(),
    });
    assert_eq!(u.username, "bob");
    assert_eq!(u.email, "bob@example.org");
    assert_eq!(u.password, "pw");
    assert!(u.is_actif && !u.is_superuser && !u.is_staff && !u.is_test);
}

#[test]
fn handler_new_user_defaults() {
    let u = elerem::users::handlers::NewUser::new(RegisterPayload {
        username: "eve".to_owned(),
        email: "eve@example.org".to_owned(),
        password: "pw2".to_owned(),
    });
    assert_eq!(u.username, "eve");
    assert_eq!(u.email, "eve@example.org");
    assert_eq!(u.password, "pw2");
    assert!(u.is_actif && !u.is_superuser && !u.is_staff && !u.is_test);
}

#[test]
fn login_response_copies_the_user() {
    let user = LoginUser { id: 5, username: "ada".to_owned(), email: "a@b.c".to_owned() };
    let r = LoginResponse::new(&user, "tok".to_owned());
    assert_eq!(r.id, 5);
    assert_eq!(r.username, "ada");
    assert_eq!(r.email, "a@b.c");
    assert_eq!(r.token, "tok");
}

#[test]
fn registration_hashes_the_password() {
    let u = registration::NewUser::new(RegisterPayload {
        username: "ada".to_owned(),
        email: "ada@example.org".to_owned(),
        password: "open sesame".to_owned(),
    })
    .expect("hashing succeeds");
    assert_eq!(u.username, "ada");
    assert!(u.is_active && !u.is_superuser && !u.is_staff && !u.is_test);
    assert_ne!(u.password, "open sesame");
    assert!(password_is_correct(&u.password, "open sesame"));
    assert!(!password_is_correct(&u.password, "open sesam"));
}

#[test]
fn nonsense_hash_verifies_nothing() {
    assert!(!password_is_correct("not a hash", "anything"));
}

#[test]
fn default_registration_row_is_inactive() {
    let u = registration::NewUser::default();
    assert_eq!(u.username, "");
    assert_eq!(u.email, "");
    assert_eq!(u.password, "");
    assert!(!u.is_active && !u.is_superuser && !u.is_staff && !u.is_test);
}

#[test]
fn login_response_carries_profile_and_token() {
    let user = UserCore {
        id: 9,
        username: "ada".to_owned(),
        email: "a@b.c".to_owned(),
        password: "hash".to_owned(),
        is_active: true,
        is_superuser: false,
        is_staff: false,
        is_test: false,
    };
    let profile = Profile::new(9, 33, 978);
    assert_eq!(profile.user_id, 9);
    assert_eq!(profile.country_id, 33);
    assert_eq!(profile.currency_id, 978);
    assert_eq!(profile.image, None);
    let mut r = registration::LoginResponse::new(&user, &profile);
    assert_eq!(r.id, 9);
    assert_eq!(r.role, "admin");
    assert_eq!(r.currency_id, 978);
    assert_eq!(r.token, "");
    r.set_token("minted".to_owned());
    assert_eq!(r.token, "minted");
    assert_eq!(r.username, "ada");
}

#[test]
fn login_picks_the_right_error() {
    let stored = registration::NewUser::new(RegisterPayload {
        username: "ada".to_owned(),
        email: "ada@example.org".to_owned(),
        password: "open sesame".to_owned(),
    })
    .expect("hashing succeeds");
    let found = UserCore {
        id: 4,
        username: stored.username.clone(),
        email: stored.email.clone(),
        password: stored.password.clone(),
        is_active: true,
        is_superuser: false,
        is_staff: false,
        is_test: false,
    };
    assert_eq!(check_login(None, "open sesame"), Err(LoginError::DoesNotExist));
    assert_eq!(
        check_login(Some(found.clone()), "guessed wrong"),
        Err(LoginError::WrongPassword)
    );
    let signed_in = check_login(Some(found), "open sesame").expect("correct password");
    assert_eq!(signed_in.id, 4);
    assert_eq!(signed_in.username, "ada");
}

#[test]
fn geo_lookup_needs_a_country_code() {
    assert_eq!(country_iso_from_geo(Some(Some("FR".to_owned()))), Ok("FR".to_owned()));
    assert_eq!(country_iso_from_geo(Some(None)), Err(IpDataNotFound));
    assert_eq!(country_iso_from_geo(None), Err(IpDataNotFound));
}

#[test]
fn user_core_role_is_admin() {
    let user = UserCore {
        id: 1,
        username: "x".to_owned(),
        email: "x@y.z".to_owned(),
        password: String::new(),
        is_active: true,
        is_superuser: false,
        is_staff: false,
        is_test: false,
    };
    assert_eq!(user.role(), "admin");
}
