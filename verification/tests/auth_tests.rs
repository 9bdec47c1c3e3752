use elerem::auth::{authorize_claims, site, AuthError, JWTClaims, JWTUserRequest};

fn fresh_claims(now: u64) -> JWTClaims {
    JWTClaims::new(99, "admin".to_owned(), now, "abc123".to_owned())
}

#[test]
fn claims_carry_the_token_terms() {
    let c = fresh_claims(1_000_000);
    assert_eq!(c.iss, "elerem.com");
    assert_eq!(c.aud, site());
    assert_eq!(c.sub, "99");
    assert_eq!(c.exp, 1_086_400);
    assert_eq!(c.iat, 1_000_000);
    assert_eq!(c.jti, "abc123");
    assert_eq!(c.rol, "admin");
}

#[test]
fn fresh_claims_are_accepted() {
    let now = 1_000_000;
    let c = fresh_claims(now);
    let user = authorize_claims(&c, now).expect("fresh token accepted");
    assert_eq!(user.id, 99);
    assert_eq!(user.role, "admin");
}

#[test]
fn wrong_issuer_turned_away_first() {
    let now = 1_000_000;
    let mut c = fresh_claims(now);
    c.iss = "example.org".to_owned();
    c.aud = "example.org".to_owned();
    assert_eq!(authorize_claims(&c, now), Err(AuthError::WrongIssuer));
}

#[test]
fn wrong_audience_turned_away() {
    let now = 1_000_000;
    let mut c = fresh_claims(now);
    c.aud = "example.org".to_owned();
    assert_eq!(authorize_claims(&c, now), Err(AuthError::WrongAudience));
}

#[test]
fn expiring_tokens_turned_away() {
    let now = 1_000_000u64;
    let mut c = fresh_claims(now);
    // The acceptance window: exp - 86400 + 216000 >= now.
    c.exp = (now as i64) - 129_601;
    assert_eq!(authorize_claims(&c, now), Err(AuthError::Expired));
    c.exp = (now as i64) - 129_600;
    assert!(authorize_claims(&c, now).is_ok());
    c.exp = 86_399;
    assert_eq!(authorize_claims(&c, 0), Err(AuthError::Expired));
}

#[test]
fn bad_subject_turned_away() {
    let now = 1_000_000;
    let mut c = fresh_claims(now);
    c.sub = "nine".to_owned();
    assert_eq!(authorize_claims(&c, now), Err(AuthError::BadSubject));
}

#[test]
fn role_check_is_exact() {
    let user = JWTUserRequest { id: 1, role: "admin".to_owned() };
    assert!(user.is_authorized("admin"));
    assert!(!user.is_authorized("reader"));
    assert!(!user.is_authorized("Admin"));
}
