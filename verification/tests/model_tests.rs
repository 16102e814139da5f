use user_auth_core::config::Config;
use user_auth_core::dtos::FilterUserDTO;
use user_auth_core::models::{User, UserRole};

fn sample_user() -> User {
    User {
        id: "3f8e7a1c-8f2d-4a5b-9c6d-0e1f2a3b4c5d".to_string(),
        name: "Ali".to_string(),
        email: "a@b.co".to_string(),
        password: "secret-hash".to_string(),
        role: UserRole::Admin,
        verified: true,
        verification_code: Some("pending-code".to_string()),
        token_expires_at: Some(1_700_000_600),
        created_at: 1_700_000_000,
        updated_at: 1_700_000_500,
    }
}

#[test]
fn role_tokens_are_lowercase() {
    assert_eq!(UserRole::User.to_str(), "user");
    assert_eq!(UserRole::Admin.to_str(), "admin");
}

#[test]
fn role_token_round_trip() {
    assert_eq!(UserRole::from_token(UserRole::User.to_str()), Some(UserRole::User));
    assert_eq!(UserRole::from_token(UserRole::Admin.to_str()), Some(UserRole::Admin));
    assert_eq!(UserRole::from_token("root"), None);
}

#[test]
fn projection_keeps_the_allow_listed_fields() {
    let user = sample_user();
    let dto = FilterUserDTO::filter_user(&user);
    assert_eq!(dto.id, "3f8e7a1c-8f2d-4a5b-9c6d-0e1f2a3b4c5d");
    assert_eq!(dto.name, "Ali");
    assert_eq!(dto.email, "a@b.co");
    assert_eq!(dto.role, "admin");
    assert!(dto.verified);
    assert_eq!(dto.created_at, 1_700_000_000);
    assert_eq!(dto.updated_at, 1_700_000_500);
}

#[test]
fn projection_never_carries_the_secrets() {
    // All optional fields populated: no produced field may hold the
    // password hash or the verification code.
    let user = sample_user();
    let dto = FilterUserDTO::filter_user(&user);
    for text in [&dto.id, &dto.name, &dto.email, &dto.role] {
        assert_ne!(text.as_str(), "secret-hash");
        assert_ne!(text.as_str(), "pending-code");
    }
}

#[test]
fn projection_of_a_sequence_preserves_order_one_to_one() {
    let mut second = sample_user();
    second.id = "b".to_string();
    second.name = "Bo".to_string();
    second.role = UserRole::User;
    let users = vec![sample_user(), second];
    let dtos = FilterUserDTO::filter_users(&users);
    assert_eq!(dtos.len(), 2);
    assert_eq!(dtos[0].name, "Ali");
    assert_eq!(dtos[0].role, "admin");
    assert_eq!(dtos[1].name, "Bo");
    assert_eq!(dtos[1].role, "user");
}

#[test]
fn config_accepts_well_formed_numbers() {
    let c = Config::from_values(
        "postgres://localhost/app".to_string(),
        "SECRET-REDACTED".to_string(),
        "3600",
        "8000",
    )
    .unwrap();
    assert_eq!(c.database_url, "postgres://localhost/app");
    assert_eq!(c.jwt_secret, "SECRET-REDACTED");
    assert_eq!(c.jwt_maxage, 3600);
    assert_eq!(c.port, 8000);
}

#[test]
fn config_accepts_a_negative_lifetime() {
    let c = Config::from_values("d".to_string(), "s".to_string(), "-60", "1").unwrap();
    assert_eq!(c.jwt_maxage, -60);
    assert_eq!(c.port, 1);
}

#[test]
fn config_accepts_an_explicit_plus_sign() {
    // The declared types' decimal grammar admits one leading plus sign.
    let c = Config::from_values("d".to_string(), "s".to_string(), "+60", "+8000").unwrap();
    assert_eq!(c.jwt_maxage, 60);
    assert_eq!(c.port, 8000);
    assert_eq!("+60".parse::<i64>().unwrap(), c.jwt_maxage);
    assert_eq!("+8000".parse::<u16>().unwrap(), c.port);
}

#[test]
fn config_rejects_malformed_numbers() {
    assert!(Config::from_values("d".to_string(), "s".to_string(), "soon", "8000").is_none());
    assert!(Config::from_values("d".to_string(), "s".to_string(), "3600", "").is_none());
    assert!(Config::from_values("d".to_string(), "s".to_string(), "3600", "65536").is_none());
    assert!(Config::from_values("d".to_string(), "s".to_string(), "", "8000").is_none());
    assert!(Config::from_values("d".to_string(), "s".to_string(), "12a", "8000").is_none());
}

#[test]
fn config_rejects_a_bare_or_doubled_sign() {
    // A sign with no digits, a doubled sign, and a minus on the unsigned
    // port all fail, exactly as the declared types' parse fails on them.
    assert!(Config::from_values("d".to_string(), "s".to_string(), "+", "1").is_none());
    assert!(Config::from_values("d".to_string(), "s".to_string(), "-", "1").is_none());
    assert!(Config::from_values("d".to_string(), "s".to_string(), "+-60", "1").is_none());
    assert!(Config::from_values("d".to_string(), "s".to_string(), "++60", "1").is_none());
    assert!(Config::from_values("d".to_string(), "s".to_string(), "60", "-1").is_none());
    assert!("+".parse::<i64>().is_err());
    assert!("+-60".parse::<i64>().is_err());
    assert!("-1".parse::<u16>().is_err());
}

#[test]
fn config_bounds_of_the_declared_types() {
    let c = Config::from_values("d".to_string(), "s".to_string(), "9223372036854775807", "65535")
        .unwrap();
    assert_eq!(c.jwt_maxage, i64::MAX);
    assert_eq!(c.port, 65535);
    let c = Config::from_values("d".to_string(), "s".to_string(), "-9223372036854775808", "1")
        .unwrap();
    assert_eq!(c.jwt_maxage, i64::MIN);
    assert!(
        Config::from_values("d".to_string(), "s".to_string(), "9223372036854775808", "1").is_none()
    );
    assert!(
        Config::from_values("d".to_string(), "s".to_string(), "-9223372036854775809", "1")
            .is_none()
    );
}
