use carteira::auth::token::{Claims, UserClaims, MAX_UTC_TIMESTAMP, MIN_UTC_TIMESTAMP};
use carteira::auth::user::{
    checked_authentication, registration_result, PasswordCheck, UnauthenticatedUser, User,
    UserRecord,
};
use carteira::config::{parse_unsigned, Config, ConfigError};
use carteira::error::{AppError, InsertOutcome};
use carteira::text::{i64_to_decimal, trim};

#[test]
fn trim_matches_std() {
    for s in ["", "   ", " a b ", "\u{a0}x\u{2003}", "\u{200b}x", "\r\n\tabc\u{85}", "é"] {
        assert_eq!(trim(s), s.trim());
    }
}

#[test]
fn decimal_of_i64() {
    assert_eq!(i64_to_decimal(0), "0");
    assert_eq!(i64_to_decimal(42), "42");
    assert_eq!(i64_to_decimal(-7), "-7");
    assert_eq!(i64_to_decimal(i64::MIN), i64::MIN.to_string());
    assert_eq!(i64_to_decimal(i64::MAX), i64::MAX.to_string());
}

#[test]
fn parse_matches_std() {
    for s in ["", "+", "-1", "0", "+12", "0012", " 1", "1 ", "18446744073709551615", "18446744073709551616", "65535", "65536", "1a"] {
        assert_eq!(parse_unsigned(s, u64::MAX), s.parse::<u64>().ok());
        assert_eq!(parse_unsigned(s, 65535), s.parse::<u16>().ok().map(u64::from));
    }
}

fn vars(d: Option<&str>, a: Option<&str>, j: Option<&str>, e: Option<&str>, p: Option<&str>) -> Result<Config, ConfigError> {
    let own = |v: Option<&str>| v.map(str::to_string);
    Config::from_vars(own(d), own(a), own(j), own(e), own(p))
}

#[test]
fn config_defaults() {
    let c = vars(Some("postgres://db"), Some("chave"), Some("segredo"), None, None).ok().unwrap();
    assert_eq!(c.database_url, "postgres://db");
    assert_eq!(c.admin_api_key, "chave");
    assert_eq!(c.jwt_secret, "segredo");
    assert_eq!(c.jwt_expiry_hours, 24);
    assert_eq!(c.port, 3000);
}

#[test]
fn config_given_numbers() {
    let c = vars(Some("u"), Some("k"), Some("s"), Some("+48"), Some("8080")).ok().unwrap();
    assert_eq!(c.jwt_expiry_hours, 48);
    assert_eq!(c.port, 8080);
}

#[test]
fn config_errors_in_order() {
    let e = |r: Result<Config, ConfigError>| r.err().unwrap();
    assert_eq!(e(vars(None, None, None, Some("x"), Some("x"))), ConfigError::MissingDatabaseUrl);
    assert_eq!(e(vars(Some("u"), None, None, None, None)), ConfigError::MissingAdminApiKey);
    assert_eq!(e(vars(Some("u"), Some("k"), None, None, None)), ConfigError::MissingJwtSecret);
    assert_eq!(e(vars(Some("u"), Some("k"), Some("s"), Some("-1"), Some("x"))), ConfigError::InvalidExpiryHours);
    assert_eq!(e(vars(Some("u"), Some("k"), Some("s"), None, Some("65536"))), ConfigError::InvalidPort);
    assert_eq!(ConfigError::InvalidPort.message(), "PORT precisa ser um número entre 0 e 65535");
    assert_eq!(ConfigError::MissingJwtSecret.message(), "JWT_SECRET não foi definida");
}

#[test]
fn chrono_range_constants() {
    assert_eq!(chrono::DateTime::<chrono::Utc>::MAX_UTC.timestamp(), MAX_UTC_TIMESTAMP);
    assert_eq!(chrono::DateTime::<chrono::Utc>::MIN_UTC.timestamp(), MIN_UTC_TIMESTAMP);
}

#[test]
fn claims_at_fixed_time() {
    let c: Claims = User::new(42, "ana".to_string()).claims_at(1_700_000_000, 24);
    assert_eq!(c.sub, "42");
    assert_eq!(c.exp, 1_700_000_000 + 24 * 3600);
    assert_eq!(c.data.id, 42);
    assert_eq!(c.data.username, "ana");
    let u = User::from_claims(c);
    assert_eq!(u.id(), 42);
    assert_eq!(u.username(), "ana");
}

#[test]
fn claims_with_wrapped_hours() {
    // u64::MAX hours reads as -1 hour.
    let c = User::new(-5, "x".to_string()).claims_at(1_000_000, u64::MAX);
    assert_eq!(c.exp, 1_000_000 - 3600);
    assert_eq!(c.sub, "-5");
}

#[test]
fn auth_claims_use_the_clock() {
    let before = chrono::Utc::now().timestamp();
    let c = User::new(1, "ana".to_string()).auth_claims(2).unwrap();
    let after = chrono::Utc::now().timestamp();
    assert!(c.exp as i64 >= before + 7200 && c.exp as i64 <= after + 7200);
    assert!(User::new(1, "ana".to_string()).auth_claims(3_000_000_000_000).is_none());
    assert!(User::new(1, "ana".to_string()).auth_claims(2_500_000_000).is_none());
    assert!(User::new(1, "ana".to_string()).auth_claims(2_000_000_000).is_some());
}

#[test]
fn registration_outcomes() {
    let rec = UserRecord { id: 9, username: "c".to_string(), password_hash: "h".to_string() };
    let u = registration_result(InsertOutcome::Inserted(rec)).ok().unwrap();
    assert_eq!(u.id(), 9);
    assert!(matches!(registration_result(InsertOutcome::Duplicate), Err(AppError::UsernameTaken)));
}

#[test]
fn user_claims_struct() {
    let d = UserClaims { id: 1, username: "z".to_string() };
    assert_eq!(User::from_claims(Claims { sub: "1".to_string(), exp: 0, data: d }).id(), 1);
}

#[test]
fn checked_authentication_on_each_outcome() {
    let rec = || UserRecord { id: 4, username: "d".to_string(), password_hash: "h".to_string() };
    match checked_authentication(rec(), PasswordCheck::Match) {
        Some(Ok(u)) => {
            assert_eq!(u.id(), 4);
            assert_eq!(u.username(), "d");
        }
        _ => panic!("match refused"),
    }
    assert!(matches!(
        checked_authentication(rec(), PasswordCheck::Mismatch),
        Some(Err(AppError::InvalidCredentials))
    ));
    assert!(checked_authentication(rec(), PasswordCheck::Malformed).is_none());
}

#[test]
fn authenticate_without_account() {
    let u = UnauthenticatedUser::new("e".to_string(), "senha123".to_string());
    assert_eq!(u.username(), "e");
    assert!(matches!(u.authenticate(None), Some(Err(AppError::UserDoesNotExist))));
}

#[test]
fn claims_at_reading_decides_on_the_reading() {
    let c = User::new(8, "f".to_string()).claims_at_reading(1_700_000_000, 24).unwrap();
    assert_eq!(c.exp, 1_700_000_000 + 86_400);
    assert_eq!(c.sub, "8");
    assert_eq!(c.data.username, "f");
    // Past chrono's last second: no token.
    assert!(User::new(8, "f".to_string()).claims_at_reading(MAX_UTC_TIMESTAMP, 1).is_none());
    assert!(User::new(8, "f".to_string()).claims_at_reading(MAX_UTC_TIMESTAMP - 3600, 1).is_some());
    // A validity beyond what a TimeDelta holds: no token.
    assert!(User::new(8, "f".to_string()).claims_at_reading(0, 3_000_000_000_000).is_none());
    // Any reading, even one no clock gives, is decided without overflow.
    assert!(User::new(8, "f".to_string()).claims_at_reading(i64::MAX, 1).is_none());
    assert!(User::new(8, "f".to_string()).claims_at_reading(i64::MIN, 1).is_none());
    assert!(User::new(8, "f".to_string()).claims_at_reading(0, 1_000_000_000).is_some());
}
