use carteira::auth::user::{UnauthenticatedUser, UserRecord};
use carteira::error::AppError;
use carteira::routes::frontend::{format_brl_cents, login_step, validate_login, LoginStep};

/// The dashboard turns an `f64` amount into whole centavos before formatting it.
fn cents(value: f64) -> i64 {
    (value * 100.0).round() as i64
}

#[test]
fn test_total_value_sum() {
    let values = [10.0, 20.5, 0.25];
    let mut total = 0.0;
    for v in values {
        total += v;
    }
    assert_eq!(format_brl_cents(cents(total)), "R$ 30,75");
}

#[test]
fn test_format_brl() {
    assert_eq!(format_brl_cents(cents(10.0)), "R$ 10,00");
    assert_eq!(format_brl_cents(cents(1234.5)), "R$ 1.234,50");
    assert_eq!(format_brl_cents(cents(100_000.0)), "R$ 100.000,00");
    assert_eq!(format_brl_cents(cents(0.0)), "R$ 0,00");
    assert_eq!(format_brl_cents(cents(999.99)), "R$ 999,99");
}

#[test]
fn format_brl_groups_every_three_digits() {
    assert_eq!(format_brl_cents(123_456_789_01), "R$ 123.456.789,01");
    assert_eq!(format_brl_cents(100_000_000), "R$ 1.000.000,00");
    assert_eq!(format_brl_cents(99_999), "R$ 999,99");
    assert_eq!(format_brl_cents(100_000), "R$ 1.000,00");
    assert_eq!(format_brl_cents(5), "R$ 0,05");
}

#[test]
fn format_brl_negative_amounts() {
    assert_eq!(format_brl_cents(-123_450), "-R$ 1.234,50");
    assert_eq!(format_brl_cents(-1), "-R$ 0,01");
    assert_eq!(format_brl_cents(cents(-0.001)), "R$ 0,00");
    assert_eq!(format!("-{}", format_brl_cents(7_000)), format_brl_cents(-7_000));
}

#[test]
fn format_brl_extremes() {
    assert_eq!(format_brl_cents(i64::MAX), "R$ 92.233.720.368.547.758,07");
    assert_eq!(format_brl_cents(i64::MIN), "-R$ 92.233.720.368.547.758,08");
}

#[test]
fn login_rejects_blank_username() {
    match validate_login("  \t ", "segredo123".to_string()) {
        Err(AppError::InvalidInput(m)) => assert_eq!(m, "o nome de usuário não pode ser vazio"),
        _ => panic!("blank user name accepted"),
    }
}

#[test]
fn login_rejects_short_password() {
    match validate_login("ana", "12345".to_string()) {
        Err(AppError::InvalidInput(m)) => assert_eq!(m, "a senha precisa ter ao menos 6 caracteres"),
        _ => panic!("short password accepted"),
    }
    // Six bytes, three characters: the length counts bytes.
    assert!(validate_login("ana", "ééé".to_string()).is_ok());
    assert!(validate_login("ana", "éé".to_string()).is_err());
}

#[test]
fn login_blank_username_checked_first() {
    match validate_login("", "1".to_string()) {
        Err(AppError::InvalidInput(m)) => assert_eq!(m, "o nome de usuário não pode ser vazio"),
        _ => panic!("wrong error"),
    }
}

const PASSWORD_HASH: &str =
    "$argon2i$v=19$m=65536,t=1,p=1$c29tZXNhbHQAAAAAAAAAAA$+r0d29hqEB0yasKr55ZgICsQGSkl0v0kgwhd+U3wyRo";

fn record(hash: &str) -> UserRecord {
    UserRecord { id: 7, username: "ana".to_string(), password_hash: hash.to_string() }
}

#[test]
fn login_signs_in_with_matching_password() {
    let user = validate_login("  ana ", "password".to_string()).ok().unwrap();
    match login_step(user, Some(record(PASSWORD_HASH))) {
        LoginStep::SignedIn(u) => {
            assert_eq!(u.id(), 7);
            assert_eq!(u.username(), "ana");
        }
        _ => panic!("not signed in"),
    }
}

#[test]
fn login_refuses_wrong_password() {
    let user = UnauthenticatedUser::new("ana".to_string(), "bogus1".to_string());
    match login_step(user, Some(record(PASSWORD_HASH))) {
        LoginStep::Refused(AppError::InvalidCredentials) => {}
        _ => panic!("wrong password accepted"),
    }
}

#[test]
fn login_reports_unreadable_hash() {
    let user = UnauthenticatedUser::new("ana".to_string(), "password".to_string());
    assert!(matches!(login_step(user, Some(record("not a hash"))), LoginStep::UnreadableHash));
}

#[test]
fn first_login_registers_then_signs_in() {
    let user = UnauthenticatedUser::new("bia".to_string(), "minha-senha".to_string());
    let new_user = match login_step(user, None) {
        LoginStep::Register(n) => n,
        _ => panic!("unknown user not registered"),
    };
    assert_eq!(new_user.username, "bia");
    assert_ne!(new_user.password_hash, "minha-senha");
    let stored = UserRecord { id: 3, username: new_user.username, password_hash: new_user.password_hash };
    let again = UnauthenticatedUser::new("bia".to_string(), "minha-senha".to_string());
    match login_step(again, Some(stored)) {
        LoginStep::SignedIn(u) => assert_eq!(u.id(), 3),
        _ => panic!("registered user cannot sign in"),
    }
}
