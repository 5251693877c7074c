//! The application's settings, read from the values of environment variables.

use vstd::prelude::*;
use crate::text::{decimal, digit_char, lemma_decimal_digits};

verus! {

/// Whether `c` is one of the ASCII digits `0` to `9`.
pub open spec fn is_digit(c: char) -> bool {
    48 <= c as u32 <= 57
}

/// The number that a string of decimal digits denotes.
pub open spec fn digits_value(s: Seq<char>) -> nat
    decreases s.len(),
{
    if s.len() == 0 {
        0
    } else {
        digits_value(s.drop_last()) * 10 + (s.last() as nat - 48) as nat
    }
}

/// The digits of an unsigned number's notation: without one leading `+`, if any.
pub open spec fn unsigned_digits(s: Seq<char>) -> Seq<char> {
    if s.len() > 0 && s[0] == '+' {
        s.drop_first()
    } else {
        s
    }
}

/// What `str::parse` gives for an unsigned integer type whose largest value is `max`:
/// the value of an optional `+` followed by one or more decimal digits, when it is at
/// most `max`; `None` for anything else (an empty string, a sign alone, any other
/// character, white space included, or a value that does not fit).
pub open spec fn parse_unsigned_spec(s: Seq<char>, max: nat) -> Option<nat> {
    let d = unsigned_digits(s);
    if d.len() > 0 && (forall|i: int| 0 <= i < d.len() ==> is_digit(#[trigger] d[i]))
        && digits_value(d) <= max {
        Some(digits_value(d))
    } else {
        None
    }
}

proof fn lemma_digits_value_prefix(s: Seq<char>, k: int)
    requires
        0 <= k <= s.len(),
        forall|i: int| 0 <= i < s.len() ==> is_digit(#[trigger] s[i]),
    ensures
        digits_value(s.subrange(0, k)) <= digits_value(s),
    decreases s.len() - k,
{
    if k < s.len() {
        lemma_digits_value_prefix(s, k + 1);
        let p = s.subrange(0, k + 1);
        assert(p.drop_last() =~= s.subrange(0, k));
    } else {
        assert(s.subrange(0, k) =~= s);
    }
}

proof fn lemma_digits_value_decimal(n: nat)
    ensures
        digits_value(decimal(n)) == n,
    decreases n,
{
    if n >= 10 {
        lemma_digits_value_decimal(n / 10);
        assert(decimal(n).drop_last() =~= decimal(n / 10));
        assert(digit_char(n % 10) as nat == 48 + n % 10);
        assert((n / 10) * 10 + n % 10 == n) by (nonlinear_arith);
        assert(decimal(n).last() == digit_char(n % 10));
        assert(digits_value(decimal(n)) == digits_value(decimal(n / 10)) * 10 + ((decimal(n).last() as nat - 48) as nat));
    } else {
        assert(decimal(n).drop_last() =~= Seq::<char>::empty());
        assert(digit_char(n) as nat == 48 + n);
        assert(decimal(n).last() == digit_char(n));
        assert(digits_value(decimal(n)) == digits_value(Seq::<char>::empty()) * 10 + ((decimal(n).last() as nat - 48) as nat));
    }
}

/// A number written in decimal reads back as itself, where it fits the type.
pub proof fn lemma_parse_decimal(n: nat, max: nat)
    requires
        n <= max,
    ensures
        parse_unsigned_spec(decimal(n), max) == Some(n),
{
    lemma_decimal_digits(n);
    lemma_digits_value_decimal(n);
    assert(decimal(n)[0] != '+');
    assert(unsigned_digits(decimal(n)) == decimal(n));
    assert forall|i: int| 0 <= i < decimal(n).len() implies is_digit(#[trigger] decimal(n)[i]) by {
    }
}

/// Parses a decimal unsigned integer as `str::parse` does for an unsigned type whose
/// largest value is `max`.
pub fn parse_unsigned(s: &str, max: u64) -> (r: Option<u64>)
    ensures
        match parse_unsigned_spec(s@, max as nat) {
            Some(v) => r == Some(v as u64),
            None => r is None,
        },
{
    let n = s.unicode_len();
    let mut i: usize = 0;
    if n > 0 && s.get_char(0) == '+' {
        i = 1;
    }
    let start = i;
    let ghost d = unsigned_digits(s@);
    assert(d =~= s@.subrange(start as int, n as int));
    if start == n {
        return None;
    }
    let mut value: u64 = 0;
    while i < n
        invariant
            n == s@.len(),
            start <= i <= n,
            start < n,
            d == s@.subrange(start as int, n as int),
            d == unsigned_digits(s@),
            forall|k: int| start <= k < i ==> is_digit(#[trigger] s@[k]),
            value == digits_value(s@.subrange(start as int, i as int)),
            value <= max,
        decreases n - i,
    {
        let c = s.get_char(i);
        let cu = c as u32;
        if cu < 48 || cu > 57 {
            assert(!is_digit(d[i - start]));
            return None;
        }
        let dv: u64 = (cu - 48) as u64;
        assert(s@.subrange(start as int, i + 1).drop_last() =~= s@.subrange(start as int, i as int));
        let next: u128 = (value as u128) * 10 + (dv as u128);
        if next > max as u128 {
            proof {
                if forall|k: int| 0 <= k < d.len() ==> is_digit(#[trigger] d[k]) {
                    lemma_digits_value_prefix(d, i + 1 - start);
                    assert(d.subrange(0, i + 1 - start) =~= s@.subrange(start as int, i + 1));
                }
            }
            return None;
        }
        value = next as u64;
        i = i + 1;
    }
    assert(s@.subrange(start as int, n as int) =~= d);
    Some(value)
}

/// The application's settings.
pub struct Config {
    /// Where the PostgreSQL database is.
    pub database_url: String,
    /// The key that administrative API requests must carry.
    pub admin_api_key: String,
    /// The secret that signs and checks session tokens.
    pub jwt_secret: String,
    /// How many hours a session token holds.
    pub jwt_expiry_hours: u64,
    /// The TCP port the server listens on.
    pub port: u16,
}

/// Why the settings could not be read.
#[derive(Debug, Clone, Copy, PartialEq, Eq, Structural)]
pub enum ConfigError {
    /// `DATABASE_URL` is not set.
    MissingDatabaseUrl,
    /// `ADMIN_API_KEY` is not set.
    MissingAdminApiKey,
    /// `JWT_SECRET` is not set.
    MissingJwtSecret,
    /// `JWT_EXPIRY_HOURS` is not a `u64`.
    InvalidExpiryHours,
    /// `PORT` is not a `u16`.
    InvalidPort,
}

/// The text that reports a configuration error.
pub open spec fn config_error_message(e: ConfigError) -> Seq<char> {
    match e {
        ConfigError::MissingDatabaseUrl => "DATABASE_URL não foi definida"@,
        ConfigError::MissingAdminApiKey => "ADMIN_API_KEY não foi definida"@,
        ConfigError::MissingJwtSecret => "JWT_SECRET não foi definida"@,
        ConfigError::InvalidExpiryHours => "JWT_EXPIRY_HOURS precisa ser um número inteiro"@,
        ConfigError::InvalidPort => "PORT precisa ser um número entre 0 e 65535"@,
    }
}

impl ConfigError {
    /// The text that reports the error.
    pub fn message(&self) -> (r: String)
        ensures
            r@ == config_error_message(*self),
    {
        match self {
            ConfigError::MissingDatabaseUrl => String::from_str("DATABASE_URL não foi definida"),
            ConfigError::MissingAdminApiKey => String::from_str("ADMIN_API_KEY não foi definida"),
            ConfigError::MissingJwtSecret => String::from_str("JWT_SECRET não foi definida"),
            ConfigError::InvalidExpiryHours => String::from_str(
                "JWT_EXPIRY_HOURS precisa ser um número inteiro",
            ),
            ConfigError::InvalidPort => String::from_str("PORT precisa ser um número entre 0 e 65535"),
        }
    }
}

/// The value of an optional setting: the text given, or the default.
pub open spec fn or_default(value: Option<String>, default: Seq<char>) -> Seq<char> {
    match value {
        Some(v) => v@,
        None => default,
    }
}

/// The settings that the variables give, checked in this order: `DATABASE_URL`,
/// `ADMIN_API_KEY` and `JWT_SECRET` must be set; `JWT_EXPIRY_HOURS` (24 when unset)
/// must be a `u64` and `PORT` (3000 when unset) a `u16`.
pub open spec fn config_result_spec(
    database_url: Option<String>,
    admin_api_key: Option<String>,
    jwt_secret: Option<String>,
    jwt_expiry_hours: Option<String>,
    port: Option<String>,
) -> Result<(Seq<char>, Seq<char>, Seq<char>, nat, nat), ConfigError> {
    if database_url is None {
        Err(ConfigError::MissingDatabaseUrl)
    } else if admin_api_key is None {
        Err(ConfigError::MissingAdminApiKey)
    } else if jwt_secret is None {
        Err(ConfigError::MissingJwtSecret)
    } else {
        match parse_unsigned_spec(or_default(jwt_expiry_hours, "24"@), u64::MAX as nat) {
            None => Err(ConfigError::InvalidExpiryHours),
            Some(hours) => match parse_unsigned_spec(or_default(port, "3000"@), u16::MAX as nat) {
                None => Err(ConfigError::InvalidPort),
                Some(p) => Ok(
                    (
                        database_url.unwrap()@,
                        admin_api_key.unwrap()@,
                        jwt_secret.unwrap()@,
                        hours,
                        p,
                    ),
                ),
            },
        }
    }
}

/// The view of a configuration result.
pub open spec fn config_result_view(r: Result<Config, ConfigError>) -> Result<
    (Seq<char>, Seq<char>, Seq<char>, nat, nat),
    ConfigError,
> {
    match r {
        Ok(c) => Ok(
            (
                c.database_url@,
                c.admin_api_key@,
                c.jwt_secret@,
                c.jwt_expiry_hours as nat,
                c.port as nat,
            ),
        ),
        Err(e) => Err(e),
    }
}

/// Each optional setting depends on its own variable alone: with the required
/// variables set, the hours read are the same whatever `PORT` holds, and the port the
/// same whatever `JWT_EXPIRY_HOURS` holds, wherever both readings succeed.
pub proof fn lemma_settings_independent(
    database_url: Option<String>,
    admin_api_key: Option<String>,
    jwt_secret: Option<String>,
    hours1: Option<String>,
    hours2: Option<String>,
    port1: Option<String>,
    port2: Option<String>,
)
    ensures
        ({
            let r1 = config_result_spec(database_url, admin_api_key, jwt_secret, hours1, port1);
            let r2 = config_result_spec(database_url, admin_api_key, jwt_secret, hours1, port2);
            r1 is Ok && r2 is Ok ==> r1->Ok_0.3 == r2->Ok_0.3
        }),
        ({
            let r1 = config_result_spec(database_url, admin_api_key, jwt_secret, hours1, port1);
            let r2 = config_result_spec(database_url, admin_api_key, jwt_secret, hours2, port1);
            r1 is Ok && r2 is Ok ==> r1->Ok_0.4 == r2->Ok_0.4
        }),
{
}

/// A number written in decimal in `JWT_EXPIRY_HOURS` (any `u64`) and `PORT` (any
/// `u16`) is the configured value, with the required variables set; unset, they are
/// 24 and 3000.
pub proof fn lemma_configured_numbers(
    database_url: String,
    admin_api_key: String,
    jwt_secret: String,
    hours: Option<String>,
    port: Option<String>,
    h: nat,
    p: nat,
)
    requires
        h <= u64::MAX,
        p <= u16::MAX,
        hours matches Some(t) ==> t@ == decimal(h),
        hours is None ==> h == 24,
        port matches Some(t) ==> t@ == decimal(p),
        port is None ==> p == 3000,
    ensures
        config_result_spec(Some(database_url), Some(admin_api_key), Some(jwt_secret), hours, port)
            == Ok::<(Seq<char>, Seq<char>, Seq<char>, nat, nat), ConfigError>(
            (database_url@, admin_api_key@, jwt_secret@, h, p),
        ),
{
    lemma_parse_decimal(h, u64::MAX as nat);
    lemma_parse_decimal(p, u16::MAX as nat);
    if hours is None {
        reveal_with_fuel(decimal, 3);
        assert("24"@ =~= decimal(24)) by {
            reveal_strlit("24");
        }
    }
    if port is None {
        reveal_with_fuel(decimal, 5);
        assert("3000"@ =~= decimal(3000)) by {
            reveal_strlit("3000");
        }
    }
}

impl Config {
    /// The settings from the values of the environment variables `DATABASE_URL`,
    /// `ADMIN_API_KEY`, `JWT_SECRET`, `JWT_EXPIRY_HOURS` and `PORT` (`None` for a
    /// variable that is unset or not Unicode).
    pub fn from_vars(
        database_url: Option<String>,
        admin_api_key: Option<String>,
        jwt_secret: Option<String>,
        jwt_expiry_hours: Option<String>,
        port: Option<String>,
    ) -> (r: Result<Config, ConfigError>)
        ensures
            config_result_view(r) == config_result_spec(
                database_url,
                admin_api_key,
                jwt_secret,
                jwt_expiry_hours,
                port,
            ),
    {
        let database_url = match database_url {
            Some(v) => v,
            None => return Err(ConfigError::MissingDatabaseUrl),
        };
        let admin_api_key = match admin_api_key {
            Some(v) => v,
            None => return Err(ConfigError::MissingAdminApiKey),
        };
        let jwt_secret = match jwt_secret {
            Some(v) => v,
            None => return Err(ConfigError::MissingJwtSecret),
        };
        let hours_text = match jwt_expiry_hours {
            Some(v) => v,
            None => String::from_str("24"),
        };
        let jwt_expiry_hours = match parse_unsigned(hours_text.as_str(), u64::MAX) {
            Some(h) => h,
            None => return Err(ConfigError::InvalidExpiryHours),
        };
        let port_text = match port {
            Some(v) => v,
            None => String::from_str("3000"),
        };
        let port = match parse_unsigned(port_text.as_str(), 65535) {
            Some(p) => p as u16,
            None => return Err(ConfigError::InvalidPort),
        };
        Ok(Config { database_url, admin_api_key, jwt_secret, jwt_expiry_hours, port })
    }
}

} // verus!
