//! The claims of a session token: who the user is and until when the token holds.

use vstd::prelude::*;
use crate::auth::user::User;
use crate::text::{signed_decimal, i64_to_decimal};

verus! {

/// The Unix time of the last second that `chrono::DateTime<Utc>` can hold
/// (the end of the year 262142).
pub const MAX_UTC_TIMESTAMP: i64 = 8_210_266_876_799;

/// The Unix time of the first second that `chrono::DateTime<Utc>` can hold
/// (in the year -262143).
pub const MIN_UTC_TIMESTAMP: i64 = -8_334_601_228_800;

/// The largest number of seconds that a `chrono::TimeDelta` of whole seconds can hold
/// (`i64::MAX` milliseconds, in whole seconds).
pub const MAX_DELTA_SECONDS: i64 = 9_223_372_036_854_775;

/// Calls `chrono::Utc::now` and reads its Unix time in whole seconds
/// (`DateTime::timestamp`). The value depends on the clock, and nothing more is said
/// of it than this: on Linux, `now` panics for a system clock before 1970 or beyond
/// what `DateTime<Utc>` holds, so a returned value lies between 0 and the last second
/// that `DateTime<Utc>` holds. That panic, a fault of the machine's clock, is not
/// excluded.
#[verifier::external_body]
fn now_timestamp() -> (t: i64)
    ensures
        0 <= t <= MAX_UTC_TIMESTAMP,
{
    chrono::Utc::now().timestamp()
}

/// The user part of the claims.
pub struct UserClaims {
    pub id: i64,
    pub username: String,
}

/// The claims of a session token: the subject (the account id in decimal),
/// the expiry (a Unix time) and the user.
pub struct Claims {
    pub sub: String,
    pub exp: usize,
    pub data: UserClaims,
}

/// `hours` read as the `i64` that `hours as i64` gives.
pub open spec fn hours_as_i64(hours: u64) -> int {
    if hours <= i64::MAX {
        hours as int
    } else {
        hours - 0x1_0000_0000_0000_0000
    }
}

/// The length of the token's validity, in seconds.
pub open spec fn validity_seconds(hours: u64) -> int {
    hours_as_i64(hours) * 3600
}

/// Whether a token issued at `now` for `hours` hours has an expiry that chrono can
/// compute: the validity fits a `TimeDelta` and the expiry fits a `DateTime<Utc>`.
pub open spec fn expiry_computable(now: int, hours: u64) -> bool {
    &&& -MAX_DELTA_SECONDS <= validity_seconds(hours) <= MAX_DELTA_SECONDS
    &&& MIN_UTC_TIMESTAMP <= now + validity_seconds(hours) <= MAX_UTC_TIMESTAMP
}

/// Whether `c` holds the claims of the user `u` for a token issued at `now` that holds
/// `hours` hours.
pub open spec fn claims_of(c: Claims, u: (i64, Seq<char>), now: int, hours: u64) -> bool {
    &&& c.sub@ == signed_decimal(u.0 as int)
    &&& c.exp == (now + validity_seconds(hours)) as usize
    &&& c.data.id == u.0
    &&& c.data.username@ == u.1
}

/// The claims of a token name the user it was issued for, and its expiry lies the
/// given number of hours after the time of issue (for a period that a `u64` number
/// of hours below 2^63 gives and an expiry after 1970 that a `usize` holds).
pub proof fn lemma_claims_name_user(c: Claims, u: (i64, Seq<char>), now: int, hours: u64)
    requires
        claims_of(c, u, now, hours),
        expiry_computable(now, hours),
    ensures
        (c.data.id, c.data.username@) == u,
        hours <= i64::MAX && 0 <= now + hours * 3600 <= usize::MAX ==> c.exp == now + hours * 3600,
{
}

/// The expiry of a token of up to 10^9 hours is computable at every clock reading
/// from 1970 up to 3.6 * 10^12 seconds before chrono's last second.
pub proof fn lemma_short_expiry_computable(now: int, expiry_hours: u64)
    requires
        0 <= now <= MAX_UTC_TIMESTAMP - 3_600_000_000_000,
        expiry_hours <= 1_000_000_000,
    ensures
        expiry_computable(now, expiry_hours),
{
}

fn validity_seconds_exec(hours: u64) -> (r: Option<i64>)
    ensures
        match r {
            Some(s) => s == validity_seconds(hours) && -MAX_DELTA_SECONDS <= s <= MAX_DELTA_SECONDS,
            None => !(-MAX_DELTA_SECONDS <= validity_seconds(hours) <= MAX_DELTA_SECONDS),
        },
{
    if hours <= 2_562_047_788_015 {
        Some((hours as i64) * 3600)
    } else if hours <= 0x7fff_ffff_ffff_ffff {
        None
    } else {
        let back: u64 = u64::MAX - hours;
        if back < 2_562_047_788_015 {
            let h: i64 = -(back as i64) - 1;
            Some(h * 3600)
        } else {
            None
        }
    }
}

impl User {
    /// The claims of a token for this user issued at Unix time `now` that holds
    /// `expiry_hours` hours.
    pub fn claims_at(self, now: i64, expiry_hours: u64) -> (c: Claims)
        requires
            expiry_computable(now as int, expiry_hours),
        ensures
            claims_of(c, self@, now as int, expiry_hours),
    {
        let seconds = match validity_seconds_exec(expiry_hours) {
            Some(s) => s,
            None => 0,
        };
        let exp_time: i64 = now + seconds;
        let id = self.id();
        let sub = i64_to_decimal(id);
        let username = self.into_username();
        Claims { sub, exp: exp_time as usize, data: UserClaims { id, username } }
    }

    /// The claims of a token for this user issued at the clock reading `now` (Unix
    /// time) that holds `expiry_hours` hours; `None` exactly where chrono cannot
    /// compute the expiry at that reading.
    pub fn claims_at_reading(self, now: i64, expiry_hours: u64) -> (c: Option<Claims>)
        ensures
            match c {
                Some(c) => expiry_computable(now as int, expiry_hours) && claims_of(
                    c,
                    self@,
                    now as int,
                    expiry_hours,
                ),
                None => !expiry_computable(now as int, expiry_hours),
            },
    {
        let ok = match validity_seconds_exec(expiry_hours) {
            Some(s) => match now.checked_add(s) {
                Some(t) => MIN_UTC_TIMESTAMP <= t && t <= MAX_UTC_TIMESTAMP,
                None => false,
            },
            None => false,
        };
        if ok {
            Some(self.claims_at(now, expiry_hours))
        } else {
            None
        }
    }

    /// The claims of a token for this user, issued at the clock's present reading,
    /// that holds `expiry_hours` hours; `None` where chrono cannot compute the expiry
    /// at that reading.
    pub fn auth_claims(self, expiry_hours: u64) -> (c: Option<Claims>)
        ensures
            exists|now: int|
                0 <= now <= MAX_UTC_TIMESTAMP && match c {
                    Some(c) => expiry_computable(now, expiry_hours) && claims_of(
                        c,
                        self@,
                        now,
                        expiry_hours,
                    ),
                    None => !expiry_computable(now, expiry_hours),
                },
    {
        let now = now_timestamp();
        let ghost me = self@;
        let c = self.claims_at_reading(now, expiry_hours);
        assert(0 <= now <= MAX_UTC_TIMESTAMP && match c {
            Some(c) => expiry_computable(now as int, expiry_hours) && claims_of(
                c,
                me,
                now as int,
                expiry_hours,
            ),
            None => !expiry_computable(now as int, expiry_hours),
        });
        c
    }

    /// The user that the claims of a token name.
    pub fn from_claims(claims: Claims) -> (u: User)
        ensures
            u@ == (claims.data.id, claims.data.username@),
    {
        User::new(claims.data.id, claims.data.username)
    }
}

} // verus!
