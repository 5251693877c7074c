//! Rules of the web pages: the login form, which signs in or registers, and the
//! Brazilian currency format of the dashboard.

use vstd::prelude::*;
use crate::auth::user::{
    authentication, password_bytes, password_check, NewUser, PasswordCheck,
    UnauthenticatedUser, User, UserRecord,
};
use crate::error::{is_invalid_input, AppError};
use crate::text::{
    chars_to_string, decimal, digit, digit_char, lemma_decimal_digits,
    lemma_decimal_split_thousands, push_decimal, trim, trim_spec,
};

verus! {

/// The three decimal digits of `n` (below 1000), zero-padded.
pub open spec fn three_digits(n: nat) -> Seq<char> {
    seq![digit_char(n / 100), digit_char((n / 10) % 10), digit_char(n % 10)]
}

/// The decimal notation of `n` with a `.` between each group of three digits,
/// counted from the right.
pub open spec fn grouped(n: nat) -> Seq<char>
    decreases n,
{
    if n < 1000 {
        decimal(n)
    } else {
        grouped(n / 1000) + seq!['.'] + three_digits(n % 1000)
    }
}

/// The absolute value of an integer.
pub open spec fn magnitude(n: int) -> nat {
    if n < 0 {
        (-n) as nat
    } else {
        n as nat
    }
}

/// An amount of `cents` centavos in Brazilian currency notation:
/// an optional `-`, `R$ `, the reais with grouped thousands, `,` and two centavo digits.
pub open spec fn brl(cents: int) -> Seq<char> {
    let m = magnitude(cents);
    (if cents < 0 {
        seq!['-']
    } else {
        Seq::<char>::empty()
    }) + seq!['R', '$', ' '] + grouped(m / 100) + seq![','] + seq![
        digit_char((m % 100) / 10),
        digit_char(m % 10),
    ]
}

/// The test that keeps every character but the group separator `.`.
pub open spec fn not_dot() -> spec_fn(char) -> bool {
    |c: char| c != '.'
}

proof fn lemma_filter_keeps_all(s: Seq<char>)
    requires
        forall|i: int| 0 <= i < s.len() ==> (#[trigger] s[i]) != '.',
    ensures
        s.filter(not_dot()) == s,
    decreases s.len(),
{
    reveal(Seq::filter);
    if s.len() > 0 {
        lemma_filter_keeps_all(s.drop_last());
        assert(s.drop_last().push(s.last()) =~= s);
    }
}

/// The grouped notation of a number, without its separators, is its decimal notation:
/// the dots change how the reais read, not which number they show.
pub proof fn lemma_grouped_digits(n: nat)
    ensures
        grouped(n).filter(not_dot()) == decimal(n),
    decreases n,
{
    if n < 1000 {
        lemma_decimal_digits(n);
        lemma_filter_keeps_all(decimal(n));
    } else {
        lemma_grouped_digits(n / 1000);
        let g = grouped(n / 1000);
        let t = three_digits(n % 1000);
        assert(t[0] != '.' && t[1] != '.' && t[2] != '.');
        lemma_filter_keeps_all(t);
        reveal(Seq::filter);
        assert(seq!['.'].drop_last() =~= Seq::<char>::empty());
        assert(Seq::<char>::empty().filter(not_dot()) =~= Seq::<char>::empty());
        assert(seq!['.'].last() == '.' && !(not_dot())('.'));
        assert(seq!['.'].filter(not_dot()) =~= Seq::<char>::empty());
        Seq::filter_distributes_over_add(g + seq!['.'], t, not_dot());
        Seq::filter_distributes_over_add(g, seq!['.'], not_dot());
        lemma_decimal_split_thousands(n);
        assert(g.filter(not_dot()) + Seq::<char>::empty() + t =~= decimal(n));
    }
}

proof fn lemma_decimal_short(n: nat)
    ensures
        n < 10 ==> decimal(n).len() == 1,
        n < 100 ==> decimal(n).len() <= 2,
        n < 1000 ==> decimal(n).len() <= 3,
    decreases n,
{
    if n >= 10 {
        lemma_decimal_short(n / 10);
    }
}

/// Where the group separators stand: at every fourth place counted from the right,
/// never at the front, and nowhere else; every other character is a digit.
pub proof fn lemma_grouped_dots(n: nat)
    ensures
        grouped(n).len() > 0,
        forall|i: int|
            0 <= i < grouped(n).len() ==> ((#[trigger] grouped(n)[i] == '.') <==> (i > 0 && (
            grouped(n).len() - i) % 4 == 0)),
        forall|i: int|
            0 <= i < grouped(n).len() && grouped(n)[i] != '.' ==> 48 <= (#[trigger] grouped(
                n,
            )[i]) as u32 <= 57,
    decreases n,
{
    if n < 1000 {
        lemma_decimal_digits(n);
        lemma_decimal_short(n);
    } else {
        lemma_grouped_dots(n / 1000);
        let g = grouped(n / 1000);
        let t = three_digits(n % 1000);
        let s = grouped(n);
        assert(s =~= g + seq!['.'] + t);
        assert forall|i: int| 0 <= i < s.len() implies ((#[trigger] s[i] == '.') <==> (i > 0 && (
        s.len() - i) % 4 == 0)) by {
            if i < g.len() {
                assert(s[i] == g[i]);
                assert((s.len() - i) % 4 == (g.len() - i) % 4);
            } else if i == g.len() {
            } else {
                assert(s[i] == t[i - g.len() - 1]);
            }
        }
        assert forall|i: int| 0 <= i < s.len() && s[i] != '.' implies 48 <= (#[trigger] s[i]) as u32
            <= 57 by {
            if i < g.len() {
                assert(s[i] == g[i]);
            } else {
                assert(s[i] == t[i - g.len() - 1]);
            }
        }
    }
}

/// The layout of an amount in Brazilian currency: a `-` exactly for negative amounts,
/// `R$ `, the reais, `,` and the two centavo digits. The reais are the decimal digits
/// of the whole reais with a `.` before each group of three counted from the right
/// and nowhere else.
pub proof fn lemma_brl_layout(cents: int)
    ensures
        ({
            let s = brl(cents);
            let m = magnitude(cents);
            let p: int = if cents < 0 { 1 } else { 0 };
            let k = s.len() - 3;
            let reais = s.subrange(p + 3, k);
            &&& p + 3 < k
            &&& (cents < 0 ==> s[0] == '-')
            &&& s.subrange(p, p + 3) == seq!['R', '$', ' ']
            &&& s[k] == ','
            &&& s[k + 1] == digit_char((m % 100) / 10)
            &&& s[k + 2] == digit_char(m % 10)
            &&& reais.filter(not_dot()) == decimal(m / 100)
            &&& forall|i: int|
                0 <= i < reais.len() ==> ((#[trigger] reais[i] == '.') <==> (i > 0 && (reais.len()
                    - i) % 4 == 0))
        }),
{
    let m = magnitude(cents);
    let g = grouped(m / 100);
    lemma_grouped_dots(m / 100);
    lemma_grouped_digits(m / 100);
    let s = brl(cents);
    let p: int = if cents < 0 { 1 } else { 0 };
    let sign = if cents < 0 { seq!['-'] } else { Seq::<char>::empty() };
    assert(s =~= sign + seq!['R', '$', ' '] + g + seq![','] + seq![
        digit_char((m % 100) / 10),
        digit_char(m % 10),
    ]);
    assert(s.subrange(p + 3, s.len() - 3) =~= g);
    assert(s.subrange(p, p + 3) =~= seq!['R', '$', ' ']);
}

/// A negative amount reads as its opposite with a `-` in front.
pub proof fn lemma_brl_negative(cents: int)
    requires
        cents > 0,
    ensures
        brl(-cents) == seq!['-'] + brl(cents),
{
    assert(brl(-cents) =~= seq!['-'] + brl(cents));
}

fn push_grouped(out: &mut Vec<char>, n: u64)
    ensures
        final(out)@ == old(out)@ + grouped(n as nat),
    decreases n,
{
    if n < 1000 {
        push_decimal(out, n);
    } else {
        push_grouped(out, n / 1000);
        let r = n % 1000;
        out.push('.');
        out.push(digit(r / 100));
        out.push(digit((r / 10) % 10));
        out.push(digit(r % 10));
    }
}

/// Formats an amount given in centavos as Brazilian currency,
/// for example 123450 as `R$ 1.234,50`.
pub fn format_brl_cents(cents: i64) -> (s: String)
    ensures
        s@ == brl(cents as int),
{
    let mut out: Vec<char> = Vec::new();
    if cents < 0 {
        out.push('-');
    }
    out.push('R');
    out.push('$');
    out.push(' ');
    let m: u64 = if cents < 0 {
        ((-(cents + 1)) as u64) + 1
    } else {
        cents as u64
    };
    push_grouped(&mut out, m / 100);
    out.push(',');
    let c = m % 100;
    out.push(digit(c / 10));
    out.push(digit(c % 10));
    chars_to_string(&out)
}

/// The text of the error for a user name that is empty or only white space.
pub open spec fn blank_username_message() -> Seq<char> {
    "o nome de usuário não pode ser vazio"@
}

/// The text of the error for a password shorter than six bytes.
pub open spec fn short_password_message() -> Seq<char> {
    "a senha precisa ter ao menos 6 caracteres"@
}

/// Checks the login form. A user name that is empty once trimmed, then a password of
/// fewer than six bytes (UTF-8), are refused in that order; otherwise the result is the
/// user with the trimmed name and the password as given.
pub fn validate_login(username: &str, password: String) -> (r: Result<
    UnauthenticatedUser,
    AppError,
>)
    ensures
        trim_spec(username@).len() == 0 ==> is_invalid_input(r, blank_username_message()),
        trim_spec(username@).len() != 0 && password_bytes(password@) < 6 ==> is_invalid_input(
            r,
            short_password_message(),
        ),
        trim_spec(username@).len() != 0 && password_bytes(password@) >= 6 ==> (r matches Ok(u)
            && u@ == (trim_spec(username@), password@)),
{
    let trimmed = trim(username);
    if trimmed.as_str().unicode_len() == 0 {
        return Err(AppError::InvalidInput(String::from_str("o nome de usuário não pode ser vazio")));
    }
    if password.as_str().as_bytes().len() < 6 {
        return Err(
            AppError::InvalidInput(String::from_str("a senha precisa ter ao menos 6 caracteres")),
        );
    }
    Ok(UnauthenticatedUser::new(trimmed, password))
}

/// What the login form does after looking up the account with the user's name.
pub enum LoginStep {
    /// The password matched: the user is signed in.
    SignedIn(User),
    /// No account has the name: this account is to be stored, and the user signed in.
    Register(NewUser),
    /// The login is refused.
    Refused(AppError),
    /// The stored hash of the account cannot be read.
    UnreadableHash,
}

/// Decides the login form's next step from the stored account with the user's name:
/// a matching password signs in, an unknown name registers a new account (the first
/// login creates it), any other refusal of the authentication refuses the login.
pub fn login_step(user: UnauthenticatedUser, record: Option<UserRecord>) -> (r: LoginStep)
    requires
        record is None ==> password_bytes(user@.1) <= 0xffff_ffff,
    ensures
        match authentication(user@, record) {
            None => r is UnreadableHash,
            Some(Ok(v)) => r matches LoginStep::SignedIn(u) && u@ == v,
            Some(Err(AppError::UserDoesNotExist)) => r matches LoginStep::Register(n) && n.username@
                == user@.0 && password_check(user@.1, n.password_hash@) == PasswordCheck::Match,
            Some(Err(e)) => r matches LoginStep::Refused(f) && f == e,
        },
{
    match user.authenticate(record) {
        None => LoginStep::UnreadableHash,
        Some(Ok(u)) => LoginStep::SignedIn(u),
        Some(Err(AppError::UserDoesNotExist)) => LoginStep::Register(user.register()),
        Some(Err(e)) => LoginStep::Refused(e),
    }
}

} // verus!
