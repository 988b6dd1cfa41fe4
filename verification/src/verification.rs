//! Verification codes, account identifiers and the expiry of pending registrations.
use rand::Rng;
use vstd::prelude::*;
use vstd::string::*;

verus! {

// ---------------------------------------------------------------------------
// Verification codes
// ---------------------------------------------------------------------------

/// The character of the decimal digit `d` (0 to 9).
pub open spec fn digit_char(d: int) -> char {
    if d == 0 { '0' }
    else if d == 1 { '1' }
    else if d == 2 { '2' }
    else if d == 3 { '3' }
    else if d == 4 { '4' }
    else if d == 5 { '5' }
    else if d == 6 { '6' }
    else if d == 7 { '7' }
    else if d == 8 { '8' }
    else { '9' }
}

/// The decimal representation of a four-digit number.
pub open spec fn decimal4(n: int) -> Seq<char> {
    seq![
        digit_char(n / 1000),
        digit_char((n / 100) % 10),
        digit_char((n / 10) % 10),
        digit_char(n % 10),
    ]
}

/// A verification code: two four-digit numbers written one after the other.
pub open spec fn code_text(first: int, second: int) -> Seq<char> {
    decimal4(first) + decimal4(second)
}

/// Both halves of a code lie in the range the generator draws from.
pub open spec fn code_half_in_range(n: int) -> bool {
    1000 <= n <= 9999
}

/// The value of the decimal digit character `c`.
pub open spec fn digit_value(c: char) -> int {
    (c as u32) - 48
}

proof fn lemma_digit_char(d: int)
    requires
        0 <= d <= 9,
    ensures
        digit_value(digit_char(d)) == d,
        48 <= digit_char(d) as u32 <= 57,
{
}

proof fn lemma_decimal4_value(n: int)
    requires
        1000 <= n <= 9999,
    ensures
        decimal4(n).len() == 4,
        48 <= decimal4(n)[0] as u32 <= 57,
        48 <= decimal4(n)[1] as u32 <= 57,
        48 <= decimal4(n)[2] as u32 <= 57,
        48 <= decimal4(n)[3] as u32 <= 57,
        digit_value(decimal4(n)[0]) * 1000 + digit_value(decimal4(n)[1]) * 100 + digit_value(
            decimal4(n)[2],
        ) * 10 + digit_value(decimal4(n)[3]) == n,
{
    let a = n / 1000;
    let b = (n / 100) % 10;
    let c = (n / 10) % 10;
    let d = n % 10;
    assert(a * 1000 + b * 100 + c * 10 + d == n && 0 <= a <= 9 && 0 <= b <= 9 && 0 <= c <= 9
        && 0 <= d <= 9) by (nonlinear_arith)
        requires
            1000 <= n <= 9999,
            a == n / 1000,
            b == (n / 100) % 10,
            c == (n / 10) % 10,
            d == n % 10,
    ;
    lemma_digit_char(a);
    lemma_digit_char(b);
    lemma_digit_char(c);
    lemma_digit_char(d);
    let s = decimal4(n);
    assert(s[0] == digit_char(a) && s[1] == digit_char(b) && s[2] == digit_char(c) && s[3]
        == digit_char(d));
}

/// Codes are read back as numbers without loss: the code of `first` and `second` is
/// eight decimal digits whose value is `first * 10000 + second`, so different draws
/// always give different codes.
pub proof fn lemma_code_text(first: int, second: int, other_first: int, other_second: int)
    requires
        code_half_in_range(first),
        code_half_in_range(second),
        code_half_in_range(other_first),
        code_half_in_range(other_second),
    ensures
        code_text(first, second).len() == 8,
        forall|i: int| 0 <= i < 8 ==> 48 <= (#[trigger] code_text(first, second)[i]) as u32 <= 57,
        code_value(code_text(first, second)) == first * 10000 + second,
        code_text(first, second) == code_text(other_first, other_second) ==> first == other_first
            && second == other_second,
{
    lemma_decimal4_value(first);
    lemma_decimal4_value(second);
    lemma_decimal4_value(other_first);
    lemma_decimal4_value(other_second);
    let c = code_text(first, second);
    assert(forall|i: int| 0 <= i < 4 ==> c[i] == decimal4(first)[i]);
    assert(forall|i: int| 4 <= i < 8 ==> c[i] == decimal4(second)[i - 4]);
    assert forall|i: int| 0 <= i < 8 implies 48 <= (#[trigger] c[i]) as u32 <= 57 by {
        if i < 4 {
            assert(c[i] == decimal4(first)[i]);
        } else {
            assert(c[i] == decimal4(second)[i - 4]);
        }
    }
    let o = code_text(other_first, other_second);
    if c == o {
        assert(c[0] == o[0] && c[1] == o[1] && c[2] == o[2] && c[3] == o[3]);
        assert(c[4] == o[4] && c[5] == o[5] && c[6] == o[6] && c[7] == o[7]);
    }
}

/// The value of an eight-character decimal text.
pub open spec fn code_value(s: Seq<char>) -> int {
    digit_value(s[0]) * 10000000 + digit_value(s[1]) * 1000000 + digit_value(s[2]) * 100000
        + digit_value(s[3]) * 10000 + digit_value(s[4]) * 1000 + digit_value(s[5]) * 100
        + digit_value(s[6]) * 10 + digit_value(s[7])
}

fn digit_str(d: i32) -> (r: &'static str)
    requires
        0 <= d <= 9,
    ensures
        r@ == seq![digit_char(d as int)],
{
    if d == 0 {
        proof { reveal_strlit("0"); }
        "0"
    } else if d == 1 {
        proof { reveal_strlit("1"); }
        "1"
    } else if d == 2 {
        proof { reveal_strlit("2"); }
        "2"
    } else if d == 3 {
        proof { reveal_strlit("3"); }
        "3"
    } else if d == 4 {
        proof { reveal_strlit("4"); }
        "4"
    } else if d == 5 {
        proof { reveal_strlit("5"); }
        "5"
    } else if d == 6 {
        proof { reveal_strlit("6"); }
        "6"
    } else if d == 7 {
        proof { reveal_strlit("7"); }
        "7"
    } else if d == 8 {
        proof { reveal_strlit("8"); }
        "8"
    } else {
        proof { reveal_strlit("9"); }
        "9"
    }
}

fn push_decimal4(out: &mut String, n: i32)
    requires
        1000 <= n <= 9999,
    ensures
        final(out)@ == old(out)@ + decimal4(n as int),
{
    out.append(digit_str(n / 1000));
    out.append(digit_str((n / 100) % 10));
    out.append(digit_str((n / 10) % 10));
    out.append(digit_str(n % 10));
    assert(out@ =~= old(out)@ + decimal4(n as int));
}

/// The verification code made of `first` and `second`, each written in four digits.
pub fn verification_code(first: i32, second: i32) -> (r: String)
    requires
        code_half_in_range(first as int),
        code_half_in_range(second as int),
    ensures
        r@ == code_text(first as int, second as int),
        r@.len() == 8,
        forall|i: int| 0 <= i < 8 ==> 48 <= (#[trigger] r@[i]) as u32 <= 57,
        (r@[0] as u32 - 48) * 10000000 + (r@[1] as u32 - 48) * 1000000 + (r@[2] as u32 - 48)
            * 100000 + (r@[3] as u32 - 48) * 10000 + (r@[4] as u32 - 48) * 1000 + (r@[5] as u32
            - 48) * 100 + (r@[6] as u32 - 48) * 10 + (r@[7] as u32 - 48) == first * 10000 + second,
{
    proof {
        lemma_code_text(first as int, second as int, first as int, second as int);
    }
    let mut code = String::new();
    push_decimal4(&mut code, first);
    push_decimal4(&mut code, second);
    assert(code@ =~= code_text(first as int, second as int));
    code
}

/// Calls `rand::thread_rng()` and `Rng::gen_range(low..=high)` on it. The documentation
/// of `gen_range` promises a value in the inclusive range and a panic on an empty range,
/// which the `requires` rules out. Which value comes back is left to chance.
#[verifier::external_body]
fn random_in_range(low: i32, high: i32) -> (r: i32)
    requires
        low <= high,
    ensures
        low <= r <= high,
{
    rand::thread_rng().gen_range(low..=high)
}

/// A fresh random verification code: two random numbers from 1000 to 9999, each
/// written in four digits.
pub fn gen_random_six_number() -> (r: String)
    ensures
        exists|first: int, second: int|
            code_half_in_range(first) && code_half_in_range(second) && r@ == #[trigger] code_text(
                first,
                second,
            ),
{
    let first = random_in_range(1000, 9999);
    let second = random_in_range(1000, 9999);
    verification_code(first, second)
}

// ---------------------------------------------------------------------------
// Account identifiers
// ---------------------------------------------------------------------------

/// `c` is one of `0-9`, `a-f`.
pub open spec fn is_lower_hex_char(c: char) -> bool {
    ||| ('0' as u32) <= (c as u32) && (c as u32) <= ('9' as u32)
    ||| ('a' as u32) <= (c as u32) && (c as u32) <= ('f' as u32)
}

/// The positions of the hyphens in a hyphenated UUID.
pub open spec fn is_uuid_hyphen_position(i: int) -> bool {
    i == 8 || i == 13 || i == 18 || i == 23
}

/// `s` is a version 4 UUID in lower-case hyphenated form
/// (`xxxxxxxx-xxxx-4xxx-xxxx-xxxxxxxxxxxx`).
pub open spec fn is_uuid_v4_text(s: Seq<char>) -> bool {
    &&& s.len() == 36
    &&& forall|i: int|
        0 <= i < 36 ==> if is_uuid_hyphen_position(i) {
            #[trigger] s[i] == '-'
        } else {
            is_lower_hex_char(s[i])
        }
    &&& s[14] == '4'
}

/// Calls `uuid::Uuid::new_v4()` and formats it with `to_string`. The crate's source
/// formats through `LowerHex` as the hyphenated form (36 characters, hyphens at 8, 13,
/// 18 and 23, lower-case hex digits elsewhere) and sets the version digit to 4. The
/// other digits are random.
#[verifier::external_body]
fn new_v4_id() -> (r: String)
    ensures
        is_uuid_v4_text(r@),
{
    uuid::Uuid::new_v4().to_string()
}

/// A fresh random identifier for an account.
pub fn new_account_id() -> (r: String)
    ensures
        is_uuid_v4_text(r@),
{
    new_v4_id()
}

// ---------------------------------------------------------------------------
// Expiry of pending registrations
// ---------------------------------------------------------------------------

/// The layout of every date the API writes and reads.
pub const DATE_FORMAT: &'static str = "%Y-%m-%d %H:%M:%S";

/// How long a verification code stays valid, in minutes.
pub const VERIFICATION_MINUTES: i64 = 3;

/// What `chrono::NaiveDateTime::parse_from_str(text, format)` gives, taken as a UTC
/// instant: `Some((seconds since the epoch, nanoseconds within the second))`, or `None`
/// where the text does not parse.
pub uninterp spec fn parsed_instant(text: Seq<char>, format: Seq<char>) -> Option<(i64, u32)>;

/// Calls `chrono::NaiveDateTime::parse_from_str(text, format)` and reads the parsed
/// value, placed in UTC with `and_utc`, as `timestamp()` and `timestamp_subsec_nanos()`.
/// The result is named `parsed_instant` of both texts.
#[verifier::external_body]
fn parse_instant(text: &str, format: &str) -> (r: Option<(i64, u32)>)
    ensures
        r == parsed_instant(text@, format@),
{
    match chrono::NaiveDateTime::parse_from_str(text, format) {
        Ok(t) => Some((t.and_utc().timestamp(), t.and_utc().timestamp_subsec_nanos())),
        Err(_) => None,
    }
}

/// Instant `a` is not later than instant `b` (seconds first, then nanoseconds).
pub open spec fn not_later(a: (i64, u32), b: (i64, u32)) -> bool {
    a.0 < b.0 || (a.0 == b.0 && a.1 <= b.1)
}

/// Once a pending registration has run out it stays run out: expiry at `now` carries
/// over to every later instant.
pub proof fn lemma_expiry_persists(remaining: (i64, u32), now: (i64, u32), later: (i64, u32))
    requires
        not_later(remaining, now),
        not_later(now, later),
    ensures
        not_later(remaining, later),
{
}

/// Whether a code whose validity ends at `remaining` has run out at `now`.
pub fn expired_at(remaining: (i64, u32), now: (i64, u32)) -> (r: bool)
    ensures
        r == not_later(remaining, now),
        r == (remaining.0 < now.0 || (remaining.0 == now.0 && remaining.1 <= now.1)),
{
    remaining.0 < now.0 || (remaining.0 == now.0 && remaining.1 <= now.1)
}

/// Whether a pending registration whose code is valid until `remaining` has run out
/// at `now`, both written in `DATE_FORMAT`; `None` where either does not parse.
pub fn verification_expired(remaining: &str, now: &str) -> (r: Option<bool>)
    ensures
        match (parsed_instant(remaining@, DATE_FORMAT@), parsed_instant(now@, DATE_FORMAT@)) {
            (Some(a), Some(b)) => r == Some(not_later(a, b)) && r == Some(
                a.0 < b.0 || (a.0 == b.0 && a.1 <= b.1),
            ),
            _ => r is None,
        },
{
    let until = parse_instant(remaining, DATE_FORMAT);
    let current = parse_instant(now, DATE_FORMAT);
    match (until, current) {
        (Some(a), Some(b)) => Some(expired_at(a, b)),
        _ => None,
    }
}

} // verus!
