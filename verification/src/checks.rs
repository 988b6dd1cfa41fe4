//! Validation of user input and generation of verification material.
use vstd::prelude::*;
use vstd::string::*;

use crate::text::{has_suffix, str_ends_with};

verus! {

// ---------------------------------------------------------------------------
// Hexadecimal profile pictures
// ---------------------------------------------------------------------------

/// `c` is one of `0-9`, `a-f`, `A-F`.
pub open spec fn is_hex_char(c: char) -> bool {
    ||| ('0' as u32) <= (c as u32) && (c as u32) <= ('9' as u32)
    ||| ('a' as u32) <= (c as u32) && (c as u32) <= ('f' as u32)
    ||| ('A' as u32) <= (c as u32) && (c as u32) <= ('F' as u32)
}

/// `s` is a non-empty run of hexadecimal digits.
pub open spec fn is_hex_text(s: Seq<char>) -> bool {
    &&& s.len() > 0
    &&& forall|i: int| 0 <= i < s.len() ==> is_hex_char(#[trigger] s[i])
}

/// The pattern a profile must match in full.
pub open spec fn hex_pattern() -> Seq<char> {
    "^[0-9a-fA-F]+$"@
}

/// What compiling `pattern` with the `regex` crate and searching `haystack` gives:
/// `None` where the pattern does not compile, else whether it matches.
pub uninterp spec fn regex_match(pattern: Seq<char>, haystack: Seq<char>) -> Option<bool>;

/// Calls `regex::Regex::new(pattern)` and, when that compiles, `Regex::is_match(haystack)`.
/// The result is named `regex_match` of both texts. For the one pattern this library
/// uses, `^[0-9a-fA-F]+$`, the regex syntax documentation (anchors `^`/`$` at the ends
/// of the haystack, a character class, `+` for one or more) gives the matched set:
/// the non-empty strings of hexadecimal digits, and the pattern compiles.
#[verifier::external_body]
fn regex_is_match(pattern: &str, haystack: &str) -> (r: Option<bool>)
    ensures
        r == regex_match(pattern@, haystack@),
        pattern@ == "^[0-9a-fA-F]+$"@ ==> r == Some(
            haystack@.len() > 0 && forall|i: int|
            0 <= i < haystack@.len() ==> {
                let c = #[trigger] haystack@[i];
                ||| ('0' as u32) <= (c as u32) && (c as u32) <= ('9' as u32)
                ||| ('a' as u32) <= (c as u32) && (c as u32) <= ('f' as u32)
                ||| ('A' as u32) <= (c as u32) && (c as u32) <= ('F' as u32)
            },
        ),
{
    match regex::Regex::new(pattern) {
        Ok(re) => Some(re.is_match(haystack)),
        Err(_) => None,
    }
}

/// Whether `string` is a non-empty hexadecimal string, as the `regex` crate decides
/// for `^[0-9a-fA-F]+$`.
pub fn is_hex(string: &str) -> (r: bool)
    ensures
        r == is_hex_text(string@),
        r == (string@.len() > 0 && forall|i: int|
            0 <= i < string@.len() ==> {
                let c = #[trigger] string@[i];
                ||| ('0' as u32) <= (c as u32) && (c as u32) <= ('9' as u32)
                ||| ('a' as u32) <= (c as u32) && (c as u32) <= ('f' as u32)
                ||| ('A' as u32) <= (c as u32) && (c as u32) <= ('F' as u32)
            }),
{
    let pattern = "^[0-9a-fA-F]+$";
    match regex_is_match(pattern, string) {
        Some(matched) => matched,
        None => false,
    }
}

// ---------------------------------------------------------------------------
// Profile size
// ---------------------------------------------------------------------------

/// One mebibyte.
pub open spec fn mebibyte() -> nat {
    1048576
}

/// `len` bytes in mebibytes, rounded to the nearest whole number, halves rounded up.
pub open spec fn rounded_mebibytes(len: nat) -> nat {
    ((2 * len + mebibyte()) / (2 * mebibyte())) as nat
}

/// Whether a profile of `img_or_video.len()` bytes is at most 5 MiB once its size is
/// rounded to the nearest mebibyte.
pub fn check_img_or_video_size(img_or_video: &[u8]) -> (r: bool)
    ensures
        r == (rounded_mebibytes(img_or_video@.len()) <= 5),
        r == ((2 * img_or_video@.len() + 1048576) / 2097152 <= 5),
{
    let len = img_or_video.len();
    proof {
        let n = len as nat;
        assert(rounded_mebibytes(n) <= 5 <==> 2 * n < 11 * mebibyte()) by (nonlinear_arith)
            requires
                rounded_mebibytes(n) == (2 * n + 1048576) / 2097152,
                mebibyte() == 1048576,
        ;
    }
    len < 5767168
}

/// The hexadecimal strings are exactly the non-empty strings whose characters all
/// have the codes of `0`-`9` (48 to 57), `A`-`F` (65 to 70) or `a`-`f` (97 to 102):
/// upper- and lower-case digits count alike, and a string holding any other character
/// (or nothing) is not hexadecimal.
pub proof fn lemma_hex_text(s: Seq<char>)
    ensures
        is_hex_text(s) <==> (s.len() > 0 && forall|i: int|
            0 <= i < s.len() ==> {
                let code = (#[trigger] s[i]) as u32;
                (48 <= code <= 57) || (65 <= code <= 70) || (97 <= code <= 102)
            }),
        s.len() == 0 ==> !is_hex_text(s),
{
}

/// A profile no larger than an accepted one is accepted too.
pub proof fn lemma_smaller_profile_accepted(smaller: nat, larger: nat)
    requires
        smaller <= larger,
        rounded_mebibytes(larger) <= 5,
    ensures
        rounded_mebibytes(smaller) <= 5,
{
    assert(rounded_mebibytes(smaller) <= rounded_mebibytes(larger)) by (nonlinear_arith)
        requires
            smaller <= larger,
            rounded_mebibytes(smaller) == (2 * smaller + 1048576) / 2097152,
            rounded_mebibytes(larger) == (2 * larger + 1048576) / 2097152,
    ;
}

// ---------------------------------------------------------------------------
// E-mail addresses
// ---------------------------------------------------------------------------

/// The only mail domain verification codes are sent to.
pub open spec fn gmail_suffix() -> Seq<char> {
    "@gmail.com"@
}

/// Whether `to` is a Gmail address, the only kind the API mails codes to.
pub fn is_gmail_address(to: &str) -> (r: bool)
    ensures
        r == has_suffix(to@, gmail_suffix()),
        r == (to@.len() >= 10 && to@.subrange(to@.len() - 10, to@.len() as int) == "@gmail.com"@),
{
    proof {
        reveal_strlit("@gmail.com");
    }
    str_ends_with(to, "@gmail.com")
}

/// Exactly the addresses at `gmail.com` are Gmail addresses: whatever the part before
/// the domain, an address ending in `@gmail.com` is one, and addresses at other
/// domains that share its tail (`@hotmail.com`, `@agmail.com`) or are cut short
/// (`@gmail.co`) are not.
pub proof fn lemma_gmail_addresses(local: Seq<char>)
    ensures
        has_suffix(local + "@gmail.com"@, gmail_suffix()),
        !has_suffix(local + "@hotmail.com"@, gmail_suffix()),
        !has_suffix(local + "@agmail.com"@, gmail_suffix()),
        !has_suffix(local + "@gmail.co"@, gmail_suffix()),
        !has_suffix(local + "@gmail.com."@, gmail_suffix()),
{
    reveal_strlit("@gmail.com");
    reveal_strlit("@hotmail.com");
    reveal_strlit("@agmail.com");
    reveal_strlit("@gmail.co");
    reveal_strlit("@gmail.com.");
    let g = local + "@gmail.com"@;
    assert(g.subrange(g.len() - 10, g.len() as int) =~= "@gmail.com"@);
    let h = local + "@hotmail.com"@;
    assert(h.subrange(h.len() - 10, h.len() as int)[0] == 'o');
    let a = local + "@agmail.com"@;
    assert(a.subrange(a.len() - 10, a.len() as int)[0] == 'a');
    let c = local + "@gmail.co"@;
    if c.len() >= 10 {
        assert(c.subrange(c.len() - 10, c.len() as int)[9] == 'o');
    }
    let d = local + "@gmail.com."@;
    assert(d.subrange(d.len() - 10, d.len() as int)[9] == '.');
}

} // verus!
