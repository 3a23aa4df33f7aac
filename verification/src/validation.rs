//! The rules on what users type in: passwords, e-mail addresses and the
//! fields of the registration form.

use regex::Regex;
use vstd::prelude::*;

verus! {

/// Whether a character has the Unicode property `Uppercase`.
pub uninterp spec fn uppercase(c: char) -> bool;

/// Whether a character has the Unicode property `Lowercase`.
pub uninterp spec fn lowercase(c: char) -> bool;

/// `char::is_uppercase` of std: the contract only gives its result a name,
/// as a function of the character.
pub assume_specification[ char::is_uppercase ](c: char) -> (r: bool)
    ensures
        r == uppercase(c),
;

/// `char::is_lowercase` of std: the contract only gives its result a name,
/// as a function of the character.
pub assume_specification[ char::is_lowercase ](c: char) -> (r: bool)
    ensures
        r == lowercase(c),
;

/// Whether a character is one of the ten ASCII digits.
pub open spec fn ascii_digit(c: char) -> bool {
    '0' <= c <= '9'
}

/// Whether a text holds an uppercase letter, a lowercase letter and an
/// ASCII digit.
pub open spec fn mixed(text: Seq<char>) -> bool {
    &&& exists|i: int| 0 <= i < text.len() && uppercase(#[trigger] text[i])
    &&& exists|i: int| 0 <= i < text.len() && lowercase(#[trigger] text[i])
    &&& exists|i: int| 0 <= i < text.len() && ascii_digit(#[trigger] text[i])
}

/// Whether a password is strong enough: at least eight bytes long in
/// UTF-8, with an uppercase letter, a lowercase letter and an ASCII digit.
pub open spec fn strong_password(password: Seq<char>) -> bool {
    vstd::utf8::encode_utf8(password).len() >= 8 && mixed(password)
}

/// Checks the strength of a password.
pub fn is_valid_password(password: &str) -> (valid: bool)
    ensures
        valid == strong_password(password@),
{
    if password.as_bytes().len() < 8 {
        return false;
    }
    let n: usize = password.unicode_len();
    let mut upper = false;
    let mut lower = false;
    let mut digit = false;
    let mut i: usize = 0;
    while i < n
        invariant
            i <= n,
            n == password@.len(),
            upper == (exists|j: int| 0 <= j < i && uppercase(#[trigger] password@[j])),
            lower == (exists|j: int| 0 <= j < i && lowercase(#[trigger] password@[j])),
            digit == (exists|j: int| 0 <= j < i && ascii_digit(#[trigger] password@[j])),
        decreases n - i,
    {
        let c = password.get_char(i);
        if c.is_uppercase() {
            upper = true;
        }
        if c.is_lowercase() {
            lower = true;
        }
        if '0' <= c && c <= '9' {
            digit = true;
        }
        i = i + 1;
    }
    upper && lower && digit
}

/// The shape of an e-mail address, as a regular expression: a local part,
/// `@`, a domain, a dot and a top-level name of two letters or more.
pub const EMAIL_PATTERN: &'static str = r"^[a-zA-Z0-9._%+-]+@[a-zA-Z0-9.-]+\.[a-zA-Z]{2,}$";

/// Whether the regular expression `pattern`, in the syntax of the `regex`
/// crate, matches somewhere in `text`; `None` for a pattern that the crate
/// does not compile.
pub uninterp spec fn regex_match(pattern: Seq<char>, text: Seq<char>) -> Option<bool>;

/// Compiles `pattern` with `regex::Regex::new` and runs `Regex::is_match`
/// on `text`. The contract claims that the result depends on the two texts
/// alone; a pattern that does not compile gives `None`.
#[verifier::external_body]
fn pattern_matches(pattern: &str, text: &str) -> (r: Option<bool>)
    ensures
        r == regex_match(pattern@, text@),
{
    match Regex::new(pattern) {
        Ok(compiled) => Some(compiled.is_match(text)),
        Err(_) => None,
    }
}

/// The verdict on an address, from what matching it against
/// [`EMAIL_PATTERN`] gave: valid only if the pattern matched.
pub open spec fn email_verdict(matched: Option<bool>) -> bool {
    matched == Some(true)
}

/// Turns the result of matching into the verdict on an address.
pub fn accept_match(matched: Option<bool>) -> (valid: bool)
    ensures
        valid == email_verdict(matched),
{
    match matched {
        Some(hit) => hit,
        None => false,
    }
}

/// Checks the shape of an e-mail address.
pub fn is_valid_email(email: &str) -> (valid: bool)
    ensures
        valid == email_verdict(regex_match(EMAIL_PATTERN@, email@)),
{
    accept_match(pattern_matches(EMAIL_PATTERN, email))
}

} // verus!
