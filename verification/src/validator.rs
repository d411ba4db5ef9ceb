//! Input validation: the rules that a name, an email address and a phone
//! number must meet before the directory stores them.

use vstd::prelude::*;
use vstd::std_specs::iter::IteratorSpec;
use vstd::string::StringExecFns;
use crate::contact_error::{failure_text, reports, ContactsError, Failure};

verus! {

/// Dutch phone numbers: the country code 31, then nine or ten digits. The
/// whole text must match.
pub const NL_PHONE_NUMBER_REGEX: &'static str = "^31[0-9]{9,10}$";

/// Email addresses: a local part of lower-case letters, digits, `_` and `+`,
/// with dots allowed inside it; `@`; lower-case alphanumeric labels joined by
/// `.` or `-`; and a last label of two to six letters. The whole text must
/// match.
pub const EMAIL_REGEX: &'static str =
    "^([a-z0-9_+]([a-z0-9_+.]*[a-z0-9_+])?)@([a-z0-9]+([\\-\\.]{1}[a-z0-9]+)*\\.[a-z]{2,6})$";

/// `regex::Error`, the reason a pattern did not compile. It is carried, never
/// looked into.
#[verifier::external_type_specification]
#[verifier::external_body]
pub struct ExRegexError(regex::Error);

/// Whether `regex::Regex::new` accepts `pattern`.
pub uninterp spec fn regex_compiles(pattern: Seq<char>) -> bool;

/// Whether `regex::Regex::is_match` finds a match of `pattern` in `text`.
pub uninterp spec fn regex_matches(pattern: Seq<char>, text: Seq<char>) -> bool;

/// Compiles `regex` with `regex::Regex::new` and searches `text` with
/// `Regex::is_match`. The contract names both answers and claims only that
/// each is a function of the pattern and the text: the error comes exactly for
/// the patterns that do not compile, and the flag is the engine's verdict.
#[verifier::external_body]
fn is_valid_regex(text: &str, regex: &str) -> (r: Result<bool, regex::Error>)
    ensures
        r is Ok == regex_compiles(regex@),
        r matches Ok(found) ==> found == regex_matches(regex@, text@),
{
    match regex::Regex::new(regex) {
        Ok(re) => Ok(re.is_match(text)),
        Err(err) => Err(err),
    }
}

/// White space in the sense of Unicode's `White_Space` property.
pub open spec fn is_space(c: char) -> bool {
    let code = c as int;
    ||| 0x09 <= code <= 0x0D
    ||| code == 0x20
    ||| code == 0x85
    ||| code == 0xA0
    ||| code == 0x1680
    ||| 0x2000 <= code <= 0x200A
    ||| code == 0x2028
    ||| code == 0x2029
    ||| code == 0x202F
    ||| code == 0x205F
    ||| code == 0x3000
}

/// A name is valid when something is left of it after trimming white space.
pub open spec fn valid_name(name: Seq<char>) -> bool {
    exists|i: int| 0 <= i < name.len() && !is_space(#[trigger] name[i])
}

/// A decimal digit, `0` to `9`.
pub open spec fn is_digit(c: char) -> bool {
    '0' <= c <= '9'
}

/// Every character of `s` is a decimal digit.
pub open spec fn all_digits(s: Seq<char>) -> bool {
    forall|i: int| 0 <= i < s.len() ==> is_digit(#[trigger] s[i])
}

/// The number that a run of decimal digits writes.
pub open spec fn decimal_value(s: Seq<char>) -> int
    decreases s.len(),
{
    if s.len() == 0 {
        0
    } else {
        decimal_value(s.drop_last()) * 10 + (s.last() as int - '0' as int)
    }
}

/// The phone number that `s` writes: `s` is a non-empty run of decimal digits
/// without a sign, and its value fits in 64 signed bits.
pub open spec fn parsed_phone(s: Seq<char>) -> Option<i64> {
    if s.len() > 0 && all_digits(s) && decimal_value(s) <= i64::MAX {
        Some(decimal_value(s) as i64)
    } else {
        None
    }
}

/// What checking an email address comes to: the verdict, or the failure to
/// build the pattern.
pub open spec fn email_check(email: Seq<char>) -> Result<bool, Failure> {
    if regex_compiles(EMAIL_REGEX@) {
        Ok(regex_matches(EMAIL_REGEX@, email))
    } else {
        Err(Failure::Input("Invalid email regex"@))
    }
}

/// What checking a phone number comes to: it must match the numbering plan
/// and write a number.
pub open spec fn phone_check(phone: Seq<char>) -> Result<bool, Failure> {
    if regex_compiles(NL_PHONE_NUMBER_REGEX@) {
        Ok(regex_matches(NL_PHONE_NUMBER_REGEX@, phone) && parsed_phone(phone) is Some)
    } else {
        Err(Failure::Input("Invalid phone number regex"@))
    }
}

/// An email address is valid when the pattern compiles and matches it.
pub open spec fn valid_email(email: Seq<char>) -> bool {
    email_check(email) == Ok::<bool, Failure>(true)
}

/// A phone number is valid when the pattern compiles and matches it, and it
/// writes a number.
pub open spec fn valid_phone(phone: Seq<char>) -> bool {
    phone_check(phone) == Ok::<bool, Failure>(true)
}

/// A verdict as plain values.
pub open spec fn verdict_of(checked: Result<bool, ContactsError>) -> Result<bool, Failure> {
    match checked {
        Ok(valid) => Ok(valid),
        Err(e) => Err(e@),
    }
}

/// The text of the failure that kept a field from being tested.
pub open spec fn unchecked_text(cause: Failure) -> Seq<char> {
    match failure_text(cause) {
        Some(t) => t,
        None => Seq::empty(),
    }
}

/// The failure that refuses `email` once its check has come to `verdict`.
pub open spec fn email_failure_after(email: Seq<char>, verdict: Result<bool, Failure>) -> Option<
    Failure,
> {
    match verdict {
        Ok(true) => None,
        Ok(false) => Some(Failure::Input("Invalid email entered: "@ + email)),
        Err(cause) => Some(Failure::Input("Failed to validate email: "@ + unchecked_text(cause))),
    }
}

/// The failure that refuses `phone` once its check has come to `verdict`.
pub open spec fn phone_failure_after(phone: Seq<char>, verdict: Result<bool, Failure>) -> Option<
    Failure,
> {
    match verdict {
        Ok(true) => None,
        Ok(false) => Some(Failure::Input("Invalid phone number entered: "@ + phone)),
        Err(cause) => Some(
            Failure::Input("Failed to validate phone number: "@ + unchecked_text(cause)),
        ),
    }
}

/// The failure that a name is rejected with, if it is.
pub open spec fn name_failure(name: Seq<char>) -> Option<Failure> {
    if valid_name(name) {
        None
    } else {
        Some(Failure::Input("Name cannot be empty"@))
    }
}

/// The failure that an email address is rejected with, if it is.
pub open spec fn email_failure(email: Seq<char>) -> Option<Failure> {
    email_failure_after(email, email_check(email))
}

/// The failure that a phone number is rejected with, if it is.
pub open spec fn phone_failure(phone: Seq<char>) -> Option<Failure> {
    phone_failure_after(phone, phone_check(phone))
}

/// The first failure among the name, then the email address if one is given,
/// then the phone number if one is given.
pub open spec fn input_failure(
    name: Seq<char>,
    email: Option<Seq<char>>,
    phone: Option<Seq<char>>,
) -> Option<Failure> {
    if name_failure(name) is Some {
        name_failure(name)
    } else if email is Some && email_failure(email->0) is Some {
        email_failure(email->0)
    } else if phone is Some {
        phone_failure(phone->0)
    } else {
        None
    }
}

/// The text behind an optional borrowed string.
pub open spec fn text_of(field: Option<&String>) -> Option<Seq<char>> {
    match field {
        Some(s) => Some(s@),
        None => None,
    }
}

/// Whether `c` is white space.
pub fn is_space_char(c: char) -> (space: bool)
    ensures
        space == is_space(c),
{
    ('\u{09}' <= c && c <= '\u{0D}') || c == '\u{20}' || c == '\u{85}' || c == '\u{A0}' || c
        == '\u{1680}' || ('\u{2000}' <= c && c <= '\u{200A}') || c == '\u{2028}' || c
        == '\u{2029}' || c == '\u{202F}' || c == '\u{205F}' || c == '\u{3000}'
}

/// Whether anything but white space occurs in `name`.
pub fn is_valid_name(name: &str) -> (valid: bool)
    ensures
        valid == valid_name(name@),
{
    for c in it: name.chars()
        invariant
            it.seq() == name@,
            forall|i: int| 0 <= i < it.index() ==> is_space(#[trigger] name@[i]),
    {
        if !is_space_char(c) {
            return true;
        }
    }
    false
}

/// The value of a prefix of a run of digits is at most the value of the run.
pub proof fn lemma_prefix_value(s: Seq<char>, k: int)
    requires
        all_digits(s),
        0 <= k <= s.len(),
    ensures
        0 <= decimal_value(s.take(k)) <= decimal_value(s),
    decreases s.len(),
{
    if k == s.len() {
        assert(s.take(k) =~= s);
        if s.len() > 0 {
            assert(is_digit(s[s.len() - 1]));
            lemma_prefix_value(s.drop_last(), k - 1);
            assert(s.drop_last().take(k - 1) =~= s.drop_last());
        }
    } else {
        assert(is_digit(s[s.len() - 1]));
        lemma_prefix_value(s.drop_last(), k);
        assert(s.drop_last().take(k) =~= s.take(k));
        assert(s.drop_last().len() == s.len() - 1);
        lemma_prefix_value(s.drop_last(), s.len() - 1);
        assert(s.drop_last().take(s.len() - 1) =~= s.drop_last());
    }
}

/// Reads a phone number: decimal digits only, no sign, no more than fits in
/// 64 signed bits.
pub fn parse_phone(text: &str) -> (number: Option<i64>)
    ensures
        number == parsed_phone(text@),
{
    let mut value: i64 = 0;
    let mut seen: bool = false;
    for c in it: text.chars()
        invariant
            it.seq() == text@,
            seen == (it.index() > 0),
            all_digits(text@.take(it.index())),
            value == decimal_value(text@.take(it.index())),
            0 <= value,
    {
        let ghost k = it.index();
        if c < '0' || c > '9' {
            assert(!is_digit(text@[k]));
            return None;
        }
        let digit: i64 = (c as u32 - '0' as u32) as i64;
        assert(text@.take(k + 1).drop_last() =~= text@.take(k));
        assert(text@.take(k + 1).last() == c);
        if value > (i64::MAX - digit) / 10 {
            proof {
                if all_digits(text@) {
                    lemma_prefix_value(text@, k + 1);
                }
            }
            return None;
        }
        value = value * 10 + digit;
        seen = true;
        assert forall|i: int| 0 <= i < k + 1 implies is_digit(#[trigger] text@.take(k + 1)[i]) by {
            if i < k {
                assert(text@.take(k + 1)[i] == text@.take(k)[i]);
            }
        }
    }
    assert(text@.take(text@.len() as int) =~= text@);
    if seen {
        Some(value)
    } else {
        None
    }
}

/// What the pattern's answer on an email address comes to: the verdict, or
/// the report that the pattern could not be built.
pub fn email_verdict(matched: Result<bool, regex::Error>) -> (r: Result<bool, ContactsError>)
    ensures
        match matched {
            Ok(found) => r == Ok::<bool, ContactsError>(found),
            Err(_) => r is Err && r->Err_0@ == Failure::Input("Invalid email regex"@),
        },
{
    match matched {
        Ok(found) => Ok(found),
        Err(_) => Err(ContactsError::InputError(String::from_str("Invalid email regex"))),
    }
}

/// What the numbering plan's answer on `phone` comes to: a match must also
/// write a number; or the report that the pattern could not be built.
pub fn phone_verdict(phone: &str, matched: Result<bool, regex::Error>) -> (r: Result<
    bool,
    ContactsError,
>)
    ensures
        match matched {
            Ok(found) => r == Ok::<bool, ContactsError>(found && parsed_phone(phone@) is Some),
            Err(_) => r is Err && r->Err_0@ == Failure::Input("Invalid phone number regex"@),
        },
{
    match matched {
        Ok(found) => Ok(found && parse_phone(phone).is_some()),
        Err(_) => Err(ContactsError::InputError(String::from_str("Invalid phone number regex"))),
    }
}

/// Checks an email address against the pattern.
pub fn is_valid_email(text: &str) -> (r: Result<bool, ContactsError>)
    ensures
        verdict_of(r) == email_check(text@),
{
    email_verdict(is_valid_regex(text, EMAIL_REGEX))
}

/// Checks a phone number against the numbering plan and reads it.
pub fn is_valid_phone(text: &str) -> (r: Result<bool, ContactsError>)
    ensures
        verdict_of(r) == phone_check(text@),
{
    phone_verdict(text, is_valid_regex(text, NL_PHONE_NUMBER_REGEX))
}

/// Accepts a name unless it is empty or all white space.
pub fn validate_name(name: &str) -> (r: Result<(), ContactsError>)
    ensures
        r is Ok <==> valid_name(name@),
        reports(r, name_failure(name@)),
{
    if is_valid_name(name) {
        Ok(())
    } else {
        Err(ContactsError::InputError(String::from_str("Name cannot be empty")))
    }
}

/// What validating `email` comes to once the pattern has answered: success,
/// the refusal of the address, or the report that the address could not be
/// tested.
pub fn email_outcome(email: &str, verdict: Result<bool, ContactsError>) -> (r: Result<
    (),
    ContactsError,
>)
    ensures
        verdict matches Err(e) && e@ is Backend ==> r is Err && r->Err_0@ is Input,
        !(verdict matches Err(e) && e@ is Backend) ==> reports(
            r,
            email_failure_after(email@, verdict_of(verdict)),
        ),
{
    match verdict {
        Ok(true) => Ok(()),
        Ok(false) => Err(
            ContactsError::InputError(String::from_str("Invalid email entered: ").concat(email)),
        ),
        Err(err) => Err(
            ContactsError::InputError(
                String::from_str("Failed to validate email: ").concat(err.message().as_str()),
            ),
        ),
    }
}

/// What validating `phone` comes to once the numbering plan has answered:
/// success, the refusal of the number, or the report that the number could
/// not be tested.
pub fn phone_outcome(phone: &str, verdict: Result<bool, ContactsError>) -> (r: Result<
    (),
    ContactsError,
>)
    ensures
        verdict matches Err(e) && e@ is Backend ==> r is Err && r->Err_0@ is Input,
        !(verdict matches Err(e) && e@ is Backend) ==> reports(
            r,
            phone_failure_after(phone@, verdict_of(verdict)),
        ),
{
    match verdict {
        Ok(true) => Ok(()),
        Ok(false) => Err(
            ContactsError::InputError(
                String::from_str("Invalid phone number entered: ").concat(phone),
            ),
        ),
        Err(err) => Err(
            ContactsError::InputError(
                String::from_str("Failed to validate phone number: ").concat(
                    err.message().as_str(),
                ),
            ),
        ),
    }
}

/// Accepts an email address that matches the pattern.
pub fn validate_email(email: &str) -> (r: Result<(), ContactsError>)
    ensures
        r is Ok <==> valid_email(email@),
        reports(r, email_failure(email@)),
{
    email_outcome(email, is_valid_email(email))
}

/// Accepts a phone number that matches the numbering plan and writes a
/// number.
pub fn validate_phone(phone: &str) -> (r: Result<(), ContactsError>)
    ensures
        r is Ok <==> valid_phone(phone@),
        reports(r, phone_failure(phone@)),
{
    phone_outcome(phone, is_valid_phone(phone))
}

/// Checks the name, then the email address and the phone number where they
/// are given, and reports the first failure.
pub fn validate_input(name: &String, email: Option<&String>, phone_number: Option<&String>) -> (r:
    Result<(), ContactsError>)
    ensures
        reports(r, input_failure(name@, text_of(email), text_of(phone_number))),
{
    match validate_name(name.as_str()) {
        Ok(_) => {},
        Err(e) => {
            return Err(e);
        },
    }
    if let Some(email) = email {
        match validate_email(email.as_str()) {
            Ok(_) => {},
            Err(e) => {
                return Err(e);
            },
        }
    }
    if let Some(phone) = phone_number {
        match validate_phone(phone.as_str()) {
            Ok(_) => {},
            Err(e) => {
                return Err(e);
            },
        }
    }
    Ok(())
}

} // verus!
