use vstd::prelude::*;

use chrono::TimeZone;

verus! {

/// What `regex::Regex::new(pattern)` followed by `is_match(text)` gives:
/// `None` when the pattern does not compile, else whether the text matches.
/// It depends on the two texts alone.
pub uninterp spec fn regex_outcome(pattern: Seq<char>, text: Seq<char>) -> Option<bool>;

/// Whether chrono's `Utc.datetime_from_str(text, format)` reads the text as
/// a date and time; it depends on the two texts alone.
pub uninterp spec fn utc_datetime_parses(text: Seq<char>, format: Seq<char>) -> bool;

/// Relies on `regex::Regex::new` and `regex::Regex::is_match`: compiling a
/// pattern and matching a text neither panics nor depends on anything but
/// the two texts.
#[verifier::external_body]
fn regex_is_match(pattern: &str, text: &str) -> (r: Option<bool>)
    ensures
        r == regex_outcome(pattern@, text@),
{
    match regex::Regex::new(pattern) {
        Ok(re) => Some(re.is_match(text)),
        Err(_) => None,
    }
}

/// Relies on chrono's `TimeZone::datetime_from_str` for `Utc`: whether the
/// text parses under the format, which depends on the two texts alone.
#[verifier::external_body]
fn utc_datetime_from_str_is_ok(text: &str, format: &str) -> (r: bool)
    ensures
        r == utc_datetime_parses(text@, format@),
{
    #[allow(deprecated)]
    chrono::Utc.datetime_from_str(text, format).is_ok()
}

/// The date-time format of the API: `YYYY-MM-DDTHH:mm:SS.xxxZ`.
pub const DATE_TIME_FORMAT: &'static str = "%Y-%m-%dT%H:%M:%S.%3fZ";

/// The text patterns that some fields must match.
#[derive(Debug, Clone, Copy, PartialEq, Eq, Structural)]
pub enum Patterns {
    /// A two-letter ISO 639 language code.
    Language,
    /// A time zone name of the IANA database.
    Timezone,
}

pub open spec fn pattern_text(p: Patterns) -> Seq<char> {
    match p {
        Patterns::Language => "^[A-Za-z]{2}$"@,
        Patterns::Timezone => "^[-+_/ A-Za-z 0-9]*$"@,
    }
}

/// The text matches the pattern (a pattern that does not compile matches nothing).
pub open spec fn pattern_matches_spec(p: Patterns, text: Seq<char>) -> bool {
    regex_outcome(pattern_text(p), text) == Some(true)
}

impl Patterns {
    pub fn as_str(&self) -> (r: &'static str)
        ensures
            r@ == pattern_text(*self),
    {
        match self {
            Patterns::Language => "^[A-Za-z]{2}$",
            Patterns::Timezone => "^[-+_/ A-Za-z 0-9]*$",
        }
    }
}

pub fn pattern_matches(pattern: Patterns, s: &String) -> (r: bool)
    ensures
        r == pattern_matches_spec(pattern, s@),
{
    match regex_is_match(pattern.as_str(), s.as_str()) {
        Some(m) => m,
        None => false,
    }
}

/// A field value that its checks refuse, with the reason.
#[derive(Debug)]
pub struct FieldError {
    pub message: String,
}

/// An opacity is a percentage: 0 to 100.
pub fn check_opacity(value: u32) -> (r: Result<u32, FieldError>)
    ensures
        value <= 100 ==> r == Ok::<u32, FieldError>(value),
        value > 100 ==> r is Err,
{
    if value > 100 {
        Err(
            FieldError {
                message: String::from_str(
                    "Invalid value for Opacity. Value should be between 0 and 100 inclusive",
                ),
            },
        )
    } else {
        Ok(value)
    }
}

/// A language code must be of the ISO 639 format.
pub fn check_language_code(s: String) -> (r: Result<String, FieldError>)
    ensures
        pattern_matches_spec(Patterns::Language, s@) ==> r == Ok::<String, FieldError>(s),
        !pattern_matches_spec(Patterns::Language, s@) ==> r is Err,
{
    if pattern_matches(Patterns::Language, &s) {
        Ok(s)
    } else {
        Err(
            FieldError {
                message: String::from_str("Language code is not of the format specified in ISO 639"),
            },
        )
    }
}

/// Every language code of a list must be of the ISO 639 format.
pub fn check_language_code_list(list: Vec<String>) -> (r: Result<Vec<String>, FieldError>)
    ensures
        (forall|k: int|
            0 <= k < list@.len() ==> pattern_matches_spec(Patterns::Language, #[trigger] list@[k]@))
            ==> (r matches Ok(v) && v@ == list@),
        (exists|k: int|
            0 <= k < list@.len() && !pattern_matches_spec(Patterns::Language, #[trigger] list@[k]@))
            ==> r is Err,
{
    let mut i: usize = 0;
    while i < list.len()
        invariant
            i <= list@.len(),
            forall|k: int| 0 <= k < i ==> pattern_matches_spec(Patterns::Language, #[trigger] list@[k]@),
        decreases list@.len() - i,
    {
        if !pattern_matches(Patterns::Language, &list[i]) {
            return Err(
                FieldError {
                    message: String::from_str("One or more language is not of the ISO 639 format"),
                },
            );
        }
        i = i + 1;
    }
    Ok(list)
}

/// A time zone must be a name the IANA database could hold.
pub fn check_timezone(s: String) -> (r: Result<String, FieldError>)
    ensures
        pattern_matches_spec(Patterns::Timezone, s@) ==> r == Ok::<String, FieldError>(s),
        !pattern_matches_spec(Patterns::Timezone, s@) ==> r is Err,
{
    if pattern_matches(Patterns::Timezone, &s) {
        Ok(s)
    } else {
        Err(
            FieldError {
                message: String::from_str(
                    "Timezone is not in a format supported by the IANA TZ database",
                ),
            },
        )
    }
}

/// A date-time field must read as a UTC date and time in the API's format.
pub fn check_date_time(s: String) -> (r: Result<String, FieldError>)
    ensures
        utc_datetime_parses(s@, DATE_TIME_FORMAT@) ==> r == Ok::<String, FieldError>(s),
        !utc_datetime_parses(s@, DATE_TIME_FORMAT@) ==> r is Err,
{
    if utc_datetime_from_str_is_ok(s.as_str(), DATE_TIME_FORMAT) {
        Ok(s)
    } else {
        Err(
            FieldError {
                message: String::from_str(
                    "Field not in expected Date-Time (YYYY-MM-DDTHH:mm:SS.xxxZ) format",
                ),
            },
        )
    }
}

} // verus!
