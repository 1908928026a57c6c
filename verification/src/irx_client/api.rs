//! The credential of the remote service.

use crate::text::{chars_of, replace_literal, replaced, string_of};
use vstd::prelude::*;
use vstd::string::StringSliceAdditionalSpecFns;
use vstd::utf8::encode_utf8;

verus! {

/// Whether the pattern is a regular expression that matches somewhere in the
/// text.
pub uninterp spec fn pattern_found(pattern: Seq<char>, text: Seq<char>) -> bool;

/// Searches a text for a regular expression.
///
/// Trusted: the body compiles the pattern with `regress::Regex::new` and
/// searches the text with `regress::Regex::find`. What the search finds is a
/// function of the pattern and the text alone; the contract names it and
/// says no more. A pattern that does not compile is found nowhere.
#[verifier::external_body]
fn find_pattern(pattern: &str, text: &str) -> (found: bool)
    ensures
        found == pattern_found(pattern@, text@),
{
    match regress::Regex::new(pattern) {
        Ok(regex) => regex.find(text).is_some(),
        Err(_) => false,
    }
}

/// A key of the remote service: forty letters and digits.
#[derive(Debug, Clone, PartialEq, Eq, PartialOrd, Ord, Hash)]
pub struct ApiKey {
    value: String,
}

/// Why a text is no key.
#[derive(Debug, Copy, Clone, PartialEq, Eq, Hash, Structural)]
pub enum ApiKeyError {
    /// The text has more than forty bytes.
    TooLong,
    /// The text has fewer than forty bytes.
    TooShort,
    /// The text has forty bytes, and the pattern of keys is found nowhere in
    /// it.
    PatternMismatch,
}

impl View for ApiKey {
    type V = Seq<char>;

    closed spec fn view(&self) -> Seq<char> {
        self.value@
    }
}

/// Whether a text of `len` bytes, in which the pattern of keys is `found` or
/// not, is a key, and if not, why.
pub open spec fn key_check(len: nat, found: bool) -> Result<(), ApiKeyError> {
    if len > 40 {
        Err(ApiKeyError::TooLong)
    } else if len < 40 {
        Err(ApiKeyError::TooShort)
    } else if !found {
        Err(ApiKeyError::PatternMismatch)
    } else {
        Ok(())
    }
}

impl ApiKeyError {
    /// The error as a sentence.
    pub fn message(&self) -> (m: &'static str)
        ensures
            m@ == match *self {
                ApiKeyError::TooLong => "longer than 40 characters"@,
                ApiKeyError::TooShort => "shorter than 40 characters"@,
                ApiKeyError::PatternMismatch => "doesn't match pattern \"[0-9a-zA-Z]{40}\""@,
            },
    {
        match self {
            ApiKeyError::TooLong => "longer than 40 characters",
            ApiKeyError::TooShort => "shorter than 40 characters",
            ApiKeyError::PatternMismatch => "doesn't match pattern \"[0-9a-zA-Z]{40}\"",
        }
    }
}

impl ApiKey {
    /// The pattern of keys: forty letters and digits in a row.
    pub open spec fn pattern() -> Seq<char> {
        "[0-9a-zA-Z]{40}"@
    }

    /// Makes a key of a text of which the caller knows whether the pattern of
    /// keys is found in it.
    pub fn from_checked(value: &str, found: bool) -> (r: Result<ApiKey, ApiKeyError>)
        ensures
            match r {
                Ok(key) => key@ == value@ && key_check(encode_utf8(value@).len(), found) is Ok,
                Err(e) => key_check(encode_utf8(value@).len(), found) == Err::<(), ApiKeyError>(e),
            },
    {
        if value.as_bytes().len() > 40 {
            Err(ApiKeyError::TooLong)
        } else if value.as_bytes().len() < 40 {
            Err(ApiKeyError::TooShort)
        } else if !found {
            Err(ApiKeyError::PatternMismatch)
        } else {
            Ok(ApiKey { value: value.to_owned() })
        }
    }

    /// Reads a key: a text of forty bytes in which the pattern of keys is
    /// found.
    pub fn from_str(value: &str) -> (r: Result<ApiKey, ApiKeyError>)
        ensures
            match r {
                Ok(key) => key@ == value@ && key_check(
                    encode_utf8(value@).len(),
                    pattern_found(ApiKey::pattern(), value@),
                ) is Ok,
                Err(e) => key_check(
                    encode_utf8(value@).len(),
                    pattern_found(ApiKey::pattern(), value@),
                ) == Err::<(), ApiKeyError>(e),
            },
    {
        if value.as_bytes().len() != 40 {
            return ApiKey::from_checked(value, false);
        }
        let found = find_pattern("[0-9a-zA-Z]{40}", value);
        ApiKey::from_checked(value, found)
    }

    /// What a file says of a key: the text that it holds, without the
    /// line feeds.
    pub open spec fn stored_text(text: Seq<char>) -> Seq<char> {
        replaced(text, "\n"@, ""@)
    }

    /// Reads the key that a file holds: the line feeds are taken out of the
    /// file's text, and what is left is read as [`ApiKey::from_str`] reads
    /// it. A file that holds no key gives `None`.
    pub fn from_stored(text: &str) -> (key: Option<ApiKey>)
        ensures
            match key {
                Some(k) => k@ == ApiKey::stored_text(text@) && key_check(
                    encode_utf8(ApiKey::stored_text(text@)).len(),
                    pattern_found(ApiKey::pattern(), ApiKey::stored_text(text@)),
                ) is Ok,
                None => key_check(
                    encode_utf8(ApiKey::stored_text(text@)).len(),
                    pattern_found(ApiKey::pattern(), ApiKey::stored_text(text@)),
                ) is Err,
            },
    {
        let held = string_of(&replace_literal(&chars_of(text), "\n", ""));
        match ApiKey::from_str(held.as_str()) {
            Ok(key) => Some(key),
            Err(_) => None,
        }
    }

    /// The text of the key.
    pub fn as_str(&self) -> (text: &str)
        ensures
            text@ == self@,
    {
        self.value.as_str()
    }

    /// A copy of the key.
    pub fn duplicate(&self) -> (copy: ApiKey)
        ensures
            copy == *self,
    {
        ApiKey { value: self.value.clone() }
    }

    /// The text of the key, as a string of its own.
    pub fn into_string(self) -> (text: String)
        ensures
            text@ == self@,
    {
        self.value
    }
}

} // verus!
