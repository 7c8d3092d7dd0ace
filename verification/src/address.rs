//! Addresses of the service's resources.
//!
//! URLs are parsed and changed by the `url` crate and school identifiers
//! are written out by the `uuid` crate. This module holds the calls into
//! both, each behind a function whose contract is taken on trust, and the
//! names by which the rest of the crate speaks of what they return.

use vstd::arithmetic::power::pow;
use vstd::prelude::*;

verus! {

/// The longest text, in characters, that is handed to the URL functions.
/// Within it no URL that they build outgrows the four gigabytes that the
/// `url` crate can hold.
pub const MAX_ADDRESS_LEN: usize = 0x03FF_FFFF;

/// Why no address could be built.
#[derive(Debug, Clone, Copy, PartialEq, Eq, Structural)]
pub enum UrlFault {
    /// A text is longer than [`MAX_ADDRESS_LEN`].
    TooLong,
    /// The text is not an absolute URL.
    Unparsable,
    /// The URL cannot be a base, so it has no path segments to add to.
    CannotBeABase,
}

/// The error with which `url::Url::parse` rejects a text.
#[verifier::external_type_specification]
#[verifier::external_body]
pub struct ExParseError(url::ParseError);

/// What `url::Url::parse` makes of `input`: the serialization of the URL
/// that it parses to, or nothing where it rejects the text.
pub uninterp spec fn url_parsed(input: Seq<char>) -> Option<Seq<char>>;

/// The serialization of the URL `address` after `url::Url::set_path` has
/// replaced its path by `path`; nothing where `address` does not parse.
pub uninterp spec fn url_with_path(address: Seq<char>, path: Seq<char>) -> Option<Seq<char>>;

/// The serialization of the URL `address` after
/// `url::PathSegmentsMut::push` has appended `segment` to its path, or the
/// reason why there is none: `address` does not parse, or it parses to a
/// URL that cannot be a base.
pub uninterp spec fn url_with_segment(address: Seq<char>, segment: Seq<char>) -> Result<
    Seq<char>,
    UrlFault,
>;

/// Calls `url::Url::parse` on `input`. On success the result is the
/// serialization of the parsed URL; on failure it is the crate's own
/// error. The contract only names the outcome.
#[verifier::external_body]
pub(crate) fn parse_address(input: &str) -> (out: Result<String, url::ParseError>)
    ensures
        match out {
            Ok(address) => url_parsed(input@) == Some(address@),
            Err(_) => url_parsed(input@) is None,
        },
{
    match url::Url::parse(input) {
        Ok(url) => Ok(String::from(url)),
        Err(fault) => Err(fault),
    }
}

/// The message of a `url::ParseError`, as its `Display` impl writes it.
/// Nothing is claimed of the text.
#[verifier::external_body]
pub(crate) fn parse_error_text(fault: &url::ParseError) -> (text: String) {
    fault.to_string()
}

/// Calls `url::Url::set_path` on the URL that `address` parses to, and
/// gives the serialization of the changed URL. The contract only names
/// the outcome. The lengths are bounded because `set_path` panics on a URL
/// that outgrows four gigabytes.
#[verifier::external_body]
pub(crate) fn replace_path(address: &str, path: &str) -> (out: Option<String>)
    requires
        address@.len() <= MAX_ADDRESS_LEN,
        path@.len() <= MAX_ADDRESS_LEN,
    ensures
        match out {
            Some(changed) => url_with_path(address@, path@) == Some(changed@),
            None => url_with_path(address@, path@) is None,
        },
{
    match url::Url::parse(address) {
        Ok(mut url) => {
            url.set_path(path);
            Some(String::from(url))
        },
        Err(_) => None,
    }
}

/// Calls `url::Url::path_segments_mut` on the URL that `address` parses
/// to and, where that yields the segments, `url::PathSegmentsMut::push`
/// with `segment`; gives the serialization of the changed URL. The
/// contract only names the outcome, and says that a failure is one of the
/// two that the body can report. The lengths are bounded because the URL
/// may not outgrow four gigabytes.
#[verifier::external_body]
pub(crate) fn push_segment(address: &str, segment: &str) -> (out: Result<String, UrlFault>)
    requires
        address@.len() <= MAX_ADDRESS_LEN,
        segment@.len() <= MAX_ADDRESS_LEN,
    ensures
        match out {
            Ok(changed) => url_with_segment(address@, segment@) == Ok::<Seq<char>, UrlFault>(
                changed@,
            ),
            Err(fault) => url_with_segment(address@, segment@) == Err::<Seq<char>, UrlFault>(
                fault,
            ) && fault != UrlFault::TooLong,
        },
{
    match url::Url::parse(address) {
        Ok(mut url) => {
            match url.path_segments_mut() {
                Ok(mut segments) => {
                    segments.push(segment);
                },
                Err(_) => return Err(UrlFault::CannotBeABase),
            }
            Ok(String::from(url))
        },
        Err(_) => Err(UrlFault::Unparsable),
    }
}

/// The sixteen hexadecimal digits, in lower case.
pub open spec fn hex_digits() -> Seq<char> {
    seq!['0', '1', '2', '3', '4', '5', '6', '7', '8', '9', 'a', 'b', 'c', 'd', 'e', 'f']
}

/// Which of the 32 hexadecimal digits of an identifier stands at position
/// `i` of its hyphenated form, counted from the most significant.
pub open spec fn digit_position(i: int) -> int {
    if i < 8 {
        i
    } else if i < 13 {
        i - 1
    } else if i < 18 {
        i - 2
    } else if i < 23 {
        i - 3
    } else {
        i - 4
    }
}

/// The hyphenated form of the identifier `id`: its 32 hexadecimal digits
/// in lower case, the most significant first, in groups of 8, 4, 4, 4 and
/// 12 with a hyphen between the groups.
pub open spec fn hyphenated_text(id: u128) -> Seq<char> {
    Seq::new(
        36,
        |i: int|
            if i == 8 || i == 13 || i == 18 || i == 23 {
                '-'
            } else {
                hex_digits()[(id as int / pow(16, (31 - digit_position(i)) as nat)) % 16]
            },
    )
}

/// Writes the identifier `id` as `uuid::Uuid` displays it: in the
/// hyphenated lower-case form.
#[verifier::external_body]
pub(crate) fn hyphenated(id: u128) -> (text: String)
    ensures
        text@ == hyphenated_text(id),
{
    uuid::Uuid::from_u128(id).to_string()
}

} // verus!
