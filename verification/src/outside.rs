//! The calls this crate makes into other crates and into parts of the
//! standard library that carry no specification. Each stands behind a
//! contract that is taken on trust: nothing here is proved.

use vstd::prelude::*;
use vstd::utf8::valid_utf8;
use vstd::string::StringSliceAdditionalSpecFns;
use crate::text::digits_in;

verus! {

/// Why `core::str::from_utf8` refused some bytes.
#[verifier::external_type_specification]
#[verifier::external_body]
pub struct ExUtf8Error(core::str::Utf8Error);

/// Why `urlencoding::decode` refused a text.
#[verifier::external_type_specification]
#[verifier::external_body]
pub struct ExFromUtf8Error(std::string::FromUtf8Error);

/// Why `base64::decode` refused a text.
#[verifier::external_type_specification]
#[verifier::external_body]
pub struct ExBase64DecodeError(base64::DecodeError);

/// Why `humantime::parse_duration` refused a text.
#[verifier::external_type_specification]
#[verifier::external_body]
pub struct ExDurationError(humantime::DurationError);

/// Why `chrono::DateTime::parse_from_str` refused a text.
#[verifier::external_type_specification]
#[verifier::external_body]
pub struct ExTimestampParseError(chrono::ParseError);

/// A JSON value as `serde_json` holds it. Nothing of its inside is
/// known here; it is read through the wrappers below.
#[verifier::external_type_specification]
#[verifier::external_body]
pub struct ExJsonValue(serde_json::Value);

/// Why `serde_json` refused a text.
#[verifier::external_type_specification]
#[verifier::external_body]
pub struct ExJsonError(serde_json::Error);

/// `core::str::from_utf8` succeeds exactly on well-formed UTF-8 and then
/// hands back the same bytes as a string slice.
pub assume_specification[ core::str::from_utf8 ](v: &[u8]) -> (r: Result<&str, core::str::Utf8Error>)
    ensures
        r is Ok <==> valid_utf8(v@),
        r matches Ok(s) ==> s.spec_bytes() == v@,
;

/// The bytes that `base64::decode` reads from `input` with the standard
/// alphabet, if it accepts the input.
pub uninterp spec fn base64_decoded(input: Seq<char>) -> Option<Seq<u8>>;

/// `base64::decode`: what it returns depends on the input text alone.
#[verifier::external_body]
pub(crate) fn base64_decode(input: &str) -> (r: Result<Vec<u8>, base64::DecodeError>)
    ensures
        r is Ok <==> base64_decoded(input@) is Some,
        r matches Ok(bytes) ==> base64_decoded(input@) == Some(bytes@),
{
    base64::decode(input)
}

/// The text that `urlencoding::decode` makes of `text` by resolving its
/// percent escapes, if the resolved bytes are UTF-8.
pub uninterp spec fn percent_decoded(text: Seq<char>) -> Option<Seq<char>>;

/// `urlencoding::decode`: what it returns depends on the input text alone.
#[verifier::external_body]
pub(crate) fn percent_decode(text: &str) -> (r: Result<String, std::string::FromUtf8Error>)
    ensures
        r is Ok <==> percent_decoded(text@) is Some,
        r matches Ok(decoded) ==> percent_decoded(text@) == Some(decoded@),
{
    urlencoding::decode(text).map(|decoded| decoded.into_owned())
}

/// The document that `serde_json::from_str` reads from `text`, if `text`
/// is one JSON document.
pub uninterp spec fn json_document(text: Seq<char>) -> Option<serde_json::Value>;

/// `serde_json::from_str` at `serde_json::Value`: what it returns depends
/// on the text alone.
#[verifier::external_body]
pub(crate) fn parse_json(text: &str) -> (r: Result<serde_json::Value, serde_json::Error>)
    ensures
        r is Ok <==> json_document(text@) is Some,
        r matches Ok(document) ==> json_document(text@) == Some(document),
{
    serde_json::from_str::<serde_json::Value>(text)
}

/// What indexing `value` by the string `name` gives: the member of that
/// name where `value` is an object that has one, and null otherwise.
pub uninterp spec fn json_member(value: serde_json::Value, name: Seq<char>) -> serde_json::Value;

/// Indexing a `serde_json::Value` by a string, which never fails.
#[verifier::external_body]
pub(crate) fn member_of<'a>(value: &'a serde_json::Value, name: &str) -> (r: &'a serde_json::Value)
    ensures
        *r == json_member(*value, name@),
{
    &value[name]
}

/// What `serde_json::Value::as_u64` gives for `value`: the number it holds,
/// if it holds an integer that fits 64 unsigned bits.
pub uninterp spec fn json_u64(value: serde_json::Value) -> Option<u64>;

/// `serde_json::Value::as_u64`.
#[verifier::external_body]
pub(crate) fn as_u64(value: &serde_json::Value) -> (r: Option<u64>)
    ensures
        r == json_u64(*value),
{
    value.as_u64()
}

/// The JSON string literal, quotes included, that `serde_json::to_string`
/// writes for the text `s`.
pub uninterp spec fn json_string_text(s: Seq<char>) -> Seq<char>;

/// `serde_json::to_string` at `str`. Writing a string into memory cannot
/// fail, so the result is always `Ok`.
#[verifier::external_body]
pub(crate) fn json_string(s: &str) -> (r: Result<String, serde_json::Error>)
    ensures
        r is Ok,
        r matches Ok(text) ==> text@ == json_string_text(s@),
{
    serde_json::to_string(s)
}

/// Whether an instant, given as seconds since 1970-01-01T00:00:00Z and
/// nanoseconds within the second, lies in the years 0000 to 9999, which
/// are the years a four-digit timestamp can name.
pub open spec fn in_four_digit_years(secs: int, nanos: int) -> bool {
    -62_167_219_200 <= secs <= 253_402_300_799 && 0 <= nanos < 1_000_000_000
}

/// The text that `chrono` writes for the UTC instant `secs`, `nanos` in
/// the form `YYYY-MM-DDTHH:MM:SS.mmmZ`.
pub uninterp spec fn rfc3339_millis_text(secs: int, nanos: int) -> Seq<char>;

/// `chrono::DateTime::<Utc>::from_timestamp` followed by
/// `to_rfc3339_opts(SecondsFormat::Millis, true)`. Every instant that
/// `requires` admits is one that `chrono` can hold.
#[verifier::external_body]
pub(crate) fn rfc3339_millis(secs: i64, nanos: u32) -> (r: String)
    requires
        in_four_digit_years(secs as int, nanos as int),
    ensures
        r@ == rfc3339_millis_text(secs as int, nanos as int),
{
    chrono::DateTime::<chrono::Utc>::from_timestamp(secs, nanos)
        .unwrap_or_default()
        .to_rfc3339_opts(chrono::SecondsFormat::Millis, true)
}

/// The span of time that `humantime::parse_duration` reads from `text`,
/// in whole seconds and nanoseconds, if it reads one.
pub uninterp spec fn duration_read(text: Seq<char>) -> Option<(u64, u32)>;

/// `humantime::parse_duration`: what it returns depends on the text
/// alone. The span is handed on as its whole seconds and the nanoseconds
/// beyond them. The parser sums what it reads in a `Duration`, whose
/// constructor panics when a carry of nanoseconds overflows the seconds.
/// The largest unit is a year of 31 557 600 seconds, so a text of at most
/// eleven digits sums to less than 3.2e18 seconds, far below `u64::MAX`.
#[verifier::external_body]
pub(crate) fn parse_duration(text: &str) -> (r: Result<(u64, u32), humantime::DurationError>)
    requires
        digits_in(text@) <= 11,
    ensures
        r is Ok <==> duration_read(text@) is Some,
        r matches Ok(span) ==> duration_read(text@) == Some(span),
{
    humantime::parse_duration(text).map(|span| (span.as_secs(), span.subsec_nanos()))
}

/// The instant that `chrono::DateTime::parse_from_str` reads from `text`
/// by the pattern `format`, in seconds since 1970-01-01T00:00:00Z and
/// nanoseconds, if it reads one.
pub uninterp spec fn timestamp_read(text: Seq<char>, format: Seq<char>) -> Option<(i64, u32)>;

/// `chrono::DateTime::parse_from_str`: what it returns depends on the text
/// and the pattern alone. The instant is handed on as its seconds since
/// the epoch and the nanoseconds beyond them.
#[verifier::external_body]
pub(crate) fn parse_timestamp(text: &str, format: &str) -> (r: Result<
    (i64, u32),
    chrono::ParseError,
>)
    ensures
        r is Ok <==> timestamp_read(text@, format@) is Some,
        r matches Ok(instant) ==> timestamp_read(text@, format@) == Some(instant),
{
    chrono::DateTime::parse_from_str(text, format).map(
        |instant| (instant.timestamp(), instant.timestamp_subsec_nanos()),
    )
}

} // verus!
