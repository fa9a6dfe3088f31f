//! Until when a presence is to show: the expiration that the user gave as
//! a span of time from now or as a date and time.

use vstd::prelude::*;
use crate::failure::Failure;
use crate::outside::{
    duration_read, in_four_digit_years, parse_duration, parse_timestamp, timestamp_read,
};
use crate::text::{count_digits, digits_in, text_of};
use crate::time::UtcInstant;

verus! {

/// The pattern of a date and time on the command line: month, day and
/// year, hour and minute, the half of the day, and the offset from
/// universal time.
pub open spec fn at_pattern() -> Seq<char> {
    "%m/%d/%Y %H:%M %p %:z"@
}

/// The instant `secs` seconds and `nanos` nanoseconds after `now`, as
/// seconds since the epoch and nanoseconds within the second.
pub open spec fn after(now: UtcInstant, secs: u64, nanos: u32) -> (int, int) {
    let beyond = now.nanos() + nanos;
    (now.secs() + secs + beyond / 1_000_000_000, beyond % 1_000_000_000)
}

/// Whether `r` is the instant with the parts `parts`, or nothing where
/// the parts lie outside the years 0000 to 9999.
pub open spec fn is_instant_of(r: Option<UtcInstant>, parts: (int, int)) -> bool {
    match r {
        Some(t) => in_four_digit_years(parts.0, parts.1) && t.secs() == parts.0 && t.nanos()
            == parts.1,
        None => !in_four_digit_years(parts.0, parts.1),
    }
}

/// The most digits that a span of time may be written with.
pub open spec fn span_digits() -> nat {
    11
}

/// The expiration that the command line asks for: a span from `now` where
/// one is given, else a date and time where one is given, else none.
/// `Err` where what is given cannot be read, where a span is written with
/// more digits than `span_digits`, and where the instant lies outside the
/// years 0000 to 9999.
pub open spec fn expiration_asked(
    span: Option<Seq<char>>,
    date: Option<Seq<char>>,
    now: UtcInstant,
) -> Result<Option<(int, int)>, Failure> {
    match span {
        Some(text) => if digits_in(text) > span_digits() {
            Err(Failure::ArgumentParseFailure)
        } else {
            match duration_read(text) {
                Some(d) => if in_four_digit_years(after(now, d.0, d.1).0, after(now, d.0, d.1).1) {
                    Ok(Some(after(now, d.0, d.1)))
                } else {
                    Err(Failure::ArgumentParseFailure)
                },
                None => Err(Failure::ArgumentParseFailure),
            }
        },
        None => match date {
            Some(text) => match timestamp_read(text, at_pattern()) {
                Some(t) => if in_four_digit_years(t.0 as int, t.1 as int) {
                    Ok(Some((t.0 as int, t.1 as int)))
                } else {
                    Err(Failure::ArgumentParseFailure)
                },
                None => Err(Failure::ArgumentParseFailure),
            },
            None => Ok(None),
        },
    }
}

/// The instant a span of time after `now`, where it lies in the years
/// 0000 to 9999.
pub fn instant_after(now: &UtcInstant, secs: u64, nanos: u32) -> (r: Option<UtcInstant>)
    ensures
        is_instant_of(r, after(*now, secs, nanos)),
{
    let beyond: u64 = now.subsec_nanos() as u64 + nanos as u64;
    let carry: u64 = beyond / 1_000_000_000;
    let rest: u64 = beyond % 1_000_000_000;
    let whole: i128 = now.timestamp() as i128 + secs as i128 + carry as i128;
    if whole > 253_402_300_799 {
        None
    } else {
        UtcInstant::new(whole as i64, rest as u32)
    }
}

/// Reads the expiration that the command line asks for. `span` is the
/// argument that gives a span of time from `now`, `date` the one that
/// gives a date and time; the span counts where both are given.
pub fn resolve_expiration(span: Option<&str>, date: Option<&str>, now: &UtcInstant) -> (r: Result<
    Option<UtcInstant>,
    Failure,
>)
    ensures
        match expiration_asked(text_of(span), text_of(date), *now) {
            Ok(Some(parts)) => {
                &&& r matches Ok(Some(t))
                &&& t.secs() == parts.0
                &&& t.nanos() == parts.1
            },
            Ok(None) => r == Ok::<Option<UtcInstant>, Failure>(None),
            Err(e) => r == Err::<Option<UtcInstant>, Failure>(e),
        },
{
    match span {
        Some(text) => if count_digits(text) > 11 {
            Err(Failure::ArgumentParseFailure)
        } else {
            match parse_duration(text) {
                Ok(d) => match instant_after(now, d.0, d.1) {
                    Some(t) => Ok(Some(t)),
                    None => Err(Failure::ArgumentParseFailure),
                },
                Err(_) => Err(Failure::ArgumentParseFailure),
            }
        },
        None => match date {
            Some(text) => match parse_timestamp(text, "%m/%d/%Y %H:%M %p %:z") {
                Ok(t) => match UtcInstant::new(t.0, t.1) {
                    Some(t) => Ok(Some(t)),
                    None => Err(Failure::ArgumentParseFailure),
                },
                Err(_) => Err(Failure::ArgumentParseFailure),
            },
            None => Ok(None),
        },
    }
}

} // verus!
