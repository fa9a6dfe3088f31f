use tpcli::failure::Failure;
use tpcli::schedule::{instant_after, resolve_expiration};
use tpcli::time::UtcInstant;

fn at(secs: i64, nanos: u32) -> UtcInstant {
    UtcInstant::new(secs, nanos).unwrap()
}

#[test]
fn span_is_counted_from_now() {
    let now = at(1_700_000_000, 250_000_000);
    assert_eq!(resolve_expiration(Some("10m"), None, &now), Ok(Some(at(1_700_000_600, 250_000_000))));
    assert_eq!(
        resolve_expiration(Some("2h 37min"), None, &now),
        Ok(Some(at(1_700_009_420, 250_000_000)))
    );
    assert_eq!(
        resolve_expiration(Some("800ms"), None, &now),
        Ok(Some(at(1_700_000_001, 50_000_000)))
    );
    assert_eq!(resolve_expiration(Some("0"), None, &now), Ok(Some(now)));
}

#[test]
fn date_and_time_are_read_with_their_offset() {
    let now = at(0, 0);
    assert_eq!(
        resolve_expiration(None, Some("8/5/1994 8:00 AM +00:00"), &now),
        Ok(Some(at(776_073_600, 0)))
    );
    assert_eq!(
        resolve_expiration(None, Some("01/01/2030 00:00 AM +00:00"), &now),
        Ok(Some(at(1_893_456_000, 0)))
    );
    assert_eq!(
        resolve_expiration(None, Some("01/01/2030 14:30 PM +02:00"), &now),
        Ok(Some(at(1_893_501_000, 0)))
    );
}

#[test]
fn span_counts_before_date() {
    let now = at(100, 0);
    assert_eq!(
        resolve_expiration(Some("1s"), Some("8/5/1994 8:00 AM +00:00"), &now),
        Ok(Some(at(101, 0)))
    );
    assert_eq!(
        resolve_expiration(Some("soon"), Some("8/5/1994 8:00 AM +00:00"), &now),
        Err(Failure::ArgumentParseFailure)
    );
}

#[test]
fn nothing_given_means_no_expiration() {
    assert_eq!(resolve_expiration(None, None, &at(5, 5)), Ok(None));
}

#[test]
fn unreadable_arguments_are_refused() {
    let now = at(0, 0);
    for text in ["", "ten minutes", "10", "10 parsecs", "-5m"] {
        assert_eq!(resolve_expiration(Some(text), None, &now), Err(Failure::ArgumentParseFailure));
    }
    for text in ["", "tomorrow", "2030-01-01T00:00:00Z", "8/5/1994 8:00 AM", "13/45/2030 00:00 AM +00:00"]
    {
        assert_eq!(resolve_expiration(None, Some(text), &now), Err(Failure::ArgumentParseFailure));
    }
}

#[test]
fn expiration_beyond_the_year_9999_is_refused() {
    let now = at(1_700_000_000, 0);
    assert_eq!(resolve_expiration(Some("9000years"), None, &now), Err(Failure::ArgumentParseFailure));
    assert_eq!(instant_after(&at(253_402_300_799, 0), 1, 0), None);
    assert_eq!(instant_after(&at(253_402_300_799, 999_999_999), 0, 1), None);
    assert_eq!(instant_after(&now, u64::MAX, u32::MAX), None);
}

#[test]
fn nanoseconds_carry_into_seconds() {
    assert_eq!(instant_after(&at(10, 999_999_999), 0, 1), Some(at(11, 0)));
    assert_eq!(instant_after(&at(10, 999_999_999), 5, 999_999_999), Some(at(16, 999_999_998)));
    assert_eq!(instant_after(&at(10, 5), 0, 3_500_000_000), Some(at(13, 500_000_005)));
    assert_eq!(instant_after(&at(-10, 0), 4, 0), Some(at(-6, 0)));
    assert_eq!(
        instant_after(&at(253_402_300_798, 999_999_999), 0, 1_000_000_000),
        Some(at(253_402_300_799, 999_999_999))
    );
}

#[test]
fn span_of_more_than_eleven_digits_is_refused() {
    let now = at(0, 0);
    assert_eq!(resolve_expiration(Some("10000000000ns"), None, &now), Ok(Some(at(10, 0))));
    assert_eq!(
        resolve_expiration(Some("100000000000ns"), None, &now),
        Err(Failure::ArgumentParseFailure)
    );
    assert_eq!(resolve_expiration(Some("1h 2m 3s 4ms 5us 6ns"), None, &now), Ok(Some(at(3723, 4_005_006))));
    assert_eq!(
        resolve_expiration(Some("18446744073709551615s 1000000000ns"), None, &now),
        Err(Failure::ArgumentParseFailure)
    );
}
