//! Instants of universal time, as far as a timestamp of four-digit years
//! can name them, and their text on the wire.

use vstd::prelude::*;
use crate::outside::{in_four_digit_years, rfc3339_millis, rfc3339_millis_text};

verus! {

/// The expiry that a message carries when the user gave none.
pub open spec fn far_future() -> Seq<char> {
    "9999-12-31T05:00:00.000Z"@
}

/// An instant between the years 0000 and 9999 of universal time.
#[derive(Clone, Copy, Debug, PartialEq, Eq)]
pub struct UtcInstant {
    secs: i64,
    nanos: u32,
}

impl UtcInstant {
    #[verifier::type_invariant]
    spec fn in_range(self) -> bool {
        in_four_digit_years(self.secs as int, self.nanos as int)
    }

    /// Whole seconds since 1970-01-01T00:00:00Z; negative before it.
    pub closed spec fn secs(self) -> int {
        self.secs as int
    }

    /// Nanoseconds since the last whole second.
    pub closed spec fn nanos(self) -> int {
        self.nanos as int
    }

    /// This instant as the service reads it: `YYYY-MM-DDTHH:MM:SS.mmmZ`,
    /// with what is finer than a millisecond cut off.
    pub open spec fn rfc3339(self) -> Seq<char> {
        rfc3339_millis_text(self.secs(), self.nanos())
    }

    /// The instant `secs` seconds and `nanos` nanoseconds after
    /// 1970-01-01T00:00:00Z, where that lies in the years 0000 to 9999 and
    /// `nanos` is less than a second.
    pub fn new(secs: i64, nanos: u32) -> (r: Option<UtcInstant>)
        ensures
            match r {
                Some(t) => in_four_digit_years(secs as int, nanos as int) && t.secs() == secs
                    && t.nanos() == nanos,
                None => !in_four_digit_years(secs as int, nanos as int),
            },
    {
        if -62_167_219_200 <= secs && secs <= 253_402_300_799 && nanos < 1_000_000_000 {
            Some(UtcInstant { secs, nanos })
        } else {
            None
        }
    }

    /// Whole seconds since 1970-01-01T00:00:00Z.
    pub fn timestamp(&self) -> (r: i64)
        ensures
            r == self.secs(),
            in_four_digit_years(self.secs(), self.nanos()),
    {
        proof {
            use_type_invariant(self);
        }
        self.secs
    }

    /// Nanoseconds since the last whole second.
    pub fn subsec_nanos(&self) -> (r: u32)
        ensures
            r == self.nanos(),
            in_four_digit_years(self.secs(), self.nanos()),
    {
        proof {
            use_type_invariant(self);
        }
        self.nanos
    }

    /// Writes this instant as the service reads it.
    pub fn to_rfc3339(&self) -> (r: String)
        ensures
            r@ == self.rfc3339(),
    {
        proof {
            use_type_invariant(self);
        }
        rfc3339_millis(self.secs, self.nanos)
    }
}

} // verus!
