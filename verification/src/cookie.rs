//! The cookie database of the desktop client: which cookie holds the
//! credential, and how the credential is taken out of the cookie's value.

use vstd::prelude::*;
use crate::failure::Failure;
use crate::jwt::{exp_claim, Jwt};
use crate::outside::{percent_decode, percent_decoded};
use crate::text::{after_last, last_segment, nth_segment, segment_at};
use crate::token::{expiries_of, freshest_live, select, SourceKind, TokenRecord};

verus! {

/// The two cookies that can hold a credential.
#[derive(Clone, Copy, Debug, PartialEq, Eq, Structural)]
pub enum CookieVariant {
    /// `skypetoken_asm`, whose value is the credential itself.
    SessionToken,
    /// `authtoken`, whose value is a percent-encoded list of pairs, the
    /// first of which holds the credential.
    AuthToken,
}

impl CookieVariant {
    /// The name of the cookie.
    pub open spec fn name(self) -> Seq<char> {
        match self {
            CookieVariant::SessionToken => "skypetoken_asm"@,
            CookieVariant::AuthToken => "authtoken"@,
        }
    }

    /// The kind of source that a credential of this cookie comes from.
    pub open spec fn source(self) -> SourceKind {
        match self {
            CookieVariant::SessionToken => SourceKind::AppCookie,
            CookieVariant::AuthToken => SourceKind::AuthCookie,
        }
    }

    /// The name of the cookie.
    pub fn cookie_name(&self) -> (r: &'static str)
        ensures
            r@ == self.name(),
    {
        match self {
            CookieVariant::SessionToken => "skypetoken_asm",
            CookieVariant::AuthToken => "authtoken",
        }
    }

    /// The kind of source that a credential of this cookie comes from.
    pub fn source_kind(&self) -> (r: SourceKind)
        ensures
            r == self.source(),
    {
        match self {
            CookieVariant::SessionToken => SourceKind::AppCookie,
            CookieVariant::AuthToken => SourceKind::AuthCookie,
        }
    }

    /// The query that reads the values of the cookie from the database.
    pub fn query(&self) -> (r: String)
        ensures
            r@ == "select value from cookies where name = '"@ + self.name() + "'"@,
    {
        let mut text = "select value from cookies where name = '".to_owned();
        text.append(self.cookie_name());
        text.append("'");
        text
    }
}

/// The credential in a decoded list of pairs: of the first pair, what
/// follows its last `=`, and all of it where it has none.
pub open spec fn bearer_of(decoded: Seq<char>) -> Seq<char> {
    after_last(segment_at(decoded, '&', 0)->0, '=')
}

/// The credential that a cookie value holds. A value of the second
/// variant that cannot be percent-decoded, or that decodes to nothing,
/// holds none.
pub open spec fn credential_of(variant: CookieVariant, raw: Seq<char>) -> Option<Seq<char>> {
    match variant {
        CookieVariant::SessionToken => Some(raw),
        CookieVariant::AuthToken => match percent_decoded(raw) {
            None => None,
            Some(decoded) => if decoded.len() == 0 {
                None
            } else {
                Some(bearer_of(decoded))
            },
        },
    }
}

/// The credential of a cookie value together with its expiration, where
/// both can be read.
pub open spec fn record_of(variant: CookieVariant, raw: Seq<char>) -> Option<(Seq<char>, u64)> {
    match credential_of(variant, raw) {
        None => None,
        Some(credential) => match exp_claim(credential) {
            None => None,
            Some(exp) => Some((credential, exp)),
        },
    }
}

/// Whether `record` is what the cookie value `raw` stands for.
pub open spec fn is_record_of(record: TokenRecord, variant: CookieVariant, raw: Seq<char>) -> bool {
    &&& record_of(variant, raw) matches Some((credential, exp))
    &&& record.value@ == credential
    &&& record.expires_at == exp
    &&& record.source_kind == variant.source()
}

/// The expiration that a cookie value holds; zero, which is never in the
/// future, where it holds none.
pub open spec fn expiry_in(variant: CookieVariant, raw: Seq<char>) -> u64 {
    match record_of(variant, raw) {
        Some(pair) => pair.1,
        None => 0,
    }
}

/// The expirations that the cookie values hold, in order.
pub open spec fn cookie_expiries(variant: CookieVariant, raws: Seq<String>) -> Seq<u64> {
    Seq::new(raws.len(), |i: int| expiry_in(variant, raws[i]@))
}

/// Takes the credential out of a decoded list of pairs.
pub fn bearer_credential(decoded: &str) -> (r: Result<String, Failure>)
    ensures
        match r {
            Ok(credential) => decoded@.len() > 0 && credential@ == bearer_of(decoded@),
            Err(e) => decoded@.len() == 0 && e == Failure::MalformedRecord,
        },
{
    if decoded.unicode_len() == 0 {
        return Err(Failure::MalformedRecord);
    }
    match nth_segment(decoded, '&', 0) {
        Some(pair) => Ok(last_segment(pair, '=').to_owned()),
        None => Err(Failure::MalformedRecord),
    }
}

/// Takes the credential out of a cookie value.
pub fn cookie_credential(variant: CookieVariant, raw: &str) -> (r: Result<String, Failure>)
    ensures
        match credential_of(variant, raw@) {
            Some(credential) => {
                &&& r matches Ok(text)
                &&& text@ == credential
            },
            None => r == Err::<String, Failure>(Failure::MalformedRecord),
        },
{
    match variant {
        CookieVariant::SessionToken => Ok(raw.to_owned()),
        CookieVariant::AuthToken => match percent_decode(raw) {
            Ok(decoded) => bearer_credential(decoded.as_str()),
            Err(_) => Err(Failure::MalformedRecord),
        },
    }
}

/// Reads one cookie value: its credential, and the expiration that the
/// credential itself states.
pub fn cookie_record(variant: CookieVariant, raw: &str) -> (r: Result<TokenRecord, Failure>)
    ensures
        match r {
            Ok(record) => is_record_of(record, variant, raw@),
            Err(e) => record_of(variant, raw@) is None && e == Failure::MalformedRecord,
        },
{
    let credential = match cookie_credential(variant, raw) {
        Ok(credential) => credential,
        Err(e) => {
            return Err(e);
        },
    };
    let jwt = Jwt { token: credential };
    match jwt.exp() {
        Ok(exp) => Ok(
            TokenRecord { value: jwt.token, expires_at: exp, source_kind: variant.source_kind() },
        ),
        Err(e) => Err(e),
    }
}

/// Reads every cookie value of a query. One value that cannot be read
/// fails them all: a malformed credential is never passed over.
pub fn cookie_records(variant: CookieVariant, raws: &Vec<String>) -> (r: Result<
    Vec<TokenRecord>,
    Failure,
>)
    ensures
        match r {
            Ok(records) => {
                &&& records@.len() == raws@.len()
                &&& forall|i: int|
                    0 <= i < raws@.len() ==> is_record_of(
                        #[trigger] records@[i],
                        variant,
                        raws@[i]@,
                    )
            },
            Err(e) => {
                &&& e == Failure::MalformedRecord
                &&& exists|i: int|
                    0 <= i < raws@.len() && record_of(variant, (#[trigger] raws@[i])@) is None
            },
        },
{
    let mut records: Vec<TokenRecord> = Vec::new();
    let mut i: usize = 0;
    while i < raws.len()
        invariant
            i <= raws.len(),
            records@.len() == i,
            forall|k: int| 0 <= k < i ==> is_record_of(#[trigger] records@[k], variant, raws@[k]@),
        decreases raws.len() - i,
    {
        match cookie_record(variant, raws[i].as_str()) {
            Ok(record) => {
                records.push(record);
            },
            Err(e) => {
                return Err(e);
            },
        }
        i = i + 1;
    }
    Ok(records)
}

/// Chooses the credential to use at `now` among the values that a cookie
/// query returned. Fails with `MalformedRecord` when one of the values
/// cannot be read, and with `NoValidToken` when all can be read and none is
/// still valid, which is so when there is no value at all.
pub fn select_cookie_token(variant: CookieVariant, raws: &Vec<String>, now: u64) -> (r: Result<
    TokenRecord,
    Failure,
>)
    ensures
        (exists|i: int| 0 <= i < raws@.len() && record_of(variant, (#[trigger] raws@[i])@) is None)
            ==> r == Err::<TokenRecord, Failure>(Failure::MalformedRecord),
        (forall|i: int| 0 <= i < raws@.len() ==> record_of(variant, (#[trigger] raws@[i])@) is Some)
            ==> match freshest_live(cookie_expiries(variant, raws@), now) {
            Some(i) => {
                &&& 0 <= i < raws@.len()
                &&& r matches Ok(record)
                &&& is_record_of(record, variant, raws@[i]@)
            },
            None => r == Err::<TokenRecord, Failure>(Failure::NoValidToken),
        },
{
    match cookie_records(variant, raws) {
        Ok(records) => {
            assert forall|i: int| 0 <= i < raws@.len() implies record_of(
                variant,
                (#[trigger] raws@[i])@,
            ) is Some by {
                assert(is_record_of(records@[i], variant, raws@[i]@));
            }
            assert(expiries_of(records@) =~= cookie_expiries(variant, raws@));
            select(records, now)
        },
        Err(e) => Err(e),
    }
}

} // verus!
