//! Structured credentials: dot-separated texts whose second part holds,
//! in base64, a JSON object with the expiration under `exp`.

use vstd::prelude::*;
use vstd::string::StringSliceAdditionalSpecFns;
use vstd::utf8::{decode_utf8, encode_utf8_decode_utf8, valid_utf8};
use crate::failure::Failure;
use crate::outside::{
    as_u64, base64_decode, base64_decoded, json_document, json_member, json_u64, member_of,
    parse_json,
};
use crate::text::{nth_segment, segment_at};

verus! {

/// A structured credential.
#[derive(Clone, Debug, PartialEq, Eq)]
pub struct Jwt {
    pub token: String,
}

/// The part of a credential that holds its claims: the second of the
/// parts that the dots separate.
pub open spec fn payload_of(token: Seq<char>) -> Option<Seq<char>> {
    segment_at(token, '.', 1)
}

/// The `exp` claim of a credential: its payload, read as base64, then as
/// UTF-8, then as JSON, and of that document the unsigned integer under
/// `exp`. `None` as soon as one of the steps does not apply.
pub open spec fn exp_claim(token: Seq<char>) -> Option<u64> {
    match payload_of(token) {
        None => None,
        Some(payload) => match base64_decoded(payload) {
            None => None,
            Some(bytes) => if !valid_utf8(bytes) {
                None
            } else {
                match json_document(decode_utf8(bytes)) {
                    None => None,
                    Some(document) => json_u64(json_member(document, "exp"@)),
                }
            },
        },
    }
}

/// The instant, in seconds since the epoch, at which a credential expires.
/// A credential without a readable `exp` claim is malformed.
pub open spec fn expiry_of(token: Seq<char>) -> Result<u64, Failure> {
    match exp_claim(token) {
        Some(exp) => Ok(exp),
        None => Err(Failure::MalformedRecord),
    }
}

/// Decoding one credential twice gives one result: whatever two runs of
/// the decoder return for the same text is equal.
pub proof fn lemma_decode_is_repeatable(
    token: Seq<char>,
    first: Result<u64, Failure>,
    second: Result<u64, Failure>,
)
    requires
        first == expiry_of(token),
        second == expiry_of(token),
    ensures
        first == second,
{
}

/// Turns the claim that was read, or its absence, into the decoder's
/// result.
pub fn expiry_from_claim(claim: Option<u64>) -> (r: Result<u64, Failure>)
    ensures
        r == match claim {
            Some(exp) => Ok::<u64, Failure>(exp),
            None => Err::<u64, Failure>(Failure::MalformedRecord),
        },
{
    match claim {
        Some(exp) => Ok(exp),
        None => Err(Failure::MalformedRecord),
    }
}

impl Jwt {
    /// The part of this credential that holds its claims, if the
    /// credential has a dot.
    pub fn payload_segment(&self) -> (r: Option<&str>)
        ensures
            r is Some <==> payload_of(self.token@) is Some,
            r matches Some(payload) ==> payload_of(self.token@) == Some(payload@),
    {
        nth_segment(self.token.as_str(), '.', 1)
    }

    /// The instant at which this credential expires, read from its own
    /// `exp` claim.
    pub fn exp(&self) -> (r: Result<u64, Failure>)
        ensures
            r == expiry_of(self.token@),
    {
        let payload = match self.payload_segment() {
            Some(payload) => payload,
            None => {
                return Err(Failure::MalformedRecord);
            },
        };
        let bytes = match base64_decode(payload) {
            Ok(bytes) => bytes,
            Err(_) => {
                return Err(Failure::MalformedRecord);
            },
        };
        let text = match core::str::from_utf8(bytes.as_slice()) {
            Ok(text) => text,
            Err(_) => {
                return Err(Failure::MalformedRecord);
            },
        };
        proof {
            encode_utf8_decode_utf8(text@);
        }
        let document = match parse_json(text) {
            Ok(document) => document,
            Err(_) => {
                return Err(Failure::MalformedRecord);
            },
        };
        expiry_from_claim(as_u64(member_of(&document, "exp")))
    }
}

} // verus!
