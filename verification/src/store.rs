//! The key-value log store that a browser keeps for a site: which of its
//! records hold credentials, and how each is framed.
//!
//! Reading the store and decoding a framed payload happen outside; this
//! module decides which records count and what is handed on.

use vstd::prelude::*;
use vstd::slice::{slice_subrange, slice_to_vec};
use vstd::string::StringSliceAdditionalSpecFns;
use vstd::utf8::{decode_utf8, encode_utf8_decode_utf8, valid_utf8};
use crate::failure::Failure;
use crate::text::{chars_of, ends_with, has_suffix};
use crate::token::{freshest_live, expiries_of, select, TokenRecord};

verus! {

/// A key of the store: the bytes as they stand in the log.
#[derive(Debug, PartialEq)]
pub struct BytesKey {
    key: Vec<u8>,
}

impl View for BytesKey {
    type V = Seq<u8>;

    closed spec fn view(&self) -> Seq<u8> {
        self.key@
    }
}

impl BytesKey {
    /// The key that holds a copy of `key`.
    pub fn from_u8(key: &[u8]) -> (r: Self)
        ensures
            r@ == key@,
    {
        Self { key: slice_to_vec(key) }
    }

    /// Hands the bytes of the key to `f` and returns what `f` makes of
    /// them.
    pub fn as_slice<T, F: Fn(&[u8]) -> T>(&self, f: F) -> (r: T)
        requires
            forall|bytes: &[u8]| bytes@ == self@ ==> call_requires(f, (bytes,)),
        ensures
            exists|bytes: &[u8]| bytes@ == self@ && call_ensures(f, (bytes,), r),
    {
        f(self.key.as_slice())
    }

    /// A copy of the bytes of the key.
    pub fn to_vec(&self) -> (r: Vec<u8>)
        ensures
            r@ == self@,
    {
        slice_to_vec(self.key.as_slice())
    }
}

/// One live record of the store.
#[derive(Debug, PartialEq)]
pub struct StoreRecord {
    pub key: BytesKey,
    pub value: Vec<u8>,
}

/// The two families of records that hold a credential.
#[derive(Clone, Copy, Debug, PartialEq, Eq, Structural)]
pub enum TokenFamily {
    Skype,
    Presence,
}

/// The end of every key of the skype family.
pub open spec fn skype_key_suffix() -> Seq<char> {
    "auth.skype.token"@
}

/// The end of every key of the presence family.
pub open spec fn presence_key_suffix() -> Seq<char> {
    ".cache.token.https://presence.teams.microsoft.com/"@
}

/// The text of a key: its characters where the bytes are UTF-8, and the
/// empty text where they are not.
pub open spec fn key_text(key: Seq<u8>) -> Seq<char> {
    if valid_utf8(key) {
        decode_utf8(key)
    } else {
        Seq::empty()
    }
}

/// The family that a key belongs to, by the end of its text.
pub open spec fn family_of(key: Seq<u8>) -> Option<TokenFamily> {
    if ends_with(key_text(key), skype_key_suffix()) {
        Some(TokenFamily::Skype)
    } else if ends_with(key_text(key), presence_key_suffix()) {
        Some(TokenFamily::Presence)
    } else {
        None
    }
}

/// The payload of a stored value: what follows the type tag that is its
/// first byte.
pub open spec fn payload_of(value: Seq<u8>) -> Seq<u8> {
    value.skip(1)
}

/// A record that belongs to a family but has no room for the type tag.
pub open spec fn is_unframed(record: StoreRecord) -> bool {
    family_of(record.key@) is Some && record.value@.len() == 0
}

/// The test that keeps the records of `family`.
pub open spec fn in_family(family: TokenFamily) -> spec_fn(StoreRecord) -> bool {
    |record: StoreRecord| family_of(record.key@) == Some(family)
}

/// The payloads of the records of `family`, in the order of the records.
pub open spec fn payloads_of(records: Seq<StoreRecord>, family: TokenFamily) -> Seq<Seq<u8>> {
    records.filter(in_family(family)).map_values(|record: StoreRecord| payload_of(record.value@))
}

/// The contents of a list of byte strings.
pub open spec fn contents_of(list: Seq<Vec<u8>>) -> Seq<Seq<u8>> {
    list.map_values(|bytes: Vec<u8>| bytes@)
}

/// How the payloads of a family grow with one more record.
pub proof fn lemma_payloads_step(records: Seq<StoreRecord>, family: TokenFamily)
    requires
        records.len() > 0,
    ensures
        payloads_of(records, family) == if family_of(records.last().key@) == Some(family) {
            payloads_of(records.drop_last(), family).push(payload_of(records.last().value@))
        } else {
            payloads_of(records.drop_last(), family)
        },
{
    reveal(Seq::filter);
    if in_family(family)(records.last()) {
        assert(payloads_of(records, family) =~= payloads_of(records.drop_last(), family).push(
            payload_of(records.last().value@),
        ));
    }
}

/// The payloads of a scan, one list for each family.
#[derive(Debug, PartialEq)]
pub struct FramedRecords {
    pub skype: Vec<Vec<u8>>,
    pub presence: Vec<Vec<u8>>,
}

/// The freshest valid credential of each family, where there is one.
#[derive(Debug, PartialEq)]
pub struct StoreTokens {
    pub presence: Option<TokenRecord>,
    pub skype: Option<TokenRecord>,
}

/// Tells which family the record under `key` belongs to, if any.
pub fn record_family(key: &BytesKey) -> (r: Option<TokenFamily>)
    ensures
        r == family_of(key@),
{
    let text: Vec<char> = match core::str::from_utf8(key.key.as_slice()) {
        Ok(s) => {
            proof {
                encode_utf8_decode_utf8(s@);
            }
            chars_of(s)
        },
        Err(_) => Vec::new(),
    };
    if has_suffix(&text, &chars_of("auth.skype.token")) {
        Some(TokenFamily::Skype)
    } else if has_suffix(&text, &chars_of(".cache.token.https://presence.teams.microsoft.com/")) {
        Some(TokenFamily::Presence)
    } else {
        None
    }
}

/// Strips the type tag from a stored value. A value without a first byte
/// cannot be decoded.
pub fn record_payload(value: &Vec<u8>) -> (r: Result<Vec<u8>, Failure>)
    ensures
        match r {
            Ok(payload) => value@.len() > 0 && payload@ == payload_of(value@),
            Err(e) => value@.len() == 0 && e == Failure::MalformedRecord,
        },
{
    if value.len() == 0 {
        Err(Failure::MalformedRecord)
    } else {
        Ok(slice_to_vec(slice_subrange(value.as_slice(), 1, value.len())))
    }
}

/// Goes through every record of a scan and collects, for each family, the
/// payloads of its records in the order of the scan. A record of a family
/// that cannot be framed fails the whole scan.
pub fn frame_records(records: &Vec<StoreRecord>) -> (r: Result<FramedRecords, Failure>)
    ensures
        match r {
            Ok(framed) => {
                &&& forall|i: int| 0 <= i < records@.len() ==> !is_unframed(#[trigger] records@[i])
                &&& contents_of(framed.skype@) == payloads_of(records@, TokenFamily::Skype)
                &&& contents_of(framed.presence@) == payloads_of(records@, TokenFamily::Presence)
            },
            Err(e) => {
                &&& e == Failure::MalformedRecord
                &&& exists|i: int| 0 <= i < records@.len() && is_unframed(#[trigger] records@[i])
            },
        },
{
    let mut skype: Vec<Vec<u8>> = Vec::new();
    let mut presence: Vec<Vec<u8>> = Vec::new();
    let mut i: usize = 0;
    proof {
        reveal(Seq::filter);
    }
    while i < records.len()
        invariant
            i <= records.len(),
            forall|k: int| 0 <= k < i ==> !is_unframed(#[trigger] records@[k]),
            contents_of(skype@) == payloads_of(records@.take(i as int), TokenFamily::Skype),
            contents_of(presence@) == payloads_of(records@.take(i as int), TokenFamily::Presence),
        decreases records.len() - i,
    {
        let record = &records[i];
        let family = record_family(&record.key);
        let ghost upto = records@.take(i + 1);
        proof {
            assert(upto.drop_last() == records@.take(i as int));
            lemma_payloads_step(upto, TokenFamily::Skype);
            lemma_payloads_step(upto, TokenFamily::Presence);
        }
        match family {
            Some(TokenFamily::Skype) => match record_payload(&record.value) {
                Ok(payload) => skype.push(payload),
                Err(e) => {
                    return Err(e);
                },
            },
            Some(TokenFamily::Presence) => match record_payload(&record.value) {
                Ok(payload) => presence.push(payload),
                Err(e) => {
                    return Err(e);
                },
            },
            None => {},
        }
        i = i + 1;
    }
    assert(records@.take(i as int) == records@);
    Ok(FramedRecords { skype, presence })
}

/// Ends a scan: of the decoded records of each family, the one that is
/// still valid at `now` and expires last.
pub fn select_store_tokens(presence: Vec<TokenRecord>, skype: Vec<TokenRecord>, now: u64) -> (r:
    StoreTokens)
    ensures
        match freshest_live(expiries_of(presence@), now) {
            Some(i) => 0 <= i < presence@.len() && r.presence == Some(presence@[i]),
            None => r.presence is None,
        },
        match freshest_live(expiries_of(skype@), now) {
            Some(i) => 0 <= i < skype@.len() && r.skype == Some(skype@[i]),
            None => r.skype is None,
        },
{
    let presence_pick = match select(presence, now) {
        Ok(t) => Some(t),
        Err(_) => None,
    };
    let skype_pick = match select(skype, now) {
        Ok(t) => Some(t),
        Err(_) => None,
    };
    StoreTokens { presence: presence_pick, skype: skype_pick }
}

} // verus!
