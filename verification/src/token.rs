//! Credentials with their expiration, and the choice of the freshest one.

use vstd::prelude::*;
use crate::failure::Failure;

verus! {

/// The place a credential was read from.
#[derive(Clone, Copy, Debug, PartialEq, Eq, Structural)]
pub enum SourceKind {
    /// The presence family of the browser's key-value store.
    PresenceCache,
    /// The skype family of the browser's key-value store.
    SkypeCache,
    /// The session cookie of the desktop client.
    AppCookie,
    /// The authentication cookie of the desktop client.
    AuthCookie,
}

/// A credential and the instant, in seconds since the epoch, at which it
/// stops being valid. The instant always comes out of the credential's own
/// data, never from the store that held it.
#[derive(Clone, Debug, PartialEq, Eq)]
pub struct TokenRecord {
    pub value: String,
    pub expires_at: u64,
    pub source_kind: SourceKind,
}

/// A stored value of the presence family, as the browser wrote it.
#[derive(Clone, Debug, PartialEq, Eq)]
pub struct PresenceToken {
    pub token: String,
    pub expiration: u64,
}

/// A stored value of the skype family, as the browser wrote it.
#[derive(Clone, Debug, PartialEq, Eq)]
pub struct SkypeToken {
    pub skype_token: String,
    pub expiration: u64,
}

impl PresenceToken {
    /// This value as a credential of the presence family.
    pub fn into_record(self) -> (r: TokenRecord)
        ensures
            r.value == self.token,
            r.expires_at == self.expiration,
            r.source_kind == SourceKind::PresenceCache,
    {
        TokenRecord {
            value: self.token,
            expires_at: self.expiration,
            source_kind: SourceKind::PresenceCache,
        }
    }
}

impl SkypeToken {
    /// This value as a credential of the skype family.
    pub fn into_record(self) -> (r: TokenRecord)
        ensures
            r.value == self.skype_token,
            r.expires_at == self.expiration,
            r.source_kind == SourceKind::SkypeCache,
    {
        TokenRecord {
            value: self.skype_token,
            expires_at: self.expiration,
            source_kind: SourceKind::SkypeCache,
        }
    }
}

/// Whether a credential that expires at `expires_at` is still valid at
/// `now`.
pub open spec fn is_live(expires_at: u64, now: u64) -> bool {
    expires_at > now
}

/// The test that keeps the records that are still valid at `now`.
pub open spec fn live_at(now: u64) -> spec_fn(TokenRecord) -> bool {
    |t: TokenRecord| is_live(t.expires_at, now)
}

/// The expirations of `records`, in order.
pub open spec fn expiries_of(records: Seq<TokenRecord>) -> Seq<u64> {
    Seq::new(records.len(), |i: int| records[i].expires_at)
}

/// The position that the selector picks among `expiries`: the first of
/// those that are latest, expired ones left out. `None` when every one has
/// expired.
pub open spec fn freshest_live(expiries: Seq<u64>, now: u64) -> Option<int>
    decreases expiries.len(),
{
    if expiries.len() == 0 {
        None
    } else {
        let last = expiries.len() - 1;
        let before = freshest_live(expiries.drop_last(), now);
        if !is_live(expiries[last], now) {
            before
        } else if before is Some && expiries[before->0] >= expiries[last] {
            before
        } else {
            Some(last)
        }
    }
}

/// What it means for position `i` to be the selector's pick: it is valid,
/// nothing expires later, and nothing before it expires as late.
pub open spec fn is_freshest_live(expiries: Seq<u64>, now: u64, i: int) -> bool {
    &&& 0 <= i < expiries.len()
    &&& is_live(expiries[i], now)
    &&& forall|j: int| 0 <= j < expiries.len() ==> expiries[j] <= expiries[i]
    &&& forall|j: int| 0 <= j < i ==> expiries[j] < expiries[i]
}

/// The selector's pick is the position that `is_freshest_live` describes,
/// and there is no pick exactly when every candidate has expired.
pub proof fn lemma_freshest_live(expiries: Seq<u64>, now: u64)
    ensures
        freshest_live(expiries, now) matches Some(i) ==> is_freshest_live(expiries, now, i),
        freshest_live(expiries, now) is None <==> forall|j: int|
            0 <= j < expiries.len() ==> !is_live(#[trigger] expiries[j], now),
    decreases expiries.len(),
{
    if expiries.len() > 0 {
        let shorter = expiries.drop_last();
        lemma_freshest_live(shorter, now);
        assert forall|j: int| 0 <= j < shorter.len() implies shorter[j] == expiries[j] by {}
    }
}

/// No two positions can both be the selector's pick.
pub proof fn lemma_freshest_live_unique(expiries: Seq<u64>, now: u64, i: int, j: int)
    requires
        is_freshest_live(expiries, now, i),
        is_freshest_live(expiries, now, j),
    ensures
        i == j,
{
}

/// Where the expirations differ pairwise, the pick expires strictly later
/// than every other candidate, and there is a pick as soon as one
/// candidate is still valid.
pub proof fn lemma_selects_latest_of_distinct(expiries: Seq<u64>, now: u64)
    requires
        forall|a: int, b: int| 0 <= a < b < expiries.len() ==> expiries[a] != expiries[b],
    ensures
        (exists|k: int| 0 <= k < expiries.len() && is_live(#[trigger] expiries[k], now))
            ==> freshest_live(expiries, now) is Some,
        freshest_live(expiries, now) matches Some(i) ==> {
            &&& 0 <= i < expiries.len()
            &&& is_live(expiries[i], now)
            &&& forall|j: int| 0 <= j < expiries.len() && j != i ==> expiries[j] < expiries[i]
        },
{
    lemma_freshest_live(expiries, now);
}

/// A candidate that has expired is never the pick, and where every
/// candidate has expired, a single one too, there is none.
pub proof fn lemma_expired_never_selected(expiries: Seq<u64>, now: u64)
    ensures
        freshest_live(expiries, now) matches Some(i) ==> 0 <= i < expiries.len() && expiries[i]
            > now,
        (forall|j: int| 0 <= j < expiries.len() ==> #[trigger] expiries[j] <= now)
            ==> freshest_live(expiries, now) is None,
{
    lemma_freshest_live(expiries, now);
}

/// It makes no difference to the selector whether the expired candidates
/// were taken out beforehand: it picks the same record from what
/// `retain_live` keeps as from all, and finds none in the one exactly when
/// it finds none in the other.
pub proof fn lemma_select_after_retain(records: Seq<TokenRecord>, now: u64)
    ensures
        ({
            let kept = records.filter(live_at(now));
            match freshest_live(expiries_of(records), now) {
                Some(i) => {
                    &&& 0 <= i < records.len()
                    &&& freshest_live(expiries_of(kept), now) matches Some(k)
                    &&& 0 <= k < kept.len()
                    &&& kept[k] == records[i]
                },
                None => kept.len() == 0 && freshest_live(expiries_of(kept), now) is None,
            }
        }),
    decreases records.len(),
{
    reveal(Seq::filter);
    let keep = live_at(now);
    if records.len() > 0 {
        let shorter = records.drop_last();
        lemma_select_after_retain(shorter, now);
        lemma_freshest_live(expiries_of(shorter), now);
        lemma_freshest_live(expiries_of(shorter.filter(keep)), now);
        assert(expiries_of(records).drop_last() =~= expiries_of(shorter));
        if keep(records.last()) {
            assert(expiries_of(records.filter(keep)).drop_last() =~= expiries_of(
                shorter.filter(keep),
            ));
        }
    }
}

/// Finds the selector's pick among `records`.
pub fn freshest_live_index(records: &Vec<TokenRecord>, now: u64) -> (r: Option<usize>)
    ensures
        match r {
            Some(i) => freshest_live(expiries_of(records@), now) == Some(i as int),
            None => freshest_live(expiries_of(records@), now) is None,
        },
{
    let ghost all = expiries_of(records@);
    let mut best: Option<usize> = None;
    let mut i: usize = 0;
    while i < records.len()
        invariant
            i <= records.len(),
            all == expiries_of(records@),
            match best {
                Some(b) => b < i && freshest_live(all.take(i as int), now) == Some(b as int),
                None => freshest_live(all.take(i as int), now) is None,
            },
        decreases records.len() - i,
    {
        proof {
            assert(all.take(i + 1).drop_last() == all.take(i as int));
        }
        if records[i].expires_at > now {
            match best {
                Some(b) => {
                    if records[b].expires_at < records[i].expires_at {
                        best = Some(i);
                    }
                },
                None => {
                    best = Some(i);
                },
            }
        }
        i = i + 1;
    }
    assert(all.take(i as int) == all);
    best
}

/// Chooses the credential to use at `now`: of the candidates that have not
/// expired, the one that expires last, and of several such the first.
/// Fails with `NoValidToken` exactly when no candidate is still valid.
pub fn select(candidates: Vec<TokenRecord>, now: u64) -> (r: Result<TokenRecord, Failure>)
    ensures
        match freshest_live(expiries_of(candidates@), now) {
            Some(i) => 0 <= i < candidates@.len() && r == Ok::<TokenRecord, Failure>(
                candidates@[i],
            ),
            None => r == Err::<TokenRecord, Failure>(Failure::NoValidToken),
        },
{
    proof {
        lemma_freshest_live(expiries_of(candidates@), now);
    }
    let mut rest = candidates;
    match freshest_live_index(&rest, now) {
        Some(i) => Ok(rest.swap_remove(i)),
        None => Err(Failure::NoValidToken),
    }
}

/// Keeps the candidates that are still valid at `now`, in their order.
pub fn retain_live(candidates: Vec<TokenRecord>, now: u64) -> (r: Vec<TokenRecord>)
    ensures
        r@ == candidates@.filter(live_at(now)),
{
    let ghost keep = live_at(now);
    let ghost all = candidates@;
    let mut kept: Vec<TokenRecord> = Vec::new();
    proof {
        reveal(Seq::filter);
    }
    for t in it: candidates
        invariant
            it.seq() == all,
            keep == live_at(now),
            kept@ == all.take(it.index() as int).filter(keep),
    {
        proof {
            reveal(Seq::filter);
            let upto = all.take(it.index() + 1);
            assert(upto.drop_last() == all.take(it.index() as int));
            assert(upto.filter(keep) == if keep(t) {
                upto.drop_last().filter(keep).push(t)
            } else {
                upto.drop_last().filter(keep)
            });
        }
        if t.expires_at > now {
            kept.push(t);
        }
    }
    assert(all.take(all.len() as int) == all);
    kept
}

} // verus!
