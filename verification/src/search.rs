//! Post-processing of similarity-search results.
//!
//! A search asks the engine for one page of ranked results.  The engine
//! answers with raw identifiers; whatever does not denote a point identity
//! — a numeric identifier, a missing one, or text that does not parse — is
//! dropped silently, and the rest keep the engine's ranking order.  The
//! adapter never re-sorts and never fails on a malformed identifier.

use crate::ids::{parse_uuid_text, uuid_of_text};
use vstd::prelude::*;

verus! {

/// How many results one search page holds.
pub const SEARCH_PAGE_SIZE: u64 = 10;

/// A raw result identifier as the engine hands it back: the text of a
/// UUID-shaped identity, a numeric identifier, or nothing at all.
#[derive(Debug, PartialEq, Eq)]
pub enum RawPointId {
    UuidText(String),
    Num(u64),
    Absent,
}

/// One kept search result: the rank it held in the engine's ordering, and
/// the point identity its raw identifier denoted.
#[derive(Clone, Copy, Debug, PartialEq, Eq, Structural)]
pub struct SearchHit {
    pub index: usize,
    pub point_id: u128,
}

/// The point identity a raw identifier denotes, if any.  Numeric and
/// absent identifiers belong to another kind of point and denote none;
/// a text identifier denotes whatever its text parses to.
pub open spec fn parsed_id(id: RawPointId) -> Option<u128> {
    match id {
        RawPointId::UuidText(s) => uuid_of_text(s@),
        _ => None,
    }
}

/// The hits kept from a raw result list: one per identifier that denotes
/// an identity, in the engine's order, each carrying its original rank.
pub open spec fn kept_hits(ids: Seq<RawPointId>) -> Seq<SearchHit>
    decreases ids.len(),
{
    if ids.len() == 0 {
        Seq::empty()
    } else {
        let rest = kept_hits(ids.drop_last());
        match parsed_id(ids.last()) {
            Some(u) => rest.push(SearchHit { index: (ids.len() - 1) as usize, point_id: u }),
            None => rest,
        }
    }
}

/// Keeps the results whose identifier denotes a point identity and drops
/// the rest silently; the call as a whole never fails.
pub fn collect_search_results(ids: &Vec<RawPointId>) -> (r: Vec<SearchHit>)
    ensures
        r@ == kept_hits(ids@),
{
    let mut out: Vec<SearchHit> = Vec::new();
    let n = ids.len();
    for i in 0..n
        invariant
            n == ids@.len(),
            out@ == kept_hits(ids@.take(i as int)),
    {
        match &ids[i] {
            RawPointId::UuidText(s) => {
                match parse_uuid_text(s.as_str()) {
                    Some(u) => out.push(SearchHit { index: i, point_id: u }),
                    None => {},
                }
            },
            _ => {},
        }
        proof {
            assert(ids@.take(i as int + 1).drop_last() =~= ids@.take(i as int));
            assert(ids@.take(i as int + 1).last() == ids@[i as int]);
            assert(out@ =~= kept_hits(ids@.take(i as int + 1)));
        }
    }
    proof {
        assert(ids@.take(n as int) =~= ids@);
    }
    out
}

/// The offset into the engine's ranking at which a 1-indexed page starts:
/// page 1 starts at 0, each page holds `SEARCH_PAGE_SIZE` results.
pub fn search_offset(page: u64) -> (r: u64)
    requires
        1 <= page,
        (page - 1) * (SEARCH_PAGE_SIZE as int) <= u64::MAX,
    ensures
        r as int == (page - 1) * (SEARCH_PAGE_SIZE as int),
{
    (page - 1) * SEARCH_PAGE_SIZE
}

/// Law: filtering never invents results — there are at most as many hits
/// as raw results.
pub proof fn lemma_kept_hits_len(ids: Seq<RawPointId>)
    ensures
        kept_hits(ids).len() <= ids.len(),
    decreases ids.len(),
{
    if ids.len() > 0 {
        lemma_kept_hits_len(ids.drop_last());
    }
}

/// Law: every kept hit is sound — its rank names a raw result whose
/// identifier denoted exactly the identity the hit carries.
pub proof fn lemma_kept_hits_sound(ids: Seq<RawPointId>, k: int)
    requires
        ids.len() <= usize::MAX,
        0 <= k < kept_hits(ids).len(),
    ensures
        kept_hits(ids)[k].index < ids.len(),
        parsed_id(ids[kept_hits(ids)[k].index as int]) == Some(kept_hits(ids)[k].point_id),
    decreases ids.len(),
{
    let rest = kept_hits(ids.drop_last());
    if k < rest.len() {
        lemma_kept_hits_sound(ids.drop_last(), k);
        assert(ids.drop_last()[kept_hits(ids)[k].index as int] == ids[kept_hits(ids)[k].index as int]);
    }
}

/// Law: the engine's ranking order is preserved — ranks strictly increase
/// along the kept sequence; nothing is re-sorted.
pub proof fn lemma_kept_hits_ordered(ids: Seq<RawPointId>, j: int, k: int)
    requires
        ids.len() <= usize::MAX,
        0 <= j < k < kept_hits(ids).len(),
    ensures
        kept_hits(ids)[j].index < kept_hits(ids)[k].index,
    decreases ids.len(),
{
    let rest = kept_hits(ids.drop_last());
    if k < rest.len() {
        lemma_kept_hits_ordered(ids.drop_last(), j, k);
    } else {
        lemma_kept_hits_sound(ids.drop_last(), j);
    }
}

/// Law: every raw identifier that denotes a point identity is kept — some
/// hit records exactly its rank and its identity.
pub proof fn lemma_kept_hits_complete(ids: Seq<RawPointId>, i: int)
    requires
        ids.len() <= usize::MAX,
        0 <= i < ids.len(),
        parsed_id(ids[i]) is Some,
    ensures
        exists|k: int|
            0 <= k < kept_hits(ids).len() && (#[trigger] kept_hits(ids)[k]).index == i && Some(
                kept_hits(ids)[k].point_id,
            ) == parsed_id(ids[i]),
    decreases ids.len(),
{
    let rest = kept_hits(ids.drop_last());
    if i == ids.len() - 1 {
        assert(kept_hits(ids)[rest.len() as int].index == i);
    } else {
        assert(ids.drop_last()[i] == ids[i]);
        lemma_kept_hits_complete(ids.drop_last(), i);
        let k = choose|k: int|
            0 <= k < rest.len() && (#[trigger] rest[k]).index == i && Some(rest[k].point_id)
                == parsed_id(ids.drop_last()[i]);
        assert(kept_hits(ids)[k].index == i);
    }
}

/// Law: a raw identifier that denotes no identity — numeric, absent, or
/// text that does not parse — contributes no hit at all; it is dropped
/// without failing the call.
pub proof fn lemma_non_identity_excluded(ids: Seq<RawPointId>, i: int)
    requires
        ids.len() <= usize::MAX,
        0 <= i < ids.len(),
        parsed_id(ids[i]) is None,
    ensures
        forall|k: int| 0 <= k < kept_hits(ids).len() ==> (#[trigger] kept_hits(ids)[k]).index != i,
{
    assert forall|k: int| 0 <= k < kept_hits(ids).len() implies (#[trigger] kept_hits(ids)[k]).index
        != i by {
        lemma_kept_hits_sound(ids, k);
    }
}

} // verus!
