//! Properties of a whole inspection, stated over the models of the steps.
use vstd::prelude::*;
use crate::bytes::has_suffix;
use crate::classify::{kind_of_name, xz_suffix, zstd_suffix};
use crate::inspect::{
    answered, finished_with, next_stop, start_view, stepped, InspectionView, MemberModel, Step,
    Verdict,
};
use crate::listing::listing_names;

verus! {

/// Two steps ask for the same image, or report the same verdict.
pub open spec fn same_step(a: Step, b: Step) -> bool {
    match (a, b) {
        (Step::Query(x), Step::Query(y)) => x@ == y@,
        (Step::Done(x), Step::Done(y)) => x == y,
        _ => false,
    }
}

/// A file whose name ends in neither archive suffix is not matched, and what
/// the file holds plays no part: it is never read or decoded.
pub proof fn lemma_unrecognized_name_not_inspected(
    name: Seq<u8>,
    raw: Seq<u8>,
    other_raw: Seq<u8>,
    symbol: Seq<u8>,
)
    requires
        !has_suffix(name, zstd_suffix()),
        !has_suffix(name, xz_suffix()),
    ensures
        start_view(kind_of_name(name), raw, symbol) == finished_with(symbol, Verdict::NotMatched),
        start_view(kind_of_name(name), raw, symbol) == start_view(
            kind_of_name(name),
            other_raw,
            symbol,
        ),
{
}

proof fn lemma_no_stop_among_non_files(data: Seq<u8>, members: Seq<MemberModel>, i: nat)
    requires
        forall|k: int| 0 <= k < members.len() ==> !(#[trigger] members[k]).1,
    ensures
        next_stop(data, members, i) == members.len(),
    decreases members.len() - i,
{
    if i < members.len() {
        lemma_no_stop_among_non_files(data, members, i + 1);
    }
}

/// An archive read to its end that holds no regular file (only directories,
/// links and the like) is not matched, and no listing is ever asked for.
pub proof fn lemma_no_regular_files_not_matched(v: InspectionView, w: InspectionView, r: Step)
    requires
        v.finished is None,
        !v.truncated,
        forall|k: int| 0 <= k < v.members.len() ==> !(#[trigger] v.members[k]).1,
        stepped(v, w, r),
    ensures
        r == Step::Done(Verdict::NotMatched),
        w.finished == Some(Verdict::NotMatched),
{
    lemma_no_stop_among_non_files(v.data, v.members, v.cursor);
}

/// Once a listing names the symbol, the inspection is over as matched: no
/// later member is looked at and no further listing is asked for.
pub proof fn lemma_first_match_ends_walk(
    v0: InspectionView,
    v1: InspectionView,
    r1: Step,
    listing: Seq<u8>,
    v2: InspectionView,
    r2: Step,
    v3: InspectionView,
    r3: Step,
)
    requires
        stepped(v0, v1, r1),
        r1 is Query,
        listing_names(listing, v0.symbol),
        answered(v1, listing, v2, r2),
        stepped(v2, v3, r3),
    ensures
        r2 == Step::Done(Verdict::Matched),
        r3 == Step::Done(Verdict::Matched),
        v2.cursor == v1.cursor,
        v3 == v2,
{
}

/// An inspection is a function of its inputs: the same archive bytes and
/// the same listings lead to the same requests and the same verdict.
pub proof fn lemma_inspection_deterministic(
    v: InspectionView,
    listing: Seq<u8>,
    w1: InspectionView,
    r1: Step,
    w2: InspectionView,
    r2: Step,
    a1: InspectionView,
    s1: Step,
    a2: InspectionView,
    s2: Step,
)
    requires
        stepped(v, w1, r1),
        stepped(v, w2, r2),
        answered(v, listing, a1, s1),
        answered(v, listing, a2, s2),
    ensures
        w1 == w2,
        same_step(r1, r2),
        a1 == a2,
        same_step(s1, s2),
{
}

} // verus!
