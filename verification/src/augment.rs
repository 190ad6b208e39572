use vstd::prelude::*;
use crate::catalog::{Movie, MovieRecommendation, WatchProvider};
use crate::join::{failed_keys, has_failed, lemma_single_failure};

verus! {

/// The services found for the candidate at `position`; none where the
/// lookup failed.
pub open spec fn providers_at(lookups: Seq<Option<Vec<WatchProvider>>>, position: int) -> Seq<
    WatchProvider,
> {
    if has_failed(lookups, position) {
        Seq::empty()
    } else {
        lookups[position]->0@
    }
}

/// Whether `out` pairs each candidate, in order, with the services of the
/// lookup at the same position.
pub open spec fn is_augmentation_of(
    out: Seq<MovieRecommendation>,
    candidates: Seq<Movie>,
    lookups: Seq<Option<Vec<WatchProvider>>>,
) -> bool {
    &&& out.len() == candidates.len()
    &&& forall|i: int| 0 <= i < out.len() ==> (#[trigger] out[i]).movie == candidates[i]
    &&& forall|i: int|
        0 <= i < out.len() ==> (#[trigger] out[i]).providers@ == providers_at(lookups, i)
}

/// The ids of the candidates, in order.
pub open spec fn candidate_ids(candidates: Seq<Movie>) -> Seq<i64> {
    candidates.map_values(|m: Movie| m.id)
}

/// The ids to look up, one per candidate and in the candidates' order.
pub fn lookup_keys(candidates: &Vec<Movie>) -> (keys: Vec<i64>)
    ensures
        keys@ == candidate_ids(candidates@),
{
    let mut keys: Vec<i64> = Vec::new();
    let ghost ids = candidate_ids(candidates@);
    let mut i: usize = 0;
    while i < candidates.len()
        invariant
            i <= candidates.len(),
            ids == candidate_ids(candidates@),
            keys@ == ids.take(i as int),
        decreases candidates.len() - i,
    {
        keys.push(candidates[i].id);
        assert(keys@ == ids.take(i + 1));
        i += 1;
    }
    assert(ids.take(candidates.len() as int) == ids);
    keys
}

/// The items of `items`, last first.
fn reversed<T>(items: Vec<T>) -> (back: Vec<T>)
    ensures
        back@ == items@.reverse(),
{
    let mut rest = items;
    let mut back: Vec<T> = Vec::new();
    while rest.len() > 0
        invariant
            rest@.len() <= items@.len(),
            rest@ == items@.take(rest@.len() as int),
            back@ == items@.reverse().take(items@.len() - rest@.len()),
        decreases rest.len(),
    {
        let ghost n: nat = rest@.len();
        match rest.pop() {
            Some(item) => {
                back.push(item);
                assert(back@ == items@.reverse().take(items@.len() - n + 1));
            },
            None => {},
        }
    }
    assert(items@.reverse().take(items@.len() as int) == items@.reverse());
    back
}

/// Joins the candidates with the outcomes of their provider lookups.
/// `lookups[i]` is the outcome for `candidates[i]`, whichever lookup
/// finished first; `None` stands for one that failed. The result has one
/// entry per candidate, in the candidates' order. A candidate whose lookup
/// failed, or for which `lookups` holds no outcome, gets an empty list of
/// services; outcomes beyond the last candidate are ignored. No outcome
/// fails the join.
pub fn augment(candidates: Vec<Movie>, lookups: Vec<Option<Vec<WatchProvider>>>) -> (out: Vec<
    MovieRecommendation,
>)
    ensures
        is_augmentation_of(out@, candidates@, lookups@),
        out@.len() == candidates@.len(),
        forall|i: int| 0 <= i < out@.len() ==> (#[trigger] out@[i]).movie.id == candidates@[i].id,
{
    let ghost outcomes = lookups@;
    let ghost all = candidates@;
    let mut pending = reversed(lookups);
    let mut out: Vec<MovieRecommendation> = Vec::new();
    for movie in it: candidates
        invariant
            it.seq() == all,
            out@.len() == it.index(),
            is_augmentation_of(out@, all.take(it.index()), outcomes),
            pending@.len() == (if it.index() <= outcomes.len() {
                outcomes.len() - it.index()
            } else {
                0
            }),
            forall|j: int|
                0 <= j < pending@.len() ==> #[trigger] pending@[j] == outcomes[outcomes.len() - 1
                    - j],
    {
        let providers: Vec<WatchProvider> = match pending.pop() {
            Some(Some(found)) => found,
            _ => Vec::new(),
        };
        out.push(MovieRecommendation { movie, providers });
    }
    proof {
        assert(all.take(all.len() as int) == all);
    }
    out
}

/// A failed lookup stays local. Where every candidate has an outcome and
/// exactly the one at `failing` failed, the join still has an entry for
/// each candidate, in order; the entry at `failing` has no services, every
/// other entry has what its own lookup found, and the failing candidate is
/// the only one reported.
pub proof fn lemma_one_failure_stays_local(
    out: Seq<MovieRecommendation>,
    candidates: Seq<Movie>,
    lookups: Seq<Option<Vec<WatchProvider>>>,
    failing: int,
)
    requires
        is_augmentation_of(out, candidates, lookups),
        lookups.len() == candidates.len(),
        0 <= failing < candidates.len(),
        forall|i: int| 0 <= i < lookups.len() ==> (lookups[i] is None <==> i == failing),
    ensures
        out.len() == candidates.len(),
        forall|i: int| 0 <= i < out.len() ==> out[i].movie.id == candidates[i].id,
        out[failing].providers@.len() == 0,
        forall|i: int| 0 <= i < out.len() && i != failing ==> out[i].providers@ == lookups[i]->0@,
        failed_keys(candidate_ids(candidates), lookups) == seq![candidates[failing].id],
{
    lemma_single_failure(candidate_ids(candidates), lookups, failing);
}

} // verus!
