use vstd::prelude::*;
use std::collections::HashMap;
use vstd::std_specs::iter::IteratorSpec;
use crate::catalog::Keyword;
use crate::keywords::{collected, get_keyword_list, get_keyword_votes, keyword_ids, tally};

verus! {

broadcast use vstd::std_specs::hash::group_hash_axioms;

/// How many keywords are handed back for each direction of feedback.
pub const NUM_RESULTS: usize = 5;

/// What is left of the upvote tally once conflicts are settled: a keyword
/// stays if it was never downvoted, or downvoted strictly less often than
/// it was upvoted.
pub open spec fn refined_upvotes(up: Map<i64, u64>, down: Map<i64, u64>) -> Map<i64, u64> {
    Map::new(
        |id: i64| up.contains_key(id) && (down.contains_key(id) ==> down[id] < up[id]),
        |id: i64| up[id],
    )
}

/// What is left of the downvote tally once conflicts are settled: a keyword
/// stays if it was never upvoted, or downvoted at least as often as it was
/// upvoted. A tie counts against the keyword.
pub open spec fn refined_downvotes(up: Map<i64, u64>, down: Map<i64, u64>) -> Map<i64, u64> {
    Map::new(
        |id: i64| down.contains_key(id) && (up.contains_key(id) ==> down[id] >= up[id]),
        |id: i64| down[id],
    )
}

/// An id is in a list with one more item if it was in the list or is that
/// item.
proof fn lemma_push_contains(list: Seq<i64>, item: i64, id: i64)
    ensures
        list.push(item).contains(id) <==> list.contains(id) || id == item,
{
    assert(list.push(item).last() == item);
    assert(forall|j: int| 0 <= j < list.len() ==> list.push(item)[j] == #[trigger] list[j]);
}

/// The keys of a tally, each once, in no particular order.
fn tally_ids(votes: &HashMap<i64, u64>) -> (ids: Vec<i64>)
    ensures
        ids@.no_duplicates(),
        forall|id: i64| ids@.contains(id) <==> votes@.contains_key(id),
{
    let mut ids: Vec<i64> = Vec::new();
    let ghost keys: Seq<&i64> = votes.keys().remaining();
    for key in it: votes.keys()
        invariant
            it.seq() == keys,
            ids@ == keys.take(it.index()).unref(),
    {
        ids.push(*key);
    }
    proof {
        assert(keys.take(keys.len() as int) == keys);
        assert(ids@.to_set() == votes@.dom());
        assert forall|id: i64| ids@.contains(id) <==> votes@.contains_key(id) by {
            assert(ids@.to_set().contains(id) <==> ids@.contains(id));
        }
    }
    ids
}

/// Settles the keywords that were both upvoted and downvoted. For each of
/// them the two counts are compared: with fewer downvotes than upvotes the
/// keyword leaves the downvote tally, otherwise (a tie included) it leaves
/// the upvote tally. Keywords on one side only stay where they are, with
/// their counts.
pub fn refine_keywords(upvotes: HashMap<i64, u64>, downvotes: HashMap<i64, u64>) -> (refined: (
    HashMap<i64, u64>,
    HashMap<i64, u64>,
))
    ensures
        refined.0@ == refined_upvotes(upvotes@, downvotes@),
        refined.1@ == refined_downvotes(upvotes@, downvotes@),
{
    let ids = tally_ids(&upvotes);
    let ghost up0 = upvotes@;
    let ghost down0 = downvotes@;
    let mut up = upvotes;
    let mut down = downvotes;
    let mut i: usize = 0;
    while i < ids.len()
        invariant
            i <= ids.len(),
            ids@.no_duplicates(),
            forall|id: i64| ids@.contains(id) <==> up0.contains_key(id),
            up@ == Map::new(
                |id: i64|
                    up0.contains_key(id) && (ids@.take(i as int).contains(id) && down0.contains_key(
                        id,
                    ) ==> down0[id] < up0[id]),
                |id: i64| up0[id],
            ),
            down@ == Map::new(
                |id: i64|
                    down0.contains_key(id) && (ids@.take(i as int).contains(id) ==> down0[id]
                        >= up0[id]),
                |id: i64| down0[id],
            ),
        decreases ids.len() - i,
    {
        let id: i64 = ids[i];
        let ghost done = ids@.take(i as int);
        let ghost next = ids@.take(i + 1);
        proof {
            assert(ids@.contains(id));
            assert(!done.contains(id));
            assert(next == done.push(id));
            assert forall|other: i64| next.contains(other) <==> done.contains(other) || other
                == id by {
                lemma_push_contains(done, id, other);
            }
        }
        let downvoted: Option<u64> = match down.get(&id) {
            Some(count) => Some(*count),
            None => None,
        };
        let upvoted: Option<u64> = match up.get(&id) {
            Some(count) => Some(*count),
            None => None,
        };
        match (downvoted, upvoted) {
            (Some(against), Some(in_favour)) => {
                if against < in_favour {
                    down.remove(&id);
                } else {
                    up.remove(&id);
                }
            },
            _ => {},
        }
        i += 1;
    }
    proof {
        assert(ids@.take(ids.len() as int) == ids@);
        assert(up@ =~= refined_upvotes(up0, down0));
        assert(down@ =~= refined_downvotes(up0, down0));
    }
    (up, down)
}

/// `a` comes before `b` in the ranking of `votes`: it has the higher count,
/// or the same count and the smaller id.
pub open spec fn outranks(votes: Map<i64, u64>, a: i64, b: i64) -> bool {
    votes[a] > votes[b] || (votes[a] == votes[b] && a < b)
}

/// `top` is the head of the ranking of `votes`, at most `limit` long: its
/// ids are keys of the tally, best first; whatever it leaves out ranks
/// below all that it holds; and it leaves something out only when it is
/// full.
pub open spec fn is_top_of(votes: Map<i64, u64>, top: Seq<i64>, limit: nat) -> bool {
    &&& top.len() <= limit
    &&& forall|i: int| 0 <= i < top.len() ==> votes.contains_key(#[trigger] top[i])
    &&& forall|i: int, j: int|
        0 <= i < j < top.len() ==> outranks(votes, #[trigger] top[i], #[trigger] top[j])
    &&& forall|i: int, id: i64|
        0 <= i < top.len() && #[trigger] votes.contains_key(id) && !top.contains(id) ==> outranks(
            votes,
            #[trigger] top[i],
            id,
        )
    &&& top.len() < limit ==> forall|id: i64| #[trigger]
        votes.contains_key(id) ==> top.contains(id)
}

/// Whether `id` is among `list`.
fn holds(list: &Vec<i64>, id: i64) -> (found: bool)
    ensures
        found == list@.contains(id),
{
    let mut k: usize = 0;
    while k < list.len()
        invariant
            k <= list.len(),
            forall|j: int| 0 <= j < k ==> list@[j] != id,
        decreases list.len() - k,
    {
        if list[k] == id {
            return true;
        }
        k += 1;
    }
    false
}

/// The best-ranked id of `ids` that `taken` does not hold yet, if there is
/// one.
fn best_remaining(votes: &HashMap<i64, u64>, ids: &Vec<i64>, taken: &Vec<i64>) -> (best: Option<
    i64,
>)
    requires
        forall|id: i64| ids@.contains(id) <==> votes@.contains_key(id),
    ensures
        best is None ==> forall|id: i64| #[trigger] votes@.contains_key(id) ==> taken@.contains(id),
        best matches Some(winner) ==> {
            &&& votes@.contains_key(winner)
            &&& !taken@.contains(winner)
            &&& forall|id: i64|
                #[trigger] votes@.contains_key(id) && !taken@.contains(id) && id != winner
                    ==> outranks(votes@, winner, id)
        },
{
    let mut best: Option<(i64, u64)> = None;
    let mut k: usize = 0;
    while k < ids.len()
        invariant
            k <= ids.len(),
            forall|id: i64| ids@.contains(id) <==> votes@.contains_key(id),
            best is None ==> forall|j: int| 0 <= j < k ==> taken@.contains(#[trigger] ids@[j]),
            best matches Some((winner, count)) ==> {
                &&& votes@.contains_key(winner)
                &&& votes@[winner] == count
                &&& !taken@.contains(winner)
                &&& forall|j: int|
                    0 <= j < k && !taken@.contains(#[trigger] ids@[j]) && ids@[j] != winner
                        ==> outranks(votes@, winner, ids@[j])
            },
        decreases ids.len() - k,
    {
        let id: i64 = ids[k];
        assert(ids@.contains(id));
        if !holds(taken, id) {
            let count: u64 = match votes.get(&id) {
                Some(count) => *count,
                None => 0,
            };
            match best {
                None => {
                    best = Some((id, count));
                },
                Some((winner, most)) => {
                    if count > most || (count == most && id < winner) {
                        best = Some((id, count));
                    }
                },
            }
        }
        k += 1;
    }
    match best {
        None => {
            proof {
                assert forall|id: i64| #[trigger] votes@.contains_key(id) implies taken@.contains(
                    id,
                ) by {
                    assert(ids@.contains(id));
                }
            }
            None
        },
        Some((winner, _)) => {
            proof {
                assert forall|id: i64|
                    #[trigger] votes@.contains_key(id) && !taken@.contains(id) && id
                        != winner implies outranks(votes@, winner, id) by {
                    assert(ids@.contains(id));
                }
            }
            Some(winner)
        },
    }
}

/// The `limit` best-ranked keywords of a tally, best first: by count,
/// highest first, and among equal counts by id, smallest first. A tally
/// with fewer keywords gives them all.
pub fn top_keywords(votes: &HashMap<i64, u64>, limit: usize) -> (top: Vec<i64>)
    ensures
        is_top_of(votes@, top@, limit as nat),
{
    let ids = tally_ids(votes);
    let mut top: Vec<i64> = Vec::new();
    let mut exhausted = false;
    while top.len() < limit && !exhausted
        invariant
            forall|id: i64| ids@.contains(id) <==> votes@.contains_key(id),
            top.len() <= limit,
            forall|i: int| 0 <= i < top.len() ==> votes@.contains_key(#[trigger] top@[i]),
            forall|i: int, j: int|
                0 <= i < j < top.len() ==> outranks(votes@, #[trigger] top@[i], #[trigger] top@[j]),
            forall|i: int, id: i64|
                0 <= i < top.len() && #[trigger] votes@.contains_key(id) && !top@.contains(id)
                    ==> outranks(votes@, #[trigger] top@[i], id),
            exhausted ==> forall|id: i64| #[trigger] votes@.contains_key(id) ==> top@.contains(id),
        decreases limit - top.len() + if exhausted { 0int } else { 1int },
    {
        match best_remaining(votes, &ids, &top) {
            None => {
                exhausted = true;
            },
            Some(winner) => {
                let ghost before = top@;
                top.push(winner);
                proof {
                    assert forall|id: i64| top@.contains(id) <==> before.contains(id) || id
                        == winner by {
                        lemma_push_contains(before, winner, id);
                    }
                }
            },
        }
    }
    top
}

/// Whether `id` was upvoted and downvoted equally often.
pub open spec fn tied(up: Map<i64, u64>, down: Map<i64, u64>, id: i64) -> bool {
    up.contains_key(id) && down.contains_key(id) && up[id] == down[id]
}

/// After conflicts are settled no keyword is left on both sides.
pub proof fn lemma_refined_tallies_disjoint(up: Map<i64, u64>, down: Map<i64, u64>, id: i64)
    ensures
        !(refined_upvotes(up, down).contains_key(id) && refined_downvotes(up, down).contains_key(
            id,
        )),
{
}

/// A keyword with as many downvotes as upvotes counts as disliked: it
/// leaves the upvote tally and stays in the downvote tally.
pub proof fn lemma_tie_counts_against(up: Map<i64, u64>, down: Map<i64, u64>, id: i64)
    requires
        tied(up, down, id),
    ensures
        !refined_upvotes(up, down).contains_key(id),
        refined_downvotes(up, down).contains_key(id),
        refined_downvotes(up, down)[id] == down[id],
{
}

/// A keyword that was voted on stays on exactly one side, unless it was
/// voted on neither.
pub proof fn lemma_refinement_keeps_one_side(up: Map<i64, u64>, down: Map<i64, u64>, id: i64)
    requires
        up.contains_key(id) || down.contains_key(id),
    ensures
        refined_upvotes(up, down).contains_key(id) != refined_downvotes(up, down).contains_key(id),
{
}

/// The head of a ranking holds no id twice.
pub proof fn lemma_top_has_no_duplicates(votes: Map<i64, u64>, top: Seq<i64>, limit: nat)
    requires
        is_top_of(votes, top, limit),
    ensures
        top.no_duplicates(),
{
    assert forall|i: int, j: int| 0 <= i < top.len() && 0 <= j < top.len() && i != j implies top[i]
        != top[j] by {
        if i < j {
            assert(outranks(votes, top[i], top[j]));
        } else {
            assert(outranks(votes, top[j], top[i]));
        }
    }
}

/// A tally has one ranking only: two heads of the same length limit are
/// the same list.
pub proof fn lemma_top_is_unique(votes: Map<i64, u64>, a: Seq<i64>, b: Seq<i64>, limit: nat)
    requires
        is_top_of(votes, a, limit),
        is_top_of(votes, b, limit),
    ensures
        a == b,
{
    lemma_top_has_no_duplicates(votes, a, limit);
    lemma_top_has_no_duplicates(votes, b, limit);
    lemma_common_prefix(votes, a, b, limit, if a.len() <= b.len() { a.len() } else { b.len() });
    if a.len() < b.len() {
        let extra: i64 = b[a.len() as int];
        assert(votes.contains_key(extra));
        assert(a.contains(extra));
        let k: int = choose|k: int| 0 <= k < a.len() && a[k] == extra;
        assert(b[k] == extra);
    } else if b.len() < a.len() {
        let extra: i64 = a[b.len() as int];
        assert(votes.contains_key(extra));
        assert(b.contains(extra));
        let k: int = choose|k: int| 0 <= k < b.len() && b[k] == extra;
        assert(a[k] == extra);
    }
    assert(a =~= b);
}

/// Two heads of one ranking agree on their first `n` places.
proof fn lemma_common_prefix(votes: Map<i64, u64>, a: Seq<i64>, b: Seq<i64>, limit: nat, n: nat)
    requires
        is_top_of(votes, a, limit),
        is_top_of(votes, b, limit),
        a.no_duplicates(),
        b.no_duplicates(),
        n <= a.len(),
        n <= b.len(),
    ensures
        forall|i: int| 0 <= i < n ==> a[i] == b[i],
    decreases n,
{
    if n > 0 {
        lemma_common_prefix(votes, a, b, limit, (n - 1) as nat);
        let i: int = n - 1;
        if a[i] != b[i] {
            lemma_ranks_before(votes, a, b, limit, i);
            lemma_ranks_before(votes, b, a, limit, i);
        }
    }
}

/// Where two heads of one ranking agree before place `i` and differ at it,
/// the first one's id at `i` ranks before the second one's.
proof fn lemma_ranks_before(votes: Map<i64, u64>, a: Seq<i64>, b: Seq<i64>, limit: nat, i: int)
    requires
        is_top_of(votes, a, limit),
        is_top_of(votes, b, limit),
        a.no_duplicates(),
        b.no_duplicates(),
        0 <= i < a.len(),
        i < b.len(),
        forall|j: int| 0 <= j < i ==> a[j] == b[j],
        a[i] != b[i],
    ensures
        outranks(votes, a[i], b[i]),
{
    let other: i64 = b[i];
    assert(votes.contains_key(other));
    if a.contains(other) {
        let k: int = choose|k: int| 0 <= k < a.len() && a[k] == other;
        if k < i {
            assert(b[k] == other);
        }
        assert(i < k);
    }
}

/// Turns the keyword lookups of the liked and the disliked films into the
/// keywords to prefer and to exclude from now on. For each direction the
/// keywords of the lookups that succeeded are counted; keywords voted both
/// ways are settled by `refine_keywords`; of what is left on each side the
/// five best-ranked ids are returned, best first. No id comes back in
/// both lists, and an id with as many downvotes as upvotes is never
/// preferred. A lookup that failed (`None`) only leaves its film out of
/// the count.
pub fn process_feedback(
    thumbs_up: Vec<Option<Vec<Keyword>>>,
    thumbs_down: Vec<Option<Vec<Keyword>>>,
) -> (signals: (Vec<i64>, Vec<i64>))
    ensures
        is_top_of(
            refined_upvotes(
                tally(keyword_ids(collected(thumbs_up@))),
                tally(keyword_ids(collected(thumbs_down@))),
            ),
            signals.0@,
            NUM_RESULTS as nat,
        ),
        is_top_of(
            refined_downvotes(
                tally(keyword_ids(collected(thumbs_up@))),
                tally(keyword_ids(collected(thumbs_down@))),
            ),
            signals.1@,
            NUM_RESULTS as nat,
        ),
        signals.0@.len() <= 5,
        signals.1@.len() <= 5,
        forall|id: i64| !(signals.0@.contains(id) && signals.1@.contains(id)),
        forall|id: i64|
            tied(
                tally(keyword_ids(collected(thumbs_up@))),
                tally(keyword_ids(collected(thumbs_down@))),
                id,
            ) ==> !signals.0@.contains(id),
{
    let thumbs_up_keywords = get_keyword_list(thumbs_up);
    let thumbs_down_keywords = get_keyword_list(thumbs_down);
    let thumbs_up_votes = get_keyword_votes(thumbs_up_keywords);
    let thumbs_down_votes = get_keyword_votes(thumbs_down_keywords);
    let ghost up = thumbs_up_votes@;
    let ghost down = thumbs_down_votes@;
    let (refined_up, refined_down) = refine_keywords(thumbs_up_votes, thumbs_down_votes);
    let criteria_upvotes = top_keywords(&refined_up, NUM_RESULTS);
    let criteria_downvotes = top_keywords(&refined_down, NUM_RESULTS);
    proof {
        assert forall|id: i64|
            !(criteria_upvotes@.contains(id) && criteria_downvotes@.contains(id)) by {
            lemma_refined_tallies_disjoint(up, down, id);
        }
        assert forall|id: i64| tied(up, down, id) implies !criteria_upvotes@.contains(id) by {
            lemma_tie_counts_against(up, down, id);
        }
    }
    (criteria_upvotes, criteria_downvotes)
}

} // verus!
