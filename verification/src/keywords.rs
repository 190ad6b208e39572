use vstd::prelude::*;
use std::collections::HashMap;
use crate::catalog::Keyword;

verus! {

broadcast use vstd::std_specs::hash::group_hash_axioms;

/// The ids of a list of keywords, in order.
pub open spec fn keyword_ids(keywords: Seq<Keyword>) -> Seq<i64> {
    keywords.map_values(|k: Keyword| k.id)
}

/// How many times `id` appears in `ids`.
pub open spec fn occurrences(ids: Seq<i64>, id: i64) -> nat
    decreases ids.len(),
{
    if ids.len() == 0 {
        0
    } else {
        occurrences(ids.drop_last(), id) + if ids.last() == id {
            1nat
        } else {
            0nat
        }
    }
}

/// The tally of a list of keyword ids: each id that appears, with the
/// number of its appearances. (A list in memory is never so long that a
/// count would leave the range of `u64`.)
pub open spec fn tally(ids: Seq<i64>) -> Map<i64, u64> {
    Map::new(|id: i64| occurrences(ids, id) > 0, |id: i64| occurrences(ids, id) as u64)
}

/// An id appears at most as often as the list is long.
pub proof fn lemma_occurrences_bounded(ids: Seq<i64>, id: i64)
    ensures
        occurrences(ids, id) <= ids.len(),
    decreases ids.len(),
{
    if ids.len() > 0 {
        lemma_occurrences_bounded(ids.drop_last(), id);
    }
}

/// Counts, for each keyword id, how many times it appears in `keywords`.
/// A keyword that several films share is counted once for each of them.
pub fn get_keyword_votes(keywords: Vec<Keyword>) -> (votes: HashMap<i64, u64>)
    ensures
        votes@ == tally(keyword_ids(keywords@)),
        forall|id: i64|
            votes@.contains_key(id) ==> votes@[id] == #[trigger] occurrences(
                keyword_ids(keywords@),
                id,
            ),
{
    let mut votes: HashMap<i64, u64> = HashMap::new();
    let ghost ids = keyword_ids(keywords@);
    let mut i: usize = 0;
    while i < keywords.len()
        invariant
            i <= keywords.len(),
            ids == keyword_ids(keywords@),
            votes@ == tally(ids.take(i as int)),
        decreases keywords.len() - i,
    {
        let id: i64 = keywords[i].id;
        let ghost before = ids.take(i as int);
        let ghost after = ids.take(i + 1);
        proof {
            assert(after.drop_last() == before);
            assert(after.last() == id);
            lemma_occurrences_bounded(before, id);
            assert(forall|other: i64|
                #[trigger] occurrences(after, other) == occurrences(before, other) + if other
                    == id {
                    1nat
                } else {
                    0nat
                });
        }
        let seen: u64 = match votes.get(&id) {
            Some(count) => *count,
            None => 0,
        };
        votes.insert(id, seen + 1);
        assert(votes@ =~= tally(after));
        i += 1;
    }
    proof {
        assert(ids.take(keywords.len() as int) == ids);
        assert forall|id: i64| votes@.contains_key(id) implies votes@[id] == #[trigger] occurrences(
            ids,
            id,
        ) by {
            lemma_occurrences_bounded(ids, id);
        }
    }
    votes
}

/// The keywords of every lookup that succeeded, in the order of the
/// lookups. A lookup that failed contributes nothing.
pub open spec fn collected(lookups: Seq<Option<Vec<Keyword>>>) -> Seq<Keyword>
    decreases lookups.len(),
{
    if lookups.len() == 0 {
        Seq::empty()
    } else {
        collected(lookups.drop_last()) + match lookups.last() {
            Some(found) => found@,
            None => Seq::empty(),
        }
    }
}

/// Joins the outcomes of one keyword lookup per film into a single list.
/// `None` stands for a lookup that failed: it adds nothing and stops
/// nothing. Keywords that several films share appear once for each.
pub fn get_keyword_list(feedback: Vec<Option<Vec<Keyword>>>) -> (keywords_list: Vec<Keyword>)
    ensures
        keywords_list@ == collected(feedback@),
{
    let mut keywords_list: Vec<Keyword> = Vec::new();
    let ghost all = feedback@;
    for lookup in it: feedback
        invariant
            it.seq() == all,
            keywords_list@ == collected(all.take(it.index() as int)),
    {
        proof {
            assert(all.take(it.index() + 1).drop_last() == all.take(it.index() as int));
        }
        match lookup {
            Some(mut found) => {
                keywords_list.append(&mut found);
            },
            None => {},
        }
    }
    proof {
        assert(all.take(all.len() as int) == all);
    }
    keywords_list
}

} // verus!
