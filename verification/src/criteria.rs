use vstd::prelude::*;
use crate::bands::{Decade, Runtime};
use crate::catalog::{Genre, WatchProvider};

verus! {

/// Keyword ids learned from likes and dislikes: `like` biases the next
/// query towards its keywords, `dislike` away from them.
#[derive(Debug, Clone, PartialEq, Eq)]
pub struct Feedback {
    pub like: Option<Vec<i64>>,
    pub dislike: Option<Vec<i64>>,
}

/// What a session has chosen so far. A recommendation needs the first four
/// fields; the feedback is optional.
#[derive(Debug, Clone, PartialEq, Eq)]
pub struct RecommendationCriteria {
    pub genres: Option<Vec<Genre>>,
    pub watch_providers: Option<Vec<WatchProvider>>,
    pub runtime: Option<Runtime>,
    pub decade: Option<Decade>,
    pub feedback: Option<Feedback>,
}

/// The ids of an optional list.
pub open spec fn ids_of(list: Option<Vec<i64>>) -> Option<Seq<i64>> {
    match list {
        Some(ids) => Some(ids@),
        None => None,
    }
}

/// The ids kept so far followed by the ids that come in. A side that is
/// absent adds nothing; the result is absent only if both are.
pub open spec fn merged_ids(kept: Option<Vec<i64>>, added: Option<Vec<i64>>) -> Option<Seq<i64>> {
    match (kept, added) {
        (Some(old_ids), Some(new_ids)) => Some(old_ids@ + new_ids@),
        (Some(old_ids), None) => Some(old_ids@),
        (None, Some(new_ids)) => Some(new_ids@),
        (None, None) => None,
    }
}

/// The likes that the criteria hold.
pub open spec fn prior_likes(criteria: RecommendationCriteria) -> Option<Vec<i64>> {
    match criteria.feedback {
        Some(feedback) => feedback.like,
        None => None,
    }
}

/// The dislikes that the criteria hold.
pub open spec fn prior_dislikes(criteria: RecommendationCriteria) -> Option<Vec<i64>> {
    match criteria.feedback {
        Some(feedback) => feedback.dislike,
        None => None,
    }
}

/// Appends `added` to `kept`.
fn merge_ids(kept: Option<Vec<i64>>, added: Option<Vec<i64>>) -> (merged: Option<Vec<i64>>)
    ensures
        ids_of(merged) == merged_ids(kept, added),
{
    match kept {
        Some(mut ids) => {
            match added {
                Some(mut more) => {
                    ids.append(&mut more);
                },
                None => {},
            }
            Some(ids)
        },
        None => added,
    }
}

impl Feedback {
    /// The feedback that carries the given keyword ids. A direction
    /// without ids is left absent.
    pub fn from_votes(upvotes: Vec<i64>, downvotes: Vec<i64>) -> (feedback: Feedback)
        ensures
            ids_of(feedback.like) == (if upvotes@.len() == 0 {
                None
            } else {
                Some(upvotes@)
            }),
            ids_of(feedback.dislike) == (if downvotes@.len() == 0 {
                None
            } else {
                Some(downvotes@)
            }),
    {
        let like = if upvotes.len() == 0 {
            None
        } else {
            Some(upvotes)
        };
        let dislike = if downvotes.len() == 0 {
            None
        } else {
            Some(downvotes)
        };
        Feedback { like, dislike }
    }
}

impl RecommendationCriteria {
    /// The criteria of a session that has chosen nothing yet.
    pub fn empty() -> (criteria: RecommendationCriteria)
        ensures
            criteria.genres is None,
            criteria.watch_providers is None,
            criteria.runtime is None,
            criteria.decade is None,
            criteria.feedback is None,
    {
        RecommendationCriteria {
            genres: None,
            watch_providers: None,
            runtime: None,
            decade: None,
            feedback: None,
        }
    }
}

/// Adds new feedback to the criteria. In each direction the new keyword
/// ids are appended to those already held; nothing else changes.
pub fn update_feedback(criteria: RecommendationCriteria, feedback: Feedback) -> (updated:
    RecommendationCriteria)
    ensures
        updated.genres == criteria.genres,
        updated.watch_providers == criteria.watch_providers,
        updated.runtime == criteria.runtime,
        updated.decade == criteria.decade,
        updated.feedback is Some,
        ids_of(updated.feedback->0.like) == merged_ids(prior_likes(criteria), feedback.like),
        ids_of(updated.feedback->0.dislike) == merged_ids(
            prior_dislikes(criteria),
            feedback.dislike,
        ),
{
    let RecommendationCriteria { genres, watch_providers, runtime, decade, feedback: held } =
        criteria;
    let merged = match held {
        Some(criteria_feedback) => {
            let Feedback { like, dislike } = criteria_feedback;
            let Feedback { like: new_like, dislike: new_dislike } = feedback;
            Feedback { like: merge_ids(like, new_like), dislike: merge_ids(dislike, new_dislike) }
        },
        None => feedback,
    };
    RecommendationCriteria { genres, watch_providers, runtime, decade, feedback: Some(merged) }
}

} // verus!
