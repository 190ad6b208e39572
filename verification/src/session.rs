use vstd::prelude::*;
use crate::criteria::RecommendationCriteria;

verus! {

/// The shape of a session id: 36 characters, in five groups that hyphens
/// separate after the 8th, 12th, 16th and 20th digit.
pub open spec fn is_session_id(text: Seq<char>) -> bool {
    &&& text.len() == 36
    &&& text[8] == '-'
    &&& text[13] == '-'
    &&& text[18] == '-'
    &&& text[23] == '-'
}

/// Calls `uuid::Uuid::new_v4` and writes the result with its `Display`
/// impl. Trusted, not proved: the text is the hyphenated form, which is 36
/// characters long with hyphens at the offsets 8, 13, 18 and 23. The
/// digits are random, so nothing is said of them. `new_v4` panics if the
/// operating system cannot supply random bytes.
#[verifier::external_body]
fn random_uuid_text() -> (text: String)
    ensures
        is_session_id(text@),
{
    uuid::Uuid::new_v4().to_string()
}

/// Opens a session: a fresh random id, and the criteria to store under it,
/// in which nothing is chosen yet.
pub fn start_recommendation_session() -> (session: (String, RecommendationCriteria))
    ensures
        is_session_id(session.0@),
        session.1.genres is None,
        session.1.watch_providers is None,
        session.1.runtime is None,
        session.1.decade is None,
        session.1.feedback is None,
{
    let session_id = random_uuid_text();
    (session_id, RecommendationCriteria::empty())
}

} // verus!
