use vstd::prelude::*;
use crate::augment::{augment, candidate_ids, is_augmentation_of, lookup_keys};
use crate::catalog::{Movie, MovieRecommendation, WatchProvider};
use crate::criteria::RecommendationCriteria;
use crate::join::{failed_keys, failed_lookups};
use crate::fetch::{
    candidates, catalog_query, first_missing, head, is_query_for, CatalogQuery,
    RecommendationError, MAX_CANDIDATES,
};

verus! {

/// Where one recommendation stands.
#[derive(Debug, Clone, PartialEq, Eq)]
pub enum Recommendation {
    /// The catalog was asked and has not answered yet.
    AwaitingCatalog,
    /// The provider lookups of these candidates are running.
    AwaitingProviders(Vec<Movie>),
    /// The recommendation was delivered or has failed.
    Closed,
}

/// What the outside world reports back.
#[derive(Debug, Clone, PartialEq, Eq)]
pub enum Event {
    /// The catalog's first page, most popular first; `None` if the catalog
    /// failed.
    CatalogAnswered(Option<Vec<Movie>>),
    /// Every provider lookup has ended. The outcome at a position belongs
    /// to the id at that position of the lookups asked for; `None` stands
    /// for a lookup that failed.
    ProvidersJoined(Vec<Option<Vec<WatchProvider>>>),
}

/// What is to be done next.
#[derive(Debug, Clone, PartialEq, Eq)]
pub enum Action {
    /// Send the query to the catalog and report its answer.
    QueryCatalog(CatalogQuery),
    /// Look up the providers of each of these films side by side, wait for
    /// all of them, and report the outcomes in the order of the ids.
    LookUpProviders(Vec<i64>),
    /// Hand the recommendations to the caller. The ids are those of the
    /// films whose provider lookup failed, to be put on record.
    Deliver(Vec<MovieRecommendation>, Vec<i64>),
    /// Report the failure to the caller.
    Fail(RecommendationError),
    /// The event was not waited for: nothing to do.
    Wait,
}

impl Recommendation {
    /// Starts a recommendation. With all required criteria the catalog is
    /// to be asked; with one missing the recommendation fails at once and
    /// the catalog is not asked.
    pub fn start(criteria: RecommendationCriteria) -> (begun: (Recommendation, Action))
        ensures
            match first_missing(criteria) {
                Some(field) => {
                    &&& begun.0 is Closed
                    &&& begun.1 == Action::Fail(RecommendationError::MissingCriteriaField(field))
                },
                None => {
                    &&& begun.0 is AwaitingCatalog
                    &&& begun.1 is QueryCatalog
                    &&& is_query_for(begun.1->QueryCatalog_0, criteria)
                },
            },
    {
        match catalog_query(criteria) {
            Ok(query) => (Recommendation::AwaitingCatalog, Action::QueryCatalog(query)),
            Err(error) => (Recommendation::Closed, Action::Fail(error)),
        }
    }

    /// Takes the recommendation one step on. A catalog that failed fails
    /// the recommendation. A page is cut to its first ten films, whose
    /// providers are then to be looked up: never more than ten lookups.
    /// The joined outcomes are paired with the candidates, in the
    /// candidates' order, and delivered: failed lookups leave their films
    /// without services, are put on record, and fail nothing. An event
    /// that the stage does not wait for changes nothing.
    pub fn on_event(self, event: Event) -> (next: (Recommendation, Action))
        ensures
            match (self, event) {
                (Recommendation::AwaitingCatalog, Event::CatalogAnswered(None)) => {
                    &&& next.0 is Closed
                    &&& next.1 == Action::Fail(RecommendationError::CatalogUnavailable)
                },
                (Recommendation::AwaitingCatalog, Event::CatalogAnswered(Some(page))) => {
                    &&& next.0 is AwaitingProviders
                    &&& next.0->AwaitingProviders_0@ == head(page@, MAX_CANDIDATES as int)
                    &&& next.1 is LookUpProviders
                    &&& next.1->LookUpProviders_0@ == candidate_ids(
                        head(page@, MAX_CANDIDATES as int),
                    )
                    &&& next.1->LookUpProviders_0@.len() <= MAX_CANDIDATES
                },
                (Recommendation::AwaitingProviders(kept), Event::ProvidersJoined(lookups)) => {
                    &&& next.0 is Closed
                    &&& next.1 is Deliver
                    &&& is_augmentation_of(next.1->Deliver_0@, kept@, lookups@)
                    &&& next.1->Deliver_1@ == failed_keys(candidate_ids(kept@), lookups@)
                },
                _ => next.0 == self && next.1 is Wait,
            },
    {
        match self {
            Recommendation::AwaitingCatalog => match event {
                Event::CatalogAnswered(page) => match candidates(page) {
                    Ok(kept) => {
                        let keys = lookup_keys(&kept);
                        (Recommendation::AwaitingProviders(kept), Action::LookUpProviders(keys))
                    },
                    Err(error) => (Recommendation::Closed, Action::Fail(error)),
                },
                Event::ProvidersJoined(_) => (Recommendation::AwaitingCatalog, Action::Wait),
            },
            Recommendation::AwaitingProviders(kept) => match event {
                Event::ProvidersJoined(lookups) => {
                    let failed = failed_lookups(&lookup_keys(&kept), &lookups);
                    (Recommendation::Closed, Action::Deliver(augment(kept, lookups), failed))
                },
                Event::CatalogAnswered(_) => (Recommendation::AwaitingProviders(kept), Action::Wait),
            },
            Recommendation::Closed => (Recommendation::Closed, Action::Wait),
        }
    }
}

} // verus!
