use vstd::prelude::*;
use vstd::string::*;
use crate::catalog::{Genre, Movie, WatchProvider};
use crate::criteria::{prior_dislikes, prior_likes, RecommendationCriteria};

verus! {

/// How many candidates are kept from a catalog page. It bounds the number
/// of provider lookups that run side by side for one recommendation.
pub const MAX_CANDIDATES: usize = 10;

/// The criteria that a recommendation cannot do without.
#[derive(Debug, Clone, Copy, PartialEq, Eq, Structural)]
pub enum CriteriaField {
    Genres,
    WatchProviders,
    Runtime,
    Decade,
}

/// Why a recommendation could not be made.
#[derive(Debug, Clone, Copy, PartialEq, Eq, Structural)]
pub enum RecommendationError {
    /// The session has not chosen the named field yet.
    MissingCriteriaField(CriteriaField),
    /// The catalog did not answer, or its answer could not be read.
    CatalogUnavailable,
}

impl CriteriaField {
    /// The field's name as clients know it.
    pub open spec fn label(self) -> Seq<char> {
        match self {
            CriteriaField::Genres => "genres"@,
            CriteriaField::WatchProviders => "watch_providers"@,
            CriteriaField::Runtime => "runtime"@,
            CriteriaField::Decade => "decade"@,
        }
    }

    /// The field's name as clients know it.
    pub fn name(&self) -> (name: String)
        ensures
            name@ == self.label(),
    {
        match self {
            CriteriaField::Genres => String::from_str("genres"),
            CriteriaField::WatchProviders => String::from_str("watch_providers"),
            CriteriaField::Runtime => String::from_str("runtime"),
            CriteriaField::Decade => String::from_str("decade"),
        }
    }
}

/// What is asked of the catalog for one recommendation.
#[derive(Debug, Clone, PartialEq, Eq)]
pub struct CatalogQuery {
    pub genre_ids: Vec<i32>,
    pub provider_ids: Vec<i32>,
    pub min_runtime: i32,
    pub max_runtime: i32,
    pub start_year: String,
    pub end_year: String,
    pub preferred_keywords: Option<Vec<i64>>,
    pub excluded_keywords: Option<Vec<i64>>,
}

/// The first required field that the criteria lack, in the order genres,
/// watch providers, runtime, decade.
pub open spec fn first_missing(criteria: RecommendationCriteria) -> Option<CriteriaField> {
    if criteria.genres is None {
        Some(CriteriaField::Genres)
    } else if criteria.watch_providers is None {
        Some(CriteriaField::WatchProviders)
    } else if criteria.runtime is None {
        Some(CriteriaField::Runtime)
    } else if criteria.decade is None {
        Some(CriteriaField::Decade)
    } else {
        None
    }
}

/// The ids of a list of genres, in order.
pub open spec fn genre_ids(genres: Seq<Genre>) -> Seq<i32> {
    genres.map_values(|g: Genre| g.id)
}

/// The ids of a list of streaming services, in order.
pub open spec fn provider_ids(providers: Seq<WatchProvider>) -> Seq<i32> {
    providers.map_values(|p: WatchProvider| p.provider_id)
}

/// The first `limit` items of a list, or all of them if there are fewer.
pub open spec fn head<T>(items: Seq<T>, limit: int) -> Seq<T> {
    if items.len() <= limit {
        items
    } else {
        items.take(limit)
    }
}

/// The ids of the genres, in order.
fn ids_of_genres(genres: &Vec<Genre>) -> (ids: Vec<i32>)
    ensures
        ids@ == genre_ids(genres@),
{
    let mut ids: Vec<i32> = Vec::new();
    let mut i: usize = 0;
    while i < genres.len()
        invariant
            i <= genres.len(),
            ids@ == genre_ids(genres@).take(i as int),
        decreases genres.len() - i,
    {
        ids.push(genres[i].id);
        assert(ids@ == genre_ids(genres@).take(i + 1));
        i += 1;
    }
    assert(genre_ids(genres@).take(genres.len() as int) == genre_ids(genres@));
    ids
}

/// The ids of the streaming services, in order.
fn ids_of_providers(providers: &Vec<WatchProvider>) -> (ids: Vec<i32>)
    ensures
        ids@ == provider_ids(providers@),
{
    let mut ids: Vec<i32> = Vec::new();
    let mut i: usize = 0;
    while i < providers.len()
        invariant
            i <= providers.len(),
            ids@ == provider_ids(providers@).take(i as int),
        decreases providers.len() - i,
    {
        ids.push(providers[i].provider_id);
        assert(ids@ == provider_ids(providers@).take(i + 1));
        i += 1;
    }
    assert(provider_ids(providers@).take(providers.len() as int) == provider_ids(providers@));
    ids
}

/// Whether `query` asks for what the criteria choose: the ids of the
/// chosen genres and services in their order, the minute range of the
/// runtime band, the year range of the decade band, and the liked and
/// disliked keyword ids as the keywords to prefer and to exclude.
pub open spec fn is_query_for(query: CatalogQuery, criteria: RecommendationCriteria) -> bool {
    &&& query.genre_ids@ == genre_ids(criteria.genres->0@)
    &&& query.provider_ids@ == provider_ids(criteria.watch_providers->0@)
    &&& query.min_runtime == criteria.runtime->0.minutes().0
    &&& query.max_runtime == criteria.runtime->0.minutes().1
    &&& query.start_year@ == criteria.decade->0.first_year()
    &&& query.end_year@ == criteria.decade->0.last_year()
    &&& query.preferred_keywords == prior_likes(criteria)
    &&& query.excluded_keywords == prior_dislikes(criteria)
}

/// Resolves the criteria into the query for the catalog. If a required
/// field is missing, the first such field is reported and there is no
/// query to send. Otherwise the query is the one that the criteria
/// describe.
pub fn catalog_query(criteria: RecommendationCriteria) -> (query: Result<
    CatalogQuery,
    RecommendationError,
>)
    ensures
        match first_missing(criteria) {
            Some(field) => query == Err::<CatalogQuery, RecommendationError>(
                RecommendationError::MissingCriteriaField(field),
            ),
            None => query is Ok && is_query_for(query->Ok_0, criteria),
        },
{
    let RecommendationCriteria { genres, watch_providers, runtime, decade, feedback } = criteria;
    let genres = match genres {
        Some(genres) => genres,
        None => {
            return Err(RecommendationError::MissingCriteriaField(CriteriaField::Genres));
        },
    };
    let watch_providers = match watch_providers {
        Some(watch_providers) => watch_providers,
        None => {
            return Err(RecommendationError::MissingCriteriaField(CriteriaField::WatchProviders));
        },
    };
    let runtime = match runtime {
        Some(runtime) => runtime,
        None => {
            return Err(RecommendationError::MissingCriteriaField(CriteriaField::Runtime));
        },
    };
    let decade = match decade {
        Some(decade) => decade,
        None => {
            return Err(RecommendationError::MissingCriteriaField(CriteriaField::Decade));
        },
    };
    let (preferred_keywords, excluded_keywords) = match feedback {
        Some(feedback) => (feedback.like, feedback.dislike),
        None => (None, None),
    };
    let (min_runtime, max_runtime): (i32, i32) = runtime.runtime();
    let (start_year, end_year) = decade.year_range();
    Ok(
        CatalogQuery {
            genre_ids: ids_of_genres(&genres),
            provider_ids: ids_of_providers(&watch_providers),
            min_runtime,
            max_runtime,
            start_year,
            end_year,
            preferred_keywords,
            excluded_keywords,
        },
    )
}

/// Takes the candidates from the catalog's answer. `None` stands for a
/// catalog that failed, which fails the recommendation. Of a page the
/// first ten films are kept, in the catalog's order.
pub fn candidates(page: Option<Vec<Movie>>) -> (kept: Result<Vec<Movie>, RecommendationError>)
    ensures
        match page {
            None => kept == Err::<Vec<Movie>, RecommendationError>(
                RecommendationError::CatalogUnavailable,
            ),
            Some(movies) => kept is Ok && kept->Ok_0@ == head(movies@, MAX_CANDIDATES as int),
        },
        kept is Ok ==> kept->Ok_0@.len() <= MAX_CANDIDATES,
{
    match page {
        None => Err(RecommendationError::CatalogUnavailable),
        Some(mut movies) => {
            movies.truncate(MAX_CANDIDATES);
            Ok(movies)
        },
    }
}

} // verus!
