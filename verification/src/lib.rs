//! Movie recommendations from a viewer's choices.
//!
//! A session chooses genres, streaming services, a runtime band and a
//! decade band. From these the library makes the query for the film
//! catalog, keeps the first candidates of the catalog's answer, and joins
//! each candidate with the services it can be streamed on. Likes and
//! dislikes of earlier results are turned into keywords to prefer and to
//! exclude in later queries.
//!
//! The library does no input or output. Whoever calls it asks the catalog
//! and hands the answers over as plain values; a lookup that failed is
//! handed over as `None`.

pub mod augment;
pub mod bands;
pub mod catalog;
pub mod criteria;
pub mod fetch;
pub mod join;
pub mod keywords;
pub mod orchestrator;
pub mod providers;
pub mod refine;
pub mod session;
pub mod tmdb;
pub mod workflow;

pub use crate::bands::{Decade, DecadeInfo, DecadeResponse, Runtime, RuntimeInfo, RuntimeResponse};
pub use crate::catalog::{
    Genre, GetGenresResponse, GetProvidersResponse, GetRecommendationsResponse,
    GetWatchProvidersResponse, Keyword, KeywordResponse, Movie, MovieRecommendation,
    SearchByTitleResponse, WatchProvider, WatchProviderRegion, WatchProviderRegions,
};
pub use crate::criteria::{Feedback, RecommendationCriteria};
pub use crate::tmdb::Tmdb;
pub use crate::workflow::{GenreStep, ProviderStep, WorkflowSteps};
