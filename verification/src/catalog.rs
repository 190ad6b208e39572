use vstd::prelude::*;

verus! {

/// A film as the catalog returns it.
#[derive(Debug, Clone, PartialEq, Eq)]
pub struct Movie {
    pub id: i64,
    pub overview: String,
    pub poster_path: Option<String>,
    pub release_date: String,
    pub title: String,
}

/// The catalog's answer to a search by title.
#[derive(Debug, Clone, PartialEq, Eq)]
pub struct SearchByTitleResponse {
    pub results: Vec<Movie>,
}

/// A streaming service.
#[derive(Debug, Clone, PartialEq, Eq)]
pub struct WatchProvider {
    pub logo_path: String,
    pub provider_id: i32,
    pub provider_name: String,
}

/// A streaming service as plain values.
pub struct WatchProviderView {
    pub logo_path: Seq<char>,
    pub provider_id: int,
    pub provider_name: Seq<char>,
}

impl View for WatchProvider {
    type V = WatchProviderView;

    open spec fn view(&self) -> WatchProviderView {
        WatchProviderView {
            logo_path: self.logo_path@,
            provider_id: self.provider_id as int,
            provider_name: self.provider_name@,
        }
    }
}

/// The offers of one market. Only subscription ("flatrate") services are
/// kept; offers to buy or rent are not read.
#[derive(Debug, Clone, PartialEq, Eq)]
pub struct WatchProviderRegion {
    pub flatrate: Vec<WatchProvider>,
}

/// The markets that are read from a provider lookup.
#[derive(Debug, Clone, PartialEq, Eq)]
pub struct WatchProviderRegions {
    pub us: WatchProviderRegion,
}

/// The answer to a provider lookup for one film.
#[derive(Debug, Clone, PartialEq, Eq)]
pub struct GetWatchProvidersResponse {
    pub results: WatchProviderRegions,
}

/// A film genre.
#[derive(Debug, Clone, PartialEq, Eq)]
pub struct Genre {
    pub id: i32,
    pub name: String,
}

/// The catalog's list of genres.
#[derive(Debug, Clone, PartialEq, Eq)]
pub struct GetGenresResponse {
    pub genres: Vec<Genre>,
}

/// The catalog's list of streaming services.
#[derive(Debug, Clone, PartialEq, Eq)]
pub struct GetProvidersResponse {
    pub results: Vec<WatchProvider>,
}

/// One page of candidates, most popular first.
#[derive(Debug, Clone, PartialEq, Eq)]
pub struct GetRecommendationsResponse {
    pub results: Vec<Movie>,
}

/// A descriptive keyword attached to a film.
#[derive(Debug, Clone, PartialEq, Eq)]
pub struct Keyword {
    pub id: i64,
    pub name: String,
}

/// The answer to a keyword lookup for one film.
#[derive(Debug, Clone, PartialEq, Eq)]
pub struct KeywordResponse {
    pub id: i64,
    pub keywords: Vec<Keyword>,
}

/// A film together with the services it can be streamed on. An empty list
/// means that it is not available on any of them right now.
#[derive(Debug, Clone, PartialEq, Eq)]
pub struct MovieRecommendation {
    pub movie: Movie,
    pub providers: Vec<WatchProvider>,
}

} // verus!
