use movie_recommendation::fetch::{
    candidates, catalog_query, CriteriaField, RecommendationError, MAX_CANDIDATES,
};
use movie_recommendation::{
    Decade, Feedback, Genre, Movie, RecommendationCriteria, Runtime, WatchProvider,
};

fn full_criteria() -> RecommendationCriteria {
    RecommendationCriteria {
        genres: Some(vec![
            Genre {
                id: 28,
                name: "Action".to_string(),
            },
            Genre {
                id: 12,
                name: "Adventure".to_string(),
            },
        ]),
        watch_providers: Some(vec![WatchProvider {
            logo_path: "/".to_string(),
            provider_id: 8,
            provider_name: "Netflix".to_string(),
        }]),
        runtime: Some(Runtime::from_string("Average")),
        decade: Some(Decade::from_string("Recent")),
        feedback: None,
    }
}

fn movie(id: i64) -> Movie {
    Movie {
        id,
        overview: format!("overview {}", id),
        poster_path: None,
        release_date: "2016-02-09".to_string(),
        title: format!("title {}", id),
    }
}

#[test]
fn query_carries_the_resolved_criteria() {
    let query = catalog_query(full_criteria()).unwrap();
    assert_eq!(query.genre_ids, vec![28, 12]);
    assert_eq!(query.provider_ids, vec![8]);
    assert_eq!(query.min_runtime, 90);
    assert_eq!(query.max_runtime, 120);
    assert_eq!(query.start_year, "2020");
    assert_eq!(query.end_year, "2024");
    assert_eq!(query.preferred_keywords, None);
    assert_eq!(query.excluded_keywords, None);
}

#[test]
fn query_carries_the_feedback_keywords() {
    let mut criteria = full_criteria();
    criteria.feedback = Some(Feedback {
        like: Some(vec![3210, 5678]),
        dislike: None,
    });
    let query = catalog_query(criteria).unwrap();
    assert_eq!(query.preferred_keywords, Some(vec![3210, 5678]));
    assert_eq!(query.excluded_keywords, None);
}

#[test]
fn query_accepts_empty_choices() {
    let mut criteria = full_criteria();
    criteria.genres = Some(vec![]);
    criteria.watch_providers = Some(vec![]);
    let query = catalog_query(criteria).unwrap();
    assert!(query.genre_ids.is_empty());
    assert!(query.provider_ids.is_empty());
}

#[test]
fn missing_genres_are_reported() {
    let mut criteria = full_criteria();
    criteria.genres = None;
    assert_eq!(
        catalog_query(criteria),
        Err(RecommendationError::MissingCriteriaField(CriteriaField::Genres))
    );
    assert_eq!(CriteriaField::Genres.name(), "genres");
}

#[test]
fn missing_watch_providers_are_reported() {
    let mut criteria = full_criteria();
    criteria.watch_providers = None;
    assert_eq!(
        catalog_query(criteria),
        Err(RecommendationError::MissingCriteriaField(
            CriteriaField::WatchProviders
        ))
    );
    assert_eq!(CriteriaField::WatchProviders.name(), "watch_providers");
}

#[test]
fn missing_runtime_is_reported() {
    let mut criteria = full_criteria();
    criteria.runtime = None;
    assert_eq!(
        catalog_query(criteria),
        Err(RecommendationError::MissingCriteriaField(CriteriaField::Runtime))
    );
    assert_eq!(CriteriaField::Runtime.name(), "runtime");
}

#[test]
fn missing_decade_is_reported() {
    let mut criteria = full_criteria();
    criteria.decade = None;
    assert_eq!(
        catalog_query(criteria),
        Err(RecommendationError::MissingCriteriaField(CriteriaField::Decade))
    );
    assert_eq!(CriteriaField::Decade.name(), "decade");
}

#[test]
fn the_first_missing_field_is_the_one_reported() {
    let criteria = RecommendationCriteria::empty();
    assert_eq!(
        catalog_query(criteria),
        Err(RecommendationError::MissingCriteriaField(CriteriaField::Genres))
    );
    let mut criteria = full_criteria();
    criteria.runtime = None;
    criteria.decade = None;
    assert_eq!(
        catalog_query(criteria),
        Err(RecommendationError::MissingCriteriaField(CriteriaField::Runtime))
    );
}

#[test]
fn a_failed_catalog_fails_the_fetch() {
    assert_eq!(candidates(None), Err(RecommendationError::CatalogUnavailable));
}

#[test]
fn a_long_page_is_cut_to_ten_in_order() {
    let page: Vec<Movie> = (1..=25).map(movie).collect();
    let kept = candidates(Some(page)).unwrap();
    assert_eq!(kept.len(), 10);
    assert_eq!(MAX_CANDIDATES, 10);
    let ids: Vec<i64> = kept.iter().map(|m| m.id).collect();
    assert_eq!(ids, vec![1, 2, 3, 4, 5, 6, 7, 8, 9, 10]);
    assert_eq!(kept[9], movie(10));
}

#[test]
fn a_short_page_is_kept_whole() {
    let page = vec![movie(7), movie(3), movie(5)];
    let kept = candidates(Some(page)).unwrap();
    assert_eq!(kept, vec![movie(7), movie(3), movie(5)]);
    let exact: Vec<Movie> = (1..=10).map(movie).collect();
    assert_eq!(candidates(Some(exact.clone())).unwrap(), exact);
    let eleven: Vec<Movie> = (1..=11).map(movie).collect();
    assert_eq!(candidates(Some(eleven)).unwrap(), exact);
}

#[test]
fn an_empty_page_gives_no_candidates() {
    assert_eq!(candidates(Some(vec![])), Ok(vec![]));
}
