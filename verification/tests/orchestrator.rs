use movie_recommendation::fetch::{CriteriaField, RecommendationError};
use movie_recommendation::orchestrator::{Action, Event, Recommendation};
use movie_recommendation::{
    Decade, Genre, Movie, MovieRecommendation, RecommendationCriteria, Runtime, WatchProvider,
};

fn full_criteria() -> RecommendationCriteria {
    RecommendationCriteria {
        genres: Some(vec![Genre {
            id: 28,
            name: "Action".to_string(),
        }]),
        watch_providers: Some(vec![WatchProvider {
            logo_path: "/".to_string(),
            provider_id: 8,
            provider_name: "Netflix".to_string(),
        }]),
        runtime: Some(Runtime::Quick),
        decade: Some(Decade::Nineties),
        feedback: None,
    }
}

fn movie(id: i64) -> Movie {
    Movie {
        id,
        overview: String::new(),
        poster_path: None,
        release_date: "1994-10-14".to_string(),
        title: format!("film {}", id),
    }
}

fn hulu() -> WatchProvider {
    WatchProvider {
        logo_path: "/bxBlRPEPpMVDc4jMhSrTf2339DW.jpg".to_string(),
        provider_id: 15,
        provider_name: "Hulu".to_string(),
    }
}

#[test]
fn a_recommendation_runs_from_criteria_to_delivery() {
    let (stage, action) = Recommendation::start(full_criteria());
    assert_eq!(stage, Recommendation::AwaitingCatalog);
    match action {
        Action::QueryCatalog(query) => {
            assert_eq!(query.genre_ids, vec![28]);
            assert_eq!(query.provider_ids, vec![8]);
            assert_eq!((query.min_runtime, query.max_runtime), (60, 90));
            assert_eq!(query.start_year, "1990");
            assert_eq!(query.end_year, "1999");
        }
        other => panic!("the catalog should be asked, not {:?}", other),
    }

    let page: Vec<Movie> = (1..=12).map(movie).collect();
    let (stage, action) = stage.on_event(Event::CatalogAnswered(Some(page)));
    let kept: Vec<Movie> = (1..=10).map(movie).collect();
    assert_eq!(stage, Recommendation::AwaitingProviders(kept.clone()));
    assert_eq!(
        action,
        Action::LookUpProviders(vec![1, 2, 3, 4, 5, 6, 7, 8, 9, 10])
    );

    let mut lookups: Vec<Option<Vec<WatchProvider>>> = vec![Some(vec![hulu()]); 10];
    lookups[3] = None;
    let (stage, action) = stage.on_event(Event::ProvidersJoined(lookups));
    assert_eq!(stage, Recommendation::Closed);
    let expected: Vec<MovieRecommendation> = kept
        .into_iter()
        .map(|m| MovieRecommendation {
            providers: if m.id == 4 { vec![] } else { vec![hulu()] },
            movie: m,
        })
        .collect();
    assert_eq!(action, Action::Deliver(expected, vec![4]));
}

#[test]
fn missing_genres_fail_before_the_catalog_is_asked() {
    let mut criteria = full_criteria();
    criteria.genres = None;
    let (stage, action) = Recommendation::start(criteria);
    assert_eq!(stage, Recommendation::Closed);
    assert_eq!(
        action,
        Action::Fail(RecommendationError::MissingCriteriaField(
            CriteriaField::Genres
        ))
    );
}

#[test]
fn a_failed_catalog_fails_the_recommendation() {
    let (stage, _) = Recommendation::start(full_criteria());
    let (stage, action) = stage.on_event(Event::CatalogAnswered(None));
    assert_eq!(stage, Recommendation::Closed);
    assert_eq!(action, Action::Fail(RecommendationError::CatalogUnavailable));
}

#[test]
fn an_empty_page_delivers_nothing_without_error() {
    let (stage, _) = Recommendation::start(full_criteria());
    let (stage, action) = stage.on_event(Event::CatalogAnswered(Some(vec![])));
    assert_eq!(stage, Recommendation::AwaitingProviders(vec![]));
    assert_eq!(action, Action::LookUpProviders(vec![]));
    let (stage, action) = stage.on_event(Event::ProvidersJoined(vec![]));
    assert_eq!(stage, Recommendation::Closed);
    assert_eq!(action, Action::Deliver(vec![], vec![]));
}

#[test]
fn events_that_are_not_waited_for_change_nothing() {
    let (stage, _) = Recommendation::start(full_criteria());
    let (stage, action) = stage.on_event(Event::ProvidersJoined(vec![None]));
    assert_eq!(stage, Recommendation::AwaitingCatalog);
    assert_eq!(action, Action::Wait);

    let (stage, _) = stage.on_event(Event::CatalogAnswered(Some(vec![movie(1)])));
    let (stage, action) = stage.on_event(Event::CatalogAnswered(None));
    assert_eq!(stage, Recommendation::AwaitingProviders(vec![movie(1)]));
    assert_eq!(action, Action::Wait);

    let (stage, _) = stage.on_event(Event::ProvidersJoined(vec![None]));
    assert_eq!(stage, Recommendation::Closed);
    let (stage, action) = stage.on_event(Event::CatalogAnswered(Some(vec![movie(2)])));
    assert_eq!(stage, Recommendation::Closed);
    assert_eq!(action, Action::Wait);
    let (stage, action) = stage.on_event(Event::ProvidersJoined(vec![]));
    assert_eq!(stage, Recommendation::Closed);
    assert_eq!(action, Action::Wait);
}
