use movie_recommendation::bands::{get_decades, get_runtimes};
use movie_recommendation::providers::{
    get_simple_watch_providers, is_listed, replace_text, supported_providers,
};
use movie_recommendation::workflow::{split_commas, GenreStep, ProviderStep};
use movie_recommendation::{Genre, WatchProvider};

fn provider(id: i32, name: &str, logo: &str) -> WatchProvider {
    WatchProvider {
        logo_path: logo.to_string(),
        provider_id: id,
        provider_name: name.to_string(),
    }
}

fn genre(id: i32, name: &str) -> Genre {
    Genre {
        id,
        name: name.to_string(),
    }
}

fn names(list: &[&str]) -> Vec<String> {
    list.iter().map(|n| n.to_string()).collect()
}

#[test]
fn the_supported_services() {
    assert_eq!(
        supported_providers(),
        names(&[
            "Netflix",
            "Hulu",
            "Apple TV",
            "Peacock",
            "Amazon Prime Video",
            "Max",
            "Disney Plus",
            "Tubi",
            "Crunchyroll",
            "Paramount Plus",
        ])
    );
}

#[test]
fn simple_providers_keep_the_supported_ones_in_order() {
    let catalog = vec![
        provider(2, "Apple TV", "/apple.jpg"),
        provider(3, "Google Play Movies", "/google.jpg"),
        provider(8, "Netflix", "/pbpMk2JmcoNnQwx5JGpXngfoWtp.jpg"),
        provider(192, "YouTube", "/yt.jpg"),
        provider(15, "Hulu", "/bxBlRPEPpMVDc4jMhSrTf2339DW.jpg"),
    ];
    let shown = get_simple_watch_providers(catalog);
    assert_eq!(
        shown,
        vec![
            provider(2, "Apple TV", "/apple.svg"),
            provider(8, "Netflix", "/pbpMk2JmcoNnQwx5JGpXngfoWtp.svg"),
            provider(15, "Hulu", "/bxBlRPEPpMVDc4jMhSrTf2339DW.svg"),
        ]
    );
}

#[test]
fn simple_providers_replace_every_jpg_in_a_path() {
    let shown = get_simple_watch_providers(vec![
        provider(1, "Max", "/jpg/logo.jpg"),
        provider(2, "Tubi", "/logo.png"),
    ]);
    assert_eq!(
        shown,
        vec![provider(1, "Max", "/svg/logo.svg"), provider(2, "Tubi", "/logo.png")]
    );
}

#[test]
fn simple_providers_of_nothing_supported() {
    assert!(get_simple_watch_providers(vec![]).is_empty());
    assert!(get_simple_watch_providers(vec![provider(1, "netflix", "/n.jpg")]).is_empty());
}

#[test]
fn listed_names_are_found_exactly() {
    let list = names(&["Action", "Drama"]);
    assert!(is_listed(&list, &"Drama".to_string()));
    assert!(!is_listed(&list, &"drama".to_string()));
    assert!(!is_listed(&list, &"".to_string()));
    assert!(!is_listed(&vec![], &"Drama".to_string()));
}

#[test]
fn commas_split_a_line() {
    assert_eq!(split_commas("Action,Drama"), names(&["Action", "Drama"]));
    assert_eq!(split_commas("Action"), names(&["Action"]));
    assert_eq!(split_commas(""), names(&[""]));
    assert_eq!(split_commas(","), names(&["", ""]));
    assert_eq!(split_commas("a,,b,"), names(&["a", "", "b", ""]));
    assert_eq!(
        split_commas("Action, Science Fiction\n"),
        names(&["Action", " Science Fiction\n"])
    );
    assert_eq!(split_commas("Amélie,東京"), names(&["Amélie", "東京"]));
}

#[test]
fn commas_split_as_the_standard_library_does() {
    let lines = ["", ",", ",,", "a", "a,b", ",a", "a,", "ab,,cd,e\n", "é,ü,,"];
    for line in lines {
        let expected: Vec<String> = line.split(",").map(|p| p.to_string()).collect();
        assert_eq!(split_commas(line), expected);
    }
}

#[test]
fn the_genre_step_picks_entered_genres_in_list_order() {
    let step = GenreStep {
        genre_list: vec![
            genre(28, "Action"),
            genre(12, "Adventure"),
            genre(18, "Drama"),
            genre(35, "Comedy"),
        ],
    };
    let picked = step.pick(&names(&["Drama", "Action", "Western"]));
    assert_eq!(picked, vec![genre(28, "Action"), genre(18, "Drama")]);
    assert!(step.pick(&vec![]).is_empty());
    assert!(step.pick(&names(&["Drama\n"])).is_empty());
}

#[test]
fn the_provider_step_picks_entered_services_in_list_order() {
    let step = ProviderStep::new(vec![
        provider(8, "Netflix", "/n.jpg"),
        provider(3, "Google Play Movies", "/g.jpg"),
        provider(15, "Hulu", "/h.jpg"),
    ]);
    assert_eq!(step.supported_providers, supported_providers());
    let picked = step.pick(&names(&["Hulu", "Google Play Movies"]));
    assert_eq!(
        picked,
        vec![
            provider(3, "Google Play Movies", "/g.jpg"),
            provider(15, "Hulu", "/h.jpg"),
        ]
    );
}

#[test]
fn the_runtime_options() {
    let runtimes = get_runtimes();
    let listed: Vec<&str> = runtimes.iter().map(|r| r.name.as_str()).collect();
    assert_eq!(listed, vec!["Quick", "Average", "Movie Night", "Martin Scorsese"]);
    assert_eq!(runtimes[1].description, "You've got some time, lets make it count");
}

#[test]
fn the_decade_options() {
    let decades = get_decades();
    let listed: Vec<&str> = decades.iter().map(|d| d.name.as_str()).collect();
    assert_eq!(
        listed,
        vec!["Classics", "50s", "60s", "70s", "80s", "90s", "2000s", "2010s", "Recent"]
    );
}

#[test]
fn text_is_replaced_as_the_standard_library_does() {
    let cases = [
        ("/logo.jpg", "jpg", "svg"),
        ("jpgjpg", "jpg", "svg"),
        ("jpjpgg", "jpg", "svg"),
        ("", "jpg", "svg"),
        ("jp", "jpg", "svg"),
        ("aaaa", "aa", "b"),
        ("aaa", "aa", "b"),
        ("abcabc", "bc", ""),
        ("abcabc", "abcabc", "x"),
        ("abc", "abcd", "x"),
        ("été.jpg", "é", "e"),
        ("東京/jpg/東京.jpg", "jpg", "svg"),
    ];
    for (text, from, to) in cases {
        assert_eq!(replace_text(text, from, to), text.replace(from, to));
    }
    assert_eq!(replace_text("/a.jpg", "jpg", "svg"), "/a.svg");
    assert_eq!(replace_text("abc", "", "-"), "abc");
}
