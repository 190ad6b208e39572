use movie_recommendation::{Decade, Runtime};

#[test]
fn runtime_bands_cover_their_minutes() {
    assert_eq!(Runtime::Quick.runtime(), (60, 90));
    assert_eq!(Runtime::Average.runtime(), (90, 120));
    assert_eq!(Runtime::MovieNight.runtime(), (120, 150));
    assert_eq!(Runtime::MartinScorsese.runtime(), (150, 500));
}

#[test]
fn runtime_info_names_and_describes() {
    let quick = Runtime::Quick.info();
    assert_eq!(quick.name, "Quick");
    assert_eq!(
        quick.description,
        "You're not looking for a commitment, but still want something awesome"
    );
    let average = Runtime::Average.info();
    assert_eq!(average.name, "Average");
    assert_eq!(average.description, "You've got some time, lets make it count");
    let night = Runtime::MovieNight.info();
    assert_eq!(night.name, "Movie Night");
    assert_eq!(
        night.description,
        "Grab your popcorn, lets find a movie with that 'wow' factor"
    );
    let long = Runtime::MartinScorsese.info();
    assert_eq!(long.name, "Martin Scorsese");
    assert_eq!(
        long.description,
        "You refer to movies as 'films' and have a lot of time on your hands"
    );
}

#[test]
fn runtime_from_string_reads_wire_names() {
    assert_eq!(Runtime::from_string("Quick"), Runtime::Quick);
    assert_eq!(Runtime::from_string("Average"), Runtime::Average);
    assert_eq!(Runtime::from_string("MovieNight"), Runtime::MovieNight);
    assert_eq!(Runtime::from_string("MartinScorsese"), Runtime::MartinScorsese);
}

#[test]
fn runtime_from_string_falls_back_to_average() {
    assert_eq!(Runtime::from_string(""), Runtime::Average);
    assert_eq!(Runtime::from_string("quick"), Runtime::Average);
    assert_eq!(Runtime::from_string("Movie Night"), Runtime::Average);
    assert_eq!(Runtime::from_string("Martin Scorsese"), Runtime::Average);
}

#[test]
fn decade_year_ranges() {
    let range = |d: Decade| {
        let (first, last) = d.year_range();
        (first, last)
    };
    assert_eq!(range(Decade::Classic), ("1900".to_string(), "1949".to_string()));
    assert_eq!(range(Decade::Fifties), ("1950".to_string(), "1959".to_string()));
    assert_eq!(range(Decade::Sixties), ("1960".to_string(), "1969".to_string()));
    assert_eq!(range(Decade::Seventies), ("1970".to_string(), "1979".to_string()));
    assert_eq!(range(Decade::Eighties), ("1980".to_string(), "1989".to_string()));
    assert_eq!(range(Decade::Nineties), ("1990".to_string(), "1999".to_string()));
    assert_eq!(range(Decade::TwoThousands), ("2000".to_string(), "2009".to_string()));
    assert_eq!(range(Decade::TwentyTens), ("2010".to_string(), "2019".to_string()));
    assert_eq!(range(Decade::Recent), ("2020".to_string(), "2024".to_string()));
}

#[test]
fn decade_info_names() {
    assert_eq!(Decade::Classic.info().name, "Classics");
    assert_eq!(Decade::Fifties.info().name, "50s");
    assert_eq!(Decade::Sixties.info().name, "60s");
    assert_eq!(Decade::Seventies.info().name, "70s");
    assert_eq!(Decade::Eighties.info().name, "80s");
    assert_eq!(Decade::Nineties.info().name, "90s");
    assert_eq!(Decade::TwoThousands.info().name, "2000s");
    assert_eq!(Decade::TwentyTens.info().name, "2010s");
    assert_eq!(Decade::Recent.info().name, "Recent");
}

#[test]
fn decade_from_string_reads_display_names() {
    assert_eq!(Decade::from_string("Classics"), Decade::Classic);
    assert_eq!(Decade::from_string("50s"), Decade::Fifties);
    assert_eq!(Decade::from_string("60s"), Decade::Sixties);
    assert_eq!(Decade::from_string("70s"), Decade::Seventies);
    assert_eq!(Decade::from_string("80s"), Decade::Eighties);
    assert_eq!(Decade::from_string("90s"), Decade::Nineties);
    assert_eq!(Decade::from_string("2000s"), Decade::TwoThousands);
    assert_eq!(Decade::from_string("2010s"), Decade::TwentyTens);
    assert_eq!(Decade::from_string("Recent"), Decade::Recent);
}

#[test]
fn decade_from_string_falls_back_to_recent() {
    assert_eq!(Decade::from_string(""), Decade::Recent);
    assert_eq!(Decade::from_string("Classic"), Decade::Recent);
    assert_eq!(Decade::from_string("1950s"), Decade::Recent);
}

#[test]
fn decade_names_round_trip() {
    let all = [
        Decade::Classic,
        Decade::Fifties,
        Decade::Sixties,
        Decade::Seventies,
        Decade::Eighties,
        Decade::Nineties,
        Decade::TwoThousands,
        Decade::TwentyTens,
        Decade::Recent,
    ];
    for decade in all {
        assert_eq!(Decade::from_string(&decade.info().name), decade);
    }
}
