use vstd::prelude::*;
use vstd::string::*;

verus! {

/// How long a film the viewer is in the mood for.
#[derive(Debug, Clone, Copy, PartialEq, Eq, Structural)]
pub enum Runtime {
    Quick,
    Average,
    MovieNight,
    MartinScorsese,
}

/// A runtime band as it is handed over by a client.
#[derive(Debug, Clone, Copy)]
pub struct RuntimeResponse {
    pub runtime: Runtime,
}

/// What a client shows for a runtime band.
#[derive(Debug, Clone, PartialEq, Eq)]
pub struct RuntimeInfo {
    pub name: String,
    pub description: String,
}

impl Runtime {
    /// The inclusive range of minutes that the band covers.
    pub open spec fn minutes(self) -> (int, int) {
        match self {
            Runtime::Quick => (60, 90),
            Runtime::Average => (90, 120),
            Runtime::MovieNight => (120, 150),
            Runtime::MartinScorsese => (150, 500),
        }
    }

    /// The name under which the band is shown.
    pub open spec fn display_name(self) -> Seq<char> {
        match self {
            Runtime::Quick => "Quick"@,
            Runtime::Average => "Average"@,
            Runtime::MovieNight => "Movie Night"@,
            Runtime::MartinScorsese => "Martin Scorsese"@,
        }
    }

    /// The sentence that explains the band to the viewer.
    pub open spec fn blurb(self) -> Seq<char> {
        match self {
            Runtime::Quick => "You're not looking for a commitment, but still want something awesome"@,
            Runtime::Average => "You've got some time, lets make it count"@,
            Runtime::MovieNight => "Grab your popcorn, lets find a movie with that 'wow' factor"@,
            Runtime::MartinScorsese => "You refer to movies as 'films' and have a lot of time on your hands"@,
        }
    }

    /// The band that a wire name stands for. An unknown name stands for
    /// `Average`.
    pub open spec fn parse(text: Seq<char>) -> Runtime {
        if text == "Quick"@ {
            Runtime::Quick
        } else if text == "Average"@ {
            Runtime::Average
        } else if text == "MovieNight"@ {
            Runtime::MovieNight
        } else if text == "MartinScorsese"@ {
            Runtime::MartinScorsese
        } else {
            Runtime::Average
        }
    }

    /// Name and description of the band.
    pub fn info(&self) -> (info: RuntimeInfo)
        ensures
            info.name@ == self.display_name(),
            info.description@ == self.blurb(),
    {
        match self {
            Runtime::Quick => RuntimeInfo {
                name: String::from_str("Quick"),
                description: String::from_str(
                    "You're not looking for a commitment, but still want something awesome",
                ),
            },
            Runtime::Average => RuntimeInfo {
                name: String::from_str("Average"),
                description: String::from_str("You've got some time, lets make it count"),
            },
            Runtime::MovieNight => RuntimeInfo {
                name: String::from_str("Movie Night"),
                description: String::from_str(
                    "Grab your popcorn, lets find a movie with that 'wow' factor",
                ),
            },
            Runtime::MartinScorsese => RuntimeInfo {
                name: String::from_str("Martin Scorsese"),
                description: String::from_str(
                    "You refer to movies as 'films' and have a lot of time on your hands",
                ),
            },
        }
    }

    /// The band's inclusive minute range, lower bound first.
    pub fn runtime(&self) -> (range: (i32, i32))
        ensures
            range.0 == self.minutes().0,
            range.1 == self.minutes().1,
    {
        match self {
            Runtime::Quick => (60, 90),
            Runtime::Average => (90, 120),
            Runtime::MovieNight => (120, 150),
            Runtime::MartinScorsese => (150, 500),
        }
    }

    /// Reads a band from its wire name; any other text gives `Average`.
    pub fn from_string(runtime_string: &str) -> (band: Runtime)
        ensures
            band == Runtime::parse(runtime_string@),
    {
        let text = runtime_string.to_owned();
        if text == String::from_str("Quick") {
            Runtime::Quick
        } else if text == String::from_str("Average") {
            Runtime::Average
        } else if text == String::from_str("MovieNight") {
            Runtime::MovieNight
        } else if text == String::from_str("MartinScorsese") {
            Runtime::MartinScorsese
        } else {
            Runtime::Average
        }
    }
}

/// The period a film was released in.
#[derive(Debug, Clone, Copy, PartialEq, Eq, Structural)]
pub enum Decade {
    Classic,
    Fifties,
    Sixties,
    Seventies,
    Eighties,
    Nineties,
    TwoThousands,
    TwentyTens,
    Recent,
}

/// What a client shows for a decade band.
#[derive(Debug, Clone, PartialEq, Eq)]
pub struct DecadeInfo {
    pub name: String,
}

/// A decade band as it is handed over by a client, by its display name.
#[derive(Debug, Clone, PartialEq, Eq)]
pub struct DecadeResponse {
    pub decade: String,
}

impl Decade {
    /// The name under which the band is shown, and by which clients send it.
    pub open spec fn display_name(self) -> Seq<char> {
        match self {
            Decade::Classic => "Classics"@,
            Decade::Fifties => "50s"@,
            Decade::Sixties => "60s"@,
            Decade::Seventies => "70s"@,
            Decade::Eighties => "80s"@,
            Decade::Nineties => "90s"@,
            Decade::TwoThousands => "2000s"@,
            Decade::TwentyTens => "2010s"@,
            Decade::Recent => "Recent"@,
        }
    }

    /// The band that a display name stands for. An unknown name stands for
    /// `Recent`.
    pub open spec fn parse(text: Seq<char>) -> Decade {
        if text == "Classics"@ {
            Decade::Classic
        } else if text == "50s"@ {
            Decade::Fifties
        } else if text == "60s"@ {
            Decade::Sixties
        } else if text == "70s"@ {
            Decade::Seventies
        } else if text == "80s"@ {
            Decade::Eighties
        } else if text == "90s"@ {
            Decade::Nineties
        } else if text == "2000s"@ {
            Decade::TwoThousands
        } else if text == "2010s"@ {
            Decade::TwentyTens
        } else {
            Decade::Recent
        }
    }

    /// The first year of the band, in decimal digits.
    pub open spec fn first_year(self) -> Seq<char> {
        match self {
            Decade::Classic => "1900"@,
            Decade::Fifties => "1950"@,
            Decade::Sixties => "1960"@,
            Decade::Seventies => "1970"@,
            Decade::Eighties => "1980"@,
            Decade::Nineties => "1990"@,
            Decade::TwoThousands => "2000"@,
            Decade::TwentyTens => "2010"@,
            Decade::Recent => "2020"@,
        }
    }

    /// The last year of the band, in decimal digits.
    pub open spec fn last_year(self) -> Seq<char> {
        match self {
            Decade::Classic => "1949"@,
            Decade::Fifties => "1959"@,
            Decade::Sixties => "1969"@,
            Decade::Seventies => "1979"@,
            Decade::Eighties => "1989"@,
            Decade::Nineties => "1999"@,
            Decade::TwoThousands => "2009"@,
            Decade::TwentyTens => "2019"@,
            Decade::Recent => "2024"@,
        }
    }

    /// The display name of the band.
    pub fn info(&self) -> (info: DecadeInfo)
        ensures
            info.name@ == self.display_name(),
    {
        match self {
            Decade::Classic => DecadeInfo { name: String::from_str("Classics") },
            Decade::Fifties => DecadeInfo { name: String::from_str("50s") },
            Decade::Sixties => DecadeInfo { name: String::from_str("60s") },
            Decade::Seventies => DecadeInfo { name: String::from_str("70s") },
            Decade::Eighties => DecadeInfo { name: String::from_str("80s") },
            Decade::Nineties => DecadeInfo { name: String::from_str("90s") },
            Decade::TwoThousands => DecadeInfo { name: String::from_str("2000s") },
            Decade::TwentyTens => DecadeInfo { name: String::from_str("2010s") },
            Decade::Recent => DecadeInfo { name: String::from_str("Recent") },
        }
    }

    /// Reads a band from its display name; any other text gives `Recent`.
    pub fn from_string(decade_string: &str) -> (band: Decade)
        ensures
            band == Decade::parse(decade_string@),
    {
        let text = decade_string.to_owned();
        if text == String::from_str("Classics") {
            Decade::Classic
        } else if text == String::from_str("50s") {
            Decade::Fifties
        } else if text == String::from_str("60s") {
            Decade::Sixties
        } else if text == String::from_str("70s") {
            Decade::Seventies
        } else if text == String::from_str("80s") {
            Decade::Eighties
        } else if text == String::from_str("90s") {
            Decade::Nineties
        } else if text == String::from_str("2000s") {
            Decade::TwoThousands
        } else if text == String::from_str("2010s") {
            Decade::TwentyTens
        } else {
            Decade::Recent
        }
    }

    /// The inclusive range of release years that the band covers, as the
    /// catalog takes them: first year, then last year.
    pub fn year_range(&self) -> (range: (String, String))
        ensures
            range.0@ == self.first_year(),
            range.1@ == self.last_year(),
    {
        match self {
            Decade::Classic => (String::from_str("1900"), String::from_str("1949")),
            Decade::Fifties => (String::from_str("1950"), String::from_str("1959")),
            Decade::Sixties => (String::from_str("1960"), String::from_str("1969")),
            Decade::Seventies => (String::from_str("1970"), String::from_str("1979")),
            Decade::Eighties => (String::from_str("1980"), String::from_str("1989")),
            Decade::Nineties => (String::from_str("1990"), String::from_str("1999")),
            Decade::TwoThousands => (String::from_str("2000"), String::from_str("2009")),
            Decade::TwentyTens => (String::from_str("2010"), String::from_str("2019")),
            Decade::Recent => (String::from_str("2020"), String::from_str("2024")),
        }
    }
}

/// The runtime bands in the order in which they are offered.
pub open spec fn runtime_bands() -> Seq<Runtime> {
    seq![Runtime::Quick, Runtime::Average, Runtime::MovieNight, Runtime::MartinScorsese]
}

/// The decade bands in the order in which they are offered.
pub open spec fn decade_bands() -> Seq<Decade> {
    seq![
        Decade::Classic,
        Decade::Fifties,
        Decade::Sixties,
        Decade::Seventies,
        Decade::Eighties,
        Decade::Nineties,
        Decade::TwoThousands,
        Decade::TwentyTens,
        Decade::Recent,
    ]
}

/// What to show for each runtime band, shortest band first.
pub fn get_runtimes() -> (runtimes: Vec<RuntimeInfo>)
    ensures
        runtimes@.len() == runtime_bands().len(),
        forall|i: int|
            0 <= i < runtimes@.len() ==> {
                &&& (#[trigger] runtimes@[i]).name@ == runtime_bands()[i].display_name()
                &&& runtimes@[i].description@ == runtime_bands()[i].blurb()
            },
{
    let mut runtimes: Vec<RuntimeInfo> = Vec::new();
    runtimes.push(Runtime::Quick.info());
    runtimes.push(Runtime::Average.info());
    runtimes.push(Runtime::MovieNight.info());
    runtimes.push(Runtime::MartinScorsese.info());
    runtimes
}

/// What to show for each decade band, oldest band first.
pub fn get_decades() -> (decades: Vec<DecadeInfo>)
    ensures
        decades@.len() == decade_bands().len(),
        forall|i: int|
            0 <= i < decades@.len() ==> (#[trigger] decades@[i]).name@
                == decade_bands()[i].display_name(),
{
    let mut decades: Vec<DecadeInfo> = Vec::new();
    decades.push(Decade::Classic.info());
    decades.push(Decade::Fifties.info());
    decades.push(Decade::Sixties.info());
    decades.push(Decade::Seventies.info());
    decades.push(Decade::Eighties.info());
    decades.push(Decade::Nineties.info());
    decades.push(Decade::TwoThousands.info());
    decades.push(Decade::TwentyTens.info());
    decades.push(Decade::Recent.info());
    decades
}

} // verus!
