use vstd::prelude::*;
use vstd::string::*;
use std::sync::Arc;
use crate::fetch::CatalogQuery;

verus! {

/// One decimal digit as text.
pub open spec fn digit(d: int) -> Seq<char> {
    if d == 0 {
        "0"@
    } else if d == 1 {
        "1"@
    } else if d == 2 {
        "2"@
    } else if d == 3 {
        "3"@
    } else if d == 4 {
        "4"@
    } else if d == 5 {
        "5"@
    } else if d == 6 {
        "6"@
    } else if d == 7 {
        "7"@
    } else if d == 8 {
        "8"@
    } else {
        "9"@
    }
}

/// A natural number in decimal digits, without leading zeros.
pub open spec fn digits(n: nat) -> Seq<char>
    decreases n,
{
    if n < 10 {
        digit(n as int)
    } else {
        digits(n / 10) + digit((n % 10) as int)
    }
}

/// An integer in decimal digits, with a minus sign if it is negative.
pub open spec fn decimal(n: int) -> Seq<char> {
    if n < 0 {
        "-"@ + digits((-n) as nat)
    } else {
        digits(n as nat)
    }
}

/// The numbers in decimal, with `separator` between neighbours.
pub open spec fn joined(ids: Seq<int>, separator: Seq<char>) -> Seq<char>
    decreases ids.len(),
{
    if ids.len() == 0 {
        Seq::empty()
    } else if ids.len() == 1 {
        decimal(ids[0])
    } else {
        joined(ids.drop_last(), separator) + separator + decimal(ids.last())
    }
}

/// The text of one digit.
fn digit_text(d: u64) -> (text: &'static str)
    requires
        d < 10,
    ensures
        text@ == digit(d as int),
{
    if d == 0 {
        "0"
    } else if d == 1 {
        "1"
    } else if d == 2 {
        "2"
    } else if d == 3 {
        "3"
    } else if d == 4 {
        "4"
    } else if d == 5 {
        "5"
    } else if d == 6 {
        "6"
    } else if d == 7 {
        "7"
    } else if d == 8 {
        "8"
    } else {
        "9"
    }
}

/// Appends `n` in decimal to `text`.
fn append_digits(text: &mut String, n: u64)
    ensures
        final(text)@ == old(text)@ + digits(n as nat),
    decreases n,
{
    if n >= 10 {
        append_digits(text, n / 10);
    }
    text.append(digit_text(n % 10));
}

/// Appends `n` in decimal to `text`.
fn append_decimal(text: &mut String, n: i64)
    ensures
        final(text)@ == old(text)@ + decimal(n as int),
{
    if n < 0 {
        text.append("-");
        let magnitude: u64 = if n == i64::MIN {
            9223372036854775808u64
        } else {
            (-n) as u64
        };
        append_digits(text, magnitude);
    } else {
        append_digits(text, n as u64);
    }
}

/// `n` in decimal.
pub fn decimal_string(n: i64) -> (text: String)
    ensures
        text@ == decimal(n as int),
{
    let mut text = String::new();
    append_decimal(&mut text, n);
    text
}

/// The plain integers behind a list of 32-bit ids.
pub open spec fn wide(ids: Seq<i32>) -> Seq<int> {
    ids.map_values(|id: i32| id as int)
}

/// The plain integers behind a list of 64-bit ids.
pub open spec fn wide64(ids: Seq<i64>) -> Seq<int> {
    ids.map_values(|id: i64| id as int)
}

/// Appends the ids in decimal to `text`, with `separator` between
/// neighbours.
fn append_joined(text: &mut String, ids: &Vec<i32>, separator: &str)
    ensures
        final(text)@ == old(text)@ + joined(wide(ids@), separator@),
{
    let ghost all = wide(ids@);
    let mut i: usize = 0;
    while i < ids.len()
        invariant
            i <= ids.len(),
            all == wide(ids@),
            text@ == old(text)@ + joined(all.take(i as int), separator@),
        decreases ids.len() - i,
    {
        proof {
            assert(all.take(i + 1).drop_last() == all.take(i as int));
        }
        if i > 0 {
            text.append(separator);
        }
        append_decimal(text, ids[i] as i64);
        i += 1;
    }
    proof {
        assert(all.take(ids.len() as int) == all);
    }
}

/// Appends the ids in decimal to `text`, with `separator` between
/// neighbours.
fn append_joined64(text: &mut String, ids: &Vec<i64>, separator: &str)
    ensures
        final(text)@ == old(text)@ + joined(wide64(ids@), separator@),
{
    let ghost all = wide64(ids@);
    let mut i: usize = 0;
    while i < ids.len()
        invariant
            i <= ids.len(),
            all == wide64(ids@),
            text@ == old(text)@ + joined(all.take(i as int), separator@),
        decreases ids.len() - i,
    {
        proof {
            assert(all.take(i + 1).drop_last() == all.take(i as int));
        }
        if i > 0 {
            text.append(separator);
        }
        append_decimal(text, ids[i]);
        i += 1;
    }
    proof {
        assert(all.take(ids.len() as int) == all);
    }
}

/// The ids in decimal with `separator` between neighbours: `28,12` for
/// the ids 28 and 12 and a comma.
pub fn join_ids(ids: &Vec<i32>, separator: &str) -> (text: String)
    ensures
        text@ == joined(wide(ids@), separator@),
{
    let mut text = String::new();
    append_joined(&mut text, ids, separator);
    text
}

/// An address with one more keyword parameter: unchanged for an absent
/// list, else followed by `name` and the ids with `separator` between
/// them.
pub open spec fn with_keywords(
    url: Seq<char>,
    name: Seq<char>,
    ids: Option<Vec<i64>>,
    separator: Seq<char>,
) -> Seq<char> {
    match ids {
        Some(list) => url + name + joined(wide64(list@), separator),
        None => url,
    }
}

/// The address of a catalog query at `base`. Genres are joined by commas:
/// a film must have all of them. Services are joined by bars: any one of
/// them will do. Preferred keywords are joined by bars, excluded ones by
/// commas.
pub open spec fn discover_url(base: Seq<char>, query: CatalogQuery) -> Seq<char> {
    with_keywords(
        with_keywords(
            base
                + "/discover/movie?include_adult=false&include_video=false&language=en-US&page=1&primary_release_date.gte="@
                + query.start_year@ + "-01-01&primary_release_date.lte="@ + query.end_year@
                + "-12-31&with_runtime.gte="@ + decimal(query.min_runtime as int)
                + "&with_runtime.lte="@ + decimal(query.max_runtime as int)
                + "&sort_by=popularity.desc&watch_region=US&with_genres="@ + joined(
                wide(query.genre_ids@),
                ","@,
            ) + "&with_watch_monetization_types=flatrate&with_watch_providers="@ + joined(
                wide(query.provider_ids@),
                "|"@,
            ),
            "&with_keywords="@,
            query.preferred_keywords,
            "|"@,
        ),
        "&without_keywords="@,
        query.excluded_keywords,
        ","@,
    )
}

/// Where the film catalog is reached, and the key that opens it.
#[derive(Clone)]
pub struct Tmdb {
    base_url: String,
    api_key: String,
}

impl Tmdb {
    /// The address that every request starts with.
    pub closed spec fn base(&self) -> Seq<char> {
        self.base_url@
    }

    /// The key that is sent with every request.
    pub closed spec fn key(&self) -> Seq<char> {
        self.api_key@
    }

    /// The public catalog, opened with `api_key`.
    pub fn new(api_key: String) -> (tmdb: Self)
        ensures
            tmdb.base() == "https://api.themoviedb.org/3/"@,
            tmdb.key() == api_key@,
    {
        Tmdb { base_url: String::from_str("https://api.themoviedb.org/3/"), api_key }
    }

    /// The public catalog behind a shared handle.
    pub fn shared_instance(api_key: String) -> (shared: Arc<Self>)
        ensures
            shared.base() == "https://api.themoviedb.org/3/"@,
            shared.key() == api_key@,
    {
        Arc::new(Tmdb::new(api_key))
    }

    /// A catalog at another address, behind a shared handle.
    pub fn mock_shared_instance(api_key: String, base_url: String) -> (shared: Arc<Self>)
        ensures
            shared.base() == base_url@,
            shared.key() == api_key@,
    {
        Arc::new(Tmdb { base_url, api_key })
    }

    /// The value of the authorization header.
    pub fn authorization(&self) -> (header: String)
        ensures
            header@ == "Bearer "@ + self.key(),
    {
        String::from_str("Bearer ").concat(self.api_key.as_str())
    }

    /// The address of a search by title.
    pub fn search_by_title_url(&self, movie_title: &str) -> (url: String)
        ensures
            url@ == self.base() + "/search/movie?query="@ + movie_title@,
    {
        self.base_url.clone().concat("/search/movie?query=").concat(movie_title)
    }

    /// The address of the provider lookup for one film.
    pub fn watch_providers_url(&self, movie_id: i64) -> (url: String)
        ensures
            url@ == self.base() + "/movie/"@ + decimal(movie_id as int) + "/watch/providers"@,
    {
        let mut url = self.base_url.clone().concat("/movie/");
        append_decimal(&mut url, movie_id);
        url.concat("/watch/providers")
    }

    /// The address of the keyword lookup for one film.
    pub fn keywords_url(&self, movie_id: i64) -> (url: String)
        ensures
            url@ == self.base() + "/movie/"@ + decimal(movie_id as int) + "/keywords"@,
    {
        let mut url = self.base_url.clone().concat("/movie/");
        append_decimal(&mut url, movie_id);
        url.concat("/keywords")
    }

    /// The address of the list of genres.
    pub fn genre_list_url(&self) -> (url: String)
        ensures
            url@ == self.base() + "/genre/movie/list?language=en"@,
    {
        self.base_url.clone().concat("/genre/movie/list?language=en")
    }

    /// The address of the list of streaming services.
    pub fn providers_list_url(&self) -> (url: String)
        ensures
            url@ == self.base() + "/watch/providers/movie?language=en-US&watch_region=US"@,
    {
        self.base_url.clone().concat("/watch/providers/movie?language=en-US&watch_region=US")
    }

    /// The address of a catalog query: first page, most popular first,
    /// subscription offers of the US market only.
    pub fn recommendations_url(&self, query: &CatalogQuery) -> (url: String)
        ensures
            url@ == discover_url(self.base(), *query),
    {
        let mut url = self.base_url.clone();
        url.append(
            "/discover/movie?include_adult=false&include_video=false&language=en-US&page=1&primary_release_date.gte=",
        );
        url.append(query.start_year.as_str());
        url.append("-01-01&primary_release_date.lte=");
        url.append(query.end_year.as_str());
        url.append("-12-31&with_runtime.gte=");
        append_decimal(&mut url, query.min_runtime as i64);
        url.append("&with_runtime.lte=");
        append_decimal(&mut url, query.max_runtime as i64);
        url.append("&sort_by=popularity.desc&watch_region=US&with_genres=");
        append_joined(&mut url, &query.genre_ids, ",");
        url.append("&with_watch_monetization_types=flatrate&with_watch_providers=");
        append_joined(&mut url, &query.provider_ids, "|");
        match &query.preferred_keywords {
            Some(ids) => {
                url.append("&with_keywords=");
                append_joined64(&mut url, ids, "|");
            },
            None => {},
        }
        match &query.excluded_keywords {
            Some(ids) => {
                url.append("&without_keywords=");
                append_joined64(&mut url, ids, ",");
            },
            None => {},
        }
        url
    }
}

} // verus!
