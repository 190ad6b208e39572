use vstd::prelude::*;
use vstd::string::*;
use crate::catalog::{WatchProvider, WatchProviderView};

verus! {

/// `text` with every match of `from` replaced by `to`. Matches are taken
/// from left to right and do not overlap. An empty `from` matches
/// nothing.
pub open spec fn replaced(text: Seq<char>, from: Seq<char>, to: Seq<char>) -> Seq<char>
    decreases text.len(),
{
    if from.len() == 0 || text.len() == 0 {
        text
    } else if from.is_prefix_of(text) {
        to + replaced(text.skip(from.len() as int), from, to)
    } else {
        text.take(1) + replaced(text.skip(1), from, to)
    }
}

/// Replaces every match of `from` in `text` by `to`, taking matches from
/// left to right. An empty `from` matches nothing and leaves the text as
/// it is.
pub fn replace_text(text: &str, from: &str, to: &str) -> (out: String)
    ensures
        out@ == replaced(text@, from@, to@),
{
    let n: usize = text.unicode_len();
    let m: usize = from.unicode_len();
    if m == 0 {
        return String::from_str(text);
    }
    let pattern = String::from_str(from);
    let mut out = String::new();
    let mut start: usize = 0;
    let mut i: usize = 0;
    proof {
        assert(text@.skip(0) == text@);
        assert(out@ + text@.subrange(0, 0) + replaced(text@, from@, to@) == replaced(
            text@,
            from@,
            to@,
        ));
    }
    while i < n
        invariant
            n == text@.len(),
            m == from@.len(),
            m > 0,
            pattern@ == from@,
            start <= i <= n,
            replaced(text@, from@, to@) == out@ + text@.subrange(start as int, i as int)
                + replaced(text@.skip(i as int), from@, to@),
        decreases n - i,
    {
        let ghost rest = text@.skip(i as int);
        let ghost run = text@.subrange(start as int, i as int);
        let ghost done = out@;
        let matched: bool = m <= n - i && String::from_str(text.substring_char(i, i + m)) == pattern;
        proof {
            assert(rest.len() == n - i);
            if m <= n - i {
                assert(rest.subrange(0, m as int) == text@.subrange(i as int, i + m));
            }
            assert(matched == from@.is_prefix_of(rest));
        }
        if matched {
            out.append(text.substring_char(start, i));
            out.append(to);
            proof {
                assert(rest.skip(m as int) == text@.skip(i + m));
                assert(text@.subrange(i + m, i + m) == Seq::<char>::empty());
                assert(done + run + (to@ + replaced(text@.skip(i + m), from@, to@)) == done + run
                    + to@ + text@.subrange(i + m, i + m) + replaced(
                    text@.skip(i + m),
                    from@,
                    to@,
                ));
            }
            i = i + m;
            start = i;
        } else {
            proof {
                assert(rest.skip(1) == text@.skip(i + 1));
                assert(text@.subrange(start as int, i + 1) == run + rest.take(1));
                assert(done + run + (rest.take(1) + replaced(text@.skip(i + 1), from@, to@))
                    == done + (run + rest.take(1)) + replaced(text@.skip(i + 1), from@, to@));
            }
            i += 1;
        }
    }
    proof {
        assert(text@.skip(n as int).len() == 0);
        assert(out@ + text@.subrange(start as int, n as int) + Seq::<char>::empty() == out@
            + text@.subrange(start as int, n as int));
    }
    out.append(text.substring_char(start, n));
    out
}

/// The names of the services that are offered to the viewer, in the
/// order in which they are offered.
pub open spec fn supported_names() -> Seq<Seq<char>> {
    seq![
        "Netflix"@,
        "Hulu"@,
        "Apple TV"@,
        "Peacock"@,
        "Amazon Prime Video"@,
        "Max"@,
        "Disney Plus"@,
        "Tubi"@,
        "Crunchyroll"@,
        "Paramount Plus"@,
    ]
}

/// Whether a service of this name is offered to the viewer.
pub open spec fn is_supported(name: Seq<char>) -> bool {
    supported_names().contains(name)
}

/// The texts of a list of strings.
pub open spec fn texts(list: Seq<String>) -> Seq<Seq<char>> {
    list.map_values(|s: String| s@)
}

/// A service as it is offered: its logo is the drawing that goes by the
/// same path with `svg` for `jpg`.
pub open spec fn offered(provider: WatchProviderView) -> WatchProviderView {
    WatchProviderView {
        logo_path: replaced(provider.logo_path, "jpg"@, "svg"@),
        provider_id: provider.provider_id,
        provider_name: provider.provider_name,
    }
}

/// The supported services among `providers`, in order, each as it is
/// offered.
pub open spec fn simple_providers(providers: Seq<WatchProvider>) -> Seq<WatchProviderView>
    decreases providers.len(),
{
    if providers.len() == 0 {
        Seq::empty()
    } else {
        let earlier = simple_providers(providers.drop_last());
        if is_supported(providers.last().provider_name@) {
            earlier.push(offered(providers.last()@))
        } else {
            earlier
        }
    }
}

/// The plain values of a list of services.
pub open spec fn provider_views(providers: Seq<WatchProvider>) -> Seq<WatchProviderView> {
    providers.map_values(|p: WatchProvider| p@)
}

/// The names of the supported services, in the order in which they are
/// offered.
pub fn supported_providers() -> (names: Vec<String>)
    ensures
        texts(names@) == supported_names(),
{
    let mut names: Vec<String> = Vec::new();
    names.push(String::from_str("Netflix"));
    names.push(String::from_str("Hulu"));
    names.push(String::from_str("Apple TV"));
    names.push(String::from_str("Peacock"));
    names.push(String::from_str("Amazon Prime Video"));
    names.push(String::from_str("Max"));
    names.push(String::from_str("Disney Plus"));
    names.push(String::from_str("Tubi"));
    names.push(String::from_str("Crunchyroll"));
    names.push(String::from_str("Paramount Plus"));
    names
}

/// Whether `name` is among `names`.
pub fn is_listed(names: &Vec<String>, name: &String) -> (listed: bool)
    ensures
        listed == texts(names@).contains(name@),
{
    let mut i: usize = 0;
    while i < names.len()
        invariant
            i <= names.len(),
            forall|j: int| 0 <= j < i ==> (#[trigger] names@[j])@ != name@,
        decreases names.len() - i,
    {
        if names[i] == *name {
            assert(texts(names@)[i as int] == name@);
            return true;
        }
        i += 1;
    }
    assert forall|j: int| 0 <= j < names@.len() implies texts(names@)[j] != name@ by {
        assert(texts(names@)[j] == names@[j]@);
    }
    false
}

/// Keeps the supported services of the catalog's list, in the catalog's
/// order, and points each logo to its `svg` drawing.
pub fn get_simple_watch_providers(providers: Vec<WatchProvider>) -> (provider_output: Vec<
    WatchProvider,
>)
    ensures
        provider_views(provider_output@) == simple_providers(providers@),
{
    let supported = supported_providers();
    let ghost all = providers@;
    let mut provider_output: Vec<WatchProvider> = Vec::new();
    for provider in it: providers
        invariant
            it.seq() == all,
            texts(supported@) == supported_names(),
            provider_views(provider_output@) == simple_providers(all.take(it.index())),
    {
        proof {
            assert(all.take(it.index() + 1).drop_last() == all.take(it.index()));
        }
        if is_listed(&supported, &provider.provider_name) {
            let WatchProvider { logo_path, provider_id, provider_name } = provider;
            let ghost before = provider_output@;
            let shown = WatchProvider {
                logo_path: replace_text(logo_path.as_str(), "jpg", "svg"),
                provider_id,
                provider_name,
            };
            provider_output.push(shown);
            assert(provider_views(provider_output@) == provider_views(before).push(shown@));
        }
    }
    proof {
        assert(all.take(all.len() as int) == all);
    }
    provider_output
}

} // verus!
