use vstd::prelude::*;
use vstd::string::*;
use crate::catalog::{Genre, WatchProvider};
use crate::providers::{is_listed, supported_names, supported_providers, texts};

verus! {

/// The steps in which a viewer is asked for choices.
#[derive(Debug, Clone, Copy, PartialEq, Eq, Structural)]
pub enum WorkflowSteps {
    ProviderStep,
    FilterStep,
    GenreStep,
}

/// The step that asks for streaming services.
#[derive(Debug, Clone, PartialEq, Eq)]
pub struct ProviderStep {
    pub providers_list: Vec<WatchProvider>,
    pub supported_providers: Vec<String>,
}

/// The step that asks for genres.
#[derive(Debug, Clone, PartialEq, Eq)]
pub struct GenreStep {
    pub genre_list: Vec<Genre>,
}

/// Whether `name` is one of the names that were entered.
pub open spec fn is_entered(entered: Seq<String>, name: Seq<char>) -> bool {
    texts(entered).contains(name)
}

/// The genres whose name was entered, in the order of the list.
pub open spec fn chosen_genres(genre_list: Seq<Genre>, entered: Seq<String>) -> Seq<Genre>
    decreases genre_list.len(),
{
    if genre_list.len() == 0 {
        Seq::empty()
    } else {
        let earlier = chosen_genres(genre_list.drop_last(), entered);
        if is_entered(entered, genre_list.last().name@) {
            earlier.push(genre_list.last())
        } else {
            earlier
        }
    }
}

/// The services whose name was entered, in the order of the list.
pub open spec fn chosen_providers(
    providers_list: Seq<WatchProvider>,
    entered: Seq<String>,
) -> Seq<WatchProvider>
    decreases providers_list.len(),
{
    if providers_list.len() == 0 {
        Seq::empty()
    } else {
        let earlier = chosen_providers(providers_list.drop_last(), entered);
        if is_entered(entered, providers_list.last().provider_name@) {
            earlier.push(providers_list.last())
        } else {
            earlier
        }
    }
}

impl GenreStep {
    /// The genres of the step's list that the viewer entered by name, in
    /// the order of the list. A name that is no genre chooses nothing.
    pub fn pick(&self, entered: &Vec<String>) -> (chosen: Vec<Genre>)
        ensures
            chosen@ == chosen_genres(self.genre_list@, entered@),
    {
        let mut chosen: Vec<Genre> = Vec::new();
        let mut i: usize = 0;
        while i < self.genre_list.len()
            invariant
                i <= self.genre_list.len(),
                chosen@ == chosen_genres(self.genre_list@.take(i as int), entered@),
            decreases self.genre_list.len() - i,
        {
            proof {
                assert(self.genre_list@.take(i + 1).drop_last() == self.genre_list@.take(
                    i as int,
                ));
            }
            let genre = &self.genre_list[i];
            if is_listed(entered, &genre.name) {
                chosen.push(Genre { id: genre.id, name: genre.name.clone() });
            }
            i += 1;
        }
        proof {
            assert(self.genre_list@.take(self.genre_list.len() as int) == self.genre_list@);
        }
        chosen
    }
}

impl ProviderStep {
    /// The step for a list of services, with the names that it offers.
    pub fn new(providers_list: Vec<WatchProvider>) -> (step: ProviderStep)
        ensures
            step.providers_list == providers_list,
            texts(step.supported_providers@) == supported_names(),
    {
        ProviderStep { providers_list, supported_providers: supported_providers() }
    }

    /// The services of the step's list that the viewer entered by name, in
    /// the order of the list. A name that is no service chooses nothing.
    pub fn pick(&self, entered: &Vec<String>) -> (chosen: Vec<WatchProvider>)
        ensures
            chosen@ == chosen_providers(self.providers_list@, entered@),
    {
        let mut chosen: Vec<WatchProvider> = Vec::new();
        let mut i: usize = 0;
        while i < self.providers_list.len()
            invariant
                i <= self.providers_list.len(),
                chosen@ == chosen_providers(self.providers_list@.take(i as int), entered@),
            decreases self.providers_list.len() - i,
        {
            proof {
                assert(self.providers_list@.take(i + 1).drop_last() == self.providers_list@.take(
                    i as int,
                ));
            }
            let provider = &self.providers_list[i];
            if is_listed(entered, &provider.provider_name) {
                chosen.push(
                    WatchProvider {
                        logo_path: provider.logo_path.clone(),
                        provider_id: provider.provider_id,
                        provider_name: provider.provider_name.clone(),
                    },
                );
            }
            i += 1;
        }
        proof {
            assert(self.providers_list@.take(self.providers_list.len() as int)
                == self.providers_list@);
        }
        chosen
    }
}

/// Where the first comma of `text` stands; the length of `text` if it has
/// none.
pub open spec fn first_comma(text: Seq<char>) -> int
    decreases text.len(),
{
    if text.len() == 0 {
        0
    } else if text[0] == ',' {
        0
    } else {
        1 + first_comma(text.skip(1))
    }
}

/// The pieces of `text` between its commas, in order. A text without a
/// comma is one piece; two commas side by side hold an empty piece.
pub open spec fn comma_fields(text: Seq<char>) -> Seq<Seq<char>>
    decreases text.len(),
{
    let cut: int = first_comma(text);
    if 0 <= cut < text.len() {
        seq![text.take(cut)] + comma_fields(text.skip(cut + 1))
    } else {
        seq![text]
    }
}

/// The first comma stands where a comma follows a run without one.
proof fn lemma_first_comma(text: Seq<char>, cut: int)
    requires
        0 <= cut <= text.len(),
        forall|j: int| 0 <= j < cut ==> text[j] != ',',
        cut < text.len() ==> text[cut] == ',',
    ensures
        first_comma(text) == cut,
    decreases cut,
{
    if cut > 0 {
        lemma_first_comma(text.skip(1), cut - 1);
    }
}

/// Splits a line of input at its commas. Nothing is trimmed: a piece keeps
/// its blanks, and the last piece the line's end.
pub fn split_commas(line: &str) -> (pieces: Vec<String>)
    ensures
        texts(pieces@) == comma_fields(line@),
{
    let mut pieces: Vec<String> = Vec::new();
    let length: usize = line.unicode_len();
    let mut start: usize = 0;
    let mut i: usize = 0;
    proof {
        assert(line@.skip(0) == line@);
        assert(texts(pieces@) + comma_fields(line@) == comma_fields(line@));
    }
    while i < length
        invariant
            length == line@.len(),
            start <= i <= length,
            forall|j: int| start <= j < i ==> line@[j] != ',',
            comma_fields(line@) == texts(pieces@) + comma_fields(line@.skip(start as int)),
        decreases length - i,
    {
        if line.get_char(i) == ',' {
            let ghost rest = line@.skip(start as int);
            let ghost before = pieces@;
            let piece = String::from_str(line.substring_char(start, i));
            proof {
                lemma_first_comma(rest, i - start);
                assert(rest.take(i - start) == line@.subrange(start as int, i as int));
                assert(rest.skip(i - start + 1) == line@.skip(i + 1));
            }
            pieces.push(piece);
            assert(texts(pieces@) == texts(before) + seq![piece@]);
            start = i + 1;
        }
        i += 1;
    }
    let ghost rest = line@.skip(start as int);
    let ghost before = pieces@;
    let piece = String::from_str(line.substring_char(start, length));
    proof {
        lemma_first_comma(rest, length - start);
        assert(rest == line@.subrange(start as int, length as int));
    }
    pieces.push(piece);
    assert(texts(pieces@) == texts(before) + seq![piece@]);
    pieces
}

} // verus!
