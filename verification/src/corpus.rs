//! A title corpus held in memory, and the resolution of a title against it:
//! the three lookups that the cascade asks of a title source, and the
//! cascade run from start to end.

use crate::cascade::{
    exact_hit, first_pass, smart_fuzzy_match, CascadeStep, MatchPass, PassOutcome,
    PassOutcomeModel,
};
use crate::fuzzy_match::{
    fuzzy_match_of, FuzzyMatchConfig, FuzzyMatchModel, FuzzyMatchResult, TitleEntry,
    TitleEntryModel,
};
use crate::score::SCORE_ONE;
use crate::text::{lowercase_of, same_text, to_lowercase};
use vstd::prelude::*;

verus! {

impl TitleEntry {
    /// A copy of this entry.
    pub fn duplicate(&self) -> (copy: TitleEntry)
        ensures
            copy.deep_view() == self.deep_view(),
    {
        TitleEntry {
            anime_id: self.anime_id,
            title: self.title.clone(),
            title_type: self.title_type,
            language: self.language.clone(),
        }
    }
}

/// Copies a list of entries.
pub fn get_all_titles(corpus: &[TitleEntry]) -> (copy: Vec<TitleEntry>)
    ensures
        copy.deep_view() == corpus.deep_view(),
{
    let mut copy: Vec<TitleEntry> = Vec::new();
    let mut i: usize = 0;
    while i < corpus.len()
        invariant
            i <= corpus@.len(),
            copy@.len() == i,
            forall|j: int| 0 <= j < i ==> copy@[j].deep_view() == corpus@[j].deep_view(),
        decreases corpus@.len() - i,
    {
        copy.push(corpus[i].duplicate());
        i += 1;
    }
    assert(copy.deep_view() =~= corpus.deep_view());
    copy
}

/// Whether a language belongs to the narrow pass: English, or romanised
/// Japanese.
pub open spec fn is_narrow_language(language: Seq<char>) -> bool {
    language == "en"@ || language == "x-jat"@
}

/// The entries of the narrow pass among the first `upto` entries, in the
/// order of the corpus.
pub open spec fn narrow_upto(corpus: Seq<TitleEntryModel>, upto: int) -> Seq<TitleEntryModel>
    decreases upto,
{
    if upto <= 0 {
        Seq::empty()
    } else if is_narrow_language(corpus[upto - 1].language) {
        narrow_upto(corpus, upto - 1).push(corpus[upto - 1])
    } else {
        narrow_upto(corpus, upto - 1)
    }
}

/// The entries of the narrow pass, in the order of the corpus.
pub open spec fn narrow_entries(corpus: Seq<TitleEntryModel>) -> Seq<TitleEntryModel> {
    narrow_upto(corpus, corpus.len() as int)
}

/// The narrow pass holds entries of the corpus only, each in English or in
/// romanised Japanese, and no more of them than the corpus has.
pub proof fn lemma_narrow_upto(corpus: Seq<TitleEntryModel>, upto: int)
    requires
        0 <= upto <= corpus.len(),
    ensures
        narrow_upto(corpus, upto).len() <= upto,
        forall|i: int|
            0 <= i < narrow_upto(corpus, upto).len() ==> is_narrow_language(
                (#[trigger] narrow_upto(corpus, upto)[i]).language,
            ) && corpus.contains(narrow_upto(corpus, upto)[i]),
    decreases upto,
{
    if upto > 0 {
        lemma_narrow_upto(corpus, upto - 1);
        let before = narrow_upto(corpus, upto - 1);
        let now = narrow_upto(corpus, upto);
        assert forall|i: int| 0 <= i < now.len() implies is_narrow_language(
            (#[trigger] now[i]).language,
        ) && corpus.contains(now[i]) by {
            if i < before.len() {
                assert(now[i] == before[i]);
            } else {
                assert(now[i] == corpus[upto - 1]);
            }
        }
    }
}

/// The entries in English and in romanised Japanese.
pub fn get_english_titles(corpus: &[TitleEntry]) -> (narrow: Vec<TitleEntry>)
    ensures
        narrow.deep_view() == narrow_entries(corpus.deep_view()),
{
    let mut narrow: Vec<TitleEntry> = Vec::new();
    let mut i: usize = 0;
    assert(narrow.deep_view() =~= Seq::empty());
    while i < corpus.len()
        invariant
            i <= corpus@.len(),
            narrow.deep_view() == narrow_upto(corpus.deep_view(), i as int),
        decreases corpus@.len() - i,
    {
        let entry = &corpus[i];
        assert(corpus.deep_view()[i as int] == entry.deep_view());
        let ghost before = narrow.deep_view();
        if same_text(entry.language.as_str(), "en") || same_text(entry.language.as_str(), "x-jat") {
            let copy = entry.duplicate();
            narrow.push(copy);
            assert(narrow.deep_view() =~= before.push(entry.deep_view()));
        }
        i += 1;
    }
    narrow
}

/// Whether an entry bears the query, case ignored.
pub open spec fn bears(entry: TitleEntryModel, query: Seq<char>) -> bool {
    lowercase_of(entry.title) == lowercase_of(query)
}

/// The position of the first entry, from `from` on, that bears the query,
/// case ignored.
pub open spec fn exact_index_from(corpus: Seq<TitleEntryModel>, query: Seq<char>, from: int) -> Option<
    int,
>
    decreases corpus.len() - from,
{
    if from < 0 || from >= corpus.len() {
        None
    } else if bears(corpus[from], query) {
        Some(from)
    } else {
        exact_index_from(corpus, query, from + 1)
    }
}

/// `exact_index_from` gives the first position at or after `from` whose
/// entry bears the query, and none only where no entry from there on bears
/// it.
pub proof fn lemma_exact_index_from(corpus: Seq<TitleEntryModel>, query: Seq<char>, from: int)
    requires
        0 <= from,
    ensures
        match exact_index_from(corpus, query, from) {
            Some(i) => from <= i < corpus.len() && bears(corpus[i], query) && forall|j: int|
                from <= j < i ==> !bears(corpus[j], query),
            None => forall|j: int| from <= j < corpus.len() ==> !bears(corpus[j], query),
        },
    decreases corpus.len() - from,
{
    if from < corpus.len() && !bears(corpus[from], query) {
        lemma_exact_index_from(corpus, query, from + 1);
    }
}

/// The series of the first entry that bears the query, case ignored.
pub open spec fn exact_id(corpus: Seq<TitleEntryModel>, query: Seq<char>) -> Option<i32> {
    match exact_index_from(corpus, query, 0) {
        Some(i) => Some(corpus[i].anime_id),
        None => None,
    }
}

/// Looks a title up, case ignored, and gives the series of the first entry
/// that bears it.
pub fn find_anime_id_by_exact_title(corpus: &[TitleEntry], title: &str) -> (found: Option<i32>)
    ensures
        found == exact_id(corpus.deep_view(), title@),
{
    let wanted = to_lowercase(title);
    let mut i: usize = 0;
    while i < corpus.len()
        invariant
            i <= corpus@.len(),
            wanted@ == lowercase_of(title@),
            exact_index_from(corpus.deep_view(), title@, 0) == exact_index_from(
                corpus.deep_view(),
                title@,
                i as int,
            ),
        decreases corpus@.len() - i,
    {
        let entry = &corpus[i];
        assert(corpus.deep_view()[i as int] == entry.deep_view());
        let lowered = to_lowercase(entry.title.as_str());
        if same_text(lowered.as_str(), wanted.as_str()) {
            return Some(entry.anime_id);
        }
        i += 1;
    }
    None
}

/// What the corpus gives for a pass of the cascade.
pub open spec fn outcome_of(corpus: Seq<TitleEntryModel>, query: Seq<char>, pass: MatchPass) -> PassOutcomeModel {
    match pass {
        MatchPass::Exact => match exact_id(corpus, query) {
            Some(id) => PassOutcomeModel::ExactHit(id),
            None => PassOutcomeModel::ExactMiss,
        },
        MatchPass::Narrow => PassOutcomeModel::Titles(narrow_entries(corpus)),
        MatchPass::Full => PassOutcomeModel::Titles(corpus),
    }
}

/// Performs a pass of the cascade on the corpus.
pub fn run_pass(corpus: &[TitleEntry], query: &str, pass: MatchPass) -> (outcome: PassOutcome)
    ensures
        outcome.deep_view() == outcome_of(corpus.deep_view(), query@, pass),
{
    match pass {
        MatchPass::Exact => match find_anime_id_by_exact_title(corpus, query) {
            Some(id) => PassOutcome::ExactHit(id),
            None => PassOutcome::ExactMiss,
        },
        MatchPass::Narrow => PassOutcome::Titles(get_english_titles(corpus)),
        MatchPass::Full => PassOutcome::Titles(get_all_titles(corpus)),
    }
}

/// What a query resolves to against a corpus: an exact hit, case ignored,
/// wins at once; failing that, the best match among the English and
/// romanised titles; failing that, the best match in the whole corpus.
pub open spec fn resolved(
    query: Seq<char>,
    corpus: Seq<TitleEntryModel>,
    config: FuzzyMatchConfig,
) -> Option<FuzzyMatchModel> {
    match exact_id(corpus, query) {
        Some(id) => Some(exact_hit(query, id)),
        None => match fuzzy_match_of(query, narrow_entries(corpus), config) {
            Some(found) => Some(found),
            None => fuzzy_match_of(query, corpus, config),
        },
    }
}

/// Resolves a query against a corpus: runs the cascade from its first pass
/// to its end.
pub fn resolve(query: &str, corpus: &[TitleEntry], config: &FuzzyMatchConfig) -> (found: Option<
    FuzzyMatchResult,
>)
    ensures
        found.deep_view() == resolved(query@, corpus.deep_view(), *config),
{
    let exact = run_pass(corpus, query, first_pass());
    match smart_fuzzy_match(query, MatchPass::Exact, &exact, config) {
        CascadeStep::Done(found) => found,
        CascadeStep::Ask(_) => {
            let narrow = run_pass(corpus, query, MatchPass::Narrow);
            match smart_fuzzy_match(query, MatchPass::Narrow, &narrow, config) {
                CascadeStep::Done(found) => found,
                CascadeStep::Ask(_) => {
                    let full = run_pass(corpus, query, MatchPass::Full);
                    match smart_fuzzy_match(query, MatchPass::Full, &full, config) {
                        CascadeStep::Done(found) => found,
                        CascadeStep::Ask(_) => None,
                    }
                },
            }
        },
    }
}

/// A query that some entry of the corpus bears, case ignored, resolves to
/// the series of the first such entry with a perfect score, whatever the
/// configuration and whatever the similarity search would say: no later
/// pass has a part in the result.
pub proof fn lemma_exact_hit_resolves(
    query: Seq<char>,
    corpus: Seq<TitleEntryModel>,
    config: FuzzyMatchConfig,
    at: int,
)
    requires
        0 <= at < corpus.len(),
        bears(corpus[at], query),
    ensures
        resolved(query, corpus, config) matches Some(found) && found.score == SCORE_ONE && found
            == exact_hit(query, exact_id(corpus, query)->0),
        exists|first: int|
            0 <= first <= at && bears(#[trigger] corpus[first], query) && exact_id(corpus, query)
                == Some(corpus[first].anime_id),
{
    lemma_exact_index_from(corpus, query, 0);
    let first = exact_index_from(corpus, query, 0)->0;
    assert(bears(corpus[first], query));
}

} // verus!
