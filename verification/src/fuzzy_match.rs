//! Matching a title against a corpus of titles: similarity search, a boost by
//! the kind of each title, and the choice of the best candidate above a
//! threshold.

use crate::normalize::{normalize_title, normalized};
use crate::score::{score_from_bits, score_of_bits, SCORE_ONE};
use vstd::prelude::*;

verus! {

/// The kind of a title in the corpus.
#[derive(Clone, Copy, Debug, PartialEq, Eq, Structural, Hash)]
pub enum TitleType {
    Primary,
    Synonym,
    Short,
    Official,
}

/// One title of the corpus. Many entries may share one `anime_id`.
#[derive(Debug, Clone, PartialEq, Eq)]
pub struct TitleEntry {
    pub anime_id: i32,
    pub title: String,
    pub title_type: TitleType,
    pub language: String,
}

/// The model of a [`TitleEntry`].
pub ghost struct TitleEntryModel {
    pub anime_id: i32,
    pub title: Seq<char>,
    pub title_type: TitleType,
    pub language: Seq<char>,
}

impl DeepView for TitleEntry {
    type V = TitleEntryModel;

    open spec fn deep_view(&self) -> TitleEntryModel {
        TitleEntryModel {
            anime_id: self.anime_id,
            title: self.title@,
            title_type: self.title_type,
            language: self.language@,
        }
    }
}

/// The outcome of a match: the entry that matched and its adjusted score, in
/// millionths.
#[derive(Debug, Clone, PartialEq, Eq)]
pub struct FuzzyMatchResult {
    pub anime_id: i32,
    pub matched_title: String,
    pub score: u32,
    pub title_type: TitleType,
    pub language: String,
}

/// The model of a [`FuzzyMatchResult`].
pub ghost struct FuzzyMatchModel {
    pub anime_id: i32,
    pub matched_title: Seq<char>,
    pub score: u32,
    pub title_type: TitleType,
    pub language: Seq<char>,
}

impl DeepView for FuzzyMatchResult {
    type V = FuzzyMatchModel;

    open spec fn deep_view(&self) -> FuzzyMatchModel {
        FuzzyMatchModel {
            anime_id: self.anime_id,
            matched_title: self.matched_title@,
            score: self.score,
            title_type: self.title_type,
            language: self.language@,
        }
    }
}

/// How a match is made: the least adjusted score that counts (in
/// millionths), how many of the best candidates are looked at, and whether
/// the kind of a title adds to its score.
#[derive(Debug, Clone, Copy, PartialEq, Eq, Structural)]
pub struct FuzzyMatchConfig {
    pub threshold: u32,
    pub top_n: usize,
    pub prioritize_official: bool,
}

impl Default for FuzzyMatchConfig {
    fn default() -> (config: Self)
        ensures
            config == (FuzzyMatchConfig {
                threshold: 750_000,
                top_n: 5,
                prioritize_official: true,
            }),
    {
        FuzzyMatchConfig { threshold: 750_000, top_n: 5, prioritize_official: true }
    }
}

/// What the kind of a title adds to its score, in millionths.
pub open spec fn boost_of(title_type: TitleType) -> u32 {
    match title_type {
        TitleType::Official => 50_000,
        TitleType::Primary => 30_000,
        TitleType::Synonym => 10_000,
        TitleType::Short => 0,
    }
}

/// What the kind of a title adds to its score, in millionths.
pub fn title_type_boost(title_type: &TitleType) -> (boost: u32)
    ensures
        boost == boost_of(*title_type),
{
    match title_type {
        TitleType::Official => 50_000,
        TitleType::Primary => 30_000,
        TitleType::Synonym => 10_000,
        TitleType::Short => 0,
    }
}

/// The adjusted score: the raw score plus the boost of the kind, where kinds
/// count, and at most `SCORE_ONE`.
pub open spec fn adjusted_score(raw: u32, title_type: TitleType, prioritize: bool) -> u32 {
    let boost: int = if prioritize {
        boost_of(title_type) as int
    } else {
        0
    };
    if raw + boost >= SCORE_ONE {
        SCORE_ONE
    } else {
        (raw + boost) as u32
    }
}

/// Computes the adjusted score.
pub fn adjust_score(raw: u32, title_type: &TitleType, prioritize: bool) -> (adjusted: u32)
    ensures
        adjusted == adjusted_score(raw, *title_type, prioritize),
{
    let boost: u32 = if prioritize {
        title_type_boost(title_type)
    } else {
        0
    };
    if raw >= SCORE_ONE - boost {
        SCORE_ONE
    } else {
        raw + boost
    }
}

/// With equal raw scores the adjusted scores follow the kinds: never lower
/// for Official than for Primary, for Primary than for Synonym, for Synonym
/// than for Short. The order is strict wherever the raw score leaves room
/// for the boosts below one (`raw + 30_000 < SCORE_ONE`); where kinds do not
/// count, all four are equal.
pub proof fn lemma_boost_order(raw: u32)
    ensures
        adjusted_score(raw, TitleType::Official, true) >= adjusted_score(
            raw,
            TitleType::Primary,
            true,
        ) >= adjusted_score(raw, TitleType::Synonym, true) >= adjusted_score(
            raw,
            TitleType::Short,
            true,
        ),
        raw + 30_000 < SCORE_ONE ==> adjusted_score(raw, TitleType::Official, true)
            > adjusted_score(raw, TitleType::Primary, true) > adjusted_score(
            raw,
            TitleType::Synonym,
            true,
        ) > adjusted_score(raw, TitleType::Short, true),
        forall|a: TitleType, b: TitleType|
            adjusted_score(raw, a, false) == adjusted_score(raw, b, false),
{
}

/// The position of the entry that bears `title` after `skip` others that
/// bear it, looking from `from` on.
pub open spec fn entry_index_from(
    titles: Seq<TitleEntryModel>,
    title: Seq<char>,
    skip: nat,
    from: int,
) -> Option<int>
    decreases titles.len() - from,
{
    if from < 0 || from >= titles.len() {
        None
    } else if titles[from].title == title {
        if skip == 0 {
            Some(from)
        } else {
            entry_index_from(titles, title, (skip - 1) as nat, from + 1)
        }
    } else {
        entry_index_from(titles, title, skip, from + 1)
    }
}

/// How many entries before position `upto` bear `title`.
pub open spec fn bearers_before(titles: Seq<Seq<char>>, title: Seq<char>, upto: int) -> nat
    decreases upto,
{
    if upto <= 0 {
        0
    } else {
        bearers_before(titles, title, upto - 1) + if titles[upto - 1] == title {
            1nat
        } else {
            0nat
        }
    }
}

/// `entry_index_from` gives a position at or after `from` whose entry bears
/// the title, with exactly `skip` bearers between `from` and it; and none
/// only where fewer than `skip + 1` entries from `from` on bear the title.
pub proof fn lemma_entry_index_from(
    titles: Seq<TitleEntryModel>,
    title: Seq<char>,
    skip: nat,
    from: int,
)
    requires
        0 <= from <= titles.len(),
    ensures
        match entry_index_from(titles, title, skip, from) {
            Some(i) => from <= i < titles.len() && titles[i].title == title && bearers_before(
                titles_of(titles),
                title,
                i,
            ) == bearers_before(titles_of(titles), title, from) + skip,
            None => bearers_before(titles_of(titles), title, titles.len() as int) <= bearers_before(
                titles_of(titles),
                title,
                from,
            ) + skip,
        },
    decreases titles.len() - from,
{
    if from < titles.len() {
        assert(titles_of(titles)[from] == titles[from].title);
        if titles[from].title == title {
            if skip > 0 {
                lemma_entry_index_from(titles, title, (skip - 1) as nat, from + 1);
            }
        } else {
            lemma_entry_index_from(titles, title, skip, from + 1);
        }
    }
}

/// The titles of the candidates, in order.
pub open spec fn candidate_titles(candidates: Seq<(Seq<char>, u32)>) -> Seq<Seq<char>> {
    Seq::new(candidates.len(), |i: int| candidates[i].0)
}

/// The entry that candidate `k` stands for. The similarity search reports
/// titles, not entries, and keeps entries of one title in the order of the
/// corpus: so the candidate that bears a title after `r` other candidates
/// stands for the entry that bears it after `r` other entries.
pub open spec fn candidate_entry(
    candidates: Seq<(Seq<char>, u32)>,
    titles: Seq<TitleEntryModel>,
    k: int,
) -> Option<int> {
    entry_index_from(
        titles,
        candidates[k].0,
        bearers_before(candidate_titles(candidates), candidates[k].0, k),
        0,
    )
}

/// What candidate `k` of the similarity search amounts to: its own entry,
/// with the candidate's score adjusted by that entry's kind. A candidate for
/// which the corpus has no entry amounts to nothing.
pub open spec fn candidate_match(
    candidates: Seq<(Seq<char>, u32)>,
    titles: Seq<TitleEntryModel>,
    config: FuzzyMatchConfig,
    k: int,
) -> Option<FuzzyMatchModel> {
    match candidate_entry(candidates, titles, k) {
        Some(i) => Some(
            FuzzyMatchModel {
                anime_id: titles[i].anime_id,
                matched_title: titles[i].title,
                score: adjusted_score(
                    score_of_bits(candidates[k].1),
                    titles[i].title_type,
                    config.prioritize_official,
                ),
                title_type: titles[i].title_type,
                language: titles[i].language,
            },
        ),
        None => None,
    }
}

/// The better of the best match so far and the next one: the next one wins
/// where it reaches the threshold and is strictly above the best so far.
pub open spec fn better_match(
    best: Option<FuzzyMatchModel>,
    next: Option<FuzzyMatchModel>,
    threshold: u32,
) -> Option<FuzzyMatchModel> {
    match next {
        Some(n) => if n.score >= threshold && (best is None || n.score > best->0.score) {
            next
        } else {
            best
        },
        None => best,
    }
}

/// The best match among the first `upto` candidates.
pub open spec fn best_match_upto(
    candidates: Seq<(Seq<char>, u32)>,
    titles: Seq<TitleEntryModel>,
    config: FuzzyMatchConfig,
    upto: int,
) -> Option<FuzzyMatchModel>
    decreases upto,
{
    if upto <= 0 {
        None
    } else {
        better_match(
            best_match_upto(candidates, titles, config, upto - 1),
            candidate_match(candidates, titles, config, upto - 1),
            config.threshold,
        )
    }
}

/// The best match among the candidates: the first one with the highest
/// adjusted score, where that score reaches the threshold.
pub open spec fn best_match_of(
    candidates: Seq<(Seq<char>, u32)>,
    titles: Seq<TitleEntryModel>,
    config: FuzzyMatchConfig,
) -> Option<FuzzyMatchModel> {
    best_match_upto(candidates, titles, config, candidates.len() as int)
}

/// Whether candidate `i` is the first with the highest adjusted score among
/// the first `upto` candidates, and reaches the threshold with the match `m`.
pub open spec fn is_first_best(
    candidates: Seq<(Seq<char>, u32)>,
    titles: Seq<TitleEntryModel>,
    config: FuzzyMatchConfig,
    upto: int,
    i: int,
    m: FuzzyMatchModel,
) -> bool {
    &&& 0 <= i < upto
    &&& candidate_match(candidates, titles, config, i) == Some(m)
    &&& m.score >= config.threshold
    &&& forall|j: int|
        0 <= j < upto ==> (#[trigger] candidate_match(candidates, titles, config, j) matches Some(
            other,
        ) ==> other.score <= m.score)
    &&& forall|j: int|
        0 <= j < i ==> (#[trigger] candidate_match(candidates, titles, config, j) matches Some(
            other,
        ) ==> other.score < m.score)
}

/// The best match among the first `upto` candidates is the first candidate
/// with the highest adjusted score, and there is one exactly where some
/// candidate reaches the threshold: a score equal to the threshold is
/// accepted, one below it is not.
pub proof fn lemma_best_match_upto(
    candidates: Seq<(Seq<char>, u32)>,
    titles: Seq<TitleEntryModel>,
    config: FuzzyMatchConfig,
    upto: int,
)
    requires
        0 <= upto <= candidates.len(),
    ensures
        match best_match_upto(candidates, titles, config, upto) {
            Some(m) => exists|i: int| #[trigger]
                is_first_best(candidates, titles, config, upto, i, m),
            None => forall|j: int|
                0 <= j < upto ==> (#[trigger] candidate_match(candidates, titles, config, j) matches Some(
                    other,
                ) ==> other.score < config.threshold),
        },
    decreases upto,
{
    if upto > 0 {
        lemma_best_match_upto(candidates, titles, config, upto - 1);
        let before = best_match_upto(candidates, titles, config, upto - 1);
        let next = candidate_match(candidates, titles, config, upto - 1);
        let after = best_match_upto(candidates, titles, config, upto);
        match after {
            Some(m) => {
                if after == before {
                    let i = choose|i: int| #[trigger]
                        is_first_best(candidates, titles, config, upto - 1, i, before->0);
                    assert(is_first_best(candidates, titles, config, upto, i, m));
                } else {
                    assert(next == Some(m));
                    if before is Some {
                        let i = choose|i: int| #[trigger]
                            is_first_best(candidates, titles, config, upto - 1, i, before->0);
                    }
                    assert(is_first_best(candidates, titles, config, upto, upto - 1, m));
                }
            },
            None => {},
        }
    }
}

/// The statement of `lemma_best_match_upto` for the whole list.
pub proof fn lemma_best_match(
    candidates: Seq<(Seq<char>, u32)>,
    titles: Seq<TitleEntryModel>,
    config: FuzzyMatchConfig,
)
    ensures
        match best_match_of(candidates, titles, config) {
            Some(m) => exists|i: int| #[trigger]
                is_first_best(candidates, titles, config, candidates.len() as int, i, m),
            None => forall|j: int|
                0 <= j < candidates.len() ==> (#[trigger] candidate_match(
                    candidates,
                    titles,
                    config,
                    j,
                ) matches Some(other) ==> other.score < config.threshold),
        },
{
    lemma_best_match_upto(candidates, titles, config, candidates.len() as int);
}

/// The candidates that `rust_fuzzy_search::fuzzy_search_best_n` reports for
/// a query against a list of titles: at most `n` pairs of a title and the
/// bit pattern of its single-precision score, best first.
pub uninterp spec fn fuzzy_search_bits(
    query: Seq<char>,
    titles: Seq<Seq<char>>,
    n: usize,
) -> Seq<(Seq<char>, u32)>;

/// Calls `rust_fuzzy_search::fuzzy_search_best_n` and hands each score back
/// as its bit pattern (`f32::to_bits`). The result is only named.
#[verifier::external_body]
pub(crate) fn fuzzy_search_best(query: &str, titles: &[&str], n: usize) -> (found: Vec<
    (String, u32),
>)
    ensures
        found.deep_view() == fuzzy_search_bits(query@, titles.deep_view(), n),
{
    rust_fuzzy_search::fuzzy_search_best_n(query, titles, n).into_iter().map(
        |(title, score)| (title.to_string(), score.to_bits()),
    ).collect()
}

/// The entry that bears `title` after `skip` others that bear it.
pub fn find_entry(titles: &[TitleEntry], title: &String, skip: usize) -> (found: Option<usize>)
    ensures
        match found {
            Some(i) => i < titles@.len() && entry_index_from(
                titles.deep_view(),
                title@,
                skip as nat,
                0,
            ) == Some(i as int),
            None => entry_index_from(titles.deep_view(), title@, skip as nat, 0) is None,
        },
{
    let mut left: usize = skip;
    let mut i: usize = 0;
    while i < titles.len()
        invariant
            i <= titles@.len(),
            entry_index_from(titles.deep_view(), title@, skip as nat, 0) == entry_index_from(
                titles.deep_view(),
                title@,
                left as nat,
                i as int,
            ),
        decreases titles@.len() - i,
    {
        assert(titles.deep_view()[i as int] == titles@[i as int].deep_view());
        if titles[i].title == *title {
            if left == 0 {
                return Some(i);
            }
            left -= 1;
        }
        i += 1;
    }
    None
}

/// Counts the candidates before position `upto` that bear `title`.
fn count_bearers(candidates: &[(String, u32)], title: &String, upto: usize) -> (count: usize)
    requires
        upto <= candidates@.len(),
    ensures
        count == bearers_before(candidate_titles(candidates.deep_view()), title@, upto as int),
{
    let mut count: usize = 0;
    let mut j: usize = 0;
    while j < upto
        invariant
            j <= upto <= candidates@.len(),
            count <= j,
            count == bearers_before(candidate_titles(candidates.deep_view()), title@, j as int),
        decreases upto - j,
    {
        assert(candidate_titles(candidates.deep_view())[j as int] == candidates@[j as int].0@) by {
            assert(candidates.deep_view()[j as int] == (
                candidates@[j as int].0@,
                candidates@[j as int].1,
            ));
        }
        if candidates[j].0 == *title {
            count += 1;
        }
        j += 1;
    }
    count
}

/// Chooses the best match among the candidates of a similarity search: the
/// first candidate with the highest adjusted score, where that score reaches
/// the threshold.
pub fn select_best_match(
    candidates: &[(String, u32)],
    titles: &[TitleEntry],
    config: &FuzzyMatchConfig,
) -> (best: Option<FuzzyMatchResult>)
    ensures
        best.deep_view() == best_match_of(candidates.deep_view(), titles.deep_view(), *config),
{
    let mut best: Option<FuzzyMatchResult> = None;
    let mut k: usize = 0;
    while k < candidates.len()
        invariant
            k <= candidates@.len(),
            best.deep_view() == best_match_upto(
                candidates.deep_view(),
                titles.deep_view(),
                *config,
                k as int,
            ),
        decreases candidates@.len() - k,
    {
        let candidate = &candidates[k];
        assert(candidates.deep_view()[k as int] == (candidate.0@, candidate.1));
        let rank = count_bearers(candidates, &candidate.0, k);
        match find_entry(titles, &candidate.0, rank) {
            Some(i) => {
                let entry = &titles[i];
                assert(titles.deep_view()[i as int] == entry.deep_view());
                let adjusted: u32 = adjust_score(
                    score_from_bits(candidate.1),
                    &entry.title_type,
                    config.prioritize_official,
                );
                let replace: bool = adjusted >= config.threshold && match &best {
                    Some(b) => adjusted > b.score,
                    None => true,
                };
                if replace {
                    best = Some(
                        FuzzyMatchResult {
                            anime_id: entry.anime_id,
                            matched_title: entry.title.clone(),
                            score: adjusted,
                            title_type: entry.title_type,
                            language: entry.language.clone(),
                        },
                    );
                }
            },
            None => {},
        }
        k += 1;
    }
    best
}

/// The titles of the entries, in order.
pub open spec fn titles_of(entries: Seq<TitleEntryModel>) -> Seq<Seq<char>> {
    Seq::new(entries.len(), |i: int| entries[i].title)
}

/// The best match for a query in a corpus: none in an empty corpus;
/// otherwise the best among the candidates that the similarity search
/// reports for the normalised query against the titles as they stand.
pub open spec fn fuzzy_match_of(
    query: Seq<char>,
    titles: Seq<TitleEntryModel>,
    config: FuzzyMatchConfig,
) -> Option<FuzzyMatchModel> {
    if titles.len() == 0 {
        None
    } else {
        best_match_of(
            fuzzy_search_bits(normalized(query), titles_of(titles), config.top_n),
            titles,
            config,
        )
    }
}

/// Matches a query against a corpus of titles and returns the best match
/// whose adjusted score reaches the threshold, if there is one.
pub fn fuzzy_match_title(query: &str, titles: &[TitleEntry], config: &FuzzyMatchConfig) -> (best:
    Option<FuzzyMatchResult>)
    ensures
        best.deep_view() == fuzzy_match_of(query@, titles.deep_view(), *config),
{
    if titles.len() == 0 {
        return None;
    }
    let normalized_query = normalize_title(query);
    let mut names: Vec<&str> = Vec::new();
    let mut i: usize = 0;
    while i < titles.len()
        invariant
            i <= titles@.len(),
            names@.len() == i,
            forall|j: int| 0 <= j < i ==> names@[j]@ == titles@[j].title@,
        decreases titles@.len() - i,
    {
        names.push(titles[i].title.as_str());
        i += 1;
    }
    let name_list = names.as_slice();
    assert(name_list.deep_view() =~= titles_of(titles.deep_view()));
    let candidates = fuzzy_search_best(normalized_query.as_str(), name_list, config.top_n);
    select_best_match(candidates.as_slice(), titles, config)
}

} // verus!
