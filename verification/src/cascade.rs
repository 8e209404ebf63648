//! The cascade of passes by which a title is resolved: an exact lookup, then
//! a match against the English and romanised titles, then a match against
//! the whole corpus. Each pass asks the title source for something; the
//! caller fetches it and hands the outcome back.

use crate::fuzzy_match::{
    fuzzy_match_of, fuzzy_match_title, FuzzyMatchConfig, FuzzyMatchModel, FuzzyMatchResult,
    TitleEntry, TitleEntryModel, TitleType,
};
use crate::score::SCORE_ONE;
use vstd::prelude::*;

verus! {

/// The passes, in the order in which they are tried.
#[derive(Clone, Copy, Debug, PartialEq, Eq, Structural)]
pub enum MatchPass {
    /// Look the raw query up, ignoring case.
    Exact,
    /// Match against the entries whose language is English or romanised
    /// Japanese.
    Narrow,
    /// Match against every entry.
    Full,
}

/// What the title source gave for a pass.
#[derive(Debug, Clone, PartialEq, Eq)]
pub enum PassOutcome {
    /// The exact lookup found an entry of this series.
    ExactHit(i32),
    /// The exact lookup found nothing.
    ExactMiss,
    /// The entries that the pass asked for.
    Titles(Vec<TitleEntry>),
    /// The title source failed.
    Unavailable,
}

/// The model of a [`PassOutcome`].
pub ghost enum PassOutcomeModel {
    ExactHit(i32),
    ExactMiss,
    Titles(Seq<TitleEntryModel>),
    Unavailable,
}

impl DeepView for PassOutcome {
    type V = PassOutcomeModel;

    open spec fn deep_view(&self) -> PassOutcomeModel {
        match self {
            PassOutcome::ExactHit(id) => PassOutcomeModel::ExactHit(*id),
            PassOutcome::ExactMiss => PassOutcomeModel::ExactMiss,
            PassOutcome::Titles(titles) => PassOutcomeModel::Titles(titles.deep_view()),
            PassOutcome::Unavailable => PassOutcomeModel::Unavailable,
        }
    }
}

/// What the cascade does next.
#[derive(Debug, Clone, PartialEq, Eq)]
pub enum CascadeStep {
    /// Run this pass and come back with its outcome.
    Ask(MatchPass),
    /// The cascade has ended, with this result.
    Done(Option<FuzzyMatchResult>),
}

/// The model of a [`CascadeStep`].
pub ghost enum CascadeStepModel {
    Ask(MatchPass),
    Done(Option<FuzzyMatchModel>),
}

impl DeepView for CascadeStep {
    type V = CascadeStepModel;

    open spec fn deep_view(&self) -> CascadeStepModel {
        match self {
            CascadeStep::Ask(pass) => CascadeStepModel::Ask(*pass),
            CascadeStep::Done(result) => CascadeStepModel::Done(result.deep_view()),
        }
    }
}

/// The language that an exact hit is reported with.
pub open spec fn exact_hit_language() -> Seq<char> {
    "en"@
}

/// The result of an exact hit: the query itself as the matched title, a
/// perfect score, and the kind Primary.
pub open spec fn exact_hit(query: Seq<char>, anime_id: i32) -> FuzzyMatchModel {
    FuzzyMatchModel {
        anime_id,
        matched_title: query,
        score: SCORE_ONE,
        title_type: TitleType::Primary,
        language: exact_hit_language(),
    }
}

/// The step that follows a pass and its outcome.
///
/// An exact hit ends the cascade at once. A pass that matches ends it with
/// the match. A pass that finds nothing, fails, or is answered with what it
/// did not ask for leads to the next pass; after the last pass the cascade
/// ends without a result.
pub open spec fn cascade_step(
    query: Seq<char>,
    pass: MatchPass,
    outcome: PassOutcomeModel,
    config: FuzzyMatchConfig,
) -> CascadeStepModel {
    match pass {
        MatchPass::Exact => match outcome {
            PassOutcomeModel::ExactHit(id) => CascadeStepModel::Done(Some(exact_hit(query, id))),
            _ => CascadeStepModel::Ask(MatchPass::Narrow),
        },
        MatchPass::Narrow => match outcome {
            PassOutcomeModel::Titles(titles) => match fuzzy_match_of(query, titles, config) {
                Some(m) => CascadeStepModel::Done(Some(m)),
                None => CascadeStepModel::Ask(MatchPass::Full),
            },
            _ => CascadeStepModel::Ask(MatchPass::Full),
        },
        MatchPass::Full => match outcome {
            PassOutcomeModel::Titles(titles) => CascadeStepModel::Done(
                fuzzy_match_of(query, titles, config),
            ),
            _ => CascadeStepModel::Done(None),
        },
    }
}

/// The pass with which every cascade starts.
pub fn first_pass() -> (pass: MatchPass)
    ensures
        pass == MatchPass::Exact,
{
    MatchPass::Exact
}

/// Decides what follows a pass of the cascade, given what the title source
/// gave for it. All passes use the same configuration.
pub fn smart_fuzzy_match(
    query: &str,
    pass: MatchPass,
    outcome: &PassOutcome,
    config: &FuzzyMatchConfig,
) -> (step: CascadeStep)
    ensures
        step.deep_view() == cascade_step(query@, pass, outcome.deep_view(), *config),
        pass == MatchPass::Exact && outcome is ExactHit ==> (step matches CascadeStep::Done(
            Some(found),
        ) && found.score == SCORE_ONE && found.anime_id == outcome->ExactHit_0),
{
    match pass {
        MatchPass::Exact => match outcome {
            PassOutcome::ExactHit(id) => CascadeStep::Done(
                Some(
                    FuzzyMatchResult {
                        anime_id: *id,
                        matched_title: query.to_owned(),
                        score: SCORE_ONE,
                        title_type: TitleType::Primary,
                        language: "en".to_owned(),
                    },
                ),
            ),
            _ => CascadeStep::Ask(MatchPass::Narrow),
        },
        MatchPass::Narrow => match outcome {
            PassOutcome::Titles(titles) => {
                match fuzzy_match_title(query, titles.as_slice(), config) {
                    Some(found) => CascadeStep::Done(Some(found)),
                    None => CascadeStep::Ask(MatchPass::Full),
                }
            },
            _ => CascadeStep::Ask(MatchPass::Full),
        },
        MatchPass::Full => match outcome {
            PassOutcome::Titles(titles) => CascadeStep::Done(
                fuzzy_match_title(query, titles.as_slice(), config),
            ),
            _ => CascadeStep::Done(None),
        },
    }
}

/// An exact hit ends the cascade with a perfect score: no later pass is
/// asked for, whatever the configuration.
pub proof fn lemma_exact_hit_ends_cascade(query: Seq<char>, anime_id: i32, config: FuzzyMatchConfig)
    ensures
        cascade_step(query, MatchPass::Exact, PassOutcomeModel::ExactHit(anime_id), config)
            == CascadeStepModel::Done(Some(exact_hit(query, anime_id))),
        exact_hit(query, anime_id).score == SCORE_ONE,
        exact_hit(query, anime_id).anime_id == anime_id,
{
}

/// The narrow and the full pass are only ever asked for in that order, and
/// only after a pass that did not end the cascade: the step after the exact
/// pass asks for nothing but the narrow pass, the step after the narrow pass
/// for nothing but the full pass, and the step after the full pass for
/// nothing.
pub proof fn lemma_cascade_order(
    query: Seq<char>,
    pass: MatchPass,
    outcome: PassOutcomeModel,
    config: FuzzyMatchConfig,
)
    ensures
        cascade_step(query, pass, outcome, config) matches CascadeStepModel::Ask(next) ==> (pass
            == MatchPass::Exact && next == MatchPass::Narrow) || (pass == MatchPass::Narrow && next
            == MatchPass::Full),
{
}

} // verus!
