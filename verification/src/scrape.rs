//! The scrape of a series page, stage by stage. The stages that compute are
//! done here; for each stage that needs the network or the storage, the
//! step names the action, and the caller performs it and comes back with the
//! event.

use crate::episodes::{episodes_of_page, parse_episodes_from_html};
use crate::error::{ErrorKind, Failure, FailureModel};
use crate::page_url::{parse_url, series_title, slug_of_url, title_of_slug};
use crate::records::{NewEpisode, NewEpisodeModel, RecordId};
use crate::text::{is_blank, is_blank_text};
use crate::types::{EpisodeData, EpisodeModel, SeriesData, SeriesModel};
use vstd::prelude::*;

verus! {

/// The stages of a scrape, in order.
#[derive(Clone, Copy, Debug, PartialEq, Eq, Structural, Hash)]
pub enum Stage {
    ParsingUrl,
    FetchingPage,
    ExtractingEpisodes,
    MatchingTitle,
    PersistingSeries,
    PersistingEpisodes,
    Enriching,
}

/// What became of the enrichment of a scrape that is done.
#[derive(Debug, Clone, PartialEq, Eq)]
pub enum EnrichmentNote {
    /// The series has no AniDB identifier; enrichment did not run.
    Skipped,
    /// Enrichment ran.
    Applied { updated: u64, unmatched: u64 },
    /// Enrichment failed. The base data stays saved; this is a warning.
    Failed(Failure),
}

/// The model of an [`EnrichmentNote`].
pub ghost enum EnrichmentNoteModel {
    Skipped,
    Applied { updated: u64, unmatched: u64 },
    Failed(FailureModel),
}

impl DeepView for EnrichmentNote {
    type V = EnrichmentNoteModel;

    open spec fn deep_view(&self) -> EnrichmentNoteModel {
        match self {
            EnrichmentNote::Skipped => EnrichmentNoteModel::Skipped,
            EnrichmentNote::Applied { updated, unmatched } => EnrichmentNoteModel::Applied {
                updated: *updated,
                unmatched: *unmatched,
            },
            EnrichmentNote::Failed(failure) => EnrichmentNoteModel::Failed(failure.deep_view()),
        }
    }
}

/// Where a scrape stands.
#[derive(Debug, Clone, PartialEq, Eq)]
pub enum ScrapeState {
    /// Nothing is done yet.
    ParsingUrl,
    /// The page has been asked for.
    FetchingPage { slug: String, title: String },
    /// The episodes are extracted; the title is being matched.
    MatchingTitle { series: SeriesData },
    /// The series is being found or created.
    PersistingSeries { series: SeriesData, anidb_id: Option<i32> },
    /// The episodes are being inserted.
    PersistingEpisodes { series: SeriesData, anidb_id: Option<i32>, series_id: RecordId },
    /// The series is being enriched.
    Enriching { series: SeriesData },
    /// The scrape is done: the base data is saved.
    Done { series: SeriesData, enrichment: EnrichmentNote },
    /// The scrape has failed at a stage.
    Failed { stage: Stage, failure: Failure },
}

/// The model of a [`ScrapeState`].
pub ghost enum ScrapeStateModel {
    ParsingUrl,
    FetchingPage { slug: Seq<char>, title: Seq<char> },
    MatchingTitle { series: SeriesModel },
    PersistingSeries { series: SeriesModel, anidb_id: Option<i32> },
    PersistingEpisodes { series: SeriesModel, anidb_id: Option<i32>, series_id: RecordId },
    Enriching { series: SeriesModel },
    Done { series: SeriesModel, enrichment: EnrichmentNoteModel },
    Failed { stage: Stage, failure: FailureModel },
}

impl DeepView for ScrapeState {
    type V = ScrapeStateModel;

    open spec fn deep_view(&self) -> ScrapeStateModel {
        match self {
            ScrapeState::ParsingUrl => ScrapeStateModel::ParsingUrl,
            ScrapeState::FetchingPage { slug, title } => ScrapeStateModel::FetchingPage {
                slug: slug@,
                title: title@,
            },
            ScrapeState::MatchingTitle { series } => ScrapeStateModel::MatchingTitle {
                series: series.deep_view(),
            },
            ScrapeState::PersistingSeries { series, anidb_id } => ScrapeStateModel::PersistingSeries {
                series: series.deep_view(),
                anidb_id: *anidb_id,
            },
            ScrapeState::PersistingEpisodes {
                series,
                anidb_id,
                series_id,
            } => ScrapeStateModel::PersistingEpisodes {
                series: series.deep_view(),
                anidb_id: *anidb_id,
                series_id: *series_id,
            },
            ScrapeState::Enriching { series } => ScrapeStateModel::Enriching {
                series: series.deep_view(),
            },
            ScrapeState::Done { series, enrichment } => ScrapeStateModel::Done {
                series: series.deep_view(),
                enrichment: enrichment.deep_view(),
            },
            ScrapeState::Failed { stage, failure } => ScrapeStateModel::Failed {
                stage: *stage,
                failure: failure.deep_view(),
            },
        }
    }
}

/// What the transport made of the request for the page.
#[derive(Debug, Clone, PartialEq, Eq)]
pub enum FetchOutcome {
    /// The body of a successful response.
    Body(String),
    /// The status line of a response that is not a success.
    BadStatus(String),
    /// The request could not be made or the body could not be read: the cause
    /// in the transport's words, which the failure bears as they are.
    Unreachable(String),
}

/// The model of a [`FetchOutcome`].
pub ghost enum FetchOutcomeModel {
    Body(Seq<char>),
    BadStatus(Seq<char>),
    Unreachable(Seq<char>),
}

impl DeepView for FetchOutcome {
    type V = FetchOutcomeModel;

    open spec fn deep_view(&self) -> FetchOutcomeModel {
        match self {
            FetchOutcome::Body(body) => FetchOutcomeModel::Body(body@),
            FetchOutcome::BadStatus(status) => FetchOutcomeModel::BadStatus(status@),
            FetchOutcome::Unreachable(cause) => FetchOutcomeModel::Unreachable(cause@),
        }
    }
}

/// What happened since the last step.
#[derive(Debug, PartialEq, Eq)]
pub enum ScrapeEvent {
    /// A scrape of this address was asked for.
    Requested { url: String },
    /// The transport answered the request for the page.
    PageFetched(FetchOutcome),
    /// The title was matched against the corpus: the AniDB identifier, if
    /// one was found.
    TitleMatched(Option<i32>),
    /// The storage found or created the series, or failed.
    SeriesReady(Result<RecordId, String>),
    /// The storage inserted the episodes and reports how many it created and
    /// how many it skipped, or failed.
    EpisodesInserted(Result<(u64, u64), String>),
    /// Enrichment ran and reports how many episodes it updated and how many
    /// it left unmatched, or failed.
    Enriched(Result<(u64, u64), Failure>),
}

/// The model of a [`ScrapeEvent`].
pub ghost enum ScrapeEventModel {
    Requested { url: Seq<char> },
    PageFetched(FetchOutcomeModel),
    TitleMatched(Option<i32>),
    SeriesReady(Result<RecordId, Seq<char>>),
    EpisodesInserted(Result<(u64, u64), Seq<char>>),
    Enriched(Result<(u64, u64), FailureModel>),
}

impl DeepView for ScrapeEvent {
    type V = ScrapeEventModel;

    open spec fn deep_view(&self) -> ScrapeEventModel {
        match self {
            ScrapeEvent::Requested { url } => ScrapeEventModel::Requested { url: url@ },
            ScrapeEvent::PageFetched(outcome) => ScrapeEventModel::PageFetched(outcome.deep_view()),
            ScrapeEvent::TitleMatched(found) => ScrapeEventModel::TitleMatched(*found),
            ScrapeEvent::SeriesReady(ready) => ScrapeEventModel::SeriesReady(
                match ready {
                    Ok(id) => Ok(*id),
                    Err(cause) => Err(cause@),
                },
            ),
            ScrapeEvent::EpisodesInserted(inserted) => ScrapeEventModel::EpisodesInserted(
                match inserted {
                    Ok(counts) => Ok(*counts),
                    Err(cause) => Err(cause@),
                },
            ),
            ScrapeEvent::Enriched(enriched) => ScrapeEventModel::Enriched(
                match enriched {
                    Ok(counts) => Ok(*counts),
                    Err(failure) => Err(failure.deep_view()),
                },
            ),
        }
    }
}

/// What the caller is to do next.
#[derive(Debug, Clone, PartialEq, Eq)]
pub enum ScrapeAction {
    /// Fetch the page at this address.
    FetchPage { url: String },
    /// Match this title against the title corpus.
    MatchTitle { title: String },
    /// Find the series with this slug, or create it.
    FindOrCreateSeries { slug: String, title: String, anidb_id: Option<i32> },
    /// Insert these episodes, leaving out those that are already there.
    InsertEpisodes { episodes: Vec<NewEpisode> },
    /// Enrich this series with AniDB's metadata.
    Enrich { series_id: RecordId },
    /// Nothing: the scrape is done or has failed.
    Finish,
}

/// The model of a [`ScrapeAction`].
pub ghost enum ScrapeActionModel {
    FetchPage { url: Seq<char> },
    MatchTitle { title: Seq<char> },
    FindOrCreateSeries { slug: Seq<char>, title: Seq<char>, anidb_id: Option<i32> },
    InsertEpisodes { episodes: Seq<NewEpisodeModel> },
    Enrich { series_id: RecordId },
    Finish,
}

impl DeepView for ScrapeAction {
    type V = ScrapeActionModel;

    open spec fn deep_view(&self) -> ScrapeActionModel {
        match self {
            ScrapeAction::FetchPage { url } => ScrapeActionModel::FetchPage { url: url@ },
            ScrapeAction::MatchTitle { title } => ScrapeActionModel::MatchTitle { title: title@ },
            ScrapeAction::FindOrCreateSeries {
                slug,
                title,
                anidb_id,
            } => ScrapeActionModel::FindOrCreateSeries {
                slug: slug@,
                title: title@,
                anidb_id: *anidb_id,
            },
            ScrapeAction::InsertEpisodes { episodes } => ScrapeActionModel::InsertEpisodes {
                episodes: episodes.deep_view(),
            },
            ScrapeAction::Enrich { series_id } => ScrapeActionModel::Enrich {
                series_id: *series_id,
            },
            ScrapeAction::Finish => ScrapeActionModel::Finish,
        }
    }
}

/// The stage that a state belongs to. A scrape that is done, and one that
/// enriches, belong to the last stage.
pub open spec fn stage_of(state: ScrapeStateModel) -> Stage {
    match state {
        ScrapeStateModel::ParsingUrl => Stage::ParsingUrl,
        ScrapeStateModel::FetchingPage { .. } => Stage::FetchingPage,
        ScrapeStateModel::MatchingTitle { .. } => Stage::MatchingTitle,
        ScrapeStateModel::PersistingSeries { .. } => Stage::PersistingSeries,
        ScrapeStateModel::PersistingEpisodes { .. } => Stage::PersistingEpisodes,
        ScrapeStateModel::Enriching { .. } => Stage::Enriching,
        ScrapeStateModel::Done { .. } => Stage::Enriching,
        ScrapeStateModel::Failed { stage, .. } => stage,
    }
}

/// The episode row that an extracted episode gives for a series.
pub open spec fn draft_of(episode: EpisodeModel, series_id: RecordId) -> NewEpisodeModel {
    NewEpisodeModel {
        show_id: Some(series_id),
        episode_num: Some(episode.ep_number),
        episode_type: episode.episode_type.stored(),
        title: Some(episode.eng_title),
    }
}

/// The episode rows that the extracted episodes give, in order.
pub open spec fn drafts_of(episodes: Seq<EpisodeModel>, series_id: RecordId) -> Seq<
    NewEpisodeModel,
> {
    Seq::new(episodes.len(), |i: int| draft_of(episodes[i], series_id))
}

/// Builds the episode rows that the extracted episodes give.
pub fn episode_drafts(episodes: &[EpisodeData], series_id: RecordId) -> (drafts: Vec<NewEpisode>)
    ensures
        drafts.deep_view() == drafts_of(episodes.deep_view(), series_id),
{
    let mut drafts: Vec<NewEpisode> = Vec::new();
    let mut i: usize = 0;
    while i < episodes.len()
        invariant
            i <= episodes@.len(),
            drafts@.len() == i,
            forall|j: int|
                0 <= j < i ==> drafts@[j].deep_view() == draft_of(
                    episodes@[j].deep_view(),
                    series_id,
                ),
        decreases episodes@.len() - i,
    {
        let episode = &episodes[i];
        drafts.push(
            NewEpisode {
                show_id: Some(series_id),
                episode_num: Some(episode.ep_number),
                episode_type: match episode.episode_type {
                    crate::types::EpisodeType::Canon => crate::types::StoredEpisodeType::Canon,
                    crate::types::EpisodeType::Filler => crate::types::StoredEpisodeType::Filler,
                    crate::types::EpisodeType::Mixed => crate::types::StoredEpisodeType::MixedCanon,
                    crate::types::EpisodeType::AnimeCanon => crate::types::StoredEpisodeType::AnimeCanon,
                },
                title: Some(episode.eng_title.clone()),
            },
        );
        i += 1;
    }
    assert(drafts.deep_view() =~= drafts_of(episodes.deep_view(), series_id));
    drafts
}

/// A failure of the given kind whose cause is a phrase followed by a detail.
pub open spec fn failure_of(kind: ErrorKind, phrase: Seq<char>, detail: Seq<char>) -> FailureModel {
    FailureModel { kind, cause: phrase + detail }
}

/// The failure of a scrape that was asked for with an empty address.
pub open spec fn empty_url() -> FailureModel {
    FailureModel { kind: ErrorKind::InvalidInput, cause: "URL cannot be empty"@ }
}

/// The failure that an event gives where the stage did not wait for it.
pub open spec fn unexpected_event() -> FailureModel {
    FailureModel { kind: ErrorKind::InvalidInput, cause: "unexpected event"@ }
}

/// The step of a scrape: from a state and the event that came in, to the
/// next state and the action to perform.
///
/// A scrape starts with the address: an empty one fails at once, before
/// anything is fetched, and so does one that is not a URL. Each later stage
/// fails the scrape where its own work fails. Enrichment alone is best
/// effort: whatever comes back from it, the scrape is done, and a failure is
/// kept as a note. An event that a stage did not wait for fails the scrape
/// at that stage (in the last stage, it is noted as a failed enrichment);
/// once the scrape is done or has failed, nothing changes any more.
pub open spec fn scrape_step(state: ScrapeStateModel, event: ScrapeEventModel) -> (
    ScrapeStateModel,
    ScrapeActionModel,
) {
    let astray = (
        ScrapeStateModel::Failed { stage: stage_of(state), failure: unexpected_event() },
        ScrapeActionModel::Finish,
    );
    match state {
        ScrapeStateModel::ParsingUrl => match event {
            ScrapeEventModel::Requested { url } => if is_blank(url) {
                (
                    ScrapeStateModel::Failed { stage: Stage::ParsingUrl, failure: empty_url() },
                    ScrapeActionModel::Finish,
                )
            } else {
                match slug_of_url(url) {
                    Ok(slug) => (
                        ScrapeStateModel::FetchingPage { slug, title: title_of_slug(slug) },
                        ScrapeActionModel::FetchPage { url },
                    ),
                    Err(failure) => (
                        ScrapeStateModel::Failed { stage: Stage::ParsingUrl, failure },
                        ScrapeActionModel::Finish,
                    ),
                }
            },
            _ => astray,
        },
        ScrapeStateModel::FetchingPage { slug, title } => match event {
            ScrapeEventModel::PageFetched(FetchOutcomeModel::Body(body)) => (
                ScrapeStateModel::MatchingTitle {
                    series: SeriesModel { slug, title, episodes: episodes_of_page(body) },
                },
                ScrapeActionModel::MatchTitle { title },
            ),
            ScrapeEventModel::PageFetched(FetchOutcomeModel::BadStatus(status)) => (
                ScrapeStateModel::Failed {
                    stage: Stage::FetchingPage,
                    failure: failure_of(
                        ErrorKind::TransportFailure,
                        "HTTP request returned status: "@,
                        status,
                    ),
                },
                ScrapeActionModel::Finish,
            ),
            ScrapeEventModel::PageFetched(FetchOutcomeModel::Unreachable(cause)) => (
                ScrapeStateModel::Failed {
                    stage: Stage::FetchingPage,
                    failure: FailureModel { kind: ErrorKind::TransportFailure, cause },
                },
                ScrapeActionModel::Finish,
            ),
            _ => astray,
        },
        ScrapeStateModel::MatchingTitle { series } => match event {
            ScrapeEventModel::TitleMatched(anidb_id) => (
                ScrapeStateModel::PersistingSeries { series, anidb_id },
                ScrapeActionModel::FindOrCreateSeries {
                    slug: series.slug,
                    title: series.title,
                    anidb_id,
                },
            ),
            _ => astray,
        },
        ScrapeStateModel::PersistingSeries { series, anidb_id } => match event {
            ScrapeEventModel::SeriesReady(Ok(series_id)) => (
                ScrapeStateModel::PersistingEpisodes { series, anidb_id, series_id },
                ScrapeActionModel::InsertEpisodes {
                    episodes: drafts_of(series.episodes, series_id),
                },
            ),
            ScrapeEventModel::SeriesReady(Err(cause)) => (
                ScrapeStateModel::Failed {
                    stage: Stage::PersistingSeries,
                    failure: failure_of(
                        ErrorKind::TransportFailure,
                        "Failed to find or create series: "@,
                        cause,
                    ),
                },
                ScrapeActionModel::Finish,
            ),
            _ => astray,
        },
        ScrapeStateModel::PersistingEpisodes { series, anidb_id, series_id } => match event {
            ScrapeEventModel::EpisodesInserted(Ok(_)) => if anidb_id is Some {
                (ScrapeStateModel::Enriching { series }, ScrapeActionModel::Enrich { series_id })
            } else {
                (
                    ScrapeStateModel::Done { series, enrichment: EnrichmentNoteModel::Skipped },
                    ScrapeActionModel::Finish,
                )
            },
            ScrapeEventModel::EpisodesInserted(Err(cause)) => (
                ScrapeStateModel::Failed {
                    stage: Stage::PersistingEpisodes,
                    failure: failure_of(
                        ErrorKind::TransportFailure,
                        "Failed to create episodes: "@,
                        cause,
                    ),
                },
                ScrapeActionModel::Finish,
            ),
            _ => astray,
        },
        ScrapeStateModel::Enriching { series } => match event {
            ScrapeEventModel::Enriched(Ok(counts)) => (
                ScrapeStateModel::Done {
                    series,
                    enrichment: EnrichmentNoteModel::Applied {
                        updated: counts.0,
                        unmatched: counts.1,
                    },
                },
                ScrapeActionModel::Finish,
            ),
            ScrapeEventModel::Enriched(Err(failure)) => (
                ScrapeStateModel::Done {
                    series,
                    enrichment: EnrichmentNoteModel::Failed(
                        FailureModel { kind: ErrorKind::EnrichmentFailure, cause: failure.cause },
                    ),
                },
                ScrapeActionModel::Finish,
            ),
            _ => (
                ScrapeStateModel::Done {
                    series,
                    enrichment: EnrichmentNoteModel::Failed(
                        FailureModel {
                            kind: ErrorKind::EnrichmentFailure,
                            cause: unexpected_event().cause,
                        },
                    ),
                },
                ScrapeActionModel::Finish,
            ),
        },
        ScrapeStateModel::Done { .. } => (state, ScrapeActionModel::Finish),
        ScrapeStateModel::Failed { .. } => (state, ScrapeActionModel::Finish),
    }
}

/// The state in which every scrape starts.
pub fn start_scrape() -> (state: ScrapeState)
    ensures
        state.deep_view() == ScrapeStateModel::ParsingUrl,
{
    ScrapeState::ParsingUrl
}

/// Whether a scrape has come to its end.
pub fn scrape_is_over(state: &ScrapeState) -> (over: bool)
    ensures
        over == (state.deep_view() is Done || state.deep_view() is Failed),
{
    match state {
        ScrapeState::Done { .. } => true,
        ScrapeState::Failed { .. } => true,
        _ => false,
    }
}

/// The stage at which a state fails on an event that it did not wait for.
fn stage_now(state: &ScrapeState) -> (stage: Stage)
    ensures
        stage == stage_of(state.deep_view()),
{
    match state {
        ScrapeState::ParsingUrl => Stage::ParsingUrl,
        ScrapeState::FetchingPage { .. } => Stage::FetchingPage,
        ScrapeState::MatchingTitle { .. } => Stage::MatchingTitle,
        ScrapeState::PersistingSeries { .. } => Stage::PersistingSeries,
        ScrapeState::PersistingEpisodes { .. } => Stage::PersistingEpisodes,
        ScrapeState::Enriching { .. } => Stage::Enriching,
        ScrapeState::Done { .. } => Stage::Enriching,
        ScrapeState::Failed { stage, .. } => *stage,
    }
}

/// The end of a scrape that fails at `stage`.
fn fail(stage: Stage, failure: Failure) -> (end: (ScrapeState, ScrapeAction))
    ensures
        end.0.deep_view() == (ScrapeStateModel::Failed { stage, failure: failure.deep_view() }),
        end.1.deep_view() == ScrapeActionModel::Finish,
{
    (ScrapeState::Failed { stage, failure }, ScrapeAction::Finish)
}

/// The first step of a scrape: from the address to the request for the
/// page.
fn begin(url: String) -> (next: (ScrapeState, ScrapeAction))
    ensures
        (next.0.deep_view(), next.1.deep_view()) == scrape_step(
            ScrapeStateModel::ParsingUrl,
            ScrapeEventModel::Requested { url: url@ },
        ),
{
    if is_blank_text(url.as_str()) {
        return fail(
            Stage::ParsingUrl,
            Failure::new(ErrorKind::InvalidInput, "URL cannot be empty"),
        );
    }
    match parse_url(url.as_str()) {
        Ok(slug) => {
            let title = series_title(slug.as_str());
            (ScrapeState::FetchingPage { slug, title }, ScrapeAction::FetchPage { url })
        },
        Err(failure) => fail(Stage::ParsingUrl, failure),
    }
}

/// The step after the page came in: the episodes are extracted and the match
/// of the title is asked for.
fn extract(slug: String, title: String, outcome: FetchOutcome) -> (next: (
    ScrapeState,
    ScrapeAction,
))
    ensures
        (next.0.deep_view(), next.1.deep_view()) == scrape_step(
            ScrapeStateModel::FetchingPage { slug: slug@, title: title@ },
            ScrapeEventModel::PageFetched(outcome.deep_view()),
        ),
{
    match outcome {
        FetchOutcome::Body(body) => {
            let episodes = parse_episodes_from_html(body.as_str());
            let wanted = title.clone();
            (
                ScrapeState::MatchingTitle { series: SeriesData { slug, title, episodes } },
                ScrapeAction::MatchTitle { title: wanted },
            )
        },
        FetchOutcome::BadStatus(status) => fail(
            Stage::FetchingPage,
            Failure::with_detail(
                ErrorKind::TransportFailure,
                "HTTP request returned status: ",
                status.as_str(),
            ),
        ),
        FetchOutcome::Unreachable(cause) => fail(
            Stage::FetchingPage,
            Failure { kind: ErrorKind::TransportFailure, cause },
        ),
    }
}

/// What the page of a series gives once it was asked for: the series with
/// its slug, its title and its episodes. An address that is not a URL fails
/// first, whatever came back; then a transport that failed, with its own
/// words; then an answer that is no success, with its status.
pub open spec fn scraped_series(url: Seq<char>, fetched: FetchOutcomeModel) -> Result<
    SeriesModel,
    FailureModel,
> {
    match slug_of_url(url) {
        Err(failure) => Err(failure),
        Ok(slug) => match fetched {
            FetchOutcomeModel::Body(body) => Ok(
                SeriesModel { slug, title: title_of_slug(slug), episodes: episodes_of_page(body) },
            ),
            FetchOutcomeModel::BadStatus(status) => Err(
                failure_of(ErrorKind::TransportFailure, "HTTP request returned status: "@, status),
            ),
            FetchOutcomeModel::Unreachable(cause) => Err(
                FailureModel { kind: ErrorKind::TransportFailure, cause },
            ),
        },
    }
}

/// The model of a series or a failure.
pub open spec fn series_view(scraped: Result<SeriesData, Failure>) -> Result<
    SeriesModel,
    FailureModel,
> {
    match scraped {
        Ok(series) => Ok(series.deep_view()),
        Err(failure) => Err(failure.deep_view()),
    }
}

/// Reads the page of a series: takes the slug and the title from the
/// address, and the episodes from what was fetched there. Nothing is
/// matched and nothing is saved.
pub fn scrape_anime_series(url: &str, fetched: FetchOutcome) -> (scraped: Result<
    SeriesData,
    Failure,
>)
    ensures
        series_view(scraped) == scraped_series(url@, fetched.deep_view()),
{
    let slug = match parse_url(url) {
        Ok(slug) => slug,
        Err(failure) => {
            return Err(failure);
        },
    };
    match fetched {
        FetchOutcome::Body(body) => {
            let title = series_title(slug.as_str());
            let episodes = parse_episodes_from_html(body.as_str());
            Ok(SeriesData { slug, title, episodes })
        },
        FetchOutcome::BadStatus(status) => Err(
            Failure::with_detail(
                ErrorKind::TransportFailure,
                "HTTP request returned status: ",
                status.as_str(),
            ),
        ),
        FetchOutcome::Unreachable(cause) => Err(
            Failure { kind: ErrorKind::TransportFailure, cause },
        ),
    }
}

/// Takes one step of a scrape: given where the scrape stands and what
/// happened, says where it stands now and what is to be done next.
pub fn orchestrate_scrape(state: ScrapeState, event: ScrapeEvent) -> (next: (
    ScrapeState,
    ScrapeAction,
))
    ensures
        (next.0.deep_view(), next.1.deep_view()) == scrape_step(
            state.deep_view(),
            event.deep_view(),
        ),
{
    let stage = stage_now(&state);
    match state {
        ScrapeState::ParsingUrl => match event {
            ScrapeEvent::Requested { url } => begin(url),
            _ => fail(stage, Failure::new(ErrorKind::InvalidInput, "unexpected event")),
        },
        ScrapeState::FetchingPage { slug, title } => match event {
            ScrapeEvent::PageFetched(outcome) => extract(slug, title, outcome),
            _ => fail(stage, Failure::new(ErrorKind::InvalidInput, "unexpected event")),
        },
        ScrapeState::MatchingTitle { series } => match event {
            ScrapeEvent::TitleMatched(anidb_id) => {
                let slug = series.slug.clone();
                let title = series.title.clone();
                (
                    ScrapeState::PersistingSeries { series, anidb_id },
                    ScrapeAction::FindOrCreateSeries { slug, title, anidb_id },
                )
            },
            _ => fail(stage, Failure::new(ErrorKind::InvalidInput, "unexpected event")),
        },
        ScrapeState::PersistingSeries { series, anidb_id } => match event {
            ScrapeEvent::SeriesReady(Ok(series_id)) => {
                let episodes = episode_drafts(series.episodes.as_slice(), series_id);
                (
                    ScrapeState::PersistingEpisodes { series, anidb_id, series_id },
                    ScrapeAction::InsertEpisodes { episodes },
                )
            },
            ScrapeEvent::SeriesReady(Err(cause)) => fail(
                Stage::PersistingSeries,
                Failure::with_detail(
                    ErrorKind::TransportFailure,
                    "Failed to find or create series: ",
                    cause.as_str(),
                ),
            ),
            _ => fail(stage, Failure::new(ErrorKind::InvalidInput, "unexpected event")),
        },
        ScrapeState::PersistingEpisodes { series, anidb_id, series_id } => match event {
            ScrapeEvent::EpisodesInserted(Ok(_)) => {
                if anidb_id.is_some() {
                    (ScrapeState::Enriching { series }, ScrapeAction::Enrich { series_id })
                } else {
                    (
                        ScrapeState::Done { series, enrichment: EnrichmentNote::Skipped },
                        ScrapeAction::Finish,
                    )
                }
            },
            ScrapeEvent::EpisodesInserted(Err(cause)) => fail(
                Stage::PersistingEpisodes,
                Failure::with_detail(
                    ErrorKind::TransportFailure,
                    "Failed to create episodes: ",
                    cause.as_str(),
                ),
            ),
            _ => fail(stage, Failure::new(ErrorKind::InvalidInput, "unexpected event")),
        },
        ScrapeState::Enriching { series } => match event {
            ScrapeEvent::Enriched(Ok(counts)) => (
                ScrapeState::Done {
                    series,
                    enrichment: EnrichmentNote::Applied { updated: counts.0, unmatched: counts.1 },
                },
                ScrapeAction::Finish,
            ),
            ScrapeEvent::Enriched(Err(failure)) => (
                ScrapeState::Done {
                    series,
                    enrichment: EnrichmentNote::Failed(
                        Failure { kind: ErrorKind::EnrichmentFailure, cause: failure.cause },
                    ),
                },
                ScrapeAction::Finish,
            ),
            _ => (
                ScrapeState::Done {
                    series,
                    enrichment: EnrichmentNote::Failed(
                        Failure::new(ErrorKind::EnrichmentFailure, "unexpected event"),
                    ),
                },
                ScrapeAction::Finish,
            ),
        },
        ScrapeState::Done { series, enrichment } => (
            ScrapeState::Done { series, enrichment },
            ScrapeAction::Finish,
        ),
        ScrapeState::Failed { stage, failure } => (
            ScrapeState::Failed { stage, failure },
            ScrapeAction::Finish,
        ),
    }
}

/// An empty address fails the scrape at once: the first step ends it, and
/// asks for nothing to be fetched.
pub proof fn lemma_empty_url_fails_first(url: Seq<char>)
    requires
        is_blank(url),
    ensures
        scrape_step(ScrapeStateModel::ParsingUrl, ScrapeEventModel::Requested { url }) == (
            ScrapeStateModel::Failed { stage: Stage::ParsingUrl, failure: empty_url() },
            ScrapeActionModel::Finish,
        ),
{
}

/// Enrichment never fails a scrape: whatever comes in while the series is
/// enriched, the scrape is done, with the series as it was saved.
pub proof fn lemma_enrichment_never_fails(series: SeriesModel, event: ScrapeEventModel)
    ensures
        scrape_step(ScrapeStateModel::Enriching { series }, event).0 matches ScrapeStateModel::Done {
            series: kept,
            ..
        } && kept == series,
        scrape_step(ScrapeStateModel::Enriching { series }, event).1 == ScrapeActionModel::Finish,
{
}

/// A scrape that has ended stays as it is, and a step that fails a scrape
/// or ends it asks for nothing more.
pub proof fn lemma_end_is_final(state: ScrapeStateModel, event: ScrapeEventModel)
    ensures
        state is Done || state is Failed ==> scrape_step(state, event) == (
            state,
            ScrapeActionModel::Finish,
        ),
        scrape_step(state, event).0 is Done || scrape_step(state, event).0 is Failed
            <==> scrape_step(state, event).1 == ScrapeActionModel::Finish,
{
}

/// Enrichment is asked for only once the episodes are inserted, and only
/// for a series that was matched.
pub proof fn lemma_enrich_only_when_matched(state: ScrapeStateModel, event: ScrapeEventModel)
    ensures
        scrape_step(state, event).1 is Enrich ==> (state matches ScrapeStateModel::PersistingEpisodes {
            anidb_id,
            ..
        } && anidb_id is Some && event matches ScrapeEventModel::EpisodesInserted(Ok(_))),
{
}

} // verus!
