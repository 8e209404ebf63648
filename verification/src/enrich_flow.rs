//! The enrichment of a persisted series, stage by stage: the series is
//! loaded, its AniDB document fetched and read, the series row updated, the
//! episodes loaded, and their updates applied. As in a scrape, the step
//! names each action and the caller comes back with the event.

use crate::anidb_xml::{
    outcome_view, parse_anidb_xml, reading_view, response_of, AnimeXml, AnimeXmlModel,
};
use crate::enrich::{plan_enrichment, series_update_from, series_update_of, updates_of};
use crate::error::{ErrorKind, Failure, FailureModel};
use crate::records::{
    EpisodeUpdate, EpisodeUpdateModel, PersistedEpisode, PersistedEpisodeModel, PersistedSeries,
    id_text, PersistedSeriesModel, RecordId, SeriesUpdate, SeriesUpdateModel,
};
use crate::scrape::{failure_of, unexpected_event};
use crate::text::{is_blank, is_blank_text, join};
use crate::types::{AniDBEpisodeData, AniDBEpisodeModel, AniDBSeriesData, AniDBSeriesModel};
use vstd::prelude::*;

verus! {

/// An AniDB response as the caller read it: the text, the message of its
/// error envelope where it reads as one, and its `anime` element or the
/// reason why it does not read as one.
#[derive(Debug, PartialEq, Eq)]
pub struct AniDbDocument {
    pub xml: String,
    pub envelope: Option<String>,
    pub anime: Result<AnimeXml, String>,
}

/// The model of an [`AniDbDocument`].
pub ghost struct AniDbDocumentModel {
    pub xml: Seq<char>,
    pub envelope: Option<Seq<char>>,
    pub anime: Result<AnimeXmlModel, Seq<char>>,
}

impl DeepView for AniDbDocument {
    type V = AniDbDocumentModel;

    open spec fn deep_view(&self) -> AniDbDocumentModel {
        AniDbDocumentModel {
            xml: self.xml@,
            envelope: self.envelope.deep_view(),
            anime: reading_view(self.anime),
        }
    }
}

/// Where an enrichment stands.
#[derive(Debug, Clone, PartialEq, Eq)]
pub enum EnrichState {
    /// Nothing is done yet.
    Start,
    /// The series is being loaded.
    LoadingSeries { series_id: RecordId },
    /// The AniDB document is being fetched.
    FetchingAniDb { series_id: RecordId },
    /// The series row is being updated.
    UpdatingSeries { series_id: RecordId, episodes: Vec<AniDBEpisodeData> },
    /// The persisted episodes are being loaded.
    LoadingEpisodes { episodes: Vec<AniDBEpisodeData> },
    /// The episode rows are being updated.
    UpdatingEpisodes { updated: u64, unmatched: u64 },
    /// The enrichment is done.
    Done { updated: u64, unmatched: u64 },
    /// The enrichment has failed.
    Failed(Failure),
}

/// The model of an [`EnrichState`].
pub ghost enum EnrichStateModel {
    Start,
    LoadingSeries { series_id: RecordId },
    FetchingAniDb { series_id: RecordId },
    UpdatingSeries { series_id: RecordId, episodes: Seq<AniDBEpisodeModel> },
    LoadingEpisodes { episodes: Seq<AniDBEpisodeModel> },
    UpdatingEpisodes { updated: u64, unmatched: u64 },
    Done { updated: u64, unmatched: u64 },
    Failed(FailureModel),
}

impl DeepView for EnrichState {
    type V = EnrichStateModel;

    open spec fn deep_view(&self) -> EnrichStateModel {
        match self {
            EnrichState::Start => EnrichStateModel::Start,
            EnrichState::LoadingSeries { series_id } => EnrichStateModel::LoadingSeries {
                series_id: *series_id,
            },
            EnrichState::FetchingAniDb { series_id } => EnrichStateModel::FetchingAniDb {
                series_id: *series_id,
            },
            EnrichState::UpdatingSeries { series_id, episodes } => EnrichStateModel::UpdatingSeries {
                series_id: *series_id,
                episodes: episodes.deep_view(),
            },
            EnrichState::LoadingEpisodes { episodes } => EnrichStateModel::LoadingEpisodes {
                episodes: episodes.deep_view(),
            },
            EnrichState::UpdatingEpisodes { updated, unmatched } => EnrichStateModel::UpdatingEpisodes {
                updated: *updated,
                unmatched: *unmatched,
            },
            EnrichState::Done { updated, unmatched } => EnrichStateModel::Done {
                updated: *updated,
                unmatched: *unmatched,
            },
            EnrichState::Failed(failure) => EnrichStateModel::Failed(failure.deep_view()),
        }
    }
}

/// What happened since the last step of an enrichment.
#[derive(Debug, PartialEq, Eq)]
pub enum EnrichEvent {
    /// The enrichment of this series was asked for.
    Requested { series_id: RecordId },
    /// The storage looked the series up.
    SeriesLoaded(Result<Option<PersistedSeries>, String>),
    /// The AniDB document came in, or the transport failed.
    AniDbFetched(Result<AniDbDocument, String>),
    /// The storage updated the series row.
    SeriesUpdated(Result<(), String>),
    /// The storage loaded the episodes of the series, ordered by number.
    EpisodesLoaded(Result<Vec<PersistedEpisode>, String>),
    /// The storage applied the episode updates.
    EpisodesUpdated(Result<(), String>),
}

/// The model of an [`EnrichEvent`].
pub ghost enum EnrichEventModel {
    Requested { series_id: RecordId },
    SeriesLoaded(Result<Option<PersistedSeriesModel>, Seq<char>>),
    AniDbFetched(Result<AniDbDocumentModel, Seq<char>>),
    SeriesUpdated(Result<(), Seq<char>>),
    EpisodesLoaded(Result<Seq<PersistedEpisodeModel>, Seq<char>>),
    EpisodesUpdated(Result<(), Seq<char>>),
}

impl DeepView for EnrichEvent {
    type V = EnrichEventModel;

    open spec fn deep_view(&self) -> EnrichEventModel {
        match self {
            EnrichEvent::Requested { series_id } => EnrichEventModel::Requested {
                series_id: *series_id,
            },
            EnrichEvent::SeriesLoaded(loaded) => EnrichEventModel::SeriesLoaded(
                match loaded {
                    Ok(series) => Ok(series.deep_view()),
                    Err(cause) => Err(cause@),
                },
            ),
            EnrichEvent::AniDbFetched(fetched) => EnrichEventModel::AniDbFetched(
                match fetched {
                    Ok(document) => Ok(document.deep_view()),
                    Err(cause) => Err(cause@),
                },
            ),
            EnrichEvent::SeriesUpdated(updated) => EnrichEventModel::SeriesUpdated(
                match updated {
                    Ok(_) => Ok(()),
                    Err(cause) => Err(cause@),
                },
            ),
            EnrichEvent::EpisodesLoaded(loaded) => EnrichEventModel::EpisodesLoaded(
                match loaded {
                    Ok(rows) => Ok(rows.deep_view()),
                    Err(cause) => Err(cause@),
                },
            ),
            EnrichEvent::EpisodesUpdated(updated) => EnrichEventModel::EpisodesUpdated(
                match updated {
                    Ok(_) => Ok(()),
                    Err(cause) => Err(cause@),
                },
            ),
        }
    }
}

/// What the caller is to do next.
#[derive(Debug, Clone, PartialEq, Eq)]
pub enum EnrichAction {
    /// Load the series with this identifier.
    LoadSeries { series_id: RecordId },
    /// Fetch the AniDB document of this series and read it.
    FetchAniDb { anidb_id: i32 },
    /// Overwrite these fields of the series row.
    UpdateSeries { series_id: RecordId, update: SeriesUpdate },
    /// Load the episodes of this series, ordered by number.
    LoadEpisodes { series_id: RecordId },
    /// Apply these updates, one row each.
    UpdateEpisodes { updates: Vec<EpisodeUpdate> },
    /// Nothing: the enrichment is done or has failed.
    Finish,
}

/// The model of an [`EnrichAction`].
pub ghost enum EnrichActionModel {
    LoadSeries { series_id: RecordId },
    FetchAniDb { anidb_id: i32 },
    UpdateSeries { series_id: RecordId, update: SeriesUpdateModel },
    LoadEpisodes { series_id: RecordId },
    UpdateEpisodes { updates: Seq<EpisodeUpdateModel> },
    Finish,
}

impl DeepView for EnrichAction {
    type V = EnrichActionModel;

    open spec fn deep_view(&self) -> EnrichActionModel {
        match self {
            EnrichAction::LoadSeries { series_id } => EnrichActionModel::LoadSeries {
                series_id: *series_id,
            },
            EnrichAction::FetchAniDb { anidb_id } => EnrichActionModel::FetchAniDb {
                anidb_id: *anidb_id,
            },
            EnrichAction::UpdateSeries { series_id, update } => EnrichActionModel::UpdateSeries {
                series_id: *series_id,
                update: update.deep_view(),
            },
            EnrichAction::LoadEpisodes { series_id } => EnrichActionModel::LoadEpisodes {
                series_id: *series_id,
            },
            EnrichAction::UpdateEpisodes { updates } => EnrichActionModel::UpdateEpisodes {
                updates: updates.deep_view(),
            },
            EnrichAction::Finish => EnrichActionModel::Finish,
        }
    }
}

/// The end of an enrichment that fails.
pub open spec fn failed(failure: FailureModel) -> (EnrichStateModel, EnrichActionModel) {
    (EnrichStateModel::Failed(failure), EnrichActionModel::Finish)
}

/// The failure of an enrichment that was asked for with the nil identifier.
pub open spec fn nil_series() -> FailureModel {
    FailureModel { kind: ErrorKind::InvalidInput, cause: "Series ID cannot be nil UUID"@ }
}

/// The failure of an enrichment whose series is not there.
pub open spec fn series_missing(series_id: RecordId) -> FailureModel {
    FailureModel {
        kind: ErrorKind::NotFound,
        cause: "Series not found: "@ + id_text(series_id.value),
    }
}

/// The failure of an enrichment whose series has no AniDB identifier.
pub open spec fn series_unmatched(slug: Seq<char>) -> FailureModel {
    FailureModel {
        kind: ErrorKind::InvalidInput,
        cause: "Series '"@ + slug + "' has no AniDB ID - cannot enrich"@,
    }
}

/// How many persisted rows stay without an update.
pub open spec fn unmatched_of(
    persisted: Seq<PersistedEpisodeModel>,
    anidb: Seq<AniDBEpisodeModel>,
) -> int {
    persisted.len() - updates_of(persisted, anidb).len()
}

/// The step of an enrichment: from a state and the event that came in, to
/// the next state and the action to perform. Every stage fails the
/// enrichment where its own work fails; a series that is not there, and one
/// without an AniDB identifier, fail it too. An event that a stage did not
/// wait for fails the enrichment; once it is done or has failed, nothing
/// changes any more.
pub open spec fn enrich_step(state: EnrichStateModel, event: EnrichEventModel) -> (
    EnrichStateModel,
    EnrichActionModel,
) {
    match state {
        EnrichStateModel::Start => match event {
            EnrichEventModel::Requested { series_id } => if series_id.value == 0 {
                failed(nil_series())
            } else {
                (
                    EnrichStateModel::LoadingSeries { series_id },
                    EnrichActionModel::LoadSeries { series_id },
                )
            },
            _ => failed(unexpected_event()),
        },
        EnrichStateModel::LoadingSeries { series_id } => match event {
            EnrichEventModel::SeriesLoaded(Ok(Some(series))) => match series.anidb_id {
                Some(anidb_id) => (
                    EnrichStateModel::FetchingAniDb { series_id },
                    EnrichActionModel::FetchAniDb { anidb_id },
                ),
                None => failed(series_unmatched(series.slug)),
            },
            EnrichEventModel::SeriesLoaded(Ok(None)) => failed(series_missing(series_id)),
            EnrichEventModel::SeriesLoaded(Err(cause)) => failed(
                failure_of(ErrorKind::TransportFailure, "Failed to fetch series: "@, cause),
            ),
            _ => failed(unexpected_event()),
        },
        EnrichStateModel::FetchingAniDb { series_id } => match event {
            EnrichEventModel::AniDbFetched(Ok(document)) => match response_of(
                document.xml,
                document.envelope,
                document.anime,
            ) {
                Ok(data) => (
                    EnrichStateModel::UpdatingSeries { series_id, episodes: data.episodes },
                    EnrichActionModel::UpdateSeries { series_id, update: series_update_of(data) },
                ),
                Err(failure) => failed(failure),
            },
            EnrichEventModel::AniDbFetched(Err(cause)) => failed(
                FailureModel { kind: ErrorKind::TransportFailure, cause },
            ),
            _ => failed(unexpected_event()),
        },
        EnrichStateModel::UpdatingSeries { series_id, episodes } => match event {
            EnrichEventModel::SeriesUpdated(Ok(_)) => (
                EnrichStateModel::LoadingEpisodes { episodes },
                EnrichActionModel::LoadEpisodes { series_id },
            ),
            EnrichEventModel::SeriesUpdated(Err(cause)) => failed(
                failure_of(ErrorKind::TransportFailure, "Failed to enrich series: "@, cause),
            ),
            _ => failed(unexpected_event()),
        },
        EnrichStateModel::LoadingEpisodes { episodes } => match event {
            EnrichEventModel::EpisodesLoaded(Ok(rows)) => (
                EnrichStateModel::UpdatingEpisodes {
                    updated: updates_of(rows, episodes).len() as u64,
                    unmatched: unmatched_of(rows, episodes) as u64,
                },
                EnrichActionModel::UpdateEpisodes { updates: updates_of(rows, episodes) },
            ),
            EnrichEventModel::EpisodesLoaded(Err(cause)) => failed(
                failure_of(ErrorKind::TransportFailure, "Failed to enrich episodes: "@, cause),
            ),
            _ => failed(unexpected_event()),
        },
        EnrichStateModel::UpdatingEpisodes { updated, unmatched } => match event {
            EnrichEventModel::EpisodesUpdated(Ok(_)) => (
                EnrichStateModel::Done { updated, unmatched },
                EnrichActionModel::Finish,
            ),
            EnrichEventModel::EpisodesUpdated(Err(cause)) => failed(
                failure_of(ErrorKind::TransportFailure, "Failed to enrich episodes: "@, cause),
            ),
            _ => failed(unexpected_event()),
        },
        EnrichStateModel::Done { .. } => (state, EnrichActionModel::Finish),
        EnrichStateModel::Failed(_) => (state, EnrichActionModel::Finish),
    }
}

/// The state in which every enrichment starts.
pub fn start_enrichment() -> (state: EnrichState)
    ensures
        state.deep_view() == EnrichStateModel::Start,
{
    EnrichState::Start
}

/// The end of an enrichment that fails.
fn fail(failure: Failure) -> (end: (EnrichState, EnrichAction))
    ensures
        (end.0.deep_view(), end.1.deep_view()) == failed(failure.deep_view()),
{
    (EnrichState::Failed(failure), EnrichAction::Finish)
}

/// The end of an enrichment that an event led astray.
fn astray() -> (end: (EnrichState, EnrichAction))
    ensures
        (end.0.deep_view(), end.1.deep_view()) == failed(unexpected_event()),
{
    fail(Failure::new(ErrorKind::InvalidInput, "unexpected event"))
}

/// The end of an enrichment whose stage failed in the caller's hands.
fn fail_with(phrase: &str, cause: &String) -> (end: (EnrichState, EnrichAction))
    ensures
        (end.0.deep_view(), end.1.deep_view()) == failed(
            failure_of(ErrorKind::TransportFailure, phrase@, cause@),
        ),
{
    fail(Failure::with_detail(ErrorKind::TransportFailure, phrase, cause.as_str()))
}

/// The step after the AniDB document came in: it is read, and the update of
/// the series row is asked for.
fn read_document(series_id: RecordId, document: AniDbDocument) -> (next: (
    EnrichState,
    EnrichAction,
))
    ensures
        (next.0.deep_view(), next.1.deep_view()) == enrich_step(
            EnrichStateModel::FetchingAniDb { series_id },
            EnrichEventModel::AniDbFetched(Ok(document.deep_view())),
        ),
{
    let AniDbDocument { xml, envelope, anime } = document;
    match parse_anidb_xml(xml.as_str(), envelope, anime) {
        Ok(data) => {
            let update = series_update_from(&data);
            (
                EnrichState::UpdatingSeries { series_id, episodes: data.episodes },
                EnrichAction::UpdateSeries { series_id, update },
            )
        },
        Err(failure) => fail(failure),
    }
}

/// The step after the episodes came in: the updates are planned and asked
/// for.
fn plan_updates(episodes: Vec<AniDBEpisodeData>, rows: Vec<PersistedEpisode>) -> (next: (
    EnrichState,
    EnrichAction,
))
    ensures
        (next.0.deep_view(), next.1.deep_view()) == enrich_step(
            EnrichStateModel::LoadingEpisodes { episodes: episodes.deep_view() },
            EnrichEventModel::EpisodesLoaded(Ok(rows.deep_view())),
        ),
{
    let row_list = rows.as_slice();
    let episode_list = episodes.as_slice();
    assert(row_list.deep_view() =~= rows.deep_view());
    assert(episode_list.deep_view() =~= episodes.deep_view());
    let plan = plan_enrichment(row_list, episode_list);
    assert(plan.updates.deep_view().len() == plan.updates@.len());
    (
        EnrichState::UpdatingEpisodes { updated: plan.updated, unmatched: plan.unmatched },
        EnrichAction::UpdateEpisodes { updates: plan.updates },
    )
}

/// Takes one step of the enrichment of a series: given where it stands and
/// what happened, says where it stands now and what is to be done next.
pub fn enrich_series_with_anidb(state: EnrichState, event: EnrichEvent) -> (next: (
    EnrichState,
    EnrichAction,
))
    ensures
        (next.0.deep_view(), next.1.deep_view()) == enrich_step(
            state.deep_view(),
            event.deep_view(),
        ),
{
    match state {
        EnrichState::Start => match event {
            EnrichEvent::Requested { series_id } => {
                if series_id.is_nil() {
                    fail(Failure::new(ErrorKind::InvalidInput, "Series ID cannot be nil UUID"))
                } else {
                    (
                        EnrichState::LoadingSeries { series_id },
                        EnrichAction::LoadSeries { series_id },
                    )
                }
            },
            _ => astray(),
        },
        EnrichState::LoadingSeries { series_id } => match event {
            EnrichEvent::SeriesLoaded(Ok(Some(series))) => match series.anidb_id {
                Some(anidb_id) => (
                    EnrichState::FetchingAniDb { series_id },
                    EnrichAction::FetchAniDb { anidb_id },
                ),
                None => {
                    let named = crate::text::join("Series '", series.slug.as_str());
                    fail(
                        Failure::with_detail(
                            ErrorKind::InvalidInput,
                            named.as_str(),
                            "' has no AniDB ID - cannot enrich",
                        ),
                    )
                },
            },
            EnrichEvent::SeriesLoaded(Ok(None)) => {
                let id = series_id.hyphenated();
                fail(Failure::with_detail(ErrorKind::NotFound, "Series not found: ", id.as_str()))
            },
            EnrichEvent::SeriesLoaded(Err(cause)) => fail_with("Failed to fetch series: ", &cause),
            _ => astray(),
        },
        EnrichState::FetchingAniDb { series_id } => match event {
            EnrichEvent::AniDbFetched(Ok(document)) => read_document(series_id, document),
            EnrichEvent::AniDbFetched(Err(cause)) => fail(
                Failure { kind: ErrorKind::TransportFailure, cause },
            ),
            _ => astray(),
        },
        EnrichState::UpdatingSeries { series_id, episodes } => match event {
            EnrichEvent::SeriesUpdated(Ok(_)) => (
                EnrichState::LoadingEpisodes { episodes },
                EnrichAction::LoadEpisodes { series_id },
            ),
            EnrichEvent::SeriesUpdated(Err(cause)) => fail_with(
                "Failed to enrich series: ",
                &cause,
            ),
            _ => astray(),
        },
        EnrichState::LoadingEpisodes { episodes } => match event {
            EnrichEvent::EpisodesLoaded(Ok(rows)) => plan_updates(episodes, rows),
            EnrichEvent::EpisodesLoaded(Err(cause)) => fail_with(
                "Failed to enrich episodes: ",
                &cause,
            ),
            _ => astray(),
        },
        EnrichState::UpdatingEpisodes { updated, unmatched } => match event {
            EnrichEvent::EpisodesUpdated(Ok(_)) => (
                EnrichState::Done { updated, unmatched },
                EnrichAction::Finish,
            ),
            EnrichEvent::EpisodesUpdated(Err(cause)) => fail_with(
                "Failed to enrich episodes: ",
                &cause,
            ),
            _ => astray(),
        },
        EnrichState::Done { updated, unmatched } => (
            EnrichState::Done { updated, unmatched },
            EnrichAction::Finish,
        ),
        EnrichState::Failed(failure) => (EnrichState::Failed(failure), EnrichAction::Finish),
    }
}

/// The failure that an empty AniDB identifier gives.
pub open spec fn empty_anidb_id() -> FailureModel {
    FailureModel { kind: ErrorKind::InvalidInput, cause: "AniDB ID cannot be empty"@ }
}

/// Checks the identifier under which an AniDB document is asked for: an
/// empty one is refused before anything is fetched.
pub fn check_anidb_id(anidb_id: &str) -> (checked: Result<(), Failure>)
    ensures
        match checked {
            Ok(_) => !is_blank(anidb_id@),
            Err(failure) => is_blank(anidb_id@) && failure.deep_view() == empty_anidb_id(),
        },
{
    if is_blank_text(anidb_id) {
        Err(Failure::new(ErrorKind::InvalidInput, "AniDB ID cannot be empty"))
    } else {
        Ok(())
    }
}

/// The address under which AniDB hands out the document of a series to a
/// registered client.
pub open spec fn anidb_request_of(client: Seq<char>, version: Seq<char>, anidb_id: Seq<char>) -> Seq<
    char,
> {
    "http://api.anidb.net:9001/httpapi?client="@ + client + "&clientver="@ + version
        + "&protover=1&request=anime&aid="@ + anidb_id
}

/// Builds the address under which the document of a series is asked for.
pub fn anidb_request_url(client: &str, version: &str, anidb_id: &str) -> (url: String)
    ensures
        url@ == anidb_request_of(client@, version@, anidb_id@),
{
    let with_client = join("http://api.anidb.net:9001/httpapi?client=", client);
    let with_key = join(with_client.as_str(), "&clientver=");
    let with_version = join(with_key.as_str(), version);
    let with_request = join(with_version.as_str(), "&protover=1&request=anime&aid=");
    join(with_request.as_str(), anidb_id)
}

/// The model of what the transport hands back for an AniDB document.
pub open spec fn fetched_view(fetched: Result<AniDbDocument, String>) -> Result<
    AniDbDocumentModel,
    Seq<char>,
> {
    match fetched {
        Ok(document) => Ok(document.deep_view()),
        Err(cause) => Err(cause@),
    }
}

/// What the scrape of an AniDB series gives: an empty identifier is refused
/// first, whatever came back; then a transport that failed; then the
/// document is read.
pub open spec fn anidb_series_of(
    anidb_id: Seq<char>,
    fetched: Result<AniDbDocumentModel, Seq<char>>,
) -> Result<AniDBSeriesModel, FailureModel> {
    if is_blank(anidb_id) {
        Err(empty_anidb_id())
    } else {
        match fetched {
            Ok(document) => response_of(document.xml, document.envelope, document.anime),
            Err(cause) => Err(FailureModel { kind: ErrorKind::TransportFailure, cause }),
        }
    }
}

/// Reads the series that AniDB describes under an identifier from what the
/// transport handed back for it.
pub fn orchestrate_anidb_scrape(anidb_id: &str, fetched: Result<AniDbDocument, String>) -> (scraped:
    Result<AniDBSeriesData, Failure>)
    ensures
        outcome_view(scraped) == anidb_series_of(anidb_id@, fetched_view(fetched)),
{
    match check_anidb_id(anidb_id) {
        Err(failure) => {
            return Err(failure);
        },
        Ok(_) => {},
    }
    match fetched {
        Ok(document) => {
            let AniDbDocument { xml, envelope, anime } = document;
            parse_anidb_xml(xml.as_str(), envelope, anime)
        },
        Err(cause) => Err(Failure { kind: ErrorKind::TransportFailure, cause }),
    }
}

/// An enrichment that was asked for with the nil identifier fails at once,
/// and asks the storage for nothing.
pub proof fn lemma_nil_series_fails_first()
    ensures
        enrich_step(
            EnrichStateModel::Start,
            EnrichEventModel::Requested { series_id: RecordId { value: 0 } },
        ) == failed(nil_series()),
{
}

/// The counts of an enrichment that is done are those of its plan: the
/// step that ends it hands on what the step before had counted.
pub proof fn lemma_done_keeps_counts(updated: u64, unmatched: u64)
    ensures
        enrich_step(
            EnrichStateModel::UpdatingEpisodes { updated, unmatched },
            EnrichEventModel::EpisodesUpdated(Ok(())),
        ) == (EnrichStateModel::Done { updated, unmatched }, EnrichActionModel::Finish),
{
}

} // verus!
