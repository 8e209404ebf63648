//! The AniDB response: from the elements of the XML document, once they are
//! read into plain values, to the series and its regular episodes.

use crate::date::{parsed_date, iso_date_format, Date};
use crate::error::{ErrorKind, Failure, FailureModel};
use crate::text::{chars_of, contains, contains_text, parse_i32, parse_i32_of, same_text, trim, trim_of};
use crate::types::{
    clone_text, AniDBEpisodeData, AniDBEpisodeModel, AniDBSeriesData, AniDBSeriesModel,
};
use vstd::prelude::*;

verus! {

/// A `title` element: its language, its type where it has one, its text.
#[derive(Debug, Clone, PartialEq, Eq)]
pub struct TitleXml {
    pub lang: String,
    pub title_type: Option<String>,
    pub value: String,
}

/// The model of a [`TitleXml`].
pub ghost struct TitleXmlModel {
    pub lang: Seq<char>,
    pub title_type: Option<Seq<char>>,
    pub value: Seq<char>,
}

impl DeepView for TitleXml {
    type V = TitleXmlModel;

    open spec fn deep_view(&self) -> TitleXmlModel {
        TitleXmlModel {
            lang: self.lang@,
            title_type: self.title_type.deep_view(),
            value: self.value@,
        }
    }
}

/// A `resource` element of an episode: its type code and the identifier of
/// its external entity, where it has them.
#[derive(Debug, Clone, PartialEq, Eq)]
pub struct ResourceXml {
    pub resource_type: i32,
    pub identifier: Option<String>,
}

/// The model of a [`ResourceXml`].
pub ghost struct ResourceXmlModel {
    pub resource_type: i32,
    pub identifier: Option<Seq<char>>,
}

impl DeepView for ResourceXml {
    type V = ResourceXmlModel;

    open spec fn deep_view(&self) -> ResourceXmlModel {
        ResourceXmlModel {
            resource_type: self.resource_type,
            identifier: self.identifier.deep_view(),
        }
    }
}

/// An `episode` element.
#[derive(Debug, Clone, PartialEq, Eq)]
pub struct EpisodeXml {
    pub id: i32,
    pub update: String,
    pub epno_type: i32,
    pub epno_value: String,
    pub length: Option<i32>,
    pub airdate: Option<String>,
    pub titles: Vec<TitleXml>,
    pub summary: Option<String>,
    pub resources: Option<Vec<ResourceXml>>,
}

/// The model of an [`EpisodeXml`].
pub ghost struct EpisodeXmlModel {
    pub id: i32,
    pub update: Seq<char>,
    pub epno_type: i32,
    pub epno_value: Seq<char>,
    pub length: Option<i32>,
    pub airdate: Option<Seq<char>>,
    pub titles: Seq<TitleXmlModel>,
    pub summary: Option<Seq<char>>,
    pub resources: Option<Seq<ResourceXmlModel>>,
}

impl DeepView for EpisodeXml {
    type V = EpisodeXmlModel;

    open spec fn deep_view(&self) -> EpisodeXmlModel {
        EpisodeXmlModel {
            id: self.id,
            update: self.update@,
            epno_type: self.epno_type,
            epno_value: self.epno_value@,
            length: self.length,
            airdate: self.airdate.deep_view(),
            titles: self.titles.deep_view(),
            summary: self.summary.deep_view(),
            resources: self.resources.deep_view(),
        }
    }
}

/// The root `anime` element.
#[derive(Debug, Clone, PartialEq, Eq)]
pub struct AnimeXml {
    pub id: i32,
    pub restricted: Option<String>,
    pub anime_type: Option<String>,
    pub episodecount: Option<i32>,
    pub startdate: Option<String>,
    pub enddate: Option<String>,
    pub titles: Option<Vec<TitleXml>>,
    pub url: Option<String>,
    pub description: Option<String>,
    pub episodes: Option<Vec<EpisodeXml>>,
}

/// The model of an [`AnimeXml`].
pub ghost struct AnimeXmlModel {
    pub id: i32,
    pub restricted: Option<Seq<char>>,
    pub anime_type: Option<Seq<char>>,
    pub episodecount: Option<i32>,
    pub startdate: Option<Seq<char>>,
    pub enddate: Option<Seq<char>>,
    pub titles: Option<Seq<TitleXmlModel>>,
    pub url: Option<Seq<char>>,
    pub description: Option<Seq<char>>,
    pub episodes: Option<Seq<EpisodeXmlModel>>,
}

impl DeepView for AnimeXml {
    type V = AnimeXmlModel;

    open spec fn deep_view(&self) -> AnimeXmlModel {
        AnimeXmlModel {
            id: self.id,
            restricted: self.restricted.deep_view(),
            anime_type: self.anime_type.deep_view(),
            episodecount: self.episodecount,
            startdate: self.startdate.deep_view(),
            enddate: self.enddate.deep_view(),
            titles: self.titles.deep_view(),
            url: self.url.deep_view(),
            description: self.description.deep_view(),
            episodes: self.episodes.deep_view(),
        }
    }
}

/// The type code of a regular episode.
pub const REGULAR_EPISODE: i32 = 1;

/// The type code of the resource that carries the Crunchyroll identifier.
pub const CRUNCHYROLL_RESOURCE: i32 = 28;

/// The name that stands where a series has no title or no type.
pub open spec fn unknown() -> Seq<char> {
    "Unknown"@
}

/// The text of the first title, from position `from` on, whose language is
/// `lang` or `other`.
pub open spec fn first_in_language(
    titles: Seq<TitleXmlModel>,
    lang: Seq<char>,
    other: Seq<char>,
    from: int,
) -> Option<Seq<char>>
    decreases titles.len() - from,
{
    if from < 0 || from >= titles.len() {
        None
    } else if titles[from].lang == lang || titles[from].lang == other {
        Some(titles[from].value)
    } else {
        first_in_language(titles, lang, other, from + 1)
    }
}

/// The text of the first title, from position `from` on, whose type is
/// `kind`.
pub open spec fn first_of_type(titles: Seq<TitleXmlModel>, kind: Seq<char>, from: int) -> Option<
    Seq<char>,
>
    decreases titles.len() - from,
{
    if from < 0 || from >= titles.len() {
        None
    } else if titles[from].title_type == Some(kind) {
        Some(titles[from].value)
    } else {
        first_of_type(titles, kind, from + 1)
    }
}

/// The titles of a series: the main title (or a placeholder), the Japanese
/// title (the first in `ja`; failing that, the first in `x-jat`), and the
/// English title. In each case the first title in document order wins.
pub open spec fn titles_of_series(titles: Option<Seq<TitleXmlModel>>) -> (
    Seq<char>,
    Option<Seq<char>>,
    Option<Seq<char>>,
) {
    match titles {
        Some(list) => (
            match first_of_type(list, "main"@, 0) {
                Some(main) => main,
                None => unknown(),
            },
            match first_in_language(list, "ja"@, "ja"@, 0) {
                Some(ja) => Some(ja),
                None => first_in_language(list, "x-jat"@, "x-jat"@, 0),
            },
            first_in_language(list, "en"@, "en"@, 0),
        ),
        None => (unknown(), None, None),
    }
}

/// Finds the first title whose language is `lang` or `other`.
pub fn find_in_language(titles: &[TitleXml], lang: &str, other: &str) -> (found: Option<String>)
    ensures
        found.deep_view() == first_in_language(titles.deep_view(), lang@, other@, 0),
{
    let mut i: usize = 0;
    while i < titles.len()
        invariant
            i <= titles@.len(),
            first_in_language(titles.deep_view(), lang@, other@, 0) == first_in_language(
                titles.deep_view(),
                lang@,
                other@,
                i as int,
            ),
        decreases titles@.len() - i,
    {
        let title = &titles[i];
        assert(titles.deep_view()[i as int] == title.deep_view());
        if same_text(title.lang.as_str(), lang) || same_text(title.lang.as_str(), other) {
            return Some(title.value.clone());
        }
        i += 1;
    }
    None
}

/// Finds the first title whose type is `kind`.
pub fn find_of_type(titles: &[TitleXml], kind: &str) -> (found: Option<String>)
    ensures
        found.deep_view() == first_of_type(titles.deep_view(), kind@, 0),
{
    let mut i: usize = 0;
    while i < titles.len()
        invariant
            i <= titles@.len(),
            first_of_type(titles.deep_view(), kind@, 0) == first_of_type(
                titles.deep_view(),
                kind@,
                i as int,
            ),
        decreases titles@.len() - i,
    {
        let title = &titles[i];
        assert(titles.deep_view()[i as int] == title.deep_view());
        let wanted: bool = match &title.title_type {
            Some(t) => same_text(t.as_str(), kind),
            None => false,
        };
        if wanted {
            return Some(title.value.clone());
        }
        i += 1;
    }
    None
}

/// Picks the main, the Japanese and the English title of a series.
pub fn extract_titles(titles: &Option<Vec<TitleXml>>) -> (picked: (
    String,
    Option<String>,
    Option<String>,
))
    ensures
        picked.deep_view() == titles_of_series(titles.deep_view()),
{
    match titles {
        Some(list) => {
            let main = match find_of_type(list.as_slice(), "main") {
                Some(main) => main,
                None => "Unknown".to_owned(),
            };
            let ja = match find_in_language(list.as_slice(), "ja", "ja") {
                Some(ja) => Some(ja),
                None => find_in_language(list.as_slice(), "x-jat", "x-jat"),
            };
            let en = find_in_language(list.as_slice(), "en", "en");
            (main, ja, en)
        },
        None => ("Unknown".to_owned(), None, None),
    }
}

/// The date written in an optional text, where there is one and it can be
/// read.
pub open spec fn optional_date(text: Option<Seq<char>>) -> Option<Date> {
    match text {
        Some(t) => parsed_date(t, iso_date_format()),
        None => None,
    }
}

/// Reads the date written in an optional text.
pub fn read_optional_date(text: &Option<String>) -> (date: Option<Date>)
    ensures
        date == optional_date(text.deep_view()),
{
    match text {
        Some(t) => Date::parse_iso(t.as_str()),
        None => None,
    }
}

/// The identifier of the first resource of the Crunchyroll type, from
/// position `from` on. A first such resource without an identifier gives
/// none, whatever follows.
pub open spec fn crunchyroll_id_from(resources: Seq<ResourceXmlModel>, from: int) -> Option<
    Seq<char>,
>
    decreases resources.len() - from,
{
    if from < 0 || from >= resources.len() {
        None
    } else if resources[from].resource_type == CRUNCHYROLL_RESOURCE {
        resources[from].identifier
    } else {
        crunchyroll_id_from(resources, from + 1)
    }
}

/// The Crunchyroll identifier among the resources of an episode.
pub open spec fn crunchyroll_id_of(resources: Option<Seq<ResourceXmlModel>>) -> Option<Seq<char>> {
    match resources {
        Some(list) => crunchyroll_id_from(list, 0),
        None => None,
    }
}

/// Finds the Crunchyroll identifier among the resources of an episode.
pub fn find_crunchyroll_id(resources: &Option<Vec<ResourceXml>>) -> (found: Option<String>)
    ensures
        found.deep_view() == crunchyroll_id_of(resources.deep_view()),
{
    match resources {
        Some(list) => {
            let mut i: usize = 0;
            while i < list.len()
                invariant
                    i <= list@.len(),
                    resources.deep_view() == Some(list.deep_view()),
                    crunchyroll_id_from(list.deep_view(), 0) == crunchyroll_id_from(
                        list.deep_view(),
                        i as int,
                    ),
                decreases list@.len() - i,
            {
                let resource = &list[i];
                assert(list.deep_view()[i as int] == resource.deep_view());
                if resource.resource_type == CRUNCHYROLL_RESOURCE {
                    return clone_text(&resource.identifier);
                }
                i += 1;
            }
            None
        },
        None => None,
    }
}

/// The number of an episode: what its trimmed `epno` text denotes, or zero.
pub open spec fn epno_of(text: Seq<char>) -> i32 {
    match parse_i32_of(trim_of(text)) {
        Some(n) => n,
        None => 0,
    }
}

/// The episode that an `episode` element stands for, where its update date
/// can be read. The Japanese title is the first in `ja` or `x-jat`.
pub open spec fn episode_of_xml(ep: EpisodeXmlModel) -> Option<AniDBEpisodeModel> {
    match parsed_date(ep.update, iso_date_format()) {
        Some(update_date) => Some(
            AniDBEpisodeModel {
                id: ep.id,
                update_date,
                epno: epno_of(ep.epno_value),
                epno_type: ep.epno_type,
                length: ep.length,
                airdate: optional_date(ep.airdate),
                rating: None,
                votes: None,
                title_ja: first_in_language(ep.titles, "ja"@, "x-jat"@, 0),
                title_en: first_in_language(ep.titles, "en"@, "en"@, 0),
                summary: ep.summary,
                crunchyroll_id: crunchyroll_id_of(ep.resources),
            },
        ),
        None => None,
    }
}

/// The phrase that introduces an update date that cannot be read.
pub open spec fn bad_update_date() -> Seq<char> {
    "Failed to parse episode update date: "@
}

/// Builds the episode that an `episode` element stands for. The update date
/// is mandatory: where it cannot be read, the episode is refused.
pub fn parse_episode_xml(ep: &EpisodeXml) -> (parsed: Result<AniDBEpisodeData, Failure>)
    ensures
        match parsed {
            Ok(episode) => episode_of_xml(ep.deep_view()) == Some(episode.deep_view()),
            Err(failure) => episode_of_xml(ep.deep_view()) is None && failure.deep_view() == (
            FailureModel { kind: ErrorKind::ParseFailure, cause: bad_update_date() + ep.update@ }),
        },
{
    let update_date = match Date::parse_iso(ep.update.as_str()) {
        Some(d) => d,
        None => {
            return Err(
                Failure::with_detail(
                    ErrorKind::ParseFailure,
                    "Failed to parse episode update date: ",
                    ep.update.as_str(),
                ),
            );
        },
    };
    let number_text = chars_of(ep.epno_value.as_str());
    let trimmed = trim(number_text.as_slice());
    let epno: i32 = match parse_i32(trimmed.as_slice()) {
        Some(n) => n,
        None => 0,
    };
    Ok(
        AniDBEpisodeData {
            id: ep.id,
            update_date,
            epno,
            epno_type: ep.epno_type,
            length: ep.length,
            airdate: read_optional_date(&ep.airdate),
            rating: None,
            votes: None,
            title_ja: find_in_language(ep.titles.as_slice(), "ja", "x-jat"),
            title_en: find_in_language(ep.titles.as_slice(), "en", "en"),
            summary: clone_text(&ep.summary),
            crunchyroll_id: find_crunchyroll_id(&ep.resources),
        },
    )
}

/// The episodes kept from the first `upto` elements: the regular ones whose
/// update date can be read, in document order. An element that cannot be
/// read is dropped and the rest stands.
pub open spec fn kept_episodes(episodes: Seq<EpisodeXmlModel>, upto: int) -> Seq<AniDBEpisodeModel>
    decreases upto,
{
    if upto <= 0 {
        Seq::empty()
    } else {
        let before = kept_episodes(episodes, upto - 1);
        let ep = episodes[upto - 1];
        if ep.epno_type == REGULAR_EPISODE && episode_of_xml(ep) is Some {
            before.push(episode_of_xml(ep)->0)
        } else {
            before
        }
    }
}

/// Every kept episode is regular.
pub proof fn lemma_kept_episodes_regular(episodes: Seq<EpisodeXmlModel>, upto: int)
    requires
        0 <= upto <= episodes.len(),
    ensures
        kept_episodes(episodes, upto).len() <= upto,
        forall|i: int|
            0 <= i < kept_episodes(episodes, upto).len() ==> (#[trigger] kept_episodes(
                episodes,
                upto,
            )[i]).epno_type == REGULAR_EPISODE,
    decreases upto,
{
    if upto > 0 {
        lemma_kept_episodes_regular(episodes, upto - 1);
    }
}

/// The series that an `anime` element stands for.
pub open spec fn series_of_xml(anime: AnimeXmlModel) -> AniDBSeriesModel {
    let titles = titles_of_series(anime.titles);
    AniDBSeriesModel {
        id: anime.id,
        restricted: anime.restricted == Some("true"@),
        anime_type: match anime.anime_type {
            Some(t) => t,
            None => unknown(),
        },
        episode_count: anime.episodecount,
        episodes: match anime.episodes {
            Some(list) => kept_episodes(list, list.len() as int),
            None => Seq::empty(),
        },
        start_date: optional_date(anime.startdate),
        end_date: optional_date(anime.enddate),
        title_main: titles.0,
        title_ja: titles.1,
        title_en: titles.2,
        description: anime.description,
        url: anime.url,
    }
}

/// Keeps the regular episodes that can be read.
pub fn keep_regular_episodes(episodes: &[EpisodeXml]) -> (kept: Vec<AniDBEpisodeData>)
    ensures
        kept.deep_view() == kept_episodes(episodes.deep_view(), episodes@.len() as int),
{
    let mut kept: Vec<AniDBEpisodeData> = Vec::new();
    let mut i: usize = 0;
    assert(kept.deep_view() =~= Seq::empty());
    while i < episodes.len()
        invariant
            i <= episodes@.len(),
            kept.deep_view() == kept_episodes(episodes.deep_view(), i as int),
        decreases episodes@.len() - i,
    {
        let ep = &episodes[i];
        assert(episodes.deep_view()[i as int] == ep.deep_view());
        let ghost before = kept.deep_view();
        if ep.epno_type == REGULAR_EPISODE {
            match parse_episode_xml(ep) {
                Ok(episode) => {
                    kept.push(episode);
                    assert(kept.deep_view() =~= before.push(episode.deep_view()));
                },
                Err(_) => {},
            }
        }
        i += 1;
    }
    kept
}

/// Builds the series that an `anime` element stands for.
pub fn series_from_xml(anime: &AnimeXml) -> (series: AniDBSeriesData)
    ensures
        series.deep_view() == series_of_xml(anime.deep_view()),
{
    let (title_main, title_ja, title_en) = extract_titles(&anime.titles);
    let restricted: bool = match &anime.restricted {
        Some(flag) => same_text(flag.as_str(), "true"),
        None => false,
    };
    let anime_type: String = match &anime.anime_type {
        Some(t) => t.clone(),
        None => "Unknown".to_owned(),
    };
    let episodes: Vec<AniDBEpisodeData> = match &anime.episodes {
        Some(list) => {
            let elements = list.as_slice();
            assert(elements.deep_view() =~= list.deep_view());
            keep_regular_episodes(elements)
        },
        None => {
            let none: Vec<AniDBEpisodeData> = Vec::new();
            assert(none.deep_view() =~= Seq::empty());
            none
        },
    };
    AniDBSeriesData {
        id: anime.id,
        restricted,
        anime_type,
        episode_count: anime.episodecount,
        episodes,
        start_date: read_optional_date(&anime.startdate),
        end_date: read_optional_date(&anime.enddate),
        title_main,
        title_ja,
        title_en,
        description: clone_text(&anime.description),
        url: clone_text(&anime.url),
    }
}

/// The tag that opens an error envelope.
pub open spec fn error_tag() -> Seq<char> {
    "<error>"@
}

/// Whether a response holds an error envelope.
pub fn has_error_envelope(xml: &str) -> (found: bool)
    ensures
        found == contains_text(xml@, error_tag()),
{
    let text = chars_of(xml);
    let tag = chars_of("<error>");
    contains(text.as_slice(), tag.as_slice())
}

/// What a response amounts to, given the message of its error envelope
/// (where it reads as one) and its `anime` element (or why it does not read
/// as one): the error envelope comes first and fails with its message; a
/// document that does not read fails with the reason; otherwise the series.
pub open spec fn response_of(
    xml: Seq<char>,
    envelope: Option<Seq<char>>,
    anime: Result<AnimeXmlModel, Seq<char>>,
) -> Result<AniDBSeriesModel, FailureModel> {
    if contains_text(xml, error_tag()) && envelope is Some {
        Err(
            FailureModel {
                kind: ErrorKind::TransportFailure,
                cause: "AniDB API error: "@ + envelope->0,
            },
        )
    } else {
        match anime {
            Ok(a) => Ok(series_of_xml(a)),
            Err(reason) => Err(
                FailureModel {
                    kind: ErrorKind::ParseFailure,
                    cause: "Failed to parse AniDB XML: "@ + reason,
                },
            ),
        }
    }
}

/// The model of the reading of the `anime` element.
pub open spec fn reading_view(anime: Result<AnimeXml, String>) -> Result<AnimeXmlModel, Seq<char>> {
    match anime {
        Ok(a) => Ok(a.deep_view()),
        Err(reason) => Err(reason@),
    }
}

/// The model of the outcome of `parse_anidb_xml`.
pub open spec fn outcome_view(outcome: Result<AniDBSeriesData, Failure>) -> Result<
    AniDBSeriesModel,
    FailureModel,
> {
    match outcome {
        Ok(series) => Ok(series.deep_view()),
        Err(failure) => Err(failure.deep_view()),
    }
}

/// Turns an AniDB response into a series. `envelope` is the message of the
/// error envelope, where the document reads as one; `anime` is the `anime`
/// element read from the document, or the reason why it could not be read.
pub fn parse_anidb_xml(
    xml: &str,
    envelope: Option<String>,
    anime: Result<AnimeXml, String>,
) -> (outcome: Result<AniDBSeriesData, Failure>)
    ensures
        outcome_view(outcome) == response_of(xml@, envelope.deep_view(), reading_view(anime)),
{
    if has_error_envelope(xml) {
        match &envelope {
            Some(message) => {
                return Err(
                    Failure::with_detail(
                        ErrorKind::TransportFailure,
                        "AniDB API error: ",
                        message.as_str(),
                    ),
                );
            },
            None => {},
        }
    }
    match &anime {
        Ok(a) => Ok(series_from_xml(a)),
        Err(reason) => Err(
            Failure::with_detail(
                ErrorKind::ParseFailure,
                "Failed to parse AniDB XML: ",
                reason.as_str(),
            ),
        ),
    }
}

} // verus!
