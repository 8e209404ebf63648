//! The records that pass between the stages: episodes and series as the
//! episode-list page gives them, and as AniDB gives them.

use crate::date::Date;
use vstd::prelude::*;

verus! {

/// How an episode relates to the source material.
#[derive(Clone, Copy, Debug, PartialEq, Eq, Structural, Hash)]
pub enum EpisodeType {
    Canon,
    Filler,
    Mixed,
    AnimeCanon,
}

impl DeepView for EpisodeType {
    type V = EpisodeType;

    open spec fn deep_view(&self) -> EpisodeType {
        *self
    }
}

/// The episode kinds as the storage layer names them.
#[derive(Clone, Copy, Debug, PartialEq, Eq, Structural, Hash)]
pub enum StoredEpisodeType {
    Canon,
    MixedCanon,
    Filler,
    AnimeCanon,
}

impl DeepView for StoredEpisodeType {
    type V = StoredEpisodeType;

    open spec fn deep_view(&self) -> StoredEpisodeType {
        *self
    }
}

impl EpisodeType {
    /// The storage layer's name for this kind.
    pub open spec fn stored(self) -> StoredEpisodeType {
        match self {
            EpisodeType::Canon => StoredEpisodeType::Canon,
            EpisodeType::Filler => StoredEpisodeType::Filler,
            EpisodeType::Mixed => StoredEpisodeType::MixedCanon,
            EpisodeType::AnimeCanon => StoredEpisodeType::AnimeCanon,
        }
    }
}

impl From<EpisodeType> for StoredEpisodeType {
    fn from(ep_type: EpisodeType) -> (stored: StoredEpisodeType) {
        match ep_type {
            EpisodeType::Canon => StoredEpisodeType::Canon,
            EpisodeType::Filler => StoredEpisodeType::Filler,
            EpisodeType::Mixed => StoredEpisodeType::MixedCanon,
            EpisodeType::AnimeCanon => StoredEpisodeType::AnimeCanon,
        }
    }
}

impl vstd::std_specs::convert::FromSpecImpl<EpisodeType> for StoredEpisodeType {
    open spec fn obeys_from_spec() -> bool {
        true
    }

    open spec fn from_spec(ep_type: EpisodeType) -> StoredEpisodeType {
        ep_type.stored()
    }
}

/// The model of an optional text.
pub open spec fn text_view(text: Option<&str>) -> Option<Seq<char>> {
    match text {
        Some(t) => Some(t@),
        None => None,
    }
}

/// An owned copy of an optional text.
pub fn owned_text(text: Option<&str>) -> (owned: Option<String>)
    ensures
        owned.deep_view() == text_view(text),
{
    match text {
        Some(t) => Some(t.to_owned()),
        None => None,
    }
}

/// A copy of an optional text.
pub fn clone_text(text: &Option<String>) -> (copy: Option<String>)
    ensures
        copy.deep_view() == text.deep_view(),
        copy == *text,
{
    match text {
        Some(t) => Some(t.clone()),
        None => None,
    }
}

/// One episode of a series, as the episode-list page gives it.
#[derive(Debug, Clone, PartialEq, Eq, Hash)]
pub struct EpisodeData {
    pub ep_number: i32,
    pub absolute_episode_number: i32,
    pub jap_release: Option<Date>,
    pub eng_release: Date,
    pub episode_type: EpisodeType,
    pub eng_title: String,
    pub jap_title: Option<String>,
    pub duration: Option<i32>,
    pub manga_chapters: Option<Vec<i32>>,
}

/// The model of an [`EpisodeData`].
pub ghost struct EpisodeModel {
    pub ep_number: i32,
    pub absolute_episode_number: i32,
    pub jap_release: Option<Date>,
    pub eng_release: Date,
    pub episode_type: EpisodeType,
    pub eng_title: Seq<char>,
    pub jap_title: Option<Seq<char>>,
    pub duration: Option<i32>,
    pub manga_chapters: Option<Seq<i32>>,
}

impl DeepView for EpisodeData {
    type V = EpisodeModel;

    open spec fn deep_view(&self) -> EpisodeModel {
        EpisodeModel {
            ep_number: self.ep_number,
            absolute_episode_number: self.absolute_episode_number,
            jap_release: self.jap_release,
            eng_release: self.eng_release,
            episode_type: self.episode_type,
            eng_title: self.eng_title@,
            jap_title: self.jap_title.deep_view(),
            duration: self.duration,
            manga_chapters: match self.manga_chapters {
                Some(chapters) => Some(chapters@),
                None => None,
            },
        }
    }
}

impl EpisodeData {
    pub fn new(
        ep_number: i32,
        absolute_episode_number: i32,
        jap_release: Option<Date>,
        eng_release: Date,
        episode_type: EpisodeType,
        eng_title: &str,
        jap_title: Option<&str>,
        duration: Option<i32>,
        manga_chapters: Option<&[i32]>,
    ) -> (episode: Self)
        ensures
            episode.deep_view() == (EpisodeModel {
                ep_number,
                absolute_episode_number,
                jap_release,
                eng_release,
                episode_type,
                eng_title: eng_title@,
                jap_title: text_view(jap_title),
                duration,
                manga_chapters: match manga_chapters {
                    Some(chapters) => Some(chapters@),
                    None => None,
                },
            }),
    {
        EpisodeData {
            ep_number,
            absolute_episode_number,
            jap_release,
            eng_release,
            episode_type,
            eng_title: eng_title.to_owned(),
            jap_title: owned_text(jap_title),
            duration,
            manga_chapters: match manga_chapters {
                Some(chapters) => Some(vstd::slice::slice_to_vec(chapters)),
                None => None,
            },
        }
    }

    /// A copy of this episode.
    pub fn duplicate(&self) -> (copy: Self)
        ensures
            copy.deep_view() == self.deep_view(),
    {
        EpisodeData {
            ep_number: self.ep_number,
            absolute_episode_number: self.absolute_episode_number,
            jap_release: self.jap_release,
            eng_release: self.eng_release,
            episode_type: self.episode_type,
            eng_title: self.eng_title.clone(),
            jap_title: clone_text(&self.jap_title),
            duration: self.duration,
            manga_chapters: match &self.manga_chapters {
                Some(chapters) => Some(vstd::slice::slice_to_vec(chapters.as_slice())),
                None => None,
            },
        }
    }
}

/// Copies a list of episodes.
pub fn duplicate_episodes(episodes: &[EpisodeData]) -> (copy: Vec<EpisodeData>)
    ensures
        copy.deep_view() == episodes.deep_view(),
{
    let mut copy: Vec<EpisodeData> = Vec::new();
    let mut i: usize = 0;
    while i < episodes.len()
        invariant
            i <= episodes@.len(),
            copy@.len() == i,
            forall|j: int| 0 <= j < i ==> copy@[j].deep_view() == episodes@[j].deep_view(),
        decreases episodes@.len() - i,
    {
        copy.push(episodes[i].duplicate());
        i += 1;
    }
    assert(copy.deep_view() =~= episodes.deep_view());
    copy
}

/// A series with its episodes, as the episode-list page gives it.
#[derive(Debug, Clone, PartialEq, Eq, Hash)]
pub struct SeriesData {
    pub slug: String,
    pub title: String,
    pub episodes: Vec<EpisodeData>,
}

/// The model of a [`SeriesData`].
pub ghost struct SeriesModel {
    pub slug: Seq<char>,
    pub title: Seq<char>,
    pub episodes: Seq<EpisodeModel>,
}

impl DeepView for SeriesData {
    type V = SeriesModel;

    open spec fn deep_view(&self) -> SeriesModel {
        SeriesModel {
            slug: self.slug@,
            title: self.title@,
            episodes: self.episodes.deep_view(),
        }
    }
}

impl SeriesData {
    pub fn new(slug: &str, title: &str, episodes: &[EpisodeData]) -> (series: Self)
        ensures
            series.deep_view() == (SeriesModel {
                slug: slug@,
                title: title@,
                episodes: episodes.deep_view(),
            }),
    {
        SeriesData {
            slug: slug.to_owned(),
            title: title.to_owned(),
            episodes: duplicate_episodes(episodes),
        }
    }
}

/// One regular episode as AniDB describes it. `rating` is in hundredths of a
/// point.
#[derive(Clone, Debug, PartialEq, Eq)]
pub struct AniDBEpisodeData {
    pub id: i32,
    pub update_date: Date,
    pub epno: i32,
    pub epno_type: i32,
    pub length: Option<i32>,
    pub airdate: Option<Date>,
    pub rating: Option<u32>,
    pub votes: Option<i32>,
    pub title_ja: Option<String>,
    pub title_en: Option<String>,
    pub summary: Option<String>,
    pub crunchyroll_id: Option<String>,
}

/// The model of an [`AniDBEpisodeData`].
pub ghost struct AniDBEpisodeModel {
    pub id: i32,
    pub update_date: Date,
    pub epno: i32,
    pub epno_type: i32,
    pub length: Option<i32>,
    pub airdate: Option<Date>,
    pub rating: Option<u32>,
    pub votes: Option<i32>,
    pub title_ja: Option<Seq<char>>,
    pub title_en: Option<Seq<char>>,
    pub summary: Option<Seq<char>>,
    pub crunchyroll_id: Option<Seq<char>>,
}

impl DeepView for AniDBEpisodeData {
    type V = AniDBEpisodeModel;

    open spec fn deep_view(&self) -> AniDBEpisodeModel {
        AniDBEpisodeModel {
            id: self.id,
            update_date: self.update_date,
            epno: self.epno,
            epno_type: self.epno_type,
            length: self.length,
            airdate: self.airdate,
            rating: self.rating,
            votes: self.votes,
            title_ja: self.title_ja.deep_view(),
            title_en: self.title_en.deep_view(),
            summary: self.summary.deep_view(),
            crunchyroll_id: self.crunchyroll_id.deep_view(),
        }
    }
}

impl AniDBEpisodeData {
    pub fn new(
        id: i32,
        update_date: Date,
        epno: i32,
        epno_type: i32,
        length: Option<i32>,
        airdate: Option<Date>,
        rating: Option<u32>,
        votes: Option<i32>,
        title_ja: Option<&str>,
        title_en: Option<&str>,
        summary: Option<&str>,
        crunchyroll_id: Option<&str>,
    ) -> (episode: Self)
        ensures
            episode.deep_view() == (AniDBEpisodeModel {
                id,
                update_date,
                epno,
                epno_type,
                length,
                airdate,
                rating,
                votes,
                title_ja: text_view(title_ja),
                title_en: text_view(title_en),
                summary: text_view(summary),
                crunchyroll_id: text_view(crunchyroll_id),
            }),
    {
        AniDBEpisodeData {
            id,
            update_date,
            epno,
            epno_type,
            length,
            airdate,
            rating,
            votes,
            title_ja: owned_text(title_ja),
            title_en: owned_text(title_en),
            summary: owned_text(summary),
            crunchyroll_id: owned_text(crunchyroll_id),
        }
    }

    /// A copy of this episode.
    pub fn duplicate(&self) -> (copy: Self)
        ensures
            copy.deep_view() == self.deep_view(),
    {
        AniDBEpisodeData {
            id: self.id,
            update_date: self.update_date,
            epno: self.epno,
            epno_type: self.epno_type,
            length: self.length,
            airdate: self.airdate,
            rating: self.rating,
            votes: self.votes,
            title_ja: clone_text(&self.title_ja),
            title_en: clone_text(&self.title_en),
            summary: clone_text(&self.summary),
            crunchyroll_id: clone_text(&self.crunchyroll_id),
        }
    }
}

/// Copies a list of AniDB episodes.
pub fn duplicate_anidb_episodes(episodes: &[AniDBEpisodeData]) -> (copy: Vec<AniDBEpisodeData>)
    ensures
        copy.deep_view() == episodes.deep_view(),
{
    let mut copy: Vec<AniDBEpisodeData> = Vec::new();
    let mut i: usize = 0;
    while i < episodes.len()
        invariant
            i <= episodes@.len(),
            copy@.len() == i,
            forall|j: int| 0 <= j < i ==> copy@[j].deep_view() == episodes@[j].deep_view(),
        decreases episodes@.len() - i,
    {
        copy.push(episodes[i].duplicate());
        i += 1;
    }
    assert(copy.deep_view() =~= episodes.deep_view());
    copy
}

/// A series as AniDB describes it, with its regular episodes.
#[derive(Clone, Debug, PartialEq, Eq)]
pub struct AniDBSeriesData {
    pub id: i32,
    pub restricted: bool,
    pub anime_type: String,
    pub episode_count: Option<i32>,
    pub episodes: Vec<AniDBEpisodeData>,
    pub start_date: Option<Date>,
    pub end_date: Option<Date>,
    pub title_main: String,
    pub title_ja: Option<String>,
    pub title_en: Option<String>,
    pub description: Option<String>,
    pub url: Option<String>,
}

/// The model of an [`AniDBSeriesData`].
pub ghost struct AniDBSeriesModel {
    pub id: i32,
    pub restricted: bool,
    pub anime_type: Seq<char>,
    pub episode_count: Option<i32>,
    pub episodes: Seq<AniDBEpisodeModel>,
    pub start_date: Option<Date>,
    pub end_date: Option<Date>,
    pub title_main: Seq<char>,
    pub title_ja: Option<Seq<char>>,
    pub title_en: Option<Seq<char>>,
    pub description: Option<Seq<char>>,
    pub url: Option<Seq<char>>,
}

impl DeepView for AniDBSeriesData {
    type V = AniDBSeriesModel;

    open spec fn deep_view(&self) -> AniDBSeriesModel {
        AniDBSeriesModel {
            id: self.id,
            restricted: self.restricted,
            anime_type: self.anime_type@,
            episode_count: self.episode_count,
            episodes: self.episodes.deep_view(),
            start_date: self.start_date,
            end_date: self.end_date,
            title_main: self.title_main@,
            title_ja: self.title_ja.deep_view(),
            title_en: self.title_en.deep_view(),
            description: self.description.deep_view(),
            url: self.url.deep_view(),
        }
    }
}

impl AniDBSeriesData {
    pub fn new(
        id: i32,
        restricted: bool,
        anime_type: &str,
        episode_count: Option<i32>,
        episodes: &[AniDBEpisodeData],
        start_date: Option<Date>,
        end_date: Option<Date>,
        title_main: &str,
        title_ja: Option<&str>,
        title_en: Option<&str>,
        description: Option<&str>,
        url: Option<&str>,
    ) -> (series: Self)
        ensures
            series.deep_view() == (AniDBSeriesModel {
                id,
                restricted,
                anime_type: anime_type@,
                episode_count,
                episodes: episodes.deep_view(),
                start_date,
                end_date,
                title_main: title_main@,
                title_ja: text_view(title_ja),
                title_en: text_view(title_en),
                description: text_view(description),
                url: text_view(url),
            }),
    {
        AniDBSeriesData {
            id,
            restricted,
            anime_type: anime_type.to_owned(),
            episode_count,
            episodes: duplicate_anidb_episodes(episodes),
            start_date,
            end_date,
            title_main: title_main.to_owned(),
            title_ja: owned_text(title_ja),
            title_en: owned_text(title_en),
            description: owned_text(description),
            url: owned_text(url),
        }
    }
}

/// One line of the AniDB title dump.
#[derive(Clone, Debug, PartialEq, Eq)]
pub struct AniDBDump {
    pub id: i32,
    pub series_type: i32,
    pub lang: String,
    pub title: String,
    pub hash: Option<String>,
}

/// The model of an [`AniDBDump`].
pub ghost struct AniDBDumpModel {
    pub id: i32,
    pub series_type: i32,
    pub lang: Seq<char>,
    pub title: Seq<char>,
    pub hash: Option<Seq<char>>,
}

impl DeepView for AniDBDump {
    type V = AniDBDumpModel;

    open spec fn deep_view(&self) -> AniDBDumpModel {
        AniDBDumpModel {
            id: self.id,
            series_type: self.series_type,
            lang: self.lang@,
            title: self.title@,
            hash: self.hash.deep_view(),
        }
    }
}

impl AniDBDump {
    pub fn new(id: i32, series_type: i32, lang: &str, title: &str, hash: &str) -> (entry: Self)
        ensures
            entry.deep_view() == (AniDBDumpModel {
                id,
                series_type,
                lang: lang@,
                title: title@,
                hash: Some(hash@),
            }),
    {
        AniDBDump {
            id,
            series_type,
            lang: lang.to_owned(),
            title: title.to_owned(),
            hash: Some(hash.to_owned()),
        }
    }
}

} // verus!
