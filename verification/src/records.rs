//! The rows that the storage layer keeps, as plain values: for each entity a
//! snapshot of a persisted row, the values of a row that is to be inserted,
//! and the fields that an update overwrites.

use crate::date::Date;
use crate::text::string_of;
use crate::types::{clone_text, StoredEpisodeType};
use vstd::prelude::*;

verus! {

/// The 128-bit identifier of a row. Zero is the nil identifier, which names
/// no row.
#[derive(Clone, Copy, Debug, PartialEq, Eq, Structural, Hash)]
pub struct RecordId {
    pub value: u128,
}

impl RecordId {
    /// The nil identifier.
    pub fn nil() -> (id: RecordId)
        ensures
            id.value == 0,
    {
        RecordId { value: 0 }
    }

    /// Whether this is the nil identifier.
    pub fn is_nil(&self) -> (nil: bool)
        ensures
            nil == (self.value == 0),
    {
        self.value == 0
    }

    /// Writes the identifier as a UUID: lower-case hexadecimal digits in
    /// groups of eight, four, four, four and twelve, with hyphens between.
    pub fn hyphenated(&self) -> (text: String)
        ensures
            text@ == id_text(self.value),
    {
        let digits: [char; 16] = [
            '0',
            '1',
            '2',
            '3',
            '4',
            '5',
            '6',
            '7',
            '8',
            '9',
            'a',
            'b',
            'c',
            'd',
            'e',
            'f',
        ];
        assert(digits@ =~= hex_digits());
        let value: u128 = self.value;
        let mut chars: Vec<char> = Vec::new();
        let mut at: usize = 0;
        let mut rank: u128 = 0;
        while at < ID_TEXT_LEN
            invariant
                at <= ID_TEXT_LEN,
                digits@ == hex_digits(),
                value == self.value,
                rank == digit_rank(at as int),
                chars@.len() == at,
                forall|i: int| 0 <= i < at ==> chars@[i] == id_char(value, i),
            decreases ID_TEXT_LEN - at,
        {
            if at == 8 || at == 13 || at == 18 || at == 23 {
                chars.push('-');
            } else {
                let shift: u128 = 4 * (31 - rank);
                let nibble: u128 = (value >> shift) & 0xf;
                assert(nibble < 16) by (bit_vector)
                    requires
                        nibble == (value >> shift) & 0xf,
                ;
                chars.push(digits[nibble as usize]);
                rank += 1;
            }
            at += 1;
        }
        assert(chars@ =~= id_text(self.value));
        string_of(chars.as_slice())
    }
}

/// The length of an identifier written as a UUID.
pub const ID_TEXT_LEN: usize = 36;

/// The hexadecimal digits, in lower case.
pub open spec fn hex_digits() -> Seq<char> {
    seq!['0', '1', '2', '3', '4', '5', '6', '7', '8', '9', 'a', 'b', 'c', 'd', 'e', 'f']
}

/// Whether a hyphen stands at position `at` of an identifier's text.
pub open spec fn is_hyphen_place(at: int) -> bool {
    at == 8 || at == 13 || at == 18 || at == 23
}

/// How many digits stand before position `at` of an identifier's text.
pub open spec fn digit_rank(at: int) -> int {
    if at <= 8 {
        at
    } else if at <= 13 {
        at - 1
    } else if at <= 18 {
        at - 2
    } else if at <= 23 {
        at - 3
    } else {
        at - 4
    }
}

/// The hexadecimal digit of `value` with `rank` digits before it, counted
/// from the most significant of its thirty-two.
pub open spec fn hex_digit(value: u128, rank: int) -> char {
    hex_digits()[((value >> ((4 * (31 - rank)) as u128)) & 0xf) as int]
}

/// The character at position `at` of an identifier's text.
pub open spec fn id_char(value: u128, at: int) -> char {
    if is_hyphen_place(at) {
        '-'
    } else {
        hex_digit(value, digit_rank(at))
    }
}

/// An identifier written as a UUID.
pub open spec fn id_text(value: u128) -> Seq<char> {
    Seq::new(ID_TEXT_LEN as nat, |at: int| id_char(value, at))
}

/// What identifies an episode among all episodes: its series and its number.
#[derive(Clone, Copy, Debug, PartialEq, Eq, Structural, Hash)]
pub struct EpisodeKey {
    pub show_id: RecordId,
    pub episode_num: i32,
}

/// A persisted episode row.
#[derive(Debug, Clone, PartialEq, Eq)]
pub struct PersistedEpisode {
    pub id: RecordId,
    pub show_id: RecordId,
    pub episode_num: i32,
    pub episode_type: StoredEpisodeType,
    pub title: Option<String>,
    pub anidb_id: Option<i32>,
    pub title_ja: Option<String>,
    pub airdate: Option<Date>,
    pub length: Option<i32>,
    pub summary: Option<String>,
    pub crunchyroll_id: Option<String>,
}

/// The model of a [`PersistedEpisode`].
pub ghost struct PersistedEpisodeModel {
    pub id: RecordId,
    pub show_id: RecordId,
    pub episode_num: i32,
    pub episode_type: StoredEpisodeType,
    pub title: Option<Seq<char>>,
    pub anidb_id: Option<i32>,
    pub title_ja: Option<Seq<char>>,
    pub airdate: Option<Date>,
    pub length: Option<i32>,
    pub summary: Option<Seq<char>>,
    pub crunchyroll_id: Option<Seq<char>>,
}

impl DeepView for PersistedEpisode {
    type V = PersistedEpisodeModel;

    open spec fn deep_view(&self) -> PersistedEpisodeModel {
        PersistedEpisodeModel {
            id: self.id,
            show_id: self.show_id,
            episode_num: self.episode_num,
            episode_type: self.episode_type,
            title: self.title.deep_view(),
            anidb_id: self.anidb_id,
            title_ja: self.title_ja.deep_view(),
            airdate: self.airdate,
            length: self.length,
            summary: self.summary.deep_view(),
            crunchyroll_id: self.crunchyroll_id.deep_view(),
        }
    }
}

impl PersistedEpisode {
    /// The key of this row.
    pub open spec fn key(&self) -> EpisodeKey {
        EpisodeKey { show_id: self.show_id, episode_num: self.episode_num }
    }
}

/// The values of an episode row that is to be inserted. The series and the
/// number may be left unset; such a row is refused before anything is
/// inserted.
#[derive(Debug, Clone, PartialEq, Eq)]
pub struct NewEpisode {
    pub show_id: Option<RecordId>,
    pub episode_num: Option<i32>,
    pub episode_type: StoredEpisodeType,
    pub title: Option<String>,
}

/// The model of a [`NewEpisode`].
pub ghost struct NewEpisodeModel {
    pub show_id: Option<RecordId>,
    pub episode_num: Option<i32>,
    pub episode_type: StoredEpisodeType,
    pub title: Option<Seq<char>>,
}

impl DeepView for NewEpisode {
    type V = NewEpisodeModel;

    open spec fn deep_view(&self) -> NewEpisodeModel {
        NewEpisodeModel {
            show_id: self.show_id,
            episode_num: self.episode_num,
            episode_type: self.episode_type,
            title: self.title.deep_view(),
        }
    }
}

/// The fields of an episode row that enrichment overwrites, and the row
/// that they are for. No other field of the row changes.
#[derive(Debug, Clone, PartialEq, Eq)]
pub struct EpisodeUpdate {
    pub id: RecordId,
    pub anidb_id: Option<i32>,
    pub title_ja: Option<String>,
    pub airdate: Option<Date>,
    pub length: Option<i32>,
    pub summary: Option<String>,
    pub crunchyroll_id: Option<String>,
}

/// The model of an [`EpisodeUpdate`].
pub ghost struct EpisodeUpdateModel {
    pub id: RecordId,
    pub anidb_id: Option<i32>,
    pub title_ja: Option<Seq<char>>,
    pub airdate: Option<Date>,
    pub length: Option<i32>,
    pub summary: Option<Seq<char>>,
    pub crunchyroll_id: Option<Seq<char>>,
}

impl DeepView for EpisodeUpdate {
    type V = EpisodeUpdateModel;

    open spec fn deep_view(&self) -> EpisodeUpdateModel {
        EpisodeUpdateModel {
            id: self.id,
            anidb_id: self.anidb_id,
            title_ja: self.title_ja.deep_view(),
            airdate: self.airdate,
            length: self.length,
            summary: self.summary.deep_view(),
            crunchyroll_id: self.crunchyroll_id.deep_view(),
        }
    }
}

/// The row after an update: the update's fields overwritten, every other
/// field as it was.
pub open spec fn updated_episode(
    row: PersistedEpisodeModel,
    update: EpisodeUpdateModel,
) -> PersistedEpisodeModel {
    PersistedEpisodeModel {
        anidb_id: update.anidb_id,
        title_ja: update.title_ja,
        airdate: update.airdate,
        length: update.length,
        summary: update.summary,
        crunchyroll_id: update.crunchyroll_id,
        ..row
    }
}

impl PersistedEpisode {
    /// The row as it stands after `update`.
    pub fn with_update(&self, update: &EpisodeUpdate) -> (row: PersistedEpisode)
        ensures
            row.deep_view() == updated_episode(self.deep_view(), update.deep_view()),
            row.id == self.id,
            row.key() == self.key(),
            row.episode_type == self.episode_type,
            row.title.deep_view() == self.title.deep_view(),
    {
        PersistedEpisode {
            id: self.id,
            show_id: self.show_id,
            episode_num: self.episode_num,
            episode_type: self.episode_type,
            title: clone_text(&self.title),
            anidb_id: update.anidb_id,
            title_ja: clone_text(&update.title_ja),
            airdate: update.airdate,
            length: update.length,
            summary: clone_text(&update.summary),
            crunchyroll_id: clone_text(&update.crunchyroll_id),
        }
    }
}

/// A persisted series row. The time of the last fetch belongs to the
/// storage layer and is not part of the snapshot.
#[derive(Debug, Clone, PartialEq, Eq)]
pub struct PersistedSeries {
    pub id: RecordId,
    pub slug: String,
    pub title: String,
    pub anidb_id: Option<i32>,
    pub anime_type: Option<String>,
    pub episode_count: Option<i32>,
    pub start_date: Option<Date>,
    pub end_date: Option<Date>,
    pub title_ja: Option<String>,
    pub description: Option<String>,
    pub official_url: Option<String>,
}

/// The model of a [`PersistedSeries`].
pub ghost struct PersistedSeriesModel {
    pub id: RecordId,
    pub slug: Seq<char>,
    pub title: Seq<char>,
    pub anidb_id: Option<i32>,
    pub anime_type: Option<Seq<char>>,
    pub episode_count: Option<i32>,
    pub start_date: Option<Date>,
    pub end_date: Option<Date>,
    pub title_ja: Option<Seq<char>>,
    pub description: Option<Seq<char>>,
    pub official_url: Option<Seq<char>>,
}

impl DeepView for PersistedSeries {
    type V = PersistedSeriesModel;

    open spec fn deep_view(&self) -> PersistedSeriesModel {
        PersistedSeriesModel {
            id: self.id,
            slug: self.slug@,
            title: self.title@,
            anidb_id: self.anidb_id,
            anime_type: self.anime_type.deep_view(),
            episode_count: self.episode_count,
            start_date: self.start_date,
            end_date: self.end_date,
            title_ja: self.title_ja.deep_view(),
            description: self.description.deep_view(),
            official_url: self.official_url.deep_view(),
        }
    }
}

/// The values of a series row that is to be inserted. The slug and the
/// title may be left unset; such a row is refused.
#[derive(Debug, Clone, PartialEq, Eq)]
pub struct NewSeries {
    pub slug: Option<String>,
    pub title: Option<String>,
    pub anidb_id: Option<i32>,
}

/// The model of a [`NewSeries`].
pub ghost struct NewSeriesModel {
    pub slug: Option<Seq<char>>,
    pub title: Option<Seq<char>>,
    pub anidb_id: Option<i32>,
}

impl DeepView for NewSeries {
    type V = NewSeriesModel;

    open spec fn deep_view(&self) -> NewSeriesModel {
        NewSeriesModel {
            slug: self.slug.deep_view(),
            title: self.title.deep_view(),
            anidb_id: self.anidb_id,
        }
    }
}

/// The fields of a series row that enrichment overwrites.
#[derive(Debug, Clone, PartialEq, Eq)]
pub struct SeriesUpdate {
    pub anidb_id: Option<i32>,
    pub anime_type: Option<String>,
    pub episode_count: Option<i32>,
    pub start_date: Option<Date>,
    pub end_date: Option<Date>,
    pub title_ja: Option<String>,
    pub description: Option<String>,
    pub official_url: Option<String>,
}

/// The model of a [`SeriesUpdate`].
pub ghost struct SeriesUpdateModel {
    pub anidb_id: Option<i32>,
    pub anime_type: Option<Seq<char>>,
    pub episode_count: Option<i32>,
    pub start_date: Option<Date>,
    pub end_date: Option<Date>,
    pub title_ja: Option<Seq<char>>,
    pub description: Option<Seq<char>>,
    pub official_url: Option<Seq<char>>,
}

impl DeepView for SeriesUpdate {
    type V = SeriesUpdateModel;

    open spec fn deep_view(&self) -> SeriesUpdateModel {
        SeriesUpdateModel {
            anidb_id: self.anidb_id,
            anime_type: self.anime_type.deep_view(),
            episode_count: self.episode_count,
            start_date: self.start_date,
            end_date: self.end_date,
            title_ja: self.title_ja.deep_view(),
            description: self.description.deep_view(),
            official_url: self.official_url.deep_view(),
        }
    }
}

} // verus!
