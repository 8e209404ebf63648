//! What the storage layer checks before it touches the database: each
//! operation refuses its input here, or goes on.

use crate::records::{
    EpisodeKey, NewEpisode, NewSeries, NewSeriesModel, PersistedSeries, PersistedSeriesModel,
    RecordId,
};
use crate::text::{is_blank, is_blank_text};
use vstd::prelude::*;

verus! {

/// Why the storage layer refuses an input.
#[derive(Clone, Copy, Debug, PartialEq, Eq, Structural, Hash)]
pub enum StoreError {
    /// The identifier of the row is not set.
    IdUnset,
    /// The identifier of the row is nil.
    IdNil,
    /// The series of an episode is not set.
    ShowIdUnset,
    /// The series of an episode is nil.
    ShowIdNil,
    /// The number of an episode is not set.
    EpisodeNumUnset,
    /// The number of an episode is zero or negative.
    EpisodeNumNotPositive { got: i32 },
    /// The slug is not set.
    SlugUnset,
    /// The slug is empty or blank.
    SlugEmpty,
    /// The title is not set.
    TitleUnset,
    /// The title is empty or blank.
    TitleEmpty,
}

/// The model of a check.
pub open spec fn refused_if(refused: bool, error: StoreError) -> Result<(), StoreError> {
    if refused {
        Err(error)
    } else {
        Ok(())
    }
}

/// A row is looked up, touched or deleted by an identifier that is not nil.
pub fn check_id(id: RecordId) -> (checked: Result<(), StoreError>)
    ensures
        checked == refused_if(id.value == 0, StoreError::IdNil),
{
    if id.is_nil() {
        Err(StoreError::IdNil)
    } else {
        Ok(())
    }
}

/// The episodes of a series are looked up, counted or deleted by a series
/// identifier that is not nil.
pub fn check_show_id(show_id: RecordId) -> (checked: Result<(), StoreError>)
    ensures
        checked == refused_if(show_id.value == 0, StoreError::ShowIdNil),
{
    if show_id.is_nil() {
        Err(StoreError::ShowIdNil)
    } else {
        Ok(())
    }
}

/// A series is looked up by a slug that is not blank.
pub fn check_slug(slug: &str) -> (checked: Result<(), StoreError>)
    ensures
        checked == refused_if(is_blank(slug@), StoreError::SlugEmpty),
{
    if is_blank_text(slug) {
        Err(StoreError::SlugEmpty)
    } else {
        Ok(())
    }
}

/// What is wrong with the key of an episode: the series is looked at
/// before the number.
pub open spec fn key_error(show_id: RecordId, episode_num: i32) -> Option<StoreError> {
    if show_id.value == 0 {
        Some(StoreError::ShowIdNil)
    } else if episode_num <= 0 {
        Some(StoreError::EpisodeNumNotPositive { got: episode_num })
    } else {
        None
    }
}

/// An episode is looked up by a series that is not nil and a number that is
/// positive.
pub fn check_episode_key(show_id: RecordId, episode_num: i32) -> (checked: Result<
    EpisodeKey,
    StoreError,
>)
    ensures
        match checked {
            Ok(key) => key_error(show_id, episode_num) is None && key == (EpisodeKey {
                show_id,
                episode_num,
            }),
            Err(error) => key_error(show_id, episode_num) == Some(error),
        },
{
    if show_id.is_nil() {
        Err(StoreError::ShowIdNil)
    } else if episode_num <= 0 {
        Err(StoreError::EpisodeNumNotPositive { got: episode_num })
    } else {
        Ok(EpisodeKey { show_id, episode_num })
    }
}

/// What is wrong with an episode that is to be inserted: its series and its
/// number have to be set, and to make a key.
pub open spec fn new_episode_error(show_id: Option<RecordId>, episode_num: Option<i32>) -> Option<
    StoreError,
> {
    match show_id {
        None => Some(StoreError::ShowIdUnset),
        Some(show) => match episode_num {
            None => Some(StoreError::EpisodeNumUnset),
            Some(number) => key_error(show, number),
        },
    }
}

/// Checks an episode that is to be inserted, and gives the key under which
/// an episode that is already there is looked for.
pub fn check_new_episode(episode: &NewEpisode) -> (checked: Result<EpisodeKey, StoreError>)
    ensures
        match checked {
            Ok(key) => new_episode_error(episode.show_id, episode.episode_num) is None && key == (
            EpisodeKey { show_id: episode.show_id->0, episode_num: episode.episode_num->0 }),
            Err(error) => new_episode_error(episode.show_id, episode.episode_num) == Some(error),
        },
{
    match episode.show_id {
        None => Err(StoreError::ShowIdUnset),
        Some(show_id) => match episode.episode_num {
            None => Err(StoreError::EpisodeNumUnset),
            Some(episode_num) => check_episode_key(show_id, episode_num),
        },
    }
}

/// The fields that an update of an episode row may set, as far as they are
/// checked.
#[derive(Clone, Copy, Debug, PartialEq, Eq, Structural)]
pub struct EpisodeChange {
    pub id: Option<RecordId>,
    pub show_id: Option<RecordId>,
    pub episode_num: Option<i32>,
}

/// What is wrong with an update of an episode row: the identifier has to be
/// set and not nil; a series that is set must not be nil; a number that is
/// set must be positive.
pub open spec fn episode_change_error(change: EpisodeChange) -> Option<StoreError> {
    match change.id {
        None => Some(StoreError::IdUnset),
        Some(id) => if id.value == 0 {
            Some(StoreError::IdNil)
        } else if change.show_id is Some && change.show_id->0.value == 0 {
            Some(StoreError::ShowIdNil)
        } else if change.episode_num is Some && change.episode_num->0 <= 0 {
            Some(StoreError::EpisodeNumNotPositive { got: change.episode_num->0 })
        } else {
            None
        },
    }
}

/// Checks an update of an episode row.
pub fn check_episode_change(change: &EpisodeChange) -> (checked: Result<(), StoreError>)
    ensures
        match checked {
            Ok(_) => episode_change_error(*change) is None,
            Err(error) => episode_change_error(*change) == Some(error),
        },
{
    let id = match change.id {
        None => {
            return Err(StoreError::IdUnset);
        },
        Some(id) => id,
    };
    if id.is_nil() {
        return Err(StoreError::IdNil);
    }
    match change.show_id {
        Some(show) => {
            if show.is_nil() {
                return Err(StoreError::ShowIdNil);
            }
        },
        None => {},
    }
    match change.episode_num {
        Some(number) => {
            if number <= 0 {
                return Err(StoreError::EpisodeNumNotPositive { got: number });
            }
        },
        None => {},
    }
    Ok(())
}

/// What is wrong with a series that is to be inserted: the slug is looked
/// at before the title; each has to be set and not blank.
pub open spec fn new_series_error(series: NewSeriesModel) -> Option<StoreError> {
    match series.slug {
        None => Some(StoreError::SlugUnset),
        Some(slug) => if is_blank(slug) {
            Some(StoreError::SlugEmpty)
        } else {
            match series.title {
                None => Some(StoreError::TitleUnset),
                Some(title) => if is_blank(title) {
                    Some(StoreError::TitleEmpty)
                } else {
                    None
                },
            }
        },
    }
}

/// Checks a series that is to be inserted.
pub fn check_new_series(series: &NewSeries) -> (checked: Result<(), StoreError>)
    ensures
        match checked {
            Ok(_) => new_series_error(series.deep_view()) is None,
            Err(error) => new_series_error(series.deep_view()) == Some(error),
        },
{
    match &series.slug {
        None => Err(StoreError::SlugUnset),
        Some(slug) => {
            if is_blank_text(slug.as_str()) {
                return Err(StoreError::SlugEmpty);
            }
            match &series.title {
                None => Err(StoreError::TitleUnset),
                Some(title) => {
                    if is_blank_text(title.as_str()) {
                        Err(StoreError::TitleEmpty)
                    } else {
                        Ok(())
                    }
                },
            }
        },
    }
}

/// What is wrong with an update of a series row: the identifier has to be
/// set and not nil; a slug or a title that is set must not be blank.
pub open spec fn series_change_error(
    id: Option<RecordId>,
    slug: Option<Seq<char>>,
    title: Option<Seq<char>>,
) -> Option<StoreError> {
    match id {
        None => Some(StoreError::IdUnset),
        Some(id) => if id.value == 0 {
            Some(StoreError::IdNil)
        } else if slug is Some && is_blank(slug->0) {
            Some(StoreError::SlugEmpty)
        } else if title is Some && is_blank(title->0) {
            Some(StoreError::TitleEmpty)
        } else {
            None
        },
    }
}

/// Checks an update of a series row.
pub fn check_series_change(id: Option<RecordId>, slug: Option<&str>, title: Option<&str>) -> (checked:
    Result<(), StoreError>)
    ensures
        match checked {
            Ok(_) => series_change_error(
                id,
                crate::types::text_view(slug),
                crate::types::text_view(title),
            ) is None,
            Err(error) => series_change_error(
                id,
                crate::types::text_view(slug),
                crate::types::text_view(title),
            ) == Some(error),
        },
{
    let id = match id {
        None => {
            return Err(StoreError::IdUnset);
        },
        Some(id) => id,
    };
    if id.is_nil() {
        return Err(StoreError::IdNil);
    }
    match slug {
        Some(s) => {
            if is_blank_text(s) {
                return Err(StoreError::SlugEmpty);
            }
        },
        None => {},
    }
    match title {
        Some(t) => {
            if is_blank_text(t) {
                return Err(StoreError::TitleEmpty);
            }
        },
        None => {},
    }
    Ok(())
}

/// What is wrong with the slug and the title under which a series is found
/// or created.
pub open spec fn find_or_create_error(slug: Seq<char>, title: Seq<char>) -> Option<StoreError> {
    if is_blank(slug) {
        Some(StoreError::SlugEmpty)
    } else if is_blank(title) {
        Some(StoreError::TitleEmpty)
    } else {
        None
    }
}

/// Checks the slug and the title under which a series is found or created,
/// and gives the row to insert where no series has the slug yet.
pub fn check_find_or_create(slug: &str, title: &str, anidb_id: Option<i32>) -> (checked: Result<
    NewSeries,
    StoreError,
>)
    ensures
        match checked {
            Ok(series) => find_or_create_error(slug@, title@) is None && series.deep_view() == (
            NewSeriesModel { slug: Some(slug@), title: Some(title@), anidb_id }),
            Err(error) => find_or_create_error(slug@, title@) == Some(error),
        },
{
    if is_blank_text(slug) {
        Err(StoreError::SlugEmpty)
    } else if is_blank_text(title) {
        Err(StoreError::TitleEmpty)
    } else {
        Ok(NewSeries { slug: Some(slug.to_owned()), title: Some(title.to_owned()), anidb_id })
    }
}

/// What finding or creating a series comes to, once the storage has looked
/// the slug up.
#[derive(Debug, Clone, PartialEq, Eq)]
pub enum SeriesChoice {
    /// A series has the slug: it is handed back as it is, and nothing is
    /// written.
    Existing(PersistedSeries),
    /// No series has the slug: this row is to be inserted.
    Insert(NewSeries),
}

/// The model of a [`SeriesChoice`].
pub ghost enum SeriesChoiceModel {
    Existing(PersistedSeriesModel),
    Insert(NewSeriesModel),
}

impl DeepView for SeriesChoice {
    type V = SeriesChoiceModel;

    open spec fn deep_view(&self) -> SeriesChoiceModel {
        match self {
            SeriesChoice::Existing(series) => SeriesChoiceModel::Existing(series.deep_view()),
            SeriesChoice::Insert(row) => SeriesChoiceModel::Insert(row.deep_view()),
        }
    }
}

/// The series that is found wins over the row that would be inserted.
pub open spec fn found_or_new(found: Option<PersistedSeriesModel>, row: NewSeriesModel) -> SeriesChoiceModel {
    match found {
        Some(series) => SeriesChoiceModel::Existing(series),
        None => SeriesChoiceModel::Insert(row),
    }
}

/// Decides between the series that the lookup of a slug found and the row
/// that `check_find_or_create` made: an existing series is handed back
/// unchanged, whatever the row holds.
pub fn find_or_create(found: Option<PersistedSeries>, row: NewSeries) -> (choice: SeriesChoice)
    ensures
        choice.deep_view() == found_or_new(found.deep_view(), row.deep_view()),
        found matches Some(series) ==> choice == SeriesChoice::Existing(series),
        found is None ==> choice == SeriesChoice::Insert(row),
{
    match found {
        Some(series) => SeriesChoice::Existing(series),
        None => SeriesChoice::Insert(row),
    }
}

/// A row that passes the check of `check_find_or_create` passes the check
/// of an insertion too.
pub proof fn lemma_found_or_created_is_insertable(slug: Seq<char>, title: Seq<char>, anidb_id: Option<i32>)
    requires
        find_or_create_error(slug, title) is None,
    ensures
        new_series_error(NewSeriesModel { slug: Some(slug), title: Some(title), anidb_id }) is None,
{
}

} // verus!
