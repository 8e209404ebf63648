//! Enrichment: AniDB's metadata joined onto persisted rows. Episodes are
//! joined by episode number; the merge is one way and overwrites only the
//! fields that come from AniDB.

use crate::records::{
    EpisodeUpdate, EpisodeUpdateModel, PersistedEpisode, PersistedEpisodeModel, SeriesUpdate,
    SeriesUpdateModel,
};
use crate::types::{
    clone_text, AniDBEpisodeData, AniDBEpisodeModel, AniDBSeriesData, AniDBSeriesModel,
};
use std::collections::HashMap;
use vstd::prelude::*;

verus! {

broadcast use vstd::std_specs::hash::group_hash_axioms;

/// The position of the last of the first `upto` AniDB episodes that bears
/// the number. Where a number occurs twice, the later episode counts.
pub open spec fn last_with_number(anidb: Seq<AniDBEpisodeModel>, number: i32, upto: int) -> Option<
    int,
>
    decreases upto,
{
    if upto <= 0 {
        None
    } else if anidb[upto - 1].epno == number {
        Some(upto - 1)
    } else {
        last_with_number(anidb, number, upto - 1)
    }
}

/// `last_with_number` gives a position below `upto` that bears the number
/// and after which none below `upto` bears it; it gives none only where no
/// position below `upto` bears the number.
pub proof fn lemma_last_with_number(anidb: Seq<AniDBEpisodeModel>, number: i32, upto: int)
    requires
        0 <= upto <= anidb.len(),
    ensures
        match last_with_number(anidb, number, upto) {
            Some(i) => 0 <= i < upto && anidb[i].epno == number && forall|j: int|
                i < j < upto ==> anidb[j].epno != number,
            None => forall|j: int| 0 <= j < upto ==> anidb[j].epno != number,
        },
    decreases upto,
{
    if upto > 0 && anidb[upto - 1].epno != number {
        lemma_last_with_number(anidb, number, upto - 1);
    }
}

/// The update that an AniDB episode gives to a persisted row: all six
/// fields that come from AniDB, and nothing else.
pub open spec fn update_from(
    row: PersistedEpisodeModel,
    source: AniDBEpisodeModel,
) -> EpisodeUpdateModel {
    EpisodeUpdateModel {
        id: row.id,
        anidb_id: Some(source.id),
        title_ja: source.title_ja,
        airdate: source.airdate,
        length: source.length,
        summary: source.summary,
        crunchyroll_id: source.crunchyroll_id,
    }
}

/// The update for a persisted row, where an AniDB episode bears its number.
pub open spec fn update_for(
    row: PersistedEpisodeModel,
    anidb: Seq<AniDBEpisodeModel>,
) -> Option<EpisodeUpdateModel> {
    match last_with_number(anidb, row.episode_num, anidb.len() as int) {
        Some(i) => Some(update_from(row, anidb[i])),
        None => None,
    }
}

/// The updates for the first `upto` persisted rows, in the order of the
/// rows: one for each row that has a counterpart.
pub open spec fn updates_upto(
    persisted: Seq<PersistedEpisodeModel>,
    anidb: Seq<AniDBEpisodeModel>,
    upto: int,
) -> Seq<EpisodeUpdateModel>
    decreases upto,
{
    if upto <= 0 {
        Seq::empty()
    } else {
        let before = updates_upto(persisted, anidb, upto - 1);
        match update_for(persisted[upto - 1], anidb) {
            Some(update) => before.push(update),
            None => before,
        }
    }
}

/// The updates for all persisted rows.
pub open spec fn updates_of(
    persisted: Seq<PersistedEpisodeModel>,
    anidb: Seq<AniDBEpisodeModel>,
) -> Seq<EpisodeUpdateModel> {
    updates_upto(persisted, anidb, persisted.len() as int)
}

/// Each of the first `upto` rows is either updated or unmatched.
pub proof fn lemma_updates_len(
    persisted: Seq<PersistedEpisodeModel>,
    anidb: Seq<AniDBEpisodeModel>,
    upto: int,
)
    requires
        0 <= upto <= persisted.len(),
    ensures
        updates_upto(persisted, anidb, upto).len() <= upto,
    decreases upto,
{
    if upto > 0 {
        lemma_updates_len(persisted, anidb, upto - 1);
    }
}

/// What enrichment does to the episodes of a series.
#[derive(Debug, Clone, PartialEq, Eq)]
pub struct EnrichmentPlan {
    /// The updates to apply, in the order of the persisted rows.
    pub updates: Vec<EpisodeUpdate>,
    /// How many rows are updated.
    pub updated: u64,
    /// How many rows have no counterpart and stay as they are.
    pub unmatched: u64,
}

/// Builds the update that an AniDB episode gives to a persisted row.
pub fn make_update(row: &PersistedEpisode, source: &AniDBEpisodeData) -> (update: EpisodeUpdate)
    ensures
        update.deep_view() == update_from(row.deep_view(), source.deep_view()),
{
    EpisodeUpdate {
        id: row.id,
        anidb_id: Some(source.id),
        title_ja: clone_text(&source.title_ja),
        airdate: source.airdate,
        length: source.length,
        summary: clone_text(&source.summary),
        crunchyroll_id: clone_text(&source.crunchyroll_id),
    }
}

/// Whether a lookup gives for `number` the position of the last of the first
/// `upto` AniDB episodes that bears it, and nothing where none bears it.
pub open spec fn indexes_number(
    index: Map<i32, usize>,
    anidb: Seq<AniDBEpisodeModel>,
    number: i32,
    upto: int,
) -> bool {
    match last_with_number(anidb, number, upto) {
        Some(i) => index.contains_key(number) && index[number] == i,
        None => !index.contains_key(number),
    }
}

/// Builds the lookup from episode number to the position of the AniDB
/// episode that bears it.
fn index_by_number(anidb: &[AniDBEpisodeData]) -> (index: HashMap<i32, usize>)
    ensures
        forall|number: i32|
            #[trigger] indexes_number(index@, anidb.deep_view(), number, anidb@.len() as int),
{
    let mut index: HashMap<i32, usize> = HashMap::new();
    let mut k: usize = 0;
    while k < anidb.len()
        invariant
            k <= anidb@.len(),
            forall|number: i32|
                #[trigger] indexes_number(index@, anidb.deep_view(), number, k as int),
        decreases anidb@.len() - k,
    {
        assert(anidb.deep_view()[k as int] == anidb@[k as int].deep_view());
        let ghost before = index@;
        index.insert(anidb[k].epno, k);
        assert forall|number: i32| #[trigger]
            indexes_number(index@, anidb.deep_view(), number, k + 1) by {
            assert(indexes_number(before, anidb.deep_view(), number, k as int));
        }
        k += 1;
    }
    index
}

/// Plans the enrichment of the episodes of a series: each persisted row
/// whose number an AniDB episode bears gets an update; every other row is
/// counted as unmatched and left alone.
pub fn plan_enrichment(persisted: &[PersistedEpisode], anidb: &[AniDBEpisodeData]) -> (plan:
    EnrichmentPlan)
    ensures
        plan.updates.deep_view() == updates_of(persisted.deep_view(), anidb.deep_view()),
        plan.updated == plan.updates@.len(),
        plan.updated + plan.unmatched == persisted@.len(),
{
    let index = index_by_number(anidb);
    let mut updates: Vec<EpisodeUpdate> = Vec::new();
    let mut unmatched: usize = 0;
    let mut k: usize = 0;
    assert(updates.deep_view() =~= Seq::empty());
    while k < persisted.len()
        invariant
            k <= persisted@.len(),
            updates.deep_view() == updates_upto(
                persisted.deep_view(),
                anidb.deep_view(),
                k as int,
            ),
            updates@.len() + unmatched == k,
            forall|number: i32|
                #[trigger] indexes_number(index@, anidb.deep_view(), number, anidb@.len() as int),
        decreases persisted@.len() - k,
    {
        let row = &persisted[k];
        assert(persisted.deep_view()[k as int] == row.deep_view());
        let ghost before = updates.deep_view();
        proof {
            lemma_last_with_number(anidb.deep_view(), row.episode_num, anidb@.len() as int);
            assert(indexes_number(
                index@,
                anidb.deep_view(),
                row.episode_num,
                anidb@.len() as int,
            ));
        }
        match index.get(&row.episode_num) {
            Some(at) => {
                let source = &anidb[*at];
                assert(anidb.deep_view()[*at as int] == source.deep_view());
                let update = make_update(row, source);
                updates.push(update);
                assert(updates.deep_view() =~= before.push(update.deep_view()));
            },
            None => {
                unmatched += 1;
            },
        }
        k += 1;
    }
    let updated: usize = updates.len();
    EnrichmentPlan { updates, updated: updated as u64, unmatched: unmatched as u64 }
}

/// An update leaves the identity of a row alone: its id, its series, its
/// number, its kind and its title stay; and a row without a counterpart
/// gets no update at all.
pub proof fn lemma_update_keeps_identity(
    row: PersistedEpisodeModel,
    anidb: Seq<AniDBEpisodeModel>,
)
    ensures
        match update_for(row, anidb) {
            Some(update) => {
                let after = crate::records::updated_episode(row, update);
                &&& update.id == row.id
                &&& after.id == row.id
                &&& after.show_id == row.show_id
                &&& after.episode_num == row.episode_num
                &&& after.episode_type == row.episode_type
                &&& after.title == row.title
                &&& exists|i: int|
                    0 <= i < anidb.len() && anidb[i].epno == row.episode_num && update
                        == update_from(row, #[trigger] anidb[i])
            },
            None => forall|i: int| 0 <= i < anidb.len() ==> (#[trigger] anidb[i]).epno
                != row.episode_num,
        },
{
    lemma_last_with_number(anidb, row.episode_num, anidb.len() as int);
}

/// The fields of a series that AniDB gives.
pub open spec fn series_update_of(data: AniDBSeriesModel) -> SeriesUpdateModel {
    SeriesUpdateModel {
        anidb_id: Some(data.id),
        anime_type: Some(data.anime_type),
        episode_count: data.episode_count,
        start_date: data.start_date,
        end_date: data.end_date,
        title_ja: data.title_ja,
        description: data.description,
        official_url: data.url,
    }
}

/// Builds the update of a series row from what AniDB gives.
pub fn series_update_from(data: &AniDBSeriesData) -> (update: SeriesUpdate)
    ensures
        update.deep_view() == series_update_of(data.deep_view()),
{
    SeriesUpdate {
        anidb_id: Some(data.id),
        anime_type: Some(data.anime_type.clone()),
        episode_count: data.episode_count,
        start_date: data.start_date,
        end_date: data.end_date,
        title_ja: clone_text(&data.title_ja),
        description: clone_text(&data.description),
        official_url: clone_text(&data.url),
    }
}

} // verus!
