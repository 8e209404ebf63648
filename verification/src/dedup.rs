//! Bulk insertion of episodes without duplicates: a batch is checked as a
//! whole, then split by key into the episodes that are new and those that
//! are already there. Only the new ones are to be inserted.

use crate::records::{EpisodeKey, NewEpisode, PersistedEpisode, RecordId};
use vstd::prelude::*;

verus! {

/// Why a batch is refused. `index` is the position of the first candidate
/// at fault.
#[derive(Clone, Copy, Debug, PartialEq, Eq, Structural)]
pub enum BatchError {
    /// The candidate names no series.
    SeriesUnset { index: usize },
    /// The candidate names the nil series.
    SeriesNil { index: usize },
    /// The candidate has no episode number.
    NumberUnset { index: usize, show_id: RecordId },
    /// The candidate's episode number is zero or negative.
    NumberNotPositive { index: usize, show_id: RecordId, number: i32 },
}

/// What is wrong with one candidate, if anything: the series is looked at
/// before the number.
pub open spec fn candidate_error(candidate: NewEpisode, index: usize) -> Option<BatchError> {
    match candidate.show_id {
        None => Some(BatchError::SeriesUnset { index }),
        Some(show_id) => if show_id.value == 0 {
            Some(BatchError::SeriesNil { index })
        } else {
            match candidate.episode_num {
                None => Some(BatchError::NumberUnset { index, show_id }),
                Some(number) => if number <= 0 {
                    Some(BatchError::NumberNotPositive { index, show_id, number })
                } else {
                    None
                },
            }
        },
    }
}

/// Whether every candidate carries a series that is not nil and a positive
/// episode number.
pub open spec fn batch_is_valid(candidates: Seq<NewEpisode>) -> bool {
    forall|i: int|
        0 <= i < candidates.len() ==> candidate_error(#[trigger] candidates[i], i as usize) is None
}

/// The error of the first candidate at fault, from position `from` on.
pub open spec fn first_error(candidates: Seq<NewEpisode>, from: int) -> Option<BatchError>
    decreases candidates.len() - from,
{
    if from < 0 || from >= candidates.len() {
        None
    } else if candidate_error(candidates[from], from as usize) is Some {
        candidate_error(candidates[from], from as usize)
    } else {
        first_error(candidates, from + 1)
    }
}

/// There is a first error exactly where the batch is not valid.
pub proof fn lemma_first_error(candidates: Seq<NewEpisode>, from: int)
    requires
        0 <= from,
    ensures
        first_error(candidates, from) is None <==> forall|i: int|
            from <= i < candidates.len() ==> candidate_error(
                #[trigger] candidates[i],
                i as usize,
            ) is None,
    decreases candidates.len() - from,
{
    if from < candidates.len() {
        lemma_first_error(candidates, from + 1);
        if candidate_error(candidates[from], from as usize) is None {
            assert forall|i: int| from <= i < candidates.len() && first_error(
                candidates,
                from + 1,
            ) is None implies candidate_error(#[trigger] candidates[i], i as usize) is None by {
                if i > from {
                }
            }
        }
    }
}

/// Checks a batch as a whole: the first candidate at fault refuses all of
/// it.
pub fn check_batch(candidates: &[NewEpisode]) -> (checked: Result<(), BatchError>)
    ensures
        match checked {
            Ok(_) => batch_is_valid(candidates@),
            Err(error) => first_error(candidates@, 0) == Some(error) && !batch_is_valid(
                candidates@,
            ),
        },
{
    let mut i: usize = 0;
    while i < candidates.len()
        invariant
            i <= candidates@.len(),
            first_error(candidates@, 0) == first_error(candidates@, i as int),
            forall|j: int|
                0 <= j < i ==> candidate_error(#[trigger] candidates@[j], j as usize) is None,
        decreases candidates@.len() - i,
    {
        let candidate = &candidates[i];
        match candidate.show_id {
            None => {
                return Err(BatchError::SeriesUnset { index: i });
            },
            Some(show_id) => {
                if show_id.is_nil() {
                    return Err(BatchError::SeriesNil { index: i });
                }
                match candidate.episode_num {
                    None => {
                        return Err(BatchError::NumberUnset { index: i, show_id });
                    },
                    Some(number) => {
                        if number <= 0 {
                            return Err(
                                BatchError::NumberNotPositive { index: i, show_id, number },
                            );
                        }
                    },
                }
            },
        }
        i += 1;
    }
    Ok(())
}

/// The key of a candidate that carries a series and a number.
pub open spec fn key_of(candidate: NewEpisode) -> EpisodeKey {
    EpisodeKey { show_id: candidate.show_id->0, episode_num: candidate.episode_num->0 }
}

/// Whether a candidate is new against a list of keys: it carries a series
/// and a number, and its key is not in the list.
pub open spec fn is_new(candidate: NewEpisode, keys: Seq<EpisodeKey>) -> bool {
    &&& candidate.show_id is Some
    &&& candidate.episode_num is Some
    &&& !keys.contains(key_of(candidate))
}

/// The keys of candidates that carry a series and a number.
pub open spec fn candidate_keys(candidates: Seq<NewEpisode>) -> Seq<EpisodeKey> {
    Seq::new(candidates.len(), |i: int| key_of(candidates[i]))
}

/// The keys that are persisted once the new episodes are inserted.
pub open spec fn keys_after_insert(existing: Seq<EpisodeKey>, inserted: Seq<NewEpisode>) -> Seq<
    EpisodeKey,
> {
    existing + candidate_keys(inserted)
}

/// The new candidates among the first `upto`, in the order of the batch: a
/// candidate is taken where its key is neither persisted nor that of a
/// candidate taken before it.
pub open spec fn new_upto(candidates: Seq<NewEpisode>, existing: Seq<EpisodeKey>, upto: int) -> Seq<
    NewEpisode,
>
    decreases upto,
{
    if upto <= 0 {
        Seq::empty()
    } else {
        let before = new_upto(candidates, existing, upto - 1);
        if is_new(candidates[upto - 1], keys_after_insert(existing, before)) {
            before.push(candidates[upto - 1])
        } else {
            before
        }
    }
}

/// The candidates that are new, in the order of the batch: the first
/// candidate of each key that is not persisted.
pub open spec fn new_candidates(candidates: Seq<NewEpisode>, existing: Seq<EpisodeKey>) -> Seq<
    NewEpisode,
> {
    new_upto(candidates, existing, candidates.len() as int)
}

/// The keys of the persisted episodes.
pub open spec fn keys_of(persisted: Seq<PersistedEpisode>) -> Seq<EpisodeKey> {
    Seq::new(persisted.len(), |i: int| persisted[i].key())
}

/// Collects the keys of persisted episodes.
pub fn existing_keys(persisted: &[PersistedEpisode]) -> (keys: Vec<EpisodeKey>)
    ensures
        keys@ == keys_of(persisted@),
{
    let mut keys: Vec<EpisodeKey> = Vec::new();
    let mut i: usize = 0;
    while i < persisted.len()
        invariant
            i <= persisted@.len(),
            keys@.len() == i,
            forall|j: int| 0 <= j < i ==> keys@[j] == persisted@[j].key(),
        decreases persisted@.len() - i,
    {
        keys.push(
            EpisodeKey { show_id: persisted[i].show_id, episode_num: persisted[i].episode_num },
        );
        i += 1;
    }
    assert(keys@ =~= keys_of(persisted@));
    keys
}

/// Whether `key` is among `keys`.
pub fn has_key(keys: &[EpisodeKey], key: EpisodeKey) -> (found: bool)
    ensures
        found == keys@.contains(key),
{
    let mut i: usize = 0;
    while i < keys.len()
        invariant
            i <= keys@.len(),
            forall|j: int| 0 <= j < i ==> keys@[j] != key,
        decreases keys@.len() - i,
    {
        if keys[i] == key {
            return true;
        }
        i += 1;
    }
    false
}

/// What is to be inserted, and the counts that the insertion reports.
#[derive(Debug, Clone, PartialEq, Eq)]
pub struct InsertPlan {
    /// The new episodes, in the order of the batch.
    pub to_insert: Vec<NewEpisode>,
    /// How many episodes are new.
    pub created: u64,
    /// How many episodes are left out because their key is already there,
    /// persisted or earlier in the batch.
    pub skipped: u64,
}

/// A key is among the keys after an insertion where it was persisted or is
/// the key of an inserted episode.
pub proof fn lemma_keys_after_insert(
    existing: Seq<EpisodeKey>,
    inserted: Seq<NewEpisode>,
    key: EpisodeKey,
)
    ensures
        keys_after_insert(existing, inserted).contains(key) <==> existing.contains(key)
            || candidate_keys(inserted).contains(key),
{
    let taken = candidate_keys(inserted);
    let after = keys_after_insert(existing, inserted);
    if existing.contains(key) {
        let i = choose|i: int| 0 <= i < existing.len() && existing[i] == key;
        assert(after[i] == key);
    }
    if taken.contains(key) {
        let i = choose|i: int| 0 <= i < taken.len() && taken[i] == key;
        assert(after[existing.len() + i] == key);
    }
    if after.contains(key) {
        let i = choose|i: int| 0 <= i < after.len() && after[i] == key;
        if i < existing.len() {
            assert(existing[i] == key);
        } else {
            assert(taken[i - existing.len()] == key);
        }
    }
}

/// Splits a batch into the episodes that are new and those whose key is
/// already there: persisted, or borne by a candidate that stands earlier in
/// the batch. Of each key that is not persisted the first candidate is
/// inserted; nothing of a duplicate is changed or kept.
pub fn split_new(candidates: Vec<NewEpisode>, existing: &[EpisodeKey]) -> (plan: InsertPlan)
    ensures
        plan.to_insert@ == new_candidates(candidates@, existing@),
        plan.created == plan.to_insert@.len(),
        plan.created + plan.skipped == candidates@.len(),
{
    let ghost all = candidates@;
    let total: usize = candidates.len();
    let mut to_insert: Vec<NewEpisode> = Vec::new();
    let mut taken: Vec<EpisodeKey> = Vec::new();
    assert(taken@ =~= candidate_keys(to_insert@));
    for candidate in it: candidates
        invariant
            it.seq() == all,
            to_insert@ == new_upto(all, existing@, it.index() as int),
            taken@ == candidate_keys(to_insert@),
            to_insert@.len() <= it.index(),
    {
        let ghost before = to_insert@;
        let fresh: Option<EpisodeKey> = match (candidate.show_id, candidate.episode_num) {
            (Some(show_id), Some(episode_num)) => {
                let key = EpisodeKey { show_id, episode_num };
                proof {
                    lemma_keys_after_insert(existing@, before, key);
                }
                if has_key(existing, key) || has_key(taken.as_slice(), key) {
                    None
                } else {
                    Some(key)
                }
            },
            _ => None,
        };
        match fresh {
            Some(key) => {
                to_insert.push(candidate);
                taken.push(key);
                assert(taken@ =~= candidate_keys(to_insert@));
            },
            None => {},
        }
    }
    let created: usize = to_insert.len();
    InsertPlan { to_insert, created: created as u64, skipped: (total - created) as u64 }
}

/// What `new_upto` takes: episodes that carry a series and a number, whose
/// keys differ from one another and from every persisted key; and the key
/// of every such candidate among the first `upto` is there afterwards.
pub proof fn lemma_new_upto(candidates: Seq<NewEpisode>, existing: Seq<EpisodeKey>, upto: int)
    requires
        0 <= upto <= candidates.len(),
    ensures
        new_upto(candidates, existing, upto).len() <= upto,
        candidate_keys(new_upto(candidates, existing, upto)).no_duplicates(),
        forall|i: int|
            0 <= i < new_upto(candidates, existing, upto).len() ==> is_new(
                #[trigger] new_upto(candidates, existing, upto)[i],
                existing,
            ) && candidates.contains(new_upto(candidates, existing, upto)[i]),
        forall|i: int|
            0 <= i < upto && (#[trigger] candidates[i]).show_id is Some
                && candidates[i].episode_num is Some ==> keys_after_insert(
                existing,
                new_upto(candidates, existing, upto),
            ).contains(key_of(candidates[i])),
    decreases upto,
{
    if upto > 0 {
        lemma_new_upto(candidates, existing, upto - 1);
        let before = new_upto(candidates, existing, upto - 1);
        let now = new_upto(candidates, existing, upto);
        let last = candidates[upto - 1];
        let taken = candidate_keys(now);
        lemma_keys_after_insert(existing, before, key_of(last));
        assert forall|i: int| 0 <= i < now.len() implies is_new(#[trigger] now[i], existing)
            && candidates.contains(now[i]) by {
            if i < before.len() {
                assert(now[i] == before[i]);
            } else {
                assert(now[i] == last);
            }
        }
        assert forall|a: int, b: int| 0 <= a < taken.len() && 0 <= b < taken.len() && a
            != b implies taken[a] != taken[b] by {
            let old_keys = candidate_keys(before);
            if a < before.len() && b < before.len() {
                assert(old_keys[a] != old_keys[b]);
            } else if a < before.len() {
                assert(old_keys[a] == taken[a]);
            } else if b < before.len() {
                assert(old_keys[b] == taken[b]);
            }
        }
        assert forall|i: int|
            0 <= i < upto && (#[trigger] candidates[i]).show_id is Some
                && candidates[i].episode_num is Some implies keys_after_insert(
            existing,
            now,
        ).contains(key_of(candidates[i])) by {
            let key = key_of(candidates[i]);
            lemma_keys_after_insert(existing, before, key);
            lemma_keys_after_insert(existing, now, key);
            if !existing.contains(key) {
                if candidate_keys(before).contains(key) {
                    let j = choose|j: int|
                        0 <= j < before.len() && candidate_keys(before)[j] == key;
                    assert(taken[j] == key);
                } else {
                    assert(i == upto - 1);
                    assert(taken[now.len() - 1] == key);
                }
            }
        }
    }
}

/// Where no candidate is new against the persisted keys, nothing is to be
/// inserted.
pub proof fn lemma_nothing_new(candidates: Seq<NewEpisode>, existing: Seq<EpisodeKey>)
    requires
        forall|i: int| 0 <= i < candidates.len() ==> !is_new(#[trigger] candidates[i], existing),
    ensures
        new_candidates(candidates, existing).len() == 0,
{
    lemma_new_upto(candidates, existing, candidates.len() as int);
    let first = new_candidates(candidates, existing);
    if first.len() > 0 {
        let i = choose|i: int| 0 <= i < candidates.len() && candidates[i] == first[0];
        assert(is_new(candidates[i], existing));
    }
}

/// Whether no two candidates have the same key.
pub open spec fn keys_distinct(candidates: Seq<NewEpisode>) -> bool {
    forall|i: int, j: int|
        0 <= i < j < candidates.len() ==> key_of(#[trigger] candidates[i]) != key_of(
            #[trigger] candidates[j],
        )
}

/// Where every candidate is new against the persisted keys and no key
/// occurs twice within the batch, the whole batch is to be inserted.
pub proof fn lemma_all_new(candidates: Seq<NewEpisode>, existing: Seq<EpisodeKey>, upto: int)
    requires
        0 <= upto <= candidates.len(),
        keys_distinct(candidates),
        forall|i: int| 0 <= i < candidates.len() ==> is_new(#[trigger] candidates[i], existing),
    ensures
        new_upto(candidates, existing, upto) == candidates.take(upto),
    decreases upto,
{
    if upto > 0 {
        lemma_all_new(candidates, existing, upto - 1);
        let before = candidates.take(upto - 1);
        let last = candidates[upto - 1];
        lemma_keys_after_insert(existing, before, key_of(last));
        assert(is_new(last, existing));
        if candidate_keys(before).contains(key_of(last)) {
            let j = choose|j: int|
                0 <= j < before.len() && candidate_keys(before)[j] == key_of(last);
            assert(key_of(candidates[j]) != key_of(candidates[upto - 1]));
        }
        assert(before.push(last) =~= candidates.take(upto));
    } else {
        assert(candidates.take(0) =~= Seq::<NewEpisode>::empty());
    }
}

/// Inserting a batch twice is idempotent. Of a valid batch in which no key
/// occurs twice and none of whose keys is persisted, the first insertion
/// creates every episode and skips none; whatever the batch repeats and
/// whatever was persisted before, a second insertion of the same batch
/// creates none and skips every episode.
pub proof fn lemma_insert_twice(candidates: Seq<NewEpisode>, existing: Seq<EpisodeKey>)
    requires
        batch_is_valid(candidates),
    ensures
        keys_distinct(candidates) && (forall|i: int|
            0 <= i < candidates.len() ==> !existing.contains(key_of(#[trigger] candidates[i])))
            ==> new_candidates(candidates, existing) == candidates,
        new_candidates(
            candidates,
            keys_after_insert(existing, new_candidates(candidates, existing)),
        ).len() == 0,
{
    let first = new_candidates(candidates, existing);
    let after = keys_after_insert(existing, first);
    lemma_new_upto(candidates, existing, candidates.len() as int);
    assert forall|i: int| 0 <= i < candidates.len() implies !is_new(
        #[trigger] candidates[i],
        after,
    ) by {
        assert(candidate_error(candidates[i], i as usize) is None);
    }
    lemma_nothing_new(candidates, after);
    if keys_distinct(candidates) && (forall|i: int|
        0 <= i < candidates.len() ==> !existing.contains(key_of(#[trigger] candidates[i]))) {
        assert forall|i: int| 0 <= i < candidates.len() implies is_new(
            #[trigger] candidates[i],
            existing,
        ) by {
            assert(candidate_error(candidates[i], i as usize) is None);
        }
        lemma_all_new(candidates, existing, candidates.len() as int);
        assert(candidates.take(candidates.len() as int) == candidates);
    }
}

/// At most one persisted episode has a given key, before and after an
/// insertion, whatever the batch holds: a key that occurs twice within the
/// batch is inserted once.
pub proof fn lemma_insert_keeps_keys_unique(candidates: Seq<NewEpisode>, existing: Seq<EpisodeKey>)
    requires
        existing.no_duplicates(),
    ensures
        keys_after_insert(existing, new_candidates(candidates, existing)).no_duplicates(),
{
    lemma_new_upto(candidates, existing, candidates.len() as int);
    let first = new_candidates(candidates, existing);
    let taken = candidate_keys(first);
    let after = keys_after_insert(existing, first);
    let n = existing.len() as int;
    assert forall|a: int, b: int| 0 <= a < after.len() && 0 <= b < after.len() && a
        != b implies after[a] != after[b] by {
        if a >= n && b >= n {
            assert(taken[a - n] != taken[b - n]);
        } else if a >= n {
            assert(is_new(first[a - n], existing));
            assert(existing[b] == after[b]);
        } else if b >= n {
            assert(is_new(first[b - n], existing));
            assert(existing[a] == after[a]);
        }
    }
}

/// Whether some candidate names the series `id`.
pub open spec fn names_series(candidates: Seq<NewEpisode>, id: RecordId, upto: int) -> bool {
    exists|i: int| 0 <= i < upto && (#[trigger] candidates[i]).show_id == Some(id)
}

/// Whether `id` is among `ids`.
fn has_id(ids: &[RecordId], id: RecordId) -> (found: bool)
    ensures
        found == ids@.contains(id),
{
    let mut i: usize = 0;
    while i < ids.len()
        invariant
            i <= ids@.len(),
            forall|j: int| 0 <= j < i ==> ids@[j] != id,
        decreases ids@.len() - i,
    {
        if ids[i] == id {
            return true;
        }
        i += 1;
    }
    false
}

/// The series that a batch names, each once, in the order in which they
/// first occur: the series whose persisted episodes have to be loaded.
pub fn referenced_series(candidates: &[NewEpisode]) -> (ids: Vec<RecordId>)
    ensures
        ids@.no_duplicates(),
        forall|id: RecordId|
            ids@.contains(id) <==> #[trigger] names_series(
                candidates@,
                id,
                candidates@.len() as int,
            ),
{
    let mut ids: Vec<RecordId> = Vec::new();
    let mut k: usize = 0;
    while k < candidates.len()
        invariant
            k <= candidates@.len(),
            ids@.no_duplicates(),
            forall|id: RecordId|
                ids@.contains(id) <==> #[trigger] names_series(candidates@, id, k as int),
        decreases candidates@.len() - k,
    {
        let ghost before = ids@;
        match candidates[k].show_id {
            Some(id) => {
                if !has_id(ids.as_slice(), id) {
                    ids.push(id);
                    assert(ids@[before.len() as int] == id);
                    assert forall|other: RecordId| ids@.contains(other) implies before.contains(
                        other,
                    ) || other == id by {
                        let j = choose|j: int| 0 <= j < ids@.len() && ids@[j] == other;
                        if j < before.len() {
                            assert(before[j] == other);
                        }
                    }
                    assert forall|other: RecordId| before.contains(other) implies ids@.contains(
                        other,
                    ) by {
                        let j = choose|j: int| 0 <= j < before.len() && before[j] == other;
                        assert(ids@[j] == other);
                    }
                }
            },
            None => {},
        }
        assert forall|id: RecordId|
            ids@.contains(id) <==> #[trigger] names_series(candidates@, id, k + 1) by {
            if names_series(candidates@, id, k + 1) {
                let i = choose|i: int|
                    0 <= i < k + 1 && (#[trigger] candidates@[i]).show_id == Some(id);
                if i < k {
                    assert(names_series(candidates@, id, k as int));
                }
            }
            if names_series(candidates@, id, k as int) {
                let i = choose|i: int| 0 <= i < k && (#[trigger] candidates@[i]).show_id == Some(id);
                assert(0 <= i < k + 1 && candidates@[i].show_id == Some(id));
            }
            if candidates@[k as int].show_id == Some(id) {
                assert(names_series(candidates@, id, k + 1));
            }
        }
        k += 1;
    }
    ids
}

/// How a bulk insertion starts.
#[derive(Debug, Clone, PartialEq, Eq)]
pub enum BulkInsertStart {
    /// The batch is empty: nothing is created, nothing is skipped, and the
    /// storage is not asked for anything.
    Nothing,
    /// The batch is refused as a whole, before the storage is asked for
    /// anything.
    Refused(BatchError),
    /// The batch is valid: load the persisted episodes of these series,
    /// then split the batch.
    Load(Vec<RecordId>),
}

/// Starts a bulk insertion: an empty batch is done at once, an invalid
/// batch is refused, and for a valid batch the series to load are named.
pub fn begin_create_many(candidates: &[NewEpisode]) -> (start: BulkInsertStart)
    ensures
        match start {
            BulkInsertStart::Nothing => candidates@.len() == 0,
            BulkInsertStart::Refused(error) => candidates@.len() > 0 && first_error(
                candidates@,
                0,
            ) == Some(error),
            BulkInsertStart::Load(ids) => {
                &&& candidates@.len() > 0
                &&& batch_is_valid(candidates@)
                &&& ids@.no_duplicates()
                &&& forall|id: RecordId|
                    ids@.contains(id) <==> #[trigger] names_series(
                        candidates@,
                        id,
                        candidates@.len() as int,
                    )
            },
        },
{
    if candidates.len() == 0 {
        return BulkInsertStart::Nothing;
    }
    match check_batch(candidates) {
        Err(error) => BulkInsertStart::Refused(error),
        Ok(_) => BulkInsertStart::Load(referenced_series(candidates)),
    }
}

} // verus!
