use seiten::date::Date;
use seiten::enrich::{make_update, plan_enrichment, series_update_from};
use seiten::records::{EpisodeUpdate, PersistedEpisode, RecordId, SeriesUpdate};
use seiten::{AniDBEpisodeData, AniDBSeriesData, StoredEpisodeType};

fn id(value: u128) -> RecordId {
    RecordId { value }
}

fn persisted(row: u128, number: i32) -> PersistedEpisode {
    PersistedEpisode {
        id: id(row),
        show_id: id(1),
        episode_num: number,
        episode_type: StoredEpisodeType::Filler,
        title: Some(format!("Local {number}")),
        anidb_id: None,
        title_ja: Some("old".to_string()),
        airdate: None,
        length: Some(1),
        summary: None,
        crunchyroll_id: Some("old".to_string()),
    }
}

fn anidb(episode_id: i32, number: i32) -> AniDBEpisodeData {
    AniDBEpisodeData::new(
        episode_id,
        Date { year: 2020, month: 1, day: 1 },
        number,
        1,
        Some(24),
        Some(Date { year: 2001, month: 2, day: number as u32 }),
        None,
        None,
        Some("日本語"),
        Some("English"),
        Some("What happens"),
        None,
    )
}

fn update(row: u128, episode_id: i32, number: i32) -> EpisodeUpdate {
    EpisodeUpdate {
        id: id(row),
        anidb_id: Some(episode_id),
        title_ja: Some("日本語".to_string()),
        airdate: Some(Date { year: 2001, month: 2, day: number as u32 }),
        length: Some(24),
        summary: Some("What happens".to_string()),
        crunchyroll_id: None,
    }
}

#[test]
fn enrichment_join() {
    let rows = vec![persisted(11, 1), persisted(12, 2), persisted(13, 3)];
    let source = vec![anidb(902, 2), anidb(903, 3), anidb(904, 4)];
    let plan = plan_enrichment(&rows, &source);
    assert_eq!(plan.updates, vec![update(12, 902, 2), update(13, 903, 3)]);
    assert_eq!((plan.updated, plan.unmatched), (2, 1));
    assert!(plan.updates.iter().all(|u| u.id != id(11)));
    let after: Vec<PersistedEpisode> = rows
        .iter()
        .map(|row| match plan.updates.iter().find(|u| u.id == row.id) {
            Some(update) => row.with_update(update),
            None => row.clone(),
        })
        .collect();
    assert_eq!(after[0], rows[0]);
    assert_eq!(after[1].anidb_id, Some(902));
    assert_eq!(after[2].anidb_id, Some(903));
}

#[test]
fn update_overwrites_the_anidb_fields_only() {
    let row = persisted(12, 2);
    let after = row.with_update(&update(12, 902, 2));
    assert_eq!(
        after,
        PersistedEpisode {
            id: id(12),
            show_id: id(1),
            episode_num: 2,
            episode_type: StoredEpisodeType::Filler,
            title: Some("Local 2".to_string()),
            anidb_id: Some(902),
            title_ja: Some("日本語".to_string()),
            airdate: Some(Date { year: 2001, month: 2, day: 2 }),
            length: Some(24),
            summary: Some("What happens".to_string()),
            crunchyroll_id: None,
        }
    );
}

#[test]
fn make_update_takes_the_six_fields() {
    assert_eq!(make_update(&persisted(12, 2), &anidb(902, 2)), update(12, 902, 2));
}

#[test]
fn later_anidb_episode_wins() {
    let rows = vec![persisted(11, 1)];
    let source = vec![anidb(901, 1), anidb(999, 1)];
    let plan = plan_enrichment(&rows, &source);
    assert_eq!(plan.updates, vec![update(11, 999, 1)]);
    assert_eq!((plan.updated, plan.unmatched), (1, 0));
}

#[test]
fn plans_without_counterparts() {
    let rows = vec![persisted(11, 1), persisted(12, 2)];
    let none = plan_enrichment(&rows, &[]);
    assert_eq!(none.updates, vec![]);
    assert_eq!((none.updated, none.unmatched), (0, 2));
    let empty = plan_enrichment(&[], &[anidb(901, 1)]);
    assert_eq!(empty.updates, vec![]);
    assert_eq!((empty.updated, empty.unmatched), (0, 0));
}

#[test]
fn rows_with_the_same_number_are_all_updated() {
    let rows = vec![persisted(11, 1), persisted(12, 1)];
    let plan = plan_enrichment(&rows, &[anidb(901, 1)]);
    assert_eq!(plan.updates, vec![update(11, 901, 1), update(12, 901, 1)]);
    assert_eq!((plan.updated, plan.unmatched), (2, 0));
}

#[test]
fn series_update_takes_the_series_fields() {
    let data = AniDBSeriesData::new(
        69,
        true,
        "TV Series",
        Some(1000),
        &[anidb(901, 1)],
        Some(Date { year: 1999, month: 10, day: 20 }),
        None,
        "One Piece",
        Some("ワンピース"),
        Some("One Piece"),
        Some("Pirates"),
        Some("http://example.org"),
    );
    assert_eq!(
        series_update_from(&data),
        SeriesUpdate {
            anidb_id: Some(69),
            anime_type: Some("TV Series".to_string()),
            episode_count: Some(1000),
            start_date: Some(Date { year: 1999, month: 10, day: 20 }),
            end_date: None,
            title_ja: Some("ワンピース".to_string()),
            description: Some("Pirates".to_string()),
            official_url: Some("http://example.org".to_string()),
        }
    );
}
