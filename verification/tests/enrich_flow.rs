use seiten::anidb_xml::{AnimeXml, EpisodeXml, TitleXml};
use seiten::date::Date;
use seiten::enrich_flow::{
    anidb_request_url, check_anidb_id, enrich_series_with_anidb, orchestrate_anidb_scrape,
    start_enrichment, AniDbDocument, EnrichAction, EnrichEvent, EnrichState,
};
use seiten::error::{ErrorKind, Failure};
use seiten::records::{EpisodeUpdate, PersistedEpisode, PersistedSeries, RecordId, SeriesUpdate};
use seiten::{AniDBEpisodeData, StoredEpisodeType};

fn id(value: u128) -> RecordId {
    RecordId { value }
}

fn failed(kind: ErrorKind, cause: &str) -> (EnrichState, EnrichAction) {
    (EnrichState::Failed(Failure { kind, cause: cause.to_string() }), EnrichAction::Finish)
}

fn series(anidb_id: Option<i32>) -> PersistedSeries {
    PersistedSeries {
        id: id(7),
        slug: "one-piece".to_string(),
        title: "ONE PIECE".to_string(),
        anidb_id,
        anime_type: None,
        episode_count: None,
        start_date: None,
        end_date: None,
        title_ja: None,
        description: None,
        official_url: None,
    }
}

fn episode_xml(id: i32, epno: &str) -> EpisodeXml {
    EpisodeXml {
        id,
        update: "2020-01-01".to_string(),
        epno_type: 1,
        epno_value: epno.to_string(),
        length: Some(24),
        airdate: None,
        titles: vec![],
        summary: None,
        resources: None,
    }
}

fn anime() -> AnimeXml {
    AnimeXml {
        id: 69,
        restricted: None,
        anime_type: Some("TV Series".to_string()),
        episodecount: Some(2),
        startdate: None,
        enddate: None,
        titles: Some(vec![TitleXml {
            lang: "ja".to_string(),
            title_type: Some("official".to_string()),
            value: "ワンピース".to_string(),
        }]),
        url: None,
        description: None,
        episodes: Some(vec![episode_xml(902, "2"), episode_xml(903, "3")]),
    }
}

fn document() -> AniDbDocument {
    AniDbDocument { xml: "<anime id=\"69\"/>".to_string(), envelope: None, anime: Ok(anime()) }
}

fn anidb_episode(episode_id: i32, number: i32) -> AniDBEpisodeData {
    AniDBEpisodeData::new(
        episode_id,
        Date { year: 2020, month: 1, day: 1 },
        number,
        1,
        Some(24),
        None,
        None,
        None,
        None,
        None,
        None,
        None,
    )
}

fn row(row_id: u128, number: i32) -> PersistedEpisode {
    PersistedEpisode {
        id: id(row_id),
        show_id: id(7),
        episode_num: number,
        episode_type: StoredEpisodeType::Canon,
        title: None,
        anidb_id: None,
        title_ja: None,
        airdate: None,
        length: None,
        summary: None,
        crunchyroll_id: None,
    }
}

fn update(row_id: u128, episode_id: i32) -> EpisodeUpdate {
    EpisodeUpdate {
        id: id(row_id),
        anidb_id: Some(episode_id),
        title_ja: None,
        airdate: None,
        length: Some(24),
        summary: None,
        crunchyroll_id: None,
    }
}

#[test]
fn enrichment_runs_through_its_stages() {
    assert_eq!(start_enrichment(), EnrichState::Start);
    let (state, action) = enrich_series_with_anidb(start_enrichment(), EnrichEvent::Requested { series_id: id(7) });
    assert_eq!(state, EnrichState::LoadingSeries { series_id: id(7) });
    assert_eq!(action, EnrichAction::LoadSeries { series_id: id(7) });

    let (state, action) = enrich_series_with_anidb(state, EnrichEvent::SeriesLoaded(Ok(Some(series(Some(69))))));
    assert_eq!(state, EnrichState::FetchingAniDb { series_id: id(7) });
    assert_eq!(action, EnrichAction::FetchAniDb { anidb_id: 69 });

    let (state, action) = enrich_series_with_anidb(state, EnrichEvent::AniDbFetched(Ok(document())));
    assert_eq!(
        state,
        EnrichState::UpdatingSeries {
            series_id: id(7),
            episodes: vec![anidb_episode(902, 2), anidb_episode(903, 3)]
        }
    );
    assert_eq!(
        action,
        EnrichAction::UpdateSeries {
            series_id: id(7),
            update: SeriesUpdate {
                anidb_id: Some(69),
                anime_type: Some("TV Series".to_string()),
                episode_count: Some(2),
                start_date: None,
                end_date: None,
                title_ja: Some("ワンピース".to_string()),
                description: None,
                official_url: None,
            }
        }
    );

    let (state, action) = enrich_series_with_anidb(state, EnrichEvent::SeriesUpdated(Ok(())));
    assert_eq!(state, EnrichState::LoadingEpisodes { episodes: vec![anidb_episode(902, 2), anidb_episode(903, 3)] });
    assert_eq!(action, EnrichAction::LoadEpisodes { series_id: id(7) });

    let rows = vec![row(11, 1), row(12, 2), row(13, 3)];
    let (state, action) = enrich_series_with_anidb(state, EnrichEvent::EpisodesLoaded(Ok(rows)));
    assert_eq!(state, EnrichState::UpdatingEpisodes { updated: 2, unmatched: 1 });
    assert_eq!(action, EnrichAction::UpdateEpisodes { updates: vec![update(12, 902), update(13, 903)] });

    let (state, action) = enrich_series_with_anidb(state, EnrichEvent::EpisodesUpdated(Ok(())));
    assert_eq!(state, EnrichState::Done { updated: 2, unmatched: 1 });
    assert_eq!(action, EnrichAction::Finish);

    let (state, action) = enrich_series_with_anidb(state, EnrichEvent::EpisodesUpdated(Ok(())));
    assert_eq!(state, EnrichState::Done { updated: 2, unmatched: 1 });
    assert_eq!(action, EnrichAction::Finish);
}

#[test]
fn nil_series_is_refused_at_once() {
    assert_eq!(
        enrich_series_with_anidb(start_enrichment(), EnrichEvent::Requested { series_id: id(0) }),
        failed(ErrorKind::InvalidInput, "Series ID cannot be nil UUID")
    );
}

#[test]
fn series_must_be_there_and_matched() {
    let loading = || EnrichState::LoadingSeries { series_id: id(7) };
    assert_eq!(
        enrich_series_with_anidb(loading(), EnrichEvent::SeriesLoaded(Ok(None))),
        failed(ErrorKind::NotFound, "Series not found: 00000000-0000-0000-0000-000000000007")
    );
    assert_eq!(
        enrich_series_with_anidb(loading(), EnrichEvent::SeriesLoaded(Ok(Some(series(None))))),
        failed(ErrorKind::InvalidInput, "Series 'one-piece' has no AniDB ID - cannot enrich")
    );
    assert_eq!(
        enrich_series_with_anidb(loading(), EnrichEvent::SeriesLoaded(Err("locked".to_string()))),
        failed(ErrorKind::TransportFailure, "Failed to fetch series: locked")
    );
}

#[test]
fn anidb_failures_fail_the_enrichment() {
    let fetching = || EnrichState::FetchingAniDb { series_id: id(7) };
    assert_eq!(
        enrich_series_with_anidb(fetching(), EnrichEvent::AniDbFetched(Err("refused".to_string()))),
        failed(ErrorKind::TransportFailure, "refused")
    );
    let banned = AniDbDocument {
        xml: "<error>Banned</error>".to_string(),
        envelope: Some("Banned".to_string()),
        anime: Err("missing field".to_string()),
    };
    assert_eq!(
        enrich_series_with_anidb(fetching(), EnrichEvent::AniDbFetched(Ok(banned))),
        failed(ErrorKind::TransportFailure, "AniDB API error: Banned")
    );
    let broken = AniDbDocument { xml: "<anime".to_string(), envelope: None, anime: Err("eof".to_string()) };
    assert_eq!(
        enrich_series_with_anidb(fetching(), EnrichEvent::AniDbFetched(Ok(broken))),
        failed(ErrorKind::ParseFailure, "Failed to parse AniDB XML: eof")
    );
}

#[test]
fn storage_failures_fail_the_enrichment() {
    assert_eq!(
        enrich_series_with_anidb(
            EnrichState::UpdatingSeries { series_id: id(7), episodes: vec![] },
            EnrichEvent::SeriesUpdated(Err("locked".to_string()))
        ),
        failed(ErrorKind::TransportFailure, "Failed to enrich series: locked")
    );
    assert_eq!(
        enrich_series_with_anidb(
            EnrichState::LoadingEpisodes { episodes: vec![] },
            EnrichEvent::EpisodesLoaded(Err("locked".to_string()))
        ),
        failed(ErrorKind::TransportFailure, "Failed to enrich episodes: locked")
    );
    assert_eq!(
        enrich_series_with_anidb(
            EnrichState::UpdatingEpisodes { updated: 1, unmatched: 0 },
            EnrichEvent::EpisodesUpdated(Err("locked".to_string()))
        ),
        failed(ErrorKind::TransportFailure, "Failed to enrich episodes: locked")
    );
}

#[test]
fn events_out_of_turn_fail_the_enrichment() {
    let states = [
        EnrichState::Start,
        EnrichState::LoadingSeries { series_id: id(7) },
        EnrichState::FetchingAniDb { series_id: id(7) },
        EnrichState::UpdatingSeries { series_id: id(7), episodes: vec![] },
        EnrichState::LoadingEpisodes { episodes: vec![] },
        EnrichState::UpdatingEpisodes { updated: 0, unmatched: 0 },
    ];
    for (at, state) in states.iter().enumerate() {
        let events = vec![
            EnrichEvent::Requested { series_id: id(7) },
            EnrichEvent::SeriesLoaded(Ok(Some(series(Some(69))))),
            EnrichEvent::AniDbFetched(Ok(document())),
            EnrichEvent::SeriesUpdated(Ok(())),
            EnrichEvent::EpisodesLoaded(Ok(vec![])),
            EnrichEvent::EpisodesUpdated(Ok(())),
        ];
        for (turn, event) in events.into_iter().enumerate() {
            if turn == at {
                continue;
            }
            assert_eq!(
                enrich_series_with_anidb(state.clone(), event),
                failed(ErrorKind::InvalidInput, "unexpected event")
            );
        }
    }
}

#[test]
fn failed_enrichment_stays_failed() {
    let state = EnrichState::Failed(Failure { kind: ErrorKind::NotFound, cause: "Series not found".to_string() });
    assert_eq!(
        enrich_series_with_anidb(state.clone(), EnrichEvent::Requested { series_id: id(7) }),
        (state, EnrichAction::Finish)
    );
}

#[test]
fn anidb_identifier_must_not_be_empty() {
    let empty = Failure { kind: ErrorKind::InvalidInput, cause: "AniDB ID cannot be empty".to_string() };
    assert_eq!(check_anidb_id(""), Err(empty.clone()));
    assert_eq!(check_anidb_id("  "), Err(empty.clone()));
    assert_eq!(check_anidb_id("69"), Ok(()));
    assert_eq!(orchestrate_anidb_scrape("", Ok(document())), Err(empty.clone()));
    assert_eq!(orchestrate_anidb_scrape(" \t", Err("refused".to_string())), Err(empty));
}

#[test]
fn anidb_series_is_read_from_what_was_fetched() {
    let series = orchestrate_anidb_scrape("69", Ok(document())).unwrap();
    assert_eq!(series.id, 69);
    assert_eq!(series.anime_type, "TV Series");
    assert_eq!(series.episode_count, Some(2));
    assert_eq!(series.title_ja.as_deref(), Some("ワンピース"));
    assert_eq!(series.episodes, vec![anidb_episode(902, 2), anidb_episode(903, 3)]);

    assert_eq!(
        orchestrate_anidb_scrape("69", Err("refused".to_string())),
        Err(Failure { kind: ErrorKind::TransportFailure, cause: "refused".to_string() })
    );
    let banned = AniDbDocument {
        xml: "<error>Banned</error>".to_string(),
        envelope: Some("Banned".to_string()),
        anime: Err("missing field".to_string()),
    };
    assert_eq!(
        orchestrate_anidb_scrape("69", Ok(banned)),
        Err(Failure { kind: ErrorKind::TransportFailure, cause: "AniDB API error: Banned".to_string() })
    );
}

#[test]
fn anidb_request_names_client_and_series() {
    assert_eq!(
        anidb_request_url("seiten", "2", "69"),
        "http://api.anidb.net:9001/httpapi?client=seiten&clientver=2&protover=1&request=anime&aid=69"
    );
    assert_eq!(
        anidb_request_url("", "", ""),
        "http://api.anidb.net:9001/httpapi?client=&clientver=&protover=1&request=anime&aid="
    );
}

#[test]
fn transport_words_are_kept_as_they_are() {
    for words in ["ANIDB_CLIENT_ID not set", "Failed to read response: reset", "HTTP request failed: timed out", ""] {
        assert_eq!(
            enrich_series_with_anidb(
                EnrichState::FetchingAniDb { series_id: id(7) },
                EnrichEvent::AniDbFetched(Err(words.to_string()))
            ),
            failed(ErrorKind::TransportFailure, words)
        );
        assert_eq!(
            orchestrate_anidb_scrape("69", Err(words.to_string())),
            Err(Failure { kind: ErrorKind::TransportFailure, cause: words.to_string() })
        );
    }
}

#[test]
fn missing_series_is_named() {
    let series_id = RecordId { value: 0x0123_4567_89ab_cdef_fedc_ba98_7654_3210 };
    assert_eq!(
        enrich_series_with_anidb(
            EnrichState::LoadingSeries { series_id },
            EnrichEvent::SeriesLoaded(Ok(None))
        ),
        failed(ErrorKind::NotFound, "Series not found: 01234567-89ab-cdef-fedc-ba9876543210")
    );
}
