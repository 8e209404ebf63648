use seiten::date::Date;
use seiten::error::{ErrorKind, Failure};
use seiten::records::{NewEpisode, RecordId};
use seiten::scrape::{
    episode_drafts, orchestrate_scrape, scrape_anime_series, scrape_is_over, start_scrape,
    EnrichmentNote, FetchOutcome, ScrapeAction, ScrapeEvent, ScrapeState, Stage,
};
use seiten::{EpisodeData, EpisodeType, SeriesData, StoredEpisodeType};

const URL: &str = "https://www.animefillerlist.com/shows/one-piece";

fn page() -> String {
    "<table class=\"EpisodeList\"><tbody>\
     <tr><td class=\"Number\">1</td><td class=\"Title\">Romance Dawn</td><td class=\"Type\">Canon</td><td class=\"Date\">1999-10-20</td></tr>\
     <tr><td class=\"Number\">2</td><td class=\"Title\">Side Story</td><td class=\"Type\">Filler</td><td class=\"Date\">1999-11-17</td></tr>\
     </tbody></table>"
        .to_string()
}

fn episodes() -> Vec<EpisodeData> {
    vec![
        EpisodeData::new(1, 1, None, Date { year: 1999, month: 10, day: 20 }, EpisodeType::Canon, "Romance Dawn", None, None, None),
        EpisodeData::new(2, 2, None, Date { year: 1999, month: 11, day: 17 }, EpisodeType::Filler, "Side Story", None, None, None),
    ]
}

fn series() -> SeriesData {
    SeriesData::new("one-piece", "ONE PIECE", &episodes())
}

fn id(value: u128) -> RecordId {
    RecordId { value }
}

fn failed(stage: Stage, kind: ErrorKind, cause: &str) -> (ScrapeState, ScrapeAction) {
    (ScrapeState::Failed { stage, failure: Failure { kind, cause: cause.to_string() } }, ScrapeAction::Finish)
}

fn requested(url: &str) -> ScrapeEvent {
    ScrapeEvent::Requested { url: url.to_string() }
}

fn states() -> Vec<ScrapeState> {
    vec![
        ScrapeState::ParsingUrl,
        ScrapeState::FetchingPage { slug: "one-piece".to_string(), title: "ONE PIECE".to_string() },
        ScrapeState::MatchingTitle { series: series() },
        ScrapeState::PersistingSeries { series: series(), anidb_id: Some(69) },
        ScrapeState::PersistingEpisodes { series: series(), anidb_id: Some(69), series_id: id(7) },
        ScrapeState::Enriching { series: series() },
        ScrapeState::Done { series: series(), enrichment: EnrichmentNote::Skipped },
        ScrapeState::Failed {
            stage: Stage::FetchingPage,
            failure: Failure { kind: ErrorKind::TransportFailure, cause: "x".to_string() },
        },
    ]
}

fn events() -> Vec<ScrapeEvent> {
    vec![
        requested(URL),
        ScrapeEvent::PageFetched(FetchOutcome::Body(page())),
        ScrapeEvent::TitleMatched(None),
        ScrapeEvent::SeriesReady(Ok(id(7))),
        ScrapeEvent::EpisodesInserted(Ok((2, 0))),
        ScrapeEvent::Enriched(Ok((1, 1))),
    ]
}

#[test]
fn scrape_starts_by_parsing_the_url() {
    assert_eq!(start_scrape(), ScrapeState::ParsingUrl);
    assert!(!scrape_is_over(&start_scrape()));
    assert_eq!(
        orchestrate_scrape(start_scrape(), requested(URL)),
        (
            ScrapeState::FetchingPage { slug: "one-piece".to_string(), title: "ONE PIECE".to_string() },
            ScrapeAction::FetchPage { url: URL.to_string() }
        )
    );
}

#[test]
fn empty_url_fails_before_anything_is_fetched() {
    for url in ["", "   ", "\n\t"] {
        assert_eq!(
            orchestrate_scrape(start_scrape(), requested(url)),
            failed(Stage::ParsingUrl, ErrorKind::InvalidInput, "URL cannot be empty")
        );
    }
}

#[test]
fn bad_url_fails() {
    assert_eq!(
        orchestrate_scrape(start_scrape(), requested("shows/one-piece")),
        failed(Stage::ParsingUrl, ErrorKind::InvalidInput, "Invalid URL: relative URL without a base")
    );
}

#[test]
fn page_is_extracted_and_the_title_matched() {
    let state = ScrapeState::FetchingPage { slug: "one-piece".to_string(), title: "ONE PIECE".to_string() };
    assert_eq!(
        orchestrate_scrape(state, ScrapeEvent::PageFetched(FetchOutcome::Body(page()))),
        (
            ScrapeState::MatchingTitle { series: series() },
            ScrapeAction::MatchTitle { title: "ONE PIECE".to_string() }
        )
    );
}

#[test]
fn transport_failures_fail_the_scrape() {
    let state = || ScrapeState::FetchingPage { slug: "s".to_string(), title: "S".to_string() };
    assert_eq!(
        orchestrate_scrape(state(), ScrapeEvent::PageFetched(FetchOutcome::BadStatus("404 Not Found".to_string()))),
        failed(Stage::FetchingPage, ErrorKind::TransportFailure, "HTTP request returned status: 404 Not Found")
    );
    assert_eq!(
        orchestrate_scrape(state(), ScrapeEvent::PageFetched(FetchOutcome::Unreachable("timed out".to_string()))),
        failed(Stage::FetchingPage, ErrorKind::TransportFailure, "timed out")
    );
}

#[test]
fn match_leads_to_the_series() {
    for anidb_id in [Some(69), None] {
        assert_eq!(
            orchestrate_scrape(ScrapeState::MatchingTitle { series: series() }, ScrapeEvent::TitleMatched(anidb_id)),
            (
                ScrapeState::PersistingSeries { series: series(), anidb_id },
                ScrapeAction::FindOrCreateSeries {
                    slug: "one-piece".to_string(),
                    title: "ONE PIECE".to_string(),
                    anidb_id
                }
            )
        );
    }
}

#[test]
fn series_leads_to_the_episodes() {
    let state = ScrapeState::PersistingSeries { series: series(), anidb_id: Some(69) };
    let drafts = vec![
        NewEpisode {
            show_id: Some(id(7)),
            episode_num: Some(1),
            episode_type: StoredEpisodeType::Canon,
            title: Some("Romance Dawn".to_string()),
        },
        NewEpisode {
            show_id: Some(id(7)),
            episode_num: Some(2),
            episode_type: StoredEpisodeType::Filler,
            title: Some("Side Story".to_string()),
        },
    ];
    assert_eq!(episode_drafts(&episodes(), id(7)), drafts);
    assert_eq!(
        orchestrate_scrape(state, ScrapeEvent::SeriesReady(Ok(id(7)))),
        (
            ScrapeState::PersistingEpisodes { series: series(), anidb_id: Some(69), series_id: id(7) },
            ScrapeAction::InsertEpisodes { episodes: drafts }
        )
    );
}

#[test]
fn episode_kinds_are_stored_under_their_names() {
    let kinds = [
        (EpisodeType::Canon, StoredEpisodeType::Canon),
        (EpisodeType::Filler, StoredEpisodeType::Filler),
        (EpisodeType::Mixed, StoredEpisodeType::MixedCanon),
        (EpisodeType::AnimeCanon, StoredEpisodeType::AnimeCanon),
    ];
    for (kind, stored) in kinds {
        let episode = EpisodeData::new(1, 1, None, Date::unix_epoch(), kind, "t", None, None, None);
        assert_eq!(episode_drafts(&[episode], id(1))[0].episode_type, stored);
        assert_eq!(StoredEpisodeType::from(kind), stored);
    }
}

#[test]
fn storage_failures_fail_the_scrape() {
    assert_eq!(
        orchestrate_scrape(
            ScrapeState::PersistingSeries { series: series(), anidb_id: None },
            ScrapeEvent::SeriesReady(Err("locked".to_string()))
        ),
        failed(Stage::PersistingSeries, ErrorKind::TransportFailure, "Failed to find or create series: locked")
    );
    assert_eq!(
        orchestrate_scrape(
            ScrapeState::PersistingEpisodes { series: series(), anidb_id: Some(1), series_id: id(7) },
            ScrapeEvent::EpisodesInserted(Err("locked".to_string()))
        ),
        failed(Stage::PersistingEpisodes, ErrorKind::TransportFailure, "Failed to create episodes: locked")
    );
}

#[test]
fn enrichment_runs_only_for_a_matched_series() {
    assert_eq!(
        orchestrate_scrape(
            ScrapeState::PersistingEpisodes { series: series(), anidb_id: Some(69), series_id: id(7) },
            ScrapeEvent::EpisodesInserted(Ok((2, 0)))
        ),
        (ScrapeState::Enriching { series: series() }, ScrapeAction::Enrich { series_id: id(7) })
    );
    assert_eq!(
        orchestrate_scrape(
            ScrapeState::PersistingEpisodes { series: series(), anidb_id: None, series_id: id(7) },
            ScrapeEvent::EpisodesInserted(Ok((0, 2)))
        ),
        (ScrapeState::Done { series: series(), enrichment: EnrichmentNote::Skipped }, ScrapeAction::Finish)
    );
}

#[test]
fn enrichment_failure_is_a_note() {
    let failure = Failure { kind: ErrorKind::TransportFailure, cause: "AniDB API error: Banned".to_string() };
    let (state, action) = orchestrate_scrape(ScrapeState::Enriching { series: series() }, ScrapeEvent::Enriched(Err(failure)));
    assert!(scrape_is_over(&state));
    assert_eq!(action, ScrapeAction::Finish);
    assert_eq!(
        state,
        ScrapeState::Done {
            series: series(),
            enrichment: EnrichmentNote::Failed(Failure {
                kind: ErrorKind::EnrichmentFailure,
                cause: "AniDB API error: Banned".to_string()
            })
        }
    );
}

#[test]
fn enrichment_counts_are_reported() {
    assert_eq!(
        orchestrate_scrape(ScrapeState::Enriching { series: series() }, ScrapeEvent::Enriched(Ok((130, 1)))),
        (
            ScrapeState::Done { series: series(), enrichment: EnrichmentNote::Applied { updated: 130, unmatched: 1 } },
            ScrapeAction::Finish
        )
    );
}

#[test]
fn enriching_never_fails_the_scrape() {
    for event in events() {
        let (state, action) = orchestrate_scrape(ScrapeState::Enriching { series: series() }, event);
        assert!(matches!(state, ScrapeState::Done { .. }));
        assert_eq!(action, ScrapeAction::Finish);
    }
}

#[test]
fn events_out_of_turn_fail_the_scrape() {
    let stages = [
        Stage::ParsingUrl,
        Stage::FetchingPage,
        Stage::MatchingTitle,
        Stage::PersistingSeries,
        Stage::PersistingEpisodes,
    ];
    for (at, state) in states().into_iter().take(5).enumerate() {
        for (turn, event) in events().into_iter().enumerate() {
            if turn == at {
                continue;
            }
            let (next, action) = orchestrate_scrape(state.clone(), event);
            assert_eq!(
                (next, action),
                failed(stages[at], ErrorKind::InvalidInput, "unexpected event")
            );
        }
    }
}

#[test]
fn ended_scrapes_stay_as_they_are() {
    for state in states().into_iter().skip(6) {
        assert!(scrape_is_over(&state));
        for event in events() {
            assert_eq!(orchestrate_scrape(state.clone(), event), (state.clone(), ScrapeAction::Finish));
        }
    }
    for state in states().into_iter().take(6) {
        assert!(!scrape_is_over(&state));
    }
}

#[test]
fn page_gives_the_series() {
    assert_eq!(scrape_anime_series(URL, FetchOutcome::Body(page())), Ok(series()));
    let bare = scrape_anime_series("https://www.animefillerlist.com", FetchOutcome::Body(String::new())).unwrap();
    assert_eq!(bare.slug, "");
    assert_eq!(bare.title, "");
    assert!(bare.episodes.is_empty());
    let mail = scrape_anime_series("mailto:someone@example.com", FetchOutcome::Body(page())).unwrap();
    assert_eq!(mail.slug, "unknown-series");
    assert_eq!(mail.title, "UNKNOWN SERIES");
    assert_eq!(mail.episodes, episodes());
}

#[test]
fn page_that_was_not_fetched_gives_no_series() {
    let failure = |kind, cause: &str| Err(Failure { kind, cause: cause.to_string() });
    assert_eq!(
        scrape_anime_series("", FetchOutcome::Body(page())),
        failure(ErrorKind::InvalidInput, "Invalid URL: relative URL without a base")
    );
    assert_eq!(
        scrape_anime_series("shows/one-piece", FetchOutcome::Unreachable("timed out".to_string())),
        failure(ErrorKind::InvalidInput, "Invalid URL: relative URL without a base")
    );
    assert_eq!(
        scrape_anime_series(URL, FetchOutcome::Unreachable("timed out".to_string())),
        failure(ErrorKind::TransportFailure, "timed out")
    );
    assert_eq!(
        scrape_anime_series(URL, FetchOutcome::BadStatus("503 Service Unavailable".to_string())),
        failure(ErrorKind::TransportFailure, "HTTP request returned status: 503 Service Unavailable")
    );
}
