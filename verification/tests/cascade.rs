use seiten::cascade::{first_pass, smart_fuzzy_match, CascadeStep, MatchPass, PassOutcome};
use seiten::corpus::{
    find_anime_id_by_exact_title, get_all_titles, get_english_titles, resolve, run_pass,
};
use seiten::fuzzy_match::{FuzzyMatchConfig, FuzzyMatchResult, TitleEntry, TitleType};
use seiten::score::SCORE_ONE;

fn entry(anime_id: i32, title: &str, title_type: TitleType, language: &str) -> TitleEntry {
    TitleEntry { anime_id, title: title.to_string(), title_type, language: language.to_string() }
}

fn corpus() -> Vec<TitleEntry> {
    vec![
        entry(1, "ワンピース", TitleType::Official, "ja"),
        entry(1, "One Piece", TitleType::Official, "en"),
        entry(2, "Naruto", TitleType::Primary, "x-jat"),
        entry(3, "bleach", TitleType::Primary, "x-jat"),
        entry(4, "detektiv conan", TitleType::Synonym, "de"),
    ]
}

#[test]
fn cascade_starts_with_the_exact_pass() {
    assert_eq!(first_pass(), MatchPass::Exact);
}

#[test]
fn exact_hit_ends_the_cascade() {
    let config = FuzzyMatchConfig { threshold: SCORE_ONE, top_n: 0, prioritize_official: false };
    let step = smart_fuzzy_match("ONE PIECE", MatchPass::Exact, &PassOutcome::ExactHit(69), &config);
    assert_eq!(
        step,
        CascadeStep::Done(Some(FuzzyMatchResult {
            anime_id: 69,
            matched_title: "ONE PIECE".to_string(),
            score: SCORE_ONE,
            title_type: TitleType::Primary,
            language: "en".to_string(),
        }))
    );
}

#[test]
fn exact_miss_asks_for_the_narrow_pass() {
    let config = FuzzyMatchConfig::default();
    for outcome in [PassOutcome::ExactMiss, PassOutcome::Unavailable, PassOutcome::Titles(corpus())] {
        assert_eq!(
            smart_fuzzy_match("x", MatchPass::Exact, &outcome, &config),
            CascadeStep::Ask(MatchPass::Narrow)
        );
    }
}

#[test]
fn narrow_pass_ends_on_a_match_and_goes_on_otherwise() {
    let config = FuzzyMatchConfig::default();
    let titles = PassOutcome::Titles(get_english_titles(&corpus()));
    match smart_fuzzy_match("bleach", MatchPass::Narrow, &titles, &config) {
        CascadeStep::Done(Some(found)) => {
            assert_eq!(found.anime_id, 3);
            assert_eq!(found.score, SCORE_ONE);
        }
        other => panic!("{other:?}"),
    }
    assert_eq!(
        smart_fuzzy_match("detektiv conan", MatchPass::Narrow, &titles, &config),
        CascadeStep::Ask(MatchPass::Full)
    );
    for outcome in [PassOutcome::Unavailable, PassOutcome::ExactMiss, PassOutcome::ExactHit(1)] {
        assert_eq!(
            smart_fuzzy_match("bleach", MatchPass::Narrow, &outcome, &config),
            CascadeStep::Ask(MatchPass::Full)
        );
    }
}

#[test]
fn full_pass_ends_the_cascade_either_way() {
    let config = FuzzyMatchConfig::default();
    let titles = PassOutcome::Titles(get_all_titles(&corpus()));
    match smart_fuzzy_match("detektiv conan", MatchPass::Full, &titles, &config) {
        CascadeStep::Done(Some(found)) => {
            assert_eq!(found.anime_id, 4);
            assert_eq!(found.score, SCORE_ONE);
            assert_eq!(found.title_type, TitleType::Synonym);
        }
        other => panic!("{other:?}"),
    }
    assert_eq!(
        smart_fuzzy_match("zzzzzzzz", MatchPass::Full, &titles, &config),
        CascadeStep::Done(None)
    );
    assert_eq!(
        smart_fuzzy_match("bleach", MatchPass::Full, &PassOutcome::Unavailable, &config),
        CascadeStep::Done(None)
    );
}

#[test]
fn corpus_lookups() {
    let corpus = corpus();
    assert_eq!(get_all_titles(&corpus), corpus);
    let narrow = get_english_titles(&corpus);
    assert_eq!(narrow.iter().map(|e| e.title.as_str()).collect::<Vec<_>>(), vec!["One Piece", "Naruto", "bleach"]);
    assert_eq!(find_anime_id_by_exact_title(&corpus, "ONE PIECE"), Some(1));
    assert_eq!(find_anime_id_by_exact_title(&corpus, "one piece"), Some(1));
    assert_eq!(find_anime_id_by_exact_title(&corpus, "BLEACH"), Some(3));
    assert_eq!(find_anime_id_by_exact_title(&corpus, "one piec"), None);
    assert_eq!(find_anime_id_by_exact_title(&[], "one piece"), None);
}

#[test]
fn exact_lookup_gives_the_first_entry() {
    let corpus = vec![
        entry(8, "Same", TitleType::Short, "en"),
        entry(9, "SAME", TitleType::Official, "en"),
    ];
    assert_eq!(find_anime_id_by_exact_title(&corpus, "same"), Some(8));
}

#[test]
fn run_pass_gives_what_each_pass_asks_for() {
    let corpus = corpus();
    assert_eq!(run_pass(&corpus, "naruto", MatchPass::Exact), PassOutcome::ExactHit(2));
    assert_eq!(run_pass(&corpus, "narut", MatchPass::Exact), PassOutcome::ExactMiss);
    assert_eq!(
        run_pass(&corpus, "naruto", MatchPass::Narrow),
        PassOutcome::Titles(get_english_titles(&corpus))
    );
    assert_eq!(run_pass(&corpus, "naruto", MatchPass::Full), PassOutcome::Titles(corpus.clone()));
}

#[test]
fn resolve_exact_hit_has_a_perfect_score() {
    let strict = FuzzyMatchConfig { threshold: SCORE_ONE, top_n: 0, prioritize_official: false };
    let found = resolve("ONE PIECE", &corpus(), &strict).unwrap();
    assert_eq!(found.anime_id, 1);
    assert_eq!(found.score, SCORE_ONE);
    assert_eq!(found.matched_title, "ONE PIECE");
    assert_eq!(found.title_type, TitleType::Primary);
    assert_eq!(found.language, "en");
}

#[test]
fn resolve_falls_through_the_passes() {
    let config = FuzzyMatchConfig::default();
    let narrow = resolve("Bleach (TV)", &corpus(), &config).unwrap();
    assert_eq!((narrow.anime_id, narrow.matched_title.as_str()), (3, "bleach"));
    let full = resolve("Detektiv Conan (TV)", &corpus(), &config).unwrap();
    assert_eq!((full.anime_id, full.language.as_str()), (4, "de"));
    assert_eq!(resolve("zzzzzzzzzz", &corpus(), &config), None);
    assert_eq!(resolve("anything", &[], &config), None);
}

#[test]
fn resolve_prefers_the_narrow_pass() {
    let corpus = vec![
        entry(1, "kimetsu", TitleType::Official, "fr"),
        entry(2, "kimetsu", TitleType::Short, "en"),
    ];
    let config = FuzzyMatchConfig { threshold: 0, top_n: 5, prioritize_official: true };
    let found = resolve("Kimetsu (TV)", &corpus, &config).unwrap();
    assert_eq!(found.anime_id, 2);
}
