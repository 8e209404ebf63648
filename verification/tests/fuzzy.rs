use seiten::fuzzy_match::{
    adjust_score, find_entry, fuzzy_match_title, select_best_match, title_type_boost,
    FuzzyMatchConfig, FuzzyMatchResult, TitleEntry, TitleType,
};
use seiten::score::SCORE_ONE;

fn entry(anime_id: i32, title: &str, title_type: TitleType, language: &str) -> TitleEntry {
    TitleEntry { anime_id, title: title.to_string(), title_type, language: language.to_string() }
}

fn config(threshold: u32, prioritize_official: bool) -> FuzzyMatchConfig {
    FuzzyMatchConfig { threshold, top_n: 5, prioritize_official }
}

fn candidate(title: &str, score: f32) -> (String, u32) {
    (title.to_string(), score.to_bits())
}

#[test]
fn test_title_type_boost() {
    assert!(title_type_boost(&TitleType::Official) > title_type_boost(&TitleType::Primary));
    assert!(title_type_boost(&TitleType::Primary) > title_type_boost(&TitleType::Synonym));
    assert!(title_type_boost(&TitleType::Synonym) > title_type_boost(&TitleType::Short));
}

#[test]
fn boost_values() {
    assert_eq!(title_type_boost(&TitleType::Official), 50_000);
    assert_eq!(title_type_boost(&TitleType::Primary), 30_000);
    assert_eq!(title_type_boost(&TitleType::Synonym), 10_000);
    assert_eq!(title_type_boost(&TitleType::Short), 0);
}

#[test]
fn default_config() {
    let config = FuzzyMatchConfig::default();
    assert_eq!(config.threshold, 750_000);
    assert_eq!(config.top_n, 5);
    assert!(config.prioritize_official);
}

#[test]
fn adjusted_score_adds_the_boost_up_to_one() {
    assert_eq!(adjust_score(700_000, &TitleType::Official, true), 750_000);
    assert_eq!(adjust_score(700_000, &TitleType::Primary, true), 730_000);
    assert_eq!(adjust_score(700_000, &TitleType::Synonym, true), 710_000);
    assert_eq!(adjust_score(700_000, &TitleType::Short, true), 700_000);
    assert_eq!(adjust_score(980_000, &TitleType::Official, true), SCORE_ONE);
    assert_eq!(adjust_score(950_000, &TitleType::Official, true), SCORE_ONE);
    assert_eq!(adjust_score(949_999, &TitleType::Official, true), 999_999);
    assert_eq!(adjust_score(SCORE_ONE, &TitleType::Short, true), SCORE_ONE);
    assert_eq!(adjust_score(u32::MAX, &TitleType::Official, true), SCORE_ONE);
    assert_eq!(adjust_score(0, &TitleType::Official, true), 50_000);
}

#[test]
fn boost_monotonicity() {
    let raw: u32 = 600_000;
    let official = adjust_score(raw, &TitleType::Official, true);
    let primary = adjust_score(raw, &TitleType::Primary, true);
    let synonym = adjust_score(raw, &TitleType::Synonym, true);
    let short = adjust_score(raw, &TitleType::Short, true);
    assert!(official > primary && primary > synonym && synonym > short);
    for kind in [TitleType::Official, TitleType::Primary, TitleType::Synonym, TitleType::Short] {
        assert_eq!(adjust_score(raw, &kind, false), raw);
    }
}

#[test]
fn boost_order_is_not_strict_at_the_top() {
    let raw: u32 = 990_000;
    assert_eq!(adjust_score(raw, &TitleType::Official, true), SCORE_ONE);
    assert_eq!(adjust_score(raw, &TitleType::Primary, true), SCORE_ONE);
    assert_eq!(adjust_score(raw, &TitleType::Synonym, true), SCORE_ONE);
    assert_eq!(adjust_score(raw, &TitleType::Short, true), 990_000);
}

#[test]
fn threshold_boundary() {
    let titles = vec![entry(7, "t", TitleType::Official, "en")];
    let candidates = vec![candidate("t", 0.7f32)];
    let accepted = select_best_match(&candidates, &titles, &config(750_000, true));
    assert_eq!(
        accepted,
        Some(FuzzyMatchResult {
            anime_id: 7,
            matched_title: "t".to_string(),
            score: 750_000,
            title_type: TitleType::Official,
            language: "en".to_string(),
        })
    );
    assert_eq!(select_best_match(&candidates, &titles, &config(750_001, true)), None);
    assert_eq!(select_best_match(&candidates, &titles, &config(750_000, false)), None);
    let at_threshold = select_best_match(&candidates, &titles, &config(700_000, false));
    assert_eq!(at_threshold.map(|found| found.score), Some(700_000));
}

#[test]
fn best_match_is_the_first_with_the_highest_score() {
    let titles = vec![
        entry(1, "a", TitleType::Short, "en"),
        entry(2, "b", TitleType::Short, "en"),
        entry(3, "c", TitleType::Short, "en"),
    ];
    let candidates = vec![candidate("a", 0.8f32), candidate("b", 0.9f32), candidate("c", 0.9f32)];
    let found = select_best_match(&candidates, &titles, &config(750_000, true)).unwrap();
    assert_eq!(found.anime_id, 2);
    assert_eq!(found.score, 900_000);
}

#[test]
fn boost_decides_between_equal_raw_scores() {
    let titles = vec![
        entry(1, "a", TitleType::Synonym, "en"),
        entry(2, "b", TitleType::Official, "ja"),
    ];
    let candidates = vec![candidate("a", 0.8f32), candidate("b", 0.8f32)];
    let boosted = select_best_match(&candidates, &titles, &config(750_000, true)).unwrap();
    assert_eq!(boosted.anime_id, 2);
    assert_eq!(boosted.score, 850_000);
    assert_eq!(boosted.language, "ja");
    let plain = select_best_match(&candidates, &titles, &config(750_000, false)).unwrap();
    assert_eq!(plain.anime_id, 1);
    assert_eq!(plain.score, 800_000);
}

#[test]
fn candidate_stands_for_its_own_entry() {
    let titles = vec![
        entry(1, "same", TitleType::Short, "en"),
        entry(3, "other", TitleType::Primary, "en"),
        entry(2, "same", TitleType::Official, "ja"),
    ];
    let one = vec![candidate("same", 0.9f32)];
    let found = select_best_match(&one, &titles, &config(0, true)).unwrap();
    assert_eq!(found.anime_id, 1);
    assert_eq!(found.title_type, TitleType::Short);
    assert_eq!(found.score, 900_000);

    let both = vec![candidate("same", 0.9f32), candidate("same", 0.9f32)];
    let found = select_best_match(&both, &titles, &config(0, true)).unwrap();
    assert_eq!(found.anime_id, 2);
    assert_eq!(found.title_type, TitleType::Official);
    assert_eq!(found.language, "ja");
    assert_eq!(found.score, 950_000);

    let plain = select_best_match(&both, &titles, &config(0, false)).unwrap();
    assert_eq!(plain.anime_id, 1);
    assert_eq!(plain.score, 900_000);

    let more = vec![candidate("same", 0.9f32), candidate("same", 0.9f32), candidate("same", 1.0f32)];
    let found = select_best_match(&more, &titles, &config(0, true)).unwrap();
    assert_eq!(found.anime_id, 2);

    assert_eq!(find_entry(&titles, &"same".to_string(), 0), Some(0));
    assert_eq!(find_entry(&titles, &"same".to_string(), 1), Some(2));
    assert_eq!(find_entry(&titles, &"same".to_string(), 2), None);
    assert_eq!(find_entry(&titles, &"other".to_string(), 0), Some(1));
    assert_eq!(find_entry(&titles, &"none".to_string(), 0), None);
}

#[test]
fn fuzzy_match_scores_each_entry_by_its_own_kind() {
    let titles = vec![
        entry(1, "one piece", TitleType::Short, "en"),
        entry(2, "one piece", TitleType::Official, "ja"),
    ];
    let found = fuzzy_match_title("One Piec", &titles, &config(750_000, true)).unwrap();
    assert_eq!(found.anime_id, 2);
    assert_eq!(found.title_type, TitleType::Official);
    let raw = fuzzy_match_title("One Piec", &titles, &config(750_000, false)).unwrap();
    assert_eq!(raw.anime_id, 1);
    assert_eq!(found.score, raw.score + 50_000);
}

#[test]
fn candidate_without_entry_counts_for_nothing() {
    let titles = vec![entry(1, "a", TitleType::Short, "en")];
    let candidates = vec![candidate("zzz", 1.0f32), candidate("a", 0.8f32)];
    let found = select_best_match(&candidates, &titles, &config(750_000, true)).unwrap();
    assert_eq!(found.anime_id, 1);
    assert_eq!(select_best_match(&[candidate("zzz", 1.0f32)], &titles, &config(0, true)), None);
}

#[test]
fn zero_threshold_accepts_a_zero_score() {
    let titles = vec![entry(1, "a", TitleType::Short, "en")];
    let found = select_best_match(&[candidate("a", 0.0f32)], &titles, &config(0, true));
    assert_eq!(found.map(|f| (f.anime_id, f.score)), Some((1, 0)));
}

#[test]
fn no_candidates_no_match() {
    let titles = vec![entry(1, "a", TitleType::Short, "en")];
    assert_eq!(select_best_match(&[], &titles, &config(0, true)), None);
}

#[test]
fn fuzzy_match_on_an_empty_corpus() {
    assert_eq!(fuzzy_match_title("naruto", &[], &FuzzyMatchConfig::default()), None);
}

#[test]
fn fuzzy_match_finds_the_same_title() {
    let titles = vec![
        entry(10, "bleach", TitleType::Primary, "x-jat"),
        entry(20, "naruto", TitleType::Primary, "x-jat"),
        entry(30, "one piece", TitleType::Official, "en"),
    ];
    let found = fuzzy_match_title("Naruto (TV)", &titles, &FuzzyMatchConfig::default()).unwrap();
    assert_eq!(
        found,
        FuzzyMatchResult {
            anime_id: 20,
            matched_title: "naruto".to_string(),
            score: SCORE_ONE,
            title_type: TitleType::Primary,
            language: "x-jat".to_string(),
        }
    );
}

#[test]
fn fuzzy_match_scores_against_the_titles_as_they_stand() {
    let titles = vec![entry(20, "Naruto", TitleType::Short, "en")];
    let query = "naruto";
    let raw = rust_fuzzy_search::fuzzy_compare(query, "Naruto");
    assert_eq!(raw, 4.0f32 / 7.0f32);
    let strict = fuzzy_match_title(query, &titles, &config(571_429, false));
    assert_eq!(strict.map(|f| f.score), Some(571_429));
    assert_eq!(fuzzy_match_title(query, &titles, &config(571_430, false)), None);
}

#[test]
fn fuzzy_match_exact_partial_score() {
    let titles = vec![entry(5, "abd", TitleType::Official, "en")];
    let found = fuzzy_match_title("abc", &titles, &config(500_000, true)).unwrap();
    assert_eq!(found.score, 550_000);
    assert_eq!(fuzzy_match_title("abc", &titles, &config(550_001, true)), None);
    let plain = fuzzy_match_title("abc", &titles, &config(500_000, false)).unwrap();
    assert_eq!(plain.score, 500_000);
}

#[test]
fn fuzzy_match_looks_at_the_best_candidates_only() {
    let titles = vec![
        entry(1, "abcdef", TitleType::Short, "en"),
        entry(2, "abcdeX", TitleType::Official, "en"),
    ];
    let one = FuzzyMatchConfig { threshold: 0, top_n: 1, prioritize_official: true };
    let found = fuzzy_match_title("abcdef", &titles, &one).unwrap();
    assert_eq!(found.anime_id, 1);
    assert_eq!(found.score, SCORE_ONE);
    let none = FuzzyMatchConfig { threshold: 0, top_n: 0, prioritize_official: true };
    assert_eq!(fuzzy_match_title("abcdef", &titles, &none), None);
}

#[test]
fn fuzzy_match_rejects_below_the_threshold() {
    let titles = vec![entry(1, "completely different", TitleType::Official, "en")];
    assert_eq!(fuzzy_match_title("naruto", &titles, &FuzzyMatchConfig::default()), None);
}
