use seiten::date::Date;
use seiten::episodes::{
    episode_from_row, episode_type_from, episodes_from_rows, parse_episodes_from_html,
};
use seiten::{EpisodeData, EpisodeType};

fn row(number: &str, title: &str, kind: &str, date: &str) -> String {
    format!(
        "<tr><td class=\"Number\">{number}</td><td class=\"Title\"><a href=\"#\">{title}</a></td>\
         <td class=\"Type\"><span>{kind}</span></td><td class=\"Date\">{date}</td></tr>"
    )
}

fn page(rows: &[String]) -> String {
    format!(
        "<html><body><table class=\"EpisodeList\"><thead><tr><th>#</th></tr></thead><tbody>{}</tbody></table></body></html>",
        rows.concat()
    )
}

fn cells(number: Option<&str>, title: Option<&str>, kind: Option<&str>, date: Option<&str>) -> Vec<Option<String>> {
    vec![
        number.map(str::to_string),
        title.map(str::to_string),
        kind.map(str::to_string),
        date.map(str::to_string),
    ]
}

fn episode(number: i32, absolute: i32, date: Date, kind: EpisodeType, title: &str) -> EpisodeData {
    EpisodeData::new(number, absolute, None, date, kind, title, None, None, None)
}

fn epoch() -> Date {
    Date { year: 1970, month: 1, day: 1 }
}

#[test]
fn extracts_one_episode_per_row() {
    let html = page(&[
        row("1", "I'm Luffy!", "Canon", "1999-10-20"),
        row(" 2 ", "  Enter the Great Swordsman!  ", "Anime Canon", "1999-11-17"),
        row("3", "Mixed one", "Mixed", "1999-11-24"),
        row("4", "Filler one", "Filler", "1999-12-08"),
    ]);
    assert_eq!(
        parse_episodes_from_html(&html),
        vec![
            episode(1, 1, Date { year: 1999, month: 10, day: 20 }, EpisodeType::Canon, "I'm Luffy!"),
            episode(
                2,
                2,
                Date { year: 1999, month: 11, day: 17 },
                EpisodeType::AnimeCanon,
                "Enter the Great Swordsman!"
            ),
            episode(3, 3, Date { year: 1999, month: 11, day: 24 }, EpisodeType::Mixed, "Mixed one"),
            episode(4, 4, Date { year: 1999, month: 12, day: 8 }, EpisodeType::Filler, "Filler one"),
        ]
    );
}

#[test]
fn malformed_cells_degrade_to_defaults() {
    let html = page(&[
        row("one", "A", "canon", "1999-13-01"),
        "<tr><td class=\"Other\">x</td></tr>".to_string(),
        row("", "", "", ""),
        row("7", "G", "Filler", "2001-02-29"),
    ]);
    assert_eq!(
        parse_episodes_from_html(&html),
        vec![
            episode(0, 1, epoch(), EpisodeType::Canon, "A"),
            episode(0, 2, epoch(), EpisodeType::Canon, "Untitled"),
            episode(0, 3, epoch(), EpisodeType::Canon, ""),
            episode(7, 4, epoch(), EpisodeType::Filler, "G"),
        ]
    );
}

#[test]
fn pages_without_the_table_have_no_episodes() {
    assert_eq!(parse_episodes_from_html(""), Vec::<EpisodeData>::new());
    assert_eq!(parse_episodes_from_html("<html><body><p>nothing</p></body></html>"), Vec::<EpisodeData>::new());
    let other = "<table class=\"Other\"><tbody><tr><td class=\"Number\">1</td></tr></tbody></table>";
    assert_eq!(parse_episodes_from_html(other), Vec::<EpisodeData>::new());
}

#[test]
fn first_cell_of_a_kind_counts() {
    let html = page(&[
        "<tr><td class=\"Number\">5</td><td class=\"Number\">6</td><td class=\"Title\">T</td></tr>".to_string(),
    ]);
    assert_eq!(parse_episodes_from_html(&html), vec![episode(5, 1, epoch(), EpisodeType::Canon, "T")]);
}

#[test]
fn episode_from_row_reads_the_cells() {
    let full = cells(Some(" 12 "), Some(" Title "), Some(" Mixed "), Some(" 2020-02-29 "));
    assert_eq!(
        episode_from_row(&full, 41),
        episode(12, 42, Date { year: 2020, month: 2, day: 29 }, EpisodeType::Mixed, "Title")
    );
    let none = cells(None, None, None, None);
    assert_eq!(episode_from_row(&none, 0), episode(0, 1, epoch(), EpisodeType::Canon, "Untitled"));
    let short: Vec<Option<String>> = vec![Some("3".to_string())];
    assert_eq!(episode_from_row(&short, 2), episode(3, 3, epoch(), EpisodeType::Canon, "Untitled"));
    let negative = cells(Some("-3"), Some("x"), Some("Canon"), Some("1970-01-02"));
    assert_eq!(
        episode_from_row(&negative, 9),
        episode(-3, 10, Date { year: 1970, month: 1, day: 2 }, EpisodeType::Canon, "x")
    );
}

#[test]
fn episodes_from_rows_counts_from_one() {
    let rows = vec![cells(Some("9"), None, None, None), cells(Some("x"), None, None, None)];
    let episodes = episodes_from_rows(&rows);
    assert_eq!(episodes.len(), 2);
    assert_eq!((episodes[0].ep_number, episodes[0].absolute_episode_number), (9, 1));
    assert_eq!((episodes[1].ep_number, episodes[1].absolute_episode_number), (0, 2));
    assert_eq!(episodes_from_rows(&[]), Vec::<EpisodeData>::new());
}

#[test]
fn episode_type_names_are_exact() {
    let kind = |text: &str| episode_type_from(&Some(text.chars().collect()));
    assert_eq!(kind("Canon"), EpisodeType::Canon);
    assert_eq!(kind("Filler"), EpisodeType::Filler);
    assert_eq!(kind("Mixed"), EpisodeType::Mixed);
    assert_eq!(kind("Anime Canon"), EpisodeType::AnimeCanon);
    assert_eq!(kind("filler"), EpisodeType::Canon);
    assert_eq!(kind("Filler "), EpisodeType::Canon);
    assert_eq!(kind("Mixed Canon/Filler"), EpisodeType::Canon);
    assert_eq!(kind(""), EpisodeType::Canon);
    assert_eq!(episode_type_from(&None), EpisodeType::Canon);
}

#[test]
fn dates_are_read_as_chrono_reads_them() {
    let samples = ["2002-10-03", "2002-1-3", "02-10-03", "2002/10/03", "2002-02-30", "", "2002-10-03x", "+2002-10-03"];
    for sample in samples {
        let expected = chrono::NaiveDate::parse_from_str(sample, "%Y-%m-%d").ok().map(|d| Date {
            year: chrono::Datelike::year(&d),
            month: chrono::Datelike::month(&d),
            day: chrono::Datelike::day(&d),
        });
        assert_eq!(Date::parse_iso(sample), expected, "{sample:?}");
    }
    assert_eq!(Date::parse_iso("2002-10-03"), Some(Date { year: 2002, month: 10, day: 3 }));
    assert_eq!(Date::parse_iso("2002-02-30"), None);
    assert_eq!(Date::unix_epoch(), epoch());
}
