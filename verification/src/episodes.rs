//! The episode list of a series page: one episode for each row of the
//! episode table.

use crate::date::{date_or_epoch, Date};
use crate::text::{chars_of, parse_i32, parse_i32_of, string_of, trim, trim_of};
use crate::types::{EpisodeData, EpisodeModel, EpisodeType};
use vstd::prelude::*;

verus! {

/// The texts of the cells of one table row, one for each cell that was asked
/// for; `None` where the row has no such cell.
pub type RowCells = Vec<Option<String>>;

/// The cell texts that `scraper` selects from an HTML document: for each
/// element that matches the CSS selector `rows`, in the order in which
/// `Html::select` hands the elements out (that in which the parser put the
/// nodes into its tree), and for each selector of `cells`, the text inside
/// the first element that `ElementRef::select` hands out for it below that
/// row. `None` on the outside where one of the selectors is not valid CSS.
/// The name stands for these calls as the wrapper below composes them.
pub uninterp spec fn selected_cells(
    document: Seq<char>,
    rows: Seq<char>,
    cells: Seq<Seq<char>>,
) -> Option<Seq<Seq<Option<Seq<char>>>>>;

/// Parses the document with `scraper::Html::parse_document`, compiles the
/// selectors with `scraper::Selector::parse`, and collects the text
/// (`ElementRef::text`) of the first match of each cell selector within each
/// matching row (`select`). The result is only named.
#[verifier::external_body]
pub(crate) fn select_cells(document: &str, rows: &str, cells: &[&str]) -> (texts: Option<
    Vec<RowCells>,
>)
    ensures
        texts.deep_view() == selected_cells(document@, rows@, cells.deep_view()),
{
    let rows = scraper::Selector::parse(rows).ok()?;
    let cells = cells.iter().map(|c| scraper::Selector::parse(c).ok()).collect::<Option<Vec<_>>>()?;
    let dom = scraper::Html::parse_document(document);
    Some(dom.select(&rows).map(|row| {
        cells.iter().map(|c| row.select(c).next().map(|cell| cell.text().collect())).collect()
    }).collect())
}

/// The selector of the rows of the episode table.
pub open spec fn row_selector() -> Seq<char> {
    "table.EpisodeList tbody tr"@
}

/// The selectors of the four cells of a row: number, title, type and date.
pub open spec fn cell_selectors() -> Seq<Seq<char>> {
    seq!["td.Number"@, "td.Title"@, "td.Type"@, "td.Date"@]
}

/// The title of an episode whose row has no title cell.
pub open spec fn untitled() -> Seq<char> {
    "Untitled"@
}

/// The trimmed text of cell `i` of a row, if the row has that cell.
pub open spec fn cell_text(row: Seq<Option<Seq<char>>>, i: int) -> Option<Seq<char>> {
    if 0 <= i < row.len() {
        match row[i] {
            Some(text) => Some(trim_of(text)),
            None => None,
        }
    } else {
        None
    }
}

/// The kind that the text of a type cell stands for. Anything but the four
/// known names, and a missing cell, stand for Canon.
pub open spec fn episode_type_of(text: Option<Seq<char>>) -> EpisodeType {
    match text {
        Some(t) => if t == "Filler"@ {
            EpisodeType::Filler
        } else if t == "Mixed"@ {
            EpisodeType::Mixed
        } else if t == "Anime Canon"@ {
            EpisodeType::AnimeCanon
        } else {
            EpisodeType::Canon
        },
        None => EpisodeType::Canon,
    }
}

/// The number that the text of a number cell stands for: zero where the cell
/// is missing or does not hold an `i32`.
pub open spec fn episode_number_of(text: Option<Seq<char>>) -> i32 {
    match text {
        Some(t) => match parse_i32_of(t) {
            Some(n) => n,
            None => 0,
        },
        None => 0,
    }
}

/// The episode that row `index` of the table (counted from zero) stands for.
/// Its absolute number is the row's position counted from one, whatever the
/// number cell holds.
pub open spec fn episode_of_row(row: Seq<Option<Seq<char>>>, index: int) -> EpisodeModel {
    EpisodeModel {
        ep_number: episode_number_of(cell_text(row, 0)),
        absolute_episode_number: (index + 1) as i32,
        jap_release: None,
        eng_release: date_or_epoch(cell_text(row, 3)),
        episode_type: episode_type_of(cell_text(row, 2)),
        eng_title: match cell_text(row, 1) {
            Some(title) => title,
            None => untitled(),
        },
        jap_title: None,
        duration: None,
        manga_chapters: None,
    }
}

/// The episodes that the rows of a table stand for, in order.
pub open spec fn episodes_of_rows(rows: Seq<Seq<Option<Seq<char>>>>) -> Seq<EpisodeModel> {
    Seq::new(rows.len(), |i: int| episode_of_row(rows[i], i))
}

/// The greatest number of rows that can be counted.
pub const MAX_ROWS: usize = 0x7FFF_FFFF;

/// The episodes of a page: none where a selector is refused; otherwise one
/// for each of the first `MAX_ROWS` rows of the episode table.
pub open spec fn episodes_of_page(document: Seq<char>) -> Seq<EpisodeModel> {
    match selected_cells(document, row_selector(), cell_selectors()) {
        Some(rows) => if rows.len() <= MAX_ROWS {
            episodes_of_rows(rows)
        } else {
            episodes_of_rows(rows.take(MAX_ROWS as int))
        },
        None => Seq::empty(),
    }
}

/// The trimmed characters of cell `i` of a row.
fn trimmed_cell(row: &RowCells, i: usize) -> (text: Option<Vec<char>>)
    ensures
        match text {
            Some(t) => cell_text(row.deep_view(), i as int) == Some(t@),
            None => cell_text(row.deep_view(), i as int) is None,
        },
{
    if i < row.len() {
        match &row[i] {
            Some(text) => {
                let chars = chars_of(text.as_str());
                Some(trim(chars.as_slice()))
            },
            None => None,
        }
    } else {
        None
    }
}

/// Whether `text` is exactly `word`.
fn is_word(text: &[char], word: &str) -> (same: bool)
    ensures
        same == (text@ == word@),
{
    let letters = chars_of(word);
    if text.len() != letters.len() {
        return false;
    }
    let same = crate::text::matches_at(text, 0, letters.as_slice());
    assert(text@.subrange(0, text@.len() as int) == text@);
    same
}

/// Reads the kind of an episode from the text of its type cell.
pub fn episode_type_from(text: &Option<Vec<char>>) -> (kind: EpisodeType)
    ensures
        kind == episode_type_of(
            match text {
                Some(t) => Some(t@),
                None => None,
            },
        ),
{
    match text {
        Some(t) => {
            if is_word(t.as_slice(), "Filler") {
                EpisodeType::Filler
            } else if is_word(t.as_slice(), "Mixed") {
                EpisodeType::Mixed
            } else if is_word(t.as_slice(), "Anime Canon") {
                EpisodeType::AnimeCanon
            } else {
                EpisodeType::Canon
            }
        },
        None => EpisodeType::Canon,
    }
}

/// Builds the episode that a row stands for. A malformed cell degrades to
/// its default: number zero, the epoch as date, Canon as kind, a placeholder
/// as title.
pub fn episode_from_row(row: &RowCells, index: usize) -> (episode: EpisodeData)
    requires
        index < MAX_ROWS,
    ensures
        episode.deep_view() == episode_of_row(row.deep_view(), index as int),
{
    let number = trimmed_cell(row, 0);
    let title = trimmed_cell(row, 1);
    let kind = trimmed_cell(row, 2);
    let date = trimmed_cell(row, 3);
    let ep_number: i32 = match &number {
        Some(t) => match parse_i32(t.as_slice()) {
            Some(n) => n,
            None => 0,
        },
        None => 0,
    };
    let eng_release: Date = match &date {
        Some(t) => {
            let written = string_of(t.as_slice());
            match Date::parse_iso(written.as_str()) {
                Some(d) => d,
                None => Date::unix_epoch(),
            }
        },
        None => Date::unix_epoch(),
    };
    let episode_type = episode_type_from(&kind);
    let eng_title: String = match &title {
        Some(t) => string_of(t.as_slice()),
        None => "Untitled".to_owned(),
    };
    EpisodeData {
        ep_number,
        absolute_episode_number: (index + 1) as i32,
        jap_release: None,
        eng_release,
        episode_type,
        eng_title,
        jap_title: None,
        duration: None,
        manga_chapters: None,
    }
}

/// Builds the episodes that the rows of a table stand for.
pub fn episodes_from_rows(rows: &[RowCells]) -> (episodes: Vec<EpisodeData>)
    requires
        rows@.len() <= MAX_ROWS,
    ensures
        episodes.deep_view() == episodes_of_rows(rows.deep_view()),
{
    let mut episodes: Vec<EpisodeData> = Vec::new();
    let mut i: usize = 0;
    while i < rows.len()
        invariant
            i <= rows@.len() <= MAX_ROWS,
            episodes@.len() == i,
            forall|j: int|
                0 <= j < i ==> episodes@[j].deep_view() == episode_of_row(
                    rows.deep_view()[j],
                    j,
                ),
        decreases rows@.len() - i,
    {
        let episode = episode_from_row(&rows[i], i);
        assert(rows.deep_view()[i as int] == rows@[i as int].deep_view());
        episodes.push(episode);
        i += 1;
    }
    assert(episodes.deep_view() =~= episodes_of_rows(rows.deep_view()));
    episodes
}

/// Extracts the episodes from the HTML of a series page: one for each row of
/// the episode table, in order. No row makes the extraction fail.
pub fn parse_episodes_from_html(body: &str) -> (episodes: Vec<EpisodeData>)
    ensures
        episodes.deep_view() == episodes_of_page(body@),
{
    let cells: Vec<&str> = vec!["td.Number", "td.Title", "td.Type", "td.Date"];
    let cell_list = cells.as_slice();
    assert(cell_list.deep_view() =~= cell_selectors());
    match select_cells(body, "table.EpisodeList tbody tr", cell_list) {
        Some(rows) => {
            if rows.len() <= MAX_ROWS {
                episodes_from_rows(rows.as_slice())
            } else {
                let counted = vstd::slice::slice_subrange(rows.as_slice(), 0, MAX_ROWS);
                assert(counted.deep_view() =~= rows.deep_view().take(MAX_ROWS as int));
                episodes_from_rows(counted)
            }
        },
        None => Vec::new(),
    }
}

} // verus!
