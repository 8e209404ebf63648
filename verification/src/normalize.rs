//! Title normalisation: the canonical form under which titles are compared.

use crate::text::{
    chars_of, copy_range, is_left_of, is_numeric, is_numeric_char, lemma_deletion_left_of,
    lemma_left_of_chain, lemma_left_of_itself, lemma_take_left_of, lemma_trim_left_of,
    lemma_trim_twice, lowercase_of, replace_all, replace_all_of, same_chars, same_text,
    string_of, to_lowercase, trim, trim_of,
};
use vstd::prelude::*;

verus! {

/// The release markers that carry no part of a title, in the order in which
/// they are taken out: format tags, season markers, part markers and suffix
/// phrases. Each starts with a space.
pub open spec fn release_markers() -> Seq<Seq<char>> {
    seq![
        " (tv)"@,
        " (ova)"@,
        " (movie)"@,
        " (special)"@,
        " (ona)"@,
        " season 1"@,
        " season 2"@,
        " season 3"@,
        " season 4"@,
        " season 5"@,
        " 1st season"@,
        " 2nd season"@,
        " 3rd season"@,
        " 4th season"@,
        " 5th season"@,
        " first season"@,
        " second season"@,
        " third season"@,
        " fourth season"@,
        " part 1"@,
        " part 2"@,
        " part i"@,
        " part ii"@,
        " the animation"@,
        " the movie"@,
    ]
}

/// `text` after every occurrence of each marker has been deleted, one marker
/// after the other.
pub open spec fn without_markers(text: Seq<char>, markers: Seq<Seq<char>>) -> Seq<char>
    decreases markers.len(),
{
    if markers.len() == 0 {
        text
    } else {
        without_markers(replace_all_of(text, markers[0], Seq::empty()), markers.skip(1))
    }
}

/// The length of a year group: a space, an opening parenthesis, four
/// numeric characters and a closing parenthesis.
pub const YEAR_GROUP_LEN: usize = 7;

/// Whether `group` is a year group: `" ("`, four numeric characters, `")"`,
/// and nothing more.
pub open spec fn is_year_group(group: Seq<char>) -> bool {
    &&& group.len() == YEAR_GROUP_LEN
    &&& group[0] == ' '
    &&& group[1] == '('
    &&& is_numeric_char(group[2])
    &&& is_numeric_char(group[3])
    &&& is_numeric_char(group[4])
    &&& is_numeric_char(group[5])
    &&& group[6] == ')'
}

/// `text` without the year group that it ends in; a text that does not end
/// in a year group stays as it is.
pub open spec fn without_trailing_year(text: Seq<char>) -> Seq<char> {
    if text.len() >= YEAR_GROUP_LEN && is_year_group(text.skip(text.len() - YEAR_GROUP_LEN)) {
        text.take(text.len() - YEAR_GROUP_LEN)
    } else {
        text
    }
}

/// The canonical form of a text that is already in lower case: markers
/// deleted, a trailing year group cut, white space trimmed at both ends.
pub open spec fn normalized_lowercase(lowered: Seq<char>) -> Seq<char> {
    trim_of(without_trailing_year(without_markers(lowered, release_markers())))
}

/// The canonical form of a title.
pub open spec fn normalized(title: Seq<char>) -> Seq<char> {
    normalized_lowercase(lowercase_of(title))
}

/// The release markers, in the order in which they are taken out.
fn marker_list() -> (markers: Vec<&'static str>)
    ensures
        markers.deep_view() == release_markers(),
{
    let markers: Vec<&'static str> = vec![
        " (tv)",
        " (ova)",
        " (movie)",
        " (special)",
        " (ona)",
        " season 1",
        " season 2",
        " season 3",
        " season 4",
        " season 5",
        " 1st season",
        " 2nd season",
        " 3rd season",
        " 4th season",
        " 5th season",
        " first season",
        " second season",
        " third season",
        " fourth season",
        " part 1",
        " part 2",
        " part i",
        " part ii",
        " the animation",
        " the movie",
    ];
    assert(markers.deep_view() =~= release_markers());
    markers
}

/// Deletes every release marker from `text`.
pub fn strip_markers(text: &[char]) -> (out: Vec<char>)
    ensures
        out@ == without_markers(text@, release_markers()),
{
    let markers = marker_list();
    let empty: Vec<char> = Vec::new();
    let mut out: Vec<char> = copy_range(text, 0, text.len());
    let mut k: usize = 0;
    assert(text@.subrange(0, text@.len() as int) == text@);
    assert(release_markers().skip(0) == release_markers());
    while k < markers.len()
        invariant
            k <= markers@.len(),
            markers.deep_view() == release_markers(),
            empty@ == Seq::<char>::empty(),
            without_markers(out@, release_markers().skip(k as int)) == without_markers(
                text@,
                release_markers(),
            ),
        decreases markers@.len() - k,
    {
        let marker = chars_of(markers[k]);
        assert(marker@ == release_markers()[k as int]) by {
            assert(markers.deep_view()[k as int] == markers@[k as int]@);
        }
        assert(release_markers().skip(k as int).skip(1) == release_markers().skip(k + 1));
        out = replace_all(out.as_slice(), marker.as_slice(), empty.as_slice());
        k += 1;
    }
    out
}

/// Cuts the year group that `text` ends in, if it ends in one.
pub fn strip_trailing_year(text: &[char]) -> (out: Vec<char>)
    ensures
        out@ == without_trailing_year(text@),
{
    let n: usize = text.len();
    assert(text@.subrange(0, n as int) == text@);
    if n < YEAR_GROUP_LEN {
        return copy_range(text, 0, n);
    }
    let at: usize = n - YEAR_GROUP_LEN;
    let ghost group = text@.skip(at as int);
    assert(forall|i: int| 0 <= i < YEAR_GROUP_LEN ==> group[i] == text@[at + i]);
    let ends_in_year: bool = text[at] == ' ' && text[at + 1] == '(' && is_numeric(text[at + 2])
        && is_numeric(text[at + 3]) && is_numeric(text[at + 4]) && is_numeric(text[at + 5])
        && text[at + 6] == ')';
    if ends_in_year {
        copy_range(text, 0, at)
    } else {
        copy_range(text, 0, n)
    }
}

/// Normalises a text that is already in lower case.
pub fn normalize_lowercase(lowered: &str) -> (normal: String)
    ensures
        normal@ == normalized_lowercase(lowered@),
{
    let chars = chars_of(lowered);
    let stripped = strip_markers(chars.as_slice());
    let cut = strip_trailing_year(stripped.as_slice());
    let trimmed = trim(cut.as_slice());
    string_of(trimmed.as_slice())
}

/// Normalises a title for comparison: lower case, release markers deleted, a
/// trailing year group cut, white space trimmed at both ends.
pub fn normalize_title(title: &str) -> (normal: String)
    ensures
        normal@ == normalized(title@),
{
    let lowered = to_lowercase(title);
    normalize_lowercase(lowered.as_str())
}

/// Titles that agree in lower case have the same canonical form.
pub proof fn lemma_normalized_ignores_case(a: Seq<char>, b: Seq<char>)
    requires
        lowercase_of(a) == lowercase_of(b),
    ensures
        normalized(a) == normalized(b),
{
}

/// Whether the steps of the normalisation that come before the trimming
/// leave a text as it is: it is its own lower-case form, it holds no release
/// marker, and it does not end in a year group.
pub open spec fn is_settled(text: Seq<char>) -> bool {
    &&& lowercase_of(text) == text
    &&& without_markers(text, release_markers()) == text
    &&& without_trailing_year(text) == text
}

/// Says whether a text is settled.
pub fn is_settled_text(text: &str) -> (settled: bool)
    ensures
        settled == is_settled(text@),
{
    let lowered = to_lowercase(text);
    if !same_text(lowered.as_str(), text) {
        return false;
    }
    let chars = chars_of(text);
    let stripped = strip_markers(chars.as_slice());
    if !same_chars(stripped.as_slice(), chars.as_slice()) {
        return false;
    }
    let cut = strip_trailing_year(chars.as_slice());
    same_chars(cut.as_slice(), chars.as_slice())
}

/// The canonical form of a title neither starts nor ends with white space:
/// trimming it changes nothing.
pub proof fn lemma_normalized_is_trimmed(title: Seq<char>)
    ensures
        trim_of(normalized(title)) == normalized(title),
{
    lemma_trim_twice(without_trailing_year(without_markers(lowercase_of(title), release_markers())));
}

/// Deleting markers only deletes: what is left stands in the text, in the
/// same order.
pub proof fn lemma_markers_only_delete(text: Seq<char>, markers: Seq<Seq<char>>)
    ensures
        is_left_of(without_markers(text, markers), text),
    decreases markers.len(),
{
    if markers.len() == 0 {
        lemma_left_of_itself(text);
    } else {
        let after = replace_all_of(text, markers[0], Seq::empty());
        lemma_deletion_left_of(text, markers[0]);
        lemma_markers_only_delete(after, markers.skip(1));
        lemma_left_of_chain(without_markers(text, markers), after, text);
    }
}

/// Past the lower-casing the normalisation only deletes: the canonical form
/// of a title is what is left of its lower-case form once some characters
/// are deleted. Nothing is added, replaced or moved.
pub proof fn lemma_normalized_only_deletes(title: Seq<char>)
    ensures
        is_left_of(normalized(title), lowercase_of(title)),
{
    let lowered = lowercase_of(title);
    let stripped = without_markers(lowered, release_markers());
    let cut = without_trailing_year(stripped);
    lemma_markers_only_delete(lowered, release_markers());
    if cut != stripped {
        lemma_take_left_of(stripped, stripped.len() - YEAR_GROUP_LEN);
    } else {
        lemma_left_of_itself(stripped);
    }
    lemma_trim_left_of(cut);
    lemma_left_of_chain(cut, stripped, lowered);
    lemma_left_of_chain(trim_of(cut), cut, lowered);
}

/// Normalising twice gives what normalising once gives, wherever the
/// canonical form is settled. It is not where the deletion of one marker
/// brings another about: `"a (t (tv)v)"` becomes `"a (tv)"`, and that
/// becomes `"a"`.
pub proof fn lemma_normalized_twice(title: Seq<char>)
    requires
        is_settled(normalized(title)),
    ensures
        normalized(normalized(title)) == normalized(title),
{
    lemma_normalized_is_trimmed(title);
}

} // verus!
