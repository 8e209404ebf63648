//! Character-level text helpers shared by the rest of the crate.
//!
//! Strings are handled through their view, a `Seq<char>`; the executable
//! functions work on slices of `char`.

use vstd::prelude::*;

verus! {

/// Lower-case form of a text under the Unicode rules that `str::to_lowercase`
/// applies. The mapping depends on the text as a whole (the length may change).
pub uninterp spec fn lowercase_of(text: Seq<char>) -> Seq<char>;

/// Upper-case form of a text under the Unicode rules that `str::to_uppercase`
/// applies.
pub uninterp spec fn uppercase_of(text: Seq<char>) -> Seq<char>;

/// Whether a character is in one of the Unicode number categories, as
/// `char::is_numeric` reports it.
pub uninterp spec fn is_numeric_char(c: char) -> bool;

/// Calls `str::to_lowercase`. The result is only named: it is the lower-case
/// form that std computes for this text.
#[verifier::external_body]
pub(crate) fn to_lowercase(text: &str) -> (lowered: String)
    ensures
        lowered@ == lowercase_of(text@),
{
    text.to_lowercase()
}

/// Calls `str::to_uppercase`. The result is only named: it is the upper-case
/// form that std computes for this text.
#[verifier::external_body]
pub(crate) fn to_uppercase(text: &str) -> (raised: String)
    ensures
        raised@ == uppercase_of(text@),
{
    text.to_uppercase()
}

/// Calls `char::is_numeric`. The result is only named.
#[verifier::external_body]
pub(crate) fn is_numeric(c: char) -> (numeric: bool)
    ensures
        numeric == is_numeric_char(c),
{
    c.is_numeric()
}

/// Collects characters into a `String` with `String::from_iter`: the string
/// holds exactly the given characters, in order.
#[verifier::external_body]
pub(crate) fn string_of(chars: &[char]) -> (s: String)
    ensures
        s@ == chars@,
{
    String::from_iter(chars.iter())
}

/// The characters of `s`, in order.
pub fn chars_of(s: &str) -> (v: Vec<char>)
    ensures
        v@ == s@,
{
    let mut v: Vec<char> = Vec::new();
    for c in it: s.chars()
        invariant
            it.seq() == s@,
            v@ == it.seq().take(it.index() as int),
    {
        v.push(c);
    }
    v
}

/// The code points with the Unicode property White_Space.
pub open spec fn is_whitespace_char(c: char) -> bool {
    let n = c as u32;
    ||| 0x09 <= n <= 0x0D
    ||| n == 0x20
    ||| n == 0x85
    ||| n == 0xA0
    ||| n == 0x1680
    ||| 0x2000 <= n <= 0x200A
    ||| n == 0x2028
    ||| n == 0x2029
    ||| n == 0x202F
    ||| n == 0x205F
    ||| n == 0x3000
}

/// Whether `c` is white space.
pub fn is_whitespace(c: char) -> (b: bool)
    ensures
        b == is_whitespace_char(c),
{
    let n: u32 = c as u32;
    (0x09 <= n && n <= 0x0D) || n == 0x20 || n == 0x85 || n == 0xA0 || n == 0x1680 || (0x2000 <= n
        && n <= 0x200A) || n == 0x2028 || n == 0x2029 || n == 0x202F || n == 0x205F || n == 0x3000
}

/// `text` without its leading white space.
pub open spec fn trim_start_of(text: Seq<char>) -> Seq<char>
    decreases text.len(),
{
    if text.len() > 0 && is_whitespace_char(text[0]) {
        trim_start_of(text.skip(1))
    } else {
        text
    }
}

/// `text` without its trailing white space.
pub open spec fn trim_end_of(text: Seq<char>) -> Seq<char>
    decreases text.len(),
{
    if text.len() > 0 && is_whitespace_char(text.last()) {
        trim_end_of(text.drop_last())
    } else {
        text
    }
}

/// `text` without leading and trailing white space.
pub open spec fn trim_of(text: Seq<char>) -> Seq<char> {
    trim_end_of(trim_start_of(text))
}

/// What is left after leading white space is gone does not start with
/// white space.
pub proof fn lemma_trim_start_settled(text: Seq<char>)
    ensures
        trim_start_of(text).len() == 0 || !is_whitespace_char(trim_start_of(text)[0]),
    decreases text.len(),
{
    if text.len() > 0 && is_whitespace_char(text[0]) {
        lemma_trim_start_settled(text.skip(1));
    }
}

/// What is left after trailing white space is gone is the beginning of the
/// text, and does not end in white space.
pub proof fn lemma_trim_end_settled(text: Seq<char>)
    ensures
        trim_end_of(text).len() <= text.len(),
        trim_end_of(text) == text.take(trim_end_of(text).len() as int),
        trim_end_of(text).len() == 0 || !is_whitespace_char(trim_end_of(text).last()),
    decreases text.len(),
{
    if text.len() > 0 && is_whitespace_char(text.last()) {
        let shorter = text.drop_last();
        lemma_trim_end_settled(shorter);
        let kept = trim_end_of(shorter).len() as int;
        assert(shorter.take(kept) == text.take(kept));
    } else {
        assert(text.take(text.len() as int) == text);
    }
}

/// Trimming a trimmed text changes nothing.
pub proof fn lemma_trim_twice(text: Seq<char>)
    ensures
        trim_of(trim_of(text)) == trim_of(text),
{
    let started = trim_start_of(text);
    let trimmed = trim_end_of(started);
    lemma_trim_start_settled(text);
    lemma_trim_end_settled(started);
    if trimmed.len() > 0 {
        assert(trimmed[0] == started[0]);
    }
    assert(trim_start_of(trimmed) == trimmed);
    assert(trim_end_of(trimmed) == trimmed);
}

/// A copy of `text[from..to]`.
pub(crate) fn copy_range(text: &[char], from: usize, to: usize) -> (out: Vec<char>)
    requires
        from <= to <= text@.len(),
    ensures
        out@ == text@.subrange(from as int, to as int),
{
    let mut out: Vec<char> = Vec::new();
    let mut i: usize = from;
    while i < to
        invariant
            from <= i <= to <= text@.len(),
            out@ == text@.subrange(from as int, i as int),
        decreases to - i,
    {
        out.push(text[i]);
        i += 1;
    }
    out
}

/// Removes leading and trailing white space.
pub fn trim(text: &[char]) -> (out: Vec<char>)
    ensures
        out@ == trim_of(text@),
{
    let n: usize = text.len();
    let mut start: usize = 0;
    assert(text@.skip(0) == text@);
    while start < n && is_whitespace(text[start])
        invariant
            start <= n == text@.len(),
            trim_start_of(text@) == trim_start_of(text@.skip(start as int)),
        decreases n - start,
    {
        assert(text@.skip(start as int).skip(1) == text@.skip(start as int + 1));
        start += 1;
    }
    let ghost rest = text@.skip(start as int);
    assert(trim_start_of(text@) == rest);
    let mut end: usize = n;
    while end > start && is_whitespace(text[end - 1])
        invariant
            start <= end <= n == text@.len(),
            rest == text@.skip(start as int),
            trim_end_of(rest) == trim_end_of(text@.subrange(start as int, end as int)),
        decreases end,
    {
        let ghost cur = text@.subrange(start as int, end as int);
        assert(cur.last() == text@[end - 1]);
        assert(cur.drop_last() == text@.subrange(start as int, end - 1));
        end -= 1;
    }
    proof {
        let cur = text@.subrange(start as int, end as int);
        if end > start {
            assert(cur.last() == text@[end - 1]);
        }
        assert(trim_end_of(cur) == cur);
    }
    copy_range(text, start, end)
}

/// Whether `pattern` stands in `text` at position `at`.
pub open spec fn occurs_at(text: Seq<char>, at: int, pattern: Seq<char>) -> bool {
    &&& 0 <= at
    &&& at + pattern.len() <= text.len()
    &&& text.subrange(at, at + pattern.len()) == pattern
}

/// Whether `pattern` stands in `text` at position `at`.
pub fn matches_at(text: &[char], at: usize, pattern: &[char]) -> (found: bool)
    ensures
        found == occurs_at(text@, at as int, pattern@),
{
    let n: usize = text.len();
    let m: usize = pattern.len();
    if at > n || m > n - at {
        return false;
    }
    let mut k: usize = 0;
    while k < m
        invariant
            at + m <= n == text@.len(),
            m == pattern@.len(),
            k <= m,
            forall|j: int| 0 <= j < k ==> text@[at + j] == pattern@[j],
        decreases m - k,
    {
        if text[at + k] != pattern[k] {
            assert(text@.subrange(at as int, at + m)[k as int] != pattern@[k as int]);
            return false;
        }
        k += 1;
    }
    assert(text@.subrange(at as int, at + m) =~= pattern@);
    true
}

/// Whether `pattern` occurs somewhere in `text`.
pub open spec fn contains_text(text: Seq<char>, pattern: Seq<char>) -> bool {
    exists|at: int| occurs_at(text, at, pattern)
}

/// Whether `pattern` occurs somewhere in `text`.
pub fn contains(text: &[char], pattern: &[char]) -> (found: bool)
    ensures
        found == contains_text(text@, pattern@),
{
    let n: usize = text.len();
    let m: usize = pattern.len();
    if m > n {
        return false;
    }
    let mut at: usize = 0;
    loop
        invariant
            m <= n == text@.len(),
            m == pattern@.len(),
            at <= n - m,
            forall|j: int| 0 <= j < at ==> !occurs_at(text@, j, pattern@),
        decreases n - m - at,
    {
        if matches_at(text, at, pattern) {
            return true;
        }
        if at == n - m {
            return false;
        }
        at += 1;
    }
}

/// `text` with every occurrence of `pattern` replaced by `with`, reading from
/// the left; occurrences do not overlap. An empty pattern occurs nowhere.
pub open spec fn replace_all_of(text: Seq<char>, pattern: Seq<char>, with: Seq<char>) -> Seq<char>
    decreases text.len(),
{
    if pattern.len() == 0 || text.len() < pattern.len() {
        text
    } else if occurs_at(text, 0, pattern) {
        with + replace_all_of(text.skip(pattern.len() as int), pattern, with)
    } else {
        seq![text[0]] + replace_all_of(text.skip(1), pattern, with)
    }
}

/// Replaces every occurrence of `pattern` in `text` by `with`.
pub fn replace_all(text: &[char], pattern: &[char], with: &[char]) -> (out: Vec<char>)
    ensures
        out@ == replace_all_of(text@, pattern@, with@),
{
    let n: usize = text.len();
    let m: usize = pattern.len();
    if m == 0 {
        return copy_range(text, 0, n);
    }
    let mut out: Vec<char> = Vec::new();
    let mut i: usize = 0;
    assert(text@.skip(0) == text@);
    assert(out@ + replace_all_of(text@, pattern@, with@) == replace_all_of(text@, pattern@, with@));
    while i < n
        invariant
            n == text@.len(),
            0 < m == pattern@.len(),
            i <= n,
            out@ + replace_all_of(text@.skip(i as int), pattern@, with@) == replace_all_of(
                text@,
                pattern@,
                with@,
            ),
        decreases n - i,
    {
        let ghost rest = text@.skip(i as int);
        let ghost before = out@;
        assert(occurs_at(rest, 0, pattern@) == occurs_at(text@, i as int, pattern@)) by {
            if i + m <= n {
                assert(rest.subrange(0, m as int) == text@.subrange(i as int, i + m));
            }
        }
        if matches_at(text, i, pattern) {
            let mut k: usize = 0;
            while k < with.len()
                invariant
                    k <= with@.len(),
                    out@ == before + with@.take(k as int),
                decreases with@.len() - k,
            {
                out.push(with[k]);
                k += 1;
            }
            assert(with@.take(with@.len() as int) == with@);
            assert(rest.skip(m as int) == text@.skip(i + m));
            assert(before + (with@ + replace_all_of(rest.skip(m as int), pattern@, with@)) == (
            before + with@) + replace_all_of(rest.skip(m as int), pattern@, with@));
            i += m;
        } else {
            out.push(text[i]);
            assert(rest.skip(1) == text@.skip(i + 1));
            proof {
                if rest.len() < m {
                    assert(replace_all_of(rest, pattern@, with@) == rest);
                    assert(replace_all_of(rest.skip(1), pattern@, with@) == rest.skip(1));
                    assert(before + rest == before.push(text@[i as int]) + rest.skip(1));
                } else {
                    assert(before + (seq![text@[i as int]] + replace_all_of(
                        rest.skip(1),
                        pattern@,
                        with@,
                    )) == before.push(text@[i as int]) + replace_all_of(
                        rest.skip(1),
                        pattern@,
                        with@,
                    ));
                }
            }
            i += 1;
        }
    }
    assert(text@.skip(n as int).len() == 0);
    out
}

/// Whether `c` is one of the ASCII digits `0` to `9`.
pub open spec fn is_digit_char(c: char) -> bool {
    0x30 <= c as u32 <= 0x39
}

/// Whether every character of `text` is an ASCII digit.
pub open spec fn all_digits(text: Seq<char>) -> bool {
    forall|i: int| 0 <= i < text.len() ==> is_digit_char(#[trigger] text[i])
}

/// The number that a run of ASCII digits denotes in base ten.
pub open spec fn digits_value(digits: Seq<char>) -> int
    decreases digits.len(),
{
    if digits.len() == 0 {
        0
    } else {
        digits_value(digits.drop_last()) * 10 + (digits.last() as u32 - 0x30)
    }
}

/// The `i32` that `text` denotes: an optional sign `+` or `-`, then at least
/// one ASCII digit and nothing else, with a value that fits in an `i32`.
pub open spec fn parse_i32_of(text: Seq<char>) -> Option<i32> {
    if text.len() == 0 {
        None
    } else {
        let signed = text[0] == '-' || text[0] == '+';
        let digits = if signed {
            text.skip(1)
        } else {
            text
        };
        let value = if text[0] == '-' {
            -digits_value(digits)
        } else {
            digits_value(digits)
        };
        if digits.len() > 0 && all_digits(digits) && i32::MIN <= value <= i32::MAX {
            Some(value as i32)
        } else {
            None
        }
    }
}

/// A run of digits denotes at least what each of its prefixes denotes.
pub proof fn lemma_digits_value_grows(digits: Seq<char>, k: int)
    requires
        all_digits(digits),
        0 <= k <= digits.len(),
    ensures
        0 <= digits_value(digits.take(k)) <= digits_value(digits),
    decreases digits.len() - k,
{
    if k == digits.len() {
        assert(digits.take(k) == digits);
        lemma_digits_value_nonnegative(digits);
    } else {
        lemma_digits_value_grows(digits, k + 1);
        assert(digits.take(k + 1).drop_last() == digits.take(k));
        assert(is_digit_char(digits[k]));
        assert(digits.take(k + 1).last() == digits[k]);
        lemma_digits_value_nonnegative(digits.take(k));
    }
}

/// A run of digits denotes a number that is not negative.
pub proof fn lemma_digits_value_nonnegative(digits: Seq<char>)
    requires
        all_digits(digits),
    ensures
        0 <= digits_value(digits),
    decreases digits.len(),
{
    if digits.len() > 0 {
        assert(is_digit_char(digits[digits.len() - 1]));
        lemma_digits_value_nonnegative(digits.drop_last());
    }
}

/// Reads a decimal `i32`: an optional sign, then digits only.
pub fn parse_i32(text: &[char]) -> (parsed: Option<i32>)
    ensures
        parsed == parse_i32_of(text@),
{
    let n: usize = text.len();
    if n == 0 {
        return None;
    }
    let negative: bool = text[0] == '-';
    let start: usize = if text[0] == '-' || text[0] == '+' {
        1
    } else {
        0
    };
    let ghost digits = text@.skip(start as int);
    assert(text@.skip(0) == text@);
    if start == n {
        return None;
    }
    let mut magnitude: i64 = 0;
    let mut i: usize = start;
    assert(digits.take(0) == Seq::<char>::empty());
    while i < n
        invariant
            start <= i <= n == text@.len(),
            n > 0,
            negative == (text@[0] == '-'),
            start == (if text@[0] == '-' || text@[0] == '+' {
                1int
            } else {
                0int
            }),
            digits == text@.skip(start as int),
            text@.skip(0) == text@,
            all_digits(digits.take(i - start)),
            magnitude == digits_value(digits.take(i - start)),
            0 <= magnitude <= 2147483648,
        decreases n - i,
    {
        let code: u32 = text[i] as u32;
        if code < 0x30 || code > 0x39 {
            assert(!is_digit_char(digits[i - start]));
            return None;
        }
        let next: i64 = magnitude * 10 + (code - 0x30) as i64;
        proof {
            let longer = digits.take(i - start + 1);
            assert(longer.drop_last() == digits.take(i - start));
            assert(longer.last() == text@[i as int]);
            assert(digits_value(longer) == next);
            assert forall|j: int| 0 <= j < longer.len() implies is_digit_char(
                #[trigger] longer[j],
            ) by {
                if j < i - start {
                    assert(longer[j] == digits.take(i - start)[j]);
                }
            }
        }
        if next > 2147483648 {
            proof {
                if all_digits(digits) {
                    lemma_digits_value_grows(digits, i - start + 1);
                }

            }
            return None;
        }
        magnitude = next;
        i += 1;
    }
    assert(digits.take(n - start) == digits);
    if negative {
        Some((-magnitude) as i32)
    } else if magnitude == 2147483648 {
        None
    } else {
        Some(magnitude as i32)
    }
}

/// Whether `part` is what is left of `whole` once some of its characters are
/// deleted: the characters of `part` stand in `whole`, in the same order.
pub open spec fn is_left_of(part: Seq<char>, whole: Seq<char>) -> bool
    decreases whole.len(),
{
    if part.len() == 0 {
        true
    } else if whole.len() == 0 {
        false
    } else {
        (part[0] == whole[0] && is_left_of(part.skip(1), whole.skip(1))) || is_left_of(
            part,
            whole.skip(1),
        )
    }
}

/// A text is left of itself.
pub proof fn lemma_left_of_itself(text: Seq<char>)
    ensures
        is_left_of(text, text),
    decreases text.len(),
{
    if text.len() > 0 {
        lemma_left_of_itself(text.skip(1));
    }
}

/// What is left of what is left of a text is left of that text.
pub proof fn lemma_left_of_chain(a: Seq<char>, b: Seq<char>, c: Seq<char>)
    requires
        is_left_of(a, b),
        is_left_of(b, c),
    ensures
        is_left_of(a, c),
    decreases c.len(),
{
    if a.len() > 0 && c.len() > 0 {
        if b.len() > 0 && b[0] == c[0] && is_left_of(b.skip(1), c.skip(1)) {
            if a[0] == b[0] && is_left_of(a.skip(1), b.skip(1)) {
                lemma_left_of_chain(a.skip(1), b.skip(1), c.skip(1));
            } else {
                lemma_left_of_chain(a, b.skip(1), c.skip(1));
            }
        } else {
            lemma_left_of_chain(a, b, c.skip(1));
        }
    }
}

/// The end of a text is left of it.
pub proof fn lemma_skip_left_of(text: Seq<char>, from: int)
    requires
        0 <= from <= text.len(),
    ensures
        is_left_of(text.skip(from), text),
    decreases from,
{
    if from == 0 {
        assert(text.skip(0) == text);
        lemma_left_of_itself(text);
    } else {
        lemma_skip_left_of(text.skip(1), from - 1);
        assert(text.skip(1).skip(from - 1) == text.skip(from));
        if text.skip(from).len() > 0 {
            assert(is_left_of(text.skip(from), text));
        }
    }
}

/// The beginning of a text is left of it.
pub proof fn lemma_take_left_of(text: Seq<char>, upto: int)
    requires
        0 <= upto <= text.len(),
    ensures
        is_left_of(text.take(upto), text),
    decreases upto,
{
    if upto > 0 {
        lemma_take_left_of(text.skip(1), upto - 1);
        assert(text.take(upto).skip(1) == text.skip(1).take(upto - 1));
    }
}

/// A trimmed text is left of the text.
pub proof fn lemma_trim_left_of(text: Seq<char>)
    ensures
        is_left_of(trim_of(text), text),
{
    let started = trim_start_of(text);
    lemma_trim_start_left_of(text);
    lemma_trim_end_settled(started);
    lemma_take_left_of(started, trim_end_of(started).len() as int);
    lemma_left_of_chain(trim_of(text), started, text);
}

/// A text without its leading white space is left of the text.
pub proof fn lemma_trim_start_left_of(text: Seq<char>)
    ensures
        is_left_of(trim_start_of(text), text),
    decreases text.len(),
{
    if text.len() > 0 && is_whitespace_char(text[0]) {
        lemma_trim_start_left_of(text.skip(1));
        lemma_skip_left_of(text, 1);
        lemma_left_of_chain(trim_start_of(text), text.skip(1), text);
    } else {
        lemma_left_of_itself(text);
    }
}

/// A text from which every occurrence of a pattern is deleted is left of
/// the text.
pub proof fn lemma_deletion_left_of(text: Seq<char>, pattern: Seq<char>)
    ensures
        is_left_of(replace_all_of(text, pattern, Seq::empty()), text),
    decreases text.len(),
{
    let rest = replace_all_of(text, pattern, Seq::empty());
    if pattern.len() == 0 || text.len() < pattern.len() {
        lemma_left_of_itself(text);
    } else if occurs_at(text, 0, pattern) {
        let tail = text.skip(pattern.len() as int);
        lemma_deletion_left_of(tail, pattern);
        lemma_skip_left_of(text, pattern.len() as int);
        assert(rest =~= replace_all_of(tail, pattern, Seq::empty()));
        lemma_left_of_chain(rest, tail, text);
    } else {
        lemma_deletion_left_of(text.skip(1), pattern);
        assert(rest.skip(1) =~= replace_all_of(text.skip(1), pattern, Seq::empty()));
        assert(rest[0] == text[0]);
    }
}

/// Whether two lists hold the same characters.
pub fn same_chars(a: &[char], b: &[char]) -> (same: bool)
    ensures
        same == (a@ == b@),
{
    if a.len() != b.len() {
        return false;
    }
    let same = matches_at(a, 0, b);
    assert(a@.subrange(0, a@.len() as int) == a@);
    same
}

/// Whether two texts hold the same characters.
pub fn same_text(a: &str, b: &str) -> (same: bool)
    ensures
        same == (a@ == b@),
{
    let left = chars_of(a);
    let right = chars_of(b);
    same_chars(left.as_slice(), right.as_slice())
}

/// Whether a text is empty once its white space is trimmed.
pub open spec fn is_blank(text: Seq<char>) -> bool {
    trim_of(text).len() == 0
}

/// Whether a text holds nothing but white space.
pub fn is_blank_text(text: &str) -> (blank: bool)
    ensures
        blank == is_blank(text@),
{
    let chars = chars_of(text);
    let trimmed = trim(chars.as_slice());
    trimmed.len() == 0
}

/// Joins two texts.
pub fn join(head: &str, tail: &str) -> (joined: String)
    ensures
        joined@ == head@ + tail@,
{
    let mut chars = chars_of(head);
    let mut rest = chars_of(tail);
    chars.append(&mut rest);
    string_of(chars.as_slice())
}

} // verus!
