//! Helpers on strings, stated over their characters.

use vstd::prelude::*;
use vstd::string::{StrSliceExecFns, StringExecFns};

verus! {

/// `String::push`: the character is appended to the end of the string.
pub assume_specification[ String::push ](text: &mut String, c: char)
    ensures
        final(text)@ == old(text)@.push(c),
;

/// The characters of a text, in order.
pub fn chars_of(text: &str) -> (chars: Vec<char>)
    ensures
        chars@ == text@,
{
    let mut chars: Vec<char> = Vec::new();
    for c in it: text.chars()
        invariant
            it.seq() == text@,
            chars@ == text@.take(it.index() as int),
    {
        chars.push(c);
        assert(text@.take(it.index() + 1) =~= text@.take(it.index() as int).push(c));
    }
    assert(text@.take(text@.len() as int) =~= text@);
    chars
}

/// The text made of the given characters.
pub fn string_of(chars: &Vec<char>) -> (text: String)
    ensures
        text@ == chars@,
{
    let mut text = String::new();
    let mut i: usize = 0;
    while i < chars.len()
        invariant
            i <= chars.len(),
            text@ == chars@.take(i as int),
        decreases chars.len() - i,
    {
        text.push(chars[i]);
        assert(chars@.take(i + 1) =~= chars@.take(i as int).push(chars@[i as int]));
        i = i + 1;
    }
    assert(chars@.take(chars@.len() as int) =~= chars@);
    text
}

/// Whether two texts hold the same characters.
pub fn str_eq(a: &str, b: &str) -> (same: bool)
    ensures
        same == (a@ == b@),
{
    let left = a.to_owned();
    let right = b.to_owned();
    left == right
}

/// The decimal digit for a number below ten.
pub open spec fn digit_char(d: nat) -> char {
    if d == 0 {
        '0'
    } else if d == 1 {
        '1'
    } else if d == 2 {
        '2'
    } else if d == 3 {
        '3'
    } else if d == 4 {
        '4'
    } else if d == 5 {
        '5'
    } else if d == 6 {
        '6'
    } else if d == 7 {
        '7'
    } else if d == 8 {
        '8'
    } else {
        '9'
    }
}

/// A number written in decimal, without leading zeros.
pub open spec fn decimal_text(n: nat) -> Seq<char>
    decreases n,
{
    if n < 10 {
        seq![digit_char(n)]
    } else {
        decimal_text(n / 10).push(digit_char(n % 10))
    }
}

pub(crate) fn digit(d: u64) -> (c: char)
    requires
        d < 10,
    ensures
        c == digit_char(d as nat),
{
    if d == 0 {
        '0'
    } else if d == 1 {
        '1'
    } else if d == 2 {
        '2'
    } else if d == 3 {
        '3'
    } else if d == 4 {
        '4'
    } else if d == 5 {
        '5'
    } else if d == 6 {
        '6'
    } else if d == 7 {
        '7'
    } else if d == 8 {
        '8'
    } else {
        '9'
    }
}

/// Writes a number in decimal.
pub fn decimal(n: u64) -> (text: String)
    ensures
        text@ == decimal_text(n as nat),
    decreases n,
{
    if n < 10 {
        let mut text = String::new();
        text.push(digit(n));
        assert(text@ =~= seq![digit_char(n as nat)]);
        text
    } else {
        let mut text = decimal(n / 10);
        text.push(digit(n % 10));
        text
    }
}

/// A number written in decimal, with a minus sign where it is negative.
pub open spec fn signed_decimal_text(n: int) -> Seq<char> {
    if n < 0 {
        "-"@ + decimal_text((-n) as nat)
    } else {
        decimal_text(n as nat)
    }
}

/// Writes a number in decimal, with a minus sign where it is negative.
pub fn signed_decimal(n: i64) -> (text: String)
    ensures
        text@ == signed_decimal_text(n as int),
{
    if n < 0 {
        let magnitude: u64 = if n == i64::MIN {
            9223372036854775808u64
        } else {
            (-n) as u64
        };
        String::from_str("-").concat(decimal(magnitude).as_str())
    } else {
        decimal(n as u64)
    }
}

/// The parts, with the separator between every two neighbours.
pub open spec fn joined(parts: Seq<Seq<char>>, separator: Seq<char>) -> Seq<char>
    decreases parts.len(),
{
    if parts.len() == 0 {
        Seq::empty()
    } else if parts.len() == 1 {
        parts[0]
    } else {
        joined(parts.drop_last(), separator) + separator + parts.last()
    }
}

/// The characters of each text of a list.
pub open spec fn texts_view(texts: Seq<String>) -> Seq<Seq<char>> {
    Seq::new(texts.len(), |i: int| texts[i]@)
}

/// The characters of an optional text.
pub open spec fn optional_text_view(text: Option<String>) -> Option<Seq<char>> {
    match text {
        Some(t) => Some(t@),
        None => None,
    }
}

/// The characters of each text of an optional list.
pub open spec fn optional_texts_view(texts: Option<Vec<String>>) -> Option<Seq<Seq<char>>> {
    match texts {
        Some(t) => Some(texts_view(t@)),
        None => None,
    }
}

/// Joins the parts, with the separator between every two neighbours.
pub fn join(parts: &Vec<String>, separator: &str) -> (text: String)
    ensures
        text@ == joined(texts_view(parts@), separator@),
{
    let mut text = String::new();
    let mut i: usize = 0;
    while i < parts.len()
        invariant
            i <= parts.len(),
            text@ == joined(texts_view(parts@).take(i as int), separator@),
        decreases parts.len() - i,
    {
        let ghost before = texts_view(parts@).take(i as int);
        let ghost after = texts_view(parts@).take(i + 1);
        assert(after.drop_last() =~= before);
        assert(after.last() == parts@[i as int]@);
        if i > 0 {
            text.append(separator);
        } else {
            assert(before.len() == 0);
            assert(text@ =~= Seq::<char>::empty());
        }
        text.append(parts[i].as_str());
        assert(text@ =~= joined(after, separator@));
        i = i + 1;
    }
    assert(texts_view(parts@).take(parts@.len() as int) =~= texts_view(parts@));
    text
}

/// The first `limit` characters of a text, or all of it where it is shorter.
pub fn first_chars(text: &str, limit: usize) -> (head: String)
    ensures
        head@ == (if text@.len() <= limit {
            text@
        } else {
            text@.take(limit as int)
        }),
{
    let length = text.unicode_len();
    if length <= limit {
        text.to_owned()
    } else {
        let head = text.substring_char(0, limit);
        assert(text@.subrange(0, limit as int) =~= text@.take(limit as int));
        head.to_owned()
    }
}

/// Whether `pattern` stands in `text` at the position `at`.
pub open spec fn occurs_at(text: Seq<char>, pattern: Seq<char>, at: int) -> bool {
    0 <= at && at + pattern.len() <= text.len() && text.subrange(at, at + pattern.len()) == pattern
}

/// Whether `pattern` stands somewhere in `text`.
pub open spec fn contains_text(text: Seq<char>, pattern: Seq<char>) -> bool {
    exists|at: int| occurs_at(text, pattern, at)
}

/// Whether `at` is the first position at which `pattern` stands in `text`.
pub open spec fn first_occurrence(text: Seq<char>, pattern: Seq<char>, at: int) -> bool {
    occurs_at(text, pattern, at) && forall|earlier: int|
        0 <= earlier < at ==> !occurs_at(text, pattern, earlier)
}

/// `text` with the passage of `length` characters at `at` replaced by
/// `with`.
pub open spec fn spliced(text: Seq<char>, at: int, length: int, with: Seq<char>) -> Seq<char> {
    text.take(at) + with + text.skip(at + length)
}

fn matches_at(text: &Vec<char>, pattern: &Vec<char>, at: usize) -> (found: bool)
    requires
        at + pattern@.len() <= text@.len(),
    ensures
        found == occurs_at(text@, pattern@, at as int),
{
    let mut k: usize = 0;
    assert(text@.len() == text.len());
    while k < pattern.len()
        invariant
            k <= pattern.len(),
            at + pattern@.len() <= text@.len() <= usize::MAX,
            forall|j: int| 0 <= j < k ==> text@[at + j] == pattern@[j],
        decreases pattern.len() - k,
    {
        if text[at + k] != pattern[k] {
            assert(text@.subrange(at as int, at + pattern@.len())[k as int] != pattern@[k as int]);
            return false;
        }
        k = k + 1;
    }
    assert(text@.subrange(at as int, at + pattern@.len()) =~= pattern@);
    true
}

/// The first position at which `pattern` stands in `text`, if it stands
/// anywhere. The empty pattern stands at the start.
pub fn find(text: &Vec<char>, pattern: &Vec<char>) -> (position: Option<usize>)
    ensures
        match position {
            Some(at) => first_occurrence(text@, pattern@, at as int),
            None => !contains_text(text@, pattern@),
        },
{
    if pattern.len() > text.len() {
        return None;
    }
    let last = text.len() - pattern.len();
    let mut at: usize = 0;
    loop
        invariant
            at <= last,
            last == text@.len() - pattern@.len(),
            forall|earlier: int| 0 <= earlier < at ==> !occurs_at(text@, pattern@, earlier),
        decreases last - at,
    {
        if matches_at(text, pattern, at) {
            return Some(at);
        }
        if at == last {
            return None;
        }
        at = at + 1;
    }
}

/// Whether `pattern` stands somewhere in `text`.
pub fn contains(text: &str, pattern: &str) -> (found: bool)
    ensures
        found == contains_text(text@, pattern@),
{
    let text = chars_of(text);
    let pattern = chars_of(pattern);
    match find(&text, &pattern) {
        Some(at) => {
            assert(occurs_at(text@, pattern@, at as int));
            true
        },
        None => false,
    }
}

/// Appends the characters of `from`, from the position `start` on, to `to`.
pub(crate) fn extend_from(to: &mut Vec<char>, from: &Vec<char>, start: usize)
    requires
        start <= from@.len(),
    ensures
        final(to)@ == old(to)@ + from@.skip(start as int),
{
    let mut i: usize = start;
    assert(from@.skip(start as int).take(0) =~= Seq::<char>::empty());
    while i < from.len()
        invariant
            start <= i <= from.len(),
            to@ == old(to)@ + from@.skip(start as int).take(i - start),
        decreases from.len() - i,
    {
        to.push(from[i]);
        assert(from@.skip(start as int).take(i + 1 - start) =~= from@.skip(start as int).take(
            i - start,
        ).push(from@[i as int]));
        i = i + 1;
    }
    assert(from@.skip(start as int).take(from@.len() - start) =~= from@.skip(start as int));
}

/// The longest run of `c` in `text` has `length` characters: that many stand
/// in a row somewhere, and nowhere more.
pub open spec fn is_run(text: Seq<char>, c: char, from: int, length: int) -> bool {
    0 <= from && 0 <= length && from + length <= text.len() && forall|k: int|
        from <= k < from + length ==> text[k] == c
}

/// Whether `text` holds `length` times `c` in a row.
pub open spec fn has_run(text: Seq<char>, c: char, length: int) -> bool {
    exists|from: int| is_run(text, c, from, length)
}

/// The length of the longest run of `c` in `text`.
pub fn longest_run(text: &Vec<char>, c: char) -> (longest: usize)
    ensures
        has_run(text@, c, longest as int),
        !has_run(text@, c, longest + 1),
{
    let mut longest: usize = 0;
    let mut current: usize = 0;
    let mut i: usize = 0;
    assert(is_run(text@, c, 0, 0));
    while i < text.len()
        invariant
            i <= text.len(),
            current <= i,
            longest <= i,
            current <= longest,
            is_run(text@, c, i - current, current as int),
            current < i ==> text@[i - current - 1] != c,
            has_run(text@, c, longest as int),
            forall|from: int, length: int|
                is_run(text@, c, from, length) && from + length <= i ==> length <= longest,
        decreases text.len() - i,
    {
        if text[i] == c {
            current = current + 1;
        } else {
            current = 0;
        }
        if current > longest {
            longest = current;
        }
        i = i + 1;
        assert(is_run(text@, c, i - current, current as int));
        assert forall|from: int, length: int|
            is_run(text@, c, from, length) && from + length <= i implies length <= longest by {
            if from + length == i && length > 0 {
                if length > current {
                    assert(text@[i - current - 1] == c);
                }
            }
        }
    }
    assert(!has_run(text@, c, longest + 1)) by {
        let more: int = longest + 1;
        if has_run(text@, c, more) {
            let from = choose|from: int| is_run(text@, c, from, more);
            assert(is_run(text@, c, from, more));
        }
    }
    longest
}

/// The text of `count` times the character `c`.
pub fn repeated(c: char, count: usize) -> (text: String)
    ensures
        text@ == Seq::new(count as nat, |i: int| c),
{
    let mut text = String::new();
    let mut i: usize = 0;
    while i < count
        invariant
            i <= count,
            text@ == Seq::new(i as nat, |k: int| c),
        decreases count - i,
    {
        text.push(c);
        assert(text@ =~= Seq::new((i + 1) as nat, |k: int| c));
        i = i + 1;
    }
    text
}

/// The spaces that fill a text of `length` characters up to `width`.
pub open spec fn padding(length: int, width: int) -> Seq<char> {
    Seq::new(
        (if length < width {
            width - length
        } else {
            0
        }) as nat,
        |i: int| ' ',
    )
}

/// A text with spaces behind it, up to `width` characters.
pub fn pad_right(text: &str, width: usize) -> (padded: String)
    ensures
        padded@ == text@ + padding(text@.len() as int, width as int),
{
    let length = text.unicode_len();
    let spaces = repeated(
        ' ',
        if length < width {
            width - length
        } else {
            0
        },
    );
    String::from_str(text).concat(spaces.as_str())
}

/// A text with spaces before it, up to `width` characters.
pub fn pad_left(text: &str, width: usize) -> (padded: String)
    ensures
        padded@ == padding(text@.len() as int, width as int) + text@,
{
    let length = text.unicode_len();
    let spaces = repeated(
        ' ',
        if length < width {
            width - length
        } else {
            0
        },
    );
    spaces.concat(text)
}

/// Whether `c` is white space: the characters that have the property
/// `White_Space` of Unicode, as `char::is_whitespace` tells them.
pub open spec fn is_white_space(c: char) -> bool {
    ('\u{9}' <= c && c <= '\u{d}') || c == ' ' || c == '\u{85}' || c == '\u{a0}' || c
        == '\u{1680}' || ('\u{2000}' <= c && c <= '\u{200a}') || c == '\u{2028}' || c
        == '\u{2029}' || c == '\u{202f}' || c == '\u{205f}' || c == '\u{3000}'
}

/// The first position from `from` on that holds no white space.
pub open spec fn first_mark(text: Seq<char>, from: int) -> int
    decreases text.len() - from,
{
    if 0 <= from < text.len() && is_white_space(text[from]) {
        first_mark(text, from + 1)
    } else {
        from
    }
}

/// The position behind the last character before `to` that is no white
/// space, and not before `from`.
pub open spec fn last_mark(text: Seq<char>, from: int, to: int) -> int
    decreases to - from,
{
    if from < to <= text.len() && is_white_space(text[to - 1]) {
        last_mark(text, from, to - 1)
    } else {
        to
    }
}

/// A text without the white space at its ends, as `str::trim` leaves it.
pub open spec fn trimmed(text: Seq<char>) -> Seq<char> {
    let from = first_mark(text, 0);
    text.subrange(from, last_mark(text, from, text.len() as int))
}

/// Whether `c` is white space.
pub fn white_space(c: char) -> (answer: bool)
    ensures
        answer == is_white_space(c),
{
    ('\u{9}' <= c && c <= '\u{d}') || c == ' ' || c == '\u{85}' || c == '\u{a0}' || c
        == '\u{1680}' || ('\u{2000}' <= c && c <= '\u{200a}') || c == '\u{2028}' || c
        == '\u{2029}' || c == '\u{202f}' || c == '\u{205f}' || c == '\u{3000}'
}

/// The characters of `text` from the position `from` up to the position
/// `to`.
pub(crate) fn part_of(text: &Vec<char>, from: usize, to: usize) -> (part: String)
    requires
        from <= to <= text@.len(),
    ensures
        part@ == text@.subrange(from as int, to as int),
{
    let mut part = String::new();
    let mut at: usize = from;
    assert(text@.subrange(from as int, from as int) =~= Seq::<char>::empty());
    while at < to
        invariant
            from <= at <= to <= text@.len(),
            part@ == text@.subrange(from as int, at as int),
        decreases to - at,
    {
        part.push(text[at]);
        assert(text@.subrange(from as int, at + 1) =~= text@.subrange(from as int, at as int).push(
            text@[at as int],
        ));
        at = at + 1;
    }
    part
}

/// The text without the white space at its ends.
pub fn trim(text: &str) -> (rest: String)
    ensures
        rest@ == trimmed(text@),
{
    let chars = chars_of(text);
    let mut from: usize = 0;
    while from < chars.len() && white_space(chars[from])
        invariant
            from <= chars@.len(),
            first_mark(chars@, 0) == first_mark(chars@, from as int),
        decreases chars.len() - from,
    {
        from = from + 1;
    }
    let mut to: usize = chars.len();
    while from < to && white_space(chars[to - 1])
        invariant
            from <= to <= chars@.len(),
            last_mark(chars@, from as int, chars@.len() as int) == last_mark(
                chars@,
                from as int,
                to as int,
            ),
        decreases to - from,
    {
        to = to - 1;
    }
    part_of(&chars, from, to)
}

/// The position of the first line feed from `from` on, or the end of the
/// text where there is none.
pub open spec fn line_end(text: Seq<char>, from: int) -> int
    decreases text.len() - from,
{
    if 0 <= from < text.len() && text[from] != '\n' {
        line_end(text, from + 1)
    } else {
        from
    }
}

/// A line without the carriage return at its end, where it has one.
pub open spec fn without_return(line: Seq<char>) -> Seq<char> {
    if line.len() > 0 && line.last() == '\r' {
        line.drop_last()
    } else {
        line
    }
}

/// A line ends at its beginning or behind it, and within the text.
pub proof fn lemma_line_end_bounds(text: Seq<char>, from: int)
    requires
        0 <= from <= text.len(),
    ensures
        from <= line_end(text, from) <= text.len(),
    decreases text.len() - from,
{
    if from < text.len() && text[from] != '\n' {
        lemma_line_end_bounds(text, from + 1);
    }
}

/// The lines of the text from the position `from` on.
pub open spec fn lines_from(text: Seq<char>, from: int) -> Seq<Seq<char>>
    decreases text.len() - from,
    via lines_from_decreases
{
    if from < 0 || from >= text.len() {
        Seq::empty()
    } else {
        let end = line_end(text, from);
        if end >= text.len() {
            seq![text.subrange(from, text.len() as int)]
        } else {
            seq![without_return(text.subrange(from, end))] + lines_from(text, end + 1)
        }
    }
}

#[via_fn]
proof fn lines_from_decreases(text: Seq<char>, from: int) {
    if 0 <= from < text.len() {
        lemma_line_end_bounds(text, from);
    }
}

/// The lines of a text, as `str::lines` gives them. A line ends with a line
/// feed, which does not belong to it, nor does a carriage return before the
/// line feed. What stands behind the last line feed is a line where it is
/// not empty.
pub open spec fn lines_of(text: Seq<char>) -> Seq<Seq<char>> {
    lines_from(text, 0)
}

/// The lines of a text: see [`lines_of`].
pub fn lines(text: &str) -> (found: Vec<String>)
    ensures
        texts_view(found@) == lines_of(text@),
{
    let chars = chars_of(text);
    let mut found: Vec<String> = Vec::new();
    let mut from: usize = 0;
    assert(texts_view(found@) + lines_from(chars@, 0) =~= lines_of(text@));
    while from < chars.len()
        invariant
            from <= chars@.len(),
            chars@ == text@,
            texts_view(found@) + lines_from(chars@, from as int) == lines_of(text@),
        decreases chars.len() - from,
    {
        let mut end: usize = from;
        while end < chars.len() && chars[end] != '\n'
            invariant
                from <= end <= chars@.len(),
                line_end(chars@, from as int) == line_end(chars@, end as int),
            decreases chars.len() - end,
        {
            end = end + 1;
        }
        let ghost before = texts_view(found@);
        if end >= chars.len() {
            let line = part_of(&chars, from, end);
            found.push(line);
            assert(texts_view(found@) =~= before + lines_from(chars@, from as int));
            from = chars.len();
        } else {
            let stop = if end > from && chars[end - 1] == '\r' {
                end - 1
            } else {
                end
            };
            let line = part_of(&chars, from, stop);
            assert(line@ =~= without_return(chars@.subrange(from as int, end as int)));
            found.push(line);
            assert(texts_view(found@) + lines_from(chars@, end + 1) =~= before + lines_from(
                chars@,
                from as int,
            ));
            from = end + 1;
        }
    }
    assert(lines_from(chars@, from as int) =~= Seq::<Seq<char>>::empty());
    found
}

} // verus!
