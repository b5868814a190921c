//! Recovering the identifier of a request from a line that is no JSON.
//!
//! The line is read from the left, keeping track of strings and of the
//! nesting of brackets. The identifier is the value behind the first key
//! `"id"` that stands directly in the outermost object and is followed by a
//! colon and a scalar: a string, a number, `true`, `false` or `null`. What
//! comes behind it need not be well formed.

use vstd::prelude::*;
use crate::strings::{chars_of, string_of};

verus! {

/// Whether `c` is white space between the tokens of JSON.
pub open spec fn is_space(c: char) -> bool {
    c == ' ' || c == '\t' || c == '\n' || c == '\r'
}

/// Whether a scalar that is no string can begin with `c`.
pub open spec fn begins_scalar(c: char) -> bool {
    c == '-' || ('0' <= c && c <= '9') || c == 't' || c == 'f' || c == 'n'
}

/// Whether `c` ends a scalar that is no string.
pub open spec fn ends_scalar(c: char) -> bool {
    is_space(c) || c == ',' || c == '}' || c == ']'
}

/// Whether the key `"id"` stands at the position `at`.
pub open spec fn key_at(text: Seq<char>, at: int) -> bool {
    0 <= at && at + 4 <= text.len() && text[at] == '"' && text[at + 1] == 'i' && text[at + 2] == 'd'
        && text[at + 3] == '"'
}

/// The first position from `from` on that holds no white space.
pub open spec fn after_space(text: Seq<char>, from: int) -> int
    decreases text.len() - from,
{
    if 0 <= from < text.len() && is_space(text[from]) {
        after_space(text, from + 1)
    } else {
        from
    }
}

/// The position behind the quote that closes a string whose inside begins at
/// `from`, if the string is closed. `escaped` says whether the character at
/// `from` follows a backslash.
pub open spec fn string_end(text: Seq<char>, from: int, escaped: bool) -> Option<int>
    decreases text.len() - from,
{
    if from < 0 || from >= text.len() {
        None
    } else if escaped {
        string_end(text, from + 1, false)
    } else if text[from] == '\\' {
        string_end(text, from + 1, true)
    } else if text[from] == '"' {
        Some(from + 1)
    } else {
        string_end(text, from + 1, false)
    }
}

/// The position at which a scalar that is no string ends: the first
/// character from `from` on that ends it, or the end of the text.
pub open spec fn bare_end(text: Seq<char>, from: int) -> int
    decreases text.len() - from,
{
    if 0 <= from < text.len() && !ends_scalar(text[from]) {
        bare_end(text, from + 1)
    } else {
        from
    }
}

/// The scalar that begins at the position `at`, as it is written.
pub open spec fn scalar_at(text: Seq<char>, at: int) -> Option<Seq<char>> {
    if at < 0 || at >= text.len() {
        None
    } else if text[at] == '"' {
        match string_end(text, at + 1, false) {
            Some(end) => Some(text.subrange(at, end)),
            None => None,
        }
    } else if begins_scalar(text[at]) {
        Some(text.subrange(at, bare_end(text, at)))
    } else {
        None
    }
}

/// The scalar behind a key that ends before the position `from`: white
/// space, a colon, white space, and the scalar.
pub open spec fn value_after(text: Seq<char>, from: int) -> Option<Seq<char>> {
    let colon = after_space(text, from);
    if 0 <= colon < text.len() && text[colon] == ':' {
        scalar_at(text, after_space(text, colon + 1))
    } else {
        None
    }
}

/// The identifier that the rest of the text from `at` on holds, as it is
/// written. `depth` counts the brackets that are open at `at`; `in_string`
/// and `escaped` say whether `at` lies in a string, and behind a backslash.
pub open spec fn id_from(
    text: Seq<char>,
    at: int,
    depth: int,
    in_string: bool,
    escaped: bool,
) -> Option<Seq<char>>
    decreases text.len() - at,
{
    if at < 0 || at >= text.len() {
        None
    } else if in_string {
        if escaped {
            id_from(text, at + 1, depth, true, false)
        } else if text[at] == '\\' {
            id_from(text, at + 1, depth, true, true)
        } else if text[at] == '"' {
            id_from(text, at + 1, depth, false, false)
        } else {
            id_from(text, at + 1, depth, true, false)
        }
    } else if text[at] == '"' {
        if depth == 1 && key_at(text, at) && value_after(text, at + 4) is Some {
            value_after(text, at + 4)
        } else {
            id_from(text, at + 1, depth, true, false)
        }
    } else if text[at] == '{' || text[at] == '[' {
        id_from(text, at + 1, depth + 1, false, false)
    } else if (text[at] == '}' || text[at] == ']') && depth > 0 {
        id_from(text, at + 1, depth - 1, false, false)
    } else {
        id_from(text, at + 1, depth, false, false)
    }
}

/// The identifier of a request as it is written in the text of the request:
/// the scalar behind the first key `"id"` of the outermost object.
pub open spec fn written_id(text: Seq<char>) -> Option<Seq<char>> {
    id_from(text, 0, 0, false, false)
}

fn space(c: char) -> (answer: bool)
    ensures
        answer == is_space(c),
{
    c == ' ' || c == '\t' || c == '\n' || c == '\r'
}

fn skip_space(text: &Vec<char>, from: usize) -> (at: usize)
    requires
        from <= text@.len(),
    ensures
        at == after_space(text@, from as int),
        from <= at <= text@.len(),
{
    let mut at: usize = from;
    while at < text.len() && space(text[at])
        invariant
            from <= at <= text@.len(),
            after_space(text@, from as int) == after_space(text@, at as int),
        decreases text.len() - at,
    {
        at = at + 1;
    }
    at
}

fn end_of_string(text: &Vec<char>, from: usize) -> (end: Option<usize>)
    requires
        from <= text@.len(),
    ensures
        match end {
            Some(e) => string_end(text@, from as int, false) == Some(e as int) && from < e
                <= text@.len(),
            None => string_end(text@, from as int, false) is None,
        },
{
    let mut at: usize = from;
    let mut escaped = false;
    while at < text.len()
        invariant
            from <= at <= text@.len(),
            string_end(text@, from as int, false) == string_end(text@, at as int, escaped),
        decreases text.len() - at,
    {
        if escaped {
            escaped = false;
        } else if text[at] == '\\' {
            escaped = true;
        } else if text[at] == '"' {
            return Some(at + 1);
        }
        at = at + 1;
    }
    None
}

fn end_of_bare(text: &Vec<char>, from: usize) -> (end: usize)
    requires
        from <= text@.len(),
    ensures
        end == bare_end(text@, from as int),
        from <= end <= text@.len(),
{
    let mut at: usize = from;
    while at < text.len() && !(space(text[at]) || text[at] == ',' || text[at] == '}' || text[at]
        == ']')
        invariant
            from <= at <= text@.len(),
            bare_end(text@, from as int) == bare_end(text@, at as int),
        decreases text.len() - at,
    {
        at = at + 1;
    }
    at
}

fn slice(text: &Vec<char>, from: usize, to: usize) -> (part: Vec<char>)
    requires
        from <= to <= text@.len(),
    ensures
        part@ == text@.subrange(from as int, to as int),
{
    let mut part: Vec<char> = Vec::new();
    let mut at: usize = from;
    while at < to
        invariant
            from <= at <= to <= text@.len(),
            part@ == text@.subrange(from as int, at as int),
        decreases to - at,
    {
        part.push(text[at]);
        assert(text@.subrange(from as int, at + 1) =~= text@.subrange(from as int, at as int).push(
            text@[at as int],
        ));
        at = at + 1;
    }
    part
}

fn scalar(text: &Vec<char>, at: usize) -> (token: Option<Vec<char>>)
    requires
        at <= text@.len(),
    ensures
        match token {
            Some(t) => scalar_at(text@, at as int) == Some(t@),
            None => scalar_at(text@, at as int) is None,
        },
{
    if at >= text.len() {
        return None;
    }
    let c = text[at];
    if c == '"' {
        match end_of_string(text, at + 1) {
            Some(end) => Some(slice(text, at, end)),
            None => None,
        }
    } else if c == '-' || ('0' <= c && c <= '9') || c == 't' || c == 'f' || c == 'n' {
        let end = end_of_bare(text, at);
        Some(slice(text, at, end))
    } else {
        None
    }
}

fn value_behind(text: &Vec<char>, from: usize) -> (token: Option<Vec<char>>)
    requires
        from <= text@.len(),
    ensures
        match token {
            Some(t) => value_after(text@, from as int) == Some(t@),
            None => value_after(text@, from as int) is None,
        },
{
    let colon = skip_space(text, from);
    if colon < text.len() && text[colon] == ':' {
        let start = skip_space(text, colon + 1);
        scalar(text, start)
    } else {
        None
    }
}

/// Finds the identifier of a request in its text, as it is written: see
/// [`written_id`].
pub fn find_written_id(text: &str) -> (token: Option<String>)
    ensures
        match token {
            Some(t) => written_id(text@) == Some(t@),
            None => written_id(text@) is None,
        },
{
    let chars = chars_of(text);
    let mut at: usize = 0;
    let mut depth: usize = 0;
    let mut in_string = false;
    let mut escaped = false;
    while at < chars.len()
        invariant
            at <= chars@.len(),
            depth <= at,
            chars@ == text@,
            written_id(text@) == id_from(chars@, at as int, depth as int, in_string, escaped),
        decreases chars.len() - at,
    {
        let c = chars[at];
        if in_string {
            if escaped {
                escaped = false;
            } else if c == '\\' {
                escaped = true;
            } else if c == '"' {
                in_string = false;
            }
        } else if c == '"' {
            let mut found: Option<Vec<char>> = None;
            if depth == 1 && chars.len() - at >= 4 && chars[at + 1] == 'i' && chars[at + 2] == 'd'
                && chars[at + 3] == '"' {
                found = value_behind(&chars, at + 4);
            }
            match found {
                Some(token) => {
                    return Some(string_of(&token));
                },
                None => {
                    in_string = true;
                    escaped = false;
                },
            }
        } else if c == '{' || c == '[' {
            depth = depth + 1;
        } else if (c == '}' || c == ']') && depth > 0 {
            depth = depth - 1;
        }
        at = at + 1;
    }
    None
}

} // verus!
