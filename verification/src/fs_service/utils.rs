//! Paths and line endings.
//!
//! Paths are texts. How a text splits into components is left to
//! `std::path::Path`, under the rules of the platform the crate is built for;
//! the contracts here name what it answers.

use vstd::prelude::*;
use vstd::string::StringExecFns;
use crate::strings::{chars_of, decimal, decimal_text, digit_char};

verus! {

/// How a tool lays out what it reports.
#[derive(Debug, Clone, Copy, PartialEq, Eq, Structural)]
pub enum OutputFormat {
    Text,
    Json,
}

/// Whether the components of `base` are the first components of `path`, as
/// `Path::starts_with` decides it.
pub uninterp spec fn path_has_prefix(path: Seq<char>, base: Seq<char>) -> bool;

/// What is left of `path` behind the components of `base`, as
/// `Path::strip_prefix` gives it.
pub uninterp spec fn path_after_prefix(path: Seq<char>, base: Seq<char>) -> Option<Seq<char>>;

/// Whether `path` is absolute, as `Path::is_absolute` decides it.
pub uninterp spec fn path_is_absolute(path: Seq<char>) -> bool;

/// The path that `Path::join` makes of `base` and `rest`.
pub uninterp spec fn path_joined(base: Seq<char>, rest: Seq<char>) -> Seq<char>;

/// The last component of `path`, as `Path::file_name` gives it.
pub uninterp spec fn path_last_component(path: Seq<char>) -> Option<Seq<char>>;

/// `Path::file_name`: the last component of the path, where it is the name of
/// a file or of a directory.
#[verifier::external_body]
pub(crate) fn path_file_name(path: &str) -> (name: Option<String>)
    ensures
        match name {
            Some(n) => path_last_component(path@) == Some(n@),
            None => path_last_component(path@) is None,
        },
{
    std::path::Path::new(path).file_name().map(|n| n.to_string_lossy().into_owned())
}

/// `Path::starts_with`: whether `base` is a prefix of `path`, whole
/// components only.
#[verifier::external_body]
pub(crate) fn path_starts_with(path: &str, base: &str) -> (answer: bool)
    ensures
        answer == path_has_prefix(path@, base@),
{
    std::path::Path::new(path).starts_with(std::path::Path::new(base))
}

/// `Path::strip_prefix`: `path` without the leading components that are
/// `base`. As documented, there is a result exactly when `path` starts with
/// `base`.
#[verifier::external_body]
pub(crate) fn path_strip_prefix(path: &str, base: &str) -> (rest: Option<String>)
    ensures
        match rest {
            Some(r) => path_after_prefix(path@, base@) == Some(r@),
            None => path_after_prefix(path@, base@) is None,
        },
        rest is Some <==> path_has_prefix(path@, base@),
{
    std::path::Path::new(path).strip_prefix(base).ok().map(|p| p.to_string_lossy().into_owned())
}

/// `Path::is_absolute`.
#[verifier::external_body]
pub(crate) fn path_absolute(path: &str) -> (answer: bool)
    ensures
        answer == path_is_absolute(path@),
{
    std::path::Path::new(path).is_absolute()
}

/// `Path::join`: `rest` itself where it is absolute, else `base` extended by
/// `rest`.
#[verifier::external_body]
pub(crate) fn path_join(base: &str, rest: &str) -> (path: String)
    ensures
        path@ == path_joined(base@, rest@),
{
    std::path::Path::new(base).join(rest).to_string_lossy().into_owned()
}

/// `dirs::home_dir`: the home directory of the user, which the environment
/// decides. Nothing is known of what comes back. A directory whose name is
/// no text in UTF-8 is handed on as none, not as an altered name.
#[verifier::external_body]
fn read_home_dir() -> (home: Option<String>) {
    dirs::home_dir().and_then(|p| p.into_os_string().into_string().ok())
}

/// The home directory of the user, if the environment has one whose name is
/// text.
pub fn home_directory() -> Option<String> {
    read_home_dir()
}

/// The canonical form of a path where the file system has one, else the path
/// as it is.
pub fn normalize_path(path: &str, canonical: Option<&str>) -> (normalized: String)
    ensures
        normalized@ == match canonical {
            Some(c) => c@,
            None => path@,
        },
{
    match canonical {
        Some(c) => c.to_owned(),
        None => path.to_owned(),
    }
}

/// A path with a leading `~` component replaced by the home directory. The
/// path is left as it is where there is no home directory, or no such
/// component.
pub open spec fn expanded_home(path: Seq<char>, home: Option<Seq<char>>) -> Seq<char> {
    match home {
        Some(h) => match path_after_prefix(path, "~"@) {
            Some(rest) => path_joined(h, rest),
            None => path,
        },
        None => path,
    }
}

/// Whether `expanded` is `path` with a leading `~` component replaced by some
/// home directory, or by none.
pub open spec fn is_expansion(path: Seq<char>, expanded: Seq<char>) -> bool {
    exists|home: Option<Seq<char>>| expanded == expanded_home(path, home)
}

/// Replaces a leading `~` component of `path` by the given home directory.
pub fn expand_home_in(path: String, home: Option<&str>) -> (expanded: String)
    ensures
        expanded@ == expanded_home(
            path@,
            match home {
                Some(h) => Some(h@),
                None => None,
            },
        ),
        !path_has_prefix(path@, "~"@) ==> expanded@ == path@,
{
    match home {
        Some(h) => match path_strip_prefix(path.as_str(), "~") {
            Some(rest) => path_join(h, rest.as_str()),
            None => path,
        },
        None => path,
    }
}

/// Replaces a leading `~` component of `path` by the home directory of the
/// user, as the environment gives it at the moment of the call.
pub fn expand_home(path: String) -> (expanded: String)
    ensures
        is_expansion(path@, expanded@),
        !path_has_prefix(path@, "~"@) ==> expanded@ == path@,
{
    let home = read_home_dir();
    let ghost home_view: Option<Seq<char>> = match &home {
        Some(h) => Some(h@),
        None => None,
    };
    let expanded = match &home {
        Some(h) => expand_home_in(path, Some(h.as_str())),
        None => expand_home_in(path, None),
    };
    assert(expanded@ == expanded_home(path@, home_view));
    expanded
}

/// A text with every line ending turned into a single line feed: a carriage
/// return followed by a line feed, and a carriage return alone.
pub open spec fn unix_line_endings(text: Seq<char>) -> Seq<char>
    decreases text.len(),
{
    if text.len() == 0 {
        Seq::empty()
    } else if text[0] == '\r' && text.len() >= 2 && text[1] == '\n' {
        seq!['\n'] + unix_line_endings(text.skip(2))
    } else if text[0] == '\r' {
        seq!['\n'] + unix_line_endings(text.skip(1))
    } else {
        seq![text[0]] + unix_line_endings(text.skip(1))
    }
}

/// Turns every line ending of `content` into a single line feed.
pub fn normalize_line_endings(content: &str) -> (normalized: String)
    ensures
        normalized@ == unix_line_endings(content@),
{
    let chars = chars_of(content);
    let mut normalized = String::new();
    let mut i: usize = 0;
    assert(chars@.skip(0) =~= chars@);
    while i < chars.len()
        invariant
            i <= chars.len(),
            chars@ == content@,
            normalized@ + unix_line_endings(chars@.skip(i as int)) == unix_line_endings(chars@),
        decreases chars.len() - i,
    {
        let ghost rest = chars@.skip(i as int);
        let ghost before = normalized@;
        assert(rest[0] == chars@[i as int]);
        if chars[i] == '\r' && i + 1 < chars.len() && chars[i + 1] == '\n' {
            assert(rest[1] == chars@[i + 1]);
            assert(rest.skip(2) =~= chars@.skip(i + 2));
            normalized.push('\n');
            assert(normalized@ + unix_line_endings(chars@.skip(i + 2)) =~= before
                + unix_line_endings(rest));
            i = i + 2;
        } else {
            assert(rest.skip(1) =~= chars@.skip(i + 1));
            assert(rest.len() >= 2 ==> rest[1] == chars@[i + 1]);
            if chars[i] == '\r' {
                normalized.push('\n');
            } else {
                normalized.push(chars[i]);
            }
            assert(normalized@ + unix_line_endings(chars@.skip(i + 1)) =~= before
                + unix_line_endings(rest));
            i = i + 1;
        }
    }
    assert(chars@.skip(chars@.len() as int) =~= Seq::<char>::empty());
    assert(normalized@ + Seq::<char>::empty() =~= normalized@);
    normalized
}

/// A text with line feeds only stays as it is.
pub proof fn lemma_unix_line_endings_settle(text: Seq<char>)
    ensures
        unix_line_endings(unix_line_endings(text)) == unix_line_endings(text),
    decreases text.len(),
{
    lemma_no_carriage_return(text);
    lemma_unchanged_without_carriage_return(unix_line_endings(text));
}

proof fn lemma_no_carriage_return(text: Seq<char>)
    ensures
        forall|i: int|
            0 <= i < unix_line_endings(text).len() ==> unix_line_endings(text)[i] != '\r',
    decreases text.len(),
{
    if text.len() > 0 {
        let rest = if text[0] == '\r' && text.len() >= 2 && text[1] == '\n' {
            text.skip(2)
        } else {
            text.skip(1)
        };
        let first = if text[0] == '\r' {
            '\n'
        } else {
            text[0]
        };
        lemma_no_carriage_return(rest);
        assert(unix_line_endings(text) =~= seq![first] + unix_line_endings(rest));
        assert forall|i: int| 0 <= i < unix_line_endings(text).len() implies unix_line_endings(
            text,
        )[i] != '\r' by {
            if i > 0 {
                assert(unix_line_endings(text)[i] == unix_line_endings(rest)[i - 1]);
            }
        }
    }
}

proof fn lemma_unchanged_without_carriage_return(text: Seq<char>)
    requires
        forall|i: int| 0 <= i < text.len() ==> text[i] != '\r',
    ensures
        unix_line_endings(text) == text,
    decreases text.len(),
{
    if text.len() > 0 {
        lemma_unchanged_without_carriage_return(text.skip(1));
        assert(seq![text[0]] + text.skip(1) =~= text);
    }
}

/// The quotient of two numbers, rounded to the nearest whole number, and to
/// the even one of two that are equally near.
pub open spec fn rounded_quotient(numerator: int, denominator: int) -> int {
    let quotient = numerator / denominator;
    let rest = numerator % denominator;
    if 2 * rest > denominator || (2 * rest == denominator && quotient % 2 == 1) {
        quotient + 1
    } else {
        quotient
    }
}

/// The step between the numbers near `bytes` that a binary fraction of 53
/// digits can hold: one for a number below two to the power of 53.
pub open spec fn precision_step(bytes: int) -> int
    decreases bytes,
{
    if bytes < 9007199254740992 {
        1
    } else {
        2 * precision_step(bytes / 2)
    }
}

/// A size as a binary fraction of 53 digits holds it.
pub open spec fn held_size(bytes: int) -> int {
    rounded_quotient(bytes, precision_step(bytes)) * precision_step(bytes)
}

/// How many times a size is divided by 1024 before it is shown: until it is
/// below 1024, and five times at most.
pub open spec fn unit_index(bytes: int) -> int {
    if bytes < 1024 {
        0
    } else if bytes < 1048576 {
        1
    } else if bytes < 1073741824 {
        2
    } else if bytes < 1099511627776 {
        3
    } else if bytes < 1125899906842624 {
        4
    } else {
        5
    }
}

/// The number of bytes that the unit with the given index stands for.
pub open spec fn unit_size(index: int) -> int {
    if index == 0 {
        1
    } else if index == 1 {
        1024
    } else if index == 2 {
        1048576
    } else if index == 3 {
        1073741824
    } else if index == 4 {
        1099511627776
    } else {
        1125899906842624
    }
}

/// The name of the unit with the given index.
pub open spec fn unit_name(index: int) -> Seq<char> {
    if index == 0 {
        "B"@
    } else if index == 1 {
        "KB"@
    } else if index == 2 {
        "MB"@
    } else if index == 3 {
        "GB"@
    } else if index == 4 {
        "TB"@
    } else {
        "PB"@
    }
}

/// A size as it is shown: in bytes below 1024, and else in the largest unit
/// that it fills, up to `PB`, with one digit behind the point. The size is
/// taken as a binary fraction of 53 digits holds it and rounded to the
/// nearest tenth of the unit.
pub open spec fn bytes_text(bytes: int) -> Seq<char> {
    let index = unit_index(bytes);
    if index == 0 {
        decimal_text(bytes as nat) + " B"@
    } else {
        let tenths = rounded_quotient(held_size(bytes) * 10, unit_size(index));
        decimal_text((tenths / 10) as nat) + "."@ + seq![digit_char((tenths % 10) as nat)] + " "@
            + unit_name(index)
    }
}

fn round_quotient(numerator: u128, denominator: u128) -> (rounded: u128)
    requires
        denominator > 0,
        numerator < u128::MAX,
    ensures
        rounded == rounded_quotient(numerator as int, denominator as int),
        rounded <= numerator / denominator + 1,
{
    let quotient = numerator / denominator;
    let rest = numerator % denominator;
    if rest > denominator - rest || (rest == denominator - rest && quotient % 2 == 1) {
        quotient + 1
    } else {
        quotient
    }
}

fn precision(bytes: u64) -> (step: u64)
    ensures
        step == precision_step(bytes as int),
        1 <= step < 4096,
        step > 1 ==> bytes >= 4503599627370496 * step,
    decreases bytes,
{
    if bytes < 9007199254740992 {
        1
    } else {
        2 * precision(bytes / 2)
    }
}

/// Shows a size: see [`bytes_text`].
pub fn format_bytes(bytes: u64) -> (text: String)
    ensures
        text@ == bytes_text(bytes as int),
{
    if bytes < 1024 {
        return decimal(bytes).concat(" B");
    }
    let (unit, name): (u128, &'static str) = if bytes < 1048576 {
        (1024, "KB")
    } else if bytes < 1073741824 {
        (1048576, "MB")
    } else if bytes < 1099511627776 {
        (1073741824, "GB")
    } else if bytes < 1125899906842624 {
        (1099511627776, "TB")
    } else {
        (1125899906842624, "PB")
    };
    let step = precision(bytes);
    let nearest = round_quotient(bytes as u128, step as u128);
    assert(nearest * step <= bytes + step) by (nonlinear_arith)
        requires
            nearest <= bytes as int / step as int + 1,
            step >= 1,
            bytes >= 0,
    ;
    let held: u128 = nearest * (step as u128);
    let tenths = round_quotient(held * 10, unit);
    assert(tenths / 10 <= u64::MAX);
    let whole = (tenths / 10) as u64;
    let mut text = decimal(whole);
    text.append(".");
    text.push(crate::strings::digit((tenths % 10) as u64));
    text.append(" ");
    text.append(name);
    proof {
        assert(text@ =~= bytes_text(bytes as int));
    }
    text
}

} // verus!
