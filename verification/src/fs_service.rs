//! The path sandbox.
//!
//! A service holds the directories that may be reached and those that may
//! not. Whether a requested path is admitted is decided from these lists and
//! from what the caller found out about the file system, handed over in a
//! [`PathEnvironment`]: the library itself touches no file.

pub mod file_info;
pub mod utils;

use vstd::prelude::*;
use vstd::string::StringExecFns;
use infer::MatcherType;
use crate::error::{ServiceError, ServiceResult};
use crate::strings::{
    chars_of, contains, contains_text, extend_from, find, first_occurrence, has_run, is_run, join,
    joined, lines, lines_of, longest_run, occurs_at, optional_text_view, repeated, spliced,
    string_of, texts_view,
};
use crate::tools::edit_operation::{edits_view, EditOperation, EditOperationView};
use utils::{
    expand_home_in, expanded_home, normalize_line_endings, normalize_path, path_absolute,
    path_has_prefix, path_is_absolute, path_join, path_joined, path_starts_with, unix_line_endings,
};

verus! {

pub struct FileSystemService {
    allowed_path: Vec<String>,
    blocked_path: Vec<String>,
}

/// What the caller found in the environment and on the file system for one
/// requested path.
pub struct PathEnvironment {
    /// The home directory of the user, if there is one.
    pub home_dir: Option<String>,
    /// The directory against which a relative path is resolved.
    pub current_dir: String,
    /// The canonical form of the requested path, made absolute, where the
    /// file system has one.
    pub canonical: Option<String>,
    /// The canonical form of each blocked directory, in the order of the
    /// service, where the file system has one.
    pub canonical_blocked: Vec<Option<String>>,
    /// The same for the allowed directories.
    pub canonical_allowed: Vec<Option<String>>,
    /// Whether the requested path, made absolute, exists.
    pub exists: bool,
}

/// The lines that match in one file.
#[derive(Debug)]
pub struct FileSearchResult {
    pub file_path: String,
    pub matches: Vec<Match>,
}

/// One matching line.
#[derive(Debug)]
pub struct Match {
    pub line_number: usize,
    pub start_pos: usize,
    pub line_text: String,
}

/// The canonical form known for the directory at `index`, if any.
pub open spec fn canonical_at(forms: Seq<Option<String>>, index: int) -> Option<Seq<char>> {
    if 0 <= index < forms.len() {
        optional_text_view(forms[index])
    } else {
        None
    }
}

/// Whether `path` is `directory` or lies below it, the directory taken as it
/// is written and in its canonical form.
pub open spec fn inside(
    path: Seq<char>,
    directory: Seq<char>,
    canonical: Option<Seq<char>>,
) -> bool {
    path_has_prefix(path, directory) || path_has_prefix(
        path,
        match canonical {
            Some(c) => c,
            None => directory,
        },
    )
}

/// Whether `path` is inside one of the directories.
pub open spec fn inside_any(
    path: Seq<char>,
    directories: Seq<Seq<char>>,
    forms: Seq<Option<String>>,
) -> bool {
    exists|i: int|
        0 <= i < directories.len() && inside(
            path,
            #[trigger] directories[i],
            canonical_at(forms, i),
        )
}

/// A path with the home directory filled in, and resolved against the
/// current directory where it is relative.
pub open spec fn absolute_form(
    path: Seq<char>,
    home: Option<Seq<char>>,
    current_dir: Seq<char>,
) -> Seq<char> {
    let expanded = expanded_home(path, home);
    if path_is_absolute(expanded) {
        expanded
    } else {
        path_joined(current_dir, expanded)
    }
}

/// What the caller found in the environment and on the file system for the
/// directories that a service is made of.
pub struct DirectoryEnvironment {
    /// The home directory of the user, if there is one.
    pub home_dir: Option<String>,
    /// The directory against which a relative directory is resolved.
    pub current_dir: String,
    /// The canonical form of each allowed directory, made absolute, in the
    /// order in which the directories are given, where the file system has
    /// one.
    pub canonical_allowed: Vec<Option<String>>,
    /// The same for the blocked directories.
    pub canonical_blocked: Vec<Option<String>>,
}

/// The normalized form of a directory: its canonical form where the file
/// system has one, and else its absolute form.
pub open spec fn normalized_directory(
    given: Seq<char>,
    home: Option<Seq<char>>,
    current_dir: Seq<char>,
    canonical: Option<Seq<char>>,
) -> Seq<char> {
    match canonical {
        Some(form) => form,
        None => absolute_form(given, home, current_dir),
    }
}

/// Whether `normalized` holds the normalized form of every given directory,
/// in the same order.
pub open spec fn each_normalized(
    given: Seq<String>,
    home: Option<Seq<char>>,
    current_dir: Seq<char>,
    forms: Seq<Option<String>>,
    normalized: Seq<String>,
) -> bool {
    &&& normalized.len() == given.len()
    &&& forall|i: int|
        0 <= i < given.len() ==> (#[trigger] normalized[i])@ == normalized_directory(
            given[i]@,
            home,
            current_dir,
            canonical_at(forms, i),
        )
}

impl PathEnvironment {
    /// The requested path with the home directory filled in, and resolved
    /// against the current directory where it is relative.
    pub open spec fn absolute(&self, requested: Seq<char>) -> Seq<char> {
        absolute_form(requested, optional_text_view(self.home_dir), self.current_dir@)
    }

    /// The path that is held against the directories: the canonical form
    /// where there is one, else the absolute path.
    pub open spec fn normalized(&self, requested: Seq<char>) -> Seq<char> {
        match self.canonical {
            Some(c) => c@,
            None => self.absolute(requested),
        }
    }
}

fn inside_any_dir(path: &str, directories: &Vec<String>, forms: &Vec<Option<String>>) -> (found:
    bool)
    ensures
        found == inside_any(path@, texts_view(directories@), forms@),
{
    let mut i: usize = 0;
    while i < directories.len()
        invariant
            i <= directories.len(),
            forall|k: int|
                0 <= k < i ==> !inside(
                    path@,
                    #[trigger] texts_view(directories@)[k],
                    canonical_at(forms@, k),
                ),
        decreases directories.len() - i,
    {
        let directory = directories[i].as_str();
        assert(texts_view(directories@)[i as int] == directory@);
        if path_starts_with(path, directory) {
            return true;
        }
        let canonical: Option<&str> = if i < forms.len() {
            match &forms[i] {
                Some(c) => Some(c.as_str()),
                None => None,
            }
        } else {
            None
        };
        let normalized = normalize_path(directory, canonical);
        if path_starts_with(path, normalized.as_str()) {
            return true;
        }
        i = i + 1;
    }
    false
}

fn normalize_each(
    directories: &[String],
    home: Option<&str>,
    current_dir: &str,
    forms: &Vec<Option<String>>,
) -> (normalized: Vec<String>)
    ensures
        each_normalized(
            directories@,
            match home {
                Some(h) => Some(h@),
                None => None,
            },
            current_dir@,
            forms@,
            normalized@,
        ),
{
    let mut normalized: Vec<String> = Vec::new();
    let mut i: usize = 0;
    while i < directories.len()
        invariant
            i <= directories.len(),
            normalized@.len() == i,
            forall|k: int|
                0 <= k < i ==> (#[trigger] normalized@[k])@ == normalized_directory(
                    directories@[k]@,
                    match home {
                        Some(h) => Some(h@),
                        None => None,
                    },
                    current_dir@,
                    canonical_at(forms@, k),
                ),
        decreases directories.len() - i,
    {
        let absolute = FileSystemService::absolute_path(
            directories[i].as_str(),
            home,
            current_dir,
        );
        let canonical: Option<&str> = if i < forms.len() {
            match &forms[i] {
                Some(form) => Some(form.as_str()),
                None => None,
            }
        } else {
            None
        };
        normalized.push(normalize_path(absolute.as_str(), canonical));
        i = i + 1;
    }
    normalized
}

impl FileSystemService {
    /// The allowed directories. Where there is none, every path is allowed
    /// that is not blocked.
    pub closed spec fn allowed(&self) -> Seq<String> {
        self.allowed_path@
    }

    /// The blocked directories.
    pub closed spec fn blocked(&self) -> Seq<String> {
        self.blocked_path@
    }

    /// Whether the requested path lies in a blocked directory.
    pub open spec fn is_blocked(&self, requested: Seq<char>, environment: PathEnvironment) -> bool {
        inside_any(
            environment.normalized(requested),
            texts_view(self.blocked()),
            environment.canonical_blocked@,
        )
    }

    /// Whether the requested path lies in an allowed directory.
    pub open spec fn is_allowed(&self, requested: Seq<char>, environment: PathEnvironment) -> bool {
        inside_any(
            environment.normalized(requested),
            texts_view(self.allowed()),
            environment.canonical_allowed@,
        )
    }

    /// Whether the requested path is admitted: it lies in no blocked
    /// directory, and in an allowed one where any directory is allowed.
    pub open spec fn admits(&self, requested: Seq<char>, environment: PathEnvironment) -> bool {
        &&& !self.is_blocked(requested, environment)
        &&& (self.allowed().len() == 0 || self.is_allowed(requested, environment))
    }

    /// Whether `admitted` is the outcome of the admission of a path that has
    /// to exist where `must_exist` says so: the absolute path where it is
    /// admitted, the uniform rejection where the sandbox does not admit it,
    /// and a file that is not found where it had to exist.
    pub open spec fn admission(
        &self,
        requested: Seq<char>,
        environment: PathEnvironment,
        must_exist: bool,
        admitted: ServiceResult<String>,
    ) -> bool {
        if !self.admits(requested, environment) {
            admitted matches Err(ServiceError::PathNotAllowed)
        } else if must_exist && !environment.exists {
            admitted matches Err(ServiceError::FileNotFound(path)) && path@ == environment.absolute(
                requested,
            )
        } else {
            admitted matches Ok(path) && path@ == environment.absolute(requested)
        }
    }

    /// Whether `admitted` is the outcome of the admission of a transfer: the
    /// source has to be admitted and to exist, the destination has to be
    /// admitted, and the source is looked at first.
    pub open spec fn transfer_admission(
        &self,
        source: Seq<char>,
        source_environment: PathEnvironment,
        destination: Seq<char>,
        destination_environment: PathEnvironment,
        admitted: ServiceResult<(String, String)>,
    ) -> bool {
        if !self.admits(source, source_environment) {
            admitted matches Err(ServiceError::PathNotAllowed)
        } else if !source_environment.exists {
            admitted matches Err(ServiceError::FileNotFound(path)) && path@
                == source_environment.absolute(source)
        } else if !self.admits(destination, destination_environment) {
            admitted matches Err(ServiceError::PathNotAllowed)
        } else {
            admitted matches Ok((from, to)) && from@ == source_environment.absolute(source) && to@
                == destination_environment.absolute(destination)
        }
    }

    /// A service for the given directories, each in its normalized form: the
    /// home directory filled in, made absolute against the current
    /// directory, and replaced by its canonical form where the file system
    /// has one. The order of the directories is kept.
    pub fn try_new(
        allowed_directories: &[String],
        blocked_directories: &[String],
        environment: &DirectoryEnvironment,
    ) -> (service: ServiceResult<FileSystemService>)
        ensures
            service matches Ok(made) && each_normalized(
                allowed_directories@,
                optional_text_view(environment.home_dir),
                environment.current_dir@,
                environment.canonical_allowed@,
                made.allowed(),
            ) && each_normalized(
                blocked_directories@,
                optional_text_view(environment.home_dir),
                environment.current_dir@,
                environment.canonical_blocked@,
                made.blocked(),
            ),
    {
        let home: Option<&str> = match &environment.home_dir {
            Some(h) => Some(h.as_str()),
            None => None,
        };
        Ok(
            FileSystemService {
                allowed_path: normalize_each(
                    allowed_directories,
                    home,
                    environment.current_dir.as_str(),
                    &environment.canonical_allowed,
                ),
                blocked_path: normalize_each(
                    blocked_directories,
                    home,
                    environment.current_dir.as_str(),
                    &environment.canonical_blocked,
                ),
            },
        )
    }

    pub fn allowed_directories(&self) -> (directories: &Vec<String>)
        ensures
            directories@ == self.allowed(),
    {
        &self.allowed_path
    }

    pub fn blocked_directories(&self) -> (directories: &Vec<String>)
        ensures
            directories@ == self.blocked(),
    {
        &self.blocked_path
    }

    /// The requested path with the home directory filled in, and resolved
    /// against the current directory where it is relative. The file system is
    /// not asked whether it exists.
    pub fn absolute_path(requested: &str, home: Option<&str>, current_dir: &str) -> (absolute:
        String)
        ensures
            absolute@ == absolute_form(
                requested@,
                match home {
                    Some(h) => Some(h@),
                    None => None,
                },
                current_dir@,
            ),
    {
        let expanded = expand_home_in(requested.to_owned(), home);
        if path_absolute(expanded.as_str()) {
            expanded
        } else {
            path_join(current_dir, expanded.as_str())
        }
    }

    /// Decides whether a requested path may be touched, and gives its
    /// absolute form where it may. A blocked directory wins over an allowed
    /// one. Every rejection is the same `PathNotAllowed`.
    pub fn validate_path(&self, requested: &str, environment: &PathEnvironment) -> (admitted:
        ServiceResult<String>)
        ensures
            self.admission(requested@, *environment, false, admitted),
            admitted is Ok <==> self.admits(requested@, *environment),
    {
        let home: Option<&str> = match &environment.home_dir {
            Some(h) => Some(h.as_str()),
            None => None,
        };
        let absolute = Self::absolute_path(requested, home, environment.current_dir.as_str());
        let canonical: Option<&str> = match &environment.canonical {
            Some(c) => Some(c.as_str()),
            None => None,
        };
        let normalized = normalize_path(absolute.as_str(), canonical);
        assert(normalized@ == environment.normalized(requested@));
        if inside_any_dir(normalized.as_str(), &self.blocked_path, &environment.canonical_blocked) {
            return Err(ServiceError::PathNotAllowed);
        }
        if self.allowed_path.len() == 0 {
            return Ok(absolute);
        }
        if !inside_any_dir(
            normalized.as_str(),
            &self.allowed_path,
            &environment.canonical_allowed,
        ) {
            return Err(ServiceError::PathNotAllowed);
        }
        Ok(absolute)
    }

    /// Admits a path as `validate_path` does, and then rejects it where it
    /// does not exist.
    pub fn validate_existing_path(&self, requested: &str, environment: &PathEnvironment) -> (
    admitted: ServiceResult<String>)
        ensures
            self.admission(requested@, *environment, true, admitted),
            admitted is Ok <==> self.admits(requested@, *environment) && environment.exists,
    {
        match self.validate_path(requested, environment) {
            Ok(path) => {
                if !environment.exists {
                    return Err(ServiceError::FileNotFound(path));
                }
                Ok(path)
            },
            Err(error) => Err(error),
        }
    }
}

/// What is known of an entry of a directory.
#[derive(Debug, Clone, Copy)]
pub struct EntryMetadata {
    pub is_dir: bool,
    pub is_file: bool,
    pub len: u64,
}

/// An entry of a directory: its name and, where they could be read, its
/// kind and size.
#[derive(Debug)]
pub struct DirectoryEntry {
    pub file_name: String,
    pub metadata: Option<EntryMetadata>,
}

/// The family of a media type.
#[derive(Debug, Clone, Copy, PartialEq, Eq, Structural)]
pub enum MatcherKind {
    App,
    Archive,
    Audio,
    Book,
    Doc,
    Font,
    Image,
    Text,
    Video,
    Custom,
}

/// A media type as it was told from the first bytes of a file.
#[derive(Debug)]
pub struct MediaType {
    pub mime_type: String,
    pub matcher_type: MatcherKind,
}

/// What an edit of a file comes to.
#[derive(Debug)]
pub struct FileEdit {
    /// The differences, fenced for display.
    pub diff: String,
    /// The new content, with the line endings of the file.
    pub content: String,
}

/// An entry below the root of a tree.
#[derive(Debug)]
pub struct TreeEntry {
    pub file_name: String,
    pub depth: usize,
    pub is_dir: bool,
}

/// A file to search: where it is, what it is called, and what it holds
/// where its content is to be searched and could be read.
#[derive(Debug)]
pub struct SearchCandidate {
    pub path: String,
    pub file_name: String,
    pub content: Option<String>,
}

/// The media type that `infer` tells from the first bytes of a file: its
/// name and its family.
pub uninterp spec fn sniffed_type(data: Seq<u8>) -> Option<(Seq<char>, MatcherKind)>;

/// The text that the standard base64 alphabet with padding makes of bytes.
pub uninterp spec fn base64_text(data: Seq<u8>) -> Seq<char>;

/// The unified diff that `similar` writes for two texts, line by line, under
/// the two header lines and with `radius` lines around every change.
pub uninterp spec fn patch_text(
    original: Seq<char>,
    modified: Seq<char>,
    original_header: Seq<char>,
    modified_header: Seq<char>,
    radius: usize,
) -> Seq<char>;

/// A text in lower case, as `str::to_lowercase` gives it.
pub uninterp spec fn lowercase_text(text: Seq<char>) -> Seq<char>;

/// `infer::get`: the media type of the first matcher that accepts the bytes,
/// with its `mime_type` and its `matcher_type`, and nothing where no matcher
/// does.
#[verifier::external_body]
fn sniff(data: &[u8]) -> (kind: Option<MediaType>)
    ensures
        match kind {
            Some(k) => sniffed_type(data@) == Some((k.mime_type@, k.matcher_type)),
            None => sniffed_type(data@) is None,
        },
{
    infer::get(data).map(|kind| MediaType {
        mime_type: kind.mime_type().to_string(),
        matcher_type: match kind.matcher_type() {
            MatcherType::App => MatcherKind::App, MatcherType::Archive => MatcherKind::Archive,
            MatcherType::Audio => MatcherKind::Audio, MatcherType::Book => MatcherKind::Book,
            MatcherType::Doc => MatcherKind::Doc, MatcherType::Font => MatcherKind::Font,
            MatcherType::Image => MatcherKind::Image, MatcherType::Text => MatcherKind::Text,
            MatcherType::Video => MatcherKind::Video, MatcherType::Custom => MatcherKind::Custom,
        },
    })
}

/// `base64::Engine::encode` of the engine `STANDARD`. It panics where the
/// length of the text does not fit a `usize`, or a buffer; those inputs are
/// left out.
#[verifier::external_body]
fn encode_base64(data: &[u8]) -> (text: String)
    requires
        (data@.len() + 2) / 3 * 4 <= usize::MAX / 2,
    ensures
        text@ == base64_text(data@),
{
    base64::Engine::encode(&base64::engine::general_purpose::STANDARD, data)
}

/// `similar::TextDiff::from_lines` followed by `unified_diff` with the given
/// header and context radius, written with `to_string`. The grouping of the
/// changes doubles the radius, so a radius above half the range of `usize`
/// is left out.
#[verifier::external_body]
fn unified_patch(
    original: &str,
    modified: &str,
    original_header: &str,
    modified_header: &str,
    radius: usize,
) -> (patch: String)
    requires
        radius <= usize::MAX / 2,
    ensures
        patch@ == patch_text(original@, modified@, original_header@, modified_header@, radius),
{
    similar::TextDiff::from_lines(original, modified).unified_diff().header(
        original_header,
        modified_header,
    ).context_radius(radius).to_string()
}

/// `str::to_lowercase`.
#[verifier::external_body]
fn lowercase(text: &str) -> (lower: String)
    ensures
        lower@ == lowercase_text(text@),
{
    text.to_lowercase()
}

/// The line ending that a text uses: a carriage return with a line feed
/// where it has one, else a bare carriage return where it has one, else a
/// line feed.
pub open spec fn line_ending_of(text: Seq<char>) -> Seq<char> {
    if contains_text(text, "\r\n"@) {
        "\r\n"@
    } else if contains_text(text, "\r"@) {
        "\r"@
    } else {
        "\n"@
    }
}

/// The first position at which `pattern` stands in `text`, where it stands
/// anywhere.
pub open spec fn first_position(text: Seq<char>, pattern: Seq<char>) -> int {
    choose|at: int| first_occurrence(text, pattern, at)
}

/// `text` with the first passage that reads `pattern` replaced by `with`, or
/// as it is where no passage does.
pub open spec fn replaced_first(text: Seq<char>, pattern: Seq<char>, with: Seq<char>) -> Seq<char> {
    if contains_text(text, pattern) {
        spliced(text, first_position(text, pattern), pattern.len() as int, with)
    } else {
        text
    }
}

/// `text` after the replacements, applied one after the other, each taken
/// with line feeds only.
pub open spec fn applied(text: Seq<char>, edits: Seq<EditOperationView>) -> Seq<char>
    decreases edits.len(),
{
    if edits.len() == 0 {
        text
    } else {
        replaced_first(
            applied(text, edits.drop_last()),
            unix_line_endings(edits.last().old_text),
            unix_line_endings(edits.last().new_text),
        )
    }
}

/// A text with every line feed replaced by `ending`.
pub open spec fn with_line_ending(text: Seq<char>, ending: Seq<char>) -> Seq<char>
    decreases text.len(),
{
    if text.len() == 0 {
        Seq::empty()
    } else if text.last() == '\n' {
        with_line_ending(text.drop_last(), ending) + ending
    } else {
        with_line_ending(text.drop_last(), ending).push(text.last())
    }
}

/// The name under which a diff shows a file: `file` where none is given.
pub open spec fn diff_name(filepath: Option<Seq<char>>) -> Seq<char> {
    match filepath {
        Some(name) => name,
        None => "file"@,
    }
}

/// The diff of two texts as it is shown: an index line, a rule of 68 equals
/// signs, and the unified diff with four lines around every change.
pub open spec fn unified_diff_text(
    original: Seq<char>,
    modified: Seq<char>,
    filepath: Option<Seq<char>>,
) -> Seq<char> {
    let name = diff_name(filepath);
    "Index: "@ + name + "\n"@ + Seq::new(68, |i: int| '=') + "\n"@ + patch_text(
        unix_line_endings(original),
        unix_line_endings(modified),
        name + "\toriginal"@,
        name + "\tmodified"@,
        4,
    )
}

/// Whether `length` is the length of the fence around a diff: three
/// backticks, or one more than the longest run of backticks in the diff
/// where that is more.
pub open spec fn is_fence_length(diff: Seq<char>, length: int) -> bool {
    &&& length >= 3
    &&& !has_run(diff, '`', length)
    &&& length > 3 ==> has_run(diff, '`', length - 1)
}

/// The length of the fence around a diff.
pub open spec fn fence_length(diff: Seq<char>) -> int {
    choose|length: int| is_fence_length(diff, length)
}

/// What the edit of a file comes to: the diff between the content and the
/// edited content, fenced, and the edited content with the line endings of
/// the file.
pub open spec fn edit_shown(
    path: Seq<char>,
    content: Seq<char>,
    edits: Seq<EditOperationView>,
) -> Seq<char> {
    let original = unix_line_endings(content);
    let diff = unified_diff_text(original, applied(original, edits), Some(path));
    fenced(diff, fence_length(diff))
}

/// A diff between two fences of `length` backticks.
pub open spec fn fenced(diff: Seq<char>, length: int) -> Seq<char> {
    Seq::new(length as nat, |i: int| '`') + "diff\n"@ + diff + Seq::new(length as nat, |i: int| '`')
        + "\n\n"@
}

/// The first `count` of the lines, joined by line feeds.
pub open spec fn head_text(lines: Seq<Seq<char>>, count: int) -> Seq<char> {
    joined(
        if count < lines.len() {
            lines.take(count)
        } else {
            lines
        },
        "\n"@,
    )
}

/// The lines from the position `offset` on, joined by line feeds.
pub open spec fn tail_from(lines: Seq<Seq<char>>, offset: int) -> Seq<char> {
    joined(
        if offset < lines.len() {
            lines.skip(offset)
        } else {
            Seq::empty()
        },
        "\n"@,
    )
}

/// Whether a file matches a search: its name holds the pattern, or its
/// content does, both taken in lower case.
pub open spec fn matches_search(candidate: SearchCandidate, pattern: Seq<char>) -> bool {
    contains_text(lowercase_text(candidate.file_name@), pattern) || (candidate.content matches Some(
        content,
    ) && contains_text(lowercase_text(content@), pattern))
}

/// The paths of the files that match a search, in order.
pub open spec fn search_hits(candidates: Seq<SearchCandidate>, pattern: Seq<char>) -> Seq<
    Seq<char>,
>
    decreases candidates.len(),
{
    if candidates.len() == 0 {
        Seq::empty()
    } else if matches_search(candidates.last(), pattern) {
        search_hits(candidates.drop_last(), pattern).push(candidates.last().path@)
    } else {
        search_hits(candidates.drop_last(), pattern)
    }
}

/// Whether an entry is hidden: its name begins with a dot.
pub open spec fn is_hidden(entry: TreeEntry) -> bool {
    entry.file_name@.len() > 0 && entry.file_name@[0] == '.'
}

/// The line of an entry in a tree: two spaces for every level of depth, the
/// branch, the name, and a slash behind a directory.
pub open spec fn tree_line(entry: TreeEntry) -> Seq<char> {
    Seq::new((2 * entry.depth) as nat, |i: int| ' ') + "├── "@ + entry.file_name@ + (if entry.is_dir {
        "/"@
    } else {
        Seq::empty()
    })
}

/// The lines of the entries of a tree, without the hidden ones unless they
/// are asked for.
pub open spec fn tree_lines(entries: Seq<TreeEntry>, include_hidden: bool) -> Seq<Seq<char>>
    decreases entries.len(),
{
    if entries.len() == 0 {
        Seq::empty()
    } else if !include_hidden && is_hidden(entries.last()) {
        tree_lines(entries.drop_last(), include_hidden)
    } else {
        tree_lines(entries.drop_last(), include_hidden).push(tree_line(entries.last()))
    }
}

/// The sum of the sizes.
pub open spec fn total_of(sizes: Seq<u64>) -> int
    decreases sizes.len(),
{
    if sizes.len() == 0 {
        0
    } else {
        total_of(sizes.drop_last()) + sizes.last()
    }
}

/// The media files among those that could be read, in order.
pub open spec fn media_of(files: Seq<Option<Vec<u8>>>) -> Seq<(Seq<char>, MatcherKind, Seq<char>)>
    decreases files.len(),
{
    if files.len() == 0 {
        Seq::empty()
    } else {
        let front = media_of(files.drop_last());
        match files.last() {
            Some(data) => match sniffed_type(data@) {
                Some((mime_type, matcher_type)) => if (data@.len() + 2) / 3 * 4 <= usize::MAX / 2 {
                    front.push((mime_type, matcher_type, base64_text(data@)))
                } else {
                    front
                },
                None => front,
            },
            None => front,
        }
    }
}

/// What a list of media holds.
pub open spec fn media_view(media: Seq<(MediaType, String)>) -> Seq<
    (Seq<char>, MatcherKind, Seq<char>),
> {
    Seq::new(media.len(), |i: int| (media[i].0.mime_type@, media[i].0.matcher_type, media[i].1@))
}

/// There is one first position at most.
proof fn lemma_first_occurrence_is_one(text: Seq<char>, pattern: Seq<char>, one: int, other: int)
    requires
        first_occurrence(text, pattern, one),
        first_occurrence(text, pattern, other),
    ensures
        one == other,
{
}

/// A run holds every shorter run.
proof fn lemma_shorter_run(text: Seq<char>, c: char, length: int, shorter: int)
    requires
        has_run(text, c, length),
        0 <= shorter <= length,
    ensures
        has_run(text, c, shorter),
{
    let from = choose|from: int| is_run(text, c, from, length);
    assert(is_run(text, c, from, shorter));
}

/// There is one length of fence for a diff.
proof fn lemma_fence_length_is_one(diff: Seq<char>, one: int, other: int)
    requires
        is_fence_length(diff, one),
        is_fence_length(diff, other),
    ensures
        one == other,
{
    if one < other {
        lemma_shorter_run(diff, '`', other - 1, one);
    } else if other < one {
        lemma_shorter_run(diff, '`', one - 1, other);
    }
}

fn replace_first(text: Vec<char>, pattern: &Vec<char>, with: &Vec<char>) -> (replaced: Vec<char>)
    ensures
        replaced@ == replaced_first(text@, pattern@, with@),
{
    match find(&text, pattern) {
        Some(at) => {
            let mut replaced: Vec<char> = Vec::new();
            let mut i: usize = 0;
            while i < at
                invariant
                    i <= at <= text@.len(),
                    replaced@ == text@.take(i as int),
                decreases at - i,
            {
                replaced.push(text[i]);
                assert(text@.take(i + 1) =~= text@.take(i as int).push(text@[i as int]));
                i = i + 1;
            }
            assert(occurs_at(text@, pattern@, at as int));
            assert(text@.len() == text.len());
            extend_from(&mut replaced, with, 0);
            assert(with@.skip(0) =~= with@);
            extend_from(&mut replaced, &text, at + pattern.len());
            assert(replaced@ =~= spliced(text@, at as int, pattern@.len() as int, with@));
            proof {
                assert(occurs_at(text@, pattern@, at as int));
                lemma_first_occurrence_is_one(text@, pattern@, at as int, first_position(
                    text@,
                    pattern@,
                ));
            }
            replaced
        },
        None => text,
    }
}

fn restore_line_endings(text: &Vec<char>, ending: &Vec<char>) -> (restored: Vec<char>)
    ensures
        restored@ == with_line_ending(text@, ending@),
{
    let mut restored: Vec<char> = Vec::new();
    let mut i: usize = 0;
    assert(text@.take(0) =~= Seq::<char>::empty());
    while i < text.len()
        invariant
            i <= text.len(),
            restored@ == with_line_ending(text@.take(i as int), ending@),
        decreases text.len() - i,
    {
        let ghost longer = text@.take(i + 1);
        assert(longer.drop_last() =~= text@.take(i as int));
        assert(longer.last() == text@[i as int]);
        if text[i] == '\n' {
            extend_from(&mut restored, ending, 0);
            assert(ending@.skip(0) =~= ending@);
        } else {
            restored.push(text[i]);
        }
        i = i + 1;
    }
    assert(text@.take(text@.len() as int) =~= text@);
    restored
}

impl FileSystemService {
    /// The line ending that a text uses: see [`line_ending_of`].
    pub fn detect_line_ending(&self, text: &str) -> (ending: &'static str)
        ensures
            ending@ == line_ending_of(text@),
    {
        if contains(text, "\r\n") {
            "\r\n"
        } else if contains(text, "\r") {
            "\r"
        } else {
            "\n"
        }
    }

    /// The differences between two texts as a unified diff, both taken with
    /// line feeds only: see [`unified_diff_text`].
    pub fn create_unified_diff(
        &self,
        original_content: &str,
        new_content: &str,
        filepath: Option<String>,
    ) -> (diff: String)
        ensures
            diff@ == unified_diff_text(
                original_content@,
                new_content@,
                optional_text_view(filepath),
            ),
    {
        let original = normalize_line_endings(original_content);
        let modified = normalize_line_endings(new_content);
        let name = match filepath {
            Some(name) => name,
            None => String::from_str("file"),
        };
        let original_header = name.clone().concat("\toriginal");
        let modified_header = name.clone().concat("\tmodified");
        let patch = unified_patch(
            original.as_str(),
            modified.as_str(),
            original_header.as_str(),
            modified_header.as_str(),
            4,
        );
        let rule = repeated('=', 68);
        String::from_str("Index: ").concat(name.as_str()).concat("\n").concat(rule.as_str()).concat(
            "\n",
        ).concat(patch.as_str())
    }

    /// Applies the replacements to the content of a file, one after the
    /// other, and shows what they change. The content and the replacements
    /// are taken with line feeds only; each replacement changes the first
    /// passage that reads its old text, and nothing where no passage does.
    /// The new content has the line endings that the file had; the diff is
    /// fenced by backticks, more of them than stand in a row in the diff.
    pub fn apply_file_edits(&self, file_path: &str, content: &str, edits: Vec<EditOperation>) -> (
    edit: FileEdit)
        ensures
            edit.diff@ == edit_shown(file_path@, content@, edits_view(edits@)),
            edit.content@ == with_line_ending(
                applied(unix_line_endings(content@), edits_view(edits@)),
                line_ending_of(content@),
            ),
    {
        let ending = self.detect_line_ending(content);
        let original = normalize_line_endings(content);
        let mut modified = chars_of(original.as_str());
        let mut i: usize = 0;
        assert(edits_view(edits@).take(0) =~= Seq::<EditOperationView>::empty());
        while i < edits.len()
            invariant
                i <= edits.len(),
                modified@ == applied(original@, edits_view(edits@).take(i as int)),
            decreases edits.len() - i,
        {
            let old_text = normalize_line_endings(edits[i].old_text.as_str());
            let new_text = normalize_line_endings(edits[i].new_text.as_str());
            let ghost done = edits_view(edits@).take(i + 1);
            assert(done.drop_last() =~= edits_view(edits@).take(i as int));
            assert(done.last() == edits@[i as int]@);
            modified = replace_first(
                modified,
                &chars_of(old_text.as_str()),
                &chars_of(new_text.as_str()),
            );
            i = i + 1;
        }
        assert(edits_view(edits@).take(edits@.len() as int) =~= edits_view(edits@));
        let edited = string_of(&modified);
        let diff = self.create_unified_diff(
            original.as_str(),
            edited.as_str(),
            Some(file_path.to_owned()),
        );
        let shown = chars_of(diff.as_str());
        let ticks = longest_run(&shown, '`');
        proof {
            // the diff begins with its index line, so no run of backticks fills it
            reveal_strlit("Index: ");
            assert(diff@[0] == 'I');
            let from = choose|from: int| is_run(diff@, '`', from, ticks as int);
            assert(is_run(diff@, '`', from, ticks as int));
            assert(diff@.len() > 0);
            assert(shown@.len() == shown.len());
            if ticks == diff@.len() {
                assert(from == 0);
                assert(diff@[0] == '`');
            }
            assert(ticks < usize::MAX);
        }
        let fence: usize = if ticks < 3 {
            3
        } else {
            ticks + 1
        };
        proof {
            if ticks < 3 {
                if has_run(diff@, '`', 3) {
                    lemma_shorter_run(diff@, '`', 3, ticks + 1);
                }
            }
            assert(is_fence_length(diff@, fence as int));
            lemma_fence_length_is_one(diff@, fence as int, fence_length(diff@));
        }
        let bar = repeated('`', fence);
        let fenced_diff = bar.clone().concat("diff\n").concat(diff.as_str()).concat(bar.as_str()).concat(
            "\n\n",
        );
        let restored = restore_line_endings(&modified, &chars_of(ending));
        FileEdit { diff: fenced_diff, content: string_of(&restored) }
    }

    /// The first `lines` lines of a text, joined by line feeds.
    pub fn head_file(&self, content: &str, lines: usize) -> (head: String)
        ensures
            head@ == head_text(lines_of(content@), lines as int),
    {
        let mut all = crate::strings::lines(content);
        if lines < all.len() {
            all.truncate(lines);
            assert(texts_view(all@) =~= lines_of(content@).take(lines as int));
        }
        join(&all, "\n")
    }

    /// The last `lines` lines of a text, joined by line feeds.
    pub fn tail_file(&self, content: &str, lines: usize) -> (tail: String)
        ensures
            tail@ == tail_from(
                lines_of(content@),
                if lines < lines_of(content@).len() {
                    lines_of(content@).len() - lines
                } else {
                    0
                },
            ),
    {
        let all = crate::strings::lines(content);
        let start = if lines < all.len() {
            all.len() - lines
        } else {
            0
        };
        self.lines_from(&all, start, None)
    }

    /// The lines of a text from the position `offset` on, at most `limit` of
    /// them where a limit is given, joined by line feeds.
    pub fn read_file_lines(&self, content: &str, offset: usize, limit: Option<usize>) -> (text:
        String)
        ensures
            text@ == joined(
                {
                    let rest = if offset < lines_of(content@).len() {
                        lines_of(content@).skip(offset as int)
                    } else {
                        Seq::empty()
                    };
                    match limit {
                        Some(count) => if count < rest.len() {
                            rest.take(count as int)
                        } else {
                            rest
                        },
                        None => rest,
                    }
                },
                "\n"@,
            ),
    {
        let all = crate::strings::lines(content);
        self.lines_from(&all, offset, limit)
    }

    fn lines_from(&self, lines: &Vec<String>, offset: usize, limit: Option<usize>) -> (text: String)
        ensures
            text@ == joined(
                {
                    let rest = if offset < lines@.len() {
                        texts_view(lines@).skip(offset as int)
                    } else {
                        Seq::empty()
                    };
                    match limit {
                        Some(count) => if count < rest.len() {
                            rest.take(count as int)
                        } else {
                            rest
                        },
                        None => rest,
                    }
                },
                "\n"@,
            ),
    {
        let start = if offset < lines.len() {
            offset
        } else {
            lines.len()
        };
        let available = lines.len() - start;
        let count = match limit {
            Some(count) => if count < available {
                count
            } else {
                available
            },
            None => available,
        };
        let ghost rest = if offset < lines@.len() {
            texts_view(lines@).skip(offset as int)
        } else {
            Seq::empty()
        };
        let mut chosen: Vec<String> = Vec::new();
        let mut k: usize = 0;
        assert(lines@.len() == lines.len());
        while k < count
            invariant
                k <= count,
                start + count <= lines@.len() <= usize::MAX,
                chosen@.len() == k,
                forall|j: int| 0 <= j < k ==> (#[trigger] chosen@[j])@ == lines@[start + j]@,
            decreases count - k,
        {
            chosen.push(lines[start + k].clone());
            k = k + 1;
        }
        assert(texts_view(chosen@) =~= (match limit {
            Some(count) => if count < rest.len() {
                rest.take(count as int)
            } else {
                rest
            },
            None => rest,
        }));
        join(&chosen, "\n")
    }

    /// Tells the media type of a file from its bytes and encodes the bytes
    /// in base64. Bytes of no known type are an invalid media file, and so
    /// are more bytes than can be encoded in the memory of the machine.
    pub fn read_media_file(&self, data: &[u8], _max_bytes: Option<usize>) -> (media: ServiceResult<
        (MediaType, String),
    >)
        ensures
            match media {
                Ok((kind, text)) => {
                    &&& sniffed_type(data@) == Some((kind.mime_type@, kind.matcher_type))
                    &&& (data@.len() + 2) / 3 * 4 <= usize::MAX / 2
                    &&& text@ == base64_text(data@)
                },
                Err(error) => {
                    &&& sniffed_type(data@) is None || (data@.len() + 2) / 3 * 4 > usize::MAX / 2
                    &&& error matches ServiceError::InvalidMediaFile(mime) && mime@ == "unknown"@
                },
            },
    {
        let groups = data.len() / 3 + (if data.len() % 3 == 0 {
            0
        } else {
            1
        });
        assert(groups == (data@.len() + 2) / 3);
        if groups > usize::MAX / 8 {
            return Err(ServiceError::InvalidMediaFile(String::from_str("unknown")));
        }
        match sniff(data) {
            Some(kind) => Ok((kind, encode_base64(data))),
            None => Err(ServiceError::InvalidMediaFile(String::from_str("unknown"))),
        }
    }

    /// The media among the files that could be read, each with its type and
    /// its bytes in base64. Files that could not be read, and files of no
    /// known type, are passed over.
    pub fn read_media_files(&self, files: &Vec<Option<Vec<u8>>>, max_bytes: Option<usize>) -> (
    media: ServiceResult<Vec<(MediaType, String)>>)
        ensures
            media matches Ok(found) && media_view(found@) == media_of(files@),
    {
        let mut found: Vec<(MediaType, String)> = Vec::new();
        let mut i: usize = 0;
        assert(files@.take(0) =~= Seq::<Option<Vec<u8>>>::empty());
        assert(media_view(found@) =~= media_of(files@.take(0)));
        while i < files.len()
            invariant
                i <= files.len(),
                media_view(found@) == media_of(files@.take(i as int)),
            decreases files.len() - i,
        {
            let ghost longer = files@.take(i + 1);
            let ghost before = media_view(found@);
            assert(longer.drop_last() =~= files@.take(i as int));
            assert(longer.last() == files@[i as int]);
            match &files[i] {
                Some(data) => match self.read_media_file(data.as_slice(), max_bytes) {
                    Ok(entry) => {
                        let ghost added = (entry.0.mime_type@, entry.0.matcher_type, entry.1@);
                        found.push(entry);
                        assert(media_view(found@) =~= before.push(added));
                    },
                    Err(_) => {},
                },
                None => {},
            }
            i = i + 1;
        }
        assert(files@.take(files@.len() as int) =~= files@);
        Ok(found)
    }

    /// The paths of the files whose name holds the pattern, whatever the
    /// case of the letters, or whose content does where a content is handed
    /// in.
    pub fn search_files(&self, candidates: &Vec<SearchCandidate>, pattern: &str) -> (hits: Vec<
        String,
    >)
        ensures
            texts_view(hits@) == search_hits(candidates@, lowercase_text(pattern@)),
    {
        let pattern_lower = lowercase(pattern);
        let mut hits: Vec<String> = Vec::new();
        let mut i: usize = 0;
        assert(candidates@.take(0) =~= Seq::<SearchCandidate>::empty());
        assert(texts_view(hits@) =~= search_hits(candidates@.take(0), pattern_lower@));
        while i < candidates.len()
            invariant
                i <= candidates.len(),
                pattern_lower@ == lowercase_text(pattern@),
                texts_view(hits@) == search_hits(candidates@.take(i as int), pattern_lower@),
            decreases candidates.len() - i,
        {
            let candidate = &candidates[i];
            let ghost longer = candidates@.take(i + 1);
            let ghost before = texts_view(hits@);
            assert(longer.drop_last() =~= candidates@.take(i as int));
            assert(longer.last() == *candidate);
            let mut matches = contains(
                lowercase(candidate.file_name.as_str()).as_str(),
                pattern_lower.as_str(),
            );
            if !matches {
                match &candidate.content {
                    Some(content) => {
                        matches = contains(
                            lowercase(content.as_str()).as_str(),
                            pattern_lower.as_str(),
                        );
                    },
                    None => {},
                }
            }
            if matches {
                hits.push(candidate.path.clone());
                assert(texts_view(hits@) =~= before.push(candidate.path@));
            }
            i = i + 1;
        }
        assert(candidates@.take(candidates@.len() as int) =~= candidates@);
        hits
    }

    /// Draws a tree: the name of the root with a slash, then one line for
    /// every entry below it, in the order given. Hidden entries are left out
    /// unless they are asked for.
    pub fn generate_directory_tree(
        &self,
        root_name: &str,
        entries: &Vec<TreeEntry>,
        include_hidden: bool,
    ) -> (tree: String)
        ensures
            tree@ == joined(
                seq![root_name@ + "/"@] + tree_lines(entries@, include_hidden),
                "\n"@,
            ),
    {
        let mut lines: Vec<String> = Vec::new();
        lines.push(String::from_str(root_name).concat("/"));
        let mut i: usize = 0;
        assert(entries@.take(0) =~= Seq::<TreeEntry>::empty());
        assert(texts_view(lines@) =~= seq![root_name@ + "/"@] + tree_lines(
            entries@.take(0),
            include_hidden,
        ));
        while i < entries.len()
            invariant
                i <= entries.len(),
                texts_view(lines@) == seq![root_name@ + "/"@] + tree_lines(
                    entries@.take(i as int),
                    include_hidden,
                ),
            decreases entries.len() - i,
        {
            let entry = &entries[i];
            let ghost longer = entries@.take(i + 1);
            let ghost before = texts_view(lines@);
            assert(longer.drop_last() =~= entries@.take(i as int));
            assert(longer.last() == *entry);
            let name = chars_of(entry.file_name.as_str());
            let hidden = name.len() > 0 && name[0] == '.';
            if include_hidden || !hidden {
                let mut line = String::new();
                let mut level: usize = 0;
                while level < entry.depth
                    invariant
                        level <= entry.depth,
                        line@ == Seq::new((2 * level) as nat, |k: int| ' '),
                    decreases entry.depth - level,
                {
                    line.push(' ');
                    line.push(' ');
                    level = level + 1;
                    assert(line@ =~= Seq::new((2 * level) as nat, |k: int| ' '));
                }
                line.append("├── ");
                line.append(entry.file_name.as_str());
                if entry.is_dir {
                    line.append("/");
                }
                assert(line@ =~= tree_line(*entry));
                lines.push(line);
                assert(texts_view(lines@) =~= before.push(tree_line(*entry)));
            }
            i = i + 1;
        }
        assert(entries@.take(entries@.len() as int) =~= entries@);
        join(&lines, "\n")
    }

    /// Decides whether the file under the requested path may be looked at:
    /// the path must be admitted and exist.
    pub fn get_file_stats(&self, requested: &str, environment: &PathEnvironment) -> (admitted:
        ServiceResult<String>)
        ensures
            self.admission(requested@, *environment, true, admitted),
    {
        self.validate_existing_path(requested, environment)
    }

    /// Decides whether the file under the requested path may be read: the
    /// path must be admitted and exist.
    pub fn read_file(&self, requested: &str, environment: &PathEnvironment) -> (admitted:
        ServiceResult<String>)
        ensures
            self.admission(requested@, *environment, true, admitted),
    {
        self.validate_existing_path(requested, environment)
    }

    /// Decides whether a file may be written under the requested path: the
    /// path must be admitted, and need not exist.
    pub fn write_file(&self, requested: &str, environment: &PathEnvironment) -> (admitted:
        ServiceResult<String>)
        ensures
            self.admission(requested@, *environment, false, admitted),
    {
        self.validate_path(requested, environment)
    }

    /// Decides whether the directory under the requested path may be listed:
    /// the path must be admitted and exist.
    pub fn list_directory(&self, requested: &str, environment: &PathEnvironment) -> (admitted:
        ServiceResult<String>)
        ensures
            self.admission(requested@, *environment, true, admitted),
    {
        self.validate_existing_path(requested, environment)
    }

    /// Decides whether what lies under the requested path may be deleted:
    /// the path must be admitted and exist.
    pub fn delete_file(&self, requested: &str, environment: &PathEnvironment) -> (admitted:
        ServiceResult<String>)
        ensures
            self.admission(requested@, *environment, true, admitted),
    {
        self.validate_existing_path(requested, environment)
    }

    /// Decides whether a directory may be created under the requested path:
    /// the path must be admitted, and no directory may exist there.
    /// `is_directory` says whether the path, where it exists, is a directory.
    pub fn create_directory(
        &self,
        requested: &str,
        environment: &PathEnvironment,
        is_directory: bool,
    ) -> (admitted: ServiceResult<String>)
        ensures
            if environment.exists && is_directory && self.admits(requested@, *environment) {
                admitted matches Err(ServiceError::DirectoryAlreadyExists)
            } else {
                self.admission(requested@, *environment, false, admitted)
            },
    {
        match self.validate_path(requested, environment) {
            Ok(path) => {
                if environment.exists && is_directory {
                    return Err(ServiceError::DirectoryAlreadyExists);
                }
                Ok(path)
            },
            Err(error) => Err(error),
        }
    }

    /// Decides whether a file may be moved or copied: the source must be
    /// admitted and exist, the destination must be admitted. The source is
    /// looked at first. Gives both paths in their absolute form.
    pub fn validate_transfer(
        &self,
        source: &str,
        source_environment: &PathEnvironment,
        destination: &str,
        destination_environment: &PathEnvironment,
    ) -> (admitted: ServiceResult<(String, String)>)
        ensures
            self.transfer_admission(
                source@,
                *source_environment,
                destination@,
                *destination_environment,
                admitted,
            ),
    {
        let from = match self.validate_existing_path(source, source_environment) {
            Ok(path) => path,
            Err(error) => {
                return Err(error);
            },
        };
        match self.validate_path(destination, destination_environment) {
            Ok(to) => Ok((from, to)),
            Err(error) => Err(error),
        }
    }

    /// Decides whether a file may be moved: see [`Self::validate_transfer`].
    pub fn move_file(
        &self,
        source: &str,
        source_environment: &PathEnvironment,
        destination: &str,
        destination_environment: &PathEnvironment,
    ) -> (admitted: ServiceResult<(String, String)>)
        ensures
            self.transfer_admission(
                source@,
                *source_environment,
                destination@,
                *destination_environment,
                admitted,
            ),
    {
        self.validate_transfer(source, source_environment, destination, destination_environment)
    }

    /// Decides whether a file may be copied: see [`Self::validate_transfer`].
    pub fn copy_file(
        &self,
        source: &str,
        source_environment: &PathEnvironment,
        destination: &str,
        destination_environment: &PathEnvironment,
    ) -> (admitted: ServiceResult<(String, String)>)
        ensures
            self.transfer_admission(
                source@,
                *source_environment,
                destination@,
                *destination_environment,
                admitted,
            ),
    {
        self.validate_transfer(source, source_environment, destination, destination_environment)
    }

    /// Finds no duplicates: the search for them does not exist yet.
    pub fn find_duplicate_files(
        &self,
        _root_path: &str,
        _pattern: Option<String>,
        _exclude_patterns: Option<Vec<String>>,
        _min_bytes: Option<u64>,
        _max_bytes: Option<u64>,
    ) -> (found: ServiceResult<Vec<Vec<String>>>)
        ensures
            found matches Ok(groups) && groups@.len() == 0,
    {
        Ok(Vec::new())
    }

    /// Finds no empty directories: the search for them does not exist yet.
    pub fn find_empty_directories(&self, _path: &str, _exclude_patterns: Option<Vec<String>>) -> (
    found: ServiceResult<Vec<String>>)
        ensures
            found matches Ok(directories) && directories@.len() == 0,
    {
        Ok(Vec::new())
    }

    /// Finds no lines: the search in the content of files does not exist
    /// yet.
    pub fn search_files_content(
        &self,
        _path: &str,
        _pattern: &str,
        _query: &str,
        _is_regex: bool,
        _exclude_patterns: Option<Vec<String>>,
        _min_bytes: Option<u64>,
        _max_bytes: Option<u64>,
    ) -> (found: ServiceResult<Vec<FileSearchResult>>)
        ensures
            found matches Ok(results) && results@.len() == 0,
    {
        Ok(Vec::new())
    }

    /// Adds up the sizes of the files below a directory. A sum beyond the
    /// range of `u64` is given as the largest number.
    pub fn calculate_directory_size(&self, sizes: &Vec<u64>) -> (total: u64)
        ensures
            total == (if total_of(sizes@) <= u64::MAX {
                total_of(sizes@)
            } else {
                u64::MAX as int
            }),
    {
        let mut total: u64 = 0;
        let mut i: usize = 0;
        assert(sizes@.take(0) =~= Seq::<u64>::empty());
        while i < sizes.len()
            invariant
                i <= sizes.len(),
                total == (if total_of(sizes@.take(i as int)) <= u64::MAX {
                    total_of(sizes@.take(i as int))
                } else {
                    u64::MAX as int
                }),
                total_of(sizes@.take(i as int)) >= 0,
            decreases sizes.len() - i,
        {
            let ghost longer = sizes@.take(i + 1);
            assert(longer.drop_last() =~= sizes@.take(i as int));
            assert(longer.last() == sizes@[i as int]);
            total = if sizes[i] <= u64::MAX - total {
                total + sizes[i]
            } else {
                u64::MAX
            };
            i = i + 1;
        }
        assert(sizes@.take(sizes@.len() as int) =~= sizes@);
        total
    }
}

/// With no allowed directory and at least one blocked directory, a path
/// inside a blocked directory is rejected and a path outside all of them is
/// admitted.
pub proof fn lemma_unrestricted_except_blocked(
    service: FileSystemService,
    requested: Seq<char>,
    environment: PathEnvironment,
)
    requires
        service.allowed().len() == 0,
        service.blocked().len() > 0,
    ensures
        service.is_blocked(requested, environment) ==> !service.admits(requested, environment),
        !service.is_blocked(requested, environment) ==> service.admits(requested, environment),
{
}

/// With allowed directories, a path is admitted exactly when it is inside an
/// allowed directory and outside every blocked one: where both hold of a
/// path, the block wins.
pub proof fn lemma_block_wins_over_allow(
    service: FileSystemService,
    requested: Seq<char>,
    environment: PathEnvironment,
)
    requires
        service.allowed().len() > 0,
    ensures
        service.admits(requested, environment) <==> (service.is_allowed(requested, environment)
            && !service.is_blocked(requested, environment)),
        service.is_blocked(requested, environment) ==> !service.admits(requested, environment),
{
}

/// Two admissions of one path by one service in one environment end the same
/// way: both admit the path, and give the same absolute path, or both reject
/// it with the same error.
pub proof fn lemma_admission_repeats(
    service: FileSystemService,
    requested: Seq<char>,
    environment: PathEnvironment,
    must_exist: bool,
    first: ServiceResult<String>,
    second: ServiceResult<String>,
)
    requires
        service.admission(requested, environment, must_exist, first),
        service.admission(requested, environment, must_exist, second),
    ensures
        first is Ok <==> second is Ok,
        first matches Ok(one) ==> second matches Ok(other) && one@ == other@,
        first matches Err(ServiceError::PathNotAllowed) <==> second matches Err(
            ServiceError::PathNotAllowed,
        ),
        first matches Err(ServiceError::FileNotFound(one)) ==> second matches Err(
            ServiceError::FileNotFound(other),
        ) && one@ == other@,
{
}

} // verus!
