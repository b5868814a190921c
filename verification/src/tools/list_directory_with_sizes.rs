use vstd::prelude::*;
use vstd::string::StringExecFns;
use crate::error::ServiceResult;
use crate::mcp_types::{CallToolError, CallToolResult};
use crate::tools::{answer, answers, fail, reports_failure};
use crate::fs_service::utils::{bytes_text, format_bytes};
use crate::fs_service::DirectoryEntry;
use crate::strings::{decimal, decimal_text, pad_left, pad_right, padding, texts_view};

verus! {

/// Lists a directory with the size of each file.
#[derive(Debug)]
pub struct ListDirectoryWithSizes {
    pub path: String,
}

/// The line of an entry, with its size where it is a file. An entry that is
/// neither a directory nor a file has no line.
pub open spec fn sized_line(entry: DirectoryEntry) -> Seq<char> {
    let name = entry.file_name@ + padding(entry.file_name@.len() as int, 30);
    match entry.metadata {
        Some(known) => if known.is_dir {
            "[DIR]  "@ + name + "\n"@
        } else if known.is_file {
            let size = bytes_text(known.len as int);
            "[FILE] "@ + name + " "@ + padding(size.len() as int, 10) + size + "\n"@
        } else {
            Seq::empty()
        },
        None => Seq::empty(),
    }
}

/// The lines of the entries, in order.
pub open spec fn sized_lines(entries: Seq<DirectoryEntry>) -> Seq<char>
    decreases entries.len(),
{
    if entries.len() == 0 {
        Seq::empty()
    } else {
        sized_lines(entries.drop_last()) + sized_line(entries.last())
    }
}

/// How many of the entries are files, or directories.
pub open spec fn count_of(entries: Seq<DirectoryEntry>, directories: bool) -> nat
    decreases entries.len(),
{
    if entries.len() == 0 {
        0
    } else {
        let counted: nat = match entries.last().metadata {
            Some(known) => if known.is_dir {
                if directories {
                    1
                } else {
                    0
                }
            } else if known.is_file && !directories {
                1
            } else {
                0
            },
            None => 0,
        };
        count_of(entries.drop_last(), directories) + counted
    }
}

/// The sizes of the files among the entries, added up.
pub open spec fn size_of(entries: Seq<DirectoryEntry>) -> int
    decreases entries.len(),
{
    if entries.len() == 0 {
        0
    } else {
        size_of(entries.drop_last()) + (match entries.last().metadata {
            Some(known) => if !known.is_dir && known.is_file {
                known.len as int
            } else {
                0
            },
            None => 0,
        })
    }
}

/// A listing with sizes: the lines of the entries, how many files and
/// directories there are, and the size of all files, which is shown as the
/// largest number where it is beyond the range of `u64`.
pub open spec fn sized_listing(entries: Seq<DirectoryEntry>) -> Seq<char> {
    sized_lines(entries) + "\nTotal: "@ + decimal_text(count_of(entries, false)) + " files, "@
        + decimal_text(count_of(entries, true)) + " directories\nTotal size: "@ + bytes_text(
        if size_of(entries) <= u64::MAX {
            size_of(entries)
        } else {
            u64::MAX as int
        },
    ) + "\n"@
}

/// The positions in the order in which `sort_by` leaves them when two
/// positions are compared by the texts that stand at them.
pub uninterp spec fn sorted_positions(positions: Seq<usize>, texts: Seq<Seq<char>>) -> Seq<usize>;

/// `slice::sort_by`, two positions compared by the texts at them as `str`
/// orders them: the positions are rearranged, so that none is lost and none
/// is added. A position without a text would make the comparison panic;
/// those inputs are left out.
#[verifier::external_body]
fn sort_positions(positions: &mut Vec<usize>, texts: &Vec<String>)
    requires
        forall|i: int| 0 <= i < old(positions)@.len() ==> old(positions)@[i] < texts@.len(),
    ensures
        final(positions)@ == sorted_positions(old(positions)@, texts_view(texts@)),
        final(positions)@.to_multiset() == old(positions)@.to_multiset(),
{
    positions.sort_by(|a, b| texts[*a].cmp(&texts[*b]))
}

/// The positions of a list, each in its place.
pub open spec fn positions_of(length: nat) -> Seq<usize> {
    Seq::new(length, |i: int| i as usize)
}

/// The names of the entries.
pub open spec fn names_of(entries: Seq<DirectoryEntry>) -> Seq<Seq<char>> {
    Seq::new(entries.len(), |i: int| entries[i].file_name@)
}

/// The entries that stand at the positions, in the order of the positions.
pub open spec fn arranged(entries: Seq<DirectoryEntry>, positions: Seq<usize>) -> Seq<
    DirectoryEntry,
> {
    Seq::new(positions.len(), |k: int| entries[positions[k] as int])
}

/// The entries in the order of their names.
pub open spec fn by_name(entries: Seq<DirectoryEntry>) -> Seq<DirectoryEntry> {
    arranged(entries, sorted_positions(positions_of(entries.len()), names_of(entries)))
}

impl ListDirectoryWithSizes {
    /// Lays out a listing with sizes, the entries in the order of their
    /// names: see [`sized_listing`].
    pub fn format_directory_entries(&self, entries: &Vec<DirectoryEntry>) -> (listing: Result<
        String,
        String,
    >)
        ensures
            listing matches Ok(text) && text@ == sized_listing(by_name(entries@)),
    {
        let mut names: Vec<String> = Vec::new();
        let mut positions: Vec<usize> = Vec::new();
        let mut n: usize = 0;
        while n < entries.len()
            invariant
                n <= entries.len(),
                names@.len() == n,
                positions@.len() == n,
                forall|k: int| 0 <= k < n ==> (#[trigger] names@[k])@ == entries@[k].file_name@,
                forall|k: int| 0 <= k < n ==> #[trigger] positions@[k] == k,
            decreases entries.len() - n,
        {
            names.push(entries[n].file_name.clone());
            positions.push(n);
            n = n + 1;
        }
        assert(texts_view(names@) =~= names_of(entries@));
        assert(positions@ =~= positions_of(entries@.len()));
        let ghost unsorted = positions@;
        sort_positions(&mut positions, &names);
        proof {
            assert forall|k: int| 0 <= k < positions@.len() implies #[trigger] positions@[k]
                < entries@.len() by {
                let position = positions@[k];
                assert(positions@.contains(position));
                vstd::seq_lib::to_multiset_contains(positions@, position);
                vstd::seq_lib::to_multiset_contains(unsorted, position);
                assert(unsorted.contains(position));
            }
        }
        let ghost shown = by_name(entries@);
        let mut output = String::new();
        let mut file_count: usize = 0;
        let mut dir_count: usize = 0;
        let mut total_size: u64 = 0;
        let mut i: usize = 0;
        assert(arranged(entries@, positions@.take(0)) =~= Seq::<DirectoryEntry>::empty());
        while i < positions.len()
            invariant
                i <= positions.len(),
                shown == arranged(entries@, positions@),
                forall|k: int|
                    0 <= k < positions@.len() ==> #[trigger] positions@[k] < entries@.len(),
                output@ == sized_lines(arranged(entries@, positions@.take(i as int))),
                file_count == count_of(arranged(entries@, positions@.take(i as int)), false),
                dir_count == count_of(arranged(entries@, positions@.take(i as int)), true),
                file_count <= i,
                dir_count <= i,
                size_of(arranged(entries@, positions@.take(i as int))) >= 0,
                total_size == (if size_of(arranged(entries@, positions@.take(i as int)))
                    <= u64::MAX {
                    size_of(arranged(entries@, positions@.take(i as int)))
                } else {
                    u64::MAX as int
                }),
            decreases positions.len() - i,
        {
            let ghost before = output@;
            let entry = &entries[positions[i]];
            let ghost longer = arranged(entries@, positions@.take(i + 1));
            assert(longer.drop_last() =~= arranged(entries@, positions@.take(i as int)));
            assert(longer.last() == *entry);
            match entry.metadata {
                Some(known) => {
                    if known.is_dir {
                        output.append("[DIR]  ");
                        output.append(pad_right(entry.file_name.as_str(), 30).as_str());
                        output.append("\n");
                        dir_count = dir_count + 1;
                    } else if known.is_file {
                        let size = format_bytes(known.len);
                        output.append("[FILE] ");
                        output.append(pad_right(entry.file_name.as_str(), 30).as_str());
                        output.append(" ");
                        output.append(pad_left(size.as_str(), 10).as_str());
                        output.append("\n");
                        file_count = file_count + 1;
                        total_size = if known.len <= u64::MAX - total_size {
                            total_size + known.len
                        } else {
                            u64::MAX
                        };
                    }
                },
                None => {},
            }
            assert(output@ =~= before + sized_line(*entry));
            i = i + 1;
        }
        assert(positions@.take(positions@.len() as int) =~= positions@);
        output.append("\nTotal: ");
        output.append(decimal(file_count as u64).as_str());
        output.append(" files, ");
        output.append(decimal(dir_count as u64).as_str());
        output.append(" directories\nTotal size: ");
        output.append(format_bytes(total_size).as_str());
        output.append("\n");
        assert(output@ =~= sized_listing(shown));
        Ok(output)
    }

    /// Lists the entries of the directory with their sizes, or reports why the
    /// reading of the directory did not succeed.
    pub fn run_tool(self, listed: ServiceResult<Vec<DirectoryEntry>>) -> (outcome: Result<
        CallToolResult,
        CallToolError,
    >)
        ensures
            match listed {
                Ok(entries) => answers(outcome, sized_listing(by_name(entries@))),
                Err(error) => reports_failure(outcome, error.message_spec()),
            },
    {
        match listed {
            Ok(entries) => match self.format_directory_entries(&entries) {
                Ok(text) => answer(text),
                Err(fault) => Err(CallToolError { message: fault }),
            },
            Err(error) => fail(&error),
        }
    }
}

} // verus!
