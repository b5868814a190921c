use vstd::prelude::*;
use vstd::string::StringExecFns;
use crate::error::ServiceResult;
use crate::mcp_types::{CallToolError, CallToolResult};
use crate::tools::{answer, answers, fail, reports_failure};
use crate::json::{document_pretty_text, text_array, Json};
use crate::strings::{decimal, decimal_text, str_eq, texts_view};

verus! {

/// Finds the directories that hold nothing.
#[derive(Debug)]
pub struct FindEmptyDirectories {
    pub path: String,
    pub exclude_patterns: Option<Vec<String>>,
    pub output_format: Option<String>,
}

/// One indented line for each directory.
pub open spec fn indented_lines(lines: Seq<Seq<char>>) -> Seq<char>
    decreases lines.len(),
{
    if lines.len() == 0 {
        Seq::empty()
    } else {
        indented_lines(lines.drop_last()) + "  "@ + lines.last() + "\n"@
    }
}

/// The empty directories as they are reported: as an indented JSON array
/// where the format is `json`, and else as text.
pub open spec fn empty_directories_text(directories: Seq<Seq<char>>, format: Seq<char>) -> Seq<
    char,
> {
    if format == "json"@ {
        document_pretty_text(text_array(directories))
    } else if directories.len() == 0 {
        "No empty directories were found."@
    } else {
        "Found "@ + decimal_text(directories.len()) + " empty "@ + (if directories.len() == 1 {
            "directory"@
        } else {
            "directories"@
        }) + ":\n"@ + indented_lines(directories)
    }
}

pub(crate) fn indent_lines(output: &mut String, lines: &Vec<String>)
    ensures
        final(output)@ == old(output)@ + indented_lines(texts_view(lines@)),
{
    let mut i: usize = 0;
    assert(texts_view(lines@).take(0) =~= Seq::<Seq<char>>::empty());
    assert(output@ =~= old(output)@ + indented_lines(texts_view(lines@).take(0)));
    while i < lines.len()
        invariant
            i <= lines.len(),
            output@ == old(output)@ + indented_lines(texts_view(lines@).take(i as int)),
        decreases lines.len() - i,
    {
        let ghost longer = texts_view(lines@).take(i + 1);
        assert(longer.drop_last() =~= texts_view(lines@).take(i as int));
        assert(longer.last() == lines@[i as int]@);
        output.append("  ");
        output.append(lines[i].as_str());
        output.append("\n");
        assert(output@ =~= old(output)@ + indented_lines(longer));
        i = i + 1;
    }
    assert(texts_view(lines@).take(lines@.len() as int) =~= texts_view(lines@));
}

impl FindEmptyDirectories {
    /// The format in which the call wants the report: `text` where it names
    /// none.
    pub open spec fn format(&self) -> Seq<char> {
        match self.output_format {
            Some(format) => format@,
            None => "text"@,
        }
    }

    /// Lays out the empty directories: see [`empty_directories_text`].
    pub fn format_output(empty_dirs: Vec<String>, output_format: &str) -> (output: Result<
        String,
        String,
    >)
        ensures
            output matches Ok(text) && text@ == empty_directories_text(
                texts_view(empty_dirs@),
                output_format@,
            ),
    {
        if str_eq(output_format, "json") {
            return Ok(Json::texts(&empty_dirs).to_pretty_text());
        }
        if empty_dirs.len() == 0 {
            return Ok(String::from_str("No empty directories were found."));
        }
        let mut output = String::from_str("Found ").concat(
            decimal(empty_dirs.len() as u64).as_str(),
        ).concat(" empty ").concat(
            if empty_dirs.len() == 1 {
                "directory"
            } else {
                "directories"
            },
        ).concat(":\n");
        indent_lines(&mut output, &empty_dirs);
        Ok(output)
    }

    /// Reports the empty directories that were found, or reports why the
    /// search did not succeed.
    pub fn run_tool(self, found: ServiceResult<Vec<String>>) -> (outcome: Result<
        CallToolResult,
        CallToolError,
    >)
        ensures
            match found {
                Ok(directories) => answers(
                    outcome,
                    empty_directories_text(texts_view(directories@), self.format()),
                ),
                Err(error) => reports_failure(outcome, error.message_spec()),
            },
    {
        match found {
            Ok(directories) => {
                let formatted = match &self.output_format {
                    Some(format) => Self::format_output(directories, format.as_str()),
                    None => Self::format_output(directories, "text"),
                };
                match formatted {
                    Ok(text) => answer(text),
                    Err(fault) => Err(CallToolError { message: fault }),
                }
            },
            Err(error) => fail(&error),
        }
    }
}

} // verus!
