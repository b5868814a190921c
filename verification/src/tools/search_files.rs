use vstd::prelude::*;
use vstd::string::StringExecFns;
use crate::mcp_types::{CallToolError, CallToolResult};
use crate::strings::{decimal, decimal_text, texts_view};
use crate::tools::{answer, answers, reports_failure};

verus! {

/// Finds files by name, and by content on request.
#[derive(Debug)]
pub struct SearchFilesTool {
    pub directory: String,
    pub pattern: String,
    pub include_content: Option<bool>,
}

/// The files that were found, numbered from one, each on its line.
pub open spec fn numbered_lines(lines: Seq<Seq<char>>) -> Seq<char>
    decreases lines.len(),
{
    if lines.len() == 0 {
        Seq::empty()
    } else {
        numbered_lines(lines.drop_last()) + decimal_text(lines.len()) + ". "@ + lines.last()
            + "\n"@
    }
}

impl SearchFilesTool {
    /// What is reported of a search that found the given files.
    pub open spec fn report(&self, files: Seq<Seq<char>>) -> Seq<char> {
        if files.len() == 0 {
            "No files found matching pattern '"@ + self.pattern@ + "' in directory '"@
                + self.directory@ + "'"@
        } else {
            "Found "@ + decimal_text(files.len()) + " file(s) matching pattern '"@ + self.pattern@
                + "':\n\n"@ + numbered_lines(files)
        }
    }

    /// Reports the files that were found, or that there is none, or why the
    /// search did not succeed.
    pub fn run_tool(self, found: Result<Vec<String>, String>) -> (outcome: Result<
        CallToolResult,
        CallToolError,
    >)
        ensures
            match found {
                Ok(files) => answers(outcome, self.report(texts_view(files@))),
                Err(message) => reports_failure(outcome, message@),
            },
    {
        match found {
            Ok(files) => {
                if files.len() == 0 {
                    return answer(
                        String::from_str("No files found matching pattern '").concat(
                            self.pattern.as_str(),
                        ).concat("' in directory '").concat(self.directory.as_str()).concat("'"),
                    );
                }
                let mut output = String::from_str("Found ").concat(
                    decimal(files.len() as u64).as_str(),
                ).concat(" file(s) matching pattern '").concat(self.pattern.as_str()).concat(
                    "':\n\n",
                );
                let ghost head = output@;
                let mut i: usize = 0;
                assert(texts_view(files@).take(0) =~= Seq::<Seq<char>>::empty());
                assert(output@ =~= head + numbered_lines(texts_view(files@).take(0)));
                while i < files.len()
                    invariant
                        i <= files.len(),
                        output@ == head + numbered_lines(texts_view(files@).take(i as int)),
                    decreases files.len() - i,
                {
                    let ghost longer = texts_view(files@).take(i + 1);
                    assert(longer.drop_last() =~= texts_view(files@).take(i as int));
                    assert(longer.last() == files@[i as int]@);
                    output.append(decimal((i + 1) as u64).as_str());
                    output.append(". ");
                    output.append(files[i].as_str());
                    output.append("\n");
                    assert(output@ =~= head + numbered_lines(longer));
                    i = i + 1;
                }
                assert(texts_view(files@).take(files@.len() as int) =~= texts_view(files@));
                answer(output)
            },
            Err(message) => Ok(CallToolResult::text(message, true)),
        }
    }
}

} // verus!
