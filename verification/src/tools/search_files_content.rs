use vstd::prelude::*;
use vstd::string::StringExecFns;
use crate::error::ServiceResult;
use crate::fs_service::{FileSearchResult, Match};
use crate::mcp_types::{CallToolError, CallToolResult, CallToolResultView};
use crate::strings::{decimal, decimal_text};
use crate::tools::{answer, answers};

verus! {

/// Finds lines in files.
#[derive(Debug)]
pub struct SearchFilesContent {
    pub path: String,
    pub pattern: String,
    pub query: String,
    pub is_regex: Option<bool>,
    pub exclude_patterns: Option<Vec<String>>,
    pub min_bytes: Option<u64>,
    pub max_bytes: Option<u64>,
}

/// The lines of the matches in one file: the number of the line, the
/// position in it, and its text.
pub open spec fn match_lines(matches: Seq<Match>) -> Seq<char>
    decreases matches.len(),
{
    if matches.len() == 0 {
        Seq::empty()
    } else {
        match_lines(matches.drop_last()) + "  "@ + decimal_text(matches.last().line_number as nat)
            + ":"@ + decimal_text(matches.last().start_pos as nat) + ": "@
            + matches.last().line_text@ + "\n"@
    }
}

/// The matches of all files: for each file its path, its matches, and an
/// empty line.
pub open spec fn results_text(results: Seq<FileSearchResult>) -> Seq<char>
    decreases results.len(),
{
    if results.len() == 0 {
        Seq::empty()
    } else {
        results_text(results.drop_last()) + results.last().file_path@ + "\n"@ + match_lines(
            results.last().matches@,
        ) + "\n"@
    }
}

/// The answer without content that reports an error.
pub open spec fn nothing_found() -> CallToolResultView {
    CallToolResultView { content: Seq::empty(), is_error: Some(true) }
}

impl SearchFilesContent {
    /// Lays out the matches: see [`results_text`].
    pub fn format_result(&self, results: Vec<FileSearchResult>) -> (output: String)
        ensures
            output@ == results_text(results@),
    {
        let mut output = String::new();
        let mut i: usize = 0;
        assert(results@.take(0) =~= Seq::<FileSearchResult>::empty());
        while i < results.len()
            invariant
                i <= results.len(),
                output@ == results_text(results@.take(i as int)),
            decreases results.len() - i,
        {
            let file = &results[i];
            let ghost longer = results@.take(i + 1);
            let ghost before = output@;
            assert(longer.drop_last() =~= results@.take(i as int));
            assert(longer.last() == *file);
            output.append(file.file_path.as_str());
            output.append("\n");
            let ghost head = output@;
            let mut k: usize = 0;
            assert(file.matches@.take(0) =~= Seq::<Match>::empty());
            assert(output@ =~= head + match_lines(file.matches@.take(0)));
            while k < file.matches.len()
                invariant
                    k <= file.matches.len(),
                    output@ == head + match_lines(file.matches@.take(k as int)),
                decreases file.matches.len() - k,
            {
                let found = &file.matches[k];
                let ghost more = file.matches@.take(k + 1);
                assert(more.drop_last() =~= file.matches@.take(k as int));
                assert(more.last() == *found);
                output.append("  ");
                output.append(decimal(found.line_number as u64).as_str());
                output.append(":");
                output.append(decimal(found.start_pos as u64).as_str());
                output.append(": ");
                output.append(found.line_text.as_str());
                output.append("\n");
                assert(output@ =~= head + match_lines(more));
                k = k + 1;
            }
            assert(file.matches@.take(file.matches@.len() as int) =~= file.matches@);
            output.append("\n");
            assert(output@ =~= results_text(longer));
            i = i + 1;
        }
        assert(results@.take(results@.len() as int) =~= results@);
        output
    }

    /// Reports the matches that were found. A search that found nothing, and
    /// one that failed, are answered with an error and without content.
    pub fn run_tool(self, found: ServiceResult<Vec<FileSearchResult>>) -> (outcome: Result<
        CallToolResult,
        CallToolError,
    >)
        ensures
            match found {
                Ok(results) => if results@.len() == 0 {
                    outcome matches Ok(result) && result@ == nothing_found()
                } else {
                    answers(outcome, results_text(results@))
                },
                Err(_) => outcome matches Ok(result) && result@ == nothing_found(),
            },
    {
        match found {
            Ok(results) => {
                if results.len() == 0 {
                    let result = CallToolResult { content: Vec::new(), is_error: Some(true) };
                    assert(result@.content =~= nothing_found().content);
                    return Ok(result);
                }
                let text = self.format_result(results);
                answer(text)
            },
            Err(_) => {
                let result = CallToolResult { content: Vec::new(), is_error: Some(true) };
                assert(result@.content =~= nothing_found().content);
                Ok(result)
            },
        }
    }
}

} // verus!
