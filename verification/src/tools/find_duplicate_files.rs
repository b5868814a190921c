use vstd::prelude::*;
use vstd::string::StringExecFns;
use crate::error::ServiceResult;
use crate::mcp_types::{CallToolError, CallToolResult};
use crate::tools::{answer, answers, fail, reports_failure};
use crate::json::{
    document_pretty_text, lemma_object_view, members_view, text_array, Json, JsonView,
};
use crate::strings::{decimal, decimal_text, str_eq, texts_view};
use crate::tools::find_empty_directories::{indent_lines, indented_lines};

verus! {

/// Finds files with the same content.
#[derive(Debug)]
pub struct FindDuplicateFiles {
    pub root_path: String,
    pub pattern: Option<String>,
    pub exclude_patterns: Option<Vec<String>>,
    pub min_bytes: Option<u64>,
    pub max_bytes: Option<u64>,
    pub output_format: Option<String>,
}

/// The groups as a JSON object: each group under its position, counted from
/// zero.
pub open spec fn groups_document(groups: Seq<Vec<String>>) -> JsonView {
    JsonView::Object(
        Seq::new(
            groups.len(),
            |i: int| (decimal_text(i as nat), text_array(texts_view(groups[i]@))),
        ),
    )
}

/// The groups as text: a heading for each group, counted from one, and its
/// files.
pub open spec fn groups_text(groups: Seq<Vec<String>>) -> Seq<char>
    decreases groups.len(),
{
    if groups.len() == 0 {
        Seq::empty()
    } else {
        groups_text(groups.drop_last()) + "\nDuplicated Group "@ + decimal_text(groups.len())
            + ":\n"@ + indented_lines(texts_view(groups.last()@))
    }
}

/// The duplicates as they are reported: as an indented JSON object where
/// the format is `json`, and else as text.
pub open spec fn duplicates_text(groups: Seq<Vec<String>>, format: Seq<char>) -> Seq<char> {
    if format == "json"@ {
        document_pretty_text(groups_document(groups))
    } else if groups.len() == 0 {
        "No duplicate files were found."@
    } else {
        "Found "@ + decimal_text(groups.len()) + " sets of duplicate files:\n"@ + groups_text(groups)
    }
}

impl FindDuplicateFiles {
    /// The smallest size of the files that are compared: one byte where the
    /// call names none.
    pub fn smallest_size(&self) -> (size: Option<u64>)
        ensures
            size == (match self.min_bytes {
                Some(bytes) => Some(bytes),
                None => Some(1u64),
            }),
    {
        match self.min_bytes {
            Some(bytes) => Some(bytes),
            None => Some(1),
        }
    }

    /// The format in which the call wants the report: `text` where it names
    /// none.
    pub open spec fn format(&self) -> Seq<char> {
        match self.output_format {
            Some(format) => format@,
            None => "text"@,
        }
    }

    /// Lays out the groups of duplicates: see [`duplicates_text`].
    pub fn format_output(duplicate_files: Vec<Vec<String>>, output_format: &str) -> (output: Result<
        String,
        String,
    >)
        ensures
            output matches Ok(text) && text@ == duplicates_text(duplicate_files@, output_format@),
    {
        if str_eq(output_format, "json") {
            let mut members: Vec<(String, Json)> = Vec::new();
            let mut i: usize = 0;
            while i < duplicate_files.len()
                invariant
                    i <= duplicate_files.len(),
                    members@.len() == i,
                    forall|k: int|
                        0 <= k < i ==> (#[trigger] members@[k]).0@ == decimal_text(k as nat)
                            && members@[k].1@ == text_array(texts_view(duplicate_files@[k]@)),
                decreases duplicate_files.len() - i,
            {
                members.push((decimal(i as u64), Json::texts(&duplicate_files[i])));
                i = i + 1;
            }
            proof {
                lemma_object_view(members);
                assert(members_view(members@) =~= groups_document(duplicate_files@)->Object_0);
            }
            return Ok(Json::Object(members).to_pretty_text());
        }
        if duplicate_files.len() == 0 {
            return Ok(String::from_str("No duplicate files were found."));
        }
        let mut output = String::from_str("Found ").concat(
            decimal(duplicate_files.len() as u64).as_str(),
        ).concat(" sets of duplicate files:\n");
        let ghost head = output@;
        let mut i: usize = 0;
        assert(duplicate_files@.take(0) =~= Seq::<Vec<String>>::empty());
        assert(output@ =~= head + groups_text(duplicate_files@.take(0)));
        while i < duplicate_files.len()
            invariant
                i <= duplicate_files.len(),
                output@ == head + groups_text(duplicate_files@.take(i as int)),
            decreases duplicate_files.len() - i,
        {
            let ghost longer = duplicate_files@.take(i + 1);
            assert(longer.drop_last() =~= duplicate_files@.take(i as int));
            assert(longer.last() == duplicate_files@[i as int]);
            output.append("\nDuplicated Group ");
            output.append(decimal((i + 1) as u64).as_str());
            output.append(":\n");
            indent_lines(&mut output, &duplicate_files[i]);
            assert(output@ =~= head + groups_text(longer));
            i = i + 1;
        }
        assert(duplicate_files@.take(duplicate_files@.len() as int) =~= duplicate_files@);
        Ok(output)
    }

    /// Reports the duplicates that were found, or why the search did not
    /// succeed.
    pub fn run_tool(self, found: ServiceResult<Vec<Vec<String>>>) -> (outcome: Result<
        CallToolResult,
        CallToolError,
    >)
        ensures
            match found {
                Ok(groups) => answers(outcome, duplicates_text(groups@, self.format())),
                Err(error) => reports_failure(outcome, error.message_spec()),
            },
    {
        match found {
            Ok(groups) => {
                let formatted = match &self.output_format {
                    Some(format) => Self::format_output(groups, format.as_str()),
                    None => Self::format_output(groups, "text"),
                };
                match formatted {
                    Ok(text) => answer(text),
                    Err(fault) => Err(CallToolError { message: fault }),
                }
            },
            Err(error) => fail(&error),
        }
    }
}

} // verus!
