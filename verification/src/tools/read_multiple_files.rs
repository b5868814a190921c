use vstd::prelude::*;
use vstd::string::StringExecFns;
use crate::error::ServiceResult;
use crate::mcp_types::{CallToolError, CallToolResult};
use crate::tools::{answer, answers, fail};
use crate::strings::{join, joined, texts_view};

verus! {

/// Reads several files.
#[derive(Debug)]
pub struct ReadMultipleFilesTool {
    pub paths: Vec<String>,
}

/// What is reported of one file: its path, and its content or why it could
/// not be read.
pub open spec fn file_section(path: Seq<char>, read: ServiceResult<String>) -> Seq<char> {
    match read {
        Ok(content) => "=== "@ + path + " ===\n"@ + content@,
        Err(error) => "=== "@ + path + " ===\nError: "@ + error.message_spec(),
    }
}

/// The sections of the files, for as many paths as there are readings.
pub open spec fn file_sections(paths: Seq<String>, reads: Seq<ServiceResult<String>>) -> Seq<
    Seq<char>,
> {
    Seq::new(
        if paths.len() < reads.len() {
            paths.len()
        } else {
            reads.len()
        },
        |i: int| file_section(paths[i]@, reads[i]),
    )
}

impl ReadMultipleFilesTool {
    /// Answers with one section for each file, in the order of the paths. A
    /// file that could not be read does not make the call fail: its section
    /// says why.
    pub fn run_tool(self, reads: &Vec<ServiceResult<String>>) -> (outcome: Result<
        CallToolResult,
        CallToolError,
    >)
        ensures
            answers(outcome, joined(file_sections(self.paths@, reads@), "\n\n"@)),
    {
        let count = if self.paths.len() < reads.len() {
            self.paths.len()
        } else {
            reads.len()
        };
        let mut sections: Vec<String> = Vec::new();
        let mut i: usize = 0;
        while i < count
            invariant
                i <= count,
                count <= self.paths@.len(),
                count <= reads@.len(),
                sections@.len() == i,
                forall|k: int|
                    0 <= k < i ==> (#[trigger] sections@[k])@ == file_section(
                        self.paths@[k]@,
                        reads@[k],
                    ),
            decreases count - i,
        {
            let start = String::from_str("=== ").concat(self.paths[i].as_str());
            let section = match &reads[i] {
                Ok(content) => start.concat(" ===\n").concat(content.as_str()),
                Err(error) => start.concat(" ===\nError: ").concat(error.message().as_str()),
            };
            sections.push(section);
            i = i + 1;
        }
        assert(texts_view(sections@) =~= file_sections(self.paths@, reads@));
        answer(join(&sections, "\n\n"))
    }
}

} // verus!
