use vstd::prelude::*;
use vstd::string::StringExecFns;
use crate::json::{Json, JsonView};
use crate::mcp_types::Tool;
use crate::strings::{optional_text_view, optional_texts_view, str_eq};
use crate::task_state::ModeGate;
use crate::tools::{
    is_step, plan_step, refuse, refuse_unavailable, refuse_unknown, refuses, schema_document,
    schema_of, unavailable_message, unknown_operation_message, FileJob, ToolPlan,
};
use crate::tools::{FindDuplicateFiles, SearchFilesContent, SearchFilesTool};

verus! {

/// The operations that search and compare files.
#[derive(Debug)]
pub struct SearchAndAnalysisTool {
    pub operation: String,
    pub path: String,
    pub pattern: Option<String>,
    pub query: Option<String>,
    pub is_regex: Option<bool>,
    pub exclude_patterns: Option<Vec<String>>,
    pub min_bytes: Option<u64>,
    pub max_bytes: Option<u64>,
    pub include_content: Option<bool>,
}

pub struct SearchAndAnalysisView {
    pub operation: Seq<char>,
    pub path: Seq<char>,
    pub pattern: Option<Seq<char>>,
    pub query: Option<Seq<char>>,
    pub is_regex: Option<bool>,
    pub exclude_patterns: Option<Seq<Seq<char>>>,
    pub min_bytes: Option<u64>,
    pub max_bytes: Option<u64>,
    pub include_content: Option<bool>,
}

impl View for SearchAndAnalysisTool {
    type V = SearchAndAnalysisView;

    open spec fn view(&self) -> SearchAndAnalysisView {
        SearchAndAnalysisView {
            operation: self.operation@,
            path: self.path@,
            pattern: optional_text_view(self.pattern),
            query: optional_text_view(self.query),
            is_regex: self.is_regex,
            exclude_patterns: optional_texts_view(self.exclude_patterns),
            min_bytes: self.min_bytes,
            max_bytes: self.max_bytes,
            include_content: self.include_content,
        }
    }
}

impl SearchAndAnalysisTool {
    /// The arguments that a JSON object holds for this tool, or the fault of the
    /// first argument that cannot be read.
    pub open spec fn decoded(arguments: JsonView) -> Result<SearchAndAnalysisView, Seq<char>> {
        match arguments.required_text("operation"@) {
            Err(fault) => Err(fault),
            Ok(operation) =>             match arguments.required_text("path"@) {
                Err(fault) => Err(fault),
                Ok(path) =>                 match arguments.optional_text("pattern"@) {
                    Err(fault) => Err(fault),
                    Ok(pattern) =>                     match arguments.optional_text("query"@) {
                        Err(fault) => Err(fault),
                        Ok(query) =>                         match arguments.optional_bool("is_regex"@) {
                            Err(fault) => Err(fault),
                            Ok(is_regex) =>                             match arguments.optional_texts("exclude_patterns"@) {
                                Err(fault) => Err(fault),
                                Ok(exclude_patterns) =>                                 match arguments.optional_u64("min_bytes"@) {
                                    Err(fault) => Err(fault),
                                    Ok(min_bytes) =>                                     match arguments.optional_u64("max_bytes"@) {
                                        Err(fault) => Err(fault),
                                        Ok(max_bytes) =>                                         match arguments.optional_bool("include_content"@) {
                                            Err(fault) => Err(fault),
                                            Ok(include_content) => Ok(
                                                SearchAndAnalysisView {
                                                    operation,
                                                    path,
                                                    pattern,
                                                    query,
                                                    is_regex,
                                                    exclude_patterns,
                                                    min_bytes,
                                                    max_bytes,
                                                    include_content,
                                                },
                                            ),
                                        },
                                    },
                                },
                            },
                        },
                    },
                },
            },
        }
    }

    /// Reads the arguments of this tool from a JSON object.
    pub fn from_json(arguments: &Json) -> (tool: Result<SearchAndAnalysisTool, String>)
        ensures
            match tool {
                Ok(t) => Self::decoded(arguments@) == Ok::<SearchAndAnalysisView, Seq<char>>(t@),
                Err(fault) => Self::decoded(arguments@) == Err::<
                    SearchAndAnalysisView,
                    Seq<char>,
                >(fault@),
            },
    {
        let operation = match arguments.required_text("operation") {
            Ok(value) => value,
            Err(fault) => {
                return Err(fault);
            },
        };
        let path = match arguments.required_text("path") {
            Ok(value) => value,
            Err(fault) => {
                return Err(fault);
            },
        };
        let pattern = match arguments.optional_text("pattern") {
            Ok(value) => value,
            Err(fault) => {
                return Err(fault);
            },
        };
        let query = match arguments.optional_text("query") {
            Ok(value) => value,
            Err(fault) => {
                return Err(fault);
            },
        };
        let is_regex = match arguments.optional_bool("is_regex") {
            Ok(value) => value,
            Err(fault) => {
                return Err(fault);
            },
        };
        let exclude_patterns = match arguments.optional_texts("exclude_patterns") {
            Ok(value) => value,
            Err(fault) => {
                return Err(fault);
            },
        };
        let min_bytes = match arguments.optional_u64("min_bytes") {
            Ok(value) => value,
            Err(fault) => {
                return Err(fault);
            },
        };
        let max_bytes = match arguments.optional_u64("max_bytes") {
            Ok(value) => value,
            Err(fault) => {
                return Err(fault);
            },
        };
        let include_content = match arguments.optional_bool("include_content") {
            Ok(value) => value,
            Err(fault) => {
                return Err(fault);
            },
        };
        Ok(
            SearchAndAnalysisTool {
                operation,
                path,
                pattern,
                query,
                is_regex,
                exclude_patterns,
                min_bytes,
                max_bytes,
                include_content,
            },
        )
    }
}

/// The name of the tool, and of the mode that enables its operations.
pub const SEARCH_AND_ANALYSIS: &'static str = "search_and_analysis";

pub const SEARCH_DESCRIPTION: &'static str =
    "Perform search and analysis operations including file search, content search, and finding duplicate files.";

pub const SEARCH_SCHEMA: &'static str =
    "{\"type\":\"object\",\"properties\":{\"operation\":{\"type\":\"string\",\"description\":\"The operation to perform\",\"enum\":[\"search_files\",\"search_files_content\",\"find_duplicate_files\"]},\"path\":{\"type\":\"string\",\"description\":\"The directory path to search in\"},\"pattern\":{\"type\":\"string\",\"description\":\"File pattern for search operations\"},\"query\":{\"type\":\"string\",\"description\":\"Search query for content search\"},\"is_regex\":{\"type\":\"boolean\",\"description\":\"Whether query is a regex pattern\",\"default\":false},\"exclude_patterns\":{\"type\":\"array\",\"items\":{\"type\":\"string\"},\"description\":\"Patterns to exclude from search\"},\"min_bytes\":{\"type\":\"number\",\"description\":\"Minimum file size for duplicate search\"},\"max_bytes\":{\"type\":\"number\",\"description\":\"Maximum file size for duplicate search\"},\"include_content\":{\"type\":\"boolean\",\"description\":\"Include file content in search\",\"default\":false}},\"required\":[\"operation\",\"path\"]}";

impl SearchAndAnalysisTool {
    /// The text with which a call is refused, if it is: an operation that the
    /// active mode does not enable, one that lacks an argument it needs, and
    /// one that the tool does not have.
    pub open spec fn refusal(tool: SearchAndAnalysisView, enabled: bool) -> Option<Seq<char>> {
        if !enabled {
            Some(unavailable_message(tool.operation, SEARCH_AND_ANALYSIS@))
        } else if tool.operation == "search_files"@ {
            match tool.pattern {
                None => Some("Pattern is required for search_files operation"@),
                Some(_) => None,
            }
        } else if tool.operation == "search_files_content"@ {
            match (tool.pattern, tool.query) {
                (Some(_), Some(_)) => None,
                _ => Some("Pattern and query are required for search_files_content operation"@,
                ),
            }
        } else if tool.operation == "find_duplicate_files"@ {
            None
        } else {
            Some(unknown_operation_message(tool.operation))
        }
    }

    /// Whether `job` is the work of the operation that a call asks for, with
    /// the arguments of the call handed on. It is asked only of a call that
    /// is not refused.
    pub open spec fn job_fits(tool: SearchAndAnalysisView, job: FileJob) -> bool {
        if tool.operation == "search_files"@ {
            job matches FileJob::SearchFiles(work) && work.directory@ == tool.path && Some(
                work.pattern@,
            ) == tool.pattern && work.include_content == Some(tool.include_content == Some(true))
        } else if tool.operation == "search_files_content"@ {
            job matches FileJob::SearchFilesContent(work) && work.path@ == tool.path && Some(
                work.pattern@,
            ) == tool.pattern && Some(work.query@) == tool.query && work.is_regex == tool.is_regex
                && optional_texts_view(work.exclude_patterns) == tool.exclude_patterns
                && work.min_bytes == tool.min_bytes && work.max_bytes == tool.max_bytes
        } else if tool.operation == "find_duplicate_files"@ {
            job matches FileJob::FindDuplicateFiles(work) && work.root_path@ == tool.path
                && optional_text_view(work.pattern) == tool.pattern && optional_texts_view(
                work.exclude_patterns,
            ) == tool.exclude_patterns && work.min_bytes == tool.min_bytes && work.max_bytes
                == tool.max_bytes && optional_text_view(work.output_format) == Some("text"@)
        } else {
            false
        }
    }

    /// What the step of a call holds besides the name of the operation.
    pub open spec fn step_value(tool: SearchAndAnalysisView) -> JsonView {
        JsonView::Str(tool.path)
    }

    /// Whether `plan` is what this tool makes of a call: the refusal where
    /// the call is refused, else the work to carry out and the step to
    /// record for it.
    pub open spec fn plans(tool: SearchAndAnalysisView, enabled: bool, plan: ToolPlan) -> bool {
        match Self::refusal(tool, enabled) {
            Some(message) => refuses(plan, message),
            None => plan matches ToolPlan::Run(job, step) && Self::job_fits(tool, job) && is_step(
                step,
                SEARCH_AND_ANALYSIS@,
                tool.operation,
                "path"@,
                Self::step_value(tool),
            ),
        }
    }

    pub fn tool_definition() -> (tool: Tool)
        ensures
            tool.name@ == SEARCH_AND_ANALYSIS@,
            tool.description matches Some(text) && text@ == SEARCH_DESCRIPTION@,
            tool.input_schema@ == schema_document(SEARCH_SCHEMA@),
    {
        Tool {
            name: String::from_str(SEARCH_AND_ANALYSIS),
            description: Some(String::from_str(SEARCH_DESCRIPTION)),
            input_schema: schema_of(SEARCH_SCHEMA),
        }
    }

    /// Decides what becomes of a call: see [`Self::plans`].
    pub fn run_tool(self, gate: &ModeGate) -> (plan: ToolPlan)
        ensures
            Self::plans(self@, gate.enables(self.operation@), plan),
    {
        let operation = self.operation.as_str();
        if !gate.is_operation_enabled(operation) {
            return refuse_unavailable(operation, SEARCH_AND_ANALYSIS);
        }
        let step = plan_step(SEARCH_AND_ANALYSIS, operation, "path", Json::text(self.path.as_str()));
        if str_eq(operation, "search_files") {
            match self.pattern {
                None => refuse(String::from_str("Pattern is required for search_files operation")),
                Some(pattern) => ToolPlan::Run(
                    FileJob::SearchFiles(
                        SearchFilesTool {
                            directory: self.path,
                            pattern,
                            include_content: Some(
                                match self.include_content {
                                    Some(flag) => flag,
                                    None => false,
                                },
                            ),
                        },
                    ),
                    step,
                ),
            }
        } else if str_eq(operation, "search_files_content") {
            match (self.pattern, self.query) {
                (Some(pattern), Some(query)) => ToolPlan::Run(
                    FileJob::SearchFilesContent(
                        SearchFilesContent {
                            path: self.path,
                            pattern,
                            query,
                            is_regex: self.is_regex,
                            exclude_patterns: self.exclude_patterns,
                            min_bytes: self.min_bytes,
                            max_bytes: self.max_bytes,
                        },
                    ),
                    step,
                ),
                _ => refuse(
                    String::from_str(
                        "Pattern and query are required for search_files_content operation",
                    ),
                ),
            }
        } else if str_eq(operation, "find_duplicate_files") {
            ToolPlan::Run(
                FileJob::FindDuplicateFiles(
                    FindDuplicateFiles {
                        root_path: self.path,
                        pattern: self.pattern,
                        exclude_patterns: self.exclude_patterns,
                        min_bytes: self.min_bytes,
                        max_bytes: self.max_bytes,
                        output_format: Some(String::from_str("text")),
                    },
                ),
                step,
            )
        } else {
            refuse_unknown(operation)
        }
    }
}

} // verus!
