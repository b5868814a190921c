use vstd::prelude::*;
use crate::error::{ServiceError, ServiceResult};
use crate::mcp_types::{CallToolError, CallToolResult};
use crate::tools::{fail, reports_failure};
use crate::fs_service::{MatcherKind, MediaType};
use crate::mcp_types::{AudioContent, CallToolResultView, ContentView, ImageContent};

verus! {

/// Reads one image or sound.
#[derive(Debug)]
pub struct ReadMediaFile {
    pub path: String,
    pub max_bytes: Option<u64>,
}

impl ReadMediaFile {
    /// Answers with the image or the sound that was read. A file of another
    /// kind is an invalid media file. That, and why a file could not be
    /// read, is reported as an operation that did not succeed.
    pub fn run_tool(self, read: ServiceResult<(MediaType, String)>) -> (outcome: Result<
        CallToolResult,
        CallToolError,
    >)
        ensures
            match read {
                Ok((kind, data)) => match kind.matcher_type {
                    MatcherKind::Image => outcome matches Ok(result) && result@ == (
                    CallToolResultView {
                        content: seq![
                            ContentView::Image { data: data@, mime_type: kind.mime_type@ },
                        ],
                        is_error: Some(false),
                    }),
                    MatcherKind::Audio => outcome matches Ok(result) && result@ == (
                    CallToolResultView {
                        content: seq![
                            ContentView::Audio { data: data@, mime_type: kind.mime_type@ },
                        ],
                        is_error: Some(false),
                    }),
                    _ => reports_failure(
                        outcome,
                        ServiceError::InvalidMediaFile(kind.mime_type).message_spec(),
                    ),
                },
                Err(error) => reports_failure(outcome, error.message_spec()),
            },
    {
        match read {
            Ok((kind, data)) => match kind.matcher_type {
                MatcherKind::Image => {
                    let result = CallToolResult::image_content(
                        vec![ImageContent::new(data, kind.mime_type, None, None)],
                    );
                    assert(result@.content =~= seq![
                        ContentView::Image { data: data@, mime_type: kind.mime_type@ },
                    ]);
                    Ok(result)
                },
                MatcherKind::Audio => {
                    let result = CallToolResult::audio_content(
                        vec![AudioContent::new(data, kind.mime_type, None, None)],
                    );
                    assert(result@.content =~= seq![
                        ContentView::Audio { data: data@, mime_type: kind.mime_type@ },
                    ]);
                    Ok(result)
                },
                _ => fail(&ServiceError::InvalidMediaFile(kind.mime_type)),
            },
            Err(error) => fail(&error),
        }
    }
}

} // verus!
