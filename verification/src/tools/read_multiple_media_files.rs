use vstd::prelude::*;
use crate::error::ServiceResult;
use crate::mcp_types::{CallToolError, CallToolResult};
use crate::tools::{fail, reports_failure};
use crate::fs_service::{MatcherKind, MediaType};
use crate::mcp_types::{AudioContent, CallToolResultView, Content, ContentView, ImageContent};

verus! {

/// Reads several images or sounds.
#[derive(Debug)]
pub struct ReadMultipleMediaFiles {
    pub paths: Vec<String>,
    pub max_bytes: Option<u64>,
}

/// The images and sounds among the media, in order.
pub open spec fn shown_media(media: Seq<(MediaType, String)>) -> Seq<ContentView>
    decreases media.len(),
{
    if media.len() == 0 {
        Seq::empty()
    } else {
        let front = shown_media(media.drop_last());
        let (kind, data) = media.last();
        match kind.matcher_type {
            MatcherKind::Image => front.push(
                ContentView::Image { data: data@, mime_type: kind.mime_type@ },
            ),
            MatcherKind::Audio => front.push(
                ContentView::Audio { data: data@, mime_type: kind.mime_type@ },
            ),
            _ => front,
        }
    }
}

impl ReadMultipleMediaFiles {
    /// Answers with the images and sounds that were read; media of another
    /// kind are passed over. Reports why the reading did not succeed.
    pub fn run_tool(self, read: ServiceResult<Vec<(MediaType, String)>>) -> (outcome: Result<
        CallToolResult,
        CallToolError,
    >)
        ensures
            match read {
                Ok(media) => outcome matches Ok(result) && result@ == (CallToolResultView {
                    content: shown_media(media@),
                    is_error: Some(false),
                }),
                Err(error) => reports_failure(outcome, error.message_spec()),
            },
    {
        match read {
            Ok(media) => {
                let mut content: Vec<Content> = Vec::new();
                let ghost all = media@;
                assert(all.take(0) =~= Seq::<(MediaType, String)>::empty());
                for entry in it: media
                    invariant
                        it.seq() == all,
                        content@.len() == shown_media(all.take(it.index() as int)).len(),
                        forall|k: int|
                            0 <= k < content@.len() ==> (#[trigger] content@[k])@ == shown_media(
                                all.take(it.index() as int),
                            )[k],
                {
                    let ghost longer = all.take(it.index() + 1);
                    assert(longer.drop_last() =~= all.take(it.index() as int));
                    assert(longer.last() == all[it.index() as int]);
                    let (kind, data) = entry;
                    match kind.matcher_type {
                        MatcherKind::Image => {
                            content.push(
                                Content::ImageContent(
                                    ImageContent::new(data, kind.mime_type, None, None),
                                ),
                            );
                        },
                        MatcherKind::Audio => {
                            content.push(
                                Content::AudioContent(
                                    AudioContent::new(data, kind.mime_type, None, None),
                                ),
                            );
                        },
                        _ => {},
                    }
                }
                assert(all.take(all.len() as int) =~= all);
                let result = CallToolResult { content, is_error: Some(false) };
                assert(result@.content =~= shown_media(all));
                Ok(result)
            },
            Err(error) => fail(&error),
        }
    }
}

} // verus!
