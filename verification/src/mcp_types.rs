//! The values of the protocol: tools, results and the parameters of the
//! core methods.

use vstd::prelude::*;
use vstd::string::StringExecFns;
use crate::json::{
    collected, items_view, lemma_array_view, lemma_object_view, members_view, Json, JsonMap,
    JsonView,
};

verus! {

/// An operation that a caller can invoke, with the schema of its arguments.
#[derive(Debug)]
pub struct Tool {
    pub name: String,
    pub description: Option<String>,
    pub input_schema: Json,
}

#[derive(Debug)]
pub enum Content {
    Text(TextContent),
    ImageContent(ImageContent),
    AudioContent(AudioContent),
}

#[derive(Debug)]
pub struct TextContent {
    pub text: String,
}

#[derive(Debug)]
pub struct ImageContent {
    pub data: String,
    pub mime_type: String,
}

#[derive(Debug)]
pub struct AudioContent {
    pub data: String,
    pub mime_type: String,
}

/// What a tool answers. An answer with `is_error` set reports that the
/// operation did not succeed; it is an answer all the same, not a fault of
/// the protocol.
#[derive(Debug)]
pub struct CallToolResult {
    pub content: Vec<Content>,
    pub is_error: Option<bool>,
}

#[derive(Debug)]
pub struct CallToolRequest {
    pub params: CallToolParams,
}

#[derive(Debug)]
pub struct CallToolParams {
    pub name: String,
    pub arguments: Option<Json>,
}

#[derive(Debug)]
pub struct ListToolsRequest {
    pub params: Option<Json>,
}

#[derive(Debug)]
pub struct ListToolsResult {
    pub tools: Vec<Tool>,
    pub meta: Option<Json>,
    pub next_cursor: Option<String>,
}

#[derive(Debug)]
pub struct InitializeRequest {
    pub params: InitializeParams,
}

#[derive(Debug)]
pub struct InitializeParams {
    pub protocol_version: String,
    pub capabilities: JsonMap,
    pub client_info: ClientInfo,
}

#[derive(Debug)]
pub struct ClientInfo {
    pub name: String,
    pub version: String,
}

#[derive(Debug)]
pub struct InitializeResult {
    pub protocol_version: String,
    pub capabilities: JsonMap,
    pub server_info: ServerInfo,
}

#[derive(Debug)]
pub struct ServerInfo {
    pub name: String,
    pub version: String,
}

#[derive(Debug)]
pub struct RpcError {
    pub code: i32,
    pub message: String,
    pub data: Option<Json>,
}

/// The failure of a tool, with the text that describes it.
#[derive(Debug)]
pub struct CallToolError {
    pub message: String,
}

pub enum ContentView {
    Text(Seq<char>),
    Image { data: Seq<char>, mime_type: Seq<char> },
    Audio { data: Seq<char>, mime_type: Seq<char> },
}

pub struct CallToolResultView {
    pub content: Seq<ContentView>,
    pub is_error: Option<bool>,
}

impl View for Content {
    type V = ContentView;

    open spec fn view(&self) -> ContentView {
        match self {
            Content::Text(t) => ContentView::Text(t.text@),
            Content::ImageContent(i) => ContentView::Image {
                data: i.data@,
                mime_type: i.mime_type@,
            },
            Content::AudioContent(a) => ContentView::Audio {
                data: a.data@,
                mime_type: a.mime_type@,
            },
        }
    }
}

impl View for CallToolResult {
    type V = CallToolResultView;

    open spec fn view(&self) -> CallToolResultView {
        CallToolResultView {
            content: Seq::new(self.content@.len(), |i: int| self.content@[i]@),
            is_error: self.is_error,
        }
    }
}

/// The answer of one text.
pub open spec fn text_result(text: Seq<char>, is_error: bool) -> CallToolResultView {
    CallToolResultView { content: seq![ContentView::Text(text)], is_error: Some(is_error) }
}

impl ContentView {
    /// One item of content as a JSON document, tagged with its type.
    pub open spec fn json(self) -> JsonView {
        match self {
            ContentView::Text(text) => JsonView::Object(
                seq![("type"@, JsonView::Str("text"@)), ("text"@, JsonView::Str(text))],
            ),
            ContentView::Image { data, mime_type } => JsonView::Object(
                seq![
                    ("type"@, JsonView::Str("image"@)),
                    ("data"@, JsonView::Str(data)),
                    ("mimeType"@, JsonView::Str(mime_type)),
                ],
            ),
            ContentView::Audio { data, mime_type } => JsonView::Object(
                seq![
                    ("type"@, JsonView::Str("audio"@)),
                    ("data"@, JsonView::Str(data)),
                    ("mimeType"@, JsonView::Str(mime_type)),
                ],
            ),
        }
    }
}

impl CallToolResultView {
    /// The answer as a JSON document. The error flag is left out where it is
    /// not set.
    pub open spec fn json(self) -> JsonView {
        let content = JsonView::Array(
            Seq::new(self.content.len(), |i: int| self.content[i].json()),
        );
        match self.is_error {
            Some(flag) => JsonView::Object(
                seq![("content"@, content), ("isError"@, JsonView::Bool(flag))],
            ),
            None => JsonView::Object(seq![("content"@, content)]),
        }
    }
}

impl Content {
    pub fn to_json(&self) -> (document: Json)
        ensures
            document@ == self@.json(),
    {
        let members = match self {
            Content::Text(t) => vec![
                (String::from_str("type"), Json::text("text")),
                (String::from_str("text"), Json::text(t.text.as_str())),
            ],
            Content::ImageContent(i) => vec![
                (String::from_str("type"), Json::text("image")),
                (String::from_str("data"), Json::text(i.data.as_str())),
                (String::from_str("mimeType"), Json::text(i.mime_type.as_str())),
            ],
            Content::AudioContent(a) => vec![
                (String::from_str("type"), Json::text("audio")),
                (String::from_str("data"), Json::text(a.data.as_str())),
                (String::from_str("mimeType"), Json::text(a.mime_type.as_str())),
            ],
        };
        proof {
            lemma_object_view(members);
            assert(members_view(members@) =~= self@.json()->Object_0);
        }
        Json::Object(members)
    }
}

impl ImageContent {
    pub fn new(
        data: String,
        mime_type: String,
        _annotations: Option<Json>,
        _metadata: Option<Json>,
    ) -> (content: ImageContent)
        ensures
            content.data == data,
            content.mime_type == mime_type,
    {
        ImageContent { data, mime_type }
    }
}

impl AudioContent {
    pub fn new(
        data: String,
        mime_type: String,
        _annotations: Option<Json>,
        _metadata: Option<Json>,
    ) -> (content: AudioContent)
        ensures
            content.data == data,
            content.mime_type == mime_type,
    {
        AudioContent { data, mime_type }
    }
}

impl CallToolResult {
    /// The answer of one text.
    pub fn text(text: String, is_error: bool) -> (result: CallToolResult)
        ensures
            result@ == text_result(text@, is_error),
    {
        let result = CallToolResult {
            content: vec![Content::Text(TextContent { text })],
            is_error: Some(is_error),
        };
        assert(result@.content =~= text_result(text@, is_error).content);
        result
    }

    /// The answer that holds the given images, in order.
    pub fn image_content(content: Vec<ImageContent>) -> (result: CallToolResult)
        ensures
            result@.is_error == Some(false),
            result@.content.len() == content@.len(),
            forall|i: int|
                0 <= i < content@.len() ==> #[trigger] result@.content[i] == (ContentView::Image {
                    data: content@[i].data@,
                    mime_type: content@[i].mime_type@,
                }),
    {
        let mut items: Vec<Content> = Vec::new();
        for image in it: content
            invariant
                items@.len() == it.index(),
                forall|k: int|
                    0 <= k < items@.len() ==> (#[trigger] items@[k])@ == (ContentView::Image {
                        data: it.seq()[k].data@,
                        mime_type: it.seq()[k].mime_type@,
                    }),
        {
            items.push(Content::ImageContent(image));
        }
        CallToolResult { content: items, is_error: Some(false) }
    }

    /// The answer that holds the given sounds, in order.
    pub fn audio_content(content: Vec<AudioContent>) -> (result: CallToolResult)
        ensures
            result@.is_error == Some(false),
            result@.content.len() == content@.len(),
            forall|i: int|
                0 <= i < content@.len() ==> #[trigger] result@.content[i] == (ContentView::Audio {
                    data: content@[i].data@,
                    mime_type: content@[i].mime_type@,
                }),
    {
        let mut items: Vec<Content> = Vec::new();
        for sound in it: content
            invariant
                items@.len() == it.index(),
                forall|k: int|
                    0 <= k < items@.len() ==> (#[trigger] items@[k])@ == (ContentView::Audio {
                        data: it.seq()[k].data@,
                        mime_type: it.seq()[k].mime_type@,
                    }),
        {
            items.push(Content::AudioContent(sound));
        }
        CallToolResult { content: items, is_error: Some(false) }
    }

    pub fn to_json(&self) -> (document: Json)
        ensures
            document@ == self@.json(),
    {
        let mut items: Vec<Json> = Vec::new();
        let mut i: usize = 0;
        while i < self.content.len()
            invariant
                i <= self.content.len(),
                items@.len() == i,
                forall|k: int| 0 <= k < i ==> (#[trigger] items@[k])@ == self.content@[k]@.json(),
            decreases self.content.len() - i,
        {
            items.push(self.content[i].to_json());
            i = i + 1;
        }
        proof {
            lemma_array_view(items);
            assert(items_view(items@) =~= Seq::new(
                self@.content.len(),
                |i: int| self@.content[i].json(),
            ));
        }
        let members = match self.is_error {
            Some(flag) => vec![
                (String::from_str("content"), Json::Array(items)),
                (String::from_str("isError"), Json::Bool(flag)),
            ],
            None => vec![(String::from_str("content"), Json::Array(items))],
        };
        proof {
            lemma_object_view(members);
            assert(members_view(members@) =~= self@.json()->Object_0);
        }
        Json::Object(members)
    }
}

impl CallToolError {
    pub fn new(message: &str) -> (error: CallToolError)
        ensures
            error.message@ == message@,
    {
        CallToolError { message: message.to_owned() }
    }
}

impl Tool {
    /// The tool as it is listed: its name, its description or `null`, and
    /// the schema of its arguments.
    pub open spec fn json(&self) -> JsonView {
        JsonView::Object(
            seq![
                ("name"@, JsonView::Str(self.name@)),
                (
                    "description"@,
                    match self.description {
                        Some(text) => JsonView::Str(text@),
                        None => JsonView::Null,
                    },
                ),
                ("inputSchema"@, self.input_schema@),
            ],
        )
    }

    pub fn to_json(&self) -> (document: Json)
        ensures
            document@ == self.json(),
    {
        let members = vec![
            (String::from_str("name"), Json::text(self.name.as_str())),
            (
                String::from_str("description"),
                match &self.description {
                    Some(text) => Json::text(text.as_str()),
                    None => Json::Null,
                },
            ),
            (String::from_str("inputSchema"), self.input_schema.duplicate()),
        ];
        proof {
            lemma_object_view(members);
            assert(members_view(members@) =~= self.json()->Object_0);
        }
        Json::Object(members)
    }
}

/// The list of tools as a JSON document.
pub open spec fn tools_json(tools: Seq<Tool>) -> JsonView {
    JsonView::Array(Seq::new(tools.len(), |i: int| tools[i].json()))
}

impl ListToolsResult {
    /// The answer to a listing of the tools. What is not set is left out.
    pub open spec fn json(&self) -> JsonView {
        let tools = seq![("tools"@, tools_json(self.tools@))];
        let meta = match self.meta {
            Some(value) => seq![("meta"@, value@)],
            None => Seq::empty(),
        };
        let cursor = match self.next_cursor {
            Some(text) => seq![("nextCursor"@, JsonView::Str(text@))],
            None => Seq::empty(),
        };
        JsonView::Object(tools + meta + cursor)
    }

    pub fn to_json(&self) -> (document: Json)
        ensures
            document@ == self.json(),
    {
        let mut items: Vec<Json> = Vec::new();
        let mut i: usize = 0;
        while i < self.tools.len()
            invariant
                i <= self.tools.len(),
                items@.len() == i,
                forall|k: int| 0 <= k < i ==> (#[trigger] items@[k])@ == self.tools@[k].json(),
            decreases self.tools.len() - i,
        {
            items.push(self.tools[i].to_json());
            i = i + 1;
        }
        proof {
            lemma_array_view(items);
            assert(items_view(items@) =~= tools_json(self.tools@)->Array_0);
        }
        let mut members = vec![(String::from_str("tools"), Json::Array(items))];
        match &self.meta {
            Some(value) => {
                members.push((String::from_str("meta"), value.duplicate()));
            },
            None => {},
        }
        match &self.next_cursor {
            Some(text) => {
                members.push((String::from_str("nextCursor"), Json::text(text.as_str())));
            },
            None => {},
        }
        proof {
            lemma_object_view(members);
            assert(members_view(members@) =~= self.json()->Object_0);
        }
        Json::Object(members)
    }
}

impl InitializeResult {
    /// The answer to the handshake.
    pub open spec fn json(&self) -> JsonView {
        JsonView::Object(
            seq![
                ("protocolVersion"@, JsonView::Str(self.protocol_version@)),
                ("capabilities"@, JsonView::Object(self.capabilities@)),
                (
                    "serverInfo"@,
                    JsonView::Object(
                        seq![
                            ("name"@, JsonView::Str(self.server_info.name@)),
                            ("version"@, JsonView::Str(self.server_info.version@)),
                        ],
                    ),
                ),
            ],
        )
    }

    pub fn to_json(&self) -> (document: Json)
        ensures
            document@ == self.json(),
    {
        let capabilities = self.capabilities.to_json();
        let server = vec![
            (String::from_str("name"), Json::text(self.server_info.name.as_str())),
            (String::from_str("version"), Json::text(self.server_info.version.as_str())),
        ];
        proof {
            lemma_object_view(server);
            assert(members_view(server@) =~= seq![
                ("name"@, JsonView::Str(self.server_info.name@)),
                ("version"@, JsonView::Str(self.server_info.version@)),
            ]);
        }
        let members = vec![
            (String::from_str("protocolVersion"), Json::text(self.protocol_version.as_str())),
            (String::from_str("capabilities"), capabilities),
            (String::from_str("serverInfo"), Json::Object(server)),
        ];
        proof {
            lemma_object_view(members);
            assert(members_view(members@) =~= self.json()->Object_0);
        }
        Json::Object(members)
    }
}

impl InitializeParams {
    /// Whether a JSON document has the shape of the parameters of the
    /// handshake: a protocol version, capabilities, and the name and version
    /// of the client.
    pub open spec fn accepts(params: JsonView) -> bool {
        &&& params.required_text("protocolVersion"@) is Ok
        &&& params.member("capabilities"@) matches Some(JsonView::Object(_))
        &&& params.member("clientInfo"@) matches Some(info) && info.required_text("name"@) is Ok
            && info.required_text("version"@) is Ok
    }

    /// Reads the parameters of the handshake.
    pub fn from_json(params: &Json) -> (read: Option<InitializeParams>)
        ensures
            read is Some <==> Self::accepts(params@),
            read matches Some(p) ==> {
                &&& params@.required_text("protocolVersion"@) == Ok::<Seq<char>, Seq<char>>(
                    p.protocol_version@,
                )
                &&& params@.member("capabilities"@) matches Some(JsonView::Object(members))
                    && p.capabilities@ == collected(members)
                &&& params@.member("clientInfo"@)->Some_0.required_text("name"@) == Ok::<
                    Seq<char>,
                    Seq<char>,
                >(p.client_info.name@)
                &&& params@.member("clientInfo"@)->Some_0.required_text("version"@) == Ok::<
                    Seq<char>,
                    Seq<char>,
                >(p.client_info.version@)
            },
    {
        let protocol_version = match params.required_text("protocolVersion") {
            Ok(text) => text,
            Err(_) => {
                return None;
            },
        };
        let capabilities = match params.get("capabilities") {
            Some(Json::Object(members)) => {
                proof {
                    lemma_object_view(*members);
                }
                JsonMap::from_members(members)
            },
            _ => {
                return None;
            },
        };
        let info = match params.get("clientInfo") {
            Some(info) => info,
            None => {
                return None;
            },
        };
        let name = match info.required_text("name") {
            Ok(text) => text,
            Err(_) => {
                return None;
            },
        };
        let version = match info.required_text("version") {
            Ok(text) => text,
            Err(_) => {
                return None;
            },
        };
        Some(
            InitializeParams {
                protocol_version,
                capabilities,
                client_info: ClientInfo { name, version },
            },
        )
    }
}

impl CallToolParams {
    /// The arguments of the call; `null` where it has none.
    pub open spec fn arguments_view(&self) -> JsonView {
        match self.arguments {
            Some(value) => value@,
            None => JsonView::Null,
        }
    }

    /// The name of the tool that a JSON document asks for, or nothing where
    /// the document does not have the shape of the parameters of a call.
    pub open spec fn decoded_name(params: JsonView) -> Option<Seq<char>> {
        match params.required_text("name"@) {
            Ok(name) => Some(name),
            Err(_) => None,
        }
    }

    /// The arguments that a JSON document hands to the tool; `null` where it
    /// has none.
    pub open spec fn decoded_arguments(params: JsonView) -> JsonView {
        match params.member("arguments"@) {
            Some(value) => value,
            None => JsonView::Null,
        }
    }

    /// Reads the parameters of a call: the name of the tool and, where there
    /// are any, its arguments.
    pub fn from_json(params: &Json) -> (read: Option<CallToolParams>)
        ensures
            match read {
                Some(p) => Self::decoded_name(params@) == Some(p.name@) && p.arguments_view()
                    == Self::decoded_arguments(params@),
                None => Self::decoded_name(params@) is None,
            },
    {
        let name = match params.required_text("name") {
            Ok(text) => text,
            Err(_) => {
                return None;
            },
        };
        let arguments = match params.get("arguments") {
            Some(Json::Null) => None,
            Some(value) => Some(value.duplicate()),
            None => None,
        };
        Some(CallToolParams { name, arguments })
    }
}

} // verus!
