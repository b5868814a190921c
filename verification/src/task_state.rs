//! The operation-mode gate.
//!
//! At most one operation mode is active at a time. A mode enables a fixed set
//! of operations and collects the history of the steps taken in it. The mode gate
//! is a plain value that its owner hands to every call.

use vstd::prelude::*;
use vstd::string::StringExecFns;
use crate::json::{
    document_text, items_view, lemma_array_view, lemma_object_view, members_view, text_array, Json,
    JsonMap, JsonView,
};
use crate::strings::{first_chars, str_eq, texts_view};

verus! {

/// A point in time: seconds since the start of 1970 in UTC, and the
/// nanoseconds into that second. The library reads no clock: the caller
/// hands in the time of every call.
#[derive(Debug, Clone, Copy, PartialEq, Eq, Structural)]
pub struct Timestamp {
    pub secs: i64,
    pub nanos: u32,
}

/// The RFC 3339 text of a point in time, where `chrono` can represent it.
pub uninterp spec fn rfc3339_text(secs: i64, nanos: u32) -> Option<Seq<char>>;

/// `chrono::DateTime::from_timestamp` followed by `to_rfc3339`: the RFC 3339
/// text of the point in time, and nothing where the seconds or nanoseconds
/// are out of range.
#[verifier::external_body]
fn format_rfc3339(secs: i64, nanos: u32) -> (text: Option<String>)
    ensures
        match text {
            Some(t) => rfc3339_text(secs, nanos) == Some(t@),
            None => rfc3339_text(secs, nanos) is None,
        },
{
    chrono::DateTime::from_timestamp(secs, nanos).map(|t| t.to_rfc3339())
}

impl Timestamp {
    /// The RFC 3339 text of this point in time, empty where it has none.
    pub open spec fn rfc3339_spec(self) -> Seq<char> {
        match rfc3339_text(self.secs, self.nanos) {
            Some(text) => text,
            None => Seq::empty(),
        }
    }

    /// Whole seconds from `self` to `later`, kept within the range of `i64`.
    pub open spec fn seconds_until(self, later: Timestamp) -> int {
        let exact = later.secs - self.secs;
        if exact > i64::MAX {
            i64::MAX as int
        } else if exact < i64::MIN {
            i64::MIN as int
        } else {
            exact
        }
    }

    pub fn to_rfc3339(&self) -> (text: String)
        ensures
            text@ == self.rfc3339_spec(),
    {
        match format_rfc3339(self.secs, self.nanos) {
            Some(text) => text,
            None => String::new(),
        }
    }

    pub fn elapsed_seconds(&self, later: Timestamp) -> (seconds: i64)
        ensures
            seconds == self.seconds_until(later),
    {
        let exact: i128 = later.secs as i128 - self.secs as i128;
        if exact > i64::MAX as i128 {
            i64::MAX
        } else if exact < i64::MIN as i128 {
            i64::MIN
        } else {
            exact as i64
        }
    }
}

/// One recorded step of a workflow.
#[derive(Debug)]
pub struct WorkflowStep {
    pub step_name: String,
    pub timestamp: Timestamp,
    pub result_summary: String,
    pub metadata: JsonMap,
}

/// An operation mode: the operations it enables and what was done in it.
#[derive(Debug)]
pub struct OperationMode {
    pub name: String,
    pub start_time: Timestamp,
    pub context: JsonMap,
    pub workflow_history: Vec<WorkflowStep>,
    pub available_tools: Vec<String>,
}

/// The state of the mode gate: idle, or active with one mode.
#[derive(Debug)]
pub struct ModeGate {
    pub current: Option<OperationMode>,
}

/// The longest summary kept of a step's result, in characters.
pub const SUMMARY_LIMIT: usize = 200;

/// The summary kept of a step's result: the start of its JSON text.
pub open spec fn summary_of(result: JsonView) -> Seq<char> {
    let text = document_text(result);
    if text.len() <= SUMMARY_LIMIT {
        text
    } else {
        text.take(SUMMARY_LIMIT as int)
    }
}

/// Whether `name` is among `tools`.
pub open spec fn lists(tools: Seq<String>, name: Seq<char>) -> bool {
    exists|i: int| 0 <= i < tools.len() && (#[trigger] tools[i])@ == name
}

/// One step as it appears in a summary.
pub open spec fn step_entry(step: WorkflowStep) -> JsonView {
    JsonView::Object(
        seq![
            ("step"@, JsonView::Str(step.step_name@)),
            ("timestamp"@, JsonView::Str(step.timestamp.rfc3339_spec())),
            ("summary"@, JsonView::Str(step.result_summary@)),
        ],
    )
}

/// The names of the operation modes, in the order in which they are listed.
pub open spec fn mode_names() -> Seq<Seq<char>> {
    seq![
        "single_file_operations"@,
        "multiple_file_operations"@,
        "directory_operations"@,
        "search_and_analysis"@,
        "file_management"@,
    ]
}

/// The operations that the mode named `mode_name` enables; none for a name
/// that is not a mode.
pub open spec fn mode_tools(mode_name: Seq<char>) -> Seq<Seq<char>> {
    if mode_name == "single_file_operations"@ {
        seq![
            "read_file"@,
            "write_file"@,
            "edit_file"@,
            "get_file_info"@,
            "head_file"@,
            "tail_file"@,
            "read_file_lines"@,
            "read_media_file"@,
        ]
    } else if mode_name == "multiple_file_operations"@ {
        seq![
            "read_multiple_files"@,
            "read_multiple_media_files"@,
            "copy_file"@,
            "move_file"@,
            "zip_files"@,
            "unzip_file"@,
            "zip_directory"@,
        ]
    } else if mode_name == "directory_operations"@ {
        seq![
            "create_directory"@,
            "list_directory"@,
            "directory_tree"@,
            "list_directory_with_sizes"@,
            "calculate_directory_size"@,
            "find_empty_directories"@,
            "delete_file"@,
        ]
    } else if mode_name == "search_and_analysis"@ {
        seq!["search_files"@, "search_files_content"@, "find_duplicate_files"@]
    } else if mode_name == "file_management"@ {
        seq!["list_allowed_directories"@, "delete_file"@]
    } else {
        Seq::empty()
    }
}

impl OperationMode {
    /// The summary of this mode at the time `now`.
    pub open spec fn summary_spec(&self, now: Timestamp) -> JsonView {
        JsonView::Object(
            seq![
                ("mode_name"@, JsonView::Str(self.name@)),
                ("start_time"@, JsonView::Str(self.start_time.rfc3339_spec())),
                ("duration_seconds"@, JsonView::integer(self.start_time.seconds_until(now))),
                ("steps_completed"@, JsonView::integer(self.workflow_history@.len() as int)),
                ("available_tools"@, text_array(texts_view(self.available_tools@))),
                (
                    "workflow_steps"@,
                    JsonView::Array(
                        Seq::new(
                            self.workflow_history@.len(),
                            |i: int| step_entry(self.workflow_history@[i]),
                        ),
                    ),
                ),
            ],
        )
    }

    /// A mode that starts at `now` with an empty history.
    pub fn new(name: String, available_tools: Vec<String>, now: Timestamp) -> (mode: OperationMode)
        ensures
            mode.name == name,
            mode.start_time == now,
            mode.context@.len() == 0,
            mode.workflow_history@.len() == 0,
            mode.available_tools == available_tools,
    {
        OperationMode {
            name,
            start_time: now,
            context: JsonMap::new(),
            workflow_history: Vec::new(),
            available_tools,
        }
    }

    /// Appends one step, taken at `now`, to the history. Of the result the
    /// step keeps the first characters of its JSON text.
    pub fn add_workflow_step(
        &mut self,
        step_name: String,
        result: Json,
        metadata: Option<JsonMap>,
        now: Timestamp,
    )
        ensures
            final(self).name == old(self).name,
            final(self).start_time == old(self).start_time,
            final(self).context == old(self).context,
            final(self).available_tools == old(self).available_tools,
            final(self).workflow_history@.len() == old(self).workflow_history@.len() + 1,
            final(self).workflow_history@.drop_last() == old(self).workflow_history@,
            final(self).workflow_history@.last().step_name == step_name,
            final(self).workflow_history@.last().timestamp == now,
            final(self).workflow_history@.last().result_summary@ == summary_of(result@),
            match metadata {
                Some(given) => final(self).workflow_history@.last().metadata == given,
                None => final(self).workflow_history@.last().metadata@.len() == 0,
            },
    {
        let text = result.to_text();
        let step = WorkflowStep {
            step_name,
            timestamp: now,
            result_summary: first_chars(text.as_str(), SUMMARY_LIMIT),
            metadata: match metadata {
                Some(given) => given,
                None => JsonMap::new(),
            },
        };
        self.workflow_history.push(step);
        assert(self.workflow_history@.drop_last() =~= old(self).workflow_history@);
    }

    /// The name, start, duration so far, enabled operations and steps of this
    /// mode.
    pub fn get_workflow_summary(&self, now: Timestamp) -> (summary: Json)
        ensures
            summary@ == self.summary_spec(now),
    {
        let mut steps: Vec<Json> = Vec::new();
        let mut i: usize = 0;
        while i < self.workflow_history.len()
            invariant
                i <= self.workflow_history.len(),
                steps@.len() == i,
                forall|k: int|
                    0 <= k < i ==> (#[trigger] steps@[k])@ == step_entry(self.workflow_history@[k]),
            decreases self.workflow_history.len() - i,
        {
            let step = &self.workflow_history[i];
            let stamp = step.timestamp.to_rfc3339();
            let members = vec![
                (String::from_str("step"), Json::text(step.step_name.as_str())),
                (String::from_str("timestamp"), Json::text(stamp.as_str())),
                (String::from_str("summary"), Json::text(step.result_summary.as_str())),
            ];
            proof {
                lemma_object_view(members);
                assert(members_view(members@) =~= step_entry(*step)->Object_0);
            }
            steps.push(Json::Object(members));
            i = i + 1;
        }
        let start = self.start_time.to_rfc3339();
        let ghost step_views = Seq::new(
            self.workflow_history@.len(),
            |i: int| step_entry(self.workflow_history@[i]),
        );
        proof {
            lemma_array_view(steps);
            assert(items_view(steps@) =~= step_views);
        }
        let members = vec![
            (String::from_str("mode_name"), Json::text(self.name.as_str())),
            (String::from_str("start_time"), Json::text(start.as_str())),
            (
                String::from_str("duration_seconds"),
                Json::integer(self.start_time.elapsed_seconds(now)),
            ),
            (
                String::from_str("steps_completed"),
                Json::unsigned(self.workflow_history.len() as u64),
            ),
            (String::from_str("available_tools"), Json::texts(&self.available_tools)),
            (String::from_str("workflow_steps"), Json::Array(steps)),
        ];
        proof {
            lemma_object_view(members);
            assert(members_view(members@) =~= self.summary_spec(now)->Object_0);
        }
        Json::Object(members)
    }
}

impl ModeGate {
    /// Whether a mode is active that enables the operation `name`.
    pub open spec fn enables(&self, name: Seq<char>) -> bool {
        match self.current {
            Some(mode) => lists(mode.available_tools@, name),
            None => false,
        }
    }

    /// A gate with no active mode.
    pub fn new() -> (gate: ModeGate)
        ensures
            gate.current is None,
    {
        ModeGate { current: None }
    }

    /// Whether the operation `name` may be called now: a mode is active and
    /// enables it.
    pub fn is_operation_enabled(&self, name: &str) -> (enabled: bool)
        ensures
            enabled == self.enables(name@),
    {
        match &self.current {
            Some(mode) => {
                let mut i: usize = 0;
                while i < mode.available_tools.len()
                    invariant
                        i <= mode.available_tools.len(),
                        self.current == Some(*mode),
                        forall|k: int|
                            0 <= k < i ==> (#[trigger] mode.available_tools@[k])@ != name@,
                    decreases mode.available_tools.len() - i,
                {
                    if str_eq(mode.available_tools[i].as_str(), name) {
                        assert(mode.available_tools@[i as int]@ == name@);
                        return true;
                    }
                    i = i + 1;
                }
                false
            },
            None => false,
        }
    }
}

/// Makes the mode `name` the active one, starting at `now` with an empty
/// history. A mode that was active before is dropped with its history.
/// Returns a copy of the new mode.
pub fn start_operation_mode(
    gate: &mut ModeGate,
    name: String,
    available_tools: Vec<String>,
    now: Timestamp,
) -> (mode: OperationMode)
    ensures
        final(gate).current is Some,
        final(gate).current->Some_0.name == name,
        final(gate).current->Some_0.start_time == now,
        final(gate).current->Some_0.context@.len() == 0,
        final(gate).current->Some_0.workflow_history@.len() == 0,
        final(gate).current->Some_0.available_tools == available_tools,
        mode.name@ == name@,
        mode.start_time == now,
        mode.context@.len() == 0,
        mode.workflow_history@.len() == 0,
        texts_view(mode.available_tools@) == texts_view(available_tools@),
{
    let mut tools: Vec<String> = Vec::new();
    let mut i: usize = 0;
    while i < available_tools.len()
        invariant
            i <= available_tools.len(),
            tools@.len() == i,
            forall|k: int| 0 <= k < i ==> (#[trigger] tools@[k])@ == available_tools@[k]@,
        decreases available_tools.len() - i,
    {
        tools.push(available_tools[i].clone());
        i = i + 1;
    }
    assert(texts_view(tools@) =~= texts_view(available_tools@));
    let copy = OperationMode::new(name.clone(), tools, now);
    gate.current = Some(OperationMode::new(name, available_tools, now));
    copy
}

/// The active mode, if there is one.
pub fn get_current_mode(gate: &ModeGate) -> (mode: Option<&OperationMode>)
    ensures
        match mode {
            Some(active) => gate.current == Some(*active),
            None => gate.current is None,
        },
{
    gate.current.as_ref()
}

/// Ends the active mode and hands it out with its full history. Afterwards
/// no mode is active.
pub fn complete_current_mode(gate: &mut ModeGate) -> (mode: Option<OperationMode>)
    ensures
        mode == old(gate).current,
        final(gate).current is None,
{
    gate.current.take()
}

/// Whether `after` is `before` with one step more, named `step_name`, taken
/// at `now` and without metadata, or both are idle.
pub open spec fn records(
    before: ModeGate,
    after: ModeGate,
    step_name: Seq<char>,
    result: JsonView,
    now: Timestamp,
) -> bool {
    match before.current {
        None => after.current is None,
        Some(earlier) => {
            let later = after.current->Some_0;
            &&& after.current is Some
            &&& later.name == earlier.name
            &&& later.start_time == earlier.start_time
            &&& later.context == earlier.context
            &&& later.available_tools == earlier.available_tools
            &&& later.workflow_history@.len() == earlier.workflow_history@.len() + 1
            &&& later.workflow_history@.drop_last() == earlier.workflow_history@
            &&& later.workflow_history@.last().step_name@ == step_name
            &&& later.workflow_history@.last().timestamp == now
            &&& later.workflow_history@.last().result_summary@ == summary_of(result)
            &&& later.workflow_history@.last().metadata@.len() == 0
        },
    }
}

/// Records one step in the active mode. Without an active mode the step is
/// dropped.
pub fn add_workflow_step(
    gate: &mut ModeGate,
    step_name: String,
    result: Json,
    metadata: Option<JsonMap>,
    now: Timestamp,
)
    ensures
        old(gate).current is None ==> final(gate).current is None,
        old(gate).current is Some ==> {
            let before = old(gate).current->Some_0;
            let after = final(gate).current->Some_0;
            &&& final(gate).current is Some
            &&& after.name == before.name
            &&& after.start_time == before.start_time
            &&& after.context == before.context
            &&& after.available_tools == before.available_tools
            &&& after.workflow_history@.len() == before.workflow_history@.len() + 1
            &&& after.workflow_history@.drop_last() == before.workflow_history@
            &&& after.workflow_history@.last().step_name == step_name
            &&& after.workflow_history@.last().timestamp == now
            &&& after.workflow_history@.last().result_summary@ == summary_of(result@)
            &&& match metadata {
                Some(given) => after.workflow_history@.last().metadata == given,
                None => after.workflow_history@.last().metadata@.len() == 0,
            }
        },
        metadata is None ==> records(*old(gate), *final(gate), step_name@, result@, now),
{
    match gate.current.take() {
        Some(mode) => {
            let mut mode = mode;
            mode.add_workflow_step(step_name, result, metadata, now);
            gate.current = Some(mode);
        },
        None => {},
    }
}

/// The operations that the mode named `mode_name` enables; none for a name
/// that is not a mode.
pub fn get_operation_mode_tools(mode_name: &str) -> (tools: Vec<String>)
    ensures
        texts_view(tools@) == mode_tools(mode_name@),
{
    let tools = if str_eq(mode_name, "single_file_operations") {
        vec![
            String::from_str("read_file"),
            String::from_str("write_file"),
            String::from_str("edit_file"),
            String::from_str("get_file_info"),
            String::from_str("head_file"),
            String::from_str("tail_file"),
            String::from_str("read_file_lines"),
            String::from_str("read_media_file"),
        ]
    } else if str_eq(mode_name, "multiple_file_operations") {
        vec![
            String::from_str("read_multiple_files"),
            String::from_str("read_multiple_media_files"),
            String::from_str("copy_file"),
            String::from_str("move_file"),
            String::from_str("zip_files"),
            String::from_str("unzip_file"),
            String::from_str("zip_directory"),
        ]
    } else if str_eq(mode_name, "directory_operations") {
        vec![
            String::from_str("create_directory"),
            String::from_str("list_directory"),
            String::from_str("directory_tree"),
            String::from_str("list_directory_with_sizes"),
            String::from_str("calculate_directory_size"),
            String::from_str("find_empty_directories"),
            String::from_str("delete_file"),
        ]
    } else if str_eq(mode_name, "search_and_analysis") {
        vec![
            String::from_str("search_files"),
            String::from_str("search_files_content"),
            String::from_str("find_duplicate_files"),
        ]
    } else if str_eq(mode_name, "file_management") {
        vec![String::from_str("list_allowed_directories"), String::from_str("delete_file")]
    } else {
        Vec::new()
    };
    assert(texts_view(tools@) =~= mode_tools(mode_name@));
    tools
}

/// The names of the operation modes.
pub fn get_available_operation_modes() -> (modes: Vec<String>)
    ensures
        texts_view(modes@) == mode_names(),
{
    let modes = vec![
        String::from_str("single_file_operations"),
        String::from_str("multiple_file_operations"),
        String::from_str("directory_operations"),
        String::from_str("search_and_analysis"),
        String::from_str("file_management"),
    ];
    assert(texts_view(modes@) =~= mode_names());
    modes
}

/// A mode that was started and then took as many steps as there are names
/// holds exactly these steps, in order: every recorded call adds one step
/// and leaves the others alone. So the mode that is handed out when it is
/// completed reports as many steps as calls were recorded.
pub proof fn lemma_steps_are_counted(
    gates: Seq<ModeGate>,
    names: Seq<Seq<char>>,
    results: Seq<JsonView>,
    times: Seq<Timestamp>,
)
    requires
        gates.len() == names.len() + 1,
        results.len() == names.len(),
        times.len() == names.len(),
        gates[0].current is Some,
        gates[0].current->Some_0.workflow_history@.len() == 0,
        forall|i: int|
            0 <= i < names.len() ==> records(
                #[trigger] gates[i],
                gates[i + 1],
                names[i],
                results[i],
                times[i],
            ),
    ensures
        gates.last().current is Some,
        gates.last().current->Some_0.name == gates[0].current->Some_0.name,
        gates.last().current->Some_0.available_tools == gates[0].current->Some_0.available_tools,
        gates.last().current->Some_0.workflow_history@.len() == names.len(),
        forall|i: int|
            0 <= i < names.len() ==> (
            #[trigger] gates.last().current->Some_0.workflow_history@[i]).step_name@ == names[i],
    decreases names.len(),
{
    if names.len() > 0 {
        let count = names.len() as int;
        lemma_steps_are_counted(
            gates.drop_last(),
            names.drop_last(),
            results.drop_last(),
            times.drop_last(),
        );
        let before = gates[count - 1];
        let after = gates[count];
        assert(gates.drop_last().last() == before);
        assert(records(before, after, names[count - 1], results[count - 1], times[count - 1]));
        let earlier = before.current->Some_0.workflow_history@;
        let later = after.current->Some_0.workflow_history@;
        assert(later.drop_last() == earlier);
        assert forall|i: int| 0 <= i < names.len() implies (#[trigger] later[i]).step_name@
            == names[i] by {
            if i < count - 1 {
                assert(later[i] == later.drop_last()[i]);
                assert(names.drop_last()[i] == names[i]);
            }
        }
    }
}

} // verus!
