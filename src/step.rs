use vstd::prelude::*;
use crate::engine::{CallView, EngineCall, FileDetails, FileEntry, SymbolEntry, UsageDetails};
use crate::json::{Json, JsonView};
use crate::rpc::JsonRpcResponse;

verus! {

/// What a request still has to do once the engine answers the pending call.
#[derive(Clone, Debug, PartialEq)]
#[allow(inconsistent_fields)]
pub enum Task {
    /// Record whether the engine opened, then advertise the capabilities.
    Initialize,
    /// Wrap the reply as a tool result; `summary` for the indexing tool.
    Tool { summary: bool },
    /// List the resources from the tree.
    ListResources,
    /// Return the reply as the content of a virtual resource.
    ReadVirtual { uri: String },
    /// Return the file resource.
    ReadFile { uri: String },
    /// With the file's report, read its live content for a review.
    ReviewFile { file_path: String, focus: String },
    /// Compose the review prompt.
    ReviewContent { file_path: String, focus: String, info: Option<FileDetails> },
    /// With the matched symbols, ask for the usage of the first three.
    ExplainFind { name: String },
    /// Keep the usage of `waiting[0]` where it came, then go on with the rest.
    ExplainUsage {
        name: String,
        waiting: Vec<SymbolEntry>,
        found: Vec<(SymbolEntry, UsageDetails)>,
    },
    /// With the matched symbols, analyze the first one.
    DependenciesFind { target: String, direction: String },
    /// Keep the callers, then ask for the callees where the direction wants them.
    DependenciesCallers { target: String, direction: String, symbol: SymbolEntry },
    /// Keep the callees and compose the analysis.
    DependenciesCallees {
        target: String,
        direction: String,
        symbol: SymbolEntry,
        callers: Option<Vec<SymbolEntry>>,
    },
    /// With the file's report, read its live content for a summary.
    SummarizeFile { file_path: String },
    /// Compose the summary prompt.
    SummarizeContent { file_path: String, info: Option<FileDetails> },
    /// With the matched symbols, ask for the usage of the first one.
    RefactorFind { target: String },
    /// Compose the refactoring prompt.
    RefactorUsage { target: String, symbol: SymbolEntry },
    /// With the tree, ask for the status.
    OverviewTree,
    /// Compose the overview.
    OverviewStatus { files: Option<Vec<FileEntry>> },
    /// Offer the tree's paths that contain `value`.
    CompletePaths { value: String },
    /// Offer the names that the symbol search found.
    CompleteSymbols,
}

/// The mathematical model of a task.
#[allow(inconsistent_fields)]
pub enum TaskView {
    Initialize,
    Tool { summary: bool },
    ListResources,
    ReadVirtual { uri: Seq<char> },
    ReadFile { uri: Seq<char> },
    ReviewFile { file_path: Seq<char>, focus: Seq<char> },
    ReviewContent { file_path: Seq<char>, focus: Seq<char>, info: Option<FileDetails> },
    ExplainFind { name: Seq<char> },
    ExplainUsage {
        name: Seq<char>,
        waiting: Seq<SymbolEntry>,
        found: Seq<(SymbolEntry, UsageDetails)>,
    },
    DependenciesFind { target: Seq<char>, direction: Seq<char> },
    DependenciesCallers { target: Seq<char>, direction: Seq<char>, symbol: SymbolEntry },
    DependenciesCallees {
        target: Seq<char>,
        direction: Seq<char>,
        symbol: SymbolEntry,
        callers: Option<Vec<SymbolEntry>>,
    },
    SummarizeFile { file_path: Seq<char> },
    SummarizeContent { file_path: Seq<char>, info: Option<FileDetails> },
    RefactorFind { target: Seq<char> },
    RefactorUsage { target: Seq<char>, symbol: SymbolEntry },
    OverviewTree,
    OverviewStatus { files: Option<Seq<FileEntry>> },
    CompletePaths { value: Seq<char> },
    CompleteSymbols,
}

impl View for Task {
    type V = TaskView;

    open spec fn view(&self) -> TaskView {
        match self {
            Task::Initialize => TaskView::Initialize,
            Task::Tool { summary } => TaskView::Tool { summary: *summary },
            Task::ListResources => TaskView::ListResources,
            Task::ReadVirtual { uri } => TaskView::ReadVirtual { uri: uri@ },
            Task::ReadFile { uri } => TaskView::ReadFile { uri: uri@ },
            Task::ReviewFile { file_path, focus } => TaskView::ReviewFile {
                file_path: file_path@,
                focus: focus@,
            },
            Task::ReviewContent { file_path, focus, info } => TaskView::ReviewContent {
                file_path: file_path@,
                focus: focus@,
                info: *info,
            },
            Task::ExplainFind { name } => TaskView::ExplainFind { name: name@ },
            Task::ExplainUsage { name, waiting, found } => TaskView::ExplainUsage {
                name: name@,
                waiting: waiting@,
                found: found@,
            },
            Task::DependenciesFind { target, direction } => TaskView::DependenciesFind {
                target: target@,
                direction: direction@,
            },
            Task::DependenciesCallers { target, direction, symbol } =>
                TaskView::DependenciesCallers {
                target: target@,
                direction: direction@,
                symbol: *symbol,
            },
            Task::DependenciesCallees { target, direction, symbol, callers } =>
                TaskView::DependenciesCallees {
                target: target@,
                direction: direction@,
                symbol: *symbol,
                callers: *callers,
            },
            Task::SummarizeFile { file_path } => TaskView::SummarizeFile { file_path: file_path@ },
            Task::SummarizeContent { file_path, info } => TaskView::SummarizeContent {
                file_path: file_path@,
                info: *info,
            },
            Task::RefactorFind { target } => TaskView::RefactorFind { target: target@ },
            Task::RefactorUsage { target, symbol } => TaskView::RefactorUsage {
                target: target@,
                symbol: *symbol,
            },
            Task::OverviewTree => TaskView::OverviewTree,
            Task::OverviewStatus { files } => TaskView::OverviewStatus {
                files: match files {
                    Some(f) => Some(f@),
                    None => None,
                },
            },
            Task::CompletePaths { value } => TaskView::CompletePaths { value: value@ },
            Task::CompleteSymbols => TaskView::CompleteSymbols,
        }
    }
}

/// A request that waits on one engine call.
#[derive(Debug, PartialEq)]
pub struct PendingRequest {
    /// The id that the response will carry.
    pub id: Json,
    /// The engine call to perform.
    pub call: EngineCall,
    /// What remains once the engine answers.
    pub task: Task,
}

/// Where handling a request stands: answered, or waiting on the engine.
#[derive(Debug, PartialEq)]
pub enum Step {
    Reply(JsonRpcResponse),
    Call(PendingRequest),
}

/// What a step should come to: a successful result, an error with its code and message,
/// or an engine call with the task that follows it.
pub enum Decision {
    Answer(JsonView),
    Fail(i32, Seq<char>),
    Ask(CallView, TaskView),
}

/// The id that a step carries.
pub open spec fn step_id(s: Step) -> JsonView {
    match s {
        Step::Reply(r) => r.id@,
        Step::Call(p) => p.id@,
    }
}

/// The step is what `d` says.
pub open spec fn step_matches(s: Step, d: Decision) -> bool {
    match d {
        Decision::Answer(v) => s matches Step::Reply(r) && r.succeeded_with(v),
        Decision::Fail(code, message) => s matches Step::Reply(r) && (r.wf() && (r.error matches Some(
            e,
        ) && e.code == code && e.message@ == message && e.data is None)),
        Decision::Ask(c, t) => s matches Step::Call(p) && p.call@ == c && p.task@ == t,
    }
}

/// The decision that a handler's outcome comes to.
pub open spec fn settled(o: Result<JsonView, (i32, Seq<char>)>) -> Decision {
    match o {
        Ok(v) => Decision::Answer(v),
        Err(e) => Decision::Fail(e.0, e.1),
    }
}

} // verus!
