use vstd::prelude::*;
use crate::completion::{
    capped, complete_paths, complete_symbols, completion_result, completion_view, found_names,
    matching, paths,
};
use crate::engine::{
    CallView, EngineCall, EngineReply, FileDetails, FileEntry, SymbolEntry, UsageDetails,
};
use crate::json::{Json, JsonView, object1, object2};
use crate::prompts::{
    DependencyInfo, code_review_prompt, code_review_text, dependencies_prompt, dependencies_text,
    explain_prompt, explain_text, opt_text, overview_prompt, overview_text, prompt_result,
    prompt_view, refactor_prompt, refactor_text, summarize_prompt, summarize_text,
};
use crate::resources::{
    content_of, file_read, file_read_outcome, list_resources, resource_listing, virtual_read,
    virtual_read_outcome,
};
use crate::server::{McpServer, ask, respond};
use crate::step::{Decision, PendingRequest, Step, Task, TaskView, settled, step_id, step_matches};
use crate::text::{owned, same_text};
use crate::tools::{tool_outcome, tool_output};

verus! {

/// The protocol revision that the server speaks.
pub const PROTOCOL_VERSION: &'static str = "2024-11-05";

/// The server's name.
pub const SERVER_NAME: &'static str = "adi-mcp";

/// The server's version.
pub const SERVER_VERSION: &'static str = "0.1.0";

/// The answer to `initialize`: the protocol version, the capability flags and the
/// server's name and version.
pub open spec fn capabilities_view() -> JsonView {
    JsonView::Object(
        seq![
            ("protocolVersion"@, JsonView::Str(PROTOCOL_VERSION@)),
            (
                "capabilities"@,
                JsonView::Object(
                    seq![
                        ("tools"@, JsonView::Object(seq![("listChanged"@, JsonView::Bool(false))])),
                        (
                            "resources"@,
                            JsonView::Object(
                                seq![
                                    ("subscribe"@, JsonView::Bool(true)),
                                    ("listChanged"@, JsonView::Bool(true)),
                                ],
                            ),
                        ),
                        ("prompts"@, JsonView::Object(seq![("listChanged"@, JsonView::Bool(false))])),
                    ],
                ),
            ),
            (
                "serverInfo"@,
                JsonView::Object(
                    seq![
                        ("name"@, JsonView::Str(SERVER_NAME@)),
                        ("version"@, JsonView::Str(SERVER_VERSION@)),
                    ],
                ),
            ),
        ],
    )
}

/// The answer to `initialize`.
pub fn capabilities() -> (r: Json)
    ensures
        r@ == capabilities_view(),
{
    let mut entries: Vec<(String, Json)> = Vec::new();
    entries.push((owned("protocolVersion"), Json::text(PROTOCOL_VERSION)));
    let flags = object2(
        "subscribe",
        Json::Bool(true),
        "listChanged",
        Json::Bool(true),
    );
    let caps = crate::json::object3(
        "tools",
        object1("listChanged", Json::Bool(false)),
        "resources",
        flags,
        "prompts",
        object1("listChanged", Json::Bool(false)),
    );
    entries.push((owned("capabilities"), caps));
    entries.push(
        (owned("serverInfo"), object2("name", Json::text(SERVER_NAME), "version", Json::text(SERVER_VERSION))),
    );
    let r = Json::object(entries);
    assert(crate::json::entry_views(entries@) =~= capabilities_view()->Object_0);
    r
}

/// The symbols that a symbol query found; none where it failed.
pub open spec fn found_symbols(reply: EngineReply) -> Seq<SymbolEntry> {
    match reply {
        EngineReply::Symbols { entries, .. } => entries@,
        _ => Seq::empty(),
    }
}

/// The symbols that a symbol query found, where it did not fail.
pub open spec fn symbols_of(reply: EngineReply) -> Option<Vec<SymbolEntry>> {
    match reply {
        EngineReply::Symbols { entries, .. } => Some(entries),
        _ => None,
    }
}

/// The file report that a reply carries.
pub open spec fn details_of(reply: EngineReply) -> Option<FileDetails> {
    match reply {
        EngineReply::File(d) => Some(d),
        _ => None,
    }
}

/// The usage report that a reply carries.
pub open spec fn usage_details(reply: EngineReply) -> Option<UsageDetails> {
    match reply {
        EngineReply::Usage(u) => Some(u),
        _ => None,
    }
}

/// The live file content that a reply carries, as an owned string.
pub open spec fn content_string(reply: EngineReply) -> Option<String> {
    match reply {
        EngineReply::FileText(c) => c,
        _ => None,
    }
}

/// The indexed file and symbol counts that a status reply carries.
pub open spec fn status_counts(reply: EngineReply) -> Option<(u64, u64)> {
    match reply {
        EngineReply::Status { indexed_files, indexed_symbols, .. } => Some(
            (indexed_files, indexed_symbols),
        ),
        _ => None,
    }
}

/// The files that a tree reply carries.
pub open spec fn tree_files(reply: EngineReply) -> Option<Vec<FileEntry>> {
    match reply {
        EngineReply::Tree { files, .. } => Some(files),
        _ => None,
    }
}

/// At most the first three of the matched symbols: those whose usage `explain_symbol`
/// asks for.
pub open spec fn first_three(s: Seq<SymbolEntry>) -> Seq<SymbolEntry> {
    if s.len() <= 3 {
        s
    } else {
        s.take(3)
    }
}

/// The step of `explain_symbol` with `waiting` symbols still to ask about.
pub open spec fn explain_next(
    name: Seq<char>,
    waiting: Seq<SymbolEntry>,
    found: Seq<(SymbolEntry, UsageDetails)>,
) -> Decision {
    if waiting.len() == 0 {
        Decision::Answer(prompt_view("explain_symbol"@, explain_prompt(name, found)))
    } else {
        Decision::Ask(
            CallView::GetSymbolUsage { id: waiting[0].id },
            TaskView::ExplainUsage { name, waiting, found },
        )
    }
}

/// The step of `analyze_dependencies` once the callers are settled.
pub open spec fn after_callers(
    target: Seq<char>,
    direction: Seq<char>,
    symbol: SymbolEntry,
    callers: Option<Vec<SymbolEntry>>,
) -> Decision {
    if direction != "callers"@ {
        Decision::Ask(
            CallView::GetCallees { id: symbol.id },
            TaskView::DependenciesCallees { target, direction, symbol, callers },
        )
    } else {
        Decision::Answer(
            prompt_view(
                "analyze_dependencies"@,
                dependencies_prompt(
                    target,
                    direction,
                    Some(DependencyInfo { symbol, callers, callees: None }),
                ),
            ),
        )
    }
}

/// What the engine's answer to a pending call comes to, given what remained to do.
pub open spec fn resume_decision(task: Task, reply: EngineReply) -> Decision {
    match task {
        Task::Initialize => Decision::Answer(capabilities_view()),
        Task::Tool { summary } => settled(tool_outcome(summary, reply)),
        Task::ListResources => Decision::Answer(resource_listing(reply)),
        Task::ReadVirtual { uri } => settled(virtual_read_outcome(uri@, reply)),
        Task::ReadFile { uri } => settled(file_read_outcome(uri@, reply)),
        Task::ReviewFile { file_path, focus } => Decision::Ask(
            CallView::ReadFile { path: file_path@ },
            TaskView::ReviewContent {
                file_path: file_path@,
                focus: focus@,
                info: details_of(reply),
            },
        ),
        Task::ReviewContent { file_path, focus, info } => Decision::Answer(
            prompt_view(
                "code_review"@,
                code_review_prompt(file_path@, focus@, info, content_of(reply)),
            ),
        ),
        Task::ExplainFind { name } => explain_next(
            name@,
            first_three(found_symbols(reply)),
            Seq::empty(),
        ),
        Task::ExplainUsage { name, waiting, found } => if waiting@.len() == 0 {
            explain_next(name@, waiting@, found@)
        } else {
            explain_next(
                name@,
                waiting@.drop_first(),
                match usage_details(reply) {
                    Some(u) => found@.push((waiting@[0], u)),
                    None => found@,
                },
            )
        },
        Task::DependenciesFind { target, direction } => if found_symbols(reply).len() == 0 {
            Decision::Answer(
                prompt_view(
                    "analyze_dependencies"@,
                    dependencies_prompt(target@, direction@, None),
                ),
            )
        } else if direction@ != "callees"@ {
            Decision::Ask(
                CallView::GetCallers { id: found_symbols(reply)[0].id },
                TaskView::DependenciesCallers {
                    target: target@,
                    direction: direction@,
                    symbol: found_symbols(reply)[0],
                },
            )
        } else {
            after_callers(target@, direction@, found_symbols(reply)[0], None)
        },
        Task::DependenciesCallers { target, direction, symbol } => after_callers(
            target@,
            direction@,
            symbol,
            symbols_of(reply),
        ),
        Task::DependenciesCallees { target, direction, symbol, callers } => Decision::Answer(
            prompt_view(
                "analyze_dependencies"@,
                dependencies_prompt(
                    target@,
                    direction@,
                    Some(DependencyInfo { symbol, callers, callees: symbols_of(reply) }),
                ),
            ),
        ),
        Task::SummarizeFile { file_path } => Decision::Ask(
            CallView::ReadFile { path: file_path@ },
            TaskView::SummarizeContent { file_path: file_path@, info: details_of(reply) },
        ),
        Task::SummarizeContent { file_path, info } => Decision::Answer(
            prompt_view("summarize_file"@, summarize_prompt(file_path@, info, content_of(reply))),
        ),
        Task::RefactorFind { target } => if found_symbols(reply).len() == 0 {
            Decision::Answer(prompt_view("refactor_suggestions"@, refactor_prompt(target@, None)))
        } else {
            Decision::Ask(
                CallView::GetSymbolUsage { id: found_symbols(reply)[0].id },
                TaskView::RefactorUsage { target: target@, symbol: found_symbols(reply)[0] },
            )
        },
        Task::RefactorUsage { target, symbol } => Decision::Answer(
            prompt_view(
                "refactor_suggestions"@,
                refactor_prompt(
                    target@,
                    match usage_details(reply) {
                        Some(u) => Some((symbol, u)),
                        None => None,
                    },
                ),
            ),
        ),
        Task::OverviewTree => Decision::Ask(
            CallView::Status,
            TaskView::OverviewStatus {
                files: match tree_files(reply) {
                    Some(f) => Some(f@),
                    None => None,
                },
            },
        ),
        Task::OverviewStatus { files } => Decision::Answer(
            prompt_view(
                "architecture_overview"@,
                overview_prompt(
                    match files {
                        Some(f) => Some(f@),
                        None => None,
                    },
                    status_counts(reply),
                ),
            ),
        ),
        Task::CompletePaths { value } => Decision::Answer(
            completion_view(
                match tree_files(reply) {
                    Some(f) => capped(matching(paths(f@), value@)),
                    None => Seq::empty(),
                },
            ),
        ),
        Task::CompleteSymbols => Decision::Answer(completion_view(capped(found_names(reply)))),
    }
}

fn take_symbols(reply: EngineReply) -> (r: Option<Vec<SymbolEntry>>)
    ensures
        r == symbols_of(reply),
{
    match reply {
        EngineReply::Symbols { entries, .. } => Some(entries),
        _ => None,
    }
}

/// The matched symbols of a reply; none where the query failed.
fn matched_symbols(reply: EngineReply) -> (r: Vec<SymbolEntry>)
    ensures
        r@ == found_symbols(reply),
{
    match reply {
        EngineReply::Symbols { entries, .. } => entries,
        _ => Vec::new(),
    }
}

fn take_details(reply: EngineReply) -> (r: Option<FileDetails>)
    ensures
        r == details_of(reply),
{
    match reply {
        EngineReply::File(d) => Some(d),
        _ => None,
    }
}

fn take_usage(reply: EngineReply) -> (r: Option<UsageDetails>)
    ensures
        r == usage_details(reply),
{
    match reply {
        EngineReply::Usage(u) => Some(u),
        _ => None,
    }
}

fn take_content(reply: EngineReply) -> (r: Option<String>)
    ensures
        opt_text(r) == content_of(reply),
{
    match reply {
        EngineReply::FileText(c) => c,
        _ => None,
    }
}

fn take_tree(reply: EngineReply) -> (r: Option<Vec<FileEntry>>)
    ensures
        r == tree_files(reply),
{
    match reply {
        EngineReply::Tree { files, .. } => Some(files),
        _ => None,
    }
}

fn explain_step(
    id: Json,
    name: String,
    waiting: Vec<SymbolEntry>,
    found: Vec<(SymbolEntry, UsageDetails)>,
) -> (r: Step)
    ensures
        step_id(r) == id@,
        step_matches(r, explain_next(name@, waiting@, found@)),
{
    if waiting.len() == 0 {
        let text = explain_text(name.as_str(), &found);
        respond(id, Ok(prompt_result("explain_symbol", text.as_str())))
    } else {
        let symbol_id = waiting[0].id;
        ask(id, EngineCall::GetSymbolUsage { id: symbol_id }, Task::ExplainUsage { name, waiting, found })
    }
}

fn dependencies_step(
    id: Json,
    target: String,
    direction: String,
    symbol: SymbolEntry,
    callers: Option<Vec<SymbolEntry>>,
) -> (r: Step)
    ensures
        step_id(r) == id@,
        step_matches(r, after_callers(target@, direction@, symbol, callers)),
{
    if !same_text(direction.as_str(), "callers") {
        let symbol_id = symbol.id;
        ask(
            id,
            EngineCall::GetCallees { id: symbol_id },
            Task::DependenciesCallees { target, direction, symbol, callers },
        )
    } else {
        let info = Some(DependencyInfo { symbol, callers, callees: None });
        let text = dependencies_text(target.as_str(), direction.as_str(), &info);
        respond(id, Ok(prompt_result("analyze_dependencies", text.as_str())))
    }
}

impl McpServer {
    /// Goes on with a pending request, given the engine's answer to its call: answers it,
    /// or names the next engine call that it waits on.
    pub fn resume(&mut self, pending: PendingRequest, reply: EngineReply) -> (r: Step)
        ensures
            step_id(r) == pending.id@,
            r matches Step::Reply(resp) ==> resp.wf(),
            step_matches(r, resume_decision(pending.task, reply)),
            final(self).engine_ready() == (old(self).engine_ready() || (pending.task is Initialize
                && reply is Opened)),
            final(self).root() == old(self).root(),
            final(self).subscriptions() == old(self).subscriptions(),
            final(self).distinct_subscriptions() == old(self).distinct_subscriptions(),
    {
        let PendingRequest { id, call: _, task } = pending;
        match task {
            Task::Initialize => {
                match reply {
                    EngineReply::Opened => self.mark_ready(),
                    _ => {},
                }
                respond(id, Ok(capabilities()))
            },
            Task::Tool { summary } => respond(id, tool_output(summary, reply)),
            Task::ListResources => respond(id, Ok(list_resources(&reply))),
            Task::ReadVirtual { uri } => respond(id, virtual_read(uri.as_str(), reply)),
            Task::ReadFile { uri } => respond(id, file_read(uri.as_str(), reply)),
            Task::ReviewFile { file_path, focus } => {
                let info = take_details(reply);
                let path = file_path.clone();
                ask(id, EngineCall::ReadFile { path }, Task::ReviewContent { file_path, focus, info })
            },
            Task::ReviewContent { file_path, focus, info } => {
                let content = take_content(reply);
                let text = code_review_text(file_path.as_str(), focus.as_str(), &info, &content);
                respond(id, Ok(prompt_result("code_review", text.as_str())))
            },
            Task::ExplainFind { name } => {
                let mut symbols = matched_symbols(reply);
                symbols.truncate(3);
                assert(symbols@ =~= first_three(found_symbols(reply)));
                let found: Vec<(SymbolEntry, UsageDetails)> = Vec::new();
                assert(found@ =~= Seq::<(SymbolEntry, UsageDetails)>::empty());
                explain_step(id, name, symbols, found)
            },
            Task::ExplainUsage { name, waiting, found } => {
                if waiting.len() == 0 {
                    explain_step(id, name, waiting, found)
                } else {
                    let mut waiting = waiting;
                    let mut found = found;
                    let ghost before = waiting@;
                    let symbol = waiting.remove(0);
                    assert(waiting@ =~= before.drop_first());
                    match take_usage(reply) {
                        Some(u) => found.push((symbol, u)),
                        None => {},
                    }
                    explain_step(id, name, waiting, found)
                }
            },
            Task::DependenciesFind { target, direction } => {
                let mut symbols = matched_symbols(reply);
                if symbols.len() == 0 {
                    let text = dependencies_text(target.as_str(), direction.as_str(), &None);
                    respond(id, Ok(prompt_result("analyze_dependencies", text.as_str())))
                } else {
                    let symbol = symbols.remove(0);
                    if !same_text(direction.as_str(), "callees") {
                        let symbol_id = symbol.id;
                        ask(
                            id,
                            EngineCall::GetCallers { id: symbol_id },
                            Task::DependenciesCallers { target, direction, symbol },
                        )
                    } else {
                        dependencies_step(id, target, direction, symbol, None)
                    }
                }
            },
            Task::DependenciesCallers { target, direction, symbol } => {
                let callers = take_symbols(reply);
                dependencies_step(id, target, direction, symbol, callers)
            },
            Task::DependenciesCallees { target, direction, symbol, callers } => {
                let callees = take_symbols(reply);
                let info = Some(DependencyInfo { symbol, callers, callees });
                let text = dependencies_text(target.as_str(), direction.as_str(), &info);
                respond(id, Ok(prompt_result("analyze_dependencies", text.as_str())))
            },
            Task::SummarizeFile { file_path } => {
                let info = take_details(reply);
                let path = file_path.clone();
                ask(id, EngineCall::ReadFile { path }, Task::SummarizeContent { file_path, info })
            },
            Task::SummarizeContent { file_path, info } => {
                let content = take_content(reply);
                let text = summarize_text(file_path.as_str(), &info, &content);
                respond(id, Ok(prompt_result("summarize_file", text.as_str())))
            },
            Task::RefactorFind { target } => {
                let mut symbols = matched_symbols(reply);
                if symbols.len() == 0 {
                    let text = refactor_text(target.as_str(), &None);
                    respond(id, Ok(prompt_result("refactor_suggestions", text.as_str())))
                } else {
                    let symbol = symbols.remove(0);
                    let symbol_id = symbol.id;
                    ask(
                        id,
                        EngineCall::GetSymbolUsage { id: symbol_id },
                        Task::RefactorUsage { target, symbol },
                    )
                }
            },
            Task::RefactorUsage { target, symbol } => {
                let found = match take_usage(reply) {
                    Some(u) => Some((symbol, u)),
                    None => None,
                };
                let text = refactor_text(target.as_str(), &found);
                respond(id, Ok(prompt_result("refactor_suggestions", text.as_str())))
            },
            Task::OverviewTree => {
                let files = take_tree(reply);
                ask(id, EngineCall::Status, Task::OverviewStatus { files })
            },
            Task::OverviewStatus { files } => {
                let status = match reply {
                    EngineReply::Status { indexed_files, indexed_symbols, .. } => Some(
                        (indexed_files, indexed_symbols),
                    ),
                    _ => None,
                };
                let text = overview_text(&files, status);
                respond(id, Ok(prompt_result("architecture_overview", text.as_str())))
            },
            Task::CompletePaths { value } => {
                let values = match take_tree(reply) {
                    Some(files) => complete_paths(&files, value.as_str()),
                    None => Vec::new(),
                };
                proof {
                    if tree_files(reply) is None {
                        assert(crate::completion::texts(values@) =~= Seq::<Seq<char>>::empty());
                    }
                }
                respond(id, Ok(completion_result(&values)))
            },
            Task::CompleteSymbols => {
                let values = complete_symbols(&reply);
                respond(id, Ok(completion_result(&values)))
            },
        }
    }
}

} // verus!
