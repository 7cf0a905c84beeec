use vstd::prelude::*;
use crate::completion::{
    complete_direction, complete_focus, completion_result, completion_view, direction_options,
    focus_options, matching, texts,
};
use crate::engine::{CallView, EngineCall};
use crate::json::{Json, JsonView, empty_object};
use crate::prompts::{find_similar_prompt, find_similar_text, prompts_catalog_view, prompt_result, prompt_view, prompts_catalog};
use crate::resources::{
    ReadPlan, ReadTarget, empty_listing, first_read_call, templates_catalog_view, list_without_engine,
    read_plan, resolve_uri, templates_catalog,
};
use crate::rpc::{
    INTERNAL_ERROR, INVALID_PARAMS, JsonRpcError, JsonRpcRequest, JsonRpcResponse, METHOD_NOT_FOUND,
    PARSE_ERROR, bare, outcome, response_id,
};
use crate::step::{Decision, PendingRequest, Step, Task, TaskView, settled, step_id, step_matches};
use crate::text::{has_prefix, owned, same_text, strip_prefix};
use crate::tools::{ToolPlan, tools_catalog_view, plan_error, plan_tool_call, tool_plan, tools_catalog};

verus! {

/// The methods that the server knows.
#[derive(Clone, Debug, PartialEq)]
pub enum Method {
    Initialize,
    Initialized,
    Ping,
    ToolsList,
    ToolsCall,
    ResourcesList,
    ResourcesRead,
    ResourcesSubscribe,
    ResourcesUnsubscribe,
    ResourceTemplatesList,
    PromptsList,
    PromptsGet,
    Complete,
    Unknown,
}

/// The method that a method name selects.
pub open spec fn method_of(name: Seq<char>) -> Method {
    if name == "initialize"@ {
        Method::Initialize
    } else if name == "initialized"@ {
        Method::Initialized
    } else if name == "ping"@ {
        Method::Ping
    } else if name == "tools/list"@ {
        Method::ToolsList
    } else if name == "tools/call"@ {
        Method::ToolsCall
    } else if name == "resources/list"@ {
        Method::ResourcesList
    } else if name == "resources/read"@ {
        Method::ResourcesRead
    } else if name == "resources/subscribe"@ {
        Method::ResourcesSubscribe
    } else if name == "resources/unsubscribe"@ {
        Method::ResourcesUnsubscribe
    } else if name == "resources/templates/list"@ {
        Method::ResourceTemplatesList
    } else if name == "prompts/list"@ {
        Method::PromptsList
    } else if name == "prompts/get"@ {
        Method::PromptsGet
    } else if name == "completion/complete"@ {
        Method::Complete
    } else {
        Method::Unknown
    }
}

/// The method that a method name selects.
pub fn classify(name: &str) -> (r: Method)
    ensures
        r == method_of(name@),
{
    if same_text(name, "initialize") {
        Method::Initialize
    } else if same_text(name, "initialized") {
        Method::Initialized
    } else if same_text(name, "ping") {
        Method::Ping
    } else if same_text(name, "tools/list") {
        Method::ToolsList
    } else if same_text(name, "tools/call") {
        Method::ToolsCall
    } else if same_text(name, "resources/list") {
        Method::ResourcesList
    } else if same_text(name, "resources/read") {
        Method::ResourcesRead
    } else if same_text(name, "resources/subscribe") {
        Method::ResourcesSubscribe
    } else if same_text(name, "resources/unsubscribe") {
        Method::ResourcesUnsubscribe
    } else if same_text(name, "resources/templates/list") {
        Method::ResourceTemplatesList
    } else if same_text(name, "prompts/list") {
        Method::PromptsList
    } else if same_text(name, "prompts/get") {
        Method::PromptsGet
    } else if same_text(name, "completion/complete") {
        Method::Complete
    } else {
        Method::Unknown
    }
}

/// The model of a request's parameters.
pub open spec fn params_of(request: JsonRpcRequest) -> Option<JsonView> {
    match request.params {
        Some(p) => Some(p@),
        None => None,
    }
}

/// The model of optional parameters.
pub open spec fn opt_view(p: Option<Json>) -> Option<JsonView> {
    match p {
        Some(v) => Some(v@),
        None => None,
    }
}

/// The `arguments` member of the parameters; an empty object where it is absent.
pub open spec fn arguments_of(p: JsonView) -> JsonView {
    match p.get("arguments"@) {
        Some(a) => a,
        None => empty_object(),
    }
}

/// The project root after an `initialize` with `params`: the `rootUri` with its
/// `file://` scheme taken off, or the current directory where there is no `rootUri`.
pub open spec fn new_root(params: Option<JsonView>) -> Seq<char> {
    match params {
        Some(p) => match p.text_at("rootUri"@) {
            Some(u) => if has_prefix(u, "file://"@) {
                u.subrange("file://"@.len() as int, u.len() as int)
            } else {
                u
            },
            None => "."@,
        },
        None => "."@,
    }
}

/// The `uri` parameter, or the message of the error that its absence comes to.
pub open spec fn uri_param(params: Option<JsonView>) -> Result<Seq<char>, Seq<char>> {
    match params {
        Some(p) => match p.text_at("uri"@) {
            Some(u) => Ok(u),
            None => Err("Missing uri parameter"@),
        },
        None => Err("Missing params"@),
    }
}

/// What `tools/call` comes to.
pub open spec fn tools_call_decision(ready: bool, params: Option<JsonView>) -> Decision {
    match params {
        None => Decision::Fail(INVALID_PARAMS, "Missing params"@),
        Some(p) => match p.text_at("name"@) {
            None => Decision::Fail(INVALID_PARAMS, "Missing tool name"@),
            Some(name) => if !ready {
                Decision::Fail(INTERNAL_ERROR, "ADI not initialized. Call initialize first."@)
            } else {
                match tool_plan(name, arguments_of(p)) {
                    ToolPlan::Call(c) => Decision::Ask(
                        c,
                        TaskView::Tool { summary: c is Index },
                    ),
                    plan => Decision::Fail(plan_error(name, plan).0, plan_error(name, plan).1),
                }
            },
        },
    }
}

/// What `resources/read` comes to.
pub open spec fn read_decision(ready: bool, params: Option<JsonView>) -> Decision {
    match uri_param(params) {
        Err(m) => Decision::Fail(INVALID_PARAMS, m),
        Ok(uri) => if !ready {
            Decision::Fail(INTERNAL_ERROR, "ADI not initialized"@)
        } else {
            match read_plan(uri) {
                ReadPlan::Status => Decision::Ask(CallView::Status, TaskView::ReadVirtual { uri }),
                ReadPlan::Tree => Decision::Ask(CallView::GetTree, TaskView::ReadVirtual { uri }),
                ReadPlan::Config => Decision::Ask(CallView::Config, TaskView::ReadVirtual { uri }),
                ReadPlan::File(path) => Decision::Ask(
                    CallView::GetFileResource { path },
                    TaskView::ReadFile { uri },
                ),
                ReadPlan::Symbol(id) => Decision::Ask(
                    CallView::GetSymbolResource { id },
                    TaskView::ReadVirtual { uri },
                ),
                ReadPlan::InvalidId => Decision::Fail(INVALID_PARAMS, "Invalid symbol ID"@),
                ReadPlan::Unknown => Decision::Fail(INVALID_PARAMS, "Unknown resource URI: "@ + uri),
            }
        },
    }
}

/// What `prompts/get` of the template `name` with `args` comes to on a ready session.
pub open spec fn prompt_plan(name: Seq<char>, args: JsonView) -> Decision {
    let file_path = args.text_or("file_path"@, ""@);
    let target = args.text_or("target"@, ""@);
    if name == "code_review"@ {
        Decision::Ask(
            CallView::GetFile { path: file_path },
            TaskView::ReviewFile { file_path, focus: args.text_or("focus"@, "general"@) },
        )
    } else if name == "explain_symbol"@ {
        let symbol_name = args.text_or("symbol_name"@, ""@);
        Decision::Ask(
            CallView::FindSymbolsByName { name: symbol_name },
            TaskView::ExplainFind { name: symbol_name },
        )
    } else if name == "find_similar"@ {
        Decision::Answer(prompt_view(name, find_similar_prompt(args.text_or("description"@, ""@))))
    } else if name == "analyze_dependencies"@ {
        Decision::Ask(
            CallView::FindSymbolsByName { name: target },
            TaskView::DependenciesFind { target, direction: args.text_or("direction"@, "both"@) },
        )
    } else if name == "summarize_file"@ {
        Decision::Ask(CallView::GetFile { path: file_path }, TaskView::SummarizeFile { file_path })
    } else if name == "refactor_suggestions"@ {
        Decision::Ask(CallView::FindSymbolsByName { name: target }, TaskView::RefactorFind { target })
    } else if name == "architecture_overview"@ {
        Decision::Ask(CallView::GetTree, TaskView::OverviewTree)
    } else {
        Decision::Fail(INVALID_PARAMS, "Unknown prompt: "@ + name)
    }
}

/// What `prompts/get` comes to.
pub open spec fn prompt_decision(ready: bool, params: Option<JsonView>) -> Decision {
    match params {
        None => Decision::Fail(INVALID_PARAMS, "Missing params"@),
        Some(p) => match p.text_at("name"@) {
            None => Decision::Fail(INVALID_PARAMS, "Missing prompt name"@),
            Some(name) => if !ready {
                Decision::Fail(INTERNAL_ERROR, "ADI not initialized"@)
            } else {
                prompt_plan(name, arguments_of(p))
            },
        },
    }
}

/// What a completion of the argument `arg_name` with the partial `value`, for a
/// reference of type `ref_type`, comes to on a ready session.
pub open spec fn completion_plan(ref_type: Seq<char>, arg_name: Seq<char>, value: Seq<char>) -> Decision {
    if (ref_type == "ref/prompt"@ && arg_name == "file_path"@) || ref_type == "ref/resource"@ {
        Decision::Ask(CallView::GetTree, TaskView::CompletePaths { value })
    } else if ref_type == "ref/prompt"@ && (arg_name == "symbol_name"@ || arg_name == "target"@) {
        if value.len() == 0 {
            Decision::Answer(completion_view(Seq::empty()))
        } else {
            Decision::Ask(CallView::SearchSymbols { query: value, limit: 20 }, TaskView::CompleteSymbols)
        }
    } else if ref_type == "ref/prompt"@ && arg_name == "focus"@ {
        Decision::Answer(completion_view(matching(focus_options(), value)))
    } else if ref_type == "ref/prompt"@ && arg_name == "direction"@ {
        Decision::Answer(completion_view(matching(direction_options(), value)))
    } else {
        Decision::Answer(completion_view(Seq::empty()))
    }
}

/// The `argument` member of the parameters; null where it is absent.
pub open spec fn argument_of(p: JsonView) -> JsonView {
    match p.get("argument"@) {
        Some(a) => a,
        None => JsonView::Null,
    }
}

/// What `completion/complete` comes to.
pub open spec fn completion_decision(ready: bool, params: Option<JsonView>) -> Decision {
    match params {
        None => Decision::Fail(INVALID_PARAMS, "Missing params"@),
        Some(p) => match p.get("ref"@) {
            None => Decision::Fail(INVALID_PARAMS, "Missing ref parameter"@),
            Some(r) => if !ready {
                Decision::Answer(completion_view(Seq::empty()))
            } else {
                completion_plan(
                    r.text_or("type"@, ""@),
                    argument_of(p).text_or("name"@, ""@),
                    argument_of(p).text_or("value"@, ""@),
                )
            },
        },
    }
}

/// What a request comes to, for every method but the three static catalogs.
pub open spec fn request_decision(ready: bool, method: Seq<char>, params: Option<JsonView>) -> Option<
    Decision,
> {
    match method_of(method) {
        Method::Initialize => Some(
            Decision::Ask(CallView::Open { root: new_root(params) }, TaskView::Initialize),
        ),
        Method::Initialized => Some(Decision::Answer(empty_object())),
        Method::Ping => Some(Decision::Answer(empty_object())),
        Method::ToolsCall => Some(tools_call_decision(ready, params)),
        Method::ResourcesList => Some(
            if ready {
                Decision::Ask(CallView::GetTree, TaskView::ListResources)
            } else {
                Decision::Answer(empty_listing())
            },
        ),
        Method::ResourcesRead => Some(read_decision(ready, params)),
        Method::ResourcesSubscribe => Some(
            match uri_param(params) {
                Ok(_) => Decision::Answer(empty_object()),
                Err(m) => Decision::Fail(INVALID_PARAMS, m),
            },
        ),
        Method::ResourcesUnsubscribe => Some(
            match uri_param(params) {
                Ok(_) => Decision::Answer(empty_object()),
                Err(m) => Decision::Fail(INVALID_PARAMS, m),
            },
        ),
        Method::PromptsGet => Some(prompt_decision(ready, params)),
        Method::Complete => Some(completion_decision(ready, params)),
        Method::Unknown => Some(Decision::Fail(METHOD_NOT_FOUND, "Method not found: "@ + method)),
        _ => None,
    }
}

/// The static catalog that a method returns, where it returns one.
pub open spec fn catalog_of(method: Method, v: JsonView) -> bool {
    match method {
        Method::ToolsList => v == tools_catalog_view(),
        Method::PromptsList => v == prompts_catalog_view(),
        Method::ResourceTemplatesList => v == templates_catalog_view(),
        _ => false,
    }
}

/// The subscribed URIs after a request.
pub open spec fn subscriptions_after(
    subs: Set<Seq<char>>,
    method: Seq<char>,
    params: Option<JsonView>,
) -> Set<Seq<char>> {
    match (method_of(method), uri_param(params)) {
        (Method::ResourcesSubscribe, Ok(u)) => subs.insert(u),
        (Method::ResourcesUnsubscribe, Ok(u)) => subs.remove(u),
        _ => subs,
    }
}

/// What handling `request` in the session `before` does: the step `r` carries the
/// request's id; a response has exactly one of result and error; the step is what the
/// dispatch table decides, or the static catalog; the session `after` keeps its engine
/// state, takes the new root on `initialize`, and records (un)subscriptions.
pub open spec fn handles(before: McpServer, after: McpServer, request: JsonRpcRequest, r: Step) -> bool {
    &&& step_id(r) == response_id(request)
    &&& (r matches Step::Reply(resp) ==> resp.wf())
    &&& match request_decision(before.engine_ready(), request.method@, params_of(request)) {
        Some(d) => step_matches(r, d),
        None => r matches Step::Reply(resp) && (resp.wf() && (resp.result matches Some(v)
            && catalog_of(method_of(request.method@), v@))),
    }
    &&& after.engine_ready() == before.engine_ready()
    &&& after.root() == if method_of(request.method@) is Initialize {
        new_root(params_of(request))
    } else {
        before.root()
    }
    &&& after.subscriptions() == subscriptions_after(
        before.subscriptions(),
        request.method@,
        params_of(request),
    )
    &&& (before.distinct_subscriptions() ==> after.distinct_subscriptions())
}

/// Whether the session has an engine.
#[derive(Clone, Debug, PartialEq)]
pub enum EngineState {
    Absent,
    Ready,
}

/// A session: whether the engine is open, the project root, and the subscribed
/// resource URIs.
pub struct McpServer {
    engine: EngineState,
    project_path: String,
    subscribed_resources: Vec<String>,
}

/// The texts of a list of strings.
pub open spec fn uris(v: Seq<String>) -> Seq<Seq<char>> {
    v.map_values(|s: String| s@)
}

/// `s` without the occurrences of `u`.
pub open spec fn without(s: Seq<Seq<char>>, u: Seq<char>) -> Seq<Seq<char>> {
    s.filter(differs_from(u))
}

/// The test that a value is not `u`.
pub open spec fn differs_from(u: Seq<char>) -> spec_fn(Seq<char>) -> bool {
    |x: Seq<char>| x != u
}

/// The values of `s` without `u` are those of `s` but `u`.
proof fn lemma_without_contains(s: Seq<Seq<char>>, u: Seq<char>, x: Seq<char>)
    ensures
        without(s, u).contains(x) <==> (s.contains(x) && x != u),
{
    #[allow(deprecated)]
    s.filter_lemma(differs_from(u));
    if without(s, u).contains(x) {
        s.lemma_filter_contains_rev(differs_from(u), x);
        let k = choose|k: int| 0 <= k < without(s, u).len() && without(s, u)[k] == x;
        assert(x != u);
    }
    if s.contains(x) && x != u {
        let k = choose|k: int| 0 <= k < s.len() && s[k] == x;
        assert(without(s, u).contains(s[k]));
    }
}

/// Leaving out one value keeps a list without duplicates.
proof fn lemma_without_keeps_distinct(s: Seq<Seq<char>>, u: Seq<char>)
    requires
        s.no_duplicates(),
    ensures
        without(s, u).no_duplicates(),
    decreases s.len(),
{
    reveal(Seq::filter);
    if s.len() > 0 {
        let rest = s.drop_last();
        assert(rest.no_duplicates()) by {
            assert forall|i: int, j: int| 0 <= i < rest.len() && 0 <= j < rest.len() && i != j
                implies rest[i] != rest[j] by {
                assert(rest[i] == s[i] && rest[j] == s[j]);
            }
        }
        lemma_without_keeps_distinct(rest, u);
        let sub = without(rest, u);
        assert(without(s, u) == if s.last() != u {
            sub.push(s.last())
        } else {
            sub
        });
        if s.last() != u {
            assert(!sub.contains(s.last())) by {
                if sub.contains(s.last()) {
                    lemma_without_contains(rest, u, s.last());
                    let j = choose|j: int| 0 <= j < rest.len() && rest[j] == s.last();
                    assert(s[j] == s[s.len() - 1]);
                }
            }
            let pushed = sub.push(s.last());
            assert forall|i: int, j: int| 0 <= i < pushed.len() && 0 <= j < pushed.len() && i != j
                implies pushed[i] != pushed[j] by {
                if i == sub.len() {
                    assert(sub[j] != s.last());
                } else if j == sub.len() {
                    assert(sub[i] != s.last());
                } else {
                    assert(pushed[i] == sub[i] && pushed[j] == sub[j]);
                }
            }
        }
    }
}

/// A reply with the given outcome.
pub(crate) fn respond(id: Json, result: Result<Json, JsonRpcError>) -> (r: Step)
    requires
        bare(result),
    ensures
        step_id(r) == id@,
        step_matches(r, settled(outcome(result))),
        r matches Step::Reply(resp) && resp.wf(),
{
    match result {
        Ok(v) => Step::Reply(JsonRpcResponse::success(id, v)),
        Err(e) => Step::Reply(JsonRpcResponse::failure(id, e)),
    }
}

/// A step that waits on `call`.
pub(crate) fn ask(id: Json, call: EngineCall, task: Task) -> (r: Step)
    ensures
        step_id(r) == id@,
        step_matches(r, Decision::Ask(call@, task@)),
{
    Step::Call(PendingRequest { id, call, task })
}

/// An error step.
pub(crate) fn refuse(id: Json, code: i32, message: &str) -> (r: Step)
    ensures
        step_id(r) == id@,
        step_matches(r, Decision::Fail(code, message@)),
{
    Step::Reply(JsonRpcResponse::failure(id, JsonRpcError::new(code, owned(message))))
}

/// The string parameter `key`.
fn text_param<'a>(params: &'a Option<Json>, key: &str) -> (r: Option<&'a str>)
    ensures
        match r {
            Some(t) => opt_view(*params) matches Some(p) && p.text_at(key@) == Some(t@),
            None => opt_view(*params) matches Some(p) ==> p.text_at(key@) is None,
        },
{
    match params {
        Some(p) => p.text_at(key),
        None => None,
    }
}

impl McpServer {
    /// The engine is open.
    pub closed spec fn engine_ready(&self) -> bool {
        self.engine is Ready
    }

    /// The project root.
    pub closed spec fn root(&self) -> Seq<char> {
        self.project_path@
    }

    /// The subscribed resource URIs.
    pub closed spec fn subscriptions(&self) -> Set<Seq<char>> {
        uris(self.subscribed_resources@).to_set()
    }

    /// No URI is recorded twice.
    pub closed spec fn distinct_subscriptions(&self) -> bool {
        uris(self.subscribed_resources@).no_duplicates()
    }

    /// A session without an engine, rooted at the current directory, with no
    /// subscriptions.
    pub fn new() -> (r: Self)
        ensures
            !r.engine_ready(),
            r.root() == "."@,
            r.subscriptions() == Set::<Seq<char>>::empty(),
            r.distinct_subscriptions(),
    {
        let r = McpServer { engine: EngineState::Absent, project_path: owned("."), subscribed_resources: Vec::new() };
        assert(uris(r.subscribed_resources@) =~= Seq::<Seq<char>>::empty());
        assert(r.subscriptions() =~= Set::<Seq<char>>::empty());
        r
    }

    /// Whether the engine is open.
    pub fn is_ready(&self) -> (r: bool)
        ensures
            r == self.engine_ready(),
    {
        match self.engine {
            EngineState::Ready => true,
            EngineState::Absent => false,
        }
    }

    /// The project root.
    pub fn project_path(&self) -> (r: &str)
        ensures
            r@ == self.root(),
    {
        self.project_path.as_str()
    }

    /// Whether `uri` is subscribed.
    pub fn is_subscribed(&self, uri: &str) -> (r: bool)
        ensures
            r == self.subscriptions().contains(uri@),
    {
        let wanted = owned(uri);
        let mut i: usize = 0;
        while i < self.subscribed_resources.len()
            invariant
                0 <= i <= self.subscribed_resources@.len(),
                wanted@ == uri@,
                forall|k: int| 0 <= k < i ==> #[trigger] self.subscribed_resources@[k]@ != uri@,
            decreases self.subscribed_resources.len() - i,
        {
            if self.subscribed_resources[i] == wanted {
                assert(uris(self.subscribed_resources@)[i as int] == uri@);
                return true;
            }
            i = i + 1;
        }
        assert(!uris(self.subscribed_resources@).contains(uri@)) by {
            if uris(self.subscribed_resources@).contains(uri@) {
                let k = choose|k: int| 0 <= k < uris(self.subscribed_resources@).len() && uris(self.subscribed_resources@)[k] == uri@;
                assert(self.subscribed_resources@[k]@ == uri@);
            }
        }
        false
    }

    /// Records that the engine opened.
    pub(crate) fn mark_ready(&mut self)
        ensures
            final(self).engine_ready(),
            final(self).root() == old(self).root(),
            final(self).subscriptions() == old(self).subscriptions(),
            final(self).distinct_subscriptions() == old(self).distinct_subscriptions(),
    {
        self.engine = EngineState::Ready;
    }

    /// Adds `uri` to the subscriptions, where it is not there yet.
    fn subscribe(&mut self, uri: &str)
        ensures
            final(self).subscriptions() == old(self).subscriptions().insert(uri@),
            old(self).distinct_subscriptions() ==> final(self).distinct_subscriptions(),
            final(self).engine_ready() == old(self).engine_ready(),
            final(self).root() == old(self).root(),
    {
        if !self.is_subscribed(uri) {
            let ghost before = uris(self.subscribed_resources@);
            self.subscribed_resources.push(owned(uri));
            assert(uris(self.subscribed_resources@) =~= before.push(uri@));
            assert(uris(self.subscribed_resources@).to_set() =~= before.to_set().insert(uri@)) by {
                assert forall|x: Seq<char>| #[trigger] before.push(uri@).contains(x) <==> (before.contains(x) || x == uri@) by {
                    if before.contains(x) {
                        let k = choose|k: int| 0 <= k < before.len() && before[k] == x;
                        assert(before.push(uri@)[k] == x);
                    }
                    if x == uri@ {
                        assert(before.push(uri@)[before.len() as int] == x);
                    }
                }
            }
        } else {
            assert(old(self).subscriptions().insert(uri@) =~= old(self).subscriptions());
        }
    }

    /// Removes `uri` from the subscriptions.
    fn unsubscribe(&mut self, uri: &str)
        ensures
            final(self).subscriptions() == old(self).subscriptions().remove(uri@),
            old(self).distinct_subscriptions() ==> final(self).distinct_subscriptions(),
            final(self).engine_ready() == old(self).engine_ready(),
            final(self).root() == old(self).root(),
    {
        let ghost all = uris(self.subscribed_resources@);
        let wanted = owned(uri);
        let mut kept: Vec<String> = Vec::new();
        let mut i: usize = 0;
        while i < self.subscribed_resources.len()
            invariant
                0 <= i <= self.subscribed_resources@.len(),
                wanted@ == uri@,
                all == uris(self.subscribed_resources@),
                uris(kept@) == without(all.take(i as int), uri@),
            decreases self.subscribed_resources.len() - i,
        {
            proof {
                reveal(Seq::filter);
                assert(all.take(i + 1).drop_last() =~= all.take(i as int));
                assert(all.take(i + 1).last() == all[i as int]);
            }
            let ghost before = uris(kept@);
            if self.subscribed_resources[i] != wanted {
                kept.push(self.subscribed_resources[i].clone());
                assert(uris(kept@) =~= before.push(all[i as int]));
            }
            i = i + 1;
        }
        assert(all.take(all.len() as int) =~= all);
        proof {
            assert forall|x: Seq<char>| #[trigger] without(all, uri@).to_set().contains(x) <==> all.to_set().remove(uri@).contains(x) by {
                lemma_without_contains(all, uri@, x);
            }
            assert(without(all, uri@).to_set() =~= all.to_set().remove(uri@));
            if all.no_duplicates() {
                lemma_without_keeps_distinct(all, uri@);
            }
        }
        self.subscribed_resources = kept;
    }

    fn handle_initialize(&mut self, id: Json, params: &Option<Json>) -> (r: Step)
        ensures
            step_id(r) == id@,
            step_matches(
                r,
                Decision::Ask(
                    CallView::Open { root: new_root(opt_view(*params)) },
                    TaskView::Initialize,
                ),
            ),
            final(self).root() == new_root(opt_view(*params)),
            final(self).engine_ready() == old(self).engine_ready(),
            final(self).subscriptions() == old(self).subscriptions(),
            final(self).distinct_subscriptions() == old(self).distinct_subscriptions(),
    {
        match text_param(params, "rootUri") {
            Some(root_uri) => {
                let path = match strip_prefix(root_uri, "file://") {
                    Some(p) => p,
                    None => root_uri,
                };
                self.project_path = owned(path);
            },
            None => {
                self.project_path = owned(".");
            },
        }
        let root = self.project_path.clone();
        ask(id, EngineCall::Open { root }, Task::Initialize)
    }

    fn handle_tools_call(&self, id: Json, params: &Option<Json>) -> (r: Step)
        ensures
            step_id(r) == id@,
            step_matches(r, tools_call_decision(self.engine_ready(), opt_view(*params))),
    {
        let p = match params {
            Some(p) => p,
            None => return refuse(id, INVALID_PARAMS, "Missing params"),
        };
        let name = match p.text_at("name") {
            Some(n) => n,
            None => return refuse(id, INVALID_PARAMS, "Missing tool name"),
        };
        let empty = Json::empty_object();
        let args = match p.get("arguments") {
            Some(a) => a,
            None => &empty,
        };
        if !self.is_ready() {
            return refuse(id, INTERNAL_ERROR, "ADI not initialized. Call initialize first.");
        }
        match plan_tool_call(name, args) {
            Ok(call) => {
                let summary = match &call {
                    EngineCall::Index => true,
                    _ => false,
                };
                ask(id, call, Task::Tool { summary })
            },
            Err(e) => Step::Reply(JsonRpcResponse::failure(id, e)),
        }
    }

    fn handle_resources_read(&self, id: Json, params: &Option<Json>) -> (r: Step)
        ensures
            step_id(r) == id@,
            step_matches(r, read_decision(self.engine_ready(), opt_view(*params))),
    {
        let p = match params {
            Some(p) => p,
            None => return refuse(id, INVALID_PARAMS, "Missing params"),
        };
        let uri = match p.text_at("uri") {
            Some(u) => u,
            None => return refuse(id, INVALID_PARAMS, "Missing uri parameter"),
        };
        if !self.is_ready() {
            return refuse(id, INTERNAL_ERROR, "ADI not initialized");
        }
        match resolve_uri(uri) {
            Ok(target) => {
                let call = first_read_call(&target);
                let task = match target {
                    ReadTarget::File(_) => Task::ReadFile { uri: owned(uri) },
                    _ => Task::ReadVirtual { uri: owned(uri) },
                };
                ask(id, call, task)
            },
            Err(e) => Step::Reply(JsonRpcResponse::failure(id, e)),
        }
    }

    fn handle_subscription(&mut self, id: Json, params: &Option<Json>, add: bool) -> (r: Step)
        ensures
            step_id(r) == id@,
            step_matches(
                r,
                match uri_param(opt_view(*params)) {
                    Ok(_) => Decision::Answer(empty_object()),
                    Err(m) => Decision::Fail(INVALID_PARAMS, m),
                },
            ),
            final(self).subscriptions() == match uri_param(opt_view(*params)) {
                Ok(u) => if add {
                    old(self).subscriptions().insert(u)
                } else {
                    old(self).subscriptions().remove(u)
                },
                Err(_) => old(self).subscriptions(),
            },
            old(self).distinct_subscriptions() ==> final(self).distinct_subscriptions(),
            final(self).engine_ready() == old(self).engine_ready(),
            final(self).root() == old(self).root(),
    {
        let p = match params {
            Some(p) => p,
            None => return refuse(id, INVALID_PARAMS, "Missing params"),
        };
        let uri = match p.text_at("uri") {
            Some(u) => u,
            None => return refuse(id, INVALID_PARAMS, "Missing uri parameter"),
        };
        if add {
            self.subscribe(uri);
        } else {
            self.unsubscribe(uri);
        }
        respond(id, Ok(Json::empty_object()))
    }

    fn handle_prompts_get(&self, id: Json, params: &Option<Json>) -> (r: Step)
        ensures
            step_id(r) == id@,
            step_matches(r, prompt_decision(self.engine_ready(), opt_view(*params))),
    {
        let p = match params {
            Some(p) => p,
            None => return refuse(id, INVALID_PARAMS, "Missing params"),
        };
        let name = match p.text_at("name") {
            Some(n) => n,
            None => return refuse(id, INVALID_PARAMS, "Missing prompt name"),
        };
        let empty = Json::empty_object();
        let args = match p.get("arguments") {
            Some(a) => a,
            None => &empty,
        };
        if !self.is_ready() {
            return refuse(id, INTERNAL_ERROR, "ADI not initialized");
        }
        if same_text(name, "code_review") {
            let file_path = args.text_or("file_path", "");
            let focus = args.text_or("focus", "general");
            ask(id, EngineCall::GetFile { path: file_path.clone() }, Task::ReviewFile { file_path, focus })
        } else if same_text(name, "explain_symbol") {
            let symbol_name = args.text_or("symbol_name", "");
            ask(
                id,
                EngineCall::FindSymbolsByName { name: symbol_name.clone() },
                Task::ExplainFind { name: symbol_name },
            )
        } else if same_text(name, "find_similar") {
            let description = args.text_or("description", "");
            let text = find_similar_text(description.as_str());
            respond(id, Ok(prompt_result(name, text.as_str())))
        } else if same_text(name, "analyze_dependencies") {
            let target = args.text_or("target", "");
            let direction = args.text_or("direction", "both");
            ask(
                id,
                EngineCall::FindSymbolsByName { name: target.clone() },
                Task::DependenciesFind { target, direction },
            )
        } else if same_text(name, "summarize_file") {
            let file_path = args.text_or("file_path", "");
            ask(id, EngineCall::GetFile { path: file_path.clone() }, Task::SummarizeFile { file_path })
        } else if same_text(name, "refactor_suggestions") {
            let target = args.text_or("target", "");
            ask(
                id,
                EngineCall::FindSymbolsByName { name: target.clone() },
                Task::RefactorFind { target },
            )
        } else if same_text(name, "architecture_overview") {
            ask(id, EngineCall::GetTree, Task::OverviewTree)
        } else {
            Step::Reply(
                JsonRpcResponse::failure(
                    id,
                    JsonRpcError::with_detail(INVALID_PARAMS, "Unknown prompt: ", name),
                ),
            )
        }
    }

    fn handle_completion(&self, id: Json, params: &Option<Json>) -> (r: Step)
        ensures
            step_id(r) == id@,
            step_matches(r, completion_decision(self.engine_ready(), opt_view(*params))),
    {
        let p = match params {
            Some(p) => p,
            None => return refuse(id, INVALID_PARAMS, "Missing params"),
        };
        let ref_obj = match p.get("ref") {
            Some(r) => r,
            None => return refuse(id, INVALID_PARAMS, "Missing ref parameter"),
        };
        let ref_type = ref_obj.text_or("type", "");
        let (arg_name, value) = match p.get("argument") {
            Some(a) => (a.text_or("name", ""), a.text_or("value", "")),
            None => (owned(""), owned("")),
        };
        let none: Vec<String> = Vec::new();
        proof {
            assert(texts(none@) =~= Seq::<Seq<char>>::empty());
        }
        if !self.is_ready() {
            return respond(id, Ok(completion_result(&none)));
        }
        let prompt_ref = same_text(ref_type.as_str(), "ref/prompt");
        if (prompt_ref && same_text(arg_name.as_str(), "file_path")) || same_text(
            ref_type.as_str(),
            "ref/resource",
        ) {
            ask(id, EngineCall::GetTree, Task::CompletePaths { value })
        } else if prompt_ref && (same_text(arg_name.as_str(), "symbol_name") || same_text(
            arg_name.as_str(),
            "target",
        )) {
            if value.as_str().unicode_len() == 0 {
                respond(id, Ok(completion_result(&none)))
            } else {
                ask(id, EngineCall::SearchSymbols { query: value, limit: 20 }, Task::CompleteSymbols)
            }
        } else if prompt_ref && same_text(arg_name.as_str(), "focus") {
            respond(id, Ok(completion_result(&complete_focus(value.as_str()))))
        } else if prompt_ref && same_text(arg_name.as_str(), "direction") {
            respond(id, Ok(completion_result(&complete_direction(value.as_str()))))
        } else {
            respond(id, Ok(completion_result(&none)))
        }
    }

    /// Handles one request: answers it, or names the engine call that it waits on.
    pub fn handle_request(&mut self, request: JsonRpcRequest) -> (r: Step)
        ensures
            handles(*old(self), *final(self), request, r),
    {
        let method = classify(request.method.as_str());
        let JsonRpcRequest { jsonrpc: _, id, method: _, params } = request;
        let id = match id {
            Some(v) => v,
            None => Json::Null,
        };
        match method {
            Method::Initialize => self.handle_initialize(id, &params),
            Method::Initialized => respond(id, Ok(Json::empty_object())),
            Method::Ping => respond(id, Ok(Json::empty_object())),
            Method::ToolsList => respond(id, Ok(tools_catalog())),
            Method::ToolsCall => self.handle_tools_call(id, &params),
            Method::ResourcesList => {
                if self.is_ready() {
                    ask(id, EngineCall::GetTree, Task::ListResources)
                } else {
                    respond(id, Ok(list_without_engine()))
                }
            },
            Method::ResourcesRead => self.handle_resources_read(id, &params),
            Method::ResourcesSubscribe => self.handle_subscription(id, &params, true),
            Method::ResourcesUnsubscribe => self.handle_subscription(id, &params, false),
            Method::ResourceTemplatesList => respond(id, Ok(templates_catalog())),
            Method::PromptsList => respond(id, Ok(prompts_catalog())),
            Method::PromptsGet => self.handle_prompts_get(id, &params),
            Method::Complete => self.handle_completion(id, &params),
            Method::Unknown => Step::Reply(
                JsonRpcResponse::failure(
                    id,
                    JsonRpcError::with_detail(METHOD_NOT_FOUND, "Method not found: ", request.method.as_str()),
                ),
            ),
        }
    }

    /// Handles one input line once the transport has tried to decode it. A line that is
    /// not an envelope is answered with one parse error with a null id and leaves the
    /// session exactly as it was, so the lines after it are handled as if it had never
    /// come; a decoded request is handled as `handle_request` does.
    pub fn handle_line(&mut self, decoded: Result<JsonRpcRequest, String>) -> (r: Step)
        ensures
            match decoded {
                Ok(request) => handles(*old(self), *final(self), request, r),
                Err(detail) => {
                    &&& *final(self) == *old(self)
                    &&& r matches Step::Reply(resp)
                    &&& resp.failed_with(PARSE_ERROR)
                    &&& resp.id@ == JsonView::Null
                    &&& resp.error->0.message@ == "Parse error: "@ + detail@
                },
            },
    {
        match decoded {
            Ok(request) => self.handle_request(request),
            Err(detail) => Step::Reply(JsonRpcResponse::parse_error(detail.as_str())),
        }
    }
}

} // verus!
