use vstd::prelude::*;
use crate::completion::{completion_view, focus_options, matching};
use crate::engine::CallView;
use crate::json::empty_object;
use crate::prompts::{find_similar_prompt, prompt_view, prompts_catalog_view};
use crate::resources::{empty_listing, read_plan};
use crate::rpc::{INTERNAL_ERROR, INVALID_PARAMS, JsonRpcRequest, METHOD_NOT_FOUND};
use crate::server::{
    McpServer, argument_of, arguments_of, handles, method_of, params_of, uri_param,
};
use crate::step::{Decision, Step, step_matches};
use crate::text::has_substring;
use crate::tools::{clamp_limit, limit_arg, tools_catalog_view};

verus! {

/// Each method name selects its own method.
pub proof fn lemma_method_names()
    ensures
        method_of("initialize"@) is Initialize,
        method_of("initialized"@) is Initialized,
        method_of("ping"@) is Ping,
        method_of("tools/list"@) is ToolsList,
        method_of("tools/call"@) is ToolsCall,
        method_of("resources/list"@) is ResourcesList,
        method_of("resources/read"@) is ResourcesRead,
        method_of("resources/subscribe"@) is ResourcesSubscribe,
        method_of("resources/unsubscribe"@) is ResourcesUnsubscribe,
        method_of("resources/templates/list"@) is ResourceTemplatesList,
        method_of("prompts/list"@) is PromptsList,
        method_of("prompts/get"@) is PromptsGet,
        method_of("completion/complete"@) is Complete,
{
    reveal_strlit("initialize");
    reveal_strlit("initialized");
    reveal_strlit("ping");
    reveal_strlit("tools/list");
    reveal_strlit("tools/call");
    reveal_strlit("resources/list");
    reveal_strlit("resources/read");
    reveal_strlit("resources/subscribe");
    reveal_strlit("resources/unsubscribe");
    reveal_strlit("resources/templates/list");
    reveal_strlit("prompts/list");
    reveal_strlit("prompts/get");
    reveal_strlit("completion/complete");
    assert("initialized"@.len() != "initialize"@.len());
    assert("ping"@.len() != "initialize"@.len());
    assert("ping"@.len() != "initialized"@.len());
    assert("tools/list"@[0] != "initialize"@[0]);
    assert("tools/list"@.len() != "initialized"@.len());
    assert("tools/list"@.len() != "ping"@.len());
    assert("tools/call"@[0] != "initialize"@[0]);
    assert("tools/call"@.len() != "initialized"@.len());
    assert("tools/call"@.len() != "ping"@.len());
    assert("tools/call"@[6] != "tools/list"@[6]);
    assert("resources/list"@.len() != "initialize"@.len());
    assert("resources/list"@.len() != "initialized"@.len());
    assert("resources/list"@.len() != "ping"@.len());
    assert("resources/list"@.len() != "tools/list"@.len());
    assert("resources/list"@.len() != "tools/call"@.len());
    assert("resources/read"@.len() != "initialize"@.len());
    assert("resources/read"@.len() != "initialized"@.len());
    assert("resources/read"@.len() != "ping"@.len());
    assert("resources/read"@.len() != "tools/list"@.len());
    assert("resources/read"@.len() != "tools/call"@.len());
    assert("resources/read"@[10] != "resources/list"@[10]);
    assert("resources/subscribe"@.len() != "initialize"@.len());
    assert("resources/subscribe"@.len() != "initialized"@.len());
    assert("resources/subscribe"@.len() != "ping"@.len());
    assert("resources/subscribe"@.len() != "tools/list"@.len());
    assert("resources/subscribe"@.len() != "tools/call"@.len());
    assert("resources/subscribe"@.len() != "resources/list"@.len());
    assert("resources/subscribe"@.len() != "resources/read"@.len());
    assert("resources/unsubscribe"@.len() != "initialize"@.len());
    assert("resources/unsubscribe"@.len() != "initialized"@.len());
    assert("resources/unsubscribe"@.len() != "ping"@.len());
    assert("resources/unsubscribe"@.len() != "tools/list"@.len());
    assert("resources/unsubscribe"@.len() != "tools/call"@.len());
    assert("resources/unsubscribe"@.len() != "resources/list"@.len());
    assert("resources/unsubscribe"@.len() != "resources/read"@.len());
    assert("resources/unsubscribe"@.len() != "resources/subscribe"@.len());
    assert("resources/templates/list"@.len() != "initialize"@.len());
    assert("resources/templates/list"@.len() != "initialized"@.len());
    assert("resources/templates/list"@.len() != "ping"@.len());
    assert("resources/templates/list"@.len() != "tools/list"@.len());
    assert("resources/templates/list"@.len() != "tools/call"@.len());
    assert("resources/templates/list"@.len() != "resources/list"@.len());
    assert("resources/templates/list"@.len() != "resources/read"@.len());
    assert("resources/templates/list"@.len() != "resources/subscribe"@.len());
    assert("resources/templates/list"@.len() != "resources/unsubscribe"@.len());
    assert("prompts/list"@.len() != "initialize"@.len());
    assert("prompts/list"@.len() != "initialized"@.len());
    assert("prompts/list"@.len() != "ping"@.len());
    assert("prompts/list"@.len() != "tools/list"@.len());
    assert("prompts/list"@.len() != "tools/call"@.len());
    assert("prompts/list"@.len() != "resources/list"@.len());
    assert("prompts/list"@.len() != "resources/read"@.len());
    assert("prompts/list"@.len() != "resources/subscribe"@.len());
    assert("prompts/list"@.len() != "resources/unsubscribe"@.len());
    assert("prompts/list"@.len() != "resources/templates/list"@.len());
    assert("prompts/get"@.len() != "initialize"@.len());
    assert("prompts/get"@[0] != "initialized"@[0]);
    assert("prompts/get"@.len() != "ping"@.len());
    assert("prompts/get"@.len() != "tools/list"@.len());
    assert("prompts/get"@.len() != "tools/call"@.len());
    assert("prompts/get"@.len() != "resources/list"@.len());
    assert("prompts/get"@.len() != "resources/read"@.len());
    assert("prompts/get"@.len() != "resources/subscribe"@.len());
    assert("prompts/get"@.len() != "resources/unsubscribe"@.len());
    assert("prompts/get"@.len() != "resources/templates/list"@.len());
    assert("prompts/get"@.len() != "prompts/list"@.len());
    assert("completion/complete"@.len() != "initialize"@.len());
    assert("completion/complete"@.len() != "initialized"@.len());
    assert("completion/complete"@.len() != "ping"@.len());
    assert("completion/complete"@.len() != "tools/list"@.len());
    assert("completion/complete"@.len() != "tools/call"@.len());
    assert("completion/complete"@.len() != "resources/list"@.len());
    assert("completion/complete"@.len() != "resources/read"@.len());
    assert("completion/complete"@[0] != "resources/subscribe"@[0]);
    assert("completion/complete"@.len() != "resources/unsubscribe"@.len());
    assert("completion/complete"@.len() != "resources/templates/list"@.len());
    assert("completion/complete"@.len() != "prompts/list"@.len());
    assert("completion/complete"@.len() != "prompts/get"@.len());
}

/// A method name that selects no handler is answered with "method not found", in any
/// session, and changes nothing.
pub proof fn law_unknown_method(before: McpServer, after: McpServer, request: JsonRpcRequest, r: Step)
    requires
        handles(before, after, request, r),
        method_of(request.method@) is Unknown,
    ensures
        r matches Step::Reply(resp) && resp.failed_with(METHOD_NOT_FOUND),
        after.engine_ready() == before.engine_ready(),
        after.root() == before.root(),
        after.subscriptions() == before.subscriptions(),
{
}

/// `nonexistent` is no method name.
pub proof fn lemma_nonexistent_is_unknown()
    ensures
        method_of("nonexistent"@) is Unknown,
{
    reveal_strlit("nonexistent");
    reveal_strlit("initialize");
    reveal_strlit("initialized");
    reveal_strlit("ping");
    reveal_strlit("tools/list");
    reveal_strlit("tools/call");
    reveal_strlit("resources/list");
    reveal_strlit("resources/read");
    reveal_strlit("resources/subscribe");
    reveal_strlit("resources/unsubscribe");
    reveal_strlit("resources/templates/list");
    reveal_strlit("prompts/list");
    reveal_strlit("prompts/get");
    reveal_strlit("completion/complete");
    assert("nonexistent"@.len() != "initialize"@.len());
    assert("nonexistent"@[0] != "initialized"@[0]);
    assert("nonexistent"@.len() != "ping"@.len());
    assert("nonexistent"@.len() != "tools/list"@.len());
    assert("nonexistent"@.len() != "tools/call"@.len());
    assert("nonexistent"@.len() != "resources/list"@.len());
    assert("nonexistent"@.len() != "resources/read"@.len());
    assert("nonexistent"@.len() != "resources/subscribe"@.len());
    assert("nonexistent"@.len() != "resources/unsubscribe"@.len());
    assert("nonexistent"@.len() != "resources/templates/list"@.len());
    assert("nonexistent"@.len() != "prompts/list"@.len());
    assert("nonexistent"@[0] != "prompts/get"@[0]);
    assert("nonexistent"@.len() != "completion/complete"@.len());
}

/// `tools/call` without parameters, or without a string `name` among them, is refused
/// as invalid parameters, in any session, with no engine call.
pub proof fn law_tools_call_needs_name(
    before: McpServer,
    after: McpServer,
    request: JsonRpcRequest,
    r: Step,
)
    requires
        handles(before, after, request, r),
        request.method@ == "tools/call"@,
        params_of(request) is None || params_of(request)->0.text_at("name"@) is None,
    ensures
        r matches Step::Reply(resp) && resp.failed_with(INVALID_PARAMS),
{
    lemma_method_names();
}

/// Before the engine is open: every named tool call fails with an internal error that
/// asks for `initialize`, the resource list is empty, and the tool and prompt catalogs
/// are served in full.
pub proof fn law_before_initialize(before: McpServer, after: McpServer, request: JsonRpcRequest, r: Step)
    requires
        handles(before, after, request, r),
        !before.engine_ready(),
    ensures
        request.method@ == "tools/call"@ && (params_of(request) matches Some(p) && p.text_at("name"@)
            is Some) ==> step_matches(
            r,
            Decision::Fail(INTERNAL_ERROR, "ADI not initialized. Call initialize first."@),
        ),
        request.method@ == "resources/list"@ ==> (r matches Step::Reply(resp) && resp.succeeded_with(
            empty_listing(),
        )),
        request.method@ == "tools/list"@ ==> (r matches Step::Reply(resp) && resp.succeeded_with(
            tools_catalog_view(),
        )),
        request.method@ == "prompts/list"@ ==> (r matches Step::Reply(resp) && resp.succeeded_with(
            prompts_catalog_view(),
        )),
{
    lemma_method_names();
}

/// Subscribing to a URI and then unsubscribing from it both succeed and leave the other
/// subscriptions as they were; from none, none.
pub proof fn law_subscribe_then_unsubscribe(
    s0: McpServer,
    s1: McpServer,
    s2: McpServer,
    subscribe: JsonRpcRequest,
    unsubscribe: JsonRpcRequest,
    r1: Step,
    r2: Step,
    uri: Seq<char>,
)
    requires
        handles(s0, s1, subscribe, r1),
        handles(s1, s2, unsubscribe, r2),
        subscribe.method@ == "resources/subscribe"@,
        unsubscribe.method@ == "resources/unsubscribe"@,
        uri_param(params_of(subscribe)) == Ok::<Seq<char>, Seq<char>>(uri),
        uri_param(params_of(unsubscribe)) == Ok::<Seq<char>, Seq<char>>(uri),
    ensures
        r1 matches Step::Reply(resp) && resp.succeeded_with(empty_object()),
        r2 matches Step::Reply(resp) && resp.succeeded_with(empty_object()),
        s2.subscriptions() == s0.subscriptions().remove(uri),
        s0.subscriptions().is_empty() ==> s2.subscriptions().is_empty(),
{
    lemma_method_names();
    assert(s0.subscriptions().insert(uri).remove(uri) =~= s0.subscriptions().remove(uri));
    if s0.subscriptions().is_empty() {
        assert(s0.subscriptions().remove(uri) =~= Set::<Seq<char>>::empty());
    }
}

/// Unsubscribing from a URI that is not subscribed changes nothing and still succeeds.
pub proof fn law_unsubscribe_absent(before: McpServer, after: McpServer, request: JsonRpcRequest, r: Step)
    requires
        handles(before, after, request, r),
        request.method@ == "resources/unsubscribe"@,
        uri_param(params_of(request)) is Ok,
        !before.subscriptions().contains(uri_param(params_of(request))->Ok_0),
    ensures
        after.subscriptions() == before.subscriptions(),
        r matches Step::Reply(resp) && resp.succeeded_with(empty_object()),
{
    lemma_method_names();
    assert(before.subscriptions().remove(uri_param(params_of(request))->Ok_0) =~= before.subscriptions());
}

/// On a ready session, `search` asks the engine once, for the requested limit brought
/// into the range from 1 to 100: zero as one, anything above a hundred as a hundred.
pub proof fn law_search_limit(before: McpServer, after: McpServer, request: JsonRpcRequest, r: Step)
    requires
        handles(before, after, request, r),
        before.engine_ready(),
        request.method@ == "tools/call"@,
        params_of(request) matches Some(p) && p.text_at("name"@) == Some("search"@),
    ensures
        ({
            let args = arguments_of(params_of(request)->0);
            let limit = clamp_limit(limit_arg(args));
            &&& r matches Step::Call(pending) && pending.call@ == (CallView::Search {
                query: args.text_or("query"@, ""@),
                limit,
            })
            &&& 1 <= limit <= 100
            &&& (1 <= limit_arg(args) <= 100 ==> limit == limit_arg(args))
            &&& (limit_arg(args) == 0 ==> limit == 1)
            &&& (limit_arg(args) > 100 ==> limit == 100)
        }),
{
    lemma_method_names();
}

/// `adi://bogus` names no resource.
pub proof fn lemma_bogus_uri_is_unknown()
    ensures
        read_plan("adi://bogus"@) is Unknown,
{
    reveal_strlit("adi://bogus");
    reveal_strlit("adi://status");
    reveal_strlit("adi://tree");
    reveal_strlit("adi://config");
    reveal_strlit("adi://file/");
    reveal_strlit("adi://symbol/");
    assert("adi://bogus"@.len() != "adi://status"@.len());
    assert("adi://bogus"@.len() != "adi://tree"@.len());
    assert("adi://bogus"@.len() != "adi://config"@.len());
    assert("adi://bogus"@.subrange(0, 11)[6] != "adi://file/"@[6]);
}

/// On a ready session, reading a URI that is neither a virtual resource nor of the file
/// or symbol family is refused as invalid parameters.
pub proof fn law_unknown_uri(before: McpServer, after: McpServer, request: JsonRpcRequest, r: Step)
    requires
        handles(before, after, request, r),
        before.engine_ready(),
        request.method@ == "resources/read"@,
        uri_param(params_of(request)) is Ok,
        read_plan(uri_param(params_of(request))->Ok_0) is Unknown,
    ensures
        r matches Step::Reply(resp) && resp.failed_with(INVALID_PARAMS),
{
    lemma_method_names();
}

/// On a ready session, the `find_similar` prompt is composed at once and quotes the
/// description it was given.
pub proof fn law_find_similar(before: McpServer, after: McpServer, request: JsonRpcRequest, r: Step)
    requires
        handles(before, after, request, r),
        before.engine_ready(),
        request.method@ == "prompts/get"@,
        params_of(request) matches Some(p) && p.text_at("name"@) == Some("find_similar"@),
    ensures
        ({
            let description = arguments_of(params_of(request)->0).text_or("description"@, ""@);
            &&& r matches Step::Reply(resp) && resp.succeeded_with(
                prompt_view("find_similar"@, find_similar_prompt(description)),
            )
            &&& has_substring(find_similar_prompt(description), description)
        }),
{
    lemma_method_names();
    reveal_strlit("code_review");
    reveal_strlit("explain_symbol");
    reveal_strlit("find_similar");
    assert("find_similar"@.len() != "code_review"@.len());
    assert("find_similar"@.len() != "explain_symbol"@.len());
    let description = arguments_of(params_of(request)->0).text_or("description"@, ""@);
    let head = "Find code in this codebase that is similar to or implements: "@;
    let text = find_similar_prompt(description);
    assert(text.subrange(head.len() as int, (head.len() + description.len()) as int) =~= description);
}

/// Of the review focuses, only `security` contains `sec`.
pub proof fn lemma_sec_focus()
    ensures
        matching(focus_options(), "sec"@) == seq!["security"@],
{
    reveal_strlit("sec");
    reveal_strlit("security");
    reveal_strlit("performance");
    reveal_strlit("style");
    reveal_strlit("bugs");
    reveal_strlit("general");
    assert(has_substring("security"@, "sec"@)) by {
        assert("security"@.subrange(0, 0int + "sec"@.len()) =~= "sec"@);
    }
    assert(!has_substring("performance"@, "sec"@)) by {
        if has_substring("performance"@, "sec"@) {
            let i = choose|i: int| 0 <= i && i + "sec"@.len() <= "performance"@.len() && #[trigger] "performance"@.subrange(i, i + "sec"@.len()) == "sec"@;
            if i == 0 {
                assert("performance"@.subrange(i, i + "sec"@.len())[0] == "performance"@[0]);
            } else if i == 1 {
                assert("performance"@.subrange(i, i + "sec"@.len())[0] == "performance"@[1]);
            } else if i == 2 {
                assert("performance"@.subrange(i, i + "sec"@.len())[0] == "performance"@[2]);
            } else if i == 3 {
                assert("performance"@.subrange(i, i + "sec"@.len())[0] == "performance"@[3]);
            } else if i == 4 {
                assert("performance"@.subrange(i, i + "sec"@.len())[0] == "performance"@[4]);
            } else if i == 5 {
                assert("performance"@.subrange(i, i + "sec"@.len())[0] == "performance"@[5]);
            } else if i == 6 {
                assert("performance"@.subrange(i, i + "sec"@.len())[0] == "performance"@[6]);
            } else if i == 7 {
                assert("performance"@.subrange(i, i + "sec"@.len())[0] == "performance"@[7]);
            } else if i == 8 {
                assert("performance"@.subrange(i, i + "sec"@.len())[0] == "performance"@[8]);
            }
        }
    }
    assert(!has_substring("style"@, "sec"@)) by {
        if has_substring("style"@, "sec"@) {
            let i = choose|i: int| 0 <= i && i + "sec"@.len() <= "style"@.len() && #[trigger] "style"@.subrange(i, i + "sec"@.len()) == "sec"@;
            if i == 0 {
                assert("style"@.subrange(i, i + "sec"@.len())[1] == "style"@[1]);
            } else if i == 1 {
                assert("style"@.subrange(i, i + "sec"@.len())[0] == "style"@[1]);
            } else if i == 2 {
                assert("style"@.subrange(i, i + "sec"@.len())[0] == "style"@[2]);
            }
        }
    }
    assert(!has_substring("bugs"@, "sec"@)) by {
        if has_substring("bugs"@, "sec"@) {
            let i = choose|i: int| 0 <= i && i + "sec"@.len() <= "bugs"@.len() && #[trigger] "bugs"@.subrange(i, i + "sec"@.len()) == "sec"@;
            if i == 0 {
                assert("bugs"@.subrange(i, i + "sec"@.len())[0] == "bugs"@[0]);
            } else if i == 1 {
                assert("bugs"@.subrange(i, i + "sec"@.len())[0] == "bugs"@[1]);
            }
        }
    }
    assert(!has_substring("general"@, "sec"@)) by {
        if has_substring("general"@, "sec"@) {
            let i = choose|i: int| 0 <= i && i + "sec"@.len() <= "general"@.len() && #[trigger] "general"@.subrange(i, i + "sec"@.len()) == "sec"@;
            if i == 0 {
                assert("general"@.subrange(i, i + "sec"@.len())[0] == "general"@[0]);
            } else if i == 1 {
                assert("general"@.subrange(i, i + "sec"@.len())[0] == "general"@[1]);
            } else if i == 2 {
                assert("general"@.subrange(i, i + "sec"@.len())[0] == "general"@[2]);
            } else if i == 3 {
                assert("general"@.subrange(i, i + "sec"@.len())[0] == "general"@[3]);
            } else if i == 4 {
                assert("general"@.subrange(i, i + "sec"@.len())[0] == "general"@[4]);
            }
        }
    }
    reveal(Seq::filter);
    let o = focus_options();
    assert(o.drop_last() =~= seq!["security"@, "performance"@, "style"@, "bugs"@]);
    assert(o.drop_last().drop_last() =~= seq!["security"@, "performance"@, "style"@]);
    assert(o.drop_last().drop_last().drop_last() =~= seq!["security"@, "performance"@]);
    assert(o.drop_last().drop_last().drop_last().drop_last() =~= seq!["security"@]);
    assert(seq!["security"@].drop_last() =~= Seq::<Seq<char>>::empty());
    assert(matching(seq!["security"@], "sec"@) =~= seq!["security"@]);
    assert(matching(seq!["security"@, "performance"@], "sec"@) =~= seq!["security"@]);
    assert(matching(seq!["security"@, "performance"@, "style"@], "sec"@) =~= seq!["security"@]);
    assert(matching(seq!["security"@, "performance"@, "style"@, "bugs"@], "sec"@) =~= seq![
        "security"@,
    ]);
}

/// On a ready session, completing the `focus` argument of a prompt from `sec` offers
/// exactly `security`, with no further page.
pub proof fn law_focus_completion(before: McpServer, after: McpServer, request: JsonRpcRequest, r: Step)
    requires
        handles(before, after, request, r),
        before.engine_ready(),
        request.method@ == "completion/complete"@,
        params_of(request) matches Some(p) && (p.get("ref"@) matches Some(rf) && rf.text_at("type"@)
            == Some("ref/prompt"@)) && argument_of(p).text_at("name"@) == Some("focus"@)
            && argument_of(p).text_at("value"@) == Some("sec"@),
    ensures
        r matches Step::Reply(resp) && resp.succeeded_with(completion_view(seq!["security"@])),
{
    lemma_method_names();
    lemma_sec_focus();
    reveal_strlit("focus");
    reveal_strlit("file_path");
    reveal_strlit("symbol_name");
    reveal_strlit("target");
    reveal_strlit("ref/prompt");
    reveal_strlit("ref/resource");
    assert("focus"@.len() != "file_path"@.len());
    assert("focus"@.len() != "symbol_name"@.len());
    assert("focus"@.len() != "target"@.len());
    assert("ref/prompt"@.len() != "ref/resource"@.len());
}

} // verus!
