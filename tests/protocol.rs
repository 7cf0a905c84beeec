use adi_mcp::engine::{language_to_mime, EngineCall, EngineReply, FileEntry, Language};
use adi_mcp::text::is_blank_line;
use adi_mcp::json::{Json, JsonNumber};
use adi_mcp::rpc::{JsonRpcRequest, JsonRpcResponse};
use adi_mcp::server::McpServer;
use adi_mcp::step::{PendingRequest, Step};

fn text(s: &str) -> Json {
    Json::Str(s.to_string())
}

fn obj(entries: Vec<(&str, Json)>) -> Json {
    Json::Object(entries.into_iter().map(|(k, v)| (k.to_string(), v)).collect())
}

fn make_request(id: i64, method: &str, params: Option<Json>) -> JsonRpcRequest {
    let id = if id >= 0 {
        Json::Number(JsonNumber::PosInt(id as u64))
    } else {
        Json::Number(JsonNumber::NegInt(id))
    };
    JsonRpcRequest {
        jsonrpc: "2.0".to_string(),
        id: Some(id),
        method: method.to_string(),
        params,
    }
}

fn reply(step: Step) -> JsonRpcResponse {
    match step {
        Step::Reply(r) => r,
        Step::Call(p) => panic!("expected a reply, got a call of {:?}", p.call),
    }
}

fn pending(step: Step) -> PendingRequest {
    match step {
        Step::Call(p) => p,
        Step::Reply(r) => panic!("expected an engine call, got {:?}", r),
    }
}

fn assert_success(response: &JsonRpcResponse) {
    assert!(response.error.is_none(), "Expected success but got error: {:?}", response.error);
    assert!(response.result.is_some(), "Expected result but got none");
}

fn assert_error(response: &JsonRpcResponse, expected_code: i32) {
    assert!(response.error.is_some(), "Expected error but got success");
    assert_eq!(response.error.as_ref().unwrap().code, expected_code);
}

fn field<'a>(v: &'a Json, key: &str) -> &'a Json {
    v.get(key).unwrap_or_else(|| panic!("no member {}", key))
}

fn items(v: &Json) -> &Vec<Json> {
    match v {
        Json::Array(items) => items,
        other => panic!("expected an array, got {:?}", other),
    }
}

fn is_object(v: &Json) -> bool {
    matches!(v, Json::Object(_))
}

fn str_of(v: &Json) -> &str {
    v.as_str().unwrap_or_else(|| panic!("expected a string, got {:?}", v))
}

/// Runs `initialize` at `root` with an engine that opens.
fn initialize(server: &mut McpServer, root: &str) {
    let request = make_request(
        1,
        "initialize",
        Some(obj(vec![("rootUri", text(&format!("file://{}", root)))])),
    );
    let p = pending(server.handle_request(request));
    assert_eq!(p.call, EngineCall::Open { root: root.to_string() });
    assert_success(&reply(server.resume(p, EngineReply::Opened)));
}

fn source_file() -> FileEntry {
    FileEntry {
        path: "src/main.rs".to_string(),
        file_name: Some("main.rs".to_string()),
        language: Language::Rust,
        language_name: "rust".to_string(),
        symbol_count: 4,
    }
}

#[test]
fn test_initialize_without_root_uri() {
    let mut server = McpServer::new();
    let request = make_request(1, "initialize", None);
    let p = pending(server.handle_request(request));
    assert_eq!(p.call, EngineCall::Open { root: ".".to_string() });
    let response = reply(server.resume(p, EngineReply::Opened));

    assert_success(&response);
    let result = response.result.unwrap();
    assert_eq!(str_of(field(&result, "protocolVersion")), "2024-11-05");
    assert!(is_object(field(field(&result, "capabilities"), "tools")));
    assert!(is_object(field(field(&result, "capabilities"), "resources")));
    assert!(is_object(field(field(&result, "capabilities"), "prompts")));
    assert_eq!(str_of(field(field(&result, "serverInfo"), "name")), "adi-mcp");
}

#[test]
fn test_initialize_with_root_uri() {
    let mut server = McpServer::new();
    let request = make_request(
        1,
        "initialize",
        Some(obj(vec![("rootUri", text("file:///tmp/project"))])),
    );
    let p = pending(server.handle_request(request));
    let response = reply(server.resume(p, EngineReply::Opened));

    assert_success(&response);
    assert_eq!(server.project_path(), "/tmp/project");
}

#[test]
fn test_initialized_method() {
    let mut server = McpServer::new();
    let request = make_request(1, "initialized", None);
    let response = reply(server.handle_request(request));

    assert_success(&response);
    assert_eq!(response.result.unwrap(), Json::Object(vec![]));
}

#[test]
fn test_ping_method() {
    let mut server = McpServer::new();
    let request = make_request(1, "ping", None);
    let response = reply(server.handle_request(request));

    assert_success(&response);
    assert_eq!(response.result.unwrap(), Json::Object(vec![]));
}

#[test]
fn test_unknown_method() {
    let mut server = McpServer::new();
    let request = make_request(1, "unknown/method", None);
    let response = reply(server.handle_request(request));

    assert_error(&response, -32601);
}

#[test]
fn test_tools_list() {
    let mut server = McpServer::new();
    let request = make_request(1, "tools/list", None);
    let response = reply(server.handle_request(request));

    assert_success(&response);
    let result = response.result.unwrap();
    let tools = items(field(&result, "tools"));

    assert!(!tools.is_empty());

    let tool_names: Vec<&str> = tools.iter().map(|t| str_of(field(t, "name"))).collect();

    assert!(tool_names.contains(&"search"));
    assert!(tool_names.contains(&"search_symbols"));
    assert!(tool_names.contains(&"search_files"));
    assert!(tool_names.contains(&"get_symbol"));
    assert!(tool_names.contains(&"get_file"));
    assert!(tool_names.contains(&"get_callers"));
    assert!(tool_names.contains(&"get_callees"));
    assert!(tool_names.contains(&"get_symbol_usage"));
    assert!(tool_names.contains(&"get_tree"));
    assert!(tool_names.contains(&"index"));
    assert!(tool_names.contains(&"status"));
}

#[test]
fn test_tools_list_schema_format() {
    let mut server = McpServer::new();
    let request = make_request(1, "tools/list", None);
    let response = reply(server.handle_request(request));

    assert_success(&response);
    let result = response.result.unwrap();
    for tool in items(field(&result, "tools")) {
        assert!(field(tool, "name").as_str().is_some());
        assert!(field(tool, "description").as_str().is_some());
        assert!(is_object(field(tool, "inputSchema")));
        assert_eq!(str_of(field(field(tool, "inputSchema"), "type")), "object");
    }
}

#[test]
fn test_tools_call_without_initialization() {
    let mut server = McpServer::new();
    let request = make_request(
        1,
        "tools/call",
        Some(obj(vec![("name", text("status")), ("arguments", obj(vec![]))])),
    );
    let response = reply(server.handle_request(request));

    assert_error(&response, -32603);
}

#[test]
fn test_tools_call_missing_params() {
    let mut server = McpServer::new();
    let request = make_request(1, "tools/call", None);
    let response = reply(server.handle_request(request));

    assert_error(&response, -32602);
}

#[test]
fn test_tools_call_missing_tool_name() {
    let mut server = McpServer::new();
    let request = make_request(1, "tools/call", Some(obj(vec![("arguments", obj(vec![]))])));
    let response = reply(server.handle_request(request));

    assert_error(&response, -32602);
}

#[test]
fn test_tools_call_unknown_tool() {
    let mut server = McpServer::new();
    initialize(&mut server, "/tmp/project");

    let request = make_request(
        2,
        "tools/call",
        Some(obj(vec![("name", text("unknown_tool")), ("arguments", obj(vec![]))])),
    );
    let response = reply(server.handle_request(request));

    assert_error(&response, -32602);
}

#[test]
fn test_resources_list_without_initialization() {
    let mut server = McpServer::new();
    let request = make_request(1, "resources/list", None);
    let response = reply(server.handle_request(request));

    assert_success(&response);
    let result = response.result.unwrap();
    assert_eq!(field(&result, "resources"), &Json::Array(vec![]));
}

#[test]
fn test_resources_list_with_initialization() {
    let mut server = McpServer::new();
    initialize(&mut server, "/tmp/project");

    let request = make_request(2, "resources/list", None);
    let p = pending(server.handle_request(request));
    assert_eq!(p.call, EngineCall::GetTree);
    let tree = EngineReply::Tree { files: vec![source_file()], rendered: "{}".to_string() };
    let response = reply(server.resume(p, tree));

    assert_success(&response);
    let result = response.result.unwrap();
    let resources = items(field(&result, "resources"));

    assert!(resources.len() >= 3);

    let uris: Vec<&str> = resources.iter().map(|r| str_of(field(r, "uri"))).collect();
    assert!(uris.contains(&"adi://status"));
    assert!(uris.contains(&"adi://tree"));
    assert!(uris.contains(&"adi://config"));
}

#[test]
fn test_resources_read_missing_uri() {
    let mut server = McpServer::new();
    initialize(&mut server, "/tmp/project");

    let request = make_request(2, "resources/read", Some(obj(vec![])));
    let response = reply(server.handle_request(request));

    assert_error(&response, -32602);
}

#[test]
fn test_resources_read_unknown_uri() {
    let mut server = McpServer::new();
    initialize(&mut server, "/tmp/project");

    let request = make_request(2, "resources/read", Some(obj(vec![("uri", text("adi://unknown"))])));
    let response = reply(server.handle_request(request));

    assert_error(&response, -32602);
}

#[test]
fn test_resources_read_status() {
    let mut server = McpServer::new();
    initialize(&mut server, "/tmp/project");

    let request = make_request(2, "resources/read", Some(obj(vec![("uri", text("adi://status"))])));
    let p = pending(server.handle_request(request));
    assert_eq!(p.call, EngineCall::Status);
    let status = EngineReply::Status {
        indexed_files: 1,
        indexed_symbols: 4,
        rendered: "{\n  \"indexed_files\": 1\n}".to_string(),
    };
    let response = reply(server.resume(p, status));

    assert_success(&response);
    let result = response.result.unwrap();
    let contents = items(field(&result, "contents"));
    assert_eq!(contents.len(), 1);
    assert_eq!(str_of(field(&contents[0], "uri")), "adi://status");
    assert_eq!(str_of(field(&contents[0], "mimeType")), "application/json");
    assert!(field(&contents[0], "text").as_str().is_some());
}

#[test]
fn test_resources_subscribe() {
    let mut server = McpServer::new();

    let request = make_request(1, "resources/subscribe", Some(obj(vec![("uri", text("adi://status"))])));
    let response = reply(server.handle_request(request));

    assert_success(&response);
    assert!(server.is_subscribed("adi://status"));
}

#[test]
fn test_resources_unsubscribe() {
    let mut server = McpServer::new();
    let request = make_request(1, "resources/subscribe", Some(obj(vec![("uri", text("adi://status"))])));
    assert_success(&reply(server.handle_request(request)));

    let request = make_request(1, "resources/unsubscribe", Some(obj(vec![("uri", text("adi://status"))])));
    let response = reply(server.handle_request(request));

    assert_success(&response);
    assert!(!server.is_subscribed("adi://status"));
}

#[test]
fn test_resource_templates_list() {
    let mut server = McpServer::new();
    let request = make_request(1, "resources/templates/list", None);
    let response = reply(server.handle_request(request));

    assert_success(&response);
    let result = response.result.unwrap();
    let templates = items(field(&result, "resourceTemplates"));

    assert!(!templates.is_empty());

    let uri_templates: Vec<&str> = templates.iter().map(|t| str_of(field(t, "uriTemplate"))).collect();
    assert!(uri_templates.contains(&"adi://file/{path}"));
    assert!(uri_templates.contains(&"adi://symbol/{id}"));
}

#[test]
fn test_prompts_list() {
    let mut server = McpServer::new();
    let request = make_request(1, "prompts/list", None);
    let response = reply(server.handle_request(request));

    assert_success(&response);
    let result = response.result.unwrap();
    let prompts = items(field(&result, "prompts"));

    assert!(!prompts.is_empty());

    let prompt_names: Vec<&str> = prompts.iter().map(|p| str_of(field(p, "name"))).collect();
    assert!(prompt_names.contains(&"code_review"));
    assert!(prompt_names.contains(&"explain_symbol"));
    assert!(prompt_names.contains(&"find_similar"));
    assert!(prompt_names.contains(&"analyze_dependencies"));
    assert!(prompt_names.contains(&"summarize_file"));
    assert!(prompt_names.contains(&"refactor_suggestions"));
    assert!(prompt_names.contains(&"architecture_overview"));
}

#[test]
fn test_prompts_list_schema_format() {
    let mut server = McpServer::new();
    let request = make_request(1, "prompts/list", None);
    let response = reply(server.handle_request(request));

    assert_success(&response);
    let result = response.result.unwrap();
    for prompt in items(field(&result, "prompts")) {
        assert!(field(prompt, "name").as_str().is_some());
        assert!(field(prompt, "description").as_str().is_some());
        assert!(matches!(field(prompt, "arguments"), Json::Array(_)));
    }
}

#[test]
fn test_prompts_get_missing_name() {
    let mut server = McpServer::new();
    initialize(&mut server, "/tmp/project");

    let request = make_request(2, "prompts/get", Some(obj(vec![("arguments", obj(vec![]))])));
    let response = reply(server.handle_request(request));

    assert_error(&response, -32602);
}

#[test]
fn test_prompts_get_unknown_prompt() {
    let mut server = McpServer::new();
    initialize(&mut server, "/tmp/project");

    let request = make_request(
        2,
        "prompts/get",
        Some(obj(vec![("name", text("unknown_prompt")), ("arguments", obj(vec![]))])),
    );
    let response = reply(server.handle_request(request));

    assert_error(&response, -32602);
}

#[test]
fn test_prompts_get_architecture_overview() {
    let mut server = McpServer::new();
    initialize(&mut server, "/tmp/project");

    let request = make_request(
        2,
        "prompts/get",
        Some(obj(vec![("name", text("architecture_overview")), ("arguments", obj(vec![]))])),
    );
    let p = pending(server.handle_request(request));
    assert_eq!(p.call, EngineCall::GetTree);
    let tree = EngineReply::Tree { files: vec![source_file()], rendered: "{}".to_string() };
    let p = pending(server.resume(p, tree));
    assert_eq!(p.call, EngineCall::Status);
    let status = EngineReply::Status { indexed_files: 1, indexed_symbols: 4, rendered: "{}".to_string() };
    let response = reply(server.resume(p, status));

    assert_success(&response);
    let result = response.result.unwrap();
    assert!(field(&result, "description").as_str().is_some());
    let messages = items(field(&result, "messages"));
    assert!(!messages.is_empty());
    assert_eq!(str_of(field(&messages[0], "role")), "user");
}

#[test]
fn test_prompts_get_find_similar() {
    let mut server = McpServer::new();
    initialize(&mut server, "/tmp/project");

    let request = make_request(
        2,
        "prompts/get",
        Some(obj(vec![
            ("name", text("find_similar")),
            ("arguments", obj(vec![("description", text("error handling"))])),
        ])),
    );
    let response = reply(server.handle_request(request));

    assert_success(&response);
    let result = response.result.unwrap();
    let messages = items(field(&result, "messages"));
    let message_text = str_of(field(field(&messages[0], "content"), "text"));
    assert!(message_text.contains("error handling"));
}

fn completion_request(id: i64, ref_name: &str, argument: &str, value: &str) -> JsonRpcRequest {
    make_request(
        id,
        "completion/complete",
        Some(obj(vec![
            ("ref", obj(vec![("type", text("ref/prompt")), ("name", text(ref_name))])),
            ("argument", obj(vec![("name", text(argument)), ("value", text(value))])),
        ])),
    )
}

#[test]
fn test_completion_without_initialization() {
    let mut server = McpServer::new();
    let request = completion_request(1, "code_review", "focus", "sec");
    let response = reply(server.handle_request(request));

    assert_success(&response);
    let result = response.result.unwrap();
    assert_eq!(field(field(&result, "completion"), "values"), &Json::Array(vec![]));
    assert_eq!(field(field(&result, "completion"), "hasMore"), &Json::Bool(false));
}

#[test]
fn test_completion_focus_argument() {
    let mut server = McpServer::new();
    initialize(&mut server, "/tmp/project");

    let request = completion_request(2, "code_review", "focus", "sec");
    let response = reply(server.handle_request(request));

    assert_success(&response);
    let result = response.result.unwrap();
    let values = items(field(field(&result, "completion"), "values"));
    assert!(values.contains(&text("security")));
}

#[test]
fn test_completion_direction_argument() {
    let mut server = McpServer::new();
    initialize(&mut server, "/tmp/project");

    let request = completion_request(2, "analyze_dependencies", "direction", "call");
    let response = reply(server.handle_request(request));

    assert_success(&response);
    let result = response.result.unwrap();
    let values = items(field(field(&result, "completion"), "values"));
    assert!(values.contains(&text("callers")));
    assert!(values.contains(&text("callees")));
}

#[test]
fn test_completion_missing_ref() {
    let mut server = McpServer::new();
    let request = make_request(
        1,
        "completion/complete",
        Some(obj(vec![("argument", obj(vec![("name", text("focus")), ("value", text("sec"))]))])),
    );
    let response = reply(server.handle_request(request));

    assert_error(&response, -32602);
}

#[test]
fn test_response_has_correct_jsonrpc_version() {
    let mut server = McpServer::new();
    let request = make_request(1, "ping", None);
    let response = reply(server.handle_request(request));

    assert_eq!(response.jsonrpc, "2.0");
}

#[test]
fn test_response_preserves_request_id() {
    let mut server = McpServer::new();

    let request = make_request(42, "ping", None);
    let response = reply(server.handle_request(request));
    assert_eq!(response.id, Json::Number(JsonNumber::PosInt(42)));

    let request = JsonRpcRequest {
        jsonrpc: "2.0".to_string(),
        id: Some(text("test-id")),
        method: "ping".to_string(),
        params: None,
    };
    let response = reply(server.handle_request(request));
    assert_eq!(response.id, text("test-id"));
}

#[test]
fn test_response_null_id_when_missing() {
    let mut server = McpServer::new();
    let request = JsonRpcRequest {
        jsonrpc: "2.0".to_string(),
        id: None,
        method: "ping".to_string(),
        params: None,
    };
    let response = reply(server.handle_request(request));
    assert_eq!(response.id, Json::Null);
}

fn symbol(id: i64, name: &str) -> adi_mcp::engine::SymbolEntry {
    adi_mcp::engine::SymbolEntry {
        id,
        name: name.to_string(),
        kind: "function".to_string(),
        file_path: "src/main.rs".to_string(),
        signature: Some(format!("fn {}()", name)),
        doc_comment: None,
    }
}

fn message_text(response: JsonRpcResponse) -> String {
    let result = response.result.expect("a result");
    let messages = items(field(&result, "messages"));
    str_of(field(field(&messages[0], "content"), "text")).to_string()
}

fn tool_text(response: JsonRpcResponse) -> String {
    let result = response.result.expect("a result");
    let content = items(field(&result, "content"));
    assert_eq!(str_of(field(&content[0], "type")), "text");
    str_of(field(&content[0], "text")).to_string()
}

fn call_tool(server: &mut McpServer, name: &str, arguments: Json) -> Step {
    server.handle_request(make_request(
        7,
        "tools/call",
        Some(obj(vec![("name", text(name)), ("arguments", arguments)])),
    ))
}

#[test]
fn nonexistent_method_is_not_found() {
    let mut server = McpServer::new();
    let response = reply(server.handle_request(make_request(3, "nonexistent", None)));
    assert_error(&response, -32601);
    assert_eq!(response.error.unwrap().message, "Method not found: nonexistent");
    assert!(response.result.is_none());
}

#[test]
fn tools_call_with_empty_params_is_invalid() {
    let mut server = McpServer::new();
    let response = reply(server.handle_request(make_request(1, "tools/call", Some(obj(vec![])))));
    assert_error(&response, -32602);
    assert_eq!(response.error.unwrap().message, "Missing tool name");
}

#[test]
fn search_limit_zero_is_one() {
    let mut server = McpServer::new();
    initialize(&mut server, "/tmp/project");
    let args = obj(vec![("query", text("parse")), ("limit", Json::Number(JsonNumber::PosInt(0)))]);
    let p = pending(call_tool(&mut server, "search", args));
    assert_eq!(p.call, EngineCall::Search { query: "parse".to_string(), limit: 1 });
}

#[test]
fn search_limit_above_hundred_is_hundred() {
    let mut server = McpServer::new();
    initialize(&mut server, "/tmp/project");
    let args = obj(vec![("query", text("parse")), ("limit", Json::Number(JsonNumber::PosInt(500)))]);
    let p = pending(call_tool(&mut server, "search", args));
    assert_eq!(p.call, EngineCall::Search { query: "parse".to_string(), limit: 100 });
}

#[test]
fn search_symbols_defaults() {
    let mut server = McpServer::new();
    initialize(&mut server, "/tmp/project");
    let p = pending(call_tool(&mut server, "search_symbols", obj(vec![])));
    assert_eq!(p.call, EngineCall::SearchSymbols { query: String::new(), limit: 10 });
}

#[test]
fn get_symbol_without_id_is_invalid() {
    let mut server = McpServer::new();
    initialize(&mut server, "/tmp/project");
    let response = reply(call_tool(&mut server, "get_symbol", obj(vec![])));
    assert_error(&response, -32602);
    assert_eq!(response.error.unwrap().message, "Missing symbol id");
    let response = reply(call_tool(&mut server, "get_file", obj(vec![])));
    assert_eq!(response.error.unwrap().message, "Missing file path");
}

#[test]
fn tool_result_wraps_rendered_text() {
    let mut server = McpServer::new();
    initialize(&mut server, "/tmp/project");
    let p = pending(call_tool(&mut server, "get_symbol", obj(vec![("id", Json::Number(JsonNumber::PosInt(9)))])));
    assert_eq!(p.call, EngineCall::GetSymbol { id: 9 });
    let response = reply(server.resume(p, EngineReply::Rendered("{\n  \"id\": 9\n}".to_string())));
    assert_eq!(response.id, Json::Number(JsonNumber::PosInt(7)));
    assert_eq!(tool_text(response), "{\n  \"id\": 9\n}");
}

#[test]
fn engine_failure_is_internal_error() {
    let mut server = McpServer::new();
    initialize(&mut server, "/tmp/project");
    let p = pending(call_tool(&mut server, "status", obj(vec![])));
    let response = reply(server.resume(p, EngineReply::Failed("index is locked".to_string())));
    assert_error(&response, -32603);
    assert_eq!(response.error.unwrap().message, "index is locked");
}

#[test]
fn index_summary_line() {
    let mut server = McpServer::new();
    initialize(&mut server, "/tmp/project");
    let p = pending(call_tool(&mut server, "index", obj(vec![])));
    assert_eq!(p.call, EngineCall::Index);
    let done = EngineReply::Indexed {
        files_processed: 12,
        symbols_indexed: 340,
        errors: vec!["a.rs: bad".to_string(), "b.rs: worse".to_string()],
    };
    let response = reply(server.resume(p, done));
    assert_eq!(tool_text(response), "Indexed 12 files with 340 symbols. Errors: a.rs: bad, b.rs: worse");

    let p = pending(call_tool(&mut server, "index", obj(vec![])));
    let clean = EngineReply::Indexed { files_processed: 0, symbols_indexed: 0, errors: vec![] };
    assert_eq!(tool_text(reply(server.resume(p, clean))), "Indexed 0 files with 0 symbols. Errors: none");
}

#[test]
fn initialize_survives_engine_failure() {
    let mut server = McpServer::new();
    let p = pending(server.handle_request(make_request(1, "initialize", None)));
    let response = reply(server.resume(p, EngineReply::Failed("no index".to_string())));
    assert_success(&response);
    assert!(!server.is_ready());
    let response = reply(call_tool(&mut server, "status", obj(vec![])));
    assert_error(&response, -32603);
    let response = reply(server.handle_request(make_request(2, "tools/list", None)));
    assert_success(&response);
}

#[test]
fn root_uri_without_scheme_is_kept() {
    let mut server = McpServer::new();
    let request = make_request(1, "initialize", Some(obj(vec![("rootUri", text("/srv/code"))])));
    let p = pending(server.handle_request(request));
    assert_eq!(p.call, EngineCall::Open { root: "/srv/code".to_string() });
    assert_eq!(server.project_path(), "/srv/code");
}

#[test]
fn subscribe_then_unsubscribe_leaves_none() {
    let mut server = McpServer::new();
    let params = || Some(obj(vec![("uri", text("adi://status"))]));
    assert_success(&reply(server.handle_request(make_request(1, "resources/subscribe", params()))));
    assert_success(&reply(server.handle_request(make_request(2, "resources/subscribe", params()))));
    assert_success(&reply(server.handle_request(make_request(3, "resources/unsubscribe", params()))));
    assert!(!server.is_subscribed("adi://status"));
    let response = reply(server.handle_request(make_request(4, "resources/unsubscribe", params())));
    assert_success(&response);
    assert_eq!(response.result.unwrap(), Json::Object(vec![]));
    assert!(!server.is_subscribed("adi://status"));
}

#[test]
fn subscribe_without_uri_is_invalid() {
    let mut server = McpServer::new();
    let response = reply(server.handle_request(make_request(1, "resources/subscribe", Some(obj(vec![])))));
    assert_error(&response, -32602);
    assert_eq!(response.error.unwrap().message, "Missing uri parameter");
}

#[test]
fn read_bogus_uri_after_initialization() {
    let mut server = McpServer::new();
    initialize(&mut server, "/tmp/project");
    let request = make_request(2, "resources/read", Some(obj(vec![("uri", text("adi://bogus"))])));
    let response = reply(server.handle_request(request));
    assert_error(&response, -32602);
    assert_eq!(response.error.unwrap().message, "Unknown resource URI: adi://bogus");
}

#[test]
fn read_before_initialization_is_internal_error() {
    let mut server = McpServer::new();
    let request = make_request(2, "resources/read", Some(obj(vec![("uri", text("adi://status"))])));
    assert_error(&reply(server.handle_request(request)), -32603);
}

#[test]
fn read_symbol_with_bad_id_is_invalid() {
    let mut server = McpServer::new();
    initialize(&mut server, "/tmp/project");
    let request = make_request(2, "resources/read", Some(obj(vec![("uri", text("adi://symbol/abc"))])));
    let response = reply(server.handle_request(request));
    assert_error(&response, -32602);
    assert_eq!(response.error.unwrap().message, "Invalid symbol ID");
    let request = make_request(3, "resources/read", Some(obj(vec![("uri", text("adi://symbol/-7"))])));
    let p = pending(server.handle_request(request));
    assert_eq!(p.call, EngineCall::GetSymbolResource { id: -7 });
}

#[test]
fn read_symbol_resource() {
    let mut server = McpServer::new();
    initialize(&mut server, "/tmp/project");
    let request = make_request(2, "resources/read", Some(obj(vec![("uri", text("adi://symbol/5"))])));
    let p = pending(server.handle_request(request));
    assert_eq!(p.call, EngineCall::GetSymbolResource { id: 5 });
    let body = "{\n  \"symbol\": {},\n  \"usage\": null\n}";
    let response = reply(server.resume(p, EngineReply::Rendered(body.to_string())));
    let result = response.result.unwrap();
    let contents = items(field(&result, "contents"));
    assert_eq!(str_of(field(&contents[0], "uri")), "adi://symbol/5");
    assert_eq!(str_of(field(&contents[0], "mimeType")), "application/json");
    assert_eq!(str_of(field(&contents[0], "text")), body);

    let request = make_request(3, "resources/read", Some(obj(vec![("uri", text("adi://symbol/6"))])));
    let p = pending(server.handle_request(request));
    let response = reply(server.resume(p, EngineReply::Failed("symbol not found".to_string())));
    assert_error(&response, -32603);
    assert_eq!(response.error.unwrap().message, "symbol not found");
}

fn rust_file_details() -> adi_mcp::engine::FileDetails {
    adi_mcp::engine::FileDetails {
        language: Language::Rust,
        language_name: "rust".to_string(),
        symbols: vec![symbol(1, "main"), symbol(2, "helper")],
        rendered: "{\n  \"file\": {}\n}".to_string(),
    }
}

#[test]
fn read_file_with_live_content() {
    let mut server = McpServer::new();
    initialize(&mut server, "/tmp/project");
    let request = make_request(2, "resources/read", Some(obj(vec![("uri", text("adi://file/src/main.rs"))])));
    let p = pending(server.handle_request(request));
    assert_eq!(p.call, EngineCall::GetFileResource { path: "src/main.rs".to_string() });
    let answer = EngineReply::FileResource {
        language: Language::Rust,
        rendered: "{}".to_string(),
        merged: Some("{\"content\":\"fn main() {}\",\"file\":{},\"symbols\":[]}".to_string()),
    };
    let response = reply(server.resume(p, answer));
    let result = response.result.unwrap();
    let contents = items(field(&result, "contents"));
    assert_eq!(str_of(field(&contents[0], "mimeType")), "text/x-rust");
    assert_eq!(
        str_of(field(&contents[0], "text")),
        "{\"content\":\"fn main() {}\",\"file\":{},\"symbols\":[]}"
    );
}

#[test]
fn read_file_without_live_content() {
    let mut server = McpServer::new();
    initialize(&mut server, "/tmp/project");
    let request = make_request(2, "resources/read", Some(obj(vec![("uri", text("adi://file/notes.md"))])));
    let p = pending(server.handle_request(request));
    let answer = EngineReply::FileResource {
        language: Language::Markdown,
        rendered: "{\n  \"file\": {}\n}".to_string(),
        merged: None,
    };
    let response = reply(server.resume(p, answer));
    let result = response.result.unwrap();
    let contents = items(field(&result, "contents"));
    assert_eq!(str_of(field(&contents[0], "mimeType")), "text/markdown");
    assert_eq!(str_of(field(&contents[0], "text")), "{\n  \"file\": {}\n}");
}

#[test]
fn resource_listing_describes_files() {
    let mut server = McpServer::new();
    initialize(&mut server, "/tmp/project");
    let p = pending(server.handle_request(make_request(2, "resources/list", None)));
    let mut files = vec![source_file()];
    files.push(FileEntry {
        path: "notes".to_string(),
        file_name: None,
        language: Language::Other,
        language_name: "unknown".to_string(),
        symbol_count: 0,
    });
    let response = reply(server.resume(p, EngineReply::Tree { files, rendered: String::new() }));
    let result = response.result.unwrap();
    let resources = items(field(&result, "resources"));
    assert_eq!(resources.len(), 5);
    assert_eq!(str_of(field(&resources[3], "uri")), "adi://file/src/main.rs");
    assert_eq!(str_of(field(&resources[3], "name")), "main.rs");
    assert_eq!(str_of(field(&resources[3], "description")), "rust file with 4 symbols");
    assert_eq!(str_of(field(&resources[3], "mimeType")), "text/x-rust");
    assert_eq!(str_of(field(&resources[4], "name")), "notes");
    assert_eq!(str_of(field(&resources[4], "mimeType")), "text/plain");
}

#[test]
fn resource_listing_caps_files_at_hundred() {
    let mut server = McpServer::new();
    initialize(&mut server, "/tmp/project");
    let p = pending(server.handle_request(make_request(2, "resources/list", None)));
    let files: Vec<FileEntry> = (0..150).map(|_| source_file()).collect();
    let response = reply(server.resume(p, EngineReply::Tree { files, rendered: String::new() }));
    let result = response.result.unwrap();
    assert_eq!(items(field(&result, "resources")).len(), 103);

    let p = pending(server.handle_request(make_request(3, "resources/list", None)));
    let response = reply(server.resume(p, EngineReply::Failed("no tree".to_string())));
    let result = response.result.unwrap();
    assert_eq!(items(field(&result, "resources")).len(), 3);
}

#[test]
fn completion_focus_sec_is_security_only() {
    let mut server = McpServer::new();
    initialize(&mut server, "/tmp/project");
    let response = reply(server.handle_request(completion_request(2, "code_review", "focus", "sec")));
    let result = response.result.unwrap();
    assert_eq!(
        result,
        obj(vec![(
            "completion",
            obj(vec![("values", Json::Array(vec![text("security")])), ("hasMore", Json::Bool(false))])
        )])
    );
}

#[test]
fn completion_file_paths_filtered_and_capped() {
    let mut server = McpServer::new();
    initialize(&mut server, "/tmp/project");
    let p = pending(server.handle_request(completion_request(2, "code_review", "file_path", "main")));
    assert_eq!(p.call, EngineCall::GetTree);
    let mut files: Vec<FileEntry> = (0..30).map(|_| source_file()).collect();
    files.insert(0, FileEntry { path: "lib.rs".to_string(), ..source_file() });
    let response = reply(server.resume(p, EngineReply::Tree { files, rendered: String::new() }));
    let result = response.result.unwrap();
    let values = items(field(field(&result, "completion"), "values"));
    assert_eq!(values.len(), 20);
    assert!(values.iter().all(|v| str_of(v) == "src/main.rs"));
}

#[test]
fn completion_symbol_names() {
    let mut server = McpServer::new();
    initialize(&mut server, "/tmp/project");
    let response = reply(server.handle_request(completion_request(2, "explain_symbol", "symbol_name", "")));
    let result = response.result.unwrap();
    assert_eq!(field(field(&result, "completion"), "values"), &Json::Array(vec![]));

    let p = pending(server.handle_request(completion_request(3, "explain_symbol", "symbol_name", "hel")));
    assert_eq!(p.call, EngineCall::SearchSymbols { query: "hel".to_string(), limit: 20 });
    let found = EngineReply::Symbols { entries: vec![symbol(2, "helper"), symbol(3, "help")], rendered: String::new() };
    let response = reply(server.resume(p, found));
    let result = response.result.unwrap();
    assert_eq!(
        field(field(&result, "completion"), "values"),
        &Json::Array(vec![text("helper"), text("help")])
    );
}

#[test]
fn parse_error_has_null_id() {
    let response = JsonRpcResponse::parse_error("key must be a string at line 1 column 2");
    assert_eq!(response.jsonrpc, "2.0");
    assert_eq!(response.id, Json::Null);
    assert!(response.result.is_none());
    let error = response.error.unwrap();
    assert_eq!(error.code, -32700);
    assert_eq!(error.message, "Parse error: key must be a string at line 1 column 2");
}

#[test]
fn blank_lines_are_recognised() {
    assert!(is_blank_line(""));
    assert!(is_blank_line(" \t \r"));
    assert!(is_blank_line("\u{a0}\u{3000}"));
    assert!(!is_blank_line("{not json"));
    assert!(!is_blank_line("  x "));
}

#[test]
fn explain_symbol_asks_usage_of_first_three() {
    let mut server = McpServer::new();
    initialize(&mut server, "/tmp/project");
    let request = make_request(
        2,
        "prompts/get",
        Some(obj(vec![("name", text("explain_symbol")), ("arguments", obj(vec![("symbol_name", text("run"))]))])),
    );
    let p = pending(server.handle_request(request));
    assert_eq!(p.call, EngineCall::FindSymbolsByName { name: "run".to_string() });
    let found = EngineReply::Symbols {
        entries: vec![symbol(1, "run"), symbol(2, "run"), symbol(3, "run"), symbol(4, "run")],
        rendered: String::new(),
    };
    let p = pending(server.resume(p, found));
    assert_eq!(p.call, EngineCall::GetSymbolUsage { id: 1 });
    let usage = adi_mcp::engine::UsageDetails {
        reference_count: 1,
        callers: vec![symbol(8, "main")],
        callees: vec![symbol(9, "step"), symbol(10, "stop")],
        rendered: String::new(),
    };
    let p = pending(server.resume(p, EngineReply::Usage(usage)));
    assert_eq!(p.call, EngineCall::GetSymbolUsage { id: 2 });
    let p = pending(server.resume(p, EngineReply::Failed("missing".to_string())));
    assert_eq!(p.call, EngineCall::GetSymbolUsage { id: 3 });
    let response = reply(server.resume(p, EngineReply::Failed("missing".to_string())));
    assert_eq!(
        message_text(response),
        "Please explain what 'run' does and how it's used in this codebase.\n\nContext from code index:\n\
         Symbol: run (function)\nFile: src/main.rs\nSignature: fn run()\nDoc: N/A\nCallers: main\nCallees: step, stop"
    );
}

#[test]
fn explain_symbol_without_match() {
    let mut server = McpServer::new();
    initialize(&mut server, "/tmp/project");
    let request = make_request(
        2,
        "prompts/get",
        Some(obj(vec![("name", text("explain_symbol")), ("arguments", obj(vec![("symbol_name", text("zz"))]))])),
    );
    let p = pending(server.handle_request(request));
    let response = reply(server.resume(p, EngineReply::Failed("none".to_string())));
    assert!(message_text(response).ends_with("No symbol found with name: zz"));
}

#[test]
fn analyze_dependencies_callers_only() {
    let mut server = McpServer::new();
    initialize(&mut server, "/tmp/project");
    let request = make_request(
        2,
        "prompts/get",
        Some(obj(vec![
            ("name", text("analyze_dependencies")),
            ("arguments", obj(vec![("target", text("helper")), ("direction", text("callers"))])),
        ])),
    );
    let p = pending(server.handle_request(request));
    let p = pending(server.resume(p, EngineReply::Symbols { entries: vec![symbol(2, "helper")], rendered: String::new() }));
    assert_eq!(p.call, EngineCall::GetCallers { id: 2 });
    let callers = EngineReply::Symbols { entries: vec![symbol(1, "main")], rendered: String::new() };
    let response = reply(server.resume(p, callers));
    assert_eq!(
        message_text(response),
        "Analyze the dependency graph for 'helper' (direction: callers).\n\nDependency Information:\n\
         Symbol: helper (function)\nFile: src/main.rs\nCallers (1):\n  - main (src/main.rs)\n\nCallees (0):\nN/A"
    );
}

#[test]
fn analyze_dependencies_both_directions() {
    let mut server = McpServer::new();
    initialize(&mut server, "/tmp/project");
    let request = make_request(
        2,
        "prompts/get",
        Some(obj(vec![("name", text("analyze_dependencies")), ("arguments", obj(vec![("target", text("helper"))]))])),
    );
    let p = pending(server.handle_request(request));
    let p = pending(server.resume(p, EngineReply::Symbols { entries: vec![symbol(2, "helper")], rendered: String::new() }));
    assert_eq!(p.call, EngineCall::GetCallers { id: 2 });
    let p = pending(server.resume(p, EngineReply::Failed("x".to_string())));
    assert_eq!(p.call, EngineCall::GetCallees { id: 2 });
    let response = reply(server.resume(p, EngineReply::Symbols { entries: vec![], rendered: String::new() }));
    assert!(message_text(response).ends_with("Callers (0):\nN/A\n\nCallees (0):\n"));
}

#[test]
fn code_review_prompt_with_content() {
    let mut server = McpServer::new();
    initialize(&mut server, "/tmp/project");
    let request = make_request(
        2,
        "prompts/get",
        Some(obj(vec![("name", text("code_review")), ("arguments", obj(vec![("file_path", text("src/main.rs"))]))])),
    );
    let p = pending(server.handle_request(request));
    assert_eq!(p.call, EngineCall::GetFile { path: "src/main.rs".to_string() });
    let p = pending(server.resume(p, EngineReply::File(rust_file_details())));
    assert_eq!(p.call, EngineCall::ReadFile { path: "src/main.rs".to_string() });
    let response = reply(server.resume(p, EngineReply::FileText(Some("fn main() {}".to_string()))));
    let result = response.result.unwrap();
    assert_eq!(
        str_of(field(&result, "description")),
        "Code review with focus on quality, bugs, and improvements"
    );
    let messages = items(field(&result, "messages"));
    assert_eq!(
        str_of(field(field(&messages[0], "content"), "text")),
        "Please review the following code with a focus on general.\n\n\
         File: src/main.rs\nLanguage: rust\nSymbols: main (function), helper (function)\n\
         \n\nCode:\n```\nfn main() {}\n```\n\nProvide specific, actionable feedback."
    );
}

#[test]
fn summarize_file_without_engine_knowledge() {
    let mut server = McpServer::new();
    initialize(&mut server, "/tmp/project");
    let request = make_request(
        2,
        "prompts/get",
        Some(obj(vec![("name", text("summarize_file")), ("arguments", obj(vec![("file_path", text("x.txt"))]))])),
    );
    let p = pending(server.handle_request(request));
    let p = pending(server.resume(p, EngineReply::Failed("not indexed".to_string())));
    let response = reply(server.resume(p, EngineReply::FileText(None)));
    assert_eq!(
        message_text(response),
        "Please summarize the purpose and contents of this file.\n\nFile: x.txt\nLanguage: unknown\n\n\
         Symbols:\n\n\nCode:\n```\n[Content not available]\n```"
    );
}

#[test]
fn refactor_suggestions_counts_usage() {
    let mut server = McpServer::new();
    initialize(&mut server, "/tmp/project");
    let request = make_request(
        2,
        "prompts/get",
        Some(obj(vec![("name", text("refactor_suggestions")), ("arguments", obj(vec![("target", text("helper"))]))])),
    );
    let p = pending(server.handle_request(request));
    let p = pending(server.resume(p, EngineReply::Symbols { entries: vec![symbol(2, "helper")], rendered: String::new() }));
    assert_eq!(p.call, EngineCall::GetSymbolUsage { id: 2 });
    let usage = adi_mcp::engine::UsageDetails {
        reference_count: 5,
        callers: vec![symbol(1, "main")],
        callees: vec![],
        rendered: String::new(),
    };
    let response = reply(server.resume(p, EngineReply::Usage(usage)));
    assert_eq!(
        message_text(response),
        "Suggest refactoring opportunities for 'helper'.\n\nContext:\n\
         Symbol: helper (function)\nFile: src/main.rs\nReferences: 5\nCallers: 1\nCallees: 0"
    );
}

#[test]
fn architecture_overview_groups_languages() {
    let mut server = McpServer::new();
    initialize(&mut server, "/tmp/project");
    let request = make_request(
        2,
        "prompts/get",
        Some(obj(vec![("name", text("architecture_overview"))])),
    );
    let p = pending(server.handle_request(request));
    let python = FileEntry {
        path: "a.py".to_string(),
        file_name: Some("a.py".to_string()),
        language: Language::Python,
        language_name: "python".to_string(),
        symbol_count: 1,
    };
    let files = vec![source_file(), python, source_file()];
    let p = pending(server.resume(p, EngineReply::Tree { files, rendered: String::new() }));
    let status = EngineReply::Status { indexed_files: 3, indexed_symbols: 9, rendered: String::new() };
    let response = reply(server.resume(p, status));
    assert_eq!(
        message_text(response),
        "Generate an architecture overview for this project based on the indexed structure.\n\n\
         Project Statistics:\n- Total files: 3\n- Total symbols: 9\n\nFiles by language:\n\
         - rust: 2 files\n- python: 1 files"
    );

    let p = pending(server.handle_request(make_request(3, "prompts/get", Some(obj(vec![("name", text("architecture_overview"))])))));
    let p = pending(server.resume(p, EngineReply::Failed("no tree".to_string())));
    let response = reply(server.resume(p, EngineReply::Failed("no status".to_string())));
    assert!(message_text(response).ends_with("No index available. Run the 'index' tool first."));
}

#[test]
fn prompts_get_before_initialization_is_internal_error() {
    let mut server = McpServer::new();
    let request = make_request(2, "prompts/get", Some(obj(vec![("name", text("find_similar"))])));
    assert_error(&reply(server.handle_request(request)), -32603);
}

#[test]
fn mime_types_by_language() {
    assert_eq!(language_to_mime(&Language::Cpp), "text/x-c++");
    assert_eq!(language_to_mime(&Language::Bash), "text/x-shellscript");
    assert_eq!(language_to_mime(&Language::Markdown), "text/markdown");
    assert_eq!(language_to_mime(&Language::Other), "text/plain");
}

#[test]
fn malformed_line_then_next_line() {
    let mut server = McpServer::new();
    assert_success(&reply(server.handle_request(make_request(
        1,
        "resources/subscribe",
        Some(obj(vec![("uri", text("adi://tree"))])),
    ))));
    let response = reply(server.handle_line(Err("key must be a string at line 1 column 2".to_string())));
    assert_eq!(response.id, Json::Null);
    assert_error(&response, -32700);
    assert!(server.is_subscribed("adi://tree"));
    let response = reply(server.handle_line(Ok(make_request(2, "ping", None))));
    assert_success(&response);
    assert_eq!(response.id, Json::Number(JsonNumber::PosInt(2)));
}

#[test]
fn second_initialize_without_root_uri_resets_root() {
    let mut server = McpServer::new();
    initialize(&mut server, "/tmp/project");
    assert_eq!(server.project_path(), "/tmp/project");
    let p = pending(server.handle_request(make_request(2, "initialize", None)));
    assert_eq!(p.call, EngineCall::Open { root: ".".to_string() });
    assert_eq!(server.project_path(), ".");
    assert_success(&reply(server.resume(p, EngineReply::Failed("no index".to_string()))));
    assert!(server.is_ready());
}

#[test]
fn engine_errors_carry_no_data() {
    let mut server = McpServer::new();
    initialize(&mut server, "/tmp/project");
    let p = pending(call_tool(&mut server, "get_tree", obj(vec![])));
    let response = reply(server.resume(p, EngineReply::Failed("broken".to_string())));
    let error = response.error.unwrap();
    assert_eq!(error.code, -32603);
    assert!(error.data.is_none());
}

#[test]
fn search_catalog_limit_bounds() {
    let mut server = McpServer::new();
    let response = reply(server.handle_request(make_request(1, "tools/list", None)));
    let result = response.result.unwrap();
    let tools = items(field(&result, "tools"));
    assert_eq!(tools.len(), 11);
    let limit = field(field(field(&tools[0], "inputSchema"), "properties"), "limit");
    assert_eq!(field(limit, "minimum"), &Json::Number(JsonNumber::PosInt(1)));
    assert_eq!(field(limit, "maximum"), &Json::Number(JsonNumber::PosInt(100)));
    assert_eq!(field(limit, "default"), &Json::Number(JsonNumber::PosInt(10)));
}
