use vstd::prelude::*;
use crate::engine::{CallView, EngineCall, EngineReply, rendered_of, take_rendered};
use crate::json::{Json, JsonView, NumberView, array1, entry, object1, object2, object3};
use crate::rpc::{INTERNAL_ERROR, INVALID_PARAMS, JsonRpcError, bare, outcome};
use crate::text::{cat, decimal, decimal_text, join, joined, owned, same_text};

verus! {

/// The `limit` argument, 10 where it is absent or not an unsigned integer.
pub open spec fn limit_arg(args: JsonView) -> u64 {
    match args.get("limit"@) {
        Some(v) => match v.as_u64() {
            Some(n) => n,
            None => 10,
        },
        None => 10,
    }
}

/// The `id` argument, where it is a signed integer.
pub open spec fn id_arg(args: JsonView) -> Option<i64> {
    match args.get("id"@) {
        Some(v) => v.as_i64(),
        None => None,
    }
}

/// `n` brought into the range from 1 to 100.
pub open spec fn clamp_limit(n: u64) -> u64 {
    if n < 1 {
        1
    } else if n > 100 {
        100
    } else {
        n
    }
}

/// What a call of a tool comes to before the engine is asked.
pub enum ToolPlan {
    Call(CallView),
    MissingId,
    MissingPath,
    Unknown,
}

/// The plan for the tool `name` with the arguments `args`.
pub open spec fn tool_plan(name: Seq<char>, args: JsonView) -> ToolPlan {
    let query = args.text_or("query"@, ""@);
    let limit = limit_arg(args);
    if name == "search"@ {
        ToolPlan::Call(CallView::Search { query, limit: clamp_limit(limit) })
    } else if name == "search_symbols"@ {
        ToolPlan::Call(CallView::SearchSymbols { query, limit })
    } else if name == "search_files"@ {
        ToolPlan::Call(CallView::SearchFiles { query, limit })
    } else if name == "get_symbol"@ || name == "get_callers"@ || name == "get_callees"@ || name
        == "get_symbol_usage"@ {
        match id_arg(args) {
            Some(id) => ToolPlan::Call(
                if name == "get_symbol"@ {
                    CallView::GetSymbol { id }
                } else if name == "get_callers"@ {
                    CallView::GetCallers { id }
                } else if name == "get_callees"@ {
                    CallView::GetCallees { id }
                } else {
                    CallView::GetSymbolUsage { id }
                },
            ),
            None => ToolPlan::MissingId,
        }
    } else if name == "get_file"@ {
        match args.text_at("path"@) {
            Some(path) => ToolPlan::Call(CallView::GetFile { path }),
            None => ToolPlan::MissingPath,
        }
    } else if name == "get_tree"@ {
        ToolPlan::Call(CallView::GetTree)
    } else if name == "index"@ {
        ToolPlan::Call(CallView::Index)
    } else if name == "status"@ {
        ToolPlan::Call(CallView::Status)
    } else {
        ToolPlan::Unknown
    }
}

/// The error that a plan without a call comes to.
pub open spec fn plan_error(name: Seq<char>, plan: ToolPlan) -> (i32, Seq<char>) {
    match plan {
        ToolPlan::MissingId => (INVALID_PARAMS, "Missing symbol id"@),
        ToolPlan::MissingPath => (INVALID_PARAMS, "Missing file path"@),
        _ => (INVALID_PARAMS, "Unknown tool: "@ + name),
    }
}

/// The engine call for the tool `name` with the arguments `args`, or the error that
/// keeps it from being made.
pub fn plan_tool_call(name: &str, args: &Json) -> (r: Result<EngineCall, JsonRpcError>)
    ensures
        match tool_plan(name@, args@) {
            ToolPlan::Call(c) => r matches Ok(call) && call@ == c,
            plan => r matches Err(e) && (e.code, e.message@) == plan_error(name@, plan),
        },
        r matches Err(e) ==> e.data is None,
{
    let query = match args.text_at("query") {
        Some(q) => owned(q),
        None => owned(""),
    };
    let limit: u64 = match args.get("limit") {
        Some(v) => match v.as_u64() {
            Some(n) => n,
            None => 10,
        },
        None => 10,
    };
    let id: Option<i64> = match args.get("id") {
        Some(v) => v.as_i64(),
        None => None,
    };
    if same_text(name, "search") {
        let limit = if limit < 1 {
            1
        } else if limit > 100 {
            100
        } else {
            limit
        };
        Ok(EngineCall::Search { query, limit })
    } else if same_text(name, "search_symbols") {
        Ok(EngineCall::SearchSymbols { query, limit })
    } else if same_text(name, "search_files") {
        Ok(EngineCall::SearchFiles { query, limit })
    } else if same_text(name, "get_symbol") || same_text(name, "get_callers") || same_text(
        name,
        "get_callees",
    ) || same_text(name, "get_symbol_usage") {
        match id {
            Some(id) => {
                if same_text(name, "get_symbol") {
                    Ok(EngineCall::GetSymbol { id })
                } else if same_text(name, "get_callers") {
                    Ok(EngineCall::GetCallers { id })
                } else if same_text(name, "get_callees") {
                    Ok(EngineCall::GetCallees { id })
                } else {
                    Ok(EngineCall::GetSymbolUsage { id })
                }
            },
            None => Err(JsonRpcError::new(INVALID_PARAMS, owned("Missing symbol id"))),
        }
    } else if same_text(name, "get_file") {
        match args.text_at("path") {
            Some(path) => Ok(EngineCall::GetFile { path: owned(path) }),
            None => Err(JsonRpcError::new(INVALID_PARAMS, owned("Missing file path"))),
        }
    } else if same_text(name, "get_tree") {
        Ok(EngineCall::GetTree)
    } else if same_text(name, "index") {
        Ok(EngineCall::Index)
    } else if same_text(name, "status") {
        Ok(EngineCall::Status)
    } else {
        Err(JsonRpcError::with_detail(INVALID_PARAMS, "Unknown tool: ", name))
    }
}

/// The canonical tool result: one text content item holding `text`.
pub open spec fn text_content(text: Seq<char>) -> JsonView {
    JsonView::Object(
        seq![
            (
                "content"@,
                JsonView::Array(
                    seq![
                        JsonView::Object(
                            seq![("type"@, JsonView::Str("text"@)), ("text"@, JsonView::Str(text))],
                        ),
                    ],
                ),
            ),
        ],
    )
}

/// The canonical tool result holding `text`.
pub fn tool_result(text: &str) -> (r: Json)
    ensures
        r@ == text_content(text@),
{
    object1("content", array1(object2("type", Json::text("text"), "text", Json::text(text))))
}

/// The summary line of an indexing run.
pub open spec fn index_summary(files: u64, symbols: u64, errors: Seq<Seq<char>>) -> Seq<char> {
    "Indexed "@ + decimal(files as nat) + " files with "@ + decimal(symbols as nat)
        + " symbols. Errors: "@ + if errors.len() == 0 {
        "none"@
    } else {
        joined(errors, ", "@)
    }
}

/// The outcome of a tool call, given the engine's reply: `summary` tells the indexing
/// tool, whose result is a summary line, from the others, whose result is the engine's
/// rendered answer.
pub open spec fn tool_outcome(summary: bool, reply: EngineReply) -> Result<JsonView, (i32, Seq<char>)> {
    match reply {
        EngineReply::Failed(m) => Err((INTERNAL_ERROR, m@)),
        EngineReply::Indexed { files_processed, symbols_indexed, errors } => if summary {
            Ok(
                text_content(
                    index_summary(
                        files_processed,
                        symbols_indexed,
                        errors@.map_values(|e: String| e@),
                    ),
                ),
            )
        } else {
            Err((INTERNAL_ERROR, "Unexpected engine reply"@))
        },
        _ => if !summary && rendered_of(reply) is Some {
            Ok(text_content(rendered_of(reply)->0))
        } else {
            Err((INTERNAL_ERROR, "Unexpected engine reply"@))
        },
    }
}

/// The result of a tool call, given the engine's reply.
pub fn tool_output(summary: bool, reply: EngineReply) -> (r: Result<Json, JsonRpcError>)
    ensures
        outcome(r) == tool_outcome(summary, reply),
        bare(r),
{
    match reply {
        EngineReply::Failed(m) => Err(JsonRpcError::new(INTERNAL_ERROR, m)),
        EngineReply::Indexed { files_processed, symbols_indexed, errors } => {
            if summary {
                let mut line = cat(owned("Indexed "), decimal_text(files_processed).as_str());
                line = cat(line, " files with ");
                line = cat(line, decimal_text(symbols_indexed).as_str());
                line = cat(line, " symbols. Errors: ");
                if errors.len() == 0 {
                    line = cat(line, "none");
                } else {
                    line = cat(line, join(&errors, ", ").as_str());
                }
                Ok(tool_result(line.as_str()))
            } else {
                Err(JsonRpcError::new(INTERNAL_ERROR, owned("Unexpected engine reply")))
            }
        },
        other => {
            if summary {
                Err(JsonRpcError::new(INTERNAL_ERROR, owned("Unexpected engine reply")))
            } else {
                match take_rendered(other) {
                    Some(text) => Ok(tool_result(text.as_str())),
                    None => Err(JsonRpcError::new(INTERNAL_ERROR, owned("Unexpected engine reply"))),
                }
            }
        },
    }
}

/// A property of an input schema with a type and a description.
pub open spec fn described_property(ty: Seq<char>, description: Seq<char>) -> JsonView {
    JsonView::Object(seq![("type"@, JsonView::Str(ty)), ("description"@, JsonView::Str(description))])
}

/// An integer property that defaults to 10.
pub open spec fn default_limit_view() -> JsonView {
    JsonView::Object(
        seq![
            ("type"@, JsonView::Str("integer"@)),
            ("default"@, JsonView::Number(NumberView::PosInt(10))),
        ],
    )
}

/// The limit property of `search`: an integer from 1 to 100, 10 by default.
pub open spec fn bounded_limit_view() -> JsonView {
    JsonView::Object(
        seq![
            ("type"@, JsonView::Str("integer"@)),
            ("description"@, JsonView::Str("Maximum number of results (1-100)"@)),
            ("default"@, JsonView::Number(NumberView::PosInt(10))),
            ("minimum"@, JsonView::Number(NumberView::PosInt(1))),
            ("maximum"@, JsonView::Number(NumberView::PosInt(100))),
        ],
    )
}

/// An object schema with `properties`, of which `required` must be given.
pub open spec fn schema_view(properties: JsonView, required: Seq<char>) -> JsonView {
    JsonView::Object(
        seq![
            ("type"@, JsonView::Str("object"@)),
            ("properties"@, properties),
            ("required"@, JsonView::Array(seq![JsonView::Str(required)])),
        ],
    )
}

/// An object schema without properties.
pub open spec fn no_input_view() -> JsonView {
    JsonView::Object(
        seq![("type"@, JsonView::Str("object"@)), ("properties"@, JsonView::Object(Seq::empty()))],
    )
}

/// A schema of a required query and an optional limit.
pub open spec fn query_schema_view(query_description: Seq<char>) -> JsonView {
    schema_view(
        JsonView::Object(
            seq![
                ("query"@, described_property("string"@, query_description)),
                ("limit"@, default_limit_view()),
            ],
        ),
        "query"@,
    )
}

/// A schema of one required symbol id.
pub open spec fn id_schema_view(id_description: Seq<char>) -> JsonView {
    schema_view(
        JsonView::Object(seq![("id"@, described_property("integer"@, id_description))]),
        "id"@,
    )
}

/// A catalog entry.
pub open spec fn tool_view(name: Seq<char>, description: Seq<char>, input: JsonView) -> JsonView {
    JsonView::Object(
        seq![
            ("name"@, JsonView::Str(name)),
            ("description"@, JsonView::Str(description)),
            ("inputSchema"@, input),
        ],
    )
}

/// The catalog of the eleven tools.
pub open spec fn tools_catalog_view() -> JsonView {
    JsonView::Object(seq![("tools"@, JsonView::Array(tool_entries()))])
}

/// The entries of the tool catalog, in order.
pub open spec fn tool_entries() -> Seq<JsonView> {
    seq![
        tool_view(
            "search"@,
            "Semantic search for code symbols using natural language. Returns symbols ranked by relevance."@,
            schema_view(
                JsonView::Object(
                    seq![
                        ("query"@, described_property("string"@, "Natural language search query (e.g., 'function that handles user authentication')"@)),
                        ("limit"@, bounded_limit_view()),
                    ],
                ),
                "query"@,
            ),
        ),
        tool_view(
            "search_symbols"@,
            "Full-text search for symbols by name. Use for finding specific functions, classes, or variables."@,
            query_schema_view("Symbol name to search (supports partial matching)"@),
        ),
        tool_view(
            "search_files"@,
            "Full-text search for files by path or name."@,
            query_schema_view("File path or name pattern"@),
        ),
        tool_view(
            "get_symbol"@,
            "Get detailed information about a specific symbol by its ID."@,
            id_schema_view("Symbol ID (from search results)"@),
        ),
        tool_view(
            "get_file"@,
            "Get file information including all symbols defined in it."@,
            schema_view(JsonView::Object(seq![("path"@, described_property("string"@, "File path relative to project root"@))]), "path"@),
        ),
        tool_view(
            "get_callers"@,
            "Find all symbols that call/reference a given symbol."@,
            id_schema_view("Symbol ID to find callers for"@),
        ),
        tool_view(
            "get_callees"@,
            "Find all symbols that a given symbol calls/references."@,
            id_schema_view("Symbol ID to find callees for"@),
        ),
        tool_view(
            "get_symbol_usage"@,
            "Get complete usage statistics for a symbol including reference count, callers, and callees."@,
            id_schema_view("Symbol ID"@),
        ),
        tool_view(
            "get_tree"@,
            "Get the complete project structure as a hierarchical tree of files and symbols."@,
            no_input_view(),
        ),
        tool_view(
            "index"@,
            "Index or re-index the project. Parses all source files and generates embeddings."@,
            no_input_view(),
        ),
        tool_view(
            "status"@,
            "Get current indexing status including file/symbol counts and storage size."@,
            no_input_view(),
        ),
    ]
}

fn string_property(description: &str) -> (r: Json)
    ensures
        r@ == described_property("string"@, description@),
{
    object2("type", Json::text("string"), "description", Json::text(description))
}

fn integer_property(description: &str) -> (r: Json)
    ensures
        r@ == described_property("integer"@, description@),
{
    object2("type", Json::text("integer"), "description", Json::text(description))
}

fn bounded_limit_property() -> (r: Json)
    ensures
        r@ == bounded_limit_view(),
{
    let mut e: Vec<(String, Json)> = Vec::new();
    e.push(entry("type", Json::text("integer")));
    e.push(entry("description", Json::text("Maximum number of results (1-100)")));
    e.push(entry("default", Json::unsigned(10)));
    e.push(entry("minimum", Json::unsigned(1)));
    e.push(entry("maximum", Json::unsigned(100)));
    let r = Json::object(e);
    assert(crate::json::entry_views(e@) =~= bounded_limit_view()->Object_0);
    r
}

fn schema(properties: Json, required: &str) -> (r: Json)
    ensures
        r@ == schema_view(properties@, required@),
{
    object3(
        "type",
        Json::text("object"),
        "properties",
        properties,
        "required",
        array1(Json::text(required)),
    )
}

fn no_input() -> (r: Json)
    ensures
        r@ == no_input_view(),
{
    object2("type", Json::text("object"), "properties", Json::empty_object())
}

fn query_schema(query_description: &str) -> (r: Json)
    ensures
        r@ == query_schema_view(query_description@),
{
    schema(
        object2(
            "query",
            string_property(query_description),
            "limit",
            object2("type", Json::text("integer"), "default", Json::unsigned(10)),
        ),
        "query",
    )
}

fn id_schema(id_description: &str) -> (r: Json)
    ensures
        r@ == id_schema_view(id_description@),
{
    schema(object1("id", integer_property(id_description)), "id")
}

fn tool(name: &str, description: &str, input: Json) -> (r: Json)
    ensures
        r@ == tool_view(name@, description@, input@),
{
    object3("name", Json::text(name), "description", Json::text(description), "inputSchema", input)
}

/// The catalog of tools, with each tool's description and input schema.
pub fn tools_catalog() -> (r: Json)
    ensures
        r@ == tools_catalog_view(),
{
    let mut tools: Vec<Json> = Vec::new();
    tools.push(
        tool(
            "search",
            "Semantic search for code symbols using natural language. Returns symbols ranked by relevance.",
            schema(
            object2(
                "query",
                string_property(
                    "Natural language search query (e.g., 'function that handles user authentication')",
                ),
                "limit",
                bounded_limit_property(),
            ),
            "query",
        ),
        ),
    );
    tools.push(
        tool(
            "search_symbols",
            "Full-text search for symbols by name. Use for finding specific functions, classes, or variables.",
            query_schema("Symbol name to search (supports partial matching)"),
        ),
    );
    tools.push(
        tool(
            "search_files",
            "Full-text search for files by path or name.",
            query_schema("File path or name pattern"),
        ),
    );
    tools.push(
        tool(
            "get_symbol",
            "Get detailed information about a specific symbol by its ID.",
            id_schema("Symbol ID (from search results)"),
        ),
    );
    tools.push(
        tool(
            "get_file",
            "Get file information including all symbols defined in it.",
            schema(object1("path", string_property("File path relative to project root")), "path"),
        ),
    );
    tools.push(
        tool(
            "get_callers",
            "Find all symbols that call/reference a given symbol.",
            id_schema("Symbol ID to find callers for"),
        ),
    );
    tools.push(
        tool(
            "get_callees",
            "Find all symbols that a given symbol calls/references.",
            id_schema("Symbol ID to find callees for"),
        ),
    );
    tools.push(
        tool(
            "get_symbol_usage",
            "Get complete usage statistics for a symbol including reference count, callers, and callees.",
            id_schema("Symbol ID"),
        ),
    );
    tools.push(
        tool(
            "get_tree",
            "Get the complete project structure as a hierarchical tree of files and symbols.",
            no_input(),
        ),
    );
    tools.push(
        tool(
            "index",
            "Index or re-index the project. Parses all source files and generates embeddings.",
            no_input(),
        ),
    );
    tools.push(
        tool(
            "status",
            "Get current indexing status including file/symbol counts and storage size.",
            no_input(),
        ),
    );
    assert(crate::json::views(tools@) =~= tool_entries());
    object1("tools", Json::array(tools))
}

} // verus!
