use vstd::prelude::*;
use crate::engine::{FileDetails, FileEntry, SymbolEntry, UsageDetails};
use crate::json::{Json, JsonView, array1, object1, object2, object3, views};
use crate::text::{cat, decimal, decimal_text, join, joined, owned, same_text};

verus! {

/// An argument of a prompt template.
pub open spec fn argument_view(name: Seq<char>, description: Seq<char>, required: bool) -> JsonView {
    JsonView::Object(
        seq![
            ("name"@, JsonView::Str(name)),
            ("description"@, JsonView::Str(description)),
            ("required"@, JsonView::Bool(required)),
        ],
    )
}

/// A catalog entry for a prompt template.
pub open spec fn prompt_entry_view(name: Seq<char>, description: Seq<char>, arguments: Seq<JsonView>) -> JsonView {
    JsonView::Object(
        seq![
            ("name"@, JsonView::Str(name)),
            ("description"@, JsonView::Str(description)),
            ("arguments"@, JsonView::Array(arguments)),
        ],
    )
}

/// The entries of the prompt catalog, in order.
pub open spec fn prompt_entries() -> Seq<JsonView> {
    seq![
        prompt_entry_view(
            "code_review"@,
            "Review code in a file for quality, bugs, and improvements"@,
            seq![argument_view("file_path"@, "Path to the file to review (relative to project root)"@, true), argument_view("focus"@, "Specific aspect to focus on (security, performance, style, bugs)"@, false), ],
        ),
        prompt_entry_view(
            "explain_symbol"@,
            "Explain what a symbol does and how it's used in the codebase"@,
            seq![argument_view("symbol_name"@, "Name of the symbol to explain"@, true), ],
        ),
        prompt_entry_view(
            "find_similar"@,
            "Find similar code patterns or implementations in the codebase"@,
            seq![argument_view("description"@, "Description of the code pattern to find"@, true), ],
        ),
        prompt_entry_view(
            "analyze_dependencies"@,
            "Analyze the dependency graph of a symbol or file"@,
            seq![argument_view("target"@, "Symbol name or file path to analyze"@, true), argument_view("direction"@, "Direction to analyze: 'callers' (who uses this), 'callees' (what this uses), or 'both'"@, false), ],
        ),
        prompt_entry_view(
            "summarize_file"@,
            "Generate a summary of a file's purpose and contents"@,
            seq![argument_view("file_path"@, "Path to the file to summarize"@, true), ],
        ),
        prompt_entry_view(
            "refactor_suggestions"@,
            "Suggest refactoring opportunities for a symbol or file"@,
            seq![argument_view("target"@, "Symbol name or file path to analyze"@, true), ],
        ),
        prompt_entry_view(
            "architecture_overview"@,
            "Generate an overview of the project architecture based on indexed symbols"@,
            seq![],
        ),
    ]
}

/// The catalog of the seven prompt templates.
pub open spec fn prompts_catalog_view() -> JsonView {
    JsonView::Object(seq![("prompts"@, JsonView::Array(prompt_entries()))])
}

fn argument(name: &str, description: &str, required: bool) -> (r: Json)
    ensures
        r@ == argument_view(name@, description@, required),
{
    object3(
        "name",
        Json::text(name),
        "description",
        Json::text(description),
        "required",
        Json::Bool(required),
    )
}

fn prompt(name: &str, description: &str, arguments: Vec<Json>) -> (r: Json)
    ensures
        r@ == prompt_entry_view(name@, description@, views(arguments@)),
{
    object3("name", Json::text(name), "description", Json::text(description), "arguments", Json::array(arguments))
}

/// The catalog of prompt templates, with each one's arguments.
pub fn prompts_catalog() -> (r: Json)
    ensures
        r@ == prompts_catalog_view(),
{
    let mut items: Vec<Json> = Vec::new();
    let mut args: Vec<Json> = Vec::new();
    args.push(argument("file_path", "Path to the file to review (relative to project root)", true));
    args.push(argument("focus", "Specific aspect to focus on (security, performance, style, bugs)", false));
    assert(views(args@) =~= seq![argument_view("file_path"@, "Path to the file to review (relative to project root)"@, true), argument_view("focus"@, "Specific aspect to focus on (security, performance, style, bugs)"@, false), ]);
    items.push(prompt("code_review", "Review code in a file for quality, bugs, and improvements", args));
    let mut args: Vec<Json> = Vec::new();
    args.push(argument("symbol_name", "Name of the symbol to explain", true));
    assert(views(args@) =~= seq![argument_view("symbol_name"@, "Name of the symbol to explain"@, true), ]);
    items.push(prompt("explain_symbol", "Explain what a symbol does and how it's used in the codebase", args));
    let mut args: Vec<Json> = Vec::new();
    args.push(argument("description", "Description of the code pattern to find", true));
    assert(views(args@) =~= seq![argument_view("description"@, "Description of the code pattern to find"@, true), ]);
    items.push(prompt("find_similar", "Find similar code patterns or implementations in the codebase", args));
    let mut args: Vec<Json> = Vec::new();
    args.push(argument("target", "Symbol name or file path to analyze", true));
    args.push(argument("direction", "Direction to analyze: 'callers' (who uses this), 'callees' (what this uses), or 'both'", false));
    assert(views(args@) =~= seq![argument_view("target"@, "Symbol name or file path to analyze"@, true), argument_view("direction"@, "Direction to analyze: 'callers' (who uses this), 'callees' (what this uses), or 'both'"@, false), ]);
    items.push(prompt("analyze_dependencies", "Analyze the dependency graph of a symbol or file", args));
    let mut args: Vec<Json> = Vec::new();
    args.push(argument("file_path", "Path to the file to summarize", true));
    assert(views(args@) =~= seq![argument_view("file_path"@, "Path to the file to summarize"@, true), ]);
    items.push(prompt("summarize_file", "Generate a summary of a file's purpose and contents", args));
    let mut args: Vec<Json> = Vec::new();
    args.push(argument("target", "Symbol name or file path to analyze", true));
    assert(views(args@) =~= seq![argument_view("target"@, "Symbol name or file path to analyze"@, true), ]);
    items.push(prompt("refactor_suggestions", "Suggest refactoring opportunities for a symbol or file", args));
    let mut args: Vec<Json> = Vec::new();
    assert(views(args@) =~= seq![]);
    items.push(prompt("architecture_overview", "Generate an overview of the project architecture based on indexed symbols", args));
    assert(views(items@) =~= prompt_entries());
    object1("prompts", Json::array(items))
}

/// The description that a composed prompt carries.
pub open spec fn prompt_description(name: Seq<char>) -> Seq<char> {
    if name == "code_review"@ {
        "Code review with focus on quality, bugs, and improvements"@
    } else if name == "explain_symbol"@ {
        "Explanation of symbol purpose and usage"@
    } else if name == "find_similar"@ {
        "Search for similar code patterns"@
    } else if name == "analyze_dependencies"@ {
        "Dependency graph analysis"@
    } else if name == "summarize_file"@ {
        "File purpose and content summary"@
    } else if name == "refactor_suggestions"@ {
        "Refactoring recommendations"@
    } else if name == "architecture_overview"@ {
        "Project architecture overview"@
    } else {
        "Prompt"@
    }
}

/// The description that a composed prompt carries.
pub fn get_prompt_description(name: &str) -> (r: String)
    ensures
        r@ == prompt_description(name@),
{
    let d = if same_text(name, "code_review") {
        "Code review with focus on quality, bugs, and improvements"
    } else if same_text(name, "explain_symbol") {
        "Explanation of symbol purpose and usage"
    } else if same_text(name, "find_similar") {
        "Search for similar code patterns"
    } else if same_text(name, "analyze_dependencies") {
        "Dependency graph analysis"
    } else if same_text(name, "summarize_file") {
        "File purpose and content summary"
    } else if same_text(name, "refactor_suggestions") {
        "Refactoring recommendations"
    } else if same_text(name, "architecture_overview") {
        "Project architecture overview"
    } else {
        "Prompt"
    };
    owned(d)
}

/// A composed prompt: its description and one user message holding `text`.
pub open spec fn prompt_view(name: Seq<char>, text: Seq<char>) -> JsonView {
    JsonView::Object(
        seq![
            ("description"@, JsonView::Str(prompt_description(name))),
            (
                "messages"@,
                JsonView::Array(
                    seq![
                        JsonView::Object(
                            seq![
                                ("role"@, JsonView::Str("user"@)),
                                (
                                    "content"@,
                                    JsonView::Object(
                                        seq![
                                            ("type"@, JsonView::Str("text"@)),
                                            ("text"@, JsonView::Str(text)),
                                        ],
                                    ),
                                ),
                            ],
                        ),
                    ],
                ),
            ),
        ],
    )
}

/// The composed prompt `name` with the message `text`.
pub fn prompt_result(name: &str, text: &str) -> (r: Json)
    ensures
        r@ == prompt_view(name@, text@),
{
    let content = object2("type", Json::text("text"), "text", Json::text(text));
    let message = object2("role", Json::text("user"), "content", content);
    let description = get_prompt_description(name);
    object2("description", Json::Str(description), "messages", array1(message))
}

/// The text of an optional string.
pub open spec fn opt_text(o: Option<String>) -> Option<Seq<char>> {
    match o {
        Some(s) => Some(s@),
        None => None,
    }
}

/// The text, or `default` where there is none.
pub open spec fn text_or(o: Option<Seq<char>>, default: Seq<char>) -> Seq<char> {
    match o {
        Some(t) => t,
        None => default,
    }
}

/// How a symbol is written in a list.
pub enum SymbolStyle {
    /// `name (kind)`
    Labelled,
    /// `- name (kind): doc`
    Documented,
    /// `  - name (file)`
    Located,
    /// `name`
    Name,
}

/// A symbol written in `style`.
pub open spec fn styled(style: SymbolStyle, s: SymbolEntry) -> Seq<char> {
    match style {
        SymbolStyle::Labelled => s.name@ + " ("@ + s.kind@ + ")"@,
        SymbolStyle::Documented => "- "@ + s.name@ + " ("@ + s.kind@ + "): "@ + text_or(
            opt_text(s.doc_comment),
            "no documentation"@,
        ),
        SymbolStyle::Located => "  - "@ + s.name@ + " ("@ + s.file_path@ + ")"@,
        SymbolStyle::Name => s.name@,
    }
}

/// Symbols written in `style`, joined with `sep`.
pub open spec fn symbol_list(symbols: Seq<SymbolEntry>, style: SymbolStyle, sep: Seq<char>) -> Seq<
    char,
> {
    joined(symbols.map_values(|s: SymbolEntry| styled(style, s)), sep)
}

fn style_symbol(style: &SymbolStyle, s: &SymbolEntry) -> (r: String)
    ensures
        r@ == styled(*style, *s),
{
    match style {
        SymbolStyle::Labelled => {
            let t = cat(s.name.clone(), " (");
            let t = cat(t, s.kind.as_str());
            cat(t, ")")
        },
        SymbolStyle::Documented => {
            let t = cat(owned("- "), s.name.as_str());
            let t = cat(t, " (");
            let t = cat(t, s.kind.as_str());
            let t = cat(t, "): ");
            match &s.doc_comment {
                Some(d) => cat(t, d.as_str()),
                None => cat(t, "no documentation"),
            }
        },
        SymbolStyle::Located => {
            let t = cat(owned("  - "), s.name.as_str());
            let t = cat(t, " (");
            let t = cat(t, s.file_path.as_str());
            cat(t, ")")
        },
        SymbolStyle::Name => s.name.clone(),
    }
}

/// Symbols written in `style`, joined with `sep`.
pub fn render_symbols(symbols: &Vec<SymbolEntry>, style: SymbolStyle, sep: &str) -> (r: String)
    ensures
        r@ == symbol_list(symbols@, style, sep@),
{
    let mut parts: Vec<String> = Vec::new();
    let mut i: usize = 0;
    while i < symbols.len()
        invariant
            0 <= i <= symbols.len(),
            parts@.len() == i,
            parts@.map_values(|t: String| t@) =~= symbols@.take(i as int).map_values(
                |s: SymbolEntry| styled(style, s),
            ),
        decreases symbols.len() - i,
    {
        let ghost before = parts@;
        parts.push(style_symbol(&style, &symbols[i]));
        assert(parts@ =~= before.push(parts@[i as int]));
        assert(parts@.map_values(|t: String| t@) =~= before.map_values(|t: String| t@).push(
            styled(style, symbols@[i as int]),
        ));
        assert(symbols@.take(i + 1) =~= symbols@.take(i as int).push(symbols@[i as int]));
        i = i + 1;
    }
    assert(symbols@.take(symbols.len() as int) =~= symbols@);
    join(&parts, sep)
}

/// The text of `find_similar`.
pub open spec fn find_similar_prompt(description: Seq<char>) -> Seq<char> {
    "Find code in this codebase that is similar to or implements: "@ + description
        + "\n\nUse the 'search' tool with semantic search to find relevant symbols, then analyze them."@
}

/// The text of `find_similar`.
pub fn find_similar_text(description: &str) -> (r: String)
    ensures
        r@ == find_similar_prompt(description@),
{
    let t = cat(owned("Find code in this codebase that is similar to or implements: "), description);
    cat(
        t,
        "\n\nUse the 'search' tool with semantic search to find relevant symbols, then analyze them.",
    )
}

/// The context of `code_review`: the file, its language and symbols where the engine
/// knows it.
pub open spec fn review_context(file_path: Seq<char>, info: Option<FileDetails>) -> Seq<char> {
    match info {
        Some(d) => "File: "@ + file_path + "\nLanguage: "@ + d.language_name@ + "\nSymbols: "@
            + symbol_list(d.symbols@, SymbolStyle::Labelled, ", "@) + "\n"@,
        None => "File: "@ + file_path,
    }
}

/// The text of `code_review`.
pub open spec fn code_review_prompt(
    file_path: Seq<char>,
    focus: Seq<char>,
    info: Option<FileDetails>,
    content: Option<Seq<char>>,
) -> Seq<char> {
    "Please review the following code with a focus on "@ + focus + ".\n\n"@ + review_context(
        file_path,
        info,
    ) + "\n\nCode:\n```\n"@ + text_or(content, "[File content not available]"@)
        + "\n```\n\nProvide specific, actionable feedback."@
}

/// The text of `code_review`.
pub fn code_review_text(
    file_path: &str,
    focus: &str,
    info: &Option<FileDetails>,
    content: &Option<String>,
) -> (r: String)
    ensures
        r@ == code_review_prompt(file_path@, focus@, *info, opt_text(*content)),
{
    let context = match info {
        Some(d) => {
            let t = cat(owned("File: "), file_path);
            let t = cat(t, "\nLanguage: ");
            let t = cat(t, d.language_name.as_str());
            let t = cat(t, "\nSymbols: ");
            let t = cat(t, render_symbols(&d.symbols, SymbolStyle::Labelled, ", ").as_str());
            cat(t, "\n")
        },
        None => cat(owned("File: "), file_path),
    };
    let t = cat(owned("Please review the following code with a focus on "), focus);
    let t = cat(t, ".\n\n");
    let t = cat(t, context.as_str());
    let t = cat(t, "\n\nCode:\n```\n");
    let t = match content {
        Some(c) => cat(t, c.as_str()),
        None => cat(t, "[File content not available]"),
    };
    cat(t, "\n```\n\nProvide specific, actionable feedback.")
}

/// The text of `summarize_file`.
pub open spec fn summarize_prompt(
    file_path: Seq<char>,
    info: Option<FileDetails>,
    content: Option<Seq<char>>,
) -> Seq<char> {
    "Please summarize the purpose and contents of this file.\n\nFile: "@ + file_path
        + "\nLanguage: "@ + match info {
        Some(d) => d.language_name@,
        None => "unknown"@,
    } + "\n\nSymbols:\n"@ + match info {
        Some(d) => symbol_list(d.symbols@, SymbolStyle::Documented, "\n"@),
        None => ""@,
    } + "\n\nCode:\n```\n"@ + text_or(content, "[Content not available]"@) + "\n```"@
}

/// The text of `summarize_file`.
pub fn summarize_text(file_path: &str, info: &Option<FileDetails>, content: &Option<String>) -> (r:
    String)
    ensures
        r@ == summarize_prompt(file_path@, *info, opt_text(*content)),
{
    let t = cat(owned("Please summarize the purpose and contents of this file.\n\nFile: "), file_path);
    let t = cat(t, "\nLanguage: ");
    let t = match info {
        Some(d) => cat(t, d.language_name.as_str()),
        None => cat(t, "unknown"),
    };
    let t = cat(t, "\n\nSymbols:\n");
    let t = match info {
        Some(d) => cat(t, render_symbols(&d.symbols, SymbolStyle::Documented, "\n").as_str()),
        None => cat(t, ""),
    };
    let t = cat(t, "\n\nCode:\n```\n");
    let t = match content {
        Some(c) => cat(t, c.as_str()),
        None => cat(t, "[Content not available]"),
    };
    cat(t, "\n```")
}

/// One symbol's block in `explain_symbol`.
pub open spec fn usage_block(s: SymbolEntry, u: UsageDetails) -> Seq<char> {
    "Symbol: "@ + styled(SymbolStyle::Labelled, s) + "\nFile: "@ + s.file_path@ + "\nSignature: "@
        + text_or(opt_text(s.signature), "N/A"@) + "\nDoc: "@ + text_or(
        opt_text(s.doc_comment),
        "N/A"@,
    ) + "\nCallers: "@ + symbol_list(u.callers@, SymbolStyle::Name, ", "@) + "\nCallees: "@
        + symbol_list(u.callees@, SymbolStyle::Name, ", "@)
}

/// The text of `explain_symbol`, given the matched symbols whose usage could be had.
pub open spec fn explain_prompt(name: Seq<char>, found: Seq<(SymbolEntry, UsageDetails)>) -> Seq<
    char,
> {
    "Please explain what '"@ + name
        + "' does and how it's used in this codebase.\n\nContext from code index:\n"@ + if found.len()
        > 0 {
        joined(
            found.map_values(|p: (SymbolEntry, UsageDetails)| usage_block(p.0, p.1)),
            "\n\n---\n\n"@,
        )
    } else {
        "No symbol found with name: "@ + name
    }
}

fn usage_block_text(s: &SymbolEntry, u: &UsageDetails) -> (r: String)
    ensures
        r@ == usage_block(*s, *u),
{
    let t = cat(owned("Symbol: "), style_symbol(&SymbolStyle::Labelled, s).as_str());
    let t = cat(t, "\nFile: ");
    let t = cat(t, s.file_path.as_str());
    let t = cat(t, "\nSignature: ");
    let t = match &s.signature {
        Some(x) => cat(t, x.as_str()),
        None => cat(t, "N/A"),
    };
    let t = cat(t, "\nDoc: ");
    let t = match &s.doc_comment {
        Some(x) => cat(t, x.as_str()),
        None => cat(t, "N/A"),
    };
    let t = cat(t, "\nCallers: ");
    let t = cat(t, render_symbols(&u.callers, SymbolStyle::Name, ", ").as_str());
    let t = cat(t, "\nCallees: ");
    cat(t, render_symbols(&u.callees, SymbolStyle::Name, ", ").as_str())
}

/// The text of `explain_symbol`.
pub fn explain_text(name: &str, found: &Vec<(SymbolEntry, UsageDetails)>) -> (r: String)
    ensures
        r@ == explain_prompt(name@, found@),
{
    let context = if found.len() > 0 {
        let mut parts: Vec<String> = Vec::new();
        let mut i: usize = 0;
        while i < found.len()
            invariant
                0 <= i <= found.len(),
                parts@.len() == i,
                parts@.map_values(|t: String| t@) =~= found@.take(i as int).map_values(
                    |p: (SymbolEntry, UsageDetails)| usage_block(p.0, p.1),
                ),
            decreases found.len() - i,
        {
            let ghost before = parts@;
            parts.push(usage_block_text(&found[i].0, &found[i].1));
            assert(parts@ =~= before.push(parts@[i as int]));
            assert(parts@.map_values(|t: String| t@) =~= before.map_values(|t: String| t@).push(
                usage_block(found@[i as int].0, found@[i as int].1),
            ));
            assert(found@.take(i + 1) =~= found@.take(i as int).push(found@[i as int]));
            i = i + 1;
        }
        assert(found@.take(found.len() as int) =~= found@);
        join(&parts, "\n\n---\n\n")
    } else {
        cat(owned("No symbol found with name: "), name)
    };
    let t = cat(owned("Please explain what '"), name);
    let t = cat(t, "' does and how it's used in this codebase.\n\nContext from code index:\n");
    cat(t, context.as_str())
}

/// What `analyze_dependencies` learned of the first matched symbol: its callers and its
/// callees, each where it was asked for and could be had.
#[derive(Clone, Debug, PartialEq)]
pub struct DependencyInfo {
    pub symbol: SymbolEntry,
    pub callers: Option<Vec<SymbolEntry>>,
    pub callees: Option<Vec<SymbolEntry>>,
}

/// How many symbols a list holds, no list counting as none.
pub open spec fn count_of(o: Option<Vec<SymbolEntry>>) -> nat {
    match o {
        Some(v) => v.len() as nat,
        None => 0,
    }
}

/// The symbols of a list one per line, or "N/A" for no list.
pub open spec fn located_list(o: Option<Vec<SymbolEntry>>) -> Seq<char> {
    match o {
        Some(v) => symbol_list(v@, SymbolStyle::Located, "\n"@),
        None => "N/A"@,
    }
}

/// The block of `analyze_dependencies` on one symbol.
pub open spec fn dependency_block(d: DependencyInfo) -> Seq<char> {
    "Symbol: "@ + styled(SymbolStyle::Labelled, d.symbol) + "\nFile: "@ + d.symbol.file_path@
        + "\nCallers ("@ + decimal(count_of(d.callers)) + "):\n"@ + located_list(d.callers)
        + "\n\nCallees ("@ + decimal(count_of(d.callees)) + "):\n"@ + located_list(d.callees)
}

/// The text of `analyze_dependencies`.
pub open spec fn dependencies_prompt(
    target: Seq<char>,
    direction: Seq<char>,
    info: Option<DependencyInfo>,
) -> Seq<char> {
    "Analyze the dependency graph for '"@ + target + "' (direction: "@ + direction
        + ").\n\nDependency Information:\n"@ + match info {
        Some(d) => dependency_block(d),
        None => "No symbol found"@,
    }
}

fn located_list_text(o: &Option<Vec<SymbolEntry>>) -> (r: (String, String))
    ensures
        r.0@ == decimal(count_of(*o)),
        r.1@ == located_list(*o),
{
    match o {
        Some(v) => (decimal_text(v.len() as u64), render_symbols(v, SymbolStyle::Located, "\n")),
        None => (decimal_text(0), owned("N/A")),
    }
}

/// The text of `analyze_dependencies`.
pub fn dependencies_text(target: &str, direction: &str, info: &Option<DependencyInfo>) -> (r: String)
    ensures
        r@ == dependencies_prompt(target@, direction@, *info),
{
    let t = cat(owned("Analyze the dependency graph for '"), target);
    let t = cat(t, "' (direction: ");
    let t = cat(t, direction);
    let t = cat(t, ").\n\nDependency Information:\n");
    match info {
        Some(d) => {
            let (caller_count, caller_list) = located_list_text(&d.callers);
            let (callee_count, callee_list) = located_list_text(&d.callees);
            let t = cat(t, "Symbol: ");
            let t = cat(t, style_symbol(&SymbolStyle::Labelled, &d.symbol).as_str());
            let t = cat(t, "\nFile: ");
            let t = cat(t, d.symbol.file_path.as_str());
            let t = cat(t, "\nCallers (");
            let t = cat(t, caller_count.as_str());
            let t = cat(t, "):\n");
            let t = cat(t, caller_list.as_str());
            let t = cat(t, "\n\nCallees (");
            let t = cat(t, callee_count.as_str());
            let t = cat(t, "):\n");
            cat(t, callee_list.as_str())
        },
        None => cat(t, "No symbol found"),
    }
}

/// The block of `refactor_suggestions` on one symbol and its usage.
pub open spec fn refactor_block(s: SymbolEntry, u: UsageDetails) -> Seq<char> {
    "Symbol: "@ + styled(SymbolStyle::Labelled, s) + "\nFile: "@ + s.file_path@ + "\nReferences: "@
        + decimal(u.reference_count as nat) + "\nCallers: "@ + decimal(u.callers.len() as nat)
        + "\nCallees: "@ + decimal(u.callees.len() as nat)
}

/// The text of `refactor_suggestions`, given the first matched symbol and its usage where
/// both could be had.
pub open spec fn refactor_prompt(target: Seq<char>, found: Option<(SymbolEntry, UsageDetails)>) -> Seq<
    char,
> {
    "Suggest refactoring opportunities for '"@ + target + "'.\n\nContext:\n"@ + match found {
        Some(p) => refactor_block(p.0, p.1),
        None => "No symbol found. Try searching with the 'search' tool."@,
    }
}

/// The text of `refactor_suggestions`.
pub fn refactor_text(target: &str, found: &Option<(SymbolEntry, UsageDetails)>) -> (r: String)
    ensures
        r@ == refactor_prompt(target@, *found),
{
    let t = cat(owned("Suggest refactoring opportunities for '"), target);
    let t = cat(t, "'.\n\nContext:\n");
    match found {
        Some(p) => {
            let t = cat(t, "Symbol: ");
            let t = cat(t, style_symbol(&SymbolStyle::Labelled, &p.0).as_str());
            let t = cat(t, "\nFile: ");
            let t = cat(t, p.0.file_path.as_str());
            let t = cat(t, "\nReferences: ");
            let t = cat(t, decimal_text(p.1.reference_count).as_str());
            let t = cat(t, "\nCallers: ");
            let t = cat(t, decimal_text(p.1.callers.len() as u64).as_str());
            let t = cat(t, "\nCallees: ");
            cat(t, decimal_text(p.1.callees.len() as u64).as_str())
        },
        None => cat(t, "No symbol found. Try searching with the 'search' tool."),
    }
}

/// `groups` with one more file in `lang`: its count raised where it is listed, else a
/// new group of one at the end.
pub open spec fn add_to_groups(groups: Seq<(Seq<char>, nat)>, lang: Seq<char>) -> Seq<(Seq<char>, nat)> {
    if exists|j: int| 0 <= j < groups.len() && #[trigger] groups[j].0 == lang {
        let j = choose|j: int| 0 <= j < groups.len() && #[trigger] groups[j].0 == lang;
        groups.update(j, (lang, groups[j].1 + 1))
    } else {
        groups.push((lang, 1))
    }
}

/// The files counted by language name, the languages in order of first appearance.
pub open spec fn language_groups(files: Seq<FileEntry>) -> Seq<(Seq<char>, nat)>
    decreases files.len(),
{
    if files.len() == 0 {
        Seq::empty()
    } else {
        add_to_groups(language_groups(files.drop_last()), files.last().language_name@)
    }
}

/// No two groups share a language.
pub open spec fn distinct_languages(groups: Seq<(Seq<char>, nat)>) -> bool {
    forall|a: int, b: int|
        0 <= a < groups.len() && 0 <= b < groups.len() && a != b ==> #[trigger] groups[a].0
            != #[trigger] groups[b].0
}

/// One line of the language breakdown.
pub open spec fn group_line(g: (Seq<char>, nat)) -> Seq<char> {
    "- "@ + g.0 + ": "@ + decimal(g.1) + " files"@
}

/// The text of `architecture_overview`, given the files of the tree and the indexed file
/// and symbol counts, each where it could be had.
pub open spec fn overview_prompt(tree: Option<Seq<FileEntry>>, status: Option<(u64, u64)>) -> Seq<
    char,
> {
    "Generate an architecture overview for this project based on the indexed structure.\n\n"@
        + match tree {
        Some(files) => "Project Statistics:\n- Total files: "@ + decimal(
            match status {
                Some(c) => c.0 as nat,
                None => 0,
            },
        ) + "\n- Total symbols: "@ + decimal(
            match status {
                Some(c) => c.1 as nat,
                None => 0,
            },
        ) + "\n\nFiles by language:\n"@ + joined(
            language_groups(files).map_values(|g: (Seq<char>, nat)| group_line(g)),
            "\n"@,
        ),
        None => "No index available. Run the 'index' tool first."@,
    }
}

/// The model of a list of groups.
pub open spec fn groups_view(groups: Seq<(String, usize)>) -> Seq<(Seq<char>, nat)> {
    groups.map_values(|g: (String, usize)| (g.0@, g.1 as nat))
}

/// The files counted by language name.
pub fn count_languages(files: &Vec<FileEntry>) -> (r: Vec<(String, usize)>)
    ensures
        groups_view(r@) == language_groups(files@),
{
    let mut groups: Vec<(String, usize)> = Vec::new();
    let mut i: usize = 0;
    assert(files@.take(0) =~= Seq::<FileEntry>::empty());
    assert(groups_view(groups@) =~= Seq::<(Seq<char>, nat)>::empty());
    while i < files.len()
        invariant
            0 <= i <= files.len(),
            groups_view(groups@) == language_groups(files@.take(i as int)),
            distinct_languages(groups_view(groups@)),
            forall|j: int| 0 <= j < groups@.len() ==> #[trigger] groups@[j].1 <= i,
        decreases files.len() - i,
    {
        let ghost gv = groups_view(groups@);
        let lang = &files[i].language_name;
        assert(files@.take(i + 1).drop_last() =~= files@.take(i as int));
        let mut j: usize = 0;
        while j < groups.len() && groups[j].0 != *lang
            invariant
                0 <= j <= groups.len(),
                gv == groups_view(groups@),
                forall|k: int| 0 <= k < j ==> #[trigger] gv[k].0 != lang@,
            decreases groups.len() - j,
        {
            j = j + 1;
        }
        if j < groups.len() {
            assert(gv[j as int].0 == lang@);
            let ghost chosen = choose|k: int| 0 <= k < gv.len() && #[trigger] gv[k].0 == lang@;
            assert(chosen == j);
            let count = groups[j].1 + 1;
            let name = groups[j].0.clone();
            groups.set(j, (name, count));
            assert(groups_view(groups@) =~= gv.update(j as int, (lang@, gv[j as int].1 + 1)));
        } else {
            assert(!exists|k: int| 0 <= k < gv.len() && #[trigger] gv[k].0 == lang@);
            groups.push((lang.clone(), 1));
            assert(groups_view(groups@) =~= gv.push((lang@, 1)));
        }
        i = i + 1;
    }
    assert(files@.take(files.len() as int) =~= files@);
    groups
}

/// The text of `architecture_overview`.
pub fn overview_text(tree: &Option<Vec<FileEntry>>, status: Option<(u64, u64)>) -> (r: String)
    ensures
        r@ == overview_prompt(
            match tree {
                Some(files) => Some(files@),
                None => None,
            },
            status,
        ),
{
    let t = owned(
        "Generate an architecture overview for this project based on the indexed structure.\n\n",
    );
    match tree {
        Some(files) => {
            let (indexed_files, indexed_symbols) = match status {
                Some(c) => c,
                None => (0, 0),
            };
            let groups = count_languages(files);
            let mut lines: Vec<String> = Vec::new();
            let mut i: usize = 0;
            while i < groups.len()
                invariant
                    0 <= i <= groups.len(),
                    lines@.len() == i,
                    lines@.map_values(|t: String| t@) =~= groups_view(groups@).take(
                        i as int,
                    ).map_values(|g: (Seq<char>, nat)| group_line(g)),
                decreases groups.len() - i,
            {
                let ghost before = lines@;
                let line = cat(owned("- "), groups[i].0.as_str());
                let line = cat(line, ": ");
                let line = cat(line, decimal_text(groups[i].1 as u64).as_str());
                let line = cat(line, " files");
                lines.push(line);
                assert(lines@ =~= before.push(lines@[i as int]));
                assert(lines@.map_values(|t: String| t@) =~= before.map_values(|t: String| t@).push(
                    group_line(groups_view(groups@)[i as int]),
                ));
                assert(groups_view(groups@).take(i + 1) =~= groups_view(groups@).take(i as int).push(
                    groups_view(groups@)[i as int],
                ));
                i = i + 1;
            }
            assert(groups_view(groups@).take(groups.len() as int) =~= groups_view(groups@));
            let t = cat(t, "Project Statistics:\n- Total files: ");
            let t = cat(t, decimal_text(indexed_files).as_str());
            let t = cat(t, "\n- Total symbols: ");
            let t = cat(t, decimal_text(indexed_symbols).as_str());
            let t = cat(t, "\n\nFiles by language:\n");
            cat(t, join(&lines, "\n").as_str())
        },
        None => cat(t, "No index available. Run the 'index' tool first."),
    }
}

} // verus!
