use vstd::prelude::*;
use crate::text::owned;

verus! {

/// One operation of the index engine, as the library asks for it.
#[derive(Clone, Debug, PartialEq)]
pub enum EngineCall {
    Open { root: String },
    Search { query: String, limit: u64 },
    SearchSymbols { query: String, limit: u64 },
    SearchFiles { query: String, limit: u64 },
    GetSymbol { id: i64 },
    GetFile { path: String },
    GetCallers { id: i64 },
    GetCallees { id: i64 },
    GetSymbolUsage { id: i64 },
    GetTree,
    Index,
    Status,
    Config,
    FindSymbolsByName { name: String },
    /// Read the file at `path`, relative to the engine's project root.
    ReadFile { path: String },
    /// The file resource at `path`: the engine's report on the file, and that report
    /// merged with the live content where the file can be read.
    GetFileResource { path: String },
    /// The symbol resource of `id`: the symbol with its usage statistics, the usage
    /// null where the engine cannot give it.
    GetSymbolResource { id: i64 },
}

/// The mathematical model of an engine call.
pub enum CallView {
    Open { root: Seq<char> },
    Search { query: Seq<char>, limit: u64 },
    SearchSymbols { query: Seq<char>, limit: u64 },
    SearchFiles { query: Seq<char>, limit: u64 },
    GetSymbol { id: i64 },
    GetFile { path: Seq<char> },
    GetCallers { id: i64 },
    GetCallees { id: i64 },
    GetSymbolUsage { id: i64 },
    GetTree,
    Index,
    Status,
    Config,
    FindSymbolsByName { name: Seq<char> },
    ReadFile { path: Seq<char> },
    GetFileResource { path: Seq<char> },
    GetSymbolResource { id: i64 },
}

impl View for EngineCall {
    type V = CallView;

    open spec fn view(&self) -> CallView {
        match self {
            EngineCall::Open { root } => CallView::Open { root: root@ },
            EngineCall::Search { query, limit } => CallView::Search { query: query@, limit: *limit },
            EngineCall::SearchSymbols { query, limit } => CallView::SearchSymbols {
                query: query@,
                limit: *limit,
            },
            EngineCall::SearchFiles { query, limit } => CallView::SearchFiles {
                query: query@,
                limit: *limit,
            },
            EngineCall::GetSymbol { id } => CallView::GetSymbol { id: *id },
            EngineCall::GetFile { path } => CallView::GetFile { path: path@ },
            EngineCall::GetCallers { id } => CallView::GetCallers { id: *id },
            EngineCall::GetCallees { id } => CallView::GetCallees { id: *id },
            EngineCall::GetSymbolUsage { id } => CallView::GetSymbolUsage { id: *id },
            EngineCall::GetTree => CallView::GetTree,
            EngineCall::Index => CallView::Index,
            EngineCall::Status => CallView::Status,
            EngineCall::Config => CallView::Config,
            EngineCall::FindSymbolsByName { name } => CallView::FindSymbolsByName { name: name@ },
            EngineCall::ReadFile { path } => CallView::ReadFile { path: path@ },
            EngineCall::GetFileResource { path } => CallView::GetFileResource { path: path@ },
            EngineCall::GetSymbolResource { id } => CallView::GetSymbolResource { id: *id },
        }
    }
}

/// The languages that the engine detects.
#[derive(Clone, Copy, Debug, PartialEq, Eq)]
pub enum Language {
    Rust,
    Python,
    JavaScript,
    TypeScript,
    Java,
    Go,
    C,
    Cpp,
    CSharp,
    Ruby,
    Php,
    Kotlin,
    Scala,
    Swift,
    Bash,
    Json,
    Yaml,
    Toml,
    Xml,
    Html,
    Css,
    Markdown,
    Other,
}

/// The MIME type of a file in `lang`.
pub open spec fn mime_of(lang: Language) -> Seq<char> {
    match lang {
        Language::Rust => "text/x-rust"@,
        Language::Python => "text/x-python"@,
        Language::JavaScript => "text/javascript"@,
        Language::TypeScript => "text/typescript"@,
        Language::Java => "text/x-java"@,
        Language::Go => "text/x-go"@,
        Language::C => "text/x-c"@,
        Language::Cpp => "text/x-c++"@,
        Language::CSharp => "text/x-csharp"@,
        Language::Ruby => "text/x-ruby"@,
        Language::Php => "text/x-php"@,
        Language::Kotlin => "text/x-kotlin"@,
        Language::Scala => "text/x-scala"@,
        Language::Swift => "text/x-swift"@,
        Language::Bash => "text/x-shellscript"@,
        Language::Json => "application/json"@,
        Language::Yaml => "text/yaml"@,
        Language::Toml => "text/x-toml"@,
        Language::Xml => "application/xml"@,
        Language::Html => "text/html"@,
        Language::Css => "text/css"@,
        Language::Markdown => "text/markdown"@,
        Language::Other => "text/plain"@,
    }
}

/// The MIME type of a file in `lang`.
pub fn language_to_mime(lang: &Language) -> (r: String)
    ensures
        r@ == mime_of(*lang),
{
    let m = match lang {
        Language::Rust => "text/x-rust",
        Language::Python => "text/x-python",
        Language::JavaScript => "text/javascript",
        Language::TypeScript => "text/typescript",
        Language::Java => "text/x-java",
        Language::Go => "text/x-go",
        Language::C => "text/x-c",
        Language::Cpp => "text/x-c++",
        Language::CSharp => "text/x-csharp",
        Language::Ruby => "text/x-ruby",
        Language::Php => "text/x-php",
        Language::Kotlin => "text/x-kotlin",
        Language::Scala => "text/x-scala",
        Language::Swift => "text/x-swift",
        Language::Bash => "text/x-shellscript",
        Language::Json => "application/json",
        Language::Yaml => "text/yaml",
        Language::Toml => "text/x-toml",
        Language::Xml => "application/xml",
        Language::Html => "text/html",
        Language::Css => "text/css",
        Language::Markdown => "text/markdown",
        Language::Other => "text/plain",
    };
    owned(m)
}

/// A symbol as the engine reports it.
#[derive(Clone, Debug, PartialEq)]
pub struct SymbolEntry {
    pub id: i64,
    pub name: String,
    /// The kind's display name ("function", "struct", ...).
    pub kind: String,
    /// The path of the file that defines it, as displayed.
    pub file_path: String,
    pub signature: Option<String>,
    pub doc_comment: Option<String>,
}

/// A file of the engine's current tree.
#[derive(Clone, Debug, PartialEq)]
pub struct FileEntry {
    /// The path, relative to the project root.
    pub path: String,
    /// The path's last component, where it has one.
    pub file_name: Option<String>,
    pub language: Language,
    /// The language's display name.
    pub language_name: String,
    pub symbol_count: u64,
}

/// What the engine reports of one file.
#[derive(Clone, Debug, PartialEq)]
pub struct FileDetails {
    pub language: Language,
    pub language_name: String,
    pub symbols: Vec<SymbolEntry>,
    /// The whole report as pretty-printed JSON.
    pub rendered: String,
}

/// What the engine reports of a symbol's usage.
#[derive(Clone, Debug, PartialEq)]
pub struct UsageDetails {
    pub reference_count: u64,
    pub callers: Vec<SymbolEntry>,
    pub callees: Vec<SymbolEntry>,
    /// The whole report as pretty-printed JSON.
    pub rendered: String,
}

/// The answer to one engine call.
#[derive(Clone, Debug, PartialEq)]
pub enum EngineReply {
    /// The engine was opened.
    Opened,
    /// The call failed; the engine's error as displayed.
    Failed(String),
    /// A result that the library passes on: its pretty-printed JSON.
    Rendered(String),
    Symbols { entries: Vec<SymbolEntry>, rendered: String },
    File(FileDetails),
    Usage(UsageDetails),
    Tree { files: Vec<FileEntry>, rendered: String },
    Indexed { files_processed: u64, symbols_indexed: u64, errors: Vec<String> },
    Status { indexed_files: u64, indexed_symbols: u64, rendered: String },
    /// The content of a file, where it could be read.
    FileText(Option<String>),
    /// A file resource: the file's language, the engine's report as pretty-printed JSON,
    /// and, where the live content could be read, one compact JSON object of the
    /// content, the file and its symbols.
    FileResource { language: Language, rendered: String, merged: Option<String> },
}

/// The pretty-printed JSON that a reply carries, where it carries one.
pub open spec fn rendered_of(reply: EngineReply) -> Option<Seq<char>> {
    match reply {
        EngineReply::Rendered(t) => Some(t@),
        EngineReply::Symbols { rendered, .. } => Some(rendered@),
        EngineReply::File(d) => Some(d.rendered@),
        EngineReply::Usage(u) => Some(u.rendered@),
        EngineReply::Tree { rendered, .. } => Some(rendered@),
        EngineReply::Status { rendered, .. } => Some(rendered@),
        _ => None,
    }
}

/// The pretty-printed JSON that a reply carries.
pub fn take_rendered(reply: EngineReply) -> (r: Option<String>)
    ensures
        match r {
            Some(t) => rendered_of(reply) == Some(t@),
            None => rendered_of(reply) is None,
        },
{
    match reply {
        EngineReply::Rendered(t) => Some(t),
        EngineReply::Symbols { rendered, .. } => Some(rendered),
        EngineReply::File(d) => Some(d.rendered),
        EngineReply::Usage(u) => Some(u.rendered),
        EngineReply::Tree { rendered, .. } => Some(rendered),
        EngineReply::Status { rendered, .. } => Some(rendered),
        _ => None,
    }
}

} // verus!
