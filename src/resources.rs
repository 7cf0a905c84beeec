use vstd::prelude::*;
use crate::engine::{
    CallView, EngineCall, EngineReply, FileEntry, language_to_mime, mime_of,
    rendered_of, take_rendered,
};
use crate::json::{Json, JsonView, array1, object1, object3, object4, views};
use crate::rpc::{INTERNAL_ERROR, INVALID_PARAMS, JsonRpcError, bare, outcome};
use crate::text::{
    cat, decimal, decimal_text, has_prefix, integer_text_value, owned, parse_i64, same_text,
    strip_prefix,
};

verus! {

/// The most file resources that one listing holds.
pub const MAX_FILE_RESOURCES: usize = 100;

/// A resource descriptor.
pub open spec fn resource_view(uri: Seq<char>, name: Seq<char>, description: Seq<char>, mime: Seq<
    char,
>) -> JsonView {
    JsonView::Object(
        seq![
            ("uri"@, JsonView::Str(uri)),
            ("name"@, JsonView::Str(name)),
            ("description"@, JsonView::Str(description)),
            ("mimeType"@, JsonView::Str(mime)),
        ],
    )
}

/// The three virtual resources, listed before any file.
pub open spec fn fixed_resources() -> Seq<JsonView> {
    seq![
        resource_view(
            "adi://status"@,
            "Index Status"@,
            "Current indexing status and statistics"@,
            "application/json"@,
        ),
        resource_view(
            "adi://tree"@,
            "Project Tree"@,
            "Hierarchical view of all indexed files and symbols"@,
            "application/json"@,
        ),
        resource_view(
            "adi://config"@,
            "Configuration"@,
            "Current ADI configuration"@,
            "application/json"@,
        ),
    ]
}

/// The resource descriptor of a file of the tree.
pub open spec fn file_resource(f: FileEntry) -> JsonView {
    resource_view(
        "adi://file/"@ + f.path@,
        match f.file_name {
            Some(n) => n@,
            None => f.path@,
        },
        f.language_name@ + " file with "@ + decimal(f.symbol_count as nat) + " symbols"@,
        mime_of(f.language),
    )
}

/// The files of a tree reply that a listing shows: the first hundred.
pub open spec fn listed_files(reply: EngineReply) -> Seq<FileEntry> {
    match reply {
        EngineReply::Tree { files, .. } => if files.len() <= MAX_FILE_RESOURCES {
            files@
        } else {
            files@.take(MAX_FILE_RESOURCES as int)
        },
        _ => Seq::empty(),
    }
}

/// The resource listing of a ready session, given the engine's tree reply; a failed
/// tree leaves the virtual resources alone.
pub open spec fn resource_listing(reply: EngineReply) -> JsonView {
    JsonView::Object(
        seq![
            (
                "resources"@,
                JsonView::Array(fixed_resources() + listed_files(reply).map_values(|f| file_resource(f))),
            ),
        ],
    )
}

/// The listing of a session without an engine.
pub open spec fn empty_listing() -> JsonView {
    JsonView::Object(seq![("resources"@, JsonView::Array(Seq::empty()))])
}

fn resource(uri: &str, name: &str, description: &str, mime: &str) -> (r: Json)
    ensures
        r@ == resource_view(uri@, name@, description@, mime@),
{
    object4(
        "uri",
        Json::text(uri),
        "name",
        Json::text(name),
        "description",
        Json::text(description),
        "mimeType",
        Json::text(mime),
    )
}

fn file_resource_of(f: &FileEntry) -> (r: Json)
    ensures
        r@ == file_resource(*f),
{
    let uri = cat(owned("adi://file/"), f.path.as_str());
    let name = match &f.file_name {
        Some(n) => n.clone(),
        None => f.path.clone(),
    };
    let mut description = cat(f.language_name.clone(), " file with ");
    description = cat(description, decimal_text(f.symbol_count).as_str());
    description = cat(description, " symbols");
    let mime = language_to_mime(&f.language);
    resource(uri.as_str(), name.as_str(), description.as_str(), mime.as_str())
}

/// The resource listing of a session without an engine: no resources.
pub fn list_without_engine() -> (r: Json)
    ensures
        r@ == empty_listing(),
{
    let r = object1("resources", Json::array(Vec::new()));
    assert(views(Seq::<Json>::empty()) =~= Seq::<JsonView>::empty());
    r
}

/// The resource listing of a ready session, given the engine's tree reply.
pub fn list_resources(reply: &EngineReply) -> (r: Json)
    ensures
        r@ == resource_listing(*reply),
{
    let mut out: Vec<Json> = Vec::new();
    out.push(
        resource(
            "adi://status",
            "Index Status",
            "Current indexing status and statistics",
            "application/json",
        ),
    );
    out.push(
        resource(
            "adi://tree",
            "Project Tree",
            "Hierarchical view of all indexed files and symbols",
            "application/json",
        ),
    );
    out.push(
        resource("adi://config", "Configuration", "Current ADI configuration", "application/json"),
    );
    assert(views(out@) =~= fixed_resources());
    match reply {
        EngineReply::Tree { files, .. } => {
            let n = if files.len() <= MAX_FILE_RESOURCES {
                files.len()
            } else {
                MAX_FILE_RESOURCES
            };
            let ghost shown = listed_files(*reply);
            assert(shown =~= files@.take(n as int));
            let mut i: usize = 0;
            while i < n
                invariant
                    n <= files.len(),
                    shown == files@.take(n as int),
                    0 <= i <= n,
                    views(out@) =~= fixed_resources() + files@.take(i as int).map_values(
                        |f| file_resource(f),
                    ),
                decreases n - i,
            {
                let ghost before = out@;
                out.push(file_resource_of(&files[i]));
                assert(views(out@) =~= views(before).push(file_resource(files@[i as int])));
                assert(files@.take(i + 1) =~= files@.take(i as int).push(files@[i as int]));
                i = i + 1;
            }
        },
        _ => {
            assert(listed_files(*reply).map_values(|f| file_resource(f)) =~= Seq::<JsonView>::empty());
        },
    }
    object1("resources", Json::array(out))
}

/// A parameterized resource URI.
pub open spec fn template_view(uri_template: Seq<char>, name: Seq<char>, description: Seq<char>) -> JsonView {
    JsonView::Object(
        seq![
            ("uriTemplate"@, JsonView::Str(uri_template)),
            ("name"@, JsonView::Str(name)),
            ("description"@, JsonView::Str(description)),
            ("mimeType"@, JsonView::Str("application/json"@)),
        ],
    )
}

/// The catalog of parameterized resource URIs: the file template, then the symbol
/// template.
pub open spec fn templates_catalog_view() -> JsonView {
    JsonView::Object(
        seq![
            (
                "resourceTemplates"@,
                JsonView::Array(
                    seq![
                        template_view(
                            "adi://file/{path}"@,
                            "Source File"@,
                            "Access indexed source file with symbols and content"@,
                        ),
                        template_view(
                            "adi://symbol/{id}"@,
                            "Symbol Details"@,
                            "Get detailed information about a symbol by ID"@,
                        ),
                    ],
                ),
            ),
        ],
    )
}

fn template(uri_template: &str, name: &str, description: &str) -> (r: Json)
    ensures
        r@ == template_view(uri_template@, name@, description@),
{
    object4(
        "uriTemplate",
        Json::text(uri_template),
        "name",
        Json::text(name),
        "description",
        Json::text(description),
        "mimeType",
        Json::text("application/json"),
    )
}

/// The catalog of parameterized resource URIs.
pub fn templates_catalog() -> (r: Json)
    ensures
        r@ == templates_catalog_view(),
{
    let mut items: Vec<Json> = Vec::new();
    items.push(
        template(
            "adi://file/{path}",
            "Source File",
            "Access indexed source file with symbols and content",
        ),
    );
    items.push(
        template("adi://symbol/{id}", "Symbol Details", "Get detailed information about a symbol by ID"),
    );
    assert(views(items@) =~= templates_catalog_view()->Object_0[0].1->Array_0);
    object1("resourceTemplates", Json::array(items))
}

/// Where a resource URI leads.
pub enum ReadPlan {
    Status,
    Tree,
    Config,
    File(Seq<char>),
    Symbol(i64),
    InvalidId,
    Unknown,
}

/// Where the URI `uri` leads: the three virtual resources by exact match, then the file
/// and symbol families by prefix.
pub open spec fn read_plan(uri: Seq<char>) -> ReadPlan {
    if uri == "adi://status"@ {
        ReadPlan::Status
    } else if uri == "adi://tree"@ {
        ReadPlan::Tree
    } else if uri == "adi://config"@ {
        ReadPlan::Config
    } else if has_prefix(uri, "adi://file/"@) {
        ReadPlan::File(uri.subrange("adi://file/"@.len() as int, uri.len() as int))
    } else if has_prefix(uri, "adi://symbol/"@) {
        match integer_text_value(uri.subrange("adi://symbol/"@.len() as int, uri.len() as int)) {
            Some(v) => if i64::MIN <= v <= i64::MAX {
                ReadPlan::Symbol(v as i64)
            } else {
                ReadPlan::InvalidId
            },
            None => ReadPlan::InvalidId,
        }
    } else {
        ReadPlan::Unknown
    }
}

/// A resource that can be read.
#[derive(Clone, Debug, PartialEq)]
pub enum ReadTarget {
    Status,
    Tree,
    Config,
    File(String),
    Symbol(i64),
}

impl ReadTarget {
    /// The target's plan.
    pub open spec fn plan(&self) -> ReadPlan {
        match self {
            ReadTarget::Status => ReadPlan::Status,
            ReadTarget::Tree => ReadPlan::Tree,
            ReadTarget::Config => ReadPlan::Config,
            ReadTarget::File(p) => ReadPlan::File(p@),
            ReadTarget::Symbol(id) => ReadPlan::Symbol(*id),
        }
    }
}

/// The resource that `uri` names, or the error that an unknown URI or a malformed symbol
/// id comes to.
pub fn resolve_uri(uri: &str) -> (r: Result<ReadTarget, JsonRpcError>)
    ensures
        match read_plan(uri@) {
            ReadPlan::InvalidId => r matches Err(e) && e.code == INVALID_PARAMS && e.message@
                == "Invalid symbol ID"@,
            ReadPlan::Unknown => r matches Err(e) && e.code == INVALID_PARAMS && e.message@
                == "Unknown resource URI: "@ + uri@,
            plan => r matches Ok(t) && t.plan() == plan,
        },
        r matches Err(e) ==> e.data is None,
{
    if same_text(uri, "adi://status") {
        Ok(ReadTarget::Status)
    } else if same_text(uri, "adi://tree") {
        Ok(ReadTarget::Tree)
    } else if same_text(uri, "adi://config") {
        Ok(ReadTarget::Config)
    } else {
        match strip_prefix(uri, "adi://file/") {
            Some(path) => Ok(ReadTarget::File(owned(path))),
            None => match strip_prefix(uri, "adi://symbol/") {
                Some(id_text) => match parse_i64(id_text) {
                    Some(id) => Ok(ReadTarget::Symbol(id)),
                    None => Err(JsonRpcError::new(INVALID_PARAMS, owned("Invalid symbol ID"))),
                },
                None => Err(JsonRpcError::with_detail(INVALID_PARAMS, "Unknown resource URI: ", uri)),
            },
        }
    }
}

/// The engine call that reading `target` starts with.
pub fn first_read_call(target: &ReadTarget) -> (r: EngineCall)
    ensures
        r@ == (match target.plan() {
            ReadPlan::Status => CallView::Status,
            ReadPlan::Tree => CallView::GetTree,
            ReadPlan::Config => CallView::Config,
            ReadPlan::File(p) => CallView::GetFileResource { path: p },
            ReadPlan::Symbol(id) => CallView::GetSymbolResource { id },
            _ => CallView::Status,
        }),
{
    match target {
        ReadTarget::Status => EngineCall::Status,
        ReadTarget::Tree => EngineCall::GetTree,
        ReadTarget::Config => EngineCall::Config,
        ReadTarget::File(p) => EngineCall::GetFileResource { path: p.clone() },
        ReadTarget::Symbol(id) => EngineCall::GetSymbolResource { id: *id },
    }
}

/// The result of a read: one content item.
pub open spec fn contents_view(uri: Seq<char>, mime: Seq<char>, text: Seq<char>) -> JsonView {
    JsonView::Object(
        seq![
            (
                "contents"@,
                JsonView::Array(
                    seq![
                        JsonView::Object(
                            seq![
                                ("uri"@, JsonView::Str(uri)),
                                ("mimeType"@, JsonView::Str(mime)),
                                ("text"@, JsonView::Str(text)),
                            ],
                        ),
                    ],
                ),
            ),
        ],
    )
}

/// The result of a read: one content item.
pub fn contents(uri: &str, mime: &str, text: &str) -> (r: Json)
    ensures
        r@ == contents_view(uri@, mime@, text@),
{
    object1(
        "contents",
        array1(object3("uri", Json::text(uri), "mimeType", Json::text(mime), "text", Json::text(text))),
    )
}

/// The outcome of reading a virtual resource, given the engine's reply.
pub open spec fn virtual_read_outcome(uri: Seq<char>, reply: EngineReply) -> Result<
    JsonView,
    (i32, Seq<char>),
> {
    match reply {
        EngineReply::Failed(m) => Err((INTERNAL_ERROR, m@)),
        _ => match rendered_of(reply) {
            Some(t) => Ok(contents_view(uri, "application/json"@, t)),
            None => Err((INTERNAL_ERROR, "Unexpected engine reply"@)),
        },
    }
}

/// The result of reading a virtual resource, given the engine's reply.
pub fn virtual_read(uri: &str, reply: EngineReply) -> (r: Result<Json, JsonRpcError>)
    ensures
        outcome(r) == virtual_read_outcome(uri@, reply),
        bare(r),
{
    match reply {
        EngineReply::Failed(m) => Err(JsonRpcError::new(INTERNAL_ERROR, m)),
        other => match take_rendered(other) {
            Some(t) => Ok(contents(uri, "application/json", t.as_str())),
            None => Err(JsonRpcError::new(INTERNAL_ERROR, owned("Unexpected engine reply"))),
        },
    }
}

/// The live content that a file-read reply carries.
pub open spec fn content_of(reply: EngineReply) -> Option<Seq<char>> {
    match reply {
        EngineReply::FileText(Some(c)) => Some(c@),
        _ => None,
    }
}

/// The outcome of reading a file resource, given the engine's reply: its content is the
/// report merged with the live content where that could be read, else the report alone,
/// typed by the file's language.
pub open spec fn file_read_outcome(uri: Seq<char>, reply: EngineReply) -> Result<
    JsonView,
    (i32, Seq<char>),
> {
    match reply {
        EngineReply::Failed(m) => Err((INTERNAL_ERROR, m@)),
        EngineReply::FileResource { language, rendered, merged } => Ok(
            contents_view(
                uri,
                mime_of(language),
                match merged {
                    Some(t) => t@,
                    None => rendered@,
                },
            ),
        ),
        _ => Err((INTERNAL_ERROR, "Unexpected engine reply"@)),
    }
}

/// The result of reading a file resource, given the engine's reply.
pub fn file_read(uri: &str, reply: EngineReply) -> (r: Result<Json, JsonRpcError>)
    ensures
        outcome(r) == file_read_outcome(uri@, reply),
        bare(r),
{
    match reply {
        EngineReply::Failed(m) => Err(JsonRpcError::new(INTERNAL_ERROR, m)),
        EngineReply::FileResource { language, rendered, merged } => {
            let text = match merged {
                Some(t) => t,
                None => rendered,
            };
            let mime = language_to_mime(&language);
            Ok(contents(uri, mime.as_str(), text.as_str()))
        },
        _ => Err(JsonRpcError::new(INTERNAL_ERROR, owned("Unexpected engine reply"))),
    }
}

} // verus!
