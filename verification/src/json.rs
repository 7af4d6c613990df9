//! JSON values of `serde_json`, and the parameters of protocol messages that
//! `lsp_types` defines, seen as plain trees.
//!
//! A tree tells all that there is to tell of a value, as `serde_json` is used without its
//! features `preserve_order` and `arbitrary_precision`: without the first the members of an
//! object are kept sorted by name, whatever order they came in, and without the second a
//! number is kept by its value, not as it was written.

use lsp_types::{ClientCapabilities, Url};
use serde_json::Value;
use vstd::prelude::*;

verus! {

/// `serde_json::Value`: what it holds is named by [`json_of`].
#[verifier::external_type_specification]
#[verifier::external_body]
pub struct ExValue(serde_json::Value);

/// `lsp_types::Url`: what it holds is named by [`url_text`].
#[verifier::external_type_specification]
#[verifier::external_body]
pub struct ExUrl(lsp_types::Url);

/// `lsp_types::ClientCapabilities`: what it holds is named by [`capabilities_of`].
#[verifier::external_type_specification]
#[verifier::external_body]
pub struct ExClientCapabilities(lsp_types::ClientCapabilities);

/// A JSON value.
pub enum Json {
    Null,
    Bool(bool),
    /// A number that is an integer.
    Int(int),
    /// Any other number, by its text.
    Float(Seq<char>),
    Str(Seq<char>),
    Array(Seq<Json>),
    Object(Map<Seq<char>, Json>),
}

/// The JSON value that a `Value` holds.
pub uninterp spec fn json_of(value: Value) -> Json;

/// The text of a URL, as `Url::as_str` gives it.
pub uninterp spec fn url_text(url: Url) -> Seq<char>;

/// The capabilities of a client, by the JSON value that they are serialised as.
pub uninterp spec fn capabilities_of(capabilities: ClientCapabilities) -> Json;

/// The JSON value that an optional `Value` holds.
pub open spec fn optional_json(value: Option<Value>) -> Option<Json> {
    match value {
        Some(value) => Some(json_of(value)),
        None => None,
    }
}

/// `Value::clone`: a copy that holds the same JSON value.
pub assume_specification[ <Value as Clone>::clone ](value: &Value) -> (copy: Value)
    ensures
        json_of(copy) == json_of(*value),
;

/// `Value::default`: the JSON value `null`.
#[verifier::external_body]
pub(crate) fn null() -> (value: Value)
    ensures
        json_of(value) == Json::Null,
{
    Value::default()
}

/// What a client can do with the answer to a "go to" request.
#[derive(Clone, Copy, Debug)]
pub struct GotoCapability {
    pub dynamic_registration: Option<bool>,
    pub link_support: Option<bool>,
}

/// How much a server tells of what it does.
#[derive(Clone, Copy, Debug, PartialEq, Eq, Structural)]
pub enum TraceOption {
    Off,
    Messages,
    Verbose,
}

/// A folder that a client works in.
pub struct WorkspaceFolder {
    pub uri: Url,
    pub name: String,
}

/// What a client is.
pub struct ClientInfo {
    pub name: String,
    pub version: Option<String>,
}

/// What a client tells a server when a session begins, beside its capabilities.
pub struct InitializeParams {
    pub process_id: Option<u32>,
    pub root_path: Option<String>,
    pub root_uri: Option<Url>,
    pub initialization_options: Option<Value>,
    pub trace: Option<TraceOption>,
    pub workspace_folders: Option<Vec<WorkspaceFolder>>,
    pub client_info: Option<ClientInfo>,
    pub locale: Option<String>,
}

/// A document as it is when it is opened.
pub struct TextDocumentItem {
    pub uri: Url,
    pub language_id: String,
    pub version: i32,
    pub text: String,
}

/// A place between two characters of a document, by its line and its place in it.
#[derive(Clone, Copy, Debug)]
pub struct Position {
    pub line: u32,
    pub character: u32,
}

/// A part of a document.
#[derive(Clone, Copy, Debug)]
pub struct Range {
    pub start: Position,
    pub end: Position,
}

/// A change of a document: the text of a part of it, or of all of it if there is no range.
pub struct ContentChange {
    pub range: Option<Range>,
    pub range_length: Option<u32>,
    pub text: String,
}

/// The changes that make a new version of a document.
pub struct DidChangeParams {
    pub uri: Url,
    pub version: i32,
    pub content_changes: Vec<ContentChange>,
}

/// An object with one more member, if that is there.
pub open spec fn with_member(
    members: Map<Seq<char>, Json>,
    key: Seq<char>,
    value: Option<Json>,
) -> Map<Seq<char>, Json> {
    match value {
        Some(value) => members.insert(key, value),
        None => members,
    }
}

/// A value that is written as `null` where it is absent.
pub open spec fn or_null(value: Option<Json>) -> Json {
    match value {
        Some(value) => value,
        None => Json::Null,
    }
}

pub open spec fn optional_bool(flag: Option<bool>) -> Option<Json> {
    match flag {
        Some(flag) => Some(Json::Bool(flag)),
        None => None,
    }
}

pub open spec fn optional_u32(number: Option<u32>) -> Option<Json> {
    match number {
        Some(number) => Some(Json::Int(number as int)),
        None => None,
    }
}

pub open spec fn optional_string(text: Option<String>) -> Option<Json> {
    match text {
        Some(text) => Some(Json::Str(text@)),
        None => None,
    }
}

pub open spec fn optional_url(url: Option<Url>) -> Option<Json> {
    match url {
        Some(url) => Some(Json::Str(url_text(url))),
        None => None,
    }
}

/// A capability as JSON.
pub open spec fn goto_capability_json(goto: GotoCapability) -> Json {
    Json::Object(
        with_member(
            map!["linkSupport"@ => or_null(optional_bool(goto.link_support))],
            "dynamicRegistration"@,
            optional_bool(goto.dynamic_registration),
        ),
    )
}

/// The capabilities of a client that can only go to definitions, as JSON.
pub open spec fn capabilities_json(definition: GotoCapability) -> Json {
    Json::Object(
        map![
            "textDocument"@ => Json::Object(
                map!["definition"@ => goto_capability_json(definition)],
            ),
        ],
    )
}

/// A trace setting as JSON.
pub open spec fn trace_json(trace: TraceOption) -> Json {
    match trace {
        TraceOption::Off => Json::Str("off"@),
        TraceOption::Messages => Json::Str("messages"@),
        TraceOption::Verbose => Json::Str("verbose"@),
    }
}

pub open spec fn optional_trace(trace: Option<TraceOption>) -> Option<Json> {
    match trace {
        Some(trace) => Some(trace_json(trace)),
        None => None,
    }
}

/// A folder as JSON.
pub open spec fn folder_json(folder: WorkspaceFolder) -> Json {
    Json::Object(
        map![
            "uri"@ => Json::Str(url_text(folder.uri)),
            "name"@ => Json::Str(folder.name@),
        ],
    )
}

pub open spec fn optional_folders(folders: Option<Vec<WorkspaceFolder>>) -> Option<Json> {
    match folders {
        Some(folders) => Some(
            Json::Array(folders@.map_values(|folder: WorkspaceFolder| folder_json(folder))),
        ),
        None => None,
    }
}

pub open spec fn optional_client_info(info: Option<ClientInfo>) -> Option<Json> {
    match info {
        Some(info) => Some(
            Json::Object(
                with_member(
                    map!["name"@ => Json::Str(info.name@)],
                    "version"@,
                    optional_string(info.version),
                ),
            ),
        ),
        None => None,
    }
}

/// The parameters of the `initialize` request as JSON.
pub open spec fn initialize_params_json(params: InitializeParams, capabilities: Json) -> Json {
    let members = map![
        "processId"@ => or_null(optional_u32(params.process_id)),
        "rootUri"@ => or_null(optional_url(params.root_uri)),
        "capabilities"@ => capabilities,
    ];
    let members = with_member(members, "rootPath"@, optional_string(params.root_path));
    let options = optional_json(params.initialization_options);
    let members = with_member(members, "initializationOptions"@, options);
    let members = with_member(members, "trace"@, optional_trace(params.trace));
    let folders = optional_folders(params.workspace_folders);
    let members = with_member(members, "workspaceFolders"@, folders);
    let info = optional_client_info(params.client_info);
    let members = with_member(members, "clientInfo"@, info);
    Json::Object(with_member(members, "locale"@, optional_string(params.locale)))
}

/// The parameters of the `textDocument/didOpen` notification as JSON.
pub open spec fn did_open_json(
    uri: Seq<char>,
    language_id: Seq<char>,
    version: i32,
    text: Seq<char>,
) -> Json {
    Json::Object(
        map![
            "textDocument"@ => Json::Object(
                map![
                    "uri"@ => Json::Str(uri),
                    "languageId"@ => Json::Str(language_id),
                    "version"@ => Json::Int(version as int),
                    "text"@ => Json::Str(text),
                ],
            ),
        ],
    )
}

pub open spec fn position_json(position: Position) -> Json {
    Json::Object(
        map![
            "line"@ => Json::Int(position.line as int),
            "character"@ => Json::Int(position.character as int),
        ],
    )
}

pub open spec fn optional_range(range: Option<Range>) -> Option<Json> {
    match range {
        Some(range) => Some(
            Json::Object(
                map!["start"@ => position_json(range.start), "end"@ => position_json(range.end)],
            ),
        ),
        None => None,
    }
}

/// A change as JSON: a range and its length are left out where they are absent.
pub open spec fn change_json(
    range: Option<Range>,
    range_length: Option<u32>,
    text: Seq<char>,
) -> Json {
    let members = map!["text"@ => Json::Str(text)];
    let members = with_member(members, "range"@, optional_range(range));
    Json::Object(with_member(members, "rangeLength"@, optional_u32(range_length)))
}

/// Several changes as JSON.
pub open spec fn changes_json(changes: Seq<ContentChange>) -> Seq<Json> {
    changes.map_values(
        |change: ContentChange| change_json(change.range, change.range_length, change.text@),
    )
}

/// The parameters of the `textDocument/didChange` notification as JSON.
pub open spec fn did_change_json(uri: Seq<char>, version: i32, changes: Seq<Json>) -> Json {
    Json::Object(
        map![
            "textDocument"@ => Json::Object(
                map![
                    "uri"@ => Json::Str(uri),
                    "version"@ => Json::Int(version as int),
                ],
            ),
            "contentChanges"@ => Json::Array(changes),
        ],
    )
}

/// `lsp_types::ClientCapabilities::default` and, in its member `text_document`,
/// `lsp_types::TextDocumentClientCapabilities::default`, of which `definition` is set. All
/// other members are absent by default, and what is absent is not serialised.
#[verifier::external_body]
pub(crate) fn goto_capabilities(definition: GotoCapability) -> (capabilities: ClientCapabilities)
    ensures
        capabilities_of(capabilities) == capabilities_json(definition),
{
    let GotoCapability { dynamic_registration, link_support } = definition;
    let definition = Some(lsp_types::GotoCapability { dynamic_registration, link_support });
    let text_document =
        Some(lsp_types::TextDocumentClientCapabilities { definition, ..Default::default() });
    ClientCapabilities { text_document, ..Default::default() }
}

/// `serde_json::to_value` of the `lsp_types::InitializeParams` with the given members.
/// Members that are absent are left out, but for `processId` and `rootUri`, which are
/// `null`.
#[verifier::external_body]
#[allow(deprecated)]
pub(crate) fn initialize_params(
    params: InitializeParams,
    capabilities: ClientCapabilities,
) -> (value: Value)
    ensures
        json_of(value) == initialize_params_json(params, capabilities_of(capabilities)),
{
    let InitializeParams { process_id, root_path, root_uri, initialization_options, trace,
        workspace_folders, client_info, locale } = params;
    let trace = trace.map(|trace| match trace {
        TraceOption::Off => lsp_types::TraceOption::Off,
        TraceOption::Messages => lsp_types::TraceOption::Messages,
        TraceOption::Verbose => lsp_types::TraceOption::Verbose,
    });
    let workspace_folders = workspace_folders.map(|folders| folders.into_iter().map(
        |WorkspaceFolder { uri, name }| lsp_types::WorkspaceFolder { uri, name }).collect());
    let client_info = client_info.map(
        |ClientInfo { name, version }| lsp_types::ClientInfo { name, version });
    serde_json::to_value(lsp_types::InitializeParams { process_id, root_path, root_uri, trace,
        initialization_options, capabilities, workspace_folders, client_info, locale }).unwrap()
}

/// What keeps a result of the `initialize` request from being decoded, if anything does:
/// the text of the error that `serde_json::from_value` gives for it as a
/// `lsp_types::InitializeResult`.
pub uninterp spec fn initialize_result_fault(result: Json) -> Option<Seq<char>>;

/// Why something could not be decoded, if it could not.
pub open spec fn decode_fault(decoded: Result<(), String>) -> Option<Seq<char>> {
    match decoded {
        Ok(_) => None,
        Err(reason) => Some(reason@),
    }
}

/// `serde_json::from_value` as a `lsp_types::InitializeResult`, and the text of its error.
#[verifier::external_body]
pub(crate) fn decode_initialize_result(result: Value) -> (decoded: Result<(), String>)
    ensures
        decode_fault(decoded) == initialize_result_fault(json_of(result)),
{
    match serde_json::from_value::<lsp_types::InitializeResult>(result) {
        Ok(_) => Ok(()),
        Err(error) => Err(error.to_string()),
    }
}

/// `serde_json::to_value` of `lsp_types::InitializedParams`: an object without members.
#[verifier::external_body]
pub(crate) fn initialized_params() -> (value: Value)
    ensures
        json_of(value) == Json::Object(Map::empty()),
{
    serde_json::to_value(lsp_types::InitializedParams {}).unwrap()
}

/// `serde_json::to_value` of `lsp_types::DidOpenTextDocumentParams`: an object that holds
/// the document, whose members have their names in camel case, and whose URL is its text.
#[verifier::external_body]
pub(crate) fn did_open_params(item: TextDocumentItem) -> (value: Value)
    ensures
        json_of(value) == did_open_json(
            url_text(item.uri),
            item.language_id@,
            item.version,
            item.text@,
        ),
{
    let TextDocumentItem { uri, language_id, version, text } = item;
    let text_document = lsp_types::TextDocumentItem { uri, language_id, version, text };
    serde_json::to_value(lsp_types::DidOpenTextDocumentParams { text_document }).unwrap()
}

/// `serde_json::to_value` of `lsp_types::DidChangeTextDocumentParams`: an object that holds
/// the document, by its URL and version, and the changes in their order.
#[verifier::external_body]
pub(crate) fn did_change_params(params: DidChangeParams) -> (value: Value)
    ensures
        json_of(value) == did_change_json(
            url_text(params.uri),
            params.version,
            changes_json(params.content_changes@),
        ),
{
    let DidChangeParams { uri, version, content_changes } = params;
    let position =
        |Position { line, character }: Position| lsp_types::Position { line, character };
    let range = |Range { start, end }: Range| lsp_types::Range::new(position(start), position(end));
    let change = |ContentChange { range: part, range_length, text }: ContentChange| {
        lsp_types::TextDocumentContentChangeEvent { range: part.map(range), range_length, text }
    };
    let content_changes = content_changes.into_iter().map(change).collect();
    let text_document = lsp_types::VersionedTextDocumentIdentifier { uri, version };
    let params = lsp_types::DidChangeTextDocumentParams { text_document, content_changes };
    serde_json::to_value(params).unwrap()
}

} // verus!
