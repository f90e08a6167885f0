use vstd::prelude::*;
use vstd::std_specs::convert::FromSpec;
use url::Url;
use crate::{Location, LocationLink, PartialResultParams, Position, Range, WorkDoneProgressParams};

verus! {

/// A text document, identified by its URI.
#[derive(Debug, Eq, PartialEq, Clone)]
pub struct TextDocumentIdentifier {
    /// The text document's URI.
    pub uri: Url,
}

impl TextDocumentIdentifier {
    pub fn new(uri: Url) -> (res: TextDocumentIdentifier)
        ensures
            res.uri == uri,
    {
        TextDocumentIdentifier { uri }
    }
}

/// A text document transferred from the client to the server.
#[derive(Debug, Eq, PartialEq, Clone)]
pub struct TextDocumentItem {
    /// The text document's URI.
    pub uri: Url,
    /// The text document's language identifier.
    pub language_id: String,
    /// The version number of this document.
    pub version: i32,
    /// The content of the opened text document.
    pub text: String,
}

impl TextDocumentItem {
    pub fn new(uri: Url, language_id: String, version: i32, text: String) -> (res: TextDocumentItem)
        ensures
            res.uri == uri,
            res.language_id == language_id,
            res.version == version,
            res.text == text,
    {
        TextDocumentItem { uri, language_id, version, text }
    }
}

/// A specific version of a text document.
#[derive(Debug, Eq, PartialEq, Clone)]
pub struct VersionedTextDocumentIdentifier {
    /// The text document's URI.
    pub uri: Url,
    /// The version number of this document.
    pub version: i32,
}

impl VersionedTextDocumentIdentifier {
    pub fn new(uri: Url, version: i32) -> (res: VersionedTextDocumentIdentifier)
        ensures
            res.uri == uri,
            res.version == version,
    {
        VersionedTextDocumentIdentifier { uri, version }
    }
}

/// A text document that optionally names a specific version.
#[derive(Debug, Eq, PartialEq, Clone)]
pub struct OptionalVersionedTextDocumentIdentifier {
    /// The text document's URI.
    pub uri: Url,
    /// The version number, or `None` when the content on disk is the master.
    pub version: Option<i32>,
}

impl OptionalVersionedTextDocumentIdentifier {
    /// An identifier that names the given version.
    pub fn new(uri: Url, version: i32) -> (res: OptionalVersionedTextDocumentIdentifier)
        ensures
            res.uri == uri,
            res.version == Some(version),
    {
        OptionalVersionedTextDocumentIdentifier { uri, version: Some(version) }
    }
}

/// A text document and a position inside it.
#[derive(Debug, Eq, PartialEq, Clone)]
pub struct TextDocumentPositionParams {
    /// The text document.
    pub text_document: TextDocumentIdentifier,
    /// The position inside the text document.
    pub position: Position,
}

impl TextDocumentPositionParams {
    pub fn new(text_document: TextDocumentIdentifier, position: Position) -> (res: TextDocumentPositionParams)
        ensures
            res.text_document == text_document,
            res.position == position,
    {
        TextDocumentPositionParams { text_document, position }
    }
}

/// A filter that denotes documents by language, scheme or pattern.
#[derive(Debug, Eq, PartialEq, Clone)]
pub struct DocumentFilter {
    /// A language id, like `typescript`.
    pub language: Option<String>,
    /// A URI scheme, like `file` or `untitled`.
    pub scheme: Option<String>,
    /// A glob pattern, like `*.{ts,js}`.
    pub pattern: Option<String>,
}

/// A combination of one or many document filters.
pub type DocumentSelector = Vec<DocumentFilter>;

/// Parameters of a `textDocument/didOpen` notification.
#[derive(Debug, Eq, PartialEq, Clone)]
pub struct DidOpenTextDocumentParams {
    /// The document that was opened.
    pub text_document: TextDocumentItem,
}

/// Parameters of a `textDocument/didChange` notification.
#[derive(Debug, Eq, PartialEq, Clone)]
pub struct DidChangeTextDocumentParams {
    /// The document that changed, at the version after the changes.
    pub text_document: VersionedTextDocumentIdentifier,
    /// The actual content changes.
    pub content_changes: Vec<TextDocumentContentChangeEvent>,
}

/// A change to a text document; without a range the text is the full new content.
#[derive(Debug, Eq, PartialEq, Clone)]
pub struct TextDocumentContentChangeEvent {
    /// The range of the document that changed.
    pub range: Option<Range>,
    /// The length of the replaced range.
    pub range_length: Option<u32>,
    /// The new text.
    pub text: String,
}

/// Parameters of a will-save notification.
#[derive(Debug, Eq, PartialEq, Clone)]
pub struct WillSaveTextDocumentParams {
    /// The document that will be saved.
    pub text_document: TextDocumentIdentifier,
    /// Why the document is saved.
    pub reason: TextDocumentSaveReason,
}

/// Why a text document is saved.
#[derive(Copy, Debug, Eq, PartialEq, Clone)]
pub enum TextDocumentSaveReason {
    /// Manually triggered.
    Manual,
    /// Automatic after a delay.
    AfterDelay,
    /// When the editor lost focus.
    FocusOut,
}

impl TextDocumentSaveReason {
    /// The number that stands for this value in the protocol.
    pub open spec fn protocol_code(self) -> u8 {
        match self {
            TextDocumentSaveReason::Manual => 1,
            TextDocumentSaveReason::AfterDelay => 2,
            TextDocumentSaveReason::FocusOut => 3,
        }
    }

    /// The number that stands for this value in the protocol.
    pub fn code(&self) -> (res: u8)
        ensures
            res == self.protocol_code(),
    {
        match self {
            TextDocumentSaveReason::Manual => 1,
            TextDocumentSaveReason::AfterDelay => 2,
            TextDocumentSaveReason::FocusOut => 3,
        }
    }
}

/// Each value has its fixed protocol number.
pub proof fn lemma_text_document_save_reason_codes()
    ensures
        TextDocumentSaveReason::Manual.protocol_code() == 1,
        TextDocumentSaveReason::AfterDelay.protocol_code() == 2,
        TextDocumentSaveReason::FocusOut.protocol_code() == 3,
{
}

/// Parameters of a `textDocument/didClose` notification.
#[derive(Debug, Eq, PartialEq, Clone)]
pub struct DidCloseTextDocumentParams {
    /// The document that was closed.
    pub text_document: TextDocumentIdentifier,
}

/// Parameters of a `textDocument/didSave` notification.
#[derive(Debug, Eq, PartialEq, Clone)]
pub struct DidSaveTextDocumentParams {
    /// The document that was saved.
    pub text_document: TextDocumentIdentifier,
    /// The content when saved, if requested.
    pub text: Option<String>,
}

/// Parameters of a `textDocument/definition` request.
#[derive(Debug, Eq, PartialEq, Clone)]
pub struct GotoDefinitionParams {
    pub text_document_position_params: TextDocumentPositionParams,
    pub work_done_progress_params: WorkDoneProgressParams,
    pub partial_result_params: PartialResultParams,
}

/// The answer to a goto-definition request: one location, several, or links.
#[derive(Debug, PartialEq, Clone)]
pub enum GotoDefinitionResponse {
    Scalar(Location),
    Array(Vec<Location>),
    Link(Vec<LocationLink>),
}

impl From<Location> for GotoDefinitionResponse {
    fn from(location: Location) -> (res: GotoDefinitionResponse)
        ensures
            res == GotoDefinitionResponse::Scalar(location),
    {
        GotoDefinitionResponse::Scalar(location)
    }
}

impl vstd::std_specs::convert::FromSpecImpl<Location> for GotoDefinitionResponse {
    open spec fn obeys_from_spec() -> bool {
        true
    }

    open spec fn from_spec(v: Location) -> GotoDefinitionResponse {
        GotoDefinitionResponse::Scalar(v)
    }
}

impl From<Vec<Location>> for GotoDefinitionResponse {
    fn from(locations: Vec<Location>) -> (res: GotoDefinitionResponse)
        ensures
            res == GotoDefinitionResponse::Array(locations),
    {
        GotoDefinitionResponse::Array(locations)
    }
}

impl vstd::std_specs::convert::FromSpecImpl<Vec<Location>> for GotoDefinitionResponse {
    open spec fn obeys_from_spec() -> bool {
        true
    }

    open spec fn from_spec(v: Vec<Location>) -> GotoDefinitionResponse {
        GotoDefinitionResponse::Array(v)
    }
}

impl From<Vec<LocationLink>> for GotoDefinitionResponse {
    fn from(locations: Vec<LocationLink>) -> (res: GotoDefinitionResponse)
        ensures
            res == GotoDefinitionResponse::Link(locations),
    {
        GotoDefinitionResponse::Link(locations)
    }
}

impl vstd::std_specs::convert::FromSpecImpl<Vec<LocationLink>> for GotoDefinitionResponse {
    open spec fn obeys_from_spec() -> bool {
        true
    }

    open spec fn from_spec(v: Vec<LocationLink>) -> GotoDefinitionResponse {
        GotoDefinitionResponse::Link(v)
    }
}

/// Converting one location gives the answer that is that very location, its URI and range unchanged.
pub proof fn lemma_goto_definition_from_location(v: Location)
    ensures
        <GotoDefinitionResponse as FromSpec<Location>>::from_spec(v) == GotoDefinitionResponse::Scalar(v),
        <GotoDefinitionResponse as FromSpec<Location>>::from_spec(v) matches GotoDefinitionResponse::Scalar(w)
            && w.uri == v.uri && w.range == v.range && w.range.start == v.range.start && w.range.end == v.range.end,
{
}

/// Converting several locations gives the answer that holds exactly those locations.
pub proof fn lemma_goto_definition_from_locations(v: Vec<Location>)
    ensures
        <GotoDefinitionResponse as FromSpec<Vec<Location>>>::from_spec(v) == GotoDefinitionResponse::Array(v),
        <GotoDefinitionResponse as FromSpec<Vec<Location>>>::from_spec(v) matches GotoDefinitionResponse::Array(w) && w == v,
{
}

/// Converting links gives the answer that holds exactly those links.
pub proof fn lemma_goto_definition_from_links(v: Vec<LocationLink>)
    ensures
        <GotoDefinitionResponse as FromSpec<Vec<LocationLink>>>::from_spec(v) == GotoDefinitionResponse::Link(v),
        <GotoDefinitionResponse as FromSpec<Vec<LocationLink>>>::from_spec(v) matches GotoDefinitionResponse::Link(w) && w == v,
{
}

} // verus!
