use vstd::prelude::*;
use vstd::std_specs::convert::FromSpec;
use serde_json::Value;
use crate::{DeclarationCapability, DefinitionOptions, DiagnosticTag, DocumentFormattingOptions, DocumentHighlightOptions, DocumentRangeFormattingOptions, DocumentSymbolOptions, OneOf, ReferencesOptions, StaticTextDocumentRegistrationOptions, WorkDoneProgressOptions, WorkspaceSymbolOptions};

verus! {

/// Capabilities of the `workspace/didChangeConfiguration` notification.
pub type DidChangeConfigurationClientCapabilities = DynamicRegistrationClientCapabilities;

/// Capabilities of the `workspace/executeCommand` request.
pub type ExecuteCommandClientCapabilities = DynamicRegistrationClientCapabilities;

/// Capabilities of the `workspace/didChangeWatchedFiles` notification.
pub type DidChangeWatchedFilesClientCapabilities = DynamicRegistrationClientCapabilities;

/// Client capabilities for change annotations.
#[derive(Debug, Eq, PartialEq, Clone, Default)]
pub struct ChangeAnnotationWorkspaceEditClientCapabilities {
    /// Whether the client groups edits with equal labels into tree nodes.
    pub groups_on_label: Option<bool>,
}

/// A capability that may support dynamic registration.
#[derive(Debug, Eq, PartialEq, Clone, Copy, Default)]
pub struct DynamicRegistrationClientCapabilities {
    /// This capability supports dynamic registration.
    pub dynamic_registration: Option<bool>,
}

/// Client capabilities of the goto requests.
#[derive(Debug, Eq, PartialEq, Clone, Copy, Default)]
pub struct GotoCapability {
    /// This capability supports dynamic registration.
    pub dynamic_registration: Option<bool>,
    /// The client supports definition links.
    pub link_support: Option<bool>,
}

/// Client capabilities of workspace edits.
#[derive(Debug, Eq, PartialEq, Clone, Default)]
pub struct WorkspaceEditClientCapabilities {
    /// The client supports versioned document changes.
    pub document_changes: Option<bool>,
    /// The resource operations the client supports.
    pub resource_operations: Option<Vec<ResourceOperationKind>>,
    /// The failure handling strategy of the client.
    pub failure_handling: Option<FailureHandlingKind>,
    /// Whether the client normalizes line endings.
    pub normalizes_line_endings: Option<bool>,
    /// Whether the client supports change annotations.
    pub change_annotation_support: Option<ChangeAnnotationWorkspaceEditClientCapabilities>,
}

/// A kind of resource operation.
#[derive(Debug, Eq, PartialEq, Copy, Clone)]
pub enum ResourceOperationKind {
    Create,
    Rename,
    Delete,
}

/// A failure handling strategy.
#[derive(Debug, Eq, PartialEq, Copy, Clone)]
pub enum FailureHandlingKind {
    Abort,
    Transactional,
    TextOnlyTransactional,
    Undo,
}

/// A symbol kind.
#[derive(Debug, Eq, PartialEq, Copy, Clone)]
pub enum SymbolKind {
    File,
    Module,
    Namespace,
    Package,
    Class,
    Method,
    Property,
    Field,
    Constructor,
    Enum,
    Interface,
    Function,
    Variable,
    Constant,
    String,
    Number,
    Boolean,
    Array,
    Object,
    Key,
    Null,
    EnumMember,
    Struct,
    Event,
    Operator,
    TypeParameter,
    /// Any kind this library does not know.
    Unknown,
}

impl SymbolKind {
    /// The number that stands for this value in the protocol.
    pub open spec fn protocol_code(self) -> u8 {
        match self {
            SymbolKind::File => 1,
            SymbolKind::Module => 2,
            SymbolKind::Namespace => 3,
            SymbolKind::Package => 4,
            SymbolKind::Class => 5,
            SymbolKind::Method => 6,
            SymbolKind::Property => 7,
            SymbolKind::Field => 8,
            SymbolKind::Constructor => 9,
            SymbolKind::Enum => 10,
            SymbolKind::Interface => 11,
            SymbolKind::Function => 12,
            SymbolKind::Variable => 13,
            SymbolKind::Constant => 14,
            SymbolKind::String => 15,
            SymbolKind::Number => 16,
            SymbolKind::Boolean => 17,
            SymbolKind::Array => 18,
            SymbolKind::Object => 19,
            SymbolKind::Key => 20,
            SymbolKind::Null => 21,
            SymbolKind::EnumMember => 22,
            SymbolKind::Struct => 23,
            SymbolKind::Event => 24,
            SymbolKind::Operator => 25,
            SymbolKind::TypeParameter => 26,
            SymbolKind::Unknown => 255,
        }
    }

    /// The number that stands for this value in the protocol.
    pub fn code(&self) -> (res: u8)
        ensures
            res == self.protocol_code(),
    {
        match self {
            SymbolKind::File => 1,
            SymbolKind::Module => 2,
            SymbolKind::Namespace => 3,
            SymbolKind::Package => 4,
            SymbolKind::Class => 5,
            SymbolKind::Method => 6,
            SymbolKind::Property => 7,
            SymbolKind::Field => 8,
            SymbolKind::Constructor => 9,
            SymbolKind::Enum => 10,
            SymbolKind::Interface => 11,
            SymbolKind::Function => 12,
            SymbolKind::Variable => 13,
            SymbolKind::Constant => 14,
            SymbolKind::String => 15,
            SymbolKind::Number => 16,
            SymbolKind::Boolean => 17,
            SymbolKind::Array => 18,
            SymbolKind::Object => 19,
            SymbolKind::Key => 20,
            SymbolKind::Null => 21,
            SymbolKind::EnumMember => 22,
            SymbolKind::Struct => 23,
            SymbolKind::Event => 24,
            SymbolKind::Operator => 25,
            SymbolKind::TypeParameter => 26,
            SymbolKind::Unknown => 255,
        }
    }
}

/// Each value has its fixed protocol number.
pub proof fn lemma_symbol_kind_codes()
    ensures
        SymbolKind::File.protocol_code() == 1,
        SymbolKind::Module.protocol_code() == 2,
        SymbolKind::Namespace.protocol_code() == 3,
        SymbolKind::Package.protocol_code() == 4,
        SymbolKind::Class.protocol_code() == 5,
        SymbolKind::Method.protocol_code() == 6,
        SymbolKind::Property.protocol_code() == 7,
        SymbolKind::Field.protocol_code() == 8,
        SymbolKind::Constructor.protocol_code() == 9,
        SymbolKind::Enum.protocol_code() == 10,
        SymbolKind::Interface.protocol_code() == 11,
        SymbolKind::Function.protocol_code() == 12,
        SymbolKind::Variable.protocol_code() == 13,
        SymbolKind::Constant.protocol_code() == 14,
        SymbolKind::String.protocol_code() == 15,
        SymbolKind::Number.protocol_code() == 16,
        SymbolKind::Boolean.protocol_code() == 17,
        SymbolKind::Array.protocol_code() == 18,
        SymbolKind::Object.protocol_code() == 19,
        SymbolKind::Key.protocol_code() == 20,
        SymbolKind::Null.protocol_code() == 21,
        SymbolKind::EnumMember.protocol_code() == 22,
        SymbolKind::Struct.protocol_code() == 23,
        SymbolKind::Event.protocol_code() == 24,
        SymbolKind::Operator.protocol_code() == 25,
        SymbolKind::TypeParameter.protocol_code() == 26,
        SymbolKind::Unknown.protocol_code() == 255,
{
}

/// The symbol kinds a client supports.
#[derive(Debug, Eq, PartialEq, Clone, Default)]
pub struct SymbolKindCapability {
    /// The symbol kind values the client supports.
    pub value_set: Option<Vec<SymbolKind>>,
}

/// Workspace specific client capabilities.
#[derive(Debug, Eq, PartialEq, Clone, Default)]
pub struct WorkspaceClientCapabilities {
    /// The client supports `workspace/applyEdit`.
    pub apply_edit: Option<bool>,
    /// Capabilities specific to workspace edits.
    pub workspace_edit: Option<WorkspaceEditClientCapabilities>,
    /// Capabilities of `workspace/didChangeConfiguration`.
    pub did_change_configuration: Option<DidChangeConfigurationClientCapabilities>,
    /// Capabilities of `workspace/didChangeWatchedFiles`.
    pub did_change_watched_files: Option<DidChangeWatchedFilesClientCapabilities>,
    /// Capabilities of `workspace/executeCommand`.
    pub execute_command: Option<ExecuteCommandClientCapabilities>,
    /// The client supports workspace folders.
    pub workspace_folders: Option<bool>,
    /// The client supports `workspace/configuration`.
    pub configuration: Option<bool>,
}

/// Client capabilities of text document synchronization.
#[derive(Debug, Eq, PartialEq, Clone, Default)]
pub struct TextDocumentSyncClientCapabilities {
    /// Whether synchronization supports dynamic registration.
    pub dynamic_registration: Option<bool>,
    /// The client sends will-save notifications.
    pub will_save: Option<bool>,
    /// The client sends will-save-wait-until requests.
    pub will_save_wait_until: Option<bool>,
    /// The client sends did-save notifications.
    pub did_save: Option<bool>,
}

/// Client capabilities of published diagnostics.
#[derive(Debug, Eq, PartialEq, Clone, Default)]
pub struct PublishDiagnosticsClientCapabilities {
    /// Whether the client accepts related information.
    pub related_information: Option<bool>,
    /// The diagnostic tags the client supports.
    pub tag_support: Option<TagSupport<DiagnosticTag>>,
    /// Whether the client interprets the version property.
    pub version_support: Option<bool>,
    /// Whether the client supports a code description.
    pub code_description_support: Option<bool>,
    /// Whether the client preserves the data property.
    pub data_support: Option<bool>,
}

/// A set of supported tags.
#[derive(Debug, Eq, PartialEq, Clone, Default)]
pub struct TagSupport<T> {
    /// The tags supported by the client.
    pub value_set: Vec<T>,
}

impl<T> TagSupport<T> {
    /// Reads a tag support capability that a client may also send as a plain
    /// boolean: `false` or an absent value means no support, `true` means
    /// support with an empty set of tags, and an object is taken as it is.
    pub fn resolve_compat(value: Option<OneOf<bool, TagSupport<T>>>) -> (res: Option<TagSupport<T>>)
        ensures
            value is None ==> res is None,
            value matches Some(OneOf::Left(flag)) ==> (res is Some <==> flag),
            value matches Some(OneOf::Left(flag)) ==> (res matches Some(t) ==> t.value_set@.len() == 0),
            value matches Some(OneOf::Right(t)) ==> res == Some(t),
    {
        match value {
            Some(OneOf::Left(false)) => None,
            Some(OneOf::Left(true)) => Some(TagSupport { value_set: Vec::new() }),
            Some(OneOf::Right(other)) => Some(other),
            None => None,
        }
    }
}

/// Text document specific client capabilities.
#[derive(Debug, Eq, PartialEq, Clone, Default)]
pub struct TextDocumentClientCapabilities {
    pub synchronization: Option<TextDocumentSyncClientCapabilities>,
    /// Capabilities of `textDocument/declaration`.
    pub declaration: Option<GotoCapability>,
    /// Capabilities of `textDocument/definition`.
    pub definition: Option<GotoCapability>,
    /// Capabilities of `textDocument/typeDefinition`.
    pub type_definition: Option<GotoCapability>,
    /// Capabilities of `textDocument/implementation`.
    pub implementation: Option<GotoCapability>,
    /// Capabilities of `textDocument/publishDiagnostics`.
    pub publish_diagnostics: Option<PublishDiagnosticsClientCapabilities>,
}

/// The capabilities of a client.
#[derive(Debug, PartialEq, Clone, Default)]
pub struct ClientCapabilities {
    /// Workspace specific client capabilities.
    pub workspace: Option<WorkspaceClientCapabilities>,
    /// Text document specific client capabilities.
    pub text_document: Option<TextDocumentClientCapabilities>,
    /// General client capabilities.
    pub general: Option<GeneralClientCapabilities>,
    /// Experimental client capabilities.
    pub experimental: Option<Value>,
}

/// General client capabilities.
#[derive(Debug, PartialEq, Clone, Default)]
pub struct GeneralClientCapabilities {
    /// Client capabilities specific to regular expressions.
    pub regular_expressions: Option<RegularExpressionsClientCapabilities>,
    /// Client capabilities specific to the client's markdown parser.
    pub markdown: Option<MarkdownClientCapabilities>,
}

/// How the client handles stale requests.
#[derive(Debug, PartialEq, Clone, Default)]
pub struct StaleRequestSupportClientCapabilities {
    /// The client will actively cancel the request.
    pub cancel: bool,
    /// The requests the client retries on a content-modified error.
    pub retry_on_content_modified: Vec<String>,
}

/// Client capabilities of regular expressions.
#[derive(Debug, PartialEq, Clone, Default)]
pub struct RegularExpressionsClientCapabilities {
    /// The engine's name.
    pub engine: String,
    /// The engine's version.
    pub version: Option<String>,
}

/// Client capabilities of the markdown parser.
#[derive(Debug, PartialEq, Clone, Default)]
pub struct MarkdownClientCapabilities {
    /// The name of the parser.
    pub parser: String,
    /// The version of the parser.
    pub version: Option<String>,
}

/// How the editor syncs document changes to the server.
#[derive(Debug, Eq, PartialEq, Clone, Copy)]
pub enum TextDocumentSyncKind {
    /// Documents are not synced.
    NoSync,
    /// The full content is always sent.
    Full,
    /// Full content on open, incremental updates after.
    Incremental,
}

impl TextDocumentSyncKind {
    /// The number that stands for this value in the protocol.
    pub open spec fn protocol_code(self) -> u8 {
        match self {
            TextDocumentSyncKind::NoSync => 0,
            TextDocumentSyncKind::Full => 1,
            TextDocumentSyncKind::Incremental => 2,
        }
    }

    /// The number that stands for this value in the protocol.
    pub fn code(&self) -> (res: u8)
        ensures
            res == self.protocol_code(),
    {
        match self {
            TextDocumentSyncKind::NoSync => 0,
            TextDocumentSyncKind::Full => 1,
            TextDocumentSyncKind::Incremental => 2,
        }
    }
}

/// Each value has its fixed protocol number.
pub proof fn lemma_text_document_sync_kind_codes()
    ensures
        TextDocumentSyncKind::NoSync.protocol_code() == 0,
        TextDocumentSyncKind::Full.protocol_code() == 1,
        TextDocumentSyncKind::Incremental.protocol_code() == 2,
{
}

/// Execute command options.
#[derive(Debug, Eq, PartialEq, Clone, Default)]
pub struct ExecuteCommandOptions {
    /// The commands to be executed on the server.
    pub commands: Vec<String>,
    pub work_done_progress_options: WorkDoneProgressOptions,
}

/// Save options.
#[derive(Debug, Eq, PartialEq, Clone, Default)]
pub struct SaveOptions {
    /// The client is supposed to include the content on save.
    pub include_text: Option<bool>,
}

/// Save notifications: a flag or options.
#[derive(Debug, Eq, PartialEq, Clone)]
pub enum TextDocumentSyncSaveOptions {
    Supported(bool),
    SaveOptions(SaveOptions),
}

impl From<SaveOptions> for TextDocumentSyncSaveOptions {
    fn from(from: SaveOptions) -> (res: TextDocumentSyncSaveOptions)
        ensures
            res == TextDocumentSyncSaveOptions::SaveOptions(from),
    {
        TextDocumentSyncSaveOptions::SaveOptions(from)
    }
}

impl vstd::std_specs::convert::FromSpecImpl<SaveOptions> for TextDocumentSyncSaveOptions {
    open spec fn obeys_from_spec() -> bool {
        true
    }

    open spec fn from_spec(v: SaveOptions) -> TextDocumentSyncSaveOptions {
        TextDocumentSyncSaveOptions::SaveOptions(v)
    }
}

impl From<bool> for TextDocumentSyncSaveOptions {
    fn from(from: bool) -> (res: TextDocumentSyncSaveOptions)
        ensures
            res == TextDocumentSyncSaveOptions::Supported(from),
    {
        TextDocumentSyncSaveOptions::Supported(from)
    }
}

impl vstd::std_specs::convert::FromSpecImpl<bool> for TextDocumentSyncSaveOptions {
    open spec fn obeys_from_spec() -> bool {
        true
    }

    open spec fn from_spec(v: bool) -> TextDocumentSyncSaveOptions {
        TextDocumentSyncSaveOptions::Supported(v)
    }
}

/// Text document synchronization options.
#[derive(Debug, Eq, PartialEq, Clone, Default)]
pub struct TextDocumentSyncOptions {
    /// Open and close notifications are sent to the server.
    pub open_close: Option<bool>,
    /// Change notifications are sent to the server.
    pub change: Option<TextDocumentSyncKind>,
    /// Will-save notifications are sent to the server.
    pub will_save: Option<bool>,
    /// Will-save-wait-until requests are sent to the server.
    pub will_save_wait_until: Option<bool>,
    /// Save notifications are sent to the server.
    pub save: Option<TextDocumentSyncSaveOptions>,
}

/// How text documents are synced: a kind or options.
#[derive(Debug, Eq, PartialEq, Clone)]
pub enum TextDocumentSyncCapability {
    Kind(TextDocumentSyncKind),
    Options(TextDocumentSyncOptions),
}

impl From<TextDocumentSyncOptions> for TextDocumentSyncCapability {
    fn from(from: TextDocumentSyncOptions) -> (res: TextDocumentSyncCapability)
        ensures
            res == TextDocumentSyncCapability::Options(from),
    {
        TextDocumentSyncCapability::Options(from)
    }
}

impl vstd::std_specs::convert::FromSpecImpl<TextDocumentSyncOptions> for TextDocumentSyncCapability {
    open spec fn obeys_from_spec() -> bool {
        true
    }

    open spec fn from_spec(v: TextDocumentSyncOptions) -> TextDocumentSyncCapability {
        TextDocumentSyncCapability::Options(v)
    }
}

impl From<TextDocumentSyncKind> for TextDocumentSyncCapability {
    fn from(from: TextDocumentSyncKind) -> (res: TextDocumentSyncCapability)
        ensures
            res == TextDocumentSyncCapability::Kind(from),
    {
        TextDocumentSyncCapability::Kind(from)
    }
}

impl vstd::std_specs::convert::FromSpecImpl<TextDocumentSyncKind> for TextDocumentSyncCapability {
    open spec fn obeys_from_spec() -> bool {
        true
    }

    open spec fn from_spec(v: TextDocumentSyncKind) -> TextDocumentSyncCapability {
        TextDocumentSyncCapability::Kind(v)
    }
}

/// Goto implementation support.
#[derive(Debug, Eq, PartialEq, Clone)]
pub enum ImplementationProviderCapability {
    Simple(bool),
    Options(StaticTextDocumentRegistrationOptions),
}

impl From<StaticTextDocumentRegistrationOptions> for ImplementationProviderCapability {
    fn from(from: StaticTextDocumentRegistrationOptions) -> (res: ImplementationProviderCapability)
        ensures
            res == ImplementationProviderCapability::Options(from),
    {
        ImplementationProviderCapability::Options(from)
    }
}

impl vstd::std_specs::convert::FromSpecImpl<StaticTextDocumentRegistrationOptions> for ImplementationProviderCapability {
    open spec fn obeys_from_spec() -> bool {
        true
    }

    open spec fn from_spec(v: StaticTextDocumentRegistrationOptions) -> ImplementationProviderCapability {
        ImplementationProviderCapability::Options(v)
    }
}

impl From<bool> for ImplementationProviderCapability {
    fn from(from: bool) -> (res: ImplementationProviderCapability)
        ensures
            res == ImplementationProviderCapability::Simple(from),
    {
        ImplementationProviderCapability::Simple(from)
    }
}

impl vstd::std_specs::convert::FromSpecImpl<bool> for ImplementationProviderCapability {
    open spec fn obeys_from_spec() -> bool {
        true
    }

    open spec fn from_spec(v: bool) -> ImplementationProviderCapability {
        ImplementationProviderCapability::Simple(v)
    }
}

/// Goto type definition support.
#[derive(Debug, Eq, PartialEq, Clone)]
pub enum TypeDefinitionProviderCapability {
    Simple(bool),
    Options(StaticTextDocumentRegistrationOptions),
}

impl From<StaticTextDocumentRegistrationOptions> for TypeDefinitionProviderCapability {
    fn from(from: StaticTextDocumentRegistrationOptions) -> (res: TypeDefinitionProviderCapability)
        ensures
            res == TypeDefinitionProviderCapability::Options(from),
    {
        TypeDefinitionProviderCapability::Options(from)
    }
}

impl vstd::std_specs::convert::FromSpecImpl<StaticTextDocumentRegistrationOptions> for TypeDefinitionProviderCapability {
    open spec fn obeys_from_spec() -> bool {
        true
    }

    open spec fn from_spec(v: StaticTextDocumentRegistrationOptions) -> TypeDefinitionProviderCapability {
        TypeDefinitionProviderCapability::Options(v)
    }
}

impl From<bool> for TypeDefinitionProviderCapability {
    fn from(from: bool) -> (res: TypeDefinitionProviderCapability)
        ensures
            res == TypeDefinitionProviderCapability::Simple(from),
    {
        TypeDefinitionProviderCapability::Simple(from)
    }
}

impl vstd::std_specs::convert::FromSpecImpl<bool> for TypeDefinitionProviderCapability {
    open spec fn obeys_from_spec() -> bool {
        true
    }

    open spec fn from_spec(v: bool) -> TypeDefinitionProviderCapability {
        TypeDefinitionProviderCapability::Simple(v)
    }
}

/// The capabilities of a server.
#[derive(Debug, PartialEq, Clone, Default)]
pub struct ServerCapabilities {
    /// Defines how text documents are synced.
    pub text_document_sync: Option<TextDocumentSyncCapability>,
    /// Goto definition support.
    pub definition_provider: Option<OneOf<bool, DefinitionOptions>>,
    /// Goto type definition support.
    pub type_definition_provider: Option<TypeDefinitionProviderCapability>,
    /// Goto implementation support.
    pub implementation_provider: Option<ImplementationProviderCapability>,
    /// Find references support.
    pub references_provider: Option<OneOf<bool, ReferencesOptions>>,
    /// Document highlight support.
    pub document_highlight_provider: Option<OneOf<bool, DocumentHighlightOptions>>,
    /// Document symbol support.
    pub document_symbol_provider: Option<OneOf<bool, DocumentSymbolOptions>>,
    /// Workspace symbol support.
    pub workspace_symbol_provider: Option<OneOf<bool, WorkspaceSymbolOptions>>,
    /// Document formatting.
    pub document_formatting_provider: Option<OneOf<bool, DocumentFormattingOptions>>,
    /// Document range formatting.
    pub document_range_formatting_provider: Option<OneOf<bool, DocumentRangeFormattingOptions>>,
    /// Go to declaration support.
    pub declaration_provider: Option<DeclarationCapability>,
    /// Execute command support.
    pub execute_command_provider: Option<ExecuteCommandOptions>,
    /// Workspace specific server capabilities.
    pub workspace: Option<WorkspaceServerCapabilities>,
    /// Experimental server capabilities.
    pub experimental: Option<Value>,
}

/// Workspace specific server capabilities.
#[derive(Debug, Eq, PartialEq, Clone, Default)]
pub struct WorkspaceServerCapabilities {}

/// Converting save options wraps exactly those options.
pub proof fn lemma_save_options_from_options(v: SaveOptions)
    ensures
        <TextDocumentSyncSaveOptions as FromSpec<SaveOptions>>::from_spec(v) == TextDocumentSyncSaveOptions::SaveOptions(v),
        <TextDocumentSyncSaveOptions as FromSpec<SaveOptions>>::from_spec(v) matches TextDocumentSyncSaveOptions::SaveOptions(w) && w == v,
{
}

/// Converting a flag gives the plain flag form, with the same flag.
pub proof fn lemma_save_options_from_bool(v: bool)
    ensures
        <TextDocumentSyncSaveOptions as FromSpec<bool>>::from_spec(v) == TextDocumentSyncSaveOptions::Supported(v),
        <TextDocumentSyncSaveOptions as FromSpec<bool>>::from_spec(v) matches TextDocumentSyncSaveOptions::Supported(w) && w == v,
{
}

/// Converting sync options wraps exactly those options.
pub proof fn lemma_sync_capability_from_options(v: TextDocumentSyncOptions)
    ensures
        <TextDocumentSyncCapability as FromSpec<TextDocumentSyncOptions>>::from_spec(v) == TextDocumentSyncCapability::Options(v),
        <TextDocumentSyncCapability as FromSpec<TextDocumentSyncOptions>>::from_spec(v) matches TextDocumentSyncCapability::Options(w) && w == v,
{
}

/// Converting a sync kind gives the capability that is exactly that kind.
pub proof fn lemma_sync_capability_from_kind(v: TextDocumentSyncKind)
    ensures
        <TextDocumentSyncCapability as FromSpec<TextDocumentSyncKind>>::from_spec(v) == TextDocumentSyncCapability::Kind(v),
        <TextDocumentSyncCapability as FromSpec<TextDocumentSyncKind>>::from_spec(v) matches TextDocumentSyncCapability::Kind(w) && w == v,
{
}

/// Converting registration options wraps exactly those options.
pub proof fn lemma_implementation_provider_from_options(v: StaticTextDocumentRegistrationOptions)
    ensures
        <ImplementationProviderCapability as FromSpec<StaticTextDocumentRegistrationOptions>>::from_spec(v) == ImplementationProviderCapability::Options(v),
        <ImplementationProviderCapability as FromSpec<StaticTextDocumentRegistrationOptions>>::from_spec(v) matches ImplementationProviderCapability::Options(w) && w == v,
{
}

/// Converting a flag gives the plain flag form, with the same flag.
pub proof fn lemma_implementation_provider_from_bool(v: bool)
    ensures
        <ImplementationProviderCapability as FromSpec<bool>>::from_spec(v) == ImplementationProviderCapability::Simple(v),
        <ImplementationProviderCapability as FromSpec<bool>>::from_spec(v) matches ImplementationProviderCapability::Simple(w) && w == v,
{
}

/// Converting registration options wraps exactly those options.
pub proof fn lemma_type_definition_provider_from_options(v: StaticTextDocumentRegistrationOptions)
    ensures
        <TypeDefinitionProviderCapability as FromSpec<StaticTextDocumentRegistrationOptions>>::from_spec(v) == TypeDefinitionProviderCapability::Options(v),
        <TypeDefinitionProviderCapability as FromSpec<StaticTextDocumentRegistrationOptions>>::from_spec(v) matches TypeDefinitionProviderCapability::Options(w) && w == v,
{
}

/// Converting a flag gives the plain flag form, with the same flag.
pub proof fn lemma_type_definition_provider_from_bool(v: bool)
    ensures
        <TypeDefinitionProviderCapability as FromSpec<bool>>::from_spec(v) == TypeDefinitionProviderCapability::Simple(v),
        <TypeDefinitionProviderCapability as FromSpec<bool>>::from_spec(v) matches TypeDefinitionProviderCapability::Simple(w) && w == v,
{
}

} // verus!
