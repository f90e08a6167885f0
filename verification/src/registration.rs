use vstd::prelude::*;
use url::Url;
use serde_json::Value;
use crate::{DocumentSelector, ExecuteCommandOptions, PartialResultParams, TextDocumentPositionParams, WorkDoneProgressParams};

verus! {

/// Registration options shared by many requests.
#[derive(Debug, Eq, PartialEq, Clone)]
pub struct GenericRegistrationOptions {
    pub text_document_registration_options: TextDocumentRegistrationOptions,
    pub options: GenericOptions,
    pub static_registration_options: StaticRegistrationOptions,
}

/// Options shared by many requests.
#[derive(Debug, Eq, PartialEq, Clone)]
pub struct GenericOptions {
    pub work_done_progress_options: WorkDoneProgressOptions,
}

/// Parameters shared by many requests.
#[derive(Debug, Eq, PartialEq, Clone)]
pub struct GenericParams {
    pub text_document_position_params: TextDocumentPositionParams,
    pub work_done_progress_params: WorkDoneProgressParams,
    pub partial_result_params: PartialResultParams,
}

/// General parameters to register for a capability.
#[derive(Debug, PartialEq, Clone)]
pub struct Registration {
    /// The id used to register the request.
    pub id: String,
    /// The method to register for.
    pub method: String,
    /// Options necessary for the registration.
    pub register_options: Option<Value>,
}

/// Parameters of a `client/registerCapability` request.
#[derive(Debug, PartialEq, Clone)]
pub struct RegistrationParams {
    pub registrations: Vec<Registration>,
}

/// Registration options with a document selector.
#[derive(Debug, Eq, PartialEq, Clone, Default)]
pub struct TextDocumentRegistrationOptions {
    /// The documents the registration is for; the client side selector when `None`.
    pub document_selector: Option<DocumentSelector>,
}

/// Go to declaration support.
#[derive(Debug, Eq, PartialEq, Clone)]
pub enum DeclarationCapability {
    Simple(bool),
    RegistrationOptions(DeclarationRegistrationOptions),
    Options(DeclarationOptions),
}

/// Registration options of go to declaration.
#[derive(Debug, Eq, PartialEq, Clone)]
pub struct DeclarationRegistrationOptions {
    pub declaration_options: DeclarationOptions,
    pub text_document_registration_options: TextDocumentRegistrationOptions,
    pub static_registration_options: StaticRegistrationOptions,
}

/// Go to declaration options.
#[derive(Debug, Eq, PartialEq, Clone)]
pub struct DeclarationOptions {
    pub work_done_progress_options: WorkDoneProgressOptions,
}

/// Static registration options.
#[derive(Debug, Eq, PartialEq, Clone, Default)]
pub struct StaticRegistrationOptions {
    pub id: Option<String>,
}

/// Work done progress options.
#[derive(Debug, Default, Eq, PartialEq, Clone)]
pub struct WorkDoneProgressOptions {
    pub work_done_progress: Option<bool>,
}

/// Document formatting options.
#[derive(Debug, Eq, PartialEq, Clone, Default)]
pub struct DocumentFormattingOptions {
    pub work_done_progress_options: WorkDoneProgressOptions,
}

/// Document range formatting options.
#[derive(Debug, Eq, PartialEq, Clone)]
pub struct DocumentRangeFormattingOptions {
    pub work_done_progress_options: WorkDoneProgressOptions,
}

/// Goto definition options.
#[derive(Debug, Eq, PartialEq, Clone)]
pub struct DefinitionOptions {
    pub work_done_progress_options: WorkDoneProgressOptions,
}

/// Document symbol options.
#[derive(Debug, Eq, PartialEq, Clone)]
pub struct DocumentSymbolOptions {
    /// A label shown when several outline trees are shown for one document.
    pub label: Option<String>,
    pub work_done_progress_options: WorkDoneProgressOptions,
}

/// Find references options.
#[derive(Debug, Eq, PartialEq, Clone)]
pub struct ReferencesOptions {
    pub work_done_progress_options: WorkDoneProgressOptions,
}

/// Document highlight options.
#[derive(Debug, Eq, PartialEq, Clone)]
pub struct DocumentHighlightOptions {
    pub work_done_progress_options: WorkDoneProgressOptions,
}

/// Workspace symbol options.
#[derive(Debug, Eq, PartialEq, Clone)]
pub struct WorkspaceSymbolOptions {
    pub work_done_progress_options: WorkDoneProgressOptions,
}

/// Static registration options with a document selector.
#[derive(Debug, Eq, PartialEq, Clone)]
pub struct StaticTextDocumentRegistrationOptions {
    /// The documents the registration is for; the client side selector when `None`.
    pub document_selector: Option<DocumentSelector>,
    pub id: Option<String>,
}

/// General parameters to unregister a capability.
#[derive(Debug, Eq, PartialEq, Clone)]
pub struct Unregistration {
    /// The id used to unregister the request or notification.
    pub id: String,
    /// The method to unregister for.
    pub method: String,
}

/// Parameters of a `client/unregisterCapability` request.
#[derive(Debug, Eq, PartialEq, Clone)]
pub struct UnregistrationParams {
    pub unregisterations: Vec<Unregistration>,
}

/// Options to register for text document change events.
#[derive(Debug, Eq, PartialEq, Clone)]
pub struct TextDocumentChangeRegistrationOptions {
    /// The documents the registration is for.
    pub document_selector: Option<DocumentSelector>,
    /// How documents are synced to the server.
    pub sync_kind: i32,
}

/// Options to register for save notifications.
#[derive(Debug, Eq, PartialEq, Clone)]
pub struct TextDocumentSaveRegistrationOptions {
    /// The client is supposed to include the content on save.
    pub include_text: Option<bool>,
    pub text_document_registration_options: TextDocumentRegistrationOptions,
}

/// Parameters of a `workspace/configuration` request.
#[derive(Debug, Default, Eq, PartialEq, Clone)]
pub struct ConfigurationParams {
    pub items: Vec<ConfigurationItem>,
}

/// One configuration section asked for.
#[derive(Debug, Default, Eq, PartialEq, Clone)]
pub struct ConfigurationItem {
    /// The scope to get the configuration section for.
    pub scope_uri: Option<Url>,
    /// The configuration section asked for.
    pub section: Option<String>,
}

/// Parameters of a `workspace/didChangeConfiguration` notification.
#[derive(Debug, PartialEq, Clone)]
pub struct DidChangeConfigurationParams {
    /// The actual changed settings.
    pub settings: Value,
}

/// Parameters of a `workspace/executeCommand` request.
#[derive(Debug, PartialEq, Clone, Default)]
pub struct ExecuteCommandParams {
    /// The identifier of the command handler.
    pub command: String,
    /// Arguments that the command should be invoked with.
    pub arguments: Vec<Value>,
    pub work_done_progress_params: WorkDoneProgressParams,
}

/// Execute command registration options.
#[derive(Debug, Eq, PartialEq, Clone)]
pub struct ExecuteCommandRegistrationOptions {
    /// The commands to be executed on the server.
    pub commands: Vec<String>,
    pub execute_command_options: ExecuteCommandOptions,
}

} // verus!
