//! Language Server Protocol types.
//!
//! URIs are `url::Url` values; free-form JSON payloads are `serde_json::Value`.

pub use url::Url;

mod external;
pub mod position;
mod basic;
pub mod diagnostic;
mod edit;
pub mod document;
mod initialize;
mod progress;
pub mod markup;
pub mod watch;
pub mod capabilities;
mod registration;

pub use position::{Position, Range};
pub use basic::{NumberOrString, CancelParams, Location, LocationLink, OneOf};
pub use diagnostic::{Diagnostic, CodeDescription, DiagnosticSeverity, DiagnosticRelatedInformation, DiagnosticTag, PublishDiagnosticsParams};
pub use edit::{Command, TextEdit, ChangeAnnotationIdentifier, AnnotatedTextEdit, TextDocumentEdit, ChangeAnnotation, CreateFileOptions, CreateFile, RenameFileOptions, RenameFile, DeleteFileOptions, DeleteFile, WorkspaceEdit, DocumentChanges, DocumentChangeOperation, ResourceOp, ApplyWorkspaceEditParams, ApplyWorkspaceEditResponse};
pub use document::{TextDocumentIdentifier, TextDocumentItem, VersionedTextDocumentIdentifier, OptionalVersionedTextDocumentIdentifier, TextDocumentPositionParams, DocumentFilter, DocumentSelector, DidOpenTextDocumentParams, DidChangeTextDocumentParams, TextDocumentContentChangeEvent, WillSaveTextDocumentParams, TextDocumentSaveReason, DidCloseTextDocumentParams, DidSaveTextDocumentParams, GotoDefinitionParams, GotoDefinitionResponse};
pub use initialize::{InitializeParams, ClientInfo, InitializedParams, TraceOption, InitializeResult, ServerInfo, InitializeError, WorkspaceFolder};
pub use progress::{ProgressToken, WorkDoneProgressParams, PartialResultParams};
pub use markup::{Documentation, MarkedString, LanguageString, MarkupKind, MarkupContent, SymbolTag};
pub use watch::{WatchKind, DidChangeWatchedFilesParams, FileChangeType, FileEvent, DidChangeWatchedFilesRegistrationOptions, FileSystemWatcher};
pub use capabilities::{DidChangeConfigurationClientCapabilities, ExecuteCommandClientCapabilities, DidChangeWatchedFilesClientCapabilities, ChangeAnnotationWorkspaceEditClientCapabilities, DynamicRegistrationClientCapabilities, GotoCapability, WorkspaceEditClientCapabilities, ResourceOperationKind, FailureHandlingKind, SymbolKind, SymbolKindCapability, WorkspaceClientCapabilities, TextDocumentSyncClientCapabilities, PublishDiagnosticsClientCapabilities, TagSupport, TextDocumentClientCapabilities, ClientCapabilities, GeneralClientCapabilities, StaleRequestSupportClientCapabilities, RegularExpressionsClientCapabilities, MarkdownClientCapabilities, TextDocumentSyncKind, ExecuteCommandOptions, SaveOptions, TextDocumentSyncSaveOptions, TextDocumentSyncOptions, TextDocumentSyncCapability, ImplementationProviderCapability, TypeDefinitionProviderCapability, ServerCapabilities, WorkspaceServerCapabilities};
pub use registration::{GenericRegistrationOptions, GenericOptions, GenericParams, Registration, RegistrationParams, TextDocumentRegistrationOptions, DeclarationCapability, DeclarationRegistrationOptions, DeclarationOptions, StaticRegistrationOptions, WorkDoneProgressOptions, DocumentFormattingOptions, DocumentRangeFormattingOptions, DefinitionOptions, DocumentSymbolOptions, ReferencesOptions, DocumentHighlightOptions, WorkspaceSymbolOptions, StaticTextDocumentRegistrationOptions, Unregistration, UnregistrationParams, TextDocumentChangeRegistrationOptions, TextDocumentSaveRegistrationOptions, ConfigurationParams, ConfigurationItem, DidChangeConfigurationParams, ExecuteCommandParams, ExecuteCommandRegistrationOptions};
