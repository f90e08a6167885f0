use vstd::prelude::*;
use std::collections::HashMap;
use url::Url;
use serde_json::Value;
use crate::{OneOf, OptionalVersionedTextDocumentIdentifier, Range};

verus! {

/// A reference to a command, with a title to show in the user interface.
#[derive(Debug, PartialEq, Clone, Default)]
pub struct Command {
    /// Title of the command, like `save`.
    pub title: String,
    /// The identifier of the command handler.
    pub command: String,
    /// Arguments that the command handler should be invoked with.
    pub arguments: Option<Vec<Value>>,
}

impl Command {
    pub fn new(title: String, command: String, arguments: Option<Vec<Value>>) -> (res: Command)
        ensures
            res.title == title,
            res.command == command,
            res.arguments == arguments,
    {
        Command { title, command, arguments }
    }
}

/// A textual edit applicable to a text document.
#[derive(Debug, Eq, PartialEq, Clone, Default)]
pub struct TextEdit {
    /// The range to replace; an empty range inserts.
    pub range: Range,
    /// The text to insert; empty for a deletion.
    pub new_text: String,
}

impl TextEdit {
    pub fn new(range: Range, new_text: String) -> (res: TextEdit)
        ensures
            res.range == range,
            res.new_text == new_text,
    {
        TextEdit { range, new_text }
    }
}

/// An identifier of a change annotation managed by a workspace edit.
pub type ChangeAnnotationIdentifier = String;

/// A text edit with a change annotation.
#[derive(Debug, Eq, PartialEq, Clone)]
pub struct AnnotatedTextEdit {
    pub text_edit: TextEdit,
    /// The actual annotation.
    pub annotation_id: ChangeAnnotationIdentifier,
}

/// Textual changes on a single text document.
#[derive(Debug, Eq, PartialEq, Clone)]
pub struct TextDocumentEdit {
    /// The text document to change.
    pub text_document: OptionalVersionedTextDocumentIdentifier,
    /// The edits to be applied.
    pub edits: Vec<OneOf<TextEdit, AnnotatedTextEdit>>,
}

/// Additional information that describes document changes.
#[derive(Debug, Eq, PartialEq, Clone)]
pub struct ChangeAnnotation {
    /// A human-readable description of the change.
    pub label: String,
    /// Whether user confirmation is needed before applying the change.
    pub needs_confirmation: Option<bool>,
    /// A less prominent description.
    pub description: Option<String>,
}

/// Options to create a file.
#[derive(Debug, Eq, PartialEq, Clone)]
pub struct CreateFileOptions {
    /// Overwrite an existing file; wins over `ignore_if_exists`.
    pub overwrite: Option<bool>,
    /// Ignore if exists.
    pub ignore_if_exists: Option<bool>,
}

/// Create file operation.
#[derive(Debug, Eq, PartialEq, Clone)]
pub struct CreateFile {
    /// The resource to create.
    pub uri: Url,
    /// Additional options.
    pub options: Option<CreateFileOptions>,
    /// An optional annotation identifier.
    pub annotation_id: Option<ChangeAnnotationIdentifier>,
}

/// Rename file options.
#[derive(Debug, Eq, PartialEq, Clone)]
pub struct RenameFileOptions {
    /// Overwrite the target if it exists; wins over `ignore_if_exists`.
    pub overwrite: Option<bool>,
    /// Ignore if the target exists.
    pub ignore_if_exists: Option<bool>,
}

/// Rename file operation.
#[derive(Debug, Eq, PartialEq, Clone)]
pub struct RenameFile {
    /// The old (existing) location.
    pub old_uri: Url,
    /// The new location.
    pub new_uri: Url,
    /// Rename options.
    pub options: Option<RenameFileOptions>,
    /// An optional annotation identifier.
    pub annotation_id: Option<ChangeAnnotationIdentifier>,
}

/// Delete file options.
#[derive(Debug, Eq, PartialEq, Clone)]
pub struct DeleteFileOptions {
    /// Delete the content recursively if a folder is denoted.
    pub recursive: Option<bool>,
    /// Ignore the operation if the file doesn't exist.
    pub ignore_if_not_exists: Option<bool>,
    /// An optional annotation identifier.
    pub annotation_id: Option<ChangeAnnotationIdentifier>,
}

/// Delete file operation.
#[derive(Debug, Eq, PartialEq, Clone)]
pub struct DeleteFile {
    /// The file to delete.
    pub uri: Url,
    /// Delete options.
    pub options: Option<DeleteFileOptions>,
}

/// Changes to many resources managed in the workspace.
#[derive(Debug, Eq, PartialEq, Clone, Default)]
pub struct WorkspaceEdit {
    /// Changes to existing resources.
    pub changes: Option<HashMap<Url, Vec<TextEdit>>>,
    /// Versioned document edits, possibly mixed with file operations.
    pub document_changes: Option<DocumentChanges>,
    /// Change annotations referenced by edits and file operations.
    pub change_annotations: Option<HashMap<ChangeAnnotationIdentifier, ChangeAnnotation>>,
}

impl WorkspaceEdit {
    /// A workspace edit made of plain text edits per resource only.
    pub fn new(changes: HashMap<Url, Vec<TextEdit>>) -> (res: WorkspaceEdit)
        ensures
            res.changes == Some(changes),
            res.document_changes is None,
            res.change_annotations is None,
    {
        WorkspaceEdit { changes: Some(changes), document_changes: None, change_annotations: None }
    }
}

/// The document changes of a workspace edit.
#[derive(Debug, Eq, PartialEq, Clone)]
pub enum DocumentChanges {
    Edits(Vec<TextDocumentEdit>),
    Operations(Vec<DocumentChangeOperation>),
}

/// A document change: a file operation or a text document edit.
#[derive(Debug, Eq, PartialEq, Clone)]
pub enum DocumentChangeOperation {
    Op(ResourceOp),
    Edit(TextDocumentEdit),
}

/// A file operation.
#[derive(Debug, Eq, PartialEq, Clone)]
pub enum ResourceOp {
    Create(CreateFile),
    Rename(RenameFile),
    Delete(DeleteFile),
}

/// Parameters of a `workspace/applyEdit` request.
#[derive(Debug, Eq, PartialEq, Clone)]
pub struct ApplyWorkspaceEditParams {
    /// An optional label of the workspace edit.
    pub label: Option<String>,
    /// The edits to apply.
    pub edit: WorkspaceEdit,
}

/// The answer to a `workspace/applyEdit` request.
#[derive(Debug, Eq, PartialEq, Clone)]
pub struct ApplyWorkspaceEditResponse {
    /// Whether the edit was applied.
    pub applied: bool,
    /// Why the edit was not applied.
    pub failure_reason: Option<String>,
    /// The index of the change that failed.
    pub failed_change: Option<u32>,
}

} // verus!
