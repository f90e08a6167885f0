use vstd::prelude::*;
use url::Url;
use serde_json::Value;
use crate::{ClientCapabilities, ServerCapabilities};

verus! {

/// Parameters of the `initialize` request.
#[derive(Debug, PartialEq, Clone)]
pub struct InitializeParams {
    /// The process id of the parent process, if any.
    pub process_id: Option<u32>,
    /// The root path of the workspace (superseded by `root_uri`).
    pub root_path: Option<String>,
    /// The root URI of the workspace.
    pub root_uri: Option<Url>,
    /// User provided initialization options.
    pub initialization_options: Option<Value>,
    /// The capabilities provided by the client.
    pub capabilities: ClientCapabilities,
    /// The initial trace setting; off when omitted.
    pub trace: Option<TraceOption>,
    /// The workspace folders configured in the client.
    pub workspace_folders: Option<Vec<WorkspaceFolder>>,
    /// Information about the client.
    pub client_info: Option<ClientInfo>,
    /// The locale the client shows its user interface in.
    pub locale: Option<String>,
}

/// Information about the client.
#[derive(Debug, PartialEq, Clone)]
pub struct ClientInfo {
    /// The name of the client.
    pub name: String,
    /// The client's version.
    pub version: Option<String>,
}

/// Parameters of the `initialized` notification.
#[derive(Debug, PartialEq, Clone, Copy)]
pub struct InitializedParams {}

/// A trace setting.
#[derive(Debug, Eq, PartialEq, Clone, Copy)]
pub enum TraceOption {
    Off,
    Messages,
    Verbose,
}

impl Default for TraceOption {
    fn default() -> (res: TraceOption)
        ensures
            res == TraceOption::Off,
    {
        TraceOption::Off
    }
}

/// The answer to the `initialize` request.
#[derive(Debug, PartialEq, Clone, Default)]
pub struct InitializeResult {
    /// The capabilities the language server provides.
    pub capabilities: ServerCapabilities,
    /// Information about the server.
    pub server_info: Option<ServerInfo>,
}

/// Information about the server.
#[derive(Debug, Eq, PartialEq, Clone, Default)]
pub struct ServerInfo {
    /// The name of the server.
    pub name: String,
    /// The server's version.
    pub version: Option<String>,
}

/// Data of an `initialize` error.
#[derive(Debug, Eq, PartialEq, Clone, Default)]
pub struct InitializeError {
    /// Whether the client should retry the initialize request.
    pub retry: bool,
}

/// A workspace folder.
#[derive(Debug, Eq, PartialEq, Clone)]
pub struct WorkspaceFolder {
    /// The associated URI for this workspace folder.
    pub uri: Url,
    /// The name of the workspace folder.
    pub name: String,
}

} // verus!
