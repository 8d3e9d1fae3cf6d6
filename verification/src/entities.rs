//! The domain's records: tools, the requests made of them and the answers.
use vstd::prelude::*;
use crate::json::Json;
use crate::strmap::StrMap;
use crate::text::join2;

verus! {

/// How a tool's process is started: a command and its arguments.
pub struct ToolConfiguration {
    pub command: String,
    pub args: Option<Vec<String>>,
}

/// A tool's environment variables, with an optional command and arguments.
pub struct ToolConfig {
    pub env: Option<StrMap<String>>,
    pub command: Option<String>,
    pub args: Option<Vec<String>>,
}

/// The runtimes a tool can be packaged for.
pub enum ToolType {
    Node,
    Python,
    Docker,
}

impl Default for ToolType {
    /// The runtime assumed when none is given.
    fn default() -> (r: ToolType)
        ensures
            r is Node,
    {
        ToolType::Node
    }
}

/// A registered tool (an MCP server) with all its properties.
pub struct Tool {
    pub name: String,
    pub description: String,
    pub enabled: bool,
    pub tool_type: String,
    pub entry_point: Option<String>,
    pub configuration: Option<ToolConfiguration>,
    pub distribution: Option<Json>,
    pub config: Option<ToolConfig>,
    pub authentication: Option<Json>,
}

pub struct ToolRegistrationRequest {
    pub tool_name: String,
    pub description: String,
    pub authentication: Option<Json>,
    pub tool_type: String,
    pub configuration: Option<Json>,
    pub distribution: Option<Json>,
}

pub struct ToolRegistrationResponse {
    pub success: bool,
    pub message: String,
    pub tool_id: Option<String>,
}

pub struct ToolExecutionRequest {
    pub tool_id: String,
    pub parameters: Json,
}

pub struct ToolExecutionResponse {
    pub success: bool,
    pub result: Option<Json>,
    pub error: Option<String>,
}

pub struct ToolUpdateRequest {
    pub tool_id: String,
    pub enabled: bool,
}

pub struct ToolUpdateResponse {
    pub success: bool,
    pub message: String,
}

pub struct ToolConfigUpdateResponse {
    pub success: bool,
    pub message: String,
}

/// New environment variables for a tool.
pub struct ToolConfigUpdate {
    pub env: Option<StrMap<String>>,
}

pub struct ToolConfigUpdateRequest {
    pub tool_id: String,
    pub config: ToolConfigUpdate,
}

pub struct ToolUninstallRequest {
    pub tool_id: String,
}

pub struct ToolUninstallResponse {
    pub success: bool,
    pub message: String,
}

pub struct DiscoverServerToolsRequest {
    pub server_id: String,
}

pub struct DiscoverServerToolsResponse {
    pub success: bool,
    pub tools: Option<Vec<Json>>,
    pub error: Option<String>,
}

/// What can go wrong in the domain.
pub enum DomainError {
    ToolNotFound(String),
    ToolAlreadyExists(String),
    InvalidToolConfiguration(String),
    ConfigurationError(String),
    ProcessError(String),
    RepositoryError(String),
    ServerNotFound(String),
    ServerClosedConnection,
    StdinWriteError(String),
    StdinFlushError(String),
    StdoutReadError(String),
    TimeoutError(String),
    NoResponse,
    JsonParseError(String),
    ToolExecutionError(String),
    NoResultField,
    SerializationError(String),
}

/// The text under which an error is shown.
pub open spec fn error_text(e: DomainError) -> Seq<char> {
    match e {
        DomainError::ToolNotFound(id) => "Tool not found: "@ + id@,
        DomainError::ToolAlreadyExists(id) => "Tool already exists: "@ + id@,
        DomainError::InvalidToolConfiguration(m) => "Invalid tool configuration: "@ + m@,
        DomainError::ConfigurationError(m) => "Configuration error: "@ + m@,
        DomainError::ProcessError(m) => "Process error: "@ + m@,
        DomainError::RepositoryError(m) => "Repository error: "@ + m@,
        DomainError::ServerNotFound(id) => "Server not found: "@ + id@,
        DomainError::ServerClosedConnection => "Server closed connection"@,
        DomainError::StdinWriteError(m) => "Failed to write to process stdin: "@ + m@,
        DomainError::StdinFlushError(m) => "Failed to flush stdin: "@ + m@,
        DomainError::StdoutReadError(m) => "Failed to read from process stdout: "@ + m@,
        DomainError::TimeoutError(id) => "Timeout waiting for response from server "@ + id@,
        DomainError::NoResponse => "No response from process"@,
        DomainError::JsonParseError(m) => "Failed to parse response as JSON: "@ + m@,
        DomainError::ToolExecutionError(m) => "Tool execution error: "@ + m@,
        DomainError::NoResultField => "Response missing result field"@,
        DomainError::SerializationError(m) => "Serialization error: "@ + m@,
    }
}

impl DomainError {
    /// The text under which the error is shown (its `Display`).
    pub fn message(&self) -> (r: String)
        ensures
            r@ == error_text(*self),
    {
        proof {
            reveal_strlit("Tool not found: ");
            reveal_strlit("Tool already exists: ");
            reveal_strlit("Invalid tool configuration: ");
            reveal_strlit("Configuration error: ");
            reveal_strlit("Process error: ");
            reveal_strlit("Repository error: ");
            reveal_strlit("Server not found: ");
            reveal_strlit("Server closed connection");
            reveal_strlit("Failed to write to process stdin: ");
            reveal_strlit("Failed to flush stdin: ");
            reveal_strlit("Failed to read from process stdout: ");
            reveal_strlit("Timeout waiting for response from server ");
            reveal_strlit("No response from process");
            reveal_strlit("Failed to parse response as JSON: ");
            reveal_strlit("Tool execution error: ");
            reveal_strlit("Response missing result field");
            reveal_strlit("Serialization error: ");
        }
        match self {
            DomainError::ToolNotFound(id) => join2("Tool not found: ", id.as_str()),
            DomainError::ToolAlreadyExists(id) => join2("Tool already exists: ", id.as_str()),
            DomainError::InvalidToolConfiguration(m) => join2("Invalid tool configuration: ", m.as_str()),
            DomainError::ConfigurationError(m) => join2("Configuration error: ", m.as_str()),
            DomainError::ProcessError(m) => join2("Process error: ", m.as_str()),
            DomainError::RepositoryError(m) => join2("Repository error: ", m.as_str()),
            DomainError::ServerNotFound(id) => join2("Server not found: ", id.as_str()),
            DomainError::ServerClosedConnection => String::from_str("Server closed connection"),
            DomainError::StdinWriteError(m) => join2("Failed to write to process stdin: ", m.as_str()),
            DomainError::StdinFlushError(m) => join2("Failed to flush stdin: ", m.as_str()),
            DomainError::StdoutReadError(m) => join2("Failed to read from process stdout: ", m.as_str()),
            DomainError::TimeoutError(id) => join2("Timeout waiting for response from server ", id.as_str()),
            DomainError::NoResponse => String::from_str("No response from process"),
            DomainError::JsonParseError(m) => join2("Failed to parse response as JSON: ", m.as_str()),
            DomainError::ToolExecutionError(m) => join2("Tool execution error: ", m.as_str()),
            DomainError::NoResultField => String::from_str("Response missing result field"),
            DomainError::SerializationError(m) => join2("Serialization error: ", m.as_str()),
        }
    }
}

impl From<String> for DomainError {
    /// A plain message taken as an error comes from the repository.
    fn from(message: String) -> (r: DomainError) {
        DomainError::RepositoryError(message)
    }
}

impl vstd::std_specs::convert::FromSpecImpl<String> for DomainError {
    open spec fn obeys_from_spec() -> bool {
        true
    }

    open spec fn from_spec(message: String) -> DomainError {
        DomainError::RepositoryError(message)
    }
}

} // verus!
