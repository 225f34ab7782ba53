//! The failures of the server and the JSON-RPC error code of each.

use vstd::prelude::*;
use crate::text::{join, join3};

verus! {

/// The body could not be read as a JSON-RPC message.
pub const PARSE_ERROR: i32 = -32700;

/// The envelope is structurally invalid.
pub const INVALID_REQUEST: i32 = -32600;

/// The method, or the tool, is not known.
pub const METHOD_NOT_FOUND: i32 = -32601;

/// The parameters of a known method or tool are missing or invalid.
pub const INVALID_PARAMS: i32 = -32602;

/// Any other failure inside the server.
pub const INTERNAL_ERROR: i32 = -32603;

/// The backend reported a failure while it ran a tool.
pub const TOOL_FAILURE: i32 = -32000;

/// A failure while a request is handled.
#[derive(Debug, PartialEq, Eq)]
pub enum ServerError {
    Io(String),
    Json(String),
    ApiClient(String),
    InvalidJsonRpcRequest(String),
    MethodNotFound(String),
    InvalidParameters { method: String, details: String },
    ToolError(String),
    ConfigError(String),
}

/// The mathematical model of a [`ServerError`].
pub enum ServerErrorView {
    Io(Seq<char>),
    Json(Seq<char>),
    ApiClient(Seq<char>),
    InvalidJsonRpcRequest(Seq<char>),
    MethodNotFound(Seq<char>),
    InvalidParameters { method: Seq<char>, details: Seq<char> },
    ToolError(Seq<char>),
    ConfigError(Seq<char>),
}

impl View for ServerError {
    type V = ServerErrorView;

    open spec fn view(&self) -> ServerErrorView {
        match self {
            ServerError::Io(s) => ServerErrorView::Io(s@),
            ServerError::Json(s) => ServerErrorView::Json(s@),
            ServerError::ApiClient(s) => ServerErrorView::ApiClient(s@),
            ServerError::InvalidJsonRpcRequest(s) => ServerErrorView::InvalidJsonRpcRequest(s@),
            ServerError::MethodNotFound(s) => ServerErrorView::MethodNotFound(s@),
            ServerError::InvalidParameters { method, details } => ServerErrorView::InvalidParameters {
                method: method@,
                details: details@,
            },
            ServerError::ToolError(s) => ServerErrorView::ToolError(s@),
            ServerError::ConfigError(s) => ServerErrorView::ConfigError(s@),
        }
    }
}

impl ServerErrorView {
    /// The JSON-RPC error code that stands for the failure.
    pub open spec fn code(self) -> int {
        match self {
            ServerErrorView::InvalidJsonRpcRequest(_) => INVALID_REQUEST as int,
            ServerErrorView::MethodNotFound(_) => METHOD_NOT_FOUND as int,
            ServerErrorView::InvalidParameters { .. } => INVALID_PARAMS as int,
            ServerErrorView::ToolError(_) => TOOL_FAILURE as int,
            _ => INTERNAL_ERROR as int,
        }
    }

    /// The failure in words.
    pub open spec fn description(self) -> Seq<char> {
        match self {
            ServerErrorView::Io(s) => "I/O error: "@ + s,
            ServerErrorView::Json(s) => "JSON serialization/deserialization error: "@ + s,
            ServerErrorView::ApiClient(s) => "API client error: "@ + s,
            ServerErrorView::InvalidJsonRpcRequest(s) => "Invalid JSON-RPC request: "@ + s,
            ServerErrorView::MethodNotFound(s) => "Method not found: "@ + s,
            ServerErrorView::InvalidParameters { method, details } => {
                "Invalid parameters for method '"@ + method + "': "@ + details
            },
            ServerErrorView::ToolError(s) => "Internal tool error: "@ + s,
            ServerErrorView::ConfigError(s) => "Configuration error: "@ + s,
        }
    }

    /// The message that a response carries for the failure: the bare text
    /// of an invalid request and of a tool failure, the description of any
    /// other.
    pub open spec fn reported(self) -> Seq<char> {
        match self {
            ServerErrorView::InvalidJsonRpcRequest(s) => s,
            ServerErrorView::ToolError(s) => s,
            _ => self.description(),
        }
    }
}

impl ServerError {
    /// The JSON-RPC error code that stands for the failure.
    pub fn code(&self) -> (code: i32)
        ensures
            code == self@.code(),
    {
        match self {
            ServerError::InvalidJsonRpcRequest(_) => INVALID_REQUEST,
            ServerError::MethodNotFound(_) => METHOD_NOT_FOUND,
            ServerError::InvalidParameters { .. } => INVALID_PARAMS,
            ServerError::ToolError(_) => TOOL_FAILURE,
            _ => INTERNAL_ERROR,
        }
    }

    /// The failure in words.
    pub fn description(&self) -> (words: String)
        ensures
            words@ == self@.description(),
    {
        match self {
            ServerError::Io(s) => join("I/O error: ", s.as_str()),
            ServerError::Json(s) => join("JSON serialization/deserialization error: ", s.as_str()),
            ServerError::ApiClient(s) => join("API client error: ", s.as_str()),
            ServerError::InvalidJsonRpcRequest(s) => join("Invalid JSON-RPC request: ", s.as_str()),
            ServerError::MethodNotFound(s) => join("Method not found: ", s.as_str()),
            ServerError::InvalidParameters { method, details } => {
                let head = join3("Invalid parameters for method '", method.as_str(), "': ");
                join(head.as_str(), details.as_str())
            },
            ServerError::ToolError(s) => join("Internal tool error: ", s.as_str()),
            ServerError::ConfigError(s) => join("Configuration error: ", s.as_str()),
        }
    }

    /// The message that a response carries for the failure.
    pub fn reported(&self) -> (words: String)
        ensures
            words@ == self@.reported(),
    {
        match self {
            ServerError::InvalidJsonRpcRequest(s) => s.clone(),
            ServerError::ToolError(s) => s.clone(),
            _ => self.description(),
        }
    }
}

/// Every failure has one of the five codes of the table, and only a tool
/// failure has the code of one.
pub proof fn lemma_code_is_from_the_table(error: ServerErrorView)
    ensures
        error.code() == INVALID_REQUEST || error.code() == METHOD_NOT_FOUND || error.code()
            == INVALID_PARAMS || error.code() == TOOL_FAILURE || error.code() == INTERNAL_ERROR,
        error.code() == TOOL_FAILURE <==> error is ToolError,
        error.code() == METHOD_NOT_FOUND <==> error is MethodNotFound,
        error.code() == INVALID_PARAMS <==> error is InvalidParameters,
        error.code() == INVALID_REQUEST <==> error is InvalidJsonRpcRequest,
{
}

} // verus!
