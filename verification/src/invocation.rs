//! The decisions of one tool invocation: what the state of the server's
//! connection means for the call, how a JSON input becomes the call's
//! argument mapping, and what the remote reply becomes for the caller. The
//! hosting application looks the connection up, dispatches, and awaits; the
//! functions here decide.

use vstd::prelude::*;
use crate::json::JsonValue;
use crate::response::{ResponsePart, ToolContent, Diagnostic, normalize, normalized_content,
    diagnostics_spec};

verus! {

/// Why one invocation failed. Each failure is terminal for the invocation
/// that met it; nothing is retried here.
#[derive(Debug, Clone, PartialEq)]
pub enum ToolError {
    /// No running connection exists for the server reference.
    ServerNotFound,
    /// A connection exists but has not completed its handshake.
    ServerNotInitialized,
    /// The remote call itself failed; its message passes through verbatim.
    RemoteInvocationFailed(String),
    /// The declared input schema could not be converted to the requested
    /// format.
    SchemaAdaptationFailed,
}

impl ToolError {
    /// The human-readable message of this failure.
    pub open spec fn spec_message(&self) -> Seq<char> {
        match self {
            ToolError::ServerNotFound => "Context server not found"@,
            ToolError::ServerNotInitialized => "Context server not initialized"@,
            ToolError::RemoteInvocationFailed(m) => m@,
            ToolError::SchemaAdaptationFailed => "Failed to adapt the tool input schema"@,
        }
    }

    /// Renders this failure for the caller; a remote failure's message is
    /// passed through verbatim.
    pub fn message(&self) -> (r: String)
        ensures
            r@ == self.spec_message(),
    {
        match self {
            ToolError::ServerNotFound => "Context server not found".to_owned(),
            ToolError::ServerNotInitialized => "Context server not initialized".to_owned(),
            ToolError::RemoteInvocationFailed(m) => m.clone(),
            ToolError::SchemaAdaptationFailed => "Failed to adapt the tool input schema".to_owned(),
        }
    }
}

/// What the registry reports of a server's connection at the moment of one
/// call. Connections appear and disappear independently of the adapter, so
/// every call reads this afresh.
#[derive(Debug, Clone, Copy, PartialEq, Eq, Structural)]
pub enum ConnectionState {
    /// No running connection for the server reference.
    Missing,
    /// A connection exists but its handshake is incomplete.
    Uninitialized,
    /// The connection is ready to take an invocation.
    Ready,
}

/// A successful invocation's envelope: the unified content, with the
/// secondary structured-output slot left empty here.
#[derive(Debug, PartialEq)]
pub struct ToolOutput {
    pub content: ToolContent,
    pub structured_output: Option<JsonValue>,
}

/// How a JSON input maps to the remote call's arguments: an object's members
/// become the argument mapping; any other shape means no arguments — a
/// deliberate leniency, not a validation error.
pub open spec fn arguments_of(input: JsonValue, args: Option<Vec<(String, JsonValue)>>) -> bool {
    match input {
        JsonValue::Object(entries) => args matches Some(a) && a == entries,
        _ => args is None,
    }
}

/// Converts the JSON input into the remote call's argument mapping.
pub fn tool_arguments(input: JsonValue) -> (r: Option<Vec<(String, JsonValue)>>)
    ensures
        arguments_of(input, r),
{
    match input {
        JsonValue::Object(entries) => Some(entries),
        _ => None,
    }
}

/// Decides the start of one invocation from the connection's state: a
/// missing connection fails as server-not-found, an unfinished handshake as
/// not-initialized, and a ready connection yields the argument mapping to
/// dispatch.
pub fn begin_invocation(conn: &ConnectionState, input: JsonValue) -> (r: Result<
    Option<Vec<(String, JsonValue)>>,
    ToolError,
>)
    ensures
        match *conn {
            ConnectionState::Missing => r matches Err(e) && e is ServerNotFound,
            ConnectionState::Uninitialized => r matches Err(e) && e is ServerNotInitialized,
            ConnectionState::Ready => r matches Ok(args) && arguments_of(input, args),
        },
{
    match conn {
        ConnectionState::Missing => Err(ToolError::ServerNotFound),
        ConnectionState::Uninitialized => Err(ToolError::ServerNotInitialized),
        ConnectionState::Ready => Ok(tool_arguments(input)),
    }
}

/// Turns the awaited reply into the invocation's outcome: a transport or
/// remote failure passes through verbatim; a successful reply's parts are
/// normalized into the output envelope, beside the diagnostics met on the
/// way.
pub fn complete_invocation(reply: Result<Vec<ResponsePart>, String>) -> (r: Result<
    (ToolOutput, Vec<Diagnostic>),
    ToolError,
>)
    ensures
        match reply {
            Err(m) => r matches Err(e) && e matches ToolError::RemoteInvocationFailed(em)
                && em@ == m@,
            Ok(parts) => r matches Ok(out) && normalized_content(parts@, out.0.content)
                && out.0.structured_output is None && out.1@ == diagnostics_spec(parts@),
        },
{
    match reply {
        Err(m) => Err(ToolError::RemoteInvocationFailed(m)),
        Ok(parts) => {
            let normalized = normalize(&parts);
            Ok(
                (
                    ToolOutput { content: normalized.content, structured_output: None },
                    normalized.diagnostics,
                ),
            )
        },
    }
}

} // verus!
