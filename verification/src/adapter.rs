//! The tool adapter: the identity of one remote tool, its accessors, and its
//! confirmation check. It holds the server's identifier, never the
//! connection; the hosting application resolves the connection afresh for
//! each call and feeds its state into the invocation functions.

use vstd::prelude::*;
use vstd::string::StringExecFns;
use crate::confirmation::{ConfirmationPolicy, requires_confirmation, requires_confirmation_spec};
use crate::invocation::ToolError;
use crate::json::{JsonValue, effective_schema, is_canonical_empty_schema};

verus! {

/// The immutable identity of one remote tool, as its server advertised it.
#[derive(Debug, PartialEq)]
pub struct ToolDescriptor {
    /// The tool's name, unique within its server.
    pub name: String,
    /// An optional human-readable description.
    pub description: Option<String>,
    /// The declared input schema; possibly null or empty.
    pub input_schema: JsonValue,
}

/// Where a tool comes from, as reported to the agent.
#[derive(Debug, Clone, PartialEq)]
pub enum ToolSource {
    /// A tool served by the context server with this identifier.
    ContextServer { id: String },
}

/// One remote tool, adapted to the agent's calling convention. It pairs the
/// tool's descriptor with a reference to the owning server.
#[derive(Debug, PartialEq)]
pub struct ContextServerTool {
    /// The identifier of the server that serves this tool.
    pub server_id: String,
    /// The tool as the server advertised it.
    pub tool: ToolDescriptor,
}

/// The line shown for a pending run of the named tool.
pub open spec fn ui_text_spec(name: Seq<char>) -> Seq<char> {
    "Run MCP tool `"@ + name + "`"@
}

impl ContextServerTool {
    /// Adapts one advertised tool of the given server.
    pub fn new(server_id: String, tool: ToolDescriptor) -> (r: Self)
        ensures
            r.server_id == server_id,
            r.tool == tool,
    {
        ContextServerTool { server_id, tool }
    }

    /// The tool's name.
    pub fn name(&self) -> (r: String)
        ensures
            r@ == self.tool.name@,
    {
        self.tool.name.clone()
    }

    /// The tool's description; empty where the server gave none.
    pub fn description(&self) -> (r: String)
        ensures
            match self.tool.description {
                Some(d) => r@ == d@,
                None => r@ == Seq::<char>::empty(),
            },
    {
        match &self.tool.description {
            Some(d) => d.clone(),
            None => String::new(),
        }
    }

    /// The tool's source: the server it belongs to.
    pub fn source(&self) -> (r: ToolSource)
        ensures
            r matches ToolSource::ContextServer { id } && id@ == self.server_id@,
    {
        ToolSource::ContextServer { id: self.server_id.clone() }
    }

    /// The line shown for a pending run of this tool.
    pub fn ui_text(&self) -> (r: String)
        ensures
            r@ == ui_text_spec(self.tool.name@),
    {
        let mut text: String = "Run MCP tool `".to_owned();
        text.append(self.tool.name.as_str());
        text.append("`");
        text
    }

    /// The declared input schema, as the server advertised it.
    pub fn raw_input_schema(&self) -> (r: &JsonValue)
        ensures
            *r == self.tool.input_schema,
    {
        &self.tool.input_schema
    }

    /// Whether running this tool requires the user's confirmation, given the
    /// global allow flag and this server's policy from the configuration
    /// store (absent when none is configured).
    pub fn needs_confirmation(
        &self,
        global_always_allow: bool,
        policy: Option<&ConfirmationPolicy>,
    ) -> (r: bool)
        ensures
            r == requires_confirmation_spec(global_always_allow, policy, self.tool.name@),
    {
        requires_confirmation(global_always_allow, policy, &self.tool.name)
    }
}

/// Finishes the schema accessor once the host has adapted the declared
/// schema to the caller's requested format: an adaptation failure (`None`)
/// is a typed error, a null or empty-object result becomes the canonical
/// empty schema, and anything else passes through unchanged.
pub fn input_schema_from_adapted(adapted: Option<JsonValue>) -> (r: Result<JsonValue, ToolError>)
    ensures
        match adapted {
            None => r matches Err(e) && e is SchemaAdaptationFailed,
            Some(s) => r matches Ok(v) && (s.is_declared_empty() ==> is_canonical_empty_schema(v))
                && (!s.is_declared_empty() ==> v == s),
        },
{
    match adapted {
        None => Err(ToolError::SchemaAdaptationFailed),
        Some(schema) => Ok(effective_schema(schema)),
    }
}

} // verus!
