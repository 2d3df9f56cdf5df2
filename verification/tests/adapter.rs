use context_server_tool::adapter::{
    input_schema_from_adapted, ContextServerTool, ToolDescriptor, ToolSource,
};
use context_server_tool::invocation::{
    begin_invocation, complete_invocation, tool_arguments, ConnectionState, ToolError,
};
use context_server_tool::json::{canonical_empty_schema, effective_schema, JsonValue};
use context_server_tool::response::{ResponsePart, ToolContent};

fn descriptor(name: &str, schema: JsonValue) -> ToolDescriptor {
    ToolDescriptor {
        name: name.to_string(),
        description: Some(format!("Description for {}", name)),
        input_schema: schema,
    }
}

#[test]
fn accessors_project_the_descriptor() {
    let tool = ContextServerTool::new(
        "server_one".to_string(),
        descriptor("lookup", JsonValue::Null),
    );
    assert_eq!(tool.name(), "lookup");
    assert_eq!(tool.description(), "Description for lookup");
    assert_eq!(tool.ui_text(), "Run MCP tool `lookup`");
    assert_eq!(
        tool.source(),
        ToolSource::ContextServer {
            id: "server_one".to_string()
        }
    );
    assert_eq!(tool.raw_input_schema(), &JsonValue::Null);
}

#[test]
fn missing_description_reads_empty() {
    let tool = ContextServerTool::new(
        "server_one".to_string(),
        ToolDescriptor {
            name: "bare".to_string(),
            description: None,
            input_schema: JsonValue::Null,
        },
    );
    assert_eq!(tool.description(), "");
}

#[test]
fn null_schema_yields_canonical_empty_object() {
    let expected = JsonValue::Object(vec![
        ("type".to_string(), JsonValue::Str("object".to_string())),
        ("properties".to_string(), JsonValue::Array(Vec::new())),
    ]);
    assert_eq!(canonical_empty_schema(), expected);
    assert_eq!(effective_schema(JsonValue::Null), expected);
    assert_eq!(effective_schema(JsonValue::Object(Vec::new())), expected);
}

#[test]
fn non_empty_schema_passes_through_unchanged() {
    let schema = JsonValue::Object(vec![(
        "type".to_string(),
        JsonValue::Str("string".to_string()),
    )]);
    let again = JsonValue::Object(vec![(
        "type".to_string(),
        JsonValue::Str("string".to_string()),
    )]);
    assert_eq!(effective_schema(schema), again);
}

#[test]
fn adapted_schema_substitutes_empty_shapes() {
    let r = input_schema_from_adapted(Some(JsonValue::Null));
    assert_eq!(r, Ok(canonical_empty_schema()));
    let passthrough = JsonValue::Bool(true);
    assert_eq!(
        input_schema_from_adapted(Some(passthrough)),
        Ok(JsonValue::Bool(true))
    );
}

#[test]
fn failed_adaptation_is_a_typed_error() {
    let r = input_schema_from_adapted(None);
    assert_eq!(r, Err(ToolError::SchemaAdaptationFailed));
}

#[test]
fn invocation_without_running_server_fails_not_found() {
    let r = begin_invocation(&ConnectionState::Missing, JsonValue::Null);
    assert_eq!(r, Err(ToolError::ServerNotFound));
}

#[test]
fn invocation_on_uninitialized_server_fails_distinctly() {
    let r = begin_invocation(&ConnectionState::Uninitialized, JsonValue::Null);
    assert_eq!(r, Err(ToolError::ServerNotInitialized));
}

#[test]
fn object_input_becomes_argument_mapping() {
    let input = JsonValue::Object(vec![("key".to_string(), JsonValue::Int(3))]);
    let r = begin_invocation(&ConnectionState::Ready, input);
    assert_eq!(
        r,
        Ok(Some(vec![("key".to_string(), JsonValue::Int(3))]))
    );
}

#[test]
fn non_object_input_means_no_arguments() {
    assert_eq!(tool_arguments(JsonValue::Null), None);
    assert_eq!(tool_arguments(JsonValue::Int(7)), None);
    assert_eq!(
        tool_arguments(JsonValue::Array(vec![JsonValue::Bool(false)])),
        None
    );
    let r = begin_invocation(&ConnectionState::Ready, JsonValue::Str("x".to_string()));
    assert_eq!(r, Ok(None));
}

#[test]
fn remote_failure_passes_through_verbatim() {
    let r = complete_invocation(Err("remote exploded".to_string()));
    match r {
        Err(ToolError::RemoteInvocationFailed(m)) => {
            assert_eq!(m, "remote exploded");
        }
        other => panic!("expected a remote invocation failure, got {:?}", other),
    }
}

#[test]
fn successful_reply_is_normalized_into_the_envelope() {
    let reply = Ok(vec![ResponsePart::Text("done".to_string())]);
    let (output, diagnostics) = complete_invocation(reply).unwrap();
    assert_eq!(output.content, ToolContent::Text("done".to_string()));
    assert_eq!(output.structured_output, None);
    assert!(diagnostics.is_empty());
}

#[test]
fn error_messages_match_the_remote_taxonomy() {
    assert_eq!(
        ToolError::ServerNotFound.message(),
        "Context server not found"
    );
    assert_eq!(
        ToolError::ServerNotInitialized.message(),
        "Context server not initialized"
    );
    assert_eq!(
        ToolError::RemoteInvocationFailed("boom".to_string()).message(),
        "boom"
    );
    assert_eq!(
        ToolError::SchemaAdaptationFailed.message(),
        "Failed to adapt the tool input schema"
    );
}
