//! The catalog of tools: fixed when the server starts and never changed.

use vstd::prelude::*;
use crate::json::{member, no_members, push_item, push_member, Json, JsonValue, Member};
use crate::mcp::types::{view_tools, ToolDefinition, ToolView};
use crate::text::str_eq;

verus! {

/// A tool of the catalog.
#[derive(Debug, Clone, Copy, PartialEq, Eq, Structural)]
pub enum Tool {
    RunInference,
    DataAnalysis,
}

/// The schema of a value of the JSON type `kind`.
pub open spec fn typed(kind: Seq<char>) -> JsonValue {
    JsonValue::Object(seq![member("type"@, JsonValue::Text(kind))])
}

/// The schema of an object with the properties given, of which those named
/// in `required` must be there.
pub open spec fn object_schema(properties: Seq<Member>, required: Seq<JsonValue>) -> JsonValue {
    JsonValue::Object(
        seq![
            member("properties"@, JsonValue::Object(properties)),
            member("required"@, JsonValue::Array(required)),
            member("type"@, JsonValue::Text("object"@)),
        ],
    )
}

/// The schema of the inputs of `run_inference`.
pub open spec fn inference_schema() -> JsonValue {
    object_schema(
        seq![
            member("model"@, typed("string"@)),
            member("params"@, typed("object"@)),
            member("prompt"@, typed("string"@)),
        ],
        seq![JsonValue::Text("model"@), JsonValue::Text("prompt"@)],
    )
}

/// The schema of the inputs of `data_analysis`.
pub open spec fn analysis_schema() -> JsonValue {
    object_schema(
        seq![
            member("data"@, JsonValue::Object(Seq::empty())),
            member("ops"@, typed("array"@)),
        ],
        seq![JsonValue::Text("data"@), JsonValue::Text("ops"@)],
    )
}

/// The tools that the server declares, in the order in which it lists
/// them.
pub open spec fn declared_tools() -> Seq<ToolView> {
    seq![
        ToolView {
            name: "run_inference"@,
            description: "Runs AI inference by calling the backend AION-R API."@,
            inputs: inference_schema(),
        },
        ToolView {
            name: "data_analysis"@,
            description: "Runs data analysis by calling the backend AION-R API."@,
            inputs: analysis_schema(),
        },
    ]
}

/// The tool that goes by `name`, if the catalog has one.
pub open spec fn tool_named(name: Seq<char>) -> Option<Tool> {
    if name == "run_inference"@ {
        Some(Tool::RunInference)
    } else if name == "data_analysis"@ {
        Some(Tool::DataAnalysis)
    } else {
        None
    }
}

fn typed_schema(kind: &str) -> (schema: Json)
    ensures
        schema@ == typed(kind@),
{
    let mut members = no_members();
    push_member(&mut members, "type", Json::text(kind));
    let schema = Json::object(members);
    assert(schema@->Object_0 =~= typed(kind@)->Object_0);
    schema
}

fn build_object_schema(properties: Json, first: &str, second: &str) -> (schema: Json)
    requires
        properties@ is Object,
    ensures
        schema@ == object_schema(
            properties@->Object_0,
            seq![JsonValue::Text(first@), JsonValue::Text(second@)],
        ),
{
    let mut required: Vec<Json> = Vec::new();
    assert(crate::json::view_items(required@) =~= Seq::<JsonValue>::empty());
    push_item(&mut required, Json::text(first));
    push_item(&mut required, Json::text(second));
    let required = Json::array(required);
    assert(required@->Array_0 =~= seq![JsonValue::Text(first@), JsonValue::Text(second@)]);
    let mut members = no_members();
    push_member(&mut members, "properties", properties);
    push_member(&mut members, "required", required);
    push_member(&mut members, "type", Json::text("object"));
    let schema = Json::object(members);
    assert(schema@->Object_0 =~= object_schema(
        properties@->Object_0,
        seq![JsonValue::Text(first@), JsonValue::Text(second@)],
    )->Object_0);
    schema
}

fn build_inference_schema() -> (schema: Json)
    ensures
        schema@ == inference_schema(),
{
    let mut properties = no_members();
    push_member(&mut properties, "model", typed_schema("string"));
    push_member(&mut properties, "params", typed_schema("object"));
    push_member(&mut properties, "prompt", typed_schema("string"));
    let properties = Json::object(properties);
    assert(properties@->Object_0 =~= seq![
        member("model"@, typed("string"@)),
        member("params"@, typed("object"@)),
        member("prompt"@, typed("string"@)),
    ]);
    build_object_schema(properties, "model", "prompt")
}

fn build_analysis_schema() -> (schema: Json)
    ensures
        schema@ == analysis_schema(),
{
    let anything = Json::object(no_members());
    let mut properties = no_members();
    push_member(&mut properties, "data", anything);
    push_member(&mut properties, "ops", typed_schema("array"));
    let properties = Json::object(properties);
    assert(properties@->Object_0 =~= seq![
        member("data"@, JsonValue::Object(Seq::empty())),
        member("ops"@, typed("array"@)),
    ]);
    build_object_schema(properties, "data", "ops")
}

/// The catalog: the declared tools, in their order.
pub fn catalog() -> (tools: Vec<ToolDefinition>)
    ensures
        view_tools(tools@) == declared_tools(),
{
    let mut tools: Vec<ToolDefinition> = Vec::new();
    tools.push(
        ToolDefinition {
            name: String::from_str("run_inference"),
            description: String::from_str("Runs AI inference by calling the backend AION-R API."),
            inputs: build_inference_schema(),
        },
    );
    tools.push(
        ToolDefinition {
            name: String::from_str("data_analysis"),
            description: String::from_str("Runs data analysis by calling the backend AION-R API."),
            inputs: build_analysis_schema(),
        },
    );
    assert(view_tools(tools@) =~= declared_tools());
    tools
}

/// Looks a tool up by its name.
pub fn lookup(name: &str) -> (tool: Option<Tool>)
    ensures
        tool == tool_named(name@),
{
    if str_eq(name, "run_inference") {
        Some(Tool::RunInference)
    } else if str_eq(name, "data_analysis") {
        Some(Tool::DataAnalysis)
    } else {
        None
    }
}

/// The catalog holds two tools; each has a name that is not empty, no two
/// share a name, and a name finds a tool exactly if the catalog declares
/// one by that name.
pub proof fn lemma_catalog_is_sound()
    ensures
        declared_tools().len() == 2,
        forall|i: int| 0 <= i < declared_tools().len() ==> #[trigger] declared_tools()[i].name.len() > 0,
        forall|i: int, j: int|
            0 <= i < j < declared_tools().len() ==> declared_tools()[i].name != declared_tools()[j].name,
        forall|name: Seq<char>|
            #[trigger] tool_named(name) is Some <==> exists|i: int|
                0 <= i < declared_tools().len() && #[trigger] declared_tools()[i].name == name,
{
    reveal_strlit("run_inference");
    reveal_strlit("data_analysis");
    assert("run_inference"@[0] != "data_analysis"@[0]);
    assert forall|name: Seq<char>| #[trigger] tool_named(name) is Some implies exists|i: int|
        0 <= i < declared_tools().len() && #[trigger] declared_tools()[i].name == name by {
        if name == "run_inference"@ {
            assert(declared_tools()[0].name == name);
        } else {
            assert(declared_tools()[1].name == name);
        }
    }
}

} // verus!
