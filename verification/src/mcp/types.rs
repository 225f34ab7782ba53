//! The JSON-RPC 2.0 envelope and the payloads of the protocol's methods,
//! each with the JSON value that stands for it.

use vstd::prelude::*;
use crate::codec::{json_parsed, json_text};
use crate::errors::{ServerError, ServerErrorView};
use crate::json::{
    clone_opt, find_member, member, no_members, optional_member, push_item, push_member, push_optional_member,
    view_items, view_opt, Json, JsonValue,
};
use crate::text::{join, join3};

verus! {

/// The version that every envelope names.
pub open spec fn jsonrpc_version() -> Seq<char> {
    "2.0"@
}

/// The string member `field` of `v`, or why there is none.
pub open spec fn required_text(v: JsonValue, field: Seq<char>) -> Result<Seq<char>, Seq<char>> {
    match v.member(field) {
        None => Err("missing field `"@ + field + "`"@),
        Some(found) => match found.text() {
            Some(s) => Ok(s),
            None => Err("invalid type for field `"@ + field + "`, expected a string"@),
        },
    }
}

/// The string member `field` of `json`, or why there is none.
pub fn read_text(json: &Json, field: &str) -> (outcome: Result<String, String>)
    ensures
        match outcome {
            Ok(s) => required_text(json@, field@) == Ok::<Seq<char>, Seq<char>>(s@),
            Err(e) => required_text(json@, field@) == Err::<Seq<char>, Seq<char>>(e@),
        },
{
    match json.get(field) {
        None => Err(join3("missing field `", field, "`")),
        Some(found) => match found.as_str() {
            Some(s) => Ok(String::from_str(s)),
            None => Err(join3("invalid type for field `", field, "`, expected a string")),
        },
    }
}

/// A request, or a notification where it has no `id`.
#[derive(Debug, Clone, PartialEq, Eq)]
pub struct JsonRpcRequest {
    pub jsonrpc: String,
    pub method: String,
    pub params: Option<Json>,
    pub id: Option<Json>,
}

/// The mathematical model of a [`JsonRpcRequest`].
pub struct RequestView {
    pub jsonrpc: Seq<char>,
    pub method: Seq<char>,
    pub params: Option<JsonValue>,
    pub id: Option<JsonValue>,
}

impl View for JsonRpcRequest {
    type V = RequestView;

    open spec fn view(&self) -> RequestView {
        RequestView {
            jsonrpc: self.jsonrpc@,
            method: self.method@,
            params: view_opt(self.params),
            id: view_opt(self.id),
        }
    }
}

impl RequestView {
    /// The JSON object that stands for the request. A member that has no
    /// value is left out.
    pub open spec fn json(self) -> JsonValue {
        JsonValue::Object(
            optional_member("id"@, self.id) + seq![
                member("jsonrpc"@, JsonValue::Text(self.jsonrpc)),
                member("method"@, JsonValue::Text(self.method)),
            ] + optional_member("params"@, self.params),
        )
    }
}

/// The request that a JSON value stands for, or why it stands for none. A
/// member `id` or `params` that is there counts as given, also where it is
/// null.
pub open spec fn decode_request(v: JsonValue) -> Result<RequestView, Seq<char>> {
    if !(v is Object) {
        Err("expected a JSON object"@)
    } else {
        match required_text(v, "jsonrpc"@) {
            Err(e) => Err(e),
            Ok(jsonrpc) => match required_text(v, "method"@) {
                Err(e) => Err(e),
                Ok(method) => Ok(
                    RequestView {
                        jsonrpc,
                        method,
                        params: v.member("params"@),
                        id: v.member("id"@),
                    },
                ),
            },
        }
    }
}

/// Why a body was not taken for a request, and the `id` to answer under.
#[derive(Debug, Clone, PartialEq, Eq)]
pub struct DecodeFailure {
    /// The `id` member of the body where there is one to be had, else null.
    pub id: Json,
    pub message: String,
}

/// The mathematical model of a [`DecodeFailure`].
pub struct DecodeFailureView {
    pub id: JsonValue,
    pub message: Seq<char>,
}

impl View for DecodeFailure {
    type V = DecodeFailureView;

    open spec fn view(&self) -> DecodeFailureView {
        DecodeFailureView { id: self.id@, message: self.message@ }
    }
}

/// The `id` to answer a body under that is JSON but no request.
pub open spec fn salvaged_id(v: JsonValue) -> JsonValue {
    match v.member("id"@) {
        Some(id) => id,
        None => JsonValue::Null,
    }
}

/// The request that the bytes of a body stand for. A body that is no JSON
/// text fails with a null `id`; one that is JSON but no request fails with
/// the `id` it holds, if any.
pub open spec fn decode_body(bytes: Seq<u8>) -> Result<RequestView, DecodeFailureView> {
    match json_parsed(bytes) {
        Err(e) => Err(DecodeFailureView { id: JsonValue::Null, message: "Parse error: "@ + e }),
        Ok(v) => match decode_request(v) {
            Err(e) => Err(DecodeFailureView { id: salvaged_id(v), message: "Parse error: "@ + e }),
            Ok(request) => Ok(request),
        },
    }
}

/// The model of the outcome of decoding a body.
pub open spec fn view_decoded(outcome: Result<JsonRpcRequest, DecodeFailure>) -> Result<
    RequestView,
    DecodeFailureView,
> {
    match outcome {
        Ok(request) => Ok(request@),
        Err(failure) => Err(failure@),
    }
}

impl JsonRpcRequest {
    /// The JSON object that stands for the request.
    pub fn to_json(&self) -> (json: Json)
        ensures
            json@ == self@.json(),
    {
        let mut members = no_members();
        push_optional_member(&mut members, "id", clone_opt(&self.id));
        push_member(&mut members, "jsonrpc", Json::text(self.jsonrpc.as_str()));
        push_member(&mut members, "method", Json::text(self.method.as_str()));
        push_optional_member(&mut members, "params", clone_opt(&self.params));
        let json = Json::object(members);
        assert(json@->Object_0 =~= self@.json()->Object_0);
        json
    }

    /// The request that `json` stands for.
    pub fn from_json(json: &Json) -> (outcome: Result<JsonRpcRequest, String>)
        ensures
            match outcome {
                Ok(request) => decode_request(json@) == Ok::<RequestView, Seq<char>>(request@),
                Err(e) => decode_request(json@) == Err::<RequestView, Seq<char>>(e@),
            },
    {
        match json {
            Json::Object(_) => {},
            _ => {
                return Err(String::from_str("expected a JSON object"));
            },
        }
        let jsonrpc = match read_text(json, "jsonrpc") {
            Ok(s) => s,
            Err(e) => {
                return Err(e);
            },
        };
        let method = match read_text(json, "method") {
            Ok(s) => s,
            Err(e) => {
                return Err(e);
            },
        };
        let params = match json.get("params") {
            Some(j) => Some(j.clone()),
            None => None,
        };
        let id = match json.get("id") {
            Some(j) => Some(j.clone()),
            None => None,
        };
        Ok(JsonRpcRequest { jsonrpc, method, params, id })
    }

    /// The request that the bytes of a message body stand for.
    pub fn decode(bytes: &[u8]) -> (outcome: Result<JsonRpcRequest, DecodeFailure>)
        ensures
            view_decoded(outcome) == decode_body(bytes@),
    {
        match Json::parse(bytes) {
            Err(e) => Err(
                DecodeFailure { id: Json::Null, message: join("Parse error: ", e.as_str()) },
            ),
            Ok(json) => match JsonRpcRequest::from_json(&json) {
                Err(e) => {
                    let id = match json.get("id") {
                        Some(j) => j.clone(),
                        None => Json::Null,
                    };
                    Err(DecodeFailure { id, message: join("Parse error: ", e.as_str()) })
                },
                Ok(request) => Ok(request),
            },
        }
    }
}

/// What went wrong, as a response carries it.
#[derive(Debug, Clone, PartialEq, Eq)]
pub struct JsonRpcError {
    pub code: i32,
    pub message: String,
    pub data: Option<Json>,
}

/// The mathematical model of a [`JsonRpcError`].
pub struct ErrorView {
    pub code: int,
    pub message: Seq<char>,
    pub data: Option<JsonValue>,
}

impl View for JsonRpcError {
    type V = ErrorView;

    open spec fn view(&self) -> ErrorView {
        ErrorView { code: self.code as int, message: self.message@, data: view_opt(self.data) }
    }
}

impl ErrorView {
    /// The JSON object that stands for the error.
    pub open spec fn json(self) -> JsonValue {
        JsonValue::Object(
            seq![member("code"@, JsonValue::Integer(self.code))] + optional_member(
                "data"@,
                self.data,
            ) + seq![member("message"@, JsonValue::Text(self.message))],
        )
    }
}

/// The error that a JSON value stands for, or why it stands for none.
pub open spec fn decode_error(v: JsonValue) -> Result<ErrorView, Seq<char>> {
    if !(v is Object) {
        Err("expected a JSON object"@)
    } else {
        match v.member("code"@) {
            None => Err("missing field `code`"@),
            Some(JsonValue::Integer(code)) if i32::MIN <= code <= i32::MAX => match required_text(
                v,
                "message"@,
            ) {
                Err(e) => Err(e),
                Ok(message) => Ok(ErrorView { code, message, data: v.member("data"@) }),
            },
            Some(_) => Err("invalid type for field `code`, expected a 32-bit integer"@),
        }
    }
}

impl JsonRpcError {
    /// The JSON object that stands for the error.
    pub fn to_json(&self) -> (json: Json)
        ensures
            json@ == self@.json(),
    {
        let mut members = no_members();
        push_member(&mut members, "code", Json::Integer(self.code as i64));
        push_optional_member(&mut members, "data", clone_opt(&self.data));
        push_member(&mut members, "message", Json::text(self.message.as_str()));
        let json = Json::object(members);
        assert(json@->Object_0 =~= self@.json()->Object_0);
        json
    }

    /// The error that `json` stands for.
    pub fn from_json(json: &Json) -> (outcome: Result<JsonRpcError, String>)
        ensures
            match outcome {
                Ok(error) => decode_error(json@) == Ok::<ErrorView, Seq<char>>(error@),
                Err(e) => decode_error(json@) == Err::<ErrorView, Seq<char>>(e@),
            },
    {
        match json {
            Json::Object(_) => {},
            _ => {
                return Err(String::from_str("expected a JSON object"));
            },
        }
        let code: i32 = match json.get("code") {
            None => {
                return Err(String::from_str("missing field `code`"));
            },
            Some(Json::Integer(c)) => {
                if -2147483648 <= *c && *c <= 2147483647 {
                    *c as i32
                } else {
                    return Err(
                        String::from_str("invalid type for field `code`, expected a 32-bit integer"),
                    );
                }
            },
            Some(_) => {
                return Err(
                    String::from_str("invalid type for field `code`, expected a 32-bit integer"),
                );
            },
        };
        let message = match read_text(json, "message") {
            Ok(s) => s,
            Err(e) => {
                return Err(e);
            },
        };
        let data = match json.get("data") {
            Some(j) => Some(j.clone()),
            None => None,
        };
        Ok(JsonRpcError { code, message, data })
    }
}

/// The answer to a request: a result or an error, under the request's `id`.
#[derive(Debug, Clone, PartialEq, Eq)]
pub struct JsonRpcResponse {
    pub jsonrpc: String,
    pub result: Option<Json>,
    pub error: Option<JsonRpcError>,
    pub id: Json,
}

/// The mathematical model of a [`JsonRpcResponse`].
pub struct ResponseView {
    pub jsonrpc: Seq<char>,
    pub result: Option<JsonValue>,
    pub error: Option<ErrorView>,
    pub id: JsonValue,
}

/// The model of an optional error.
pub open spec fn view_opt_error(error: Option<JsonRpcError>) -> Option<ErrorView> {
    match error {
        Some(e) => Some(e@),
        None => None,
    }
}

/// The JSON object of an optional error.
pub open spec fn opt_error_json(error: Option<ErrorView>) -> Option<JsonValue> {
    match error {
        Some(e) => Some(e.json()),
        None => None,
    }
}

impl View for JsonRpcResponse {
    type V = ResponseView;

    open spec fn view(&self) -> ResponseView {
        ResponseView {
            jsonrpc: self.jsonrpc@,
            result: view_opt(self.result),
            error: view_opt_error(self.error),
            id: self.id@,
        }
    }
}

impl ResponseView {
    /// A response holds a result or an error, never both and never neither;
    /// the code of an error fits in 32 bits.
    pub open spec fn valid(self) -> bool {
        &&& self.result is Some <==> self.error is None
        &&& self.error matches Some(e) ==> i32::MIN <= e.code <= i32::MAX
    }

    /// The JSON object that stands for the response. A member that has no
    /// value is left out.
    pub open spec fn json(self) -> JsonValue {
        JsonValue::Object(
            optional_member("error"@, opt_error_json(self.error)) + seq![
                member("id"@, self.id),
                member("jsonrpc"@, JsonValue::Text(self.jsonrpc)),
            ] + optional_member("result"@, self.result),
        )
    }

    /// The text of the response on the wire.
    pub open spec fn text(self) -> Seq<char> {
        json_text(self.json())
    }

    /// The response that carries `result` under `id`.
    pub open spec fn success(id: JsonValue, result: JsonValue) -> ResponseView {
        ResponseView { jsonrpc: jsonrpc_version(), result: Some(result), error: None, id }
    }

    /// The response that carries an error of the code and message given
    /// under `id`.
    pub open spec fn failure(id: JsonValue, code: int, message: Seq<char>) -> ResponseView {
        ResponseView {
            jsonrpc: jsonrpc_version(),
            result: None,
            error: Some(ErrorView { code, message, data: None }),
            id,
        }
    }
}

/// The error member of a JSON object, decoded where there is one.
pub open spec fn decode_optional_error(v: JsonValue) -> Result<Option<ErrorView>, Seq<char>> {
    match v.member("error"@) {
        None => Ok(None),
        Some(e) => match decode_error(e) {
            Ok(error) => Ok(Some(error)),
            Err(reason) => Err(reason),
        },
    }
}

/// The response that a JSON value stands for, or why it stands for none.
pub open spec fn decode_response(v: JsonValue) -> Result<ResponseView, Seq<char>> {
    if !(v is Object) {
        Err("expected a JSON object"@)
    } else {
        match required_text(v, "jsonrpc"@) {
            Err(e) => Err(e),
            Ok(jsonrpc) => match v.member("id"@) {
                None => Err("missing field `id`"@),
                Some(id) => match decode_optional_error(v) {
                    Err(e) => Err(e),
                    Ok(error) => {
                        let result = v.member("result"@);
                        if (result is Some) == (error is Some) {
                            Err("expected exactly one of `result` and `error`"@)
                        } else {
                            Ok(ResponseView { jsonrpc, result, error, id })
                        }
                    },
                },
            },
        }
    }
}

impl JsonRpcResponse {
    /// The response that carries `result` under `id`.
    pub fn success(id: Json, result: Json) -> (response: JsonRpcResponse)
        ensures
            response@ == ResponseView::success(id@, result@),
    {
        JsonRpcResponse {
            jsonrpc: String::from_str("2.0"),
            result: Some(result),
            error: None,
            id,
        }
    }

    /// The response that carries an error of the code and message given
    /// under `id`.
    pub fn failure(id: Json, code: i32, message: String) -> (response: JsonRpcResponse)
        ensures
            response@ == ResponseView::failure(id@, code as int, message@),
    {
        JsonRpcResponse {
            jsonrpc: String::from_str("2.0"),
            result: None,
            error: Some(JsonRpcError { code, message, data: None }),
            id,
        }
    }

    /// The JSON object that stands for the response.
    pub fn to_json(&self) -> (json: Json)
        ensures
            json@ == self@.json(),
    {
        let mut members = no_members();
        let error = match &self.error {
            Some(e) => Some(e.to_json()),
            None => None,
        };
        push_optional_member(&mut members, "error", error);
        push_member(&mut members, "id", self.id.clone());
        push_member(&mut members, "jsonrpc", Json::text(self.jsonrpc.as_str()));
        push_optional_member(&mut members, "result", clone_opt(&self.result));
        let json = Json::object(members);
        assert(json@->Object_0 =~= self@.json()->Object_0);
        json
    }

    /// The response that `json` stands for.
    pub fn from_json(json: &Json) -> (outcome: Result<JsonRpcResponse, String>)
        ensures
            match outcome {
                Ok(response) => decode_response(json@) == Ok::<ResponseView, Seq<char>>(response@),
                Err(e) => decode_response(json@) == Err::<ResponseView, Seq<char>>(e@),
            },
    {
        match json {
            Json::Object(_) => {},
            _ => {
                return Err(String::from_str("expected a JSON object"));
            },
        }
        let jsonrpc = match read_text(json, "jsonrpc") {
            Ok(s) => s,
            Err(e) => {
                return Err(e);
            },
        };
        let id = match json.get("id") {
            None => {
                return Err(String::from_str("missing field `id`"));
            },
            Some(j) => j.clone(),
        };
        let error = match json.get("error") {
            None => None,
            Some(e) => match JsonRpcError::from_json(e) {
                Ok(error) => Some(error),
                Err(reason) => {
                    return Err(reason);
                },
            },
        };
        let result = match json.get("result") {
            Some(j) => Some(j.clone()),
            None => None,
        };
        if result.is_some() == error.is_some() {
            return Err(String::from_str("expected exactly one of `result` and `error`"));
        }
        Ok(JsonRpcResponse { jsonrpc, result, error, id })
    }

    /// The text of the response on the wire.
    pub fn encode(&self) -> (text: String)
        ensures
            text@ == self@.text(),
    {
        self.to_json().to_text()
    }
}

/// The parameters of `initialize`.
#[derive(Debug, Clone, PartialEq, Eq)]
pub struct InitializeParams {
    pub protocol_version: String,
}

/// The name and version a server gives of itself.
#[derive(Debug, Clone, PartialEq, Eq)]
pub struct ServerInfo {
    pub name: String,
    pub version: String,
}

impl ServerInfo {
    /// The JSON object that stands for the pair.
    pub open spec fn json(&self) -> JsonValue {
        JsonValue::Object(
            seq![
                member("name"@, JsonValue::Text(self.name@)),
                member("version"@, JsonValue::Text(self.version@)),
            ],
        )
    }

    /// The JSON object that stands for the pair.
    pub fn to_json(&self) -> (json: Json)
        ensures
            json@ == self.json(),
    {
        let mut members = no_members();
        push_member(&mut members, "name", Json::text(self.name.as_str()));
        push_member(&mut members, "version", Json::text(self.version.as_str()));
        let json = Json::object(members);
        assert(json@->Object_0 =~= self.json()->Object_0);
        json
    }
}

/// The result of `initialize`.
#[derive(Debug, Clone, PartialEq, Eq)]
pub struct InitializeResult {
    pub protocol_version: String,
    pub server: ServerInfo,
}

impl InitializeResult {
    /// The JSON object that stands for the result; the version goes by the
    /// name `protocolVersion`.
    pub open spec fn json(&self) -> JsonValue {
        JsonValue::Object(
            seq![
                member("protocolVersion"@, JsonValue::Text(self.protocol_version@)),
                member("server"@, self.server.json()),
            ],
        )
    }

    /// The JSON object that stands for the result.
    pub fn to_json(&self) -> (json: Json)
        ensures
            json@ == self.json(),
    {
        let mut members = no_members();
        push_member(&mut members, "protocolVersion", Json::text(self.protocol_version.as_str()));
        push_member(&mut members, "server", self.server.to_json());
        let json = Json::object(members);
        assert(json@->Object_0 =~= self.json()->Object_0);
        json
    }
}

/// A tool that a client can call: its name, what it does, and the JSON
/// Schema of its inputs.
#[derive(Debug, Clone, PartialEq, Eq)]
pub struct ToolDefinition {
    pub name: String,
    pub description: String,
    pub inputs: Json,
}

/// The mathematical model of a [`ToolDefinition`].
pub struct ToolView {
    pub name: Seq<char>,
    pub description: Seq<char>,
    pub inputs: JsonValue,
}

impl View for ToolDefinition {
    type V = ToolView;

    open spec fn view(&self) -> ToolView {
        ToolView { name: self.name@, description: self.description@, inputs: self.inputs@ }
    }
}

impl ToolView {
    /// The JSON object that stands for the tool.
    pub open spec fn json(self) -> JsonValue {
        JsonValue::Object(
            seq![
                member("description"@, JsonValue::Text(self.description)),
                member("inputs"@, self.inputs),
                member("name"@, JsonValue::Text(self.name)),
            ],
        )
    }
}

impl ToolDefinition {
    /// The JSON object that stands for the tool.
    pub fn to_json(&self) -> (json: Json)
        ensures
            json@ == self@.json(),
    {
        let mut members = no_members();
        push_member(&mut members, "description", Json::text(self.description.as_str()));
        push_member(&mut members, "inputs", self.inputs.clone());
        push_member(&mut members, "name", Json::text(self.name.as_str()));
        let json = Json::object(members);
        assert(json@->Object_0 =~= self@.json()->Object_0);
        json
    }
}

/// The result of `tools/list`.
#[derive(Debug, Clone, PartialEq, Eq)]
pub struct ToolsListResult {
    pub tools: Vec<ToolDefinition>,
}

/// The models of tools, in order.
pub open spec fn view_tools(tools: Seq<ToolDefinition>) -> Seq<ToolView> {
    Seq::new(tools.len(), |i: int| tools[i]@)
}

/// The JSON object that stands for a list of tools: its one member `tools`
/// is the array of their objects, in order.
pub open spec fn tools_list_json(tools: Seq<ToolView>) -> JsonValue {
    JsonValue::Object(
        seq![member("tools"@, JsonValue::Array(Seq::new(tools.len(), |i: int| tools[i].json())))],
    )
}

impl ToolsListResult {
    /// The JSON object that stands for the list.
    pub fn to_json(&self) -> (json: Json)
        ensures
            json@ == tools_list_json(view_tools(self.tools@)),
    {
        let mut items: Vec<Json> = Vec::new();
        let mut i: usize = 0;
        while i < self.tools.len()
            invariant
                i <= self.tools.len(),
                view_items(items@) == Seq::new(i as nat, |k: int| self.tools@[k]@.json()),
            decreases self.tools.len() - i,
        {
            push_item(&mut items, self.tools[i].to_json());
            i += 1;
            assert(view_items(items@) =~= Seq::new(i as nat, |k: int| self.tools@[k]@.json()));
        }
        let ghost tools = view_tools(self.tools@);
        assert(view_items(items@) =~= Seq::new(tools.len(), |k: int| tools[k].json()));
        let mut members = no_members();
        push_member(&mut members, "tools", Json::array(items));
        let json = Json::object(members);
        assert(json@->Object_0 =~= tools_list_json(tools)->Object_0);
        json
    }
}

/// The parameters of `tools/call`: the tool and what it is called with.
#[derive(Debug, Clone, PartialEq, Eq)]
pub struct ToolsCallParams {
    pub name: String,
    pub inputs: Json,
}

/// The mathematical model of a [`ToolsCallParams`].
pub struct ToolsCallView {
    pub name: Seq<char>,
    pub inputs: JsonValue,
}

impl View for ToolsCallParams {
    type V = ToolsCallView;

    open spec fn view(&self) -> ToolsCallView {
        ToolsCallView { name: self.name@, inputs: self.inputs@ }
    }
}

/// The failure that names a method and what is wrong with its parameters.
pub open spec fn invalid_params(method: Seq<char>, details: Seq<char>) -> ServerErrorView {
    ServerErrorView::InvalidParameters { method, details }
}

/// The parameters of `tools/call` that a JSON value stands for: it needs a
/// string member `name` and a member `inputs`.
pub open spec fn decode_tools_call(v: JsonValue) -> Result<ToolsCallView, ServerErrorView> {
    match v.member("name"@) {
        Some(JsonValue::Text(name)) => match v.member("inputs"@) {
            Some(inputs) => Ok(ToolsCallView { name, inputs }),
            None => Err(invalid_params("tools/call"@, "Missing 'inputs' field"@)),
        },
        _ => Err(invalid_params("tools/call"@, "Missing or invalid 'name' field"@)),
    }
}

impl ToolsCallParams {
    /// The parameters that `json` stands for.
    pub fn from_json(json: &Json) -> (outcome: Result<ToolsCallParams, ServerError>)
        ensures
            match outcome {
                Ok(params) => decode_tools_call(json@) == Ok::<ToolsCallView, ServerErrorView>(
                    params@,
                ),
                Err(e) => decode_tools_call(json@) == Err::<ToolsCallView, ServerErrorView>(e@),
            },
    {
        let name = match json.get("name") {
            Some(Json::Text(s)) => s.clone(),
            _ => {
                return Err(
                    ServerError::InvalidParameters {
                        method: String::from_str("tools/call"),
                        details: String::from_str("Missing or invalid 'name' field"),
                    },
                );
            },
        };
        match json.get("inputs") {
            Some(inputs) => Ok(ToolsCallParams { name, inputs: inputs.clone() }),
            None => Err(
                ServerError::InvalidParameters {
                    method: String::from_str("tools/call"),
                    details: String::from_str("Missing 'inputs' field"),
                },
            ),
        }
    }
}

/// The result of a tool, as a client sees it.
#[derive(Debug, Clone, PartialEq, Eq)]
pub struct ToolsCallResult {
    pub outputs: Json,
}

/// The parameters of `resources/list`.
#[derive(Debug, Clone, PartialEq, Eq)]
pub struct ResourcesListParams {
    pub uri: String,
}

/// The resource that the parameters of `resources/list` name: the JSON
/// value needs a string member `uri`.
pub open spec fn decode_resources_list(v: JsonValue) -> Result<Seq<char>, ServerErrorView> {
    match v.member("uri"@) {
        Some(JsonValue::Text(uri)) => Ok(uri),
        _ => Err(invalid_params("resources/list"@, "Missing or invalid 'uri' field"@)),
    }
}

impl ResourcesListParams {
    /// The parameters that `json` stands for.
    pub fn from_json(json: &Json) -> (outcome: Result<ResourcesListParams, ServerError>)
        ensures
            match outcome {
                Ok(params) => decode_resources_list(json@) == Ok::<Seq<char>, ServerErrorView>(
                    params.uri@,
                ),
                Err(e) => decode_resources_list(json@) == Err::<Seq<char>, ServerErrorView>(e@),
            },
    {
        match json.get("uri") {
            Some(Json::Text(s)) => Ok(ResourcesListParams { uri: s.clone() }),
            _ => Err(
                ServerError::InvalidParameters {
                    method: String::from_str("resources/list"),
                    details: String::from_str("Missing or invalid 'uri' field"),
                },
            ),
        }
    }
}

/// The result of `resources/list`.
#[derive(Debug, Clone, PartialEq, Eq)]
pub struct ResourcesListResult {
    pub resources: Vec<Json>,
}

/// The member names of the envelope differ from each other.
proof fn lemma_names_differ()
    ensures
        "code"@ != "data"@,
        "code"@ != "message"@,
        "data"@ != "message"@,
        "error"@ != "id"@,
        "error"@ != "jsonrpc"@,
        "error"@ != "result"@,
        "id"@ != "jsonrpc"@,
        "id"@ != "result"@,
        "id"@ != "method"@,
        "id"@ != "params"@,
        "jsonrpc"@ != "result"@,
        "jsonrpc"@ != "method"@,
        "jsonrpc"@ != "params"@,
        "method"@ != "params"@,
{
    reveal_strlit("code");
    reveal_strlit("data");
    reveal_strlit("message");
    reveal_strlit("error");
    reveal_strlit("id");
    reveal_strlit("jsonrpc");
    reveal_strlit("result");
    reveal_strlit("method");
    reveal_strlit("params");
    assert("id"@.len() == 2 && "jsonrpc"@.len() == 7);
    assert("code"@[0] != "data"@[0]);
    assert("error"@[0] != "result"@[0]);
    assert("method"@[0] != "params"@[0]);
}

/// Decoding the JSON object of an error gives the error back.
pub proof fn lemma_error_round_trip(error: ErrorView)
    requires
        i32::MIN <= error.code <= i32::MAX,
    ensures
        decode_error(error.json()) == Ok::<ErrorView, Seq<char>>(error),
{
    lemma_names_differ();
    reveal_with_fuel(find_member, 4);
    let members = error.json()->Object_0;
    match error.data {
        Some(data) => {
            assert(members =~= seq![
                member("code"@, JsonValue::Integer(error.code)),
                member("data"@, data),
                member("message"@, JsonValue::Text(error.message)),
            ]);
        },
        None => {
            assert(members =~= seq![
                member("code"@, JsonValue::Integer(error.code)),
                member("message"@, JsonValue::Text(error.message)),
            ]);
        },
    }
    assert(error.json().member("code"@) == Some(JsonValue::Integer(error.code)));
    assert(error.json().member("message"@) == Some(JsonValue::Text(error.message)));
    assert(error.json().member("data"@) == error.data);
}

/// Encoding then decoding a valid response gives the response back: the
/// object that stands for it is read as the same `jsonrpc`, `result`,
/// `error` and `id`.
pub proof fn lemma_response_round_trip(response: ResponseView)
    requires
        response.valid(),
    ensures
        decode_response(response.json()) == Ok::<ResponseView, Seq<char>>(response),
{
    lemma_names_differ();
    reveal_with_fuel(find_member, 4);
    let members = response.json()->Object_0;
    match response.error {
        Some(error) => {
            lemma_error_round_trip(error);
            assert(members =~= seq![
                member("error"@, error.json()),
                member("id"@, response.id),
                member("jsonrpc"@, JsonValue::Text(response.jsonrpc)),
            ]);
        },
        None => {
            assert(members =~= seq![
                member("id"@, response.id),
                member("jsonrpc"@, JsonValue::Text(response.jsonrpc)),
                member("result"@, response.result->0),
            ]);
        },
    }
    assert(response.json().member("jsonrpc"@) == Some(JsonValue::Text(response.jsonrpc)));
    assert(response.json().member("id"@) == Some(response.id));
    assert(response.json().member("error"@) == opt_error_json(response.error));
    assert(response.json().member("result"@) == response.result);
}

/// Decoding the JSON object of a request gives the request back.
pub proof fn lemma_request_round_trip(request: RequestView)
    ensures
        decode_request(request.json()) == Ok::<RequestView, Seq<char>>(request),
{
    lemma_names_differ();
    reveal_with_fuel(find_member, 5);
    let members = request.json()->Object_0;
    let core = seq![
        member("jsonrpc"@, JsonValue::Text(request.jsonrpc)),
        member("method"@, JsonValue::Text(request.method)),
    ];
    assert(members =~= optional_member("id"@, request.id) + core + optional_member(
        "params"@,
        request.params,
    ));
    match (request.id, request.params) {
        (Some(id), Some(params)) => {
            assert(members =~= seq![member("id"@, id), core[0], core[1], member("params"@, params)]);
        },
        (Some(id), None) => {
            assert(members =~= seq![member("id"@, id), core[0], core[1]]);
        },
        (None, Some(params)) => {
            assert(members =~= seq![core[0], core[1], member("params"@, params)]);
        },
        (None, None) => {
            assert(members =~= core);
        },
    }
    assert(request.json().member("jsonrpc"@) == Some(JsonValue::Text(request.jsonrpc)));
    assert(request.json().member("method"@) == Some(JsonValue::Text(request.method)));
    assert(request.json().member("id"@) == request.id);
    assert(request.json().member("params"@) == request.params);
}

} // verus!
