//! The server: which method a request reaches, what comes back, and how a
//! session runs from one frame to the next.
//!
//! The server does no input or output. Whoever drives it reads bytes into a
//! [`Session`], writes the frames it hands out, and makes the calls to the
//! backend that it asks for.

use vstd::prelude::*;
use vstd::utf8::encode_utf8;
use crate::api::client::{
    gateway_result, models_call, view_result, ApiClient, GatewayCall, GatewayCallView,
    GatewayReply, GatewayReplyView,
};
use crate::config::Config;
use crate::errors::{ServerError, ServerErrorView, PARSE_ERROR};
use crate::json::{clone_opt, member, view_items, view_opt, Json, JsonValue};
use crate::mcp::types::{
    decode_body, decode_resources_list, decode_tools_call, tools_list_json, InitializeResult,
    JsonRpcRequest, JsonRpcResponse, RequestView, ResourcesListParams, ResponseView, ServerInfo,
    ToolsCallParams, ToolsListResult,
};
use crate::text::{join3, str_eq};
use crate::tools::analytics::{analysis_request, data_analysis};
use crate::tools::inference::{inference_request, run_inference, view_request};
use crate::tools::registry::{catalog, declared_tools, lookup, tool_named, Tool};
use crate::util::{frame, read_frame, read_message, write_message, Frame, ReadOutcome};

verus! {

/// The protocol version that `initialize` names.
pub open spec fn protocol_version() -> Seq<char> {
    "2024-11-05"@
}

/// The result of `initialize`: the protocol version, and the name and
/// version of this server.
pub open spec fn initialize_json() -> JsonValue {
    JsonValue::Object(
        seq![
            member("protocolVersion"@, JsonValue::Text(protocol_version())),
            member(
                "server"@,
                JsonValue::Object(
                    seq![
                        member("name"@, JsonValue::Text("aionr2"@)),
                        member("version"@, JsonValue::Text("0.1.0"@)),
                    ],
                ),
            ),
        ],
    )
}

/// The parameters of a request; null where it has none.
pub open spec fn params_or_null(params: Option<JsonValue>) -> JsonValue {
    match params {
        Some(p) => p,
        None => JsonValue::Null,
    }
}

/// The `id` under which a response goes out: that of the request; null
/// where it has none.
pub open spec fn response_id(id: Option<JsonValue>) -> JsonValue {
    match id {
        Some(id) => id,
        None => JsonValue::Null,
    }
}

/// What `tools/call` comes to: the call to the backend that runs the tool
/// named, once the inputs have what the tool needs. A name that the catalog
/// does not have is a method not found.
pub open spec fn tools_call_route(api_url: Seq<char>, params: Option<JsonValue>) -> Result<
    GatewayCallView,
    ServerErrorView,
> {
    match decode_tools_call(params_or_null(params)) {
        Err(e) => Err(e),
        Ok(call) => match tool_named(call.name) {
            Some(Tool::RunInference) => inference_request(api_url, call.inputs),
            Some(Tool::DataAnalysis) => analysis_request(api_url, call.inputs),
            None => Err(ServerErrorView::MethodNotFound("Tool '"@ + call.name + "' not found"@)),
        },
    }
}

/// Where a request goes: to a result that is at hand, or to the backend.
#[derive(Debug, Clone, PartialEq, Eq)]
pub enum Routed {
    Ready(Json),
    Call(GatewayCall),
}

/// The mathematical model of a [`Routed`].
pub enum RoutedView {
    Ready(JsonValue),
    Call(GatewayCallView),
}

impl View for Routed {
    type V = RoutedView;

    open spec fn view(&self) -> RoutedView {
        match self {
            Routed::Ready(json) => RoutedView::Ready(json@),
            Routed::Call(call) => RoutedView::Call(call@),
        }
    }
}

/// The model of where a request goes, or of the failure to route it.
pub open spec fn view_routed(outcome: Result<Routed, ServerError>) -> Result<
    RoutedView,
    ServerErrorView,
> {
    match outcome {
        Ok(routed) => Ok(routed@),
        Err(e) => Err(e@),
    }
}

/// The URI under which the catalog of models is listed.
pub open spec fn models_uri() -> Seq<char> {
    "aion-r://models/catalog"@
}

/// What `resources/list` comes to: the call that lists the models for
/// their URI, an empty list for any other.
pub open spec fn resources_list_route(api_url: Seq<char>, params: Option<JsonValue>) -> Result<
    RoutedView,
    ServerErrorView,
> {
    match decode_resources_list(params_or_null(params)) {
        Err(e) => Err(e),
        Ok(uri) => if uri == models_uri() {
            Ok(RoutedView::Call(models_call(api_url)))
        } else {
            Ok(RoutedView::Ready(JsonValue::Array(Seq::empty())))
        },
    }
}

/// Where the method of a request leads.
pub open spec fn route(api_url: Seq<char>, method: Seq<char>, params: Option<JsonValue>) -> Result<
    RoutedView,
    ServerErrorView,
> {
    if method == "initialize"@ {
        Ok(RoutedView::Ready(initialize_json()))
    } else if method == "tools/list"@ {
        Ok(RoutedView::Ready(tools_list_json(declared_tools())))
    } else if method == "tools/call"@ {
        match tools_call_route(api_url, params) {
            Ok(call) => Ok(RoutedView::Call(call)),
            Err(e) => Err(e),
        }
    } else if method == "resources/list"@ {
        resources_list_route(api_url, params)
    } else {
        Err(ServerErrorView::MethodNotFound(method))
    }
}

/// The response to a request: the result, or the error that stands for
/// the failure, with its code and its message.
pub open spec fn respond(id: JsonValue, result: Result<JsonValue, ServerErrorView>) -> ResponseView {
    match result {
        Ok(value) => ResponseView::success(id, value),
        Err(e) => ResponseView::failure(id, e.code(), e.reported()),
    }
}

/// How far a request got without the backend.
#[derive(Debug, Clone, PartialEq, Eq)]
pub enum Dispatch {
    /// The response is at hand.
    Done(JsonRpcResponse),
    /// The backend has to be called first; `id` is that of the request.
    Pending { call: GatewayCall, id: Option<Json> },
}

/// The mathematical model of a [`Dispatch`].
pub enum DispatchView {
    Done(ResponseView),
    Pending { call: GatewayCallView, id: Option<JsonValue> },
}

impl View for Dispatch {
    type V = DispatchView;

    open spec fn view(&self) -> DispatchView {
        match self {
            Dispatch::Done(response) => DispatchView::Done(response@),
            Dispatch::Pending { call, id } => DispatchView::Pending {
                call: call@,
                id: view_opt(*id),
            },
        }
    }
}

/// How far a request gets without the backend.
pub open spec fn dispatched(api_url: Seq<char>, request: RequestView) -> DispatchView {
    match route(api_url, request.method, request.params) {
        Ok(RoutedView::Call(call)) => DispatchView::Pending { call, id: request.id },
        Ok(RoutedView::Ready(value)) => DispatchView::Done(
            respond(response_id(request.id), Ok(value)),
        ),
        Err(e) => DispatchView::Done(respond(response_id(request.id), Err(e))),
    }
}

/// The response to a request, whatever way it took: `reply` is what the
/// backend said, for a request that needed it.
pub open spec fn answer(api_url: Seq<char>, request: RequestView, reply: GatewayReplyView) -> ResponseView {
    match dispatched(api_url, request) {
        DispatchView::Done(response) => response,
        DispatchView::Pending { call, id } => respond(response_id(id), gateway_result(reply)),
    }
}

/// What goes out on the wire for a response: its text for a request that
/// has an `id`, nothing for a notification.
pub open spec fn emitted(id: Option<JsonValue>, response: ResponseView) -> Option<Seq<char>> {
    match id {
        Some(_) => Some(response.text()),
        None => None,
    }
}

/// What a message body led to.
#[derive(Debug, Clone, PartialEq, Eq)]
pub enum Handled {
    /// The message is dealt with; the text to send back, if any.
    Reply(Option<String>),
    /// The backend has to be called; `id` is that of the request.
    Invoke { call: GatewayCall, id: Option<Json> },
}

/// The mathematical model of a [`Handled`].
pub enum HandledView {
    Reply(Option<Seq<char>>),
    Invoke { call: GatewayCallView, id: Option<JsonValue> },
}

/// The model of an optional text.
pub open spec fn view_text(text: Option<String>) -> Option<Seq<char>> {
    match text {
        Some(t) => Some(t@),
        None => None,
    }
}

impl View for Handled {
    type V = HandledView;

    open spec fn view(&self) -> HandledView {
        match self {
            Handled::Reply(text) => HandledView::Reply(view_text(*text)),
            Handled::Invoke { call, id } => HandledView::Invoke { call: call@, id: view_opt(*id) },
        }
    }
}

/// What a message body leads to. A body that is no request is answered
/// with a parse error; a request is dispatched.
pub open spec fn handled(api_url: Seq<char>, body: Seq<u8>) -> HandledView {
    match decode_body(body) {
        Err(failure) => HandledView::Reply(
            Some(ResponseView::failure(failure.id, PARSE_ERROR as int, failure.message).text()),
        ),
        Ok(request) => match dispatched(api_url, request) {
            DispatchView::Done(response) => HandledView::Reply(emitted(request.id, response)),
            DispatchView::Pending { call, id } => HandledView::Invoke { call, id },
        },
    }
}

/// The input of a session that has not been read yet.
#[derive(Debug, Clone, PartialEq, Eq)]
pub struct Session {
    /// The bytes that came in and belong to no frame read so far.
    pub input: Vec<u8>,
    /// Whether the input has ended.
    pub at_end: bool,
}

/// A session that waits for the backend.
#[derive(Debug, Clone, PartialEq, Eq)]
pub struct PendingCall {
    /// The `id` of the request that made the call.
    pub id: Option<Json>,
    pub session: Session,
}

/// What the next step of a session is.
#[derive(Debug, Clone, PartialEq, Eq)]
pub enum Progress {
    /// One frame is dealt with. `frame` is to be written and flushed, if
    /// there is one; the session goes on with `session`.
    Reply { frame: Option<Vec<u8>>, session: Session },
    /// The call is to be made, and what came of it handed to `pending`.
    Invoke { call: GatewayCall, pending: PendingCall },
    /// More input is needed before anything can be done.
    NeedInput { session: Session },
    /// The input has ended between two frames: the session is over.
    Finished,
    /// The input has ended inside a frame.
    Truncated,
}

/// The mathematical model of a [`Progress`].
pub enum ProgressView {
    Reply { frame: Option<Seq<u8>>, input: Seq<u8>, at_end: bool },
    Invoke { call: GatewayCallView, id: Option<JsonValue>, input: Seq<u8>, at_end: bool },
    NeedInput { input: Seq<u8>, at_end: bool },
    Finished,
    Truncated,
}

/// The model of an optional frame.
pub open spec fn view_frame(frame: Option<Vec<u8>>) -> Option<Seq<u8>> {
    match frame {
        Some(f) => Some(f@),
        None => None,
    }
}

impl View for Progress {
    type V = ProgressView;

    open spec fn view(&self) -> ProgressView {
        match self {
            Progress::Reply { frame, session } => ProgressView::Reply {
                frame: view_frame(*frame),
                input: session.input@,
                at_end: session.at_end,
            },
            Progress::Invoke { call, pending } => ProgressView::Invoke {
                call: call@,
                id: view_opt(pending.id),
                input: pending.session.input@,
                at_end: pending.session.at_end,
            },
            Progress::NeedInput { session } => ProgressView::NeedInput {
                input: session.input@,
                at_end: session.at_end,
            },
            Progress::Finished => ProgressView::Finished,
            Progress::Truncated => ProgressView::Truncated,
        }
    }
}

/// The frame that carries a text, where there is one.
pub open spec fn framed(text: Option<Seq<char>>) -> Option<Seq<u8>> {
    match text {
        Some(t) => Some(frame(encode_utf8(t))),
        None => None,
    }
}

/// The next step of a session with the input given: the frame at its
/// front is read and its message handled; the rest of the input stays for
/// the steps after. A frame without a message is passed over.
pub open spec fn advanced(api_url: Seq<char>, input: Seq<u8>, at_end: bool) -> ProgressView {
    match read_frame(input, at_end) {
        Frame::NeedMore => ProgressView::NeedInput { input, at_end },
        Frame::EndOfInput => ProgressView::Finished,
        Frame::Truncated => ProgressView::Truncated,
        Frame::Skipped { consumed } => ProgressView::Reply {
            frame: None,
            input: input.skip(consumed),
            at_end,
        },
        Frame::Message { body, consumed } => match handled(api_url, body) {
            HandledView::Reply(text) => ProgressView::Reply {
                frame: framed(text),
                input: input.skip(consumed),
                at_end,
            },
            HandledView::Invoke { call, id } => ProgressView::Invoke {
                call,
                id,
                input: input.skip(consumed),
                at_end,
            },
        },
    }
}

impl Session {
    /// A session that has read nothing yet.
    pub fn new() -> (session: Session)
        ensures
            session.input@ == Seq::<u8>::empty(),
            !session.at_end,
    {
        Session { input: Vec::new(), at_end: false }
    }

    /// Takes in bytes that were read.
    pub fn feed(&mut self, bytes: &[u8])
        ensures
            final(self).input@ == old(self).input@ + bytes@,
            final(self).at_end == old(self).at_end,
    {
        let mut i: usize = 0;
        while i < bytes.len()
            invariant
                i <= bytes@.len(),
                self.input@ == old(self).input@ + bytes@.subrange(0, i as int),
                self.at_end == old(self).at_end,
            decreases bytes@.len() - i,
        {
            self.input.push(bytes[i]);
            i += 1;
            assert(self.input@ =~= old(self).input@ + bytes@.subrange(0, i as int));
        }
        assert(bytes@.subrange(0, i as int) =~= bytes@);
    }

    /// Notes that the input has ended.
    pub fn close(&mut self)
        ensures
            final(self).input@ == old(self).input@,
            final(self).at_end,
    {
        self.at_end = true;
    }
}

/// The server.
#[derive(Debug, Clone)]
pub struct McpServer {
    api_client: ApiClient,
}

fn frame_of(text: Option<String>) -> (frame: Option<Vec<u8>>)
    ensures
        view_frame(frame) == framed(view_text(text)),
{
    match text {
        Some(t) => {
            let mut out: Vec<u8> = Vec::new();
            write_message(&mut out, t.as_str());
            assert(out@ =~= frame(encode_utf8(t@)));
            Some(out)
        },
        None => None,
    }
}

fn rest_of(input: &Vec<u8>, consumed: usize) -> (rest: Vec<u8>)
    requires
        consumed <= input@.len(),
    ensures
        rest@ == input@.skip(consumed as int),
{
    let mut rest: Vec<u8> = Vec::new();
    let mut i = consumed;
    while i < input.len()
        invariant
            consumed <= i <= input@.len(),
            rest@ == input@.subrange(consumed as int, i as int),
        decreases input@.len() - i,
    {
        rest.push(input[i]);
        i += 1;
        assert(rest@ =~= input@.subrange(consumed as int, i as int));
    }
    assert(rest@ =~= input@.skip(consumed as int));
    rest
}

impl McpServer {
    /// The URL under which the server reaches the backend.
    pub closed spec fn api_url(&self) -> Seq<char> {
        self.api_client.api_url()
    }

    /// A server for the backend that `config` names.
    pub fn new(config: &Config) -> (server: McpServer)
        ensures
            server.api_url() == config.aion_r_api_url@,
    {
        McpServer { api_client: ApiClient::new(config) }
    }

    /// `initialize`: the fixed protocol version and the identity of the
    /// server. The parameters are not looked at.
    pub fn handle_initialize(&self, _params: Option<Json>) -> (outcome: Result<Json, ServerError>)
        ensures
            view_result(outcome) == Ok::<JsonValue, ServerErrorView>(initialize_json()),
    {
        let result = InitializeResult {
            protocol_version: String::from_str("2024-11-05"),
            server: ServerInfo {
                name: String::from_str("aionr2"),
                version: String::from_str("0.1.0"),
            },
        };
        Ok(result.to_json())
    }

    /// `tools/list`: the declared tools, in their order.
    pub fn handle_tools_list(&self) -> (outcome: Result<Json, ServerError>)
        ensures
            view_result(outcome) == Ok::<JsonValue, ServerErrorView>(
                tools_list_json(declared_tools()),
            ),
    {
        let result = ToolsListResult { tools: catalog() };
        Ok(result.to_json())
    }

    /// `tools/call`: the call to the backend that runs the tool named.
    pub fn handle_tools_call(&self, params: Option<Json>) -> (outcome: Result<
        GatewayCall,
        ServerError,
    >)
        ensures
            view_request(outcome) == tools_call_route(self.api_url(), view_opt(params)),
    {
        let given = match params {
            Some(p) => p,
            None => Json::Null,
        };
        let call = match ToolsCallParams::from_json(&given) {
            Ok(call) => call,
            Err(e) => {
                return Err(e);
            },
        };
        match lookup(call.name.as_str()) {
            Some(Tool::RunInference) => run_inference(&self.api_client, &call.inputs),
            Some(Tool::DataAnalysis) => data_analysis(&self.api_client, &call.inputs),
            None => Err(
                ServerError::MethodNotFound(join3("Tool '", call.name.as_str(), "' not found")),
            ),
        }
    }

    /// `resources/list`: the call that lists the models for their URI, an
    /// empty list for any other.
    pub fn handle_resources_list(&self, params: Option<Json>) -> (outcome: Result<
        Routed,
        ServerError,
    >)
        ensures
            view_routed(outcome) == resources_list_route(self.api_url(), view_opt(params)),
    {
        let given = match params {
            Some(p) => p,
            None => Json::Null,
        };
        let wanted = match ResourcesListParams::from_json(&given) {
            Ok(wanted) => wanted,
            Err(e) => {
                return Err(e);
            },
        };
        if str_eq(wanted.uri.as_str(), "aion-r://models/catalog") {
            Ok(Routed::Call(self.api_client.list_models()))
        } else {
            let empty: Vec<Json> = Vec::new();
            assert(view_items(empty@) =~= Seq::<JsonValue>::empty());
            Ok(Routed::Ready(Json::array(empty)))
        }
    }

    /// Where the method of a request leads.
    pub fn route(&self, method: &str, params: Option<Json>) -> (outcome: Result<
        Routed,
        ServerError,
    >)
        ensures
            view_routed(outcome) == route(self.api_url(), method@, view_opt(params)),
    {
        if str_eq(method, "initialize") {
            match self.handle_initialize(params) {
                Ok(value) => Ok(Routed::Ready(value)),
                Err(e) => Err(e),
            }
        } else if str_eq(method, "tools/list") {
            match self.handle_tools_list() {
                Ok(value) => Ok(Routed::Ready(value)),
                Err(e) => Err(e),
            }
        } else if str_eq(method, "tools/call") {
            match self.handle_tools_call(params) {
                Ok(call) => Ok(Routed::Call(call)),
                Err(e) => Err(e),
            }
        } else if str_eq(method, "resources/list") {
            self.handle_resources_list(params)
        } else {
            Err(ServerError::MethodNotFound(String::from_str(method)))
        }
    }

    /// The response that carries `result` under `id`: a failure goes out
    /// as the error with its code and its message.
    pub fn respond(id: Json, result: Result<Json, ServerError>) -> (response: JsonRpcResponse)
        ensures
            response@ == respond(id@, view_result(result)),
    {
        match result {
            Ok(value) => JsonRpcResponse::success(id, value),
            Err(e) => JsonRpcResponse::failure(id, e.code(), e.reported()),
        }
    }

    /// Takes a request as far as it gets without the backend.
    pub fn dispatch(&self, request: JsonRpcRequest) -> (outcome: Dispatch)
        ensures
            outcome@ == dispatched(self.api_url(), request@),
    {
        let JsonRpcRequest { jsonrpc: _, method, params, id } = request;
        match self.route(method.as_str(), params) {
            Ok(Routed::Call(call)) => Dispatch::Pending { call, id },
            Ok(Routed::Ready(value)) => {
                let request_id = match id {
                    Some(id) => id,
                    None => Json::Null,
                };
                Dispatch::Done(McpServer::respond(request_id, Ok(value)))
            },
            Err(e) => {
                let request_id = match id {
                    Some(id) => id,
                    None => Json::Null,
                };
                Dispatch::Done(McpServer::respond(request_id, Err(e)))
            },
        }
    }

    /// The response to a request that called the backend, from what the
    /// backend said.
    pub fn complete(&self, id: Option<Json>, reply: &GatewayReply) -> (response: JsonRpcResponse)
        ensures
            response@ == respond(response_id(view_opt(id)), gateway_result(reply@)),
    {
        let request_id = match id {
            Some(id) => id,
            None => Json::Null,
        };
        McpServer::respond(request_id, ApiClient::handle_response(reply))
    }

    /// The text of the response that carries an error of the code and
    /// message given, under `id` or under null.
    pub fn create_error_response(&self, id: Option<Json>, code: i32, message: String) -> (text:
        String)
        ensures
            text@ == ResponseView::failure(
                response_id(view_opt(id)),
                code as int,
                message@,
            ).text(),
    {
        let request_id = match id {
            Some(id) => id,
            None => Json::Null,
        };
        JsonRpcResponse::failure(request_id, code, message).encode()
    }

    /// Handles the body of one message.
    pub fn handle_message(&self, body: &[u8]) -> (outcome: Handled)
        ensures
            outcome@ == handled(self.api_url(), body@),
    {
        let request = match JsonRpcRequest::decode(body) {
            Ok(request) => request,
            Err(failure) => {
                let text = self.create_error_response(Some(failure.id), PARSE_ERROR, failure.message);
                return Handled::Reply(Some(text));
            },
        };
        let has_id = request.id.is_some();
        match self.dispatch(request) {
            Dispatch::Done(response) => {
                if has_id {
                    Handled::Reply(Some(response.encode()))
                } else {
                    Handled::Reply(None)
                }
            },
            Dispatch::Pending { call, id } => Handled::Invoke { call, id },
        }
    }

    /// What goes out once the backend has spoken: the text of the response
    /// for a request that has an `id`, nothing for a notification.
    pub fn handle_reply(&self, id: Option<Json>, reply: &GatewayReply) -> (text: Option<String>)
        ensures
            view_text(text) == emitted(
                view_opt(id),
                respond(response_id(view_opt(id)), gateway_result(reply@)),
            ),
    {
        let has_id = id.is_some();
        let response = self.complete(id, reply);
        if has_id {
            Some(response.encode())
        } else {
            None
        }
    }

    /// Takes a session one step on: reads the frame at the front of its
    /// input and handles the message in it.
    pub fn advance(&self, session: Session) -> (progress: Progress)
        ensures
            progress@ == advanced(self.api_url(), session.input@, session.at_end),
    {
        let at_end = session.at_end;
        match read_message(session.input.as_slice(), at_end) {
            ReadOutcome::NeedMore => Progress::NeedInput { session },
            ReadOutcome::EndOfInput => Progress::Finished,
            ReadOutcome::Truncated => Progress::Truncated,
            ReadOutcome::Skipped { consumed } => {
                proof {
                    crate::util::lemma_read_frame_consumed(session.input@, at_end);
                }
                let rest = rest_of(&session.input, consumed);
                Progress::Reply { frame: None, session: Session { input: rest, at_end } }
            },
            ReadOutcome::Message { body, consumed } => {
                proof {
                    crate::util::lemma_read_frame_consumed(session.input@, at_end);
                }
                let rest = rest_of(&session.input, consumed);
                let session = Session { input: rest, at_end };
                match self.handle_message(body.as_slice()) {
                    Handled::Reply(text) => Progress::Reply { frame: frame_of(text), session },
                    Handled::Invoke { call, id } => Progress::Invoke {
                        call,
                        pending: PendingCall { id, session },
                    },
                }
            },
        }
    }

    /// Takes a session on that waited for the backend: the frame to write
    /// and flush, if there is one, and the session to go on with.
    pub fn resume(&self, pending: PendingCall, reply: &GatewayReply) -> (next: (
        Option<Vec<u8>>,
        Session,
    ))
        ensures
            view_frame(next.0) == framed(
                emitted(
                    view_opt(pending.id),
                    respond(response_id(view_opt(pending.id)), gateway_result(reply@)),
                ),
            ),
            next.1.input@ == pending.session.input@,
            next.1.at_end == pending.session.at_end,
    {
        let PendingCall { id, session } = pending;
        let text = self.handle_reply(id, reply);
        (frame_of(text), session)
    }
}

/// The names of the methods differ from each other.
proof fn lemma_methods_differ()
    ensures
        "tools/call"@ != "initialize"@,
        "tools/call"@ != "tools/list"@,
{
    reveal_strlit("tools/call");
    reveal_strlit("initialize");
    reveal_strlit("tools/list");
    assert("tools/call"@[0] != "initialize"@[0]);
    assert("tools/call"@[6] != "tools/list"@[6]);
}

/// Every response of the server holds a result or an error, never both
/// and never neither, and goes out under the `id` it was made for.
pub proof fn lemma_respond_is_valid(id: JsonValue, result: Result<JsonValue, ServerErrorView>)
    ensures
        respond(id, result).valid(),
        respond(id, result).id == id,
        respond(id, result).jsonrpc == "2.0"@,
        respond(id, result).result is Some <==> result is Ok,
{
}

/// A request that has an `id` is answered by exactly one response: it
/// goes out under the same `id` and holds either a result or an error.
pub proof fn lemma_request_gets_one_response(
    api_url: Seq<char>,
    request: RequestView,
    reply: GatewayReplyView,
)
    requires
        request.id is Some,
    ensures
        emitted(request.id, answer(api_url, request, reply)) == Some(
            answer(api_url, request, reply).text(),
        ),
        answer(api_url, request, reply).id == request.id->0,
        answer(api_url, request, reply).valid(),
        answer(api_url, request, reply).result is Some <==> answer(
            api_url,
            request,
            reply,
        ).error is None,
{
    match route(api_url, request.method, request.params) {
        Ok(RoutedView::Call(call)) => {
            lemma_respond_is_valid(response_id(request.id), gateway_result(reply));
        },
        Ok(RoutedView::Ready(value)) => {
            lemma_respond_is_valid(response_id(request.id), Ok(value));
        },
        Err(e) => {
            lemma_respond_is_valid(response_id(request.id), Err(e));
        },
    }
}

/// A notification is never answered, whatever came of it.
pub proof fn lemma_notification_gets_no_response(
    api_url: Seq<char>,
    request: RequestView,
    reply: GatewayReplyView,
)
    requires
        request.id is None,
    ensures
        emitted(request.id, answer(api_url, request, reply)) is None,
        dispatched(api_url, request) matches DispatchView::Done(response) ==> emitted(
            request.id,
            response,
        ) is None,
        dispatched(api_url, request) matches DispatchView::Pending { call, id } ==> emitted(
            id,
            respond(response_id(id), gateway_result(reply)),
        ) is None,
{
}

/// What goes out for the body of a request is what is emitted for its
/// answer: at once where the backend is not needed, and after the backend
/// has spoken where it is.
pub proof fn lemma_handled_emits_the_answer(
    api_url: Seq<char>,
    body: Seq<u8>,
    request: RequestView,
    reply: GatewayReplyView,
)
    requires
        decode_body(body) == Ok::<RequestView, crate::mcp::types::DecodeFailureView>(request),
    ensures
        handled(api_url, body) matches HandledView::Reply(text) ==> text == emitted(
            request.id,
            answer(api_url, request, reply),
        ),
        handled(api_url, body) matches HandledView::Invoke { call, id } ==> emitted(
            id,
            respond(response_id(id), gateway_result(reply)),
        ) == emitted(request.id, answer(api_url, request, reply)),
{
}

/// A body that is no request is answered with a parse error, under the
/// `id` that could be had from it or under null.
pub proof fn lemma_malformed_body_gets_parse_error(api_url: Seq<char>, body: Seq<u8>)
    requires
        decode_body(body) is Err,
    ensures
        handled(api_url, body) == HandledView::Reply(
            Some(
                ResponseView::failure(
                    decode_body(body)->Err_0.id,
                    PARSE_ERROR as int,
                    decode_body(body)->Err_0.message,
                ).text(),
            ),
        ),
{
}

/// `tools/call` for `run_inference` with inputs that hold a model and no
/// prompt is answered with invalid params, in a message that names the
/// tool and the prompt.
pub proof fn lemma_missing_prompt_is_invalid_params(
    api_url: Seq<char>,
    request: RequestView,
    inputs: JsonValue,
)
    requires
        request.method == "tools/call"@,
        decode_tools_call(params_or_null(request.params)) == Ok::<
            crate::mcp::types::ToolsCallView,
            ServerErrorView,
        >(crate::mcp::types::ToolsCallView { name: "run_inference"@, inputs }),
        crate::tools::inference::text_input(inputs, "model"@) is Some,
        crate::tools::inference::text_input(inputs, "prompt"@) is None,
    ensures
        dispatched(api_url, request) == DispatchView::Done(
            ResponseView::failure(
                response_id(request.id),
                crate::errors::INVALID_PARAMS as int,
                "Invalid parameters for method '"@ + "run_inference"@ + "': "@
                    + "Missing or invalid 'prompt' field"@,
            ),
        ),
{
    lemma_methods_differ();
}

/// `tools/call` for a tool that the catalog does not have is answered
/// with method not found.
pub proof fn lemma_unknown_tool_is_method_not_found(
    api_url: Seq<char>,
    request: RequestView,
    call: crate::mcp::types::ToolsCallView,
)
    requires
        request.method == "tools/call"@,
        decode_tools_call(params_or_null(request.params)) == Ok::<
            crate::mcp::types::ToolsCallView,
            ServerErrorView,
        >(call),
        tool_named(call.name) is None,
    ensures
        dispatched(api_url, request) == DispatchView::Done(
            ResponseView::failure(
                response_id(request.id),
                crate::errors::METHOD_NOT_FOUND as int,
                "Method not found: "@ + ("Tool '"@ + call.name + "' not found"@),
            ),
        ),
{
    lemma_methods_differ();
}

/// A method that the server does not know is answered with method not
/// found, in a message that names the method.
pub proof fn lemma_unknown_method_is_method_not_found(api_url: Seq<char>, request: RequestView)
    requires
        request.method != "initialize"@,
        request.method != "tools/list"@,
        request.method != "tools/call"@,
        request.method != "resources/list"@,
    ensures
        dispatched(api_url, request) == DispatchView::Done(
            ResponseView::failure(
                response_id(request.id),
                crate::errors::METHOD_NOT_FOUND as int,
                "Method not found: "@ + request.method,
            ),
        ),
{
}

/// A failure of the backend is answered with the code of a tool failure,
/// in a message that is the backend's own text: for a refusal, the status
/// and the body that the backend sent.
pub proof fn lemma_gateway_failure_is_tool_failure(
    api_url: Seq<char>,
    request: RequestView,
    reply: GatewayReplyView,
)
    requires
        dispatched(api_url, request) is Pending,
        gateway_result(reply) is Err,
    ensures
        answer(api_url, request, reply).result is None,
        answer(api_url, request, reply).error matches Some(e) && e.code
            == crate::errors::TOOL_FAILURE && gateway_result(reply) == Err::<
            JsonValue,
            ServerErrorView,
        >(ServerErrorView::ToolError(e.message)),
        reply matches GatewayReplyView::Response { code, status, body } ==> (
        !crate::api::client::is_success(code) ==> answer(api_url, request, reply).error->0.message
            == crate::api::client::refusal_message(status, body)),
        reply matches GatewayReplyView::Failed(reason) ==> answer(
            api_url,
            request,
            reply,
        ).error->0.message == reason,
{
}

/// A payload from the backend comes back as the result of the request
/// that called it, unchanged.
pub proof fn lemma_payload_is_forwarded(
    api_url: Seq<char>,
    request: RequestView,
    reply: GatewayReplyView,
    payload: JsonValue,
)
    requires
        dispatched(api_url, request) is Pending,
        gateway_result(reply) == Ok::<JsonValue, ServerErrorView>(payload),
    ensures
        answer(api_url, request, reply) == ResponseView::success(response_id(request.id), payload),
{
}

/// A session handles the frames in the order in which they came in: the
/// step on an input that opens with the frame of a message is what that
/// message leads to, and what stood behind the frame is the input of the
/// steps after.
pub proof fn lemma_advance_handles_the_first_frame(
    api_url: Seq<char>,
    body: Seq<u8>,
    rest: Seq<u8>,
    at_end: bool,
)
    requires
        0 < body.len() <= usize::MAX,
    ensures
        advanced(api_url, frame(body) + rest, at_end) == match handled(api_url, body) {
            HandledView::Reply(text) => ProgressView::Reply {
                frame: framed(text),
                input: rest,
                at_end,
            },
            HandledView::Invoke { call, id } => ProgressView::Invoke {
                call,
                id,
                input: rest,
                at_end,
            },
        },
{
    crate::util::lemma_frame_round_trip(body, rest, at_end);
    assert((frame(body) + rest).skip(frame(body).len() as int) =~= rest);
}

/// Every step that deals with a frame uses up input, and a session whose
/// input has ended never asks for more: it comes to its end.
pub proof fn lemma_advance_makes_progress(api_url: Seq<char>, input: Seq<u8>, at_end: bool)
    ensures
        advanced(api_url, input, at_end) matches ProgressView::Reply { input: rest, .. }
            ==> rest.len() < input.len(),
        advanced(api_url, input, at_end) matches ProgressView::Invoke { input: rest, .. }
            ==> rest.len() < input.len(),
        at_end ==> !(advanced(api_url, input, at_end) is NeedInput),
{
    crate::util::lemma_read_frame_consumed(input, at_end);
    crate::util::lemma_ended_input_needs_no_more(input);
}

/// `tools/call` for `data_analysis` with the members `data` and `ops`
/// reaches the backend, and a failure of the backend comes back under the
/// code of a tool failure, in the backend's own words.
pub proof fn lemma_data_analysis_failure_carries_the_gateways_text(
    api_url: Seq<char>,
    request: RequestView,
    inputs: JsonValue,
    reply: GatewayReplyView,
)
    requires
        request.method == "tools/call"@,
        decode_tools_call(params_or_null(request.params)) == Ok::<
            crate::mcp::types::ToolsCallView,
            ServerErrorView,
        >(crate::mcp::types::ToolsCallView { name: "data_analysis"@, inputs }),
        inputs.member("data"@) is Some,
        inputs.member("ops"@) is Some,
        gateway_result(reply) is Err,
    ensures
        dispatched(api_url, request) == (DispatchView::Pending {
            call: crate::api::client::analysis_call(
                api_url,
                inputs.member("data"@)->0,
                inputs.member("ops"@)->0,
            ),
            id: request.id,
        }),
        answer(api_url, request, reply).error matches Some(e) && e.code
            == crate::errors::TOOL_FAILURE && gateway_result(reply) == Err::<
            JsonValue,
            ServerErrorView,
        >(ServerErrorView::ToolError(e.message)),
{
    lemma_methods_differ();
    crate::tools::registry::lemma_catalog_is_sound();
    reveal_strlit("run_inference");
    reveal_strlit("data_analysis");
    assert("run_inference"@[0] != "data_analysis"@[0]);
}

} // verus!
