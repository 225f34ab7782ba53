//! The calls that the backend API takes, and what its answers mean.
//!
//! The client performs no request itself. It says which request to make,
//! as a [`GatewayCall`], and reads the outcome, handed back as a
//! [`GatewayReply`].

use vstd::prelude::*;
use vstd::utf8::encode_utf8;
use crate::codec::json_parsed;
use crate::config::Config;
use crate::errors::{ServerError, ServerErrorView};
use crate::json::{
    member, no_members, push_member, view_opt, Json, JsonValue,
};
use crate::text::{join, join3};

verus! {

/// The HTTP method of a call.
#[derive(Debug, Clone, Copy, PartialEq, Eq, Structural)]
pub enum HttpMethod {
    Get,
    Post,
}

/// A request to make of the backend.
#[derive(Debug, Clone, PartialEq, Eq)]
pub struct GatewayCall {
    pub method: HttpMethod,
    pub url: String,
    /// The JSON body to send, if the call has one.
    pub body: Option<Json>,
}

/// The mathematical model of a [`GatewayCall`].
pub struct GatewayCallView {
    pub method: HttpMethod,
    pub url: Seq<char>,
    pub body: Option<JsonValue>,
}

impl View for GatewayCall {
    type V = GatewayCallView;

    open spec fn view(&self) -> GatewayCallView {
        GatewayCallView { method: self.method, url: self.url@, body: view_opt(self.body) }
    }
}

/// What came of a call.
#[derive(Debug, Clone, PartialEq, Eq)]
pub enum GatewayReply {
    /// The backend answered. `status` is the status line as it is shown
    /// (the code and its reason), `body` the text of the body where it
    /// could be read.
    Response { code: u16, status: String, body: Option<String> },
    /// No answer was had; the text says why.
    Failed(String),
}

/// The mathematical model of a [`GatewayReply`].
pub enum GatewayReplyView {
    Response { code: int, status: Seq<char>, body: Option<Seq<char>> },
    Failed(Seq<char>),
}

/// The model of an optional string.
pub open spec fn view_opt_text(text: Option<String>) -> Option<Seq<char>> {
    match text {
        Some(s) => Some(s@),
        None => None,
    }
}

impl View for GatewayReply {
    type V = GatewayReplyView;

    open spec fn view(&self) -> GatewayReplyView {
        match self {
            GatewayReply::Response { code, status, body } => GatewayReplyView::Response {
                code: *code as int,
                status: status@,
                body: view_opt_text(*body),
            },
            GatewayReply::Failed(reason) => GatewayReplyView::Failed(reason@),
        }
    }
}

/// Whether an HTTP status code reports success: the codes from 200 up to
/// 299 do.
pub open spec fn is_success(code: int) -> bool {
    200 <= code < 300
}

/// The call that runs inference: the model, the prompt and the optional
/// parameters go in the body, a null for parameters that are not given.
pub open spec fn inference_call(
    api_url: Seq<char>,
    model: Seq<char>,
    prompt: Seq<char>,
    params: Option<JsonValue>,
) -> GatewayCallView {
    GatewayCallView {
        method: HttpMethod::Post,
        url: api_url + "/api/v1/infer"@,
        body: Some(
            JsonValue::Object(
                seq![
                    member("model"@, JsonValue::Text(model)),
                    member(
                        "params"@,
                        match params {
                            Some(p) => p,
                            None => JsonValue::Null,
                        },
                    ),
                    member("prompt"@, JsonValue::Text(prompt)),
                ],
            ),
        ),
    }
}

/// The call that analyses data with the operations given.
pub open spec fn analysis_call(api_url: Seq<char>, data: JsonValue, ops: JsonValue) -> GatewayCallView {
    GatewayCallView {
        method: HttpMethod::Post,
        url: api_url + "/api/v1/analyze"@,
        body: Some(JsonValue::Object(seq![member("data"@, data), member("ops"@, ops)])),
    }
}

/// The call that lists the models.
pub open spec fn models_call(api_url: Seq<char>) -> GatewayCallView {
    GatewayCallView { method: HttpMethod::Get, url: api_url + "/api/v1/models"@, body: None }
}

/// The text that stands for the body of a refused call.
pub open spec fn shown_body(body: Option<Seq<char>>) -> Seq<char> {
    match body {
        Some(text) => text,
        None => "<failed to read error body>"@,
    }
}

/// The message of the failure that a refusal by the backend becomes.
pub open spec fn refusal_message(status: Seq<char>, body: Option<Seq<char>>) -> Seq<char> {
    "API request failed with status "@ + status + ": "@ + shown_body(body)
}

/// What a reply means: the JSON payload of a success, or a tool failure
/// that carries in words what went wrong.
pub open spec fn gateway_result(reply: GatewayReplyView) -> Result<JsonValue, ServerErrorView> {
    match reply {
        GatewayReplyView::Failed(reason) => Err(ServerErrorView::ToolError(reason)),
        GatewayReplyView::Response { code, status, body } => {
            if is_success(code) {
                match body {
                    None => Err(ServerErrorView::ToolError("error decoding response body"@)),
                    Some(text) => match json_parsed(encode_utf8(text)) {
                        Ok(payload) => Ok(payload),
                        Err(e) => Err(
                            ServerErrorView::ToolError("error decoding response body: "@ + e),
                        ),
                    },
                }
            } else {
                Err(ServerErrorView::ToolError(refusal_message(status, body)))
            }
        },
    }
}

/// The model of what a reply means.
pub open spec fn view_result(outcome: Result<Json, ServerError>) -> Result<JsonValue, ServerErrorView> {
    match outcome {
        Ok(payload) => Ok(payload@),
        Err(e) => Err(e@),
    }
}

/// The backend API as the server uses it.
#[derive(Debug, Clone)]
pub struct ApiClient {
    api_url: String,
    api_key: Option<String>,
}

impl ApiClient {
    /// The URL under which the backend is reached.
    pub closed spec fn api_url(&self) -> Seq<char> {
        self.api_url@
    }

    /// The key to authenticate with, if any.
    pub closed spec fn api_key(&self) -> Option<Seq<char>> {
        view_opt_text(self.api_key)
    }

    /// A client for the backend that `config` names.
    pub fn new(config: &Config) -> (client: ApiClient)
        ensures
            client.api_url() == config.aion_r_api_url@,
            client.api_key() == view_opt_text(config.aion_r_api_key),
    {
        let api_key = match &config.aion_r_api_key {
            Some(key) => Some(key.clone()),
            None => None,
        };
        ApiClient { api_url: config.aion_r_api_url.clone(), api_key }
    }

    /// The value of the `Authorization` header to send with every call:
    /// the key as a bearer token, or none without a key.
    pub fn authorization(&self) -> (header: Option<String>)
        ensures
            view_opt_text(header) == match self.api_key() {
                Some(key) => Some("Bearer "@ + key),
                None => None,
            },
    {
        match &self.api_key {
            Some(key) => Some(join("Bearer ", key.as_str())),
            None => None,
        }
    }

    /// The call that runs inference with `model` on `prompt`.
    pub fn run_inference(&self, model: &str, prompt: &str, params: &Option<Json>) -> (call:
        GatewayCall)
        ensures
            call@ == inference_call(self.api_url(), model@, prompt@, view_opt(*params)),
    {
        let url = join(self.api_url.as_str(), "/api/v1/infer");
        let params_value = match params {
            Some(p) => p.clone(),
            None => Json::Null,
        };
        let mut members = no_members();
        push_member(&mut members, "model", Json::text(model));
        push_member(&mut members, "params", params_value);
        push_member(&mut members, "prompt", Json::text(prompt));
        let body = Json::object(members);
        assert(body@->Object_0 =~= inference_call(
            self.api_url(),
            model@,
            prompt@,
            view_opt(*params),
        ).body->0->Object_0);
        GatewayCall { method: HttpMethod::Post, url, body: Some(body) }
    }

    /// The call that analyses `data` with the operations `ops`.
    pub fn data_analysis(&self, data: &Json, ops: &Json) -> (call: GatewayCall)
        ensures
            call@ == analysis_call(self.api_url(), data@, ops@),
    {
        let url = join(self.api_url.as_str(), "/api/v1/analyze");
        let mut members = no_members();
        push_member(&mut members, "data", data.clone());
        push_member(&mut members, "ops", ops.clone());
        let body = Json::object(members);
        assert(body@->Object_0 =~= analysis_call(self.api_url(), data@, ops@).body->0->Object_0);
        GatewayCall { method: HttpMethod::Post, url, body: Some(body) }
    }

    /// The call that lists the models.
    pub fn list_models(&self) -> (call: GatewayCall)
        ensures
            call@ == models_call(self.api_url()),
    {
        let url = join(self.api_url.as_str(), "/api/v1/models");
        GatewayCall { method: HttpMethod::Get, url, body: None }
    }

    /// What a reply means for the tool that made the call.
    pub fn handle_response(reply: &GatewayReply) -> (outcome: Result<Json, ServerError>)
        ensures
            view_result(outcome) == gateway_result(reply@),
    {
        match reply {
            GatewayReply::Failed(reason) => Err(ServerError::ToolError(reason.clone())),
            GatewayReply::Response { code, status, body } => {
                if 200 <= *code && *code < 300 {
                    match body {
                        None => Err(
                            ServerError::ToolError(String::from_str("error decoding response body")),
                        ),
                        Some(text) => match Json::parse(text.as_str().as_bytes()) {
                            Ok(payload) => Ok(payload),
                            Err(e) => Err(
                                ServerError::ToolError(
                                    join("error decoding response body: ", e.as_str()),
                                ),
                            ),
                        },
                    }
                } else {
                    let shown = match body {
                        Some(text) => text.clone(),
                        None => String::from_str("<failed to read error body>"),
                    };
                    let head = join3("API request failed with status ", status.as_str(), ": ");
                    Err(ServerError::ToolError(join(head.as_str(), shown.as_str())))
                }
            },
        }
    }
}

} // verus!
