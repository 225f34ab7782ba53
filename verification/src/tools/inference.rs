//! The tool `run_inference`.

use vstd::prelude::*;
use crate::api::client::{inference_call, ApiClient, GatewayCall, GatewayCallView};
use crate::errors::{ServerError, ServerErrorView};
use crate::json::{clone_opt, view_opt, Json, JsonValue};
use crate::mcp::types::invalid_params;

verus! {

/// The string member `field` of the inputs, if they hold one.
pub open spec fn text_input(inputs: JsonValue, field: Seq<char>) -> Option<Seq<char>> {
    match inputs.member(field) {
        Some(value) => value.text(),
        None => None,
    }
}

/// What `run_inference` does with its inputs: it needs the strings `model`
/// and `prompt`, in that order, and passes `params` on where the inputs
/// hold it.
pub open spec fn inference_request(api_url: Seq<char>, inputs: JsonValue) -> Result<
    GatewayCallView,
    ServerErrorView,
> {
    match text_input(inputs, "model"@) {
        None => Err(invalid_params("run_inference"@, "Missing or invalid 'model' field"@)),
        Some(model) => match text_input(inputs, "prompt"@) {
            None => Err(invalid_params("run_inference"@, "Missing or invalid 'prompt' field"@)),
            Some(prompt) => Ok(inference_call(api_url, model, prompt, inputs.member("params"@))),
        },
    }
}

/// The model of a call or the failure to make one.
pub open spec fn view_request(outcome: Result<GatewayCall, ServerError>) -> Result<
    GatewayCallView,
    ServerErrorView,
> {
    match outcome {
        Ok(call) => Ok(call@),
        Err(e) => Err(e@),
    }
}

/// The string member `field` of `inputs`, if they hold one.
fn read_input<'a>(inputs: &'a Json, field: &str) -> (found: Option<&'a str>)
    ensures
        match found {
            Some(s) => text_input(inputs@, field@) == Some(s@),
            None => text_input(inputs@, field@).is_none(),
        },
{
    match inputs.get(field) {
        Some(value) => value.as_str(),
        None => None,
    }
}

/// Tool: run_inference. Checks the inputs and says which call to the backend
/// runs the inference.
pub fn run_inference(api_client: &ApiClient, inputs: &Json) -> (outcome: Result<
    GatewayCall,
    ServerError,
>)
    ensures
        view_request(outcome) == inference_request(api_client.api_url(), inputs@),
{
    let model = match read_input(inputs, "model") {
        Some(s) => s,
        None => {
            return Err(
                ServerError::InvalidParameters {
                    method: String::from_str("run_inference"),
                    details: String::from_str("Missing or invalid 'model' field"),
                },
            );
        },
    };
    let prompt = match read_input(inputs, "prompt") {
        Some(s) => s,
        None => {
            return Err(
                ServerError::InvalidParameters {
                    method: String::from_str("run_inference"),
                    details: String::from_str("Missing or invalid 'prompt' field"),
                },
            );
        },
    };
    let params = match inputs.get("params") {
        Some(p) => Some(p.clone()),
        None => None,
    };
    Ok(api_client.run_inference(model, prompt, &params))
}

} // verus!
