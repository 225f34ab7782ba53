//! The tool `data_analysis`.

use vstd::prelude::*;
use crate::api::client::{analysis_call, ApiClient, GatewayCall, GatewayCallView};
use crate::errors::{ServerError, ServerErrorView};
use crate::json::{Json, JsonValue};
use crate::mcp::types::invalid_params;
use crate::tools::inference::view_request;

verus! {

/// What `data_analysis` does with its inputs: it needs the members `data`
/// and `ops`, in that order, whatever they hold.
pub open spec fn analysis_request(api_url: Seq<char>, inputs: JsonValue) -> Result<
    GatewayCallView,
    ServerErrorView,
> {
    match inputs.member("data"@) {
        None => Err(invalid_params("data_analysis"@, "Missing 'data' field"@)),
        Some(data) => match inputs.member("ops"@) {
            None => Err(invalid_params("data_analysis"@, "Missing 'ops' field"@)),
            Some(ops) => Ok(analysis_call(api_url, data, ops)),
        },
    }
}

/// Tool: data_analysis. Checks the inputs and says which call to the backend
/// runs the analysis.
pub fn data_analysis(api_client: &ApiClient, inputs: &Json) -> (outcome: Result<
    GatewayCall,
    ServerError,
>)
    ensures
        view_request(outcome) == analysis_request(api_client.api_url(), inputs@),
{
    let data = match inputs.get("data") {
        Some(value) => value,
        None => {
            return Err(
                ServerError::InvalidParameters {
                    method: String::from_str("data_analysis"),
                    details: String::from_str("Missing 'data' field"),
                },
            );
        },
    };
    let ops = match inputs.get("ops") {
        Some(value) => value,
        None => {
            return Err(
                ServerError::InvalidParameters {
                    method: String::from_str("data_analysis"),
                    details: String::from_str("Missing 'ops' field"),
                },
            );
        },
    };
    Ok(api_client.data_analysis(data, ops))
}

} // verus!
