use aionr2::api::client::{ApiClient, GatewayCall, GatewayReply, HttpMethod};
use aionr2::config::Config;
use aionr2::errors::ServerError;
use aionr2::json::Json;
use aionr2::tools::analytics::data_analysis;
use aionr2::tools::inference::run_inference;

fn client(key: Option<&str>) -> ApiClient {
    ApiClient::new(&Config {
        aion_r_api_url: "https://api.example".to_string(),
        aion_r_api_key: key.map(|k| k.to_string()),
    })
}

fn parse(text: &str) -> Json {
    Json::parse(text.as_bytes()).expect("the text is JSON")
}

fn invalid(method: &str, details: &str) -> ServerError {
    ServerError::InvalidParameters { method: method.to_string(), details: details.to_string() }
}

#[test]
fn the_key_goes_out_as_a_bearer_token() {
    assert_eq!(client(None).authorization(), None);
    assert_eq!(client(Some("s3cr3t")).authorization(), Some("Bearer s3cr3t".to_string()));
    assert_eq!(client(Some("")).authorization(), Some("Bearer ".to_string()));
}

#[test]
fn the_calls_name_their_endpoints_and_bodies() {
    let client = client(None);
    assert_eq!(
        client.run_inference("m", "p", &None),
        GatewayCall {
            method: HttpMethod::Post,
            url: "https://api.example/api/v1/infer".to_string(),
            body: Some(parse(r#"{"model":"m","params":null,"prompt":"p"}"#)),
        }
    );
    assert_eq!(
        client.run_inference("m", "p", &Some(parse(r#"{"temperature":0.5}"#))),
        GatewayCall {
            method: HttpMethod::Post,
            url: "https://api.example/api/v1/infer".to_string(),
            body: Some(parse(r#"{"model":"m","params":{"temperature":0.5},"prompt":"p"}"#)),
        }
    );
    assert_eq!(
        client.data_analysis(&parse("[1,2]"), &parse(r#"["mean"]"#)),
        GatewayCall {
            method: HttpMethod::Post,
            url: "https://api.example/api/v1/analyze".to_string(),
            body: Some(parse(r#"{"data":[1,2],"ops":["mean"]}"#)),
        }
    );
    assert_eq!(
        client.list_models(),
        GatewayCall {
            method: HttpMethod::Get,
            url: "https://api.example/api/v1/models".to_string(),
            body: None,
        }
    );
}

#[test]
fn a_success_gives_the_payload() {
    for code in [200u16, 204, 299] {
        let reply = GatewayReply::Response {
            code,
            status: "ok".to_string(),
            body: Some(r#"{"b":1,"a":[true]}"#.to_string()),
        };
        assert_eq!(ApiClient::handle_response(&reply), Ok(parse(r#"{"a":[true],"b":1}"#)));
    }
}

#[test]
fn a_success_without_a_json_body_is_a_tool_failure() {
    let reply = GatewayReply::Response {
        code: 200,
        status: "200 OK".to_string(),
        body: Some("<html>".to_string()),
    };
    assert_eq!(
        ApiClient::handle_response(&reply),
        Err(ServerError::ToolError(
            "error decoding response body: expected value at line 1 column 1".to_string()
        ))
    );
    let reply = GatewayReply::Response { code: 200, status: "200 OK".to_string(), body: None };
    assert_eq!(
        ApiClient::handle_response(&reply),
        Err(ServerError::ToolError("error decoding response body".to_string()))
    );
}

#[test]
fn a_refusal_is_a_tool_failure_with_status_and_body() {
    for code in [199u16, 300, 404, 500] {
        let reply = GatewayReply::Response {
            code,
            status: "404 Not Found".to_string(),
            body: Some(r#"{"detail":"no such model"}"#.to_string()),
        };
        assert_eq!(
            ApiClient::handle_response(&reply),
            Err(ServerError::ToolError(
                r#"API request failed with status 404 Not Found: {"detail":"no such model"}"#
                    .to_string()
            ))
        );
    }
    let reply = GatewayReply::Response {
        code: 502,
        status: "502 Bad Gateway".to_string(),
        body: None,
    };
    assert_eq!(
        ApiClient::handle_response(&reply),
        Err(ServerError::ToolError(
            "API request failed with status 502 Bad Gateway: <failed to read error body>".to_string()
        ))
    );
}

#[test]
fn a_call_that_got_no_answer_is_a_tool_failure() {
    let reply = GatewayReply::Failed("error sending request: connection refused".to_string());
    assert_eq!(
        ApiClient::handle_response(&reply),
        Err(ServerError::ToolError("error sending request: connection refused".to_string()))
    );
}

#[test]
fn run_inference_needs_model_and_prompt_as_strings() {
    let client = client(None);
    assert_eq!(
        run_inference(&client, &parse(r#"{"model":"m","prompt":"p","params":[1]}"#)),
        Ok(client.run_inference("m", "p", &Some(parse("[1]"))))
    );
    assert_eq!(
        run_inference(&client, &parse(r#"{"model":"m","prompt":"p"}"#)),
        Ok(client.run_inference("m", "p", &None))
    );
    assert_eq!(
        run_inference(&client, &parse(r#"{"prompt":"p"}"#)),
        Err(invalid("run_inference", "Missing or invalid 'model' field"))
    );
    assert_eq!(
        run_inference(&client, &parse(r#"{"model":1,"prompt":"p"}"#)),
        Err(invalid("run_inference", "Missing or invalid 'model' field"))
    );
    assert_eq!(
        run_inference(&client, &parse(r#"{"model":"m"}"#)),
        Err(invalid("run_inference", "Missing or invalid 'prompt' field"))
    );
    assert_eq!(
        run_inference(&client, &parse(r#"{"model":"m","prompt":null}"#)),
        Err(invalid("run_inference", "Missing or invalid 'prompt' field"))
    );
    assert_eq!(
        run_inference(&client, &parse(r#"["m","p"]"#)),
        Err(invalid("run_inference", "Missing or invalid 'model' field"))
    );
}

#[test]
fn data_analysis_needs_data_and_ops() {
    let client = client(None);
    assert_eq!(
        data_analysis(&client, &parse(r#"{"data":null,"ops":5}"#)),
        Ok(client.data_analysis(&Json::Null, &Json::Integer(5)))
    );
    assert_eq!(
        data_analysis(&client, &parse(r#"{"ops":[]}"#)),
        Err(invalid("data_analysis", "Missing 'data' field"))
    );
    assert_eq!(
        data_analysis(&client, &parse(r#"{"data":[]}"#)),
        Err(invalid("data_analysis", "Missing 'ops' field"))
    );
    assert_eq!(
        data_analysis(&client, &Json::Null),
        Err(invalid("data_analysis", "Missing 'data' field"))
    );
}
