use aionr2::errors::{
    ServerError, INTERNAL_ERROR, INVALID_PARAMS, INVALID_REQUEST, METHOD_NOT_FOUND, PARSE_ERROR,
    TOOL_FAILURE,
};
use aionr2::json::{clone_opt, no_members, push_item, push_member, push_optional_member, Json};
use aionr2::mcp::types::{
    read_text, DecodeFailure, InitializeResult, JsonRpcError, JsonRpcRequest, JsonRpcResponse,
    ResourcesListParams, ServerInfo, ToolDefinition, ToolsCallParams, ToolsListResult,
};
use aionr2::text::{join, join3, str_eq};

fn parse(text: &str) -> Json {
    Json::parse(text.as_bytes()).expect("the text is JSON")
}

#[test]
fn parse_reads_an_object_with_sorted_members() {
    let parsed = Json::parse(br#"{"b": [1, 2.5, "x", true], "a": null}"#).unwrap();
    let expected = Json::Object(vec![
        ("a".to_string(), Json::Null),
        (
            "b".to_string(),
            Json::Array(vec![
                Json::Integer(1),
                Json::Decimal("2.5".to_string()),
                Json::Text("x".to_string()),
                Json::Bool(true),
            ]),
        ),
    ]);
    assert_eq!(parsed, expected);
}

#[test]
fn parse_tells_integers_from_other_numbers() {
    assert_eq!(parse("-9223372036854775808"), Json::Integer(i64::MIN));
    assert_eq!(parse("9223372036854775807"), Json::Integer(i64::MAX));
    assert_eq!(parse("9223372036854775808"), Json::Decimal("9223372036854775808".to_string()));
    assert_eq!(parse("1e2"), Json::Decimal("100.0".to_string()));
    assert_eq!(parse("-0.5"), Json::Decimal("-0.5".to_string()));
}

#[test]
fn parse_gives_the_parsers_error_text() {
    assert_eq!(
        Json::parse(b""),
        Err("EOF while parsing a value at line 1 column 0".to_string())
    );
    assert_eq!(
        Json::parse(b"{} x"),
        Err("trailing characters at line 1 column 4".to_string())
    );
    assert!(Json::parse(&[b'"', 0xff, b'"']).is_err());
}

#[test]
fn to_text_writes_compact_json() {
    let value = Json::Object(vec![
        ("name".to_string(), Json::Text("a\"b\n".to_string())),
        ("n".to_string(), Json::Integer(-7)),
        ("d".to_string(), Json::Decimal("18446744073709551615".to_string())),
        ("list".to_string(), Json::Array(vec![Json::Null, Json::Bool(false)])),
    ]);
    assert_eq!(
        value.to_text(),
        r#"{"d":18446744073709551615,"list":[null,false],"n":-7,"name":"a\"b\n"}"#
    );
}

#[test]
fn to_text_writes_null_for_decimal_text_that_is_no_number() {
    assert_eq!(Json::Decimal("twelve".to_string()).to_text(), "null");
    assert_eq!(Json::Decimal("2.50".to_string()).to_text(), "2.5");
}

#[test]
fn text_and_back_gives_the_value_of_a_parsed_text() {
    let texts = [
        r#"{"a":[1,2.5,"x",{"k":null}],"b":{"c":false},"d":"é\u0000"}"#,
        "[]",
        "{}",
        "null",
        r#""\"""#,
        "123456789012345678901234567890",
    ];
    for text in texts {
        let value = parse(text);
        assert_eq!(Json::parse(value.to_text().as_bytes()), Ok(value));
    }
}

#[test]
fn get_finds_the_first_member_of_an_object() {
    let object = Json::Object(vec![
        ("a".to_string(), Json::Integer(1)),
        ("b".to_string(), Json::Integer(2)),
        ("a".to_string(), Json::Integer(3)),
    ]);
    assert_eq!(object.get("a"), Some(&Json::Integer(1)));
    assert_eq!(object.get("b"), Some(&Json::Integer(2)));
    assert_eq!(object.get("c"), None);
    assert_eq!(object.get(""), None);
    assert_eq!(Json::Array(vec![]).get("a"), None);
    assert_eq!(Json::Text("a".to_string()).get("a"), None);
}

#[test]
fn as_str_gives_the_characters_of_a_string_only() {
    assert_eq!(Json::Text("héllo".to_string()).as_str(), Some("héllo"));
    assert_eq!(Json::text("abc"), Json::Text("abc".to_string()));
    assert_eq!(Json::Decimal("1.5".to_string()).as_str(), None);
    assert_eq!(Json::Null.as_str(), None);
}

#[test]
fn clone_copies_the_whole_value() {
    let value = parse(r#"{"a":[1,{"b":["x",null,2.5]}],"c":true}"#);
    assert_eq!(value.clone(), value);
    assert_eq!(clone_opt(&Some(value.clone())), Some(value));
    assert_eq!(clone_opt(&None), None);
}

#[test]
fn the_builders_keep_the_order_given() {
    let mut members = no_members();
    push_member(&mut members, "z", Json::Integer(1));
    push_optional_member(&mut members, "skipped", None);
    push_optional_member(&mut members, "a", Some(Json::Null));
    let mut items = Vec::new();
    push_item(&mut items, Json::Bool(true));
    push_item(&mut items, Json::Bool(false));
    push_member(&mut members, "list", Json::array(items));
    assert_eq!(
        Json::object(members),
        Json::Object(vec![
            ("z".to_string(), Json::Integer(1)),
            ("a".to_string(), Json::Null),
            (
                "list".to_string(),
                Json::Array(vec![Json::Bool(true), Json::Bool(false)])
            ),
        ])
    );
}

#[test]
fn the_string_helpers_compare_and_join() {
    assert!(str_eq("tools/list", "tools/list"));
    assert!(!str_eq("tools/list", "tools/lisT"));
    assert!(!str_eq("tools/list", "tools/lis"));
    assert!(str_eq("", ""));
    assert!(str_eq("é", "é"));
    assert_eq!(join("ab", "cd"), "abcd");
    assert_eq!(join3("a", "", "é"), "aé");
}

#[test]
fn a_response_survives_encoding_and_decoding() {
    let responses = vec![
        JsonRpcResponse::success(Json::Integer(1), parse(r#"{"a":[1,2.5,null]}"#)),
        JsonRpcResponse::success(Json::Null, Json::Null),
        JsonRpcResponse::success(Json::Text("id".to_string()), Json::Bool(false)),
        JsonRpcResponse::failure(Json::Integer(-3), -32601, "Method not found: x".to_string()),
        JsonRpcResponse {
            jsonrpc: "2.0".to_string(),
            result: None,
            error: Some(JsonRpcError {
                code: i32::MIN,
                message: "with \"quotes\" and é".to_string(),
                data: Some(parse(r#"{"detail":[1,2]}"#)),
            }),
            id: Json::Text("req".to_string()),
        },
        JsonRpcResponse {
            jsonrpc: "1.0".to_string(),
            result: None,
            error: Some(JsonRpcError { code: i32::MAX, message: String::new(), data: Some(Json::Null) }),
            id: Json::Array(vec![]),
        },
    ];
    for response in responses {
        assert_eq!(JsonRpcResponse::from_json(&response.to_json()), Ok(response.clone()));
        let text = response.encode();
        let decoded = JsonRpcResponse::from_json(&parse(&text));
        assert_eq!(decoded, Ok(response));
    }
}

#[test]
fn encode_writes_the_members_of_a_response() {
    let success = JsonRpcResponse::success(Json::Integer(1), parse(r#"{"ok":true}"#));
    assert_eq!(success.encode(), r#"{"id":1,"jsonrpc":"2.0","result":{"ok":true}}"#);
    let failure = JsonRpcResponse::failure(Json::Null, -32700, "Parse error: x".to_string());
    assert_eq!(
        failure.encode(),
        r#"{"error":{"code":-32700,"message":"Parse error: x"},"id":null,"jsonrpc":"2.0"}"#
    );
    let error = JsonRpcError { code: 7, message: "m".to_string(), data: Some(Json::Integer(1)) };
    assert_eq!(error.to_json().to_text(), r#"{"code":7,"data":1,"message":"m"}"#);
}

#[test]
fn from_json_refuses_what_is_no_response() {
    let cases = [
        (r#"[]"#, "expected a JSON object"),
        (r#"{"id":1,"result":1}"#, "missing field `jsonrpc`"),
        (r#"{"jsonrpc":"2.0","result":1}"#, "missing field `id`"),
        (r#"{"jsonrpc":"2.0","id":1}"#, "expected exactly one of `result` and `error`"),
        (
            r#"{"jsonrpc":"2.0","id":1,"result":1,"error":{"code":1,"message":"m"}}"#,
            "expected exactly one of `result` and `error`",
        ),
        (r#"{"jsonrpc":"2.0","id":1,"error":5}"#, "expected a JSON object"),
        (r#"{"jsonrpc":"2.0","id":1,"error":{"message":"m"}}"#, "missing field `code`"),
        (
            r#"{"jsonrpc":"2.0","id":1,"error":{"code":2147483648,"message":"m"}}"#,
            "invalid type for field `code`, expected a 32-bit integer",
        ),
        (
            r#"{"jsonrpc":"2.0","id":1,"error":{"code":1.5,"message":"m"}}"#,
            "invalid type for field `code`, expected a 32-bit integer",
        ),
        (r#"{"jsonrpc":"2.0","id":1,"error":{"code":1}}"#, "missing field `message`"),
    ];
    for (text, reason) in cases {
        assert_eq!(JsonRpcResponse::from_json(&parse(text)), Err(reason.to_string()));
    }
}

#[test]
fn a_request_survives_encoding_and_decoding() {
    let requests = vec![
        JsonRpcRequest {
            jsonrpc: "2.0".to_string(),
            method: "tools/call".to_string(),
            params: Some(parse(r#"{"name":"x","inputs":{}}"#)),
            id: Some(Json::Integer(1)),
        },
        JsonRpcRequest {
            jsonrpc: "2.0".to_string(),
            method: "initialized".to_string(),
            params: None,
            id: None,
        },
        JsonRpcRequest {
            jsonrpc: "2.0".to_string(),
            method: "m".to_string(),
            params: Some(Json::Null),
            id: Some(Json::Null),
        },
    ];
    for request in requests {
        assert_eq!(JsonRpcRequest::from_json(&request.to_json()), Ok(request.clone()));
        let text = request.to_json().to_text();
        assert_eq!(JsonRpcRequest::decode(text.as_bytes()), Ok(request));
    }
}

#[test]
fn decode_reads_a_request_and_salvages_the_id_of_what_is_none() {
    assert_eq!(
        JsonRpcRequest::decode(br#"{"jsonrpc":"2.0","method":"initialize","id":1}"#),
        Ok(JsonRpcRequest {
            jsonrpc: "2.0".to_string(),
            method: "initialize".to_string(),
            params: None,
            id: Some(Json::Integer(1)),
        })
    );
    assert_eq!(
        JsonRpcRequest::decode(br#"{"jsonrpc":"2.0","method":"x","extra":1}"#),
        Ok(JsonRpcRequest {
            jsonrpc: "2.0".to_string(),
            method: "x".to_string(),
            params: None,
            id: None,
        })
    );
    assert_eq!(
        JsonRpcRequest::decode(b"{"),
        Err(DecodeFailure {
            id: Json::Null,
            message: "Parse error: EOF while parsing an object at line 1 column 1".to_string(),
        })
    );
    assert_eq!(
        JsonRpcRequest::decode(br#"{"method":"x","id":[1]}"#),
        Err(DecodeFailure {
            id: Json::Array(vec![Json::Integer(1)]),
            message: "Parse error: missing field `jsonrpc`".to_string(),
        })
    );
    assert_eq!(
        JsonRpcRequest::decode(br#"{"jsonrpc":"2.0","method":null}"#),
        Err(DecodeFailure {
            id: Json::Null,
            message: "Parse error: invalid type for field `method`, expected a string".to_string(),
        })
    );
}

#[test]
fn read_text_says_what_is_wrong_with_a_member() {
    let json = parse(r#"{"a":"x","b":1}"#);
    assert_eq!(read_text(&json, "a"), Ok("x".to_string()));
    assert_eq!(
        read_text(&json, "b"),
        Err("invalid type for field `b`, expected a string".to_string())
    );
    assert_eq!(read_text(&json, "c"), Err("missing field `c`".to_string()));
}

#[test]
fn the_payloads_have_their_json() {
    let result = InitializeResult {
        protocol_version: "2024-11-05".to_string(),
        server: ServerInfo { name: "n".to_string(), version: "1".to_string() },
    };
    assert_eq!(
        result.to_json().to_text(),
        r#"{"protocolVersion":"2024-11-05","server":{"name":"n","version":"1"}}"#
    );
    let tool = ToolDefinition {
        name: "t".to_string(),
        description: "d".to_string(),
        inputs: parse(r#"{"type":"object"}"#),
    };
    assert_eq!(
        tool.to_json().to_text(),
        r#"{"description":"d","inputs":{"type":"object"},"name":"t"}"#
    );
    let list = ToolsListResult { tools: vec![tool.clone(), tool] };
    assert_eq!(
        list.to_json().to_text(),
        r#"{"tools":[{"description":"d","inputs":{"type":"object"},"name":"t"},{"description":"d","inputs":{"type":"object"},"name":"t"}]}"#
    );
    assert_eq!(ToolsListResult { tools: vec![] }.to_json().to_text(), r#"{"tools":[]}"#);
}

#[test]
fn the_parameters_are_read_from_json() {
    assert_eq!(
        ToolsCallParams::from_json(&parse(r#"{"name":"t","inputs":null,"more":1}"#)),
        Ok(ToolsCallParams { name: "t".to_string(), inputs: Json::Null })
    );
    assert_eq!(
        ToolsCallParams::from_json(&parse(r#"{"name":5,"inputs":{}}"#)),
        Err(ServerError::InvalidParameters {
            method: "tools/call".to_string(),
            details: "Missing or invalid 'name' field".to_string(),
        })
    );
    assert_eq!(
        ToolsCallParams::from_json(&parse(r#"["t", {}]"#)),
        Err(ServerError::InvalidParameters {
            method: "tools/call".to_string(),
            details: "Missing or invalid 'name' field".to_string(),
        })
    );
    assert_eq!(
        ResourcesListParams::from_json(&parse(r#"{"uri":"u"}"#)),
        Ok(ResourcesListParams { uri: "u".to_string() })
    );
    assert_eq!(
        ResourcesListParams::from_json(&parse(r#"{"uri":["u"]}"#)),
        Err(ServerError::InvalidParameters {
            method: "resources/list".to_string(),
            details: "Missing or invalid 'uri' field".to_string(),
        })
    );
}

#[test]
fn each_failure_has_its_code_and_its_words() {
    assert_eq!(PARSE_ERROR, -32700);
    assert_eq!(INVALID_REQUEST, -32600);
    assert_eq!(METHOD_NOT_FOUND, -32601);
    assert_eq!(INVALID_PARAMS, -32602);
    assert_eq!(INTERNAL_ERROR, -32603);
    assert_eq!(TOOL_FAILURE, -32000);
    let io = ServerError::Io("e".to_string());
    assert_eq!((io.code(), io.description()), (-32603, "I/O error: e".to_string()));
    assert_eq!(io.reported(), "I/O error: e");
    let json = ServerError::Json("e".to_string());
    assert_eq!(
        (json.code(), json.description()),
        (-32603, "JSON serialization/deserialization error: e".to_string())
    );
    let api = ServerError::ApiClient("e".to_string());
    assert_eq!((api.code(), api.description()), (-32603, "API client error: e".to_string()));
    let invalid = ServerError::InvalidJsonRpcRequest("e".to_string());
    assert_eq!(
        (invalid.code(), invalid.description()),
        (-32600, "Invalid JSON-RPC request: e".to_string())
    );
    assert_eq!(invalid.reported(), "e");
    let method = ServerError::MethodNotFound("e".to_string());
    assert_eq!((method.code(), method.description()), (-32601, "Method not found: e".to_string()));
    assert_eq!(method.reported(), "Method not found: e");
    let params = ServerError::InvalidParameters { method: "m".to_string(), details: "d".to_string() };
    assert_eq!(
        (params.code(), params.description()),
        (-32602, "Invalid parameters for method 'm': d".to_string())
    );
    let tool = ServerError::ToolError("e".to_string());
    assert_eq!((tool.code(), tool.description()), (-32000, "Internal tool error: e".to_string()));
    assert_eq!(tool.reported(), "e");
    let config = ServerError::ConfigError("e".to_string());
    assert_eq!((config.code(), config.description()), (-32603, "Configuration error: e".to_string()));
}
