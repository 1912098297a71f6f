use mcp_server::{mcp_handle, respond, send_error_response, send_success_response};
use mcp_server::{Field, Header, McpRequest, OutgoingResponse, ParseError};

fn json_headers() -> Vec<Header> {
    vec![Header { name: "content-type".to_string(), value: "application/json".to_string() }]
}

fn ok(body: &str) -> OutgoingResponse {
    OutgoingResponse { status_code: 200, headers: json_headers(), body: body.to_string() }
}

#[test]
fn initialize_without_params_gives_the_defaults() {
    let out = mcp_handle(br#"{"jsonrpc":"2.0","method":"initialize","id":1}"#);
    assert_eq!(
        out,
        ok(r#"{"jsonrpc":"2.0","result":{"result":{"protocolVersion":"2024-11-05","capabilities":{},"serverInfo":{"name":"rust-mcp-server","version":"0.1.0"}}},"id":1}"#)
    );
}

#[test]
fn initialize_echoes_version_and_capabilities() {
    let out = mcp_handle(
        br#"{"jsonrpc":"2.0","method":"initialize","params":{"protocolVersion":"X","capabilities":{"a":1}},"id":7}"#,
    );
    assert_eq!(
        out,
        ok(r#"{"jsonrpc":"2.0","result":{"result":{"protocolVersion":"X","capabilities":{"a":1},"serverInfo":{"name":"rust-mcp-server","version":"0.1.0"}}},"id":7}"#)
    );
}

#[test]
fn initialize_echoes_values_of_any_type() {
    let out = mcp_handle(
        br#"{"jsonrpc":"2.0","method":"initialize","params":{"capabilities":[true,null,1.5],"protocolVersion":42},"id":"a"}"#,
    );
    assert_eq!(
        out,
        ok(r#"{"jsonrpc":"2.0","result":{"result":{"protocolVersion":42,"capabilities":[true,null,1.5],"serverInfo":{"name":"rust-mcp-server","version":"0.1.0"}}},"id":"a"}"#)
    );
}

#[test]
fn initialize_echoes_an_explicit_null() {
    let out = mcp_handle(
        br#"{"jsonrpc":"2.0","method":"initialize","params":{"protocolVersion":null},"id":1}"#,
    );
    assert_eq!(
        out,
        ok(r#"{"jsonrpc":"2.0","result":{"result":{"protocolVersion":null,"capabilities":{},"serverInfo":{"name":"rust-mcp-server","version":"0.1.0"}}},"id":1}"#)
    );
}

#[test]
fn initialize_with_null_params_gives_the_defaults() {
    let out = mcp_handle(br#"{"jsonrpc":"2.0","method":"initialize","params":null,"id":1}"#);
    assert_eq!(
        out,
        ok(r#"{"jsonrpc":"2.0","result":{"result":{"protocolVersion":"2024-11-05","capabilities":{},"serverInfo":{"name":"rust-mcp-server","version":"0.1.0"}}},"id":1}"#)
    );
}

#[test]
fn initialize_with_params_that_are_no_object_gives_the_defaults() {
    let out = mcp_handle(br#"{"jsonrpc":"2.0","method":"initialize","params":[1,2],"id":1}"#);
    assert_eq!(
        out,
        ok(r#"{"jsonrpc":"2.0","result":{"result":{"protocolVersion":"2024-11-05","capabilities":{},"serverInfo":{"name":"rust-mcp-server","version":"0.1.0"}}},"id":1}"#)
    );
}

#[test]
fn tools_list_ignores_its_params() {
    let expected = ok(r#"{"jsonrpc":"2.0","result":{"result":{"tools":[{}]}},"id":2}"#);
    assert_eq!(mcp_handle(br#"{"jsonrpc":"2.0","method":"tools/list","id":2}"#), expected);
    assert_eq!(
        mcp_handle(br#"{"jsonrpc":"2.0","method":"tools/list","params":{"tools":[1,2,3]},"id":2}"#),
        expected
    );
}

#[test]
fn unknown_method_is_a_json_rpc_error_with_status_200() {
    let out = mcp_handle(br#"{"jsonrpc":"2.0","method":"tools/call","id":3}"#);
    assert_eq!(
        out,
        ok(r#"{"jsonrpc":"2.0","result":{"error":{"code":-32601,"message":"Unknown method"}},"id":3}"#)
    );
}

#[test]
fn method_names_are_case_sensitive() {
    let out = mcp_handle(br#"{"jsonrpc":"2.0","method":"Initialize","id":3}"#);
    assert_eq!(
        out,
        ok(r#"{"jsonrpc":"2.0","result":{"error":{"code":-32601,"message":"Unknown method"}},"id":3}"#)
    );
    let out = mcp_handle(br#"{"jsonrpc":"2.0","method":"","id":3}"#);
    assert_eq!(
        out,
        ok(r#"{"jsonrpc":"2.0","result":{"error":{"code":-32601,"message":"Unknown method"}},"id":3}"#)
    );
}

#[test]
fn absent_id_is_answered_with_null() {
    let expected = ok(r#"{"jsonrpc":"2.0","result":{"result":{"tools":[{}]}},"id":null}"#);
    assert_eq!(mcp_handle(br#"{"jsonrpc":"2.0","method":"tools/list"}"#), expected);
    assert_eq!(mcp_handle(br#"{"jsonrpc":"2.0","method":"tools/list","id":null}"#), expected);
}

#[test]
fn id_is_echoed_whatever_its_type() {
    let out = mcp_handle(br#"{"id":{"k":[1,"two",false]},"method":"tools/list","jsonrpc":"2.0"}"#);
    assert_eq!(
        out,
        ok(r#"{"jsonrpc":"2.0","result":{"result":{"tools":[{}]}},"id":{"k":[1,"two",false]}}"#)
    );
    let out = mcp_handle("{\"jsonrpc\":\"2.0\",\"method\":\"tools/list\",\"id\":\"abc-\u{e9}\"}".as_bytes());
    assert_eq!(
        out,
        ok("{\"jsonrpc\":\"2.0\",\"result\":{\"result\":{\"tools\":[{}]}},\"id\":\"abc-\u{e9}\"}")
    );
}

#[test]
fn numbers_are_echoed_as_the_parser_prints_them() {
    let out = mcp_handle(
        br#"{"jsonrpc":"2.0","method":"x","id":[0,-7,18446744073709551615,-9223372036854775808,1.5,1e2,2.50]}"#,
    );
    assert_eq!(
        out,
        ok(r#"{"jsonrpc":"2.0","result":{"error":{"code":-32601,"message":"Unknown method"}},"id":[0,-7,18446744073709551615,-9223372036854775808,1.5,100.0,2.5]}"#)
    );
}

#[test]
fn the_protocol_tag_is_not_checked() {
    let out = mcp_handle(br#"{"jsonrpc":"1.0","method":"tools/list","id":1}"#);
    assert_eq!(out, ok(r#"{"jsonrpc":"2.0","result":{"result":{"tools":[{}]}},"id":1}"#));
}

#[test]
fn malformed_json_is_answered_with_400() {
    let out = mcp_handle(b"{not json");
    assert_eq!(out.status_code, 400);
    assert!(out.headers.is_empty());
    assert!(out.body.starts_with("invalid json: "));
    assert_eq!(out.body, "invalid json: key must be a string at line 1 column 2");
}

#[test]
fn empty_body_is_answered_with_400() {
    let out = mcp_handle(b"");
    assert_eq!(out.status_code, 400);
    assert!(out.headers.is_empty());
    assert_eq!(out.body, "invalid json: EOF while parsing a value at line 1 column 0");
}

#[test]
fn trailing_text_is_answered_with_400() {
    let out = mcp_handle(br#"{"jsonrpc":"2.0","method":"tools/list"} x"#);
    assert_eq!(out.status_code, 400);
    assert!(out.body.starts_with("invalid json: trailing characters"));
}

#[test]
fn a_method_that_is_no_string_is_answered_with_400() {
    let out = mcp_handle(br#"{"jsonrpc":"2.0","method":5,"id":1}"#);
    assert_eq!(out.status_code, 400);
    assert!(out.headers.is_empty());
    assert_eq!(out.body, "invalid json: invalid type for field `method`: expected a string");
}

#[test]
fn a_missing_method_is_answered_with_400() {
    let out = mcp_handle(br#"{"jsonrpc":"2.0","id":1}"#);
    assert_eq!(out.status_code, 400);
    assert_eq!(out.body, "invalid json: missing field `method`");
}

#[test]
fn a_missing_protocol_tag_is_answered_with_400() {
    let out = mcp_handle(br#"{"method":"initialize","id":1}"#);
    assert_eq!(out.status_code, 400);
    assert_eq!(out.body, "invalid json: missing field `jsonrpc`");
    let out = mcp_handle(br#"{"jsonrpc":null,"method":"initialize","id":1}"#);
    assert_eq!(out.body, "invalid json: invalid type for field `jsonrpc`: expected a string");
}

#[test]
fn a_document_that_is_no_object_is_answered_with_400() {
    for body in [&b"null"[..], b"42", b"\"initialize\"", b"[\"2.0\",\"initialize\"]"] {
        let out = mcp_handle(body);
        assert_eq!(out.status_code, 400);
        assert_eq!(out.body, "invalid json: invalid type: expected a JSON object");
    }
}

#[test]
fn invalid_utf8_is_replaced_not_rejected() {
    let out = mcp_handle(b"{\"jsonrpc\":\"2.0\",\"method\":\"tools/list\",\"id\":\"\xff\"}");
    assert_eq!(
        out,
        ok("{\"jsonrpc\":\"2.0\",\"result\":{\"result\":{\"tools\":[{}]}},\"id\":\"\u{fffd}\"}")
    );
    let out = mcp_handle(b"{\"jsonrpc\":\"2.0\",\"method\":\"tools/list\xff\",\"id\":1}");
    assert_eq!(
        out,
        ok(r#"{"jsonrpc":"2.0","result":{"error":{"code":-32601,"message":"Unknown method"}},"id":1}"#)
    );
}

#[test]
fn handling_twice_gives_the_same_response() {
    let bodies: [&[u8]; 4] = [
        br#"{"jsonrpc":"2.0","method":"initialize","params":{"capabilities":{"a":1}},"id":1}"#,
        br#"{"jsonrpc":"2.0","method":"tools/list","id":[1,2]}"#,
        br#"{"jsonrpc":"2.0","method":"nope"}"#,
        b"{not json",
    ];
    for body in bodies {
        let first = mcp_handle(body);
        let second = mcp_handle(body);
        assert_eq!(first, second);
        assert_eq!(first.body.as_bytes(), second.body.as_bytes());
    }
}

#[test]
fn respond_answers_each_outcome() {
    let out = respond(Err(ParseError::Syntax("expected value at line 1 column 1".to_string())));
    assert_eq!(
        out,
        OutgoingResponse {
            status_code: 400,
            headers: vec![],
            body: "invalid json: expected value at line 1 column 1".to_string(),
        }
    );
    let out = respond(Err(ParseError::MissingField(Field::Method)));
    assert_eq!(out.body, "invalid json: missing field `method`");
    let request = McpRequest::parse(br#"{"jsonrpc":"2.0","method":"tools/list","id":9}"#);
    assert_eq!(
        respond(request),
        ok(r#"{"jsonrpc":"2.0","result":{"result":{"tools":[{}]}},"id":9}"#)
    );
}

#[test]
fn success_response_has_status_200_and_the_json_content_type() {
    let out = send_success_response("{}".to_string());
    assert_eq!(out, OutgoingResponse { status_code: 200, headers: json_headers(), body: "{}".to_string() });
}

#[test]
fn error_response_has_the_status_and_no_header() {
    let out = send_error_response(400, "invalid json: x".to_string());
    assert_eq!(
        out,
        OutgoingResponse { status_code: 400, headers: vec![], body: "invalid json: x".to_string() }
    );
    let out = send_error_response(503, String::new());
    assert_eq!(out, OutgoingResponse { status_code: 503, headers: vec![], body: String::new() });
}
