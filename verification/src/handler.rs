//! The handler: from the bytes of a request body to the response.

use crate::codec::{json_parse, json_text};
use crate::envelope::{
    outcome_view, parse_request, request_of_parsed, response_json, response_of, Envelope, Fault, McpRequest,
    McpResponse, ParseError,
};
use crate::http::{
    error_response, send_error_response, send_success_response, success_response, Outgoing,
    OutgoingResponse,
};
use crate::dispatch::{
    empty_object, initialize_result, lemma_initialize_members, lemma_tools_list,
    lemma_unknown_method, lemma_unknown_method_members, lemma_wrap_get, tools_list_result,
    unknown_method,
};
use crate::json::{lemma_lookup_push, JsonValue};
use vstd::prelude::*;
use vstd::string::StringExecFns;
use vstd::utf8::{decode_utf8, valid_utf8};

verus! {

/// The response to the outcome of reading a request. An envelope is
/// answered with status 200 and the JSON text of the response envelope,
/// whatever the method; a fault with status 400 and its message in plain
/// text.
pub open spec fn handled(outcome: Result<Envelope, Fault>) -> Outgoing {
    match outcome {
        Ok(request) => success_response(json_text(response_json(response_of(request)))),
        Err(fault) => error_response(400, "invalid json: "@ + fault.message()),
    }
}

/// The answer to `initialize` without parameters names the protocol version
/// `2024-11-05` and no capabilities.
pub proof fn lemma_initialize_defaults(request: Envelope)
    requires
        request.method == "initialize"@,
        request.params == empty_object(),
    ensures
        response_of(request).result.get("result"@) == Some(initialize_result(request.params)),
        initialize_result(request.params).get("protocolVersion"@) == Some(
            JsonValue::Str("2024-11-05"@),
        ),
        initialize_result(request.params).get("capabilities"@) == Some(empty_object()),
{
    lemma_wrap_get("result"@, initialize_result(request.params));
    lemma_initialize_members(request.params);
}

/// The answer to `initialize` echoes the protocol version and the
/// capabilities that the parameters hold, unchanged.
pub proof fn lemma_initialize_echoes(
    request: Envelope,
    version: JsonValue,
    capabilities: JsonValue,
)
    requires
        request.method == "initialize"@,
        request.params.get("protocolVersion"@) == Some(version),
        request.params.get("capabilities"@) == Some(capabilities),
    ensures
        response_of(request).result.get("result"@) == Some(initialize_result(request.params)),
        initialize_result(request.params).get("protocolVersion"@) == Some(version),
        initialize_result(request.params).get("capabilities"@) == Some(capabilities),
{
    lemma_wrap_get("result"@, initialize_result(request.params));
    lemma_initialize_members(request.params);
}

/// Parameters that are an object of the two members `protocolVersion` and
/// `capabilities` have both echoed, whatever values they hold.
pub proof fn lemma_initialize_echoes_both(
    request: Envelope,
    version: JsonValue,
    capabilities: JsonValue,
)
    requires
        request.method == "initialize"@,
        request.params == JsonValue::Object(
            seq![("protocolVersion"@, version), ("capabilities"@, capabilities)],
        ),
    ensures
        response_of(request).result.get("result"@) == Some(initialize_result(request.params)),
        initialize_result(request.params).get("protocolVersion"@) == Some(version),
        initialize_result(request.params).get("capabilities"@) == Some(capabilities),
{
    reveal_strlit("protocolVersion");
    reveal_strlit("capabilities");
    assert("protocolVersion"@.len() != "capabilities"@.len());
    let one = Seq::<(Seq<char>, JsonValue)>::empty().push(("protocolVersion"@, version));
    lemma_lookup_push(Seq::empty(), "protocolVersion"@, version, "protocolVersion"@);
    lemma_lookup_push(one, "capabilities"@, capabilities, "protocolVersion"@);
    lemma_lookup_push(one, "capabilities"@, capabilities, "capabilities"@);
    assert(request.params->Object_0 =~= one.push(("capabilities"@, capabilities)));
    lemma_initialize_echoes(request, version, capabilities);
}

/// The answer to `tools/list` is a list of one empty object, whatever the
/// parameters.
pub proof fn lemma_tools_list_response(request: Envelope)
    requires
        request.method == "tools/list"@,
    ensures
        response_of(request).result.get("result"@) == Some(tools_list_result()),
        tools_list_result().get("tools"@) == Some(JsonValue::Array(seq![empty_object()])),
{
    lemma_tools_list(request.params);
}

/// A method other than `initialize` and `tools/list` is answered with the
/// error code -32601 and the message `Unknown method`.
pub proof fn lemma_unknown_method_response(request: Envelope)
    requires
        request.method != "initialize"@,
        request.method != "tools/list"@,
    ensures
        response_of(request).result == unknown_method(),
        unknown_method().get("error"@) is Some,
        unknown_method().get("error"@).unwrap().get("code"@) == Some(JsonValue::Number("-32601"@)),
        unknown_method().get("error"@).unwrap().get("message"@) == Some(
            JsonValue::Str("Unknown method"@),
        ),
{
    lemma_unknown_method(request.method, request.params);
    lemma_unknown_method_members();
}

/// A body that holds no request envelope is answered with status 400, no
/// header, and a plain text that begins with `invalid json: `.
pub proof fn lemma_fault_rejected(fault: Fault)
    ensures
        handled(Err(fault)).status_code == 400,
        handled(Err(fault)).headers.len() == 0,
        "invalid json: "@.is_prefix_of(handled(Err(fault)).body),
{
    let body = "invalid json: "@ + fault.message();
    assert(body.subrange(0, "invalid json: "@.len() as int) =~= "invalid json: "@);
}

/// Every request envelope is answered with status 200 and the content type
/// `application/json`, whatever its method.
pub proof fn lemma_envelope_accepted(request: Envelope)
    ensures
        handled(Ok(request)).status_code == 200,
        handled(Ok(request)).headers == seq![("content-type"@, "application/json"@)],
        handled(Ok(request)).body == json_text(response_json(response_of(request))),
{
}

/// Handling has no state: two responses to the same body are equal in
/// status, headers and text.
pub proof fn lemma_handling_repeats(body: Seq<u8>, first: OutgoingResponse, second: OutgoingResponse)
    requires
        first@ == handled(parse_request(body)),
        second@ == handled(parse_request(body)),
    ensures
        first@ == second@,
        first.status_code == second.status_code,
        first.body@ == second.body@,
{
}

/// Answers the outcome of reading a request.
pub fn respond(outcome: Result<McpRequest, ParseError>) -> (out: OutgoingResponse)
    ensures
        out@ == handled(outcome_view(outcome)),
{
    match outcome {
        Ok(request) => {
            let response = McpResponse::answer(request);
            send_success_response(response.to_text())
        },
        Err(error) => {
            let message = error.message();
            send_error_response(400, "invalid json: ".to_owned().concat(message.as_str()))
        },
    }
}

/// Handles one request: reads the envelope out of the body and answers it.
pub fn mcp_handle(body: &[u8]) -> (out: OutgoingResponse)
    ensures
        out@ == handled(parse_request(body@)),
        valid_utf8(body@) ==> out@ == handled(request_of_parsed(json_parse(decode_utf8(body@)))),
{
    respond(McpRequest::parse(body))
}

} // verus!
