//! The request and response envelopes of JSON-RPC.

use crate::codec::{decode_lossy, json_parse, json_text, json_to_text, parse_json, utf8_lossy};
use crate::dispatch::{dispatch, dispatch_result, empty_object};
use crate::json::{lemma_lookup_push, members_view, Json, JsonValue, Member};
use vstd::prelude::*;
use vstd::utf8::{decode_utf8, valid_utf8};

verus! {

/// A field of the request envelope that has to be a string.
#[derive(Clone, Copy, Debug, PartialEq, Eq, Structural)]
pub enum Field {
    Jsonrpc,
    Method,
}

impl Field {
    /// The key under which the field stands in the envelope.
    pub open spec fn name(self) -> Seq<char> {
        match self {
            Field::Jsonrpc => "jsonrpc"@,
            Field::Method => "method"@,
        }
    }

    /// The key under which the field stands in the envelope.
    pub fn key(self) -> (out: &'static str)
        ensures
            out@ == self.name(),
    {
        match self {
            Field::Jsonrpc => "jsonrpc",
            Field::Method => "method",
        }
    }
}

/// Why a body holds no request envelope, as a mathematical value.
pub enum Fault {
    Syntax(Seq<char>),
    NotAnObject,
    MissingField(Field),
    NotAString(Field),
}

/// Why a body holds no request envelope.
#[derive(Debug, PartialEq, Eq)]
pub enum ParseError {
    /// The body is no JSON text; the parser's message.
    Syntax(String),
    /// The document is no object.
    NotAnObject,
    /// The object lacks a required field.
    MissingField(Field),
    /// A required field holds something other than a string.
    NotAString(Field),
}

impl View for ParseError {
    type V = Fault;

    open spec fn view(&self) -> Fault {
        match self {
            ParseError::Syntax(message) => Fault::Syntax(message@),
            ParseError::NotAnObject => Fault::NotAnObject,
            ParseError::MissingField(field) => Fault::MissingField(*field),
            ParseError::NotAString(field) => Fault::NotAString(*field),
        }
    }
}

impl Fault {
    /// The message that describes the fault.
    pub open spec fn message(self) -> Seq<char> {
        match self {
            Fault::Syntax(message) => message,
            Fault::NotAnObject => "invalid type: expected a JSON object"@,
            Fault::MissingField(Field::Jsonrpc) => "missing field `jsonrpc`"@,
            Fault::MissingField(Field::Method) => "missing field `method`"@,
            Fault::NotAString(Field::Jsonrpc) => "invalid type for field `jsonrpc`: expected a string"@,
            Fault::NotAString(Field::Method) => "invalid type for field `method`: expected a string"@,
        }
    }
}

impl ParseError {
    /// The message that describes the error.
    pub fn message(&self) -> (out: String)
        ensures
            out@ == self@.message(),
    {
        match self {
            ParseError::Syntax(message) => message.clone(),
            ParseError::NotAnObject => "invalid type: expected a JSON object".to_owned(),
            ParseError::MissingField(Field::Jsonrpc) => "missing field `jsonrpc`".to_owned(),
            ParseError::MissingField(Field::Method) => "missing field `method`".to_owned(),
            ParseError::NotAString(Field::Jsonrpc) => "invalid type for field `jsonrpc`: expected a string".to_owned(),
            ParseError::NotAString(Field::Method) => "invalid type for field `method`: expected a string".to_owned(),
        }
    }
}

/// A request envelope as a mathematical value.
pub struct Envelope {
    pub jsonrpc: Seq<char>,
    pub method: Seq<char>,
    pub params: JsonValue,
    pub id: Option<JsonValue>,
}

/// A request envelope.
#[derive(Debug, PartialEq, Eq)]
pub struct McpRequest {
    /// The protocol tag; carried, never checked.
    pub jsonrpc: String,
    pub method: String,
    /// The parameters; the empty object where the request names none.
    pub params: Json,
    /// The request's identifier; `None` where the request has none or `null`.
    pub id: Option<Json>,
}

/// The value of an optional document.
pub open spec fn optional_view(doc: Option<Json>) -> Option<JsonValue> {
    match doc {
        Some(value) => Some(value@),
        None => None,
    }
}

impl View for McpRequest {
    type V = Envelope;

    open spec fn view(&self) -> Envelope {
        Envelope {
            jsonrpc: self.jsonrpc@,
            method: self.method@,
            params: self.params@,
            id: optional_view(self.id),
        }
    }
}

/// The string that a required field of `doc` holds, or what is wrong with
/// the field.
pub open spec fn required_string(doc: JsonValue, field: Field) -> Result<Seq<char>, Fault> {
    match doc.get(field.name()) {
        None => Err(Fault::MissingField(field)),
        Some(JsonValue::Str(text)) => Ok(text),
        Some(_) => Err(Fault::NotAString(field)),
    }
}

/// The parameters of a request: the member `params`, or the empty object
/// where it is missing or `null`.
pub open spec fn params_of(doc: JsonValue) -> JsonValue {
    match doc.get("params"@) {
        None => empty_object(),
        Some(JsonValue::Null) => empty_object(),
        Some(value) => value,
    }
}

/// The identifier of a request: the member `id`, unless it is missing or
/// `null`.
pub open spec fn id_of(doc: JsonValue) -> Option<JsonValue> {
    match doc.get("id"@) {
        None => None,
        Some(JsonValue::Null) => None,
        Some(value) => Some(value),
    }
}

/// The envelope that a document holds. The document has to be an object
/// whose members `jsonrpc` and `method` are strings; the first of these
/// demands that fails decides the fault.
pub open spec fn request_of(doc: JsonValue) -> Result<Envelope, Fault> {
    if !(doc is Object) {
        Err(Fault::NotAnObject)
    } else {
        match required_string(doc, Field::Jsonrpc) {
            Err(fault) => Err(fault),
            Ok(jsonrpc) => match required_string(doc, Field::Method) {
                Err(fault) => Err(fault),
                Ok(method) => Ok(
                    Envelope { jsonrpc, method, params: params_of(doc), id: id_of(doc) },
                ),
            },
        }
    }
}

/// The envelope that a parser's outcome holds.
pub open spec fn request_of_parsed(parsed: Result<JsonValue, Seq<char>>) -> Result<Envelope, Fault> {
    match parsed {
        Ok(doc) => request_of(doc),
        Err(message) => Err(Fault::Syntax(message)),
    }
}

/// The envelope that a request body holds: the body is decoded as UTF-8,
/// lossily, and parsed as JSON.
pub open spec fn parse_request(body: Seq<u8>) -> Result<Envelope, Fault> {
    request_of_parsed(json_parse(utf8_lossy(body)))
}

/// The value of the outcome of reading a request.
pub open spec fn outcome_view(outcome: Result<McpRequest, ParseError>) -> Result<Envelope, Fault> {
    match outcome {
        Ok(request) => Ok(request@),
        Err(error) => Err(error@),
    }
}

/// The value of a parser's outcome.
pub open spec fn parsed_view(parsed: Result<Json, String>) -> Result<JsonValue, Seq<char>> {
    match parsed {
        Ok(doc) => Ok(doc@),
        Err(message) => Err(message@),
    }
}

/// Reads a required string field.
fn read_string(doc: &Json, field: Field) -> (out: Result<String, ParseError>)
    ensures
        match out {
            Ok(text) => required_string(doc@, field) == Ok::<Seq<char>, Fault>(text@),
            Err(error) => required_string(doc@, field) == Err::<Seq<char>, Fault>(error@),
        },
{
    match doc.get(field.key()) {
        None => Err(ParseError::MissingField(field)),
        Some(Json::Str(text)) => Ok(text.clone()),
        Some(_) => Err(ParseError::NotAString(field)),
    }
}

impl McpRequest {
    /// Reads the envelope out of a document.
    pub fn from_json(doc: &Json) -> (out: Result<McpRequest, ParseError>)
        ensures
            outcome_view(out) == request_of(doc@),
    {
        match doc {
            Json::Object(_) => {},
            _ => {
                return Err(ParseError::NotAnObject);
            },
        }
        let jsonrpc = match read_string(doc, Field::Jsonrpc) {
            Ok(text) => text,
            Err(error) => {
                return Err(error);
            },
        };
        let method = match read_string(doc, Field::Method) {
            Ok(text) => text,
            Err(error) => {
                return Err(error);
            },
        };
        let params = match doc.get("params") {
            None => no_params(),
            Some(Json::Null) => no_params(),
            Some(value) => value.clone(),
        };
        let id = match doc.get("id") {
            None => None,
            Some(Json::Null) => None,
            Some(value) => Some(value.clone()),
        };
        Ok(McpRequest { jsonrpc, method, params, id })
    }

    /// Reads the envelope out of what the JSON parser made of a body.
    pub fn from_parsed(parsed: Result<Json, String>) -> (out: Result<McpRequest, ParseError>)
        ensures
            outcome_view(out) == request_of_parsed(parsed_view(parsed)),
    {
        match parsed {
            Ok(doc) => McpRequest::from_json(&doc),
            Err(message) => Err(ParseError::Syntax(message)),
        }
    }

    /// Reads the envelope out of a request body.
    pub fn parse(body: &[u8]) -> (out: Result<McpRequest, ParseError>)
        ensures
            outcome_view(out) == parse_request(body@),
            valid_utf8(body@) ==> outcome_view(out) == request_of_parsed(
                json_parse(decode_utf8(body@)),
            ),
    {
        let text = decode_lossy(body);
        McpRequest::from_parsed(parse_json(text.as_str()))
    }
}

/// The empty object.
fn no_params() -> (out: Json)
    ensures
        out@ == empty_object(),
{
    let none: Vec<Member> = Vec::new();
    proof {
        assert(members_view(none@) =~= Seq::empty());
    }
    Json::object(none)
}

/// A response envelope as a mathematical value.
pub struct Reply {
    pub jsonrpc: Seq<char>,
    pub result: JsonValue,
    pub id: Option<JsonValue>,
}

/// A response envelope.
#[derive(Debug, PartialEq, Eq)]
pub struct McpResponse {
    pub jsonrpc: String,
    /// What the method answered: a success payload or an error payload.
    pub result: Json,
    /// The request's identifier.
    pub id: Option<Json>,
}

impl View for McpResponse {
    type V = Reply;

    open spec fn view(&self) -> Reply {
        Reply { jsonrpc: self.jsonrpc@, result: self.result@, id: optional_view(self.id) }
    }
}

/// The response to a request: the protocol tag `2.0`, what the method
/// answers, and the request's identifier.
pub open spec fn response_of(request: Envelope) -> Reply {
    Reply {
        jsonrpc: "2.0"@,
        result: dispatch_result(request.method, request.params),
        id: request.id,
    }
}

/// The document that carries a response: the members `jsonrpc`, `result` and
/// `id`, in this order, with `null` for an identifier that is absent.
pub open spec fn response_json(reply: Reply) -> JsonValue {
    JsonValue::Object(
        seq![
            ("jsonrpc"@, JsonValue::Str(reply.jsonrpc)),
            ("result"@, reply.result),
            (
                "id"@,
                match reply.id {
                    Some(value) => value,
                    None => JsonValue::Null,
                },
            ),
        ],
    )
}

/// The document that carries a response holds the protocol tag under
/// `jsonrpc`, the method's answer under `result`, and under `id` the
/// identifier, or `null` where there is none.
pub proof fn lemma_response_members(reply: Reply)
    ensures
        response_json(reply).get("jsonrpc"@) == Some(JsonValue::Str(reply.jsonrpc)),
        response_json(reply).get("result"@) == Some(reply.result),
        response_json(reply).get("id"@) == Some(
            match reply.id {
                Some(value) => value,
                None => JsonValue::Null,
            },
        ),
{
    reveal_strlit("jsonrpc");
    reveal_strlit("result");
    reveal_strlit("id");
    let tag = JsonValue::Str(reply.jsonrpc);
    let id = match reply.id {
        Some(value) => value,
        None => JsonValue::Null,
    };
    let one = Seq::<(Seq<char>, JsonValue)>::empty().push(("jsonrpc"@, tag));
    let two = one.push(("result"@, reply.result));
    assert("jsonrpc"@.len() != "result"@.len());
    assert("jsonrpc"@.len() != "id"@.len());
    assert("result"@.len() != "id"@.len());
    lemma_lookup_push(Seq::empty(), "jsonrpc"@, tag, "jsonrpc"@);
    lemma_lookup_push(one, "result"@, reply.result, "jsonrpc"@);
    lemma_lookup_push(one, "result"@, reply.result, "result"@);
    lemma_lookup_push(two, "id"@, id, "jsonrpc"@);
    lemma_lookup_push(two, "id"@, id, "result"@);
    lemma_lookup_push(two, "id"@, id, "id"@);
    assert(response_json(reply)->Object_0 =~= two.push(("id"@, id)));
}

/// The response carries the identifier of the request, also where the
/// request has none.
pub proof fn lemma_id_echoed(request: Envelope)
    ensures
        response_of(request).id == request.id,
        response_json(response_of(request)).get("id"@) == Some(
            match request.id {
                Some(value) => value,
                None => JsonValue::Null,
            },
        ),
{
    lemma_response_members(response_of(request));
}

impl McpResponse {
    /// Answers a request.
    pub fn answer(request: McpRequest) -> (out: McpResponse)
        ensures
            out@ == response_of(request@),
    {
        let result = dispatch(request.method.as_str(), &request.params);
        McpResponse { jsonrpc: "2.0".to_owned(), result, id: request.id }
    }

    /// The document that carries the response.
    pub fn to_json(&self) -> (out: Json)
        ensures
            out@ == response_json(self@),
    {
        let id = match &self.id {
            Some(value) => value.clone(),
            None => Json::Null,
        };
        let ghost result = self.result@;
        let ghost echoed = id@;
        proof {
            assert(Json::Null@ == JsonValue::Null);
            assert(echoed == response_json(self@)->Object_0[2].1);
        }
        let members = vec![
            Member::new("jsonrpc", Json::string(self.jsonrpc.as_str())),
            Member::new("result", self.result.clone()),
            Member::new("id", id),
        ];
        proof {
            assert(members_view(members@) =~= response_json(self@)->Object_0);
        }
        Json::object(members)
    }

    /// The JSON text of the response.
    pub fn to_text(&self) -> (out: String)
        ensures
            out@ == json_text(response_json(self@)),
    {
        json_to_text(&self.to_json())
    }
}

} // verus!
