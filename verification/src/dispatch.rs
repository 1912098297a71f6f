//! The method table: what each method answers.

use crate::json::{items_view, lemma_lookup_push, members_view, Json, JsonValue, Member};
use vstd::prelude::*;

verus! {

/// The empty object.
pub open spec fn empty_object() -> JsonValue {
    JsonValue::Object(Seq::empty())
}

/// The object with one member.
pub open spec fn wrap(key: Seq<char>, value: JsonValue) -> JsonValue {
    JsonValue::Object(seq![(key, value)])
}

/// The identity that the server reports of itself.
pub open spec fn server_info() -> JsonValue {
    JsonValue::Object(
        seq![
            ("name"@, JsonValue::Str("rust-mcp-server"@)),
            ("version"@, JsonValue::Str("0.1.0"@)),
        ],
    )
}

/// The member of `params` that `key` names, or `default` where there is none.
pub open spec fn echoed(params: JsonValue, key: Seq<char>, default: JsonValue) -> JsonValue {
    match params.get(key) {
        Some(value) => value,
        None => default,
    }
}

/// What `initialize` answers: the protocol version and the capabilities that
/// the parameters hold, whatever their type, or the defaults, and the
/// server's identity.
pub open spec fn initialize_result(params: JsonValue) -> JsonValue {
    JsonValue::Object(
        seq![
            ("protocolVersion"@, echoed(params, "protocolVersion"@, JsonValue::Str("2024-11-05"@))),
            ("capabilities"@, echoed(params, "capabilities"@, empty_object())),
            ("serverInfo"@, server_info()),
        ],
    )
}

/// What `tools/list` answers: a list of one empty object.
pub open spec fn tools_list_result() -> JsonValue {
    wrap("tools"@, JsonValue::Array(seq![empty_object()]))
}

/// The error object for a method that the server does not know.
pub open spec fn unknown_method() -> JsonValue {
    wrap(
        "error"@,
        JsonValue::Object(
            seq![
                ("code"@, JsonValue::Number("-32601"@)),
                ("message"@, JsonValue::Str("Unknown method"@)),
            ],
        ),
    )
}

/// The result value for a method and its parameters. The method name is
/// matched as it stands, letter for letter.
pub open spec fn dispatch_result(method: Seq<char>, params: JsonValue) -> JsonValue {
    if method == "initialize"@ {
        wrap("result"@, initialize_result(params))
    } else if method == "tools/list"@ {
        wrap("result"@, tools_list_result())
    } else {
        unknown_method()
    }
}

/// An object with one member holds that member's value under its key.
pub proof fn lemma_wrap_get(key: Seq<char>, value: JsonValue)
    ensures
        wrap(key, value).get(key) == Some(value),
{
    lemma_lookup_push(Seq::empty(), key, value, key);
    assert(wrap(key, value)->Object_0 =~= Seq::empty().push((key, value)));
}

/// The answer to `initialize` holds, as `protocolVersion` and as
/// `capabilities`, the member of that name in the parameters, unchanged and
/// whatever its type; where the parameters have no such member, it holds the
/// version `2024-11-05` and the empty object. As `serverInfo` it holds the
/// server's identity.
pub proof fn lemma_initialize_members(params: JsonValue)
    ensures
        initialize_result(params).get("protocolVersion"@) == Some(
            echoed(params, "protocolVersion"@, JsonValue::Str("2024-11-05"@)),
        ),
        initialize_result(params).get("capabilities"@) == Some(
            echoed(params, "capabilities"@, empty_object()),
        ),
        initialize_result(params).get("serverInfo"@) == Some(server_info()),
{
    reveal_strlit("protocolVersion");
    reveal_strlit("capabilities");
    reveal_strlit("serverInfo");
    let version = echoed(params, "protocolVersion"@, JsonValue::Str("2024-11-05"@));
    let offered = echoed(params, "capabilities"@, empty_object());
    let one = Seq::<(Seq<char>, JsonValue)>::empty().push(("protocolVersion"@, version));
    let two = one.push(("capabilities"@, offered));
    assert("protocolVersion"@.len() != "capabilities"@.len());
    assert("protocolVersion"@.len() != "serverInfo"@.len());
    assert("capabilities"@.len() != "serverInfo"@.len());
    lemma_lookup_push(Seq::empty(), "protocolVersion"@, version, "protocolVersion"@);
    lemma_lookup_push(one, "capabilities"@, offered, "protocolVersion"@);
    lemma_lookup_push(one, "capabilities"@, offered, "capabilities"@);
    lemma_lookup_push(two, "serverInfo"@, server_info(), "protocolVersion"@);
    lemma_lookup_push(two, "serverInfo"@, server_info(), "capabilities"@);
    lemma_lookup_push(two, "serverInfo"@, server_info(), "serverInfo"@);
    assert(initialize_result(params)->Object_0 =~= two.push(("serverInfo"@, server_info())));
}

/// The error object for an unknown method holds, under `error`, the code
/// -32601 and the message `Unknown method`.
pub proof fn lemma_unknown_method_members()
    ensures
        unknown_method().get("error"@) is Some,
        unknown_method().get("error"@).unwrap().get("code"@) == Some(JsonValue::Number("-32601"@)),
        unknown_method().get("error"@).unwrap().get("message"@) == Some(
            JsonValue::Str("Unknown method"@),
        ),
{
    reveal_strlit("code");
    reveal_strlit("message");
    let code = JsonValue::Number("-32601"@);
    let message = JsonValue::Str("Unknown method"@);
    let one = Seq::<(Seq<char>, JsonValue)>::empty().push(("code"@, code));
    assert("code"@.len() != "message"@.len());
    lemma_lookup_push(Seq::empty(), "code"@, code, "code"@);
    lemma_lookup_push(one, "message"@, message, "code"@);
    lemma_lookup_push(one, "message"@, message, "message"@);
    assert(unknown_method()->Object_0[0].1->Object_0 =~= one.push(("message"@, message)));
    lemma_wrap_get("error"@, JsonValue::Object(one.push(("message"@, message))));
}

/// Every method but `initialize` and `tools/list` is answered with the error
/// object for an unknown method, whatever the parameters.
pub proof fn lemma_unknown_method(method: Seq<char>, params: JsonValue)
    requires
        method != "initialize"@,
        method != "tools/list"@,
    ensures
        dispatch_result(method, params) == unknown_method(),
{
}

/// `tools/list` is answered, under `result`, with an object whose member
/// `tools` is a list of one empty object, whatever the parameters.
pub proof fn lemma_tools_list(params: JsonValue)
    ensures
        dispatch_result("tools/list"@, params).get("result"@) == Some(tools_list_result()),
        tools_list_result().get("tools"@) == Some(JsonValue::Array(seq![empty_object()])),
{
    reveal_strlit("initialize");
    reveal_strlit("tools/list");
    assert("initialize"@[0] != "tools/list"@[0]);
    lemma_wrap_get("result"@, tools_list_result());
    lemma_wrap_get("tools"@, JsonValue::Array(seq![empty_object()]));
}

/// The object with the one member `key`.
pub fn wrapped(key: &str, value: Json) -> (out: Json)
    ensures
        out@ == wrap(key@, value@),
{
    let members = vec![Member::new(key, value)];
    proof {
        assert(members_view(members@) =~= seq![(key@, value@)]);
    }
    Json::object(members)
}

/// A copy of the member of `params` that `key` names, or `default` where
/// there is none.
fn echo(params: &Json, key: &str, default: Json) -> (out: Json)
    ensures
        out@ == echoed(params@, key@, default@),
{
    match params.get(key) {
        Some(value) => value.clone(),
        None => default,
    }
}

/// Answers `initialize`.
pub fn handle_initialize(params: &Json) -> (out: Json)
    ensures
        out@ == initialize_result(params@),
{
    let protocol_version = echo(params, "protocolVersion", Json::string("2024-11-05"));
    let none: Vec<Member> = Vec::new();
    proof {
        assert(members_view(none@) =~= Seq::empty());
    }
    let capabilities = echo(params, "capabilities", Json::object(none));
    let identity = vec![
        Member::new("name", Json::string("rust-mcp-server")),
        Member::new("version", Json::string("0.1.0")),
    ];
    proof {
        assert(members_view(identity@) =~= server_info()->Object_0);
    }
    let ghost version = protocol_version@;
    let ghost offered = capabilities@;
    let members = vec![
        Member::new("protocolVersion", protocol_version),
        Member::new("capabilities", capabilities),
        Member::new("serverInfo", Json::object(identity)),
    ];
    proof {
        assert(members_view(members@) =~= seq![
            ("protocolVersion"@, version),
            ("capabilities"@, offered),
            ("serverInfo"@, server_info()),
        ]);
    }
    Json::object(members)
}

/// Answers `tools/list`, whatever the parameters.
pub fn handle_tools_list(_params: &Json) -> (out: Json)
    ensures
        out@ == tools_list_result(),
{
    let none: Vec<Member> = Vec::new();
    proof {
        assert(members_view(none@) =~= Seq::empty());
    }
    let tools = vec![Json::object(none)];
    proof {
        assert(items_view(tools@) =~= seq![empty_object()]);
    }
    wrapped("tools", Json::array(tools))
}

/// The error object for a method that the server does not know.
pub fn unknown_method_error() -> (out: Json)
    ensures
        out@ == unknown_method(),
{
    let members = vec![
        Member::new("code", Json::number("-32601")),
        Member::new("message", Json::string("Unknown method")),
    ];
    proof {
        assert(members_view(members@) =~= unknown_method()->Object_0[0].1->Object_0);
    }
    wrapped("error", Json::object(members))
}

/// Routes a call by its method name.
pub fn dispatch(method: &str, params: &Json) -> (out: Json)
    ensures
        out@ == dispatch_result(method@, params@),
{
    let method = method.to_owned();
    if method == "initialize".to_owned() {
        wrapped("result", handle_initialize(params))
    } else if method == "tools/list".to_owned() {
        wrapped("result", handle_tools_list(params))
    } else {
        unknown_method_error()
    }
}

} // verus!
