//! JSON-RPC over HTTP: which method does what, and how an outcome becomes
//! the response sent back.
use vstd::prelude::*;
use crate::entities::{DomainError, ToolExecutionResponse, error_text};
use crate::json::{Json, JsonV, clone_json, json_text, lemma_array_view, lemma_object_view, member_views, to_json_text, views};
use crate::text::{join2, join3, owned, str_eq};

verus! {

pub struct JsonRpcRequest {
    pub jsonrpc: String,
    pub id: Json,
    pub method: String,
    pub params: Option<Json>,
}

pub struct JsonRpcError {
    pub code: i32,
    pub message: String,
    pub data: Option<Json>,
}

pub struct JsonRpcResponse {
    pub jsonrpc: String,
    pub id: Json,
    pub result: Option<Json>,
    pub error: Option<JsonRpcError>,
}

/// Whether `c` is a decimal digit.
pub open spec fn is_digit(c: char) -> bool {
    48 <= c as int <= 57
}

/// The value of a run of decimal digits.
pub open spec fn digits_value(s: Seq<char>) -> int
    decreases s.len(),
{
    if s.len() == 0 { 0 } else { 10 * digits_value(s.drop_last()) + (s.last() as int - 48) }
}

/// The integer that a number's text writes, when it is an integer (an
/// optional minus sign and at least one digit).
pub open spec fn integer_of(s: Seq<char>) -> Option<int> {
    if s.len() > 0 && s[0] == '-' {
        let d = s.skip(1);
        if d.len() > 0 && forall|i: int| 0 <= i < d.len() ==> is_digit(#[trigger] d[i]) { Some(-digits_value(d)) } else { None }
    } else {
        if s.len() > 0 && forall|i: int| 0 <= i < s.len() ==> is_digit(#[trigger] s[i]) { Some(digits_value(s)) } else { None }
    }
}

/// `serde_json::Value::as_i64`: the value of an integer number that fits.
pub open spec fn as_i64(v: JsonV) -> Option<i64> {
    match v {
        JsonV::Number(t) => match integer_of(t) {
            Some(n) => if i64::MIN <= n <= i64::MAX { Some(n as i64) } else { None },
            None => None,
        },
        _ => None,
    }
}

/// The value of the digits of `s`, when they fit below `limit`.
pub(crate) fn digits_up_to(s: &str, from: usize, limit: u64) -> (r: Option<u64>)
    requires
        from <= s@.len(),
        limit >= 9,
    ensures
        ({
            let d = s@.skip(from as int);
            match r {
                Some(v) => d.len() > 0 && (forall|i: int| 0 <= i < d.len() ==> is_digit(#[trigger] d[i]))
                    && v == digits_value(d) && v <= limit,
                None => !(d.len() > 0 && (forall|i: int| 0 <= i < d.len() ==> is_digit(#[trigger] d[i])))
                    || digits_value(d) > limit,
            }
        }),
{
    let n = s.unicode_len();
    if from >= n {
        return None;
    }
    let ghost d = s@.skip(from as int);
    let mut acc: u64 = 0;
    let mut i: usize = from;
    while i < n
        invariant
            n == s@.len(),
            from <= i <= n,
            d == s@.skip(from as int),
            forall|k: int| 0 <= k < i - from ==> is_digit(#[trigger] d[k]),
            acc == digits_value(d.take(i - from)),
            acc <= limit,
            limit >= 9,
        decreases n - i,
    {
        let c = s.get_char(i);
        assert(d[i - from] == c);
        let code = c as u32;
        if code < 48 || code > 57 {
            return None;
        }
        let digit = (code - 48) as u64;
        assert(d.take(i - from + 1).drop_last() =~= d.take(i - from));
        assert(digits_value(d.take(i - from + 1)) == 10 * acc + digit);
        if acc > (limit - digit) / 10 {
            proof {
                let v = digits_value(d.take(i - from + 1));
                assert(v > limit) by (nonlinear_arith)
                    requires acc > (limit - digit) / 10, v == 10 * acc + digit, digit <= 9, limit >= 9;
                if d.len() > 0 && (forall|q: int| 0 <= q < d.len() ==> is_digit(#[trigger] d[q])) {
                    lemma_digits_monotone(d, i - from + 1);
                }
            }
            return None;
        }
        assert(10 * acc + digit <= limit) by (nonlinear_arith)
            requires acc <= (limit - digit) / 10, digit <= 9, limit >= digit;
        acc = 10 * acc + digit;
        i = i + 1;
    }
    assert(d.take(n - from) =~= d);
    Some(acc)
}

/// A longer run of digits is worth at least as much.
proof fn lemma_digits_monotone(d: Seq<char>, k: int)
    requires
        0 <= k <= d.len(),
        forall|i: int| 0 <= i < d.len() ==> is_digit(#[trigger] d[i]),
    ensures
        digits_value(d.take(k)) <= digits_value(d),
    decreases d.len() - k,
{
    if k < d.len() {
        lemma_digits_monotone(d, k + 1);
        assert(d.take(k + 1).drop_last() =~= d.take(k));
        assert(is_digit(d[k]));
        assert(digits_value(d.take(k)) >= 0) by { lemma_digits_nonneg(d.take(k)); }
    } else {
        assert(d.take(k) =~= d);
    }
}

proof fn lemma_digits_nonneg(d: Seq<char>)
    requires
        forall|i: int| 0 <= i < d.len() ==> is_digit(#[trigger] d[i]),
    ensures
        digits_value(d) >= 0,
    decreases d.len(),
{
    if d.len() > 0 {
        lemma_digits_nonneg(d.drop_last());
        assert(is_digit(d[d.len() - 1]));
    }
}

/// `as_i64` of a JSON value.
pub fn json_as_i64(v: &Json) -> (r: Option<i64>)
    ensures
        r == as_i64(v.view()),
{
    let t = match v {
        Json::Number(t) => t,
        _ => return None,
    };
    let s = t.as_str();
    let n = s.unicode_len();
    if n > 0 && s.get_char(0) == '-' {
        match digits_up_to(s, 1, 9223372036854775808u64) {
            Some(m) => {
                proof { lemma_digits_nonneg(s@.skip(1)); }
                if m == 9223372036854775808u64 {
                    Some(i64::MIN)
                } else {
                    Some(-(m as i64))
                }
            }
            None => {
                proof {
                    let d = s@.skip(1);
                    if d.len() > 0 && (forall|i: int| 0 <= i < d.len() ==> is_digit(#[trigger] d[i])) {
                        assert(-digits_value(d) < i64::MIN);
                    }
                }
                None
            }
        }
    } else {
        match digits_up_to(s, 0, 9223372036854775807u64) {
            Some(m) => {
                assert(s@.skip(0) =~= s@);
                proof {
                    if n > 0 {
                        assert(is_digit(s@[0]));
                    }
                }
                Some(m as i64)
            }
            None => {
                assert(s@.skip(0) =~= s@);
                None
            }
        }
    }
}

/// The JSON number whose text is `t`.
fn number(t: &str) -> (r: Json)
    ensures
        r.view() == JsonV::Number(t@),
{
    Json::Number(owned(t))
}

/// The error object `{"code": code, "message": message}`.
pub open spec fn error_object(code: Seq<char>, message: Seq<char>) -> JsonV {
    JsonV::Object(seq![("code"@, JsonV::Number(code)), ("message"@, JsonV::Str(message))])
}

/// Builds `{"code": code, "message": message}` from the code's text.
pub fn error_json(code: &str, message: String) -> (r: Json)
    ensures
        r.view() == error_object(code@, message@),
{
    proof {
        reveal_strlit("code");
        reveal_strlit("message");
    }
    let mut m: Vec<(String, Json)> = Vec::new();
    m.push((owned("code"), number(code)));
    m.push((owned("message"), Json::Str(message)));
    proof {
        lemma_object_view(m);
        assert(member_views(m@) =~= error_object(code@, message@)->Object_0);
    }
    Json::Object(m)
}

/// The object `{key: []}`.
pub open spec fn empty_list_object(key: Seq<char>) -> JsonV {
    JsonV::Object(seq![(key, JsonV::Array(Seq::empty()))])
}

fn empty_list_json(key: &str) -> (r: Json)
    ensures
        r.view() == empty_list_object(key@),
{
    let empty: Vec<Json> = Vec::new();
    proof {
        lemma_array_view(empty);
        assert(views(empty@) =~= Seq::<JsonV>::empty());
    }
    let mut m: Vec<(String, Json)> = Vec::new();
    m.push((owned(key), Json::Array(empty)));
    proof {
        lemma_object_view(m);
        assert(member_views(m@) =~= empty_list_object(key@)->Object_0);
    }
    Json::Object(m)
}

/// What the core's HTTP endpoint does for a request.
pub enum McpRoute {
    /// List the tools of the running servers.
    ListTools,
    /// Call a tool with these parameters.
    CallTool(Json),
    /// Install a tool from the registry with these parameters.
    Install(Json),
    /// List the registry's tools, marking those installed.
    ListRegistry,
    /// Answer at once.
    Reply(Result<Json, Json>),
}

/// The answer that the core's endpoint gives at once for `method`, when it
/// needs no service: the lists of prompts and resources are empty, reading
/// a resource and getting a prompt are not implemented, a method that needs
/// parameters and has none is refused, and an unknown method is not found.
pub open spec fn core_reply(method: Seq<char>, has_params: bool) -> Option<Result<JsonV, JsonV>> {
    if method == "tools/call"@ && !has_params {
        Some(Err(error_object("-32602"@, "Missing parameters"@)))
    } else if method == "prompts/list"@ {
        Some(Ok(empty_list_object("prompts"@)))
    } else if method == "resources/list"@ {
        Some(Ok(empty_list_object("resources"@)))
    } else if method == "resources/read"@ {
        Some(Err(if has_params {
            error_object("-32601"@, "Resource reading not implemented yet"@)
        } else {
            error_object("-32602"@, "Invalid params - missing parameters for resource reading"@)
        }))
    } else if method == "prompts/get"@ {
        Some(Err(if has_params {
            error_object("-32601"@, "Prompt retrieval not implemented yet"@)
        } else {
            error_object("-32602"@, "Invalid params - missing parameters for prompt retrieval"@)
        }))
    } else if method == "registry/install"@ && !has_params {
        Some(Err(error_object("-32602"@, "Invalid params - missing parameters for tool registration"@)))
    } else if method == "tools/list"@ || method == "tools/call"@ || method == "registry/install"@ || method == "registry/list"@ {
        None
    } else {
        Some(Err(error_object("-32601"@, "Method '"@ + method + "' not found"@)))
    }
}

/// Routes a request to the core's endpoint.
pub fn route_core_request(method: &str, params: Option<Json>) -> (r: McpRoute)
    ensures
        match core_reply(method@, params is Some) {
            Some(Ok(v)) => r matches McpRoute::Reply(Ok(x)) && x.view() == v,
            Some(Err(v)) => r matches McpRoute::Reply(Err(x)) && x.view() == v,
            None => if method@ == "tools/list"@ {
                r is ListTools
            } else if method@ == "tools/call"@ {
                r matches McpRoute::CallTool(p) && p.view() == params->0.view()
            } else if method@ == "registry/install"@ {
                r matches McpRoute::Install(p) && p.view() == params->0.view()
            } else {
                r is ListRegistry
            },
        },
{
    proof {
        reveal_strlit("tools/list");
        reveal_strlit("tools/call");
        reveal_strlit("prompts/list");
        reveal_strlit("resources/list");
        reveal_strlit("resources/read");
        reveal_strlit("prompts/get");
        reveal_strlit("registry/install");
        reveal_strlit("registry/list");
        reveal_strlit("prompts");
        reveal_strlit("resources");
        reveal_strlit("-32602");
        reveal_strlit("-32601");
        assert("tools/list"@[6] != "tools/call"@[6]);
        assert("resources/list"@[10] != "resources/read"@[10]);
    }
    if str_eq(method, "tools/list") {
        McpRoute::ListTools
    } else if str_eq(method, "tools/call") {
        match params {
            Some(p) => McpRoute::CallTool(p),
            None => McpRoute::Reply(Err(error_json("-32602", owned("Missing parameters")))),
        }
    } else if str_eq(method, "prompts/list") {
        McpRoute::Reply(Ok(empty_list_json("prompts")))
    } else if str_eq(method, "resources/list") {
        McpRoute::Reply(Ok(empty_list_json("resources")))
    } else if str_eq(method, "resources/read") {
        match params {
            Some(_) => McpRoute::Reply(Err(error_json("-32601", owned("Resource reading not implemented yet")))),
            None => McpRoute::Reply(Err(error_json("-32602", owned("Invalid params - missing parameters for resource reading")))),
        }
    } else if str_eq(method, "prompts/get") {
        match params {
            Some(_) => McpRoute::Reply(Err(error_json("-32601", owned("Prompt retrieval not implemented yet")))),
            None => McpRoute::Reply(Err(error_json("-32602", owned("Invalid params - missing parameters for prompt retrieval")))),
        }
    } else if str_eq(method, "registry/install") {
        match params {
            Some(p) => McpRoute::Install(p),
            None => McpRoute::Reply(Err(error_json("-32602", owned("Invalid params - missing parameters for tool registration")))),
        }
    } else if str_eq(method, "registry/list") {
        McpRoute::ListRegistry
    } else {
        McpRoute::Reply(Err(error_json("-32601", join3("Method '", method, "' not found"))))
    }
}

/// What the application's HTTP endpoint does for a request.
pub enum AppRoute {
    ListTools,
    CallTool(Json),
    Reply(Result<Json, Json>),
}

/// The answer that the application's endpoint gives at once for `method`.
pub open spec fn app_reply(method: Seq<char>, has_params: bool) -> Option<Result<JsonV, JsonV>> {
    if method == "tools/list"@ {
        None
    } else if method == "tools/call"@ {
        if has_params { None } else {
            Some(Err(error_object("-32602"@, "Invalid params - missing parameters for tool execution"@)))
        }
    } else if method == "prompts/list"@ {
        Some(Ok(empty_list_object("prompts"@)))
    } else if method == "resources/list"@ {
        Some(Ok(empty_list_object("resources"@)))
    } else if method == "resources/read"@ {
        Some(Err(error_object("-32601"@, "Resource reading not implemented yet"@)))
    } else if method == "prompts/get"@ {
        Some(Err(error_object("-32601"@, "Prompt retrieval not implemented yet"@)))
    } else {
        Some(Err(error_object("-32601"@, "Method not found: "@ + method)))
    }
}

/// Routes a request to the application's endpoint.
pub fn route_app_request(method: &str, params: Option<Json>) -> (r: AppRoute)
    ensures
        match app_reply(method@, params is Some) {
            Some(Ok(v)) => r matches AppRoute::Reply(Ok(x)) && x.view() == v,
            Some(Err(v)) => r matches AppRoute::Reply(Err(x)) && x.view() == v,
            None => if method@ == "tools/list"@ {
                r is ListTools
            } else {
                r matches AppRoute::CallTool(p) && p.view() == params->0.view()
            },
        },
{
    proof {
        reveal_strlit("tools/list");
        reveal_strlit("tools/call");
        reveal_strlit("prompts/list");
        reveal_strlit("resources/list");
        reveal_strlit("resources/read");
        reveal_strlit("prompts/get");
        reveal_strlit("prompts");
        reveal_strlit("resources");
        reveal_strlit("-32602");
        reveal_strlit("-32601");
        assert("tools/list"@[6] != "tools/call"@[6]);
        assert("resources/list"@[10] != "resources/read"@[10]);
    }
    if str_eq(method, "tools/list") {
        AppRoute::ListTools
    } else if str_eq(method, "tools/call") {
        match params {
            Some(p) => AppRoute::CallTool(p),
            None => AppRoute::Reply(Err(error_json("-32602", owned("Invalid params - missing parameters for tool execution")))),
        }
    } else if str_eq(method, "prompts/list") {
        AppRoute::Reply(Ok(empty_list_json("prompts")))
    } else if str_eq(method, "resources/list") {
        AppRoute::Reply(Ok(empty_list_json("resources")))
    } else if str_eq(method, "resources/read") {
        AppRoute::Reply(Err(error_json("-32601", owned("Resource reading not implemented yet"))))
    } else if str_eq(method, "prompts/get") {
        AppRoute::Reply(Err(error_json("-32601", owned("Prompt retrieval not implemented yet"))))
    } else {
        AppRoute::Reply(Err(error_json("-32601", join2("Method not found: ", method))))
    }
}

/// The error code that an error object carries: its `code` when that is an
/// integer within `i64`, else `default`, cut to 32 bits.
pub open spec fn error_code(e: JsonV, default: i64) -> i32 {
    let c: i64 = match e.field("code"@) {
        Some(v) => match as_i64(v) { Some(n) => n, None => default },
        None => default,
    };
    c as i32
}

/// The message that an error object carries: its `message` string, else
/// `Unknown error`.
pub open spec fn error_message(e: JsonV) -> Seq<char> {
    match e.str_field("message"@) {
        Some(m) => m,
        None => "Unknown error"@,
    }
}

/// The response for request `id`: the result, or the error that the error
/// object describes (code defaulting to `default_code`); the error's data
/// is carried over when `keep_data` is set.
pub open spec fn rpc_response(r: JsonRpcResponse, id: JsonV, outcome: Result<JsonV, JsonV>, default_code: i64, keep_data: bool) -> bool {
    &&& r.jsonrpc@ == "2.0"@
    &&& r.id.view() == id
    &&& match outcome {
        Ok(v) => r.result is Some && r.result->0.view() == v && r.error is None,
        Err(e) => r.result is None && r.error is Some && ({
            let err = r.error->0;
            &&& err.code == error_code(e, default_code)
            &&& err.message@ == error_message(e)
            &&& if keep_data {
                    match e.field("data"@) {
                        Some(d) => err.data is Some && err.data->0.view() == d,
                        None => err.data is None,
                    }
                } else {
                    err.data is None
                }
        }),
    }
}

/// Builds the JSON-RPC response for request `id` from an outcome.
pub fn make_response(id: Json, outcome: Result<Json, Json>, default_code: i64, keep_data: bool) -> (r: JsonRpcResponse)
    ensures
        rpc_response(r, id.view(), match outcome { Ok(v) => Ok(v.view()), Err(e) => Err(e.view()) }, default_code, keep_data),
{
    proof {
        reveal_strlit("2.0");
        reveal_strlit("Unknown error");
        reveal_strlit("code");
        reveal_strlit("message");
        reveal_strlit("data");
    }
    match outcome {
        Ok(v) => JsonRpcResponse { jsonrpc: owned("2.0"), id, result: Some(v), error: None },
        Err(e) => {
            let c: i64 = match e.get("code") {
                Some(v) => match json_as_i64(v) {
                    Some(n) => n,
                    None => default_code,
                },
                None => default_code,
            };
            let message = match e.str_field("message") {
                Some(m) => m.clone(),
                None => owned("Unknown error"),
            };
            let data = if keep_data {
                match e.get("data") {
                    Some(d) => Some(clone_json(d)),
                    None => None,
                }
            } else {
                None
            };
            let code = #[verifier::truncate] (c as i32);
            JsonRpcResponse {
                jsonrpc: owned("2.0"),
                id,
                result: None,
                error: Some(JsonRpcError { code, message, data }),
            }
        }
    }
}

/// The name and arguments of a `tools/call`: `name` must be a string; the
/// arguments default to an empty object.
pub open spec fn call_target(params: JsonV) -> Option<(Seq<char>, JsonV)> {
    match params.str_field("name"@) {
        Some(n) => Some((n, match params.field("arguments"@) {
            Some(a) => a,
            None => JsonV::Object(Seq::empty()),
        })),
        None => None,
    }
}

/// Reads the tool name and arguments of a `tools/call`.
pub fn call_arguments(params: &Json) -> (r: Option<(String, Json)>)
    ensures
        match call_target(params.view()) {
            Some((n, a)) => r matches Some((x, y)) && x@ == n && y.view() == a,
            None => r is None,
        },
{
    proof {
        reveal_strlit("name");
        reveal_strlit("arguments");
    }
    let name = match params.str_field("name") {
        Some(n) => n.clone(),
        None => return None,
    };
    let args = match params.get("arguments") {
        Some(a) => clone_json(a),
        None => {
            let m: Vec<(String, Json)> = Vec::new();
            proof {
                lemma_object_view(m);
                assert(member_views(m@) =~= Seq::<(Seq<char>, JsonV)>::empty());
            }
            Json::Object(m)
        }
    };
    Some((name, args))
}

/// The application's answer when a `tools/call` names no tool.
pub fn missing_name_response(id: Json) -> (r: JsonRpcResponse)
    ensures
        r.jsonrpc@ == "2.0"@,
        r.id == id,
        r.result is None,
        r.error is Some && r.error->0.code == -32602 && r.error->0.message@ == "Missing name in parameters"@
            && r.error->0.data is None,
{
    proof {
        reveal_strlit("2.0");
        reveal_strlit("Missing name in parameters");
    }
    JsonRpcResponse {
        jsonrpc: owned("2.0"),
        id,
        result: None,
        error: Some(JsonRpcError { code: -32602, message: owned("Missing name in parameters"), data: None }),
    }
}

/// The MCP content that shows `text`: `{"content": [{"type": "text", "text": text}]}`.
pub open spec fn text_content(text: Seq<char>) -> JsonV {
    JsonV::Object(seq![("content"@, JsonV::Array(seq![
        JsonV::Object(seq![("type"@, JsonV::Str("text"@)), ("text"@, JsonV::Str(text))])
    ]))])
}

/// Builds the text content for `text`.
pub fn text_content_json(text: String) -> (r: Json)
    ensures
        r.view() == text_content(text@),
{
    proof {
        reveal_strlit("content");
        reveal_strlit("type");
        reveal_strlit("text");
    }
    let ghost t = text@;
    let mut item: Vec<(String, Json)> = Vec::new();
    item.push((owned("type"), Json::string("text")));
    item.push((owned("text"), Json::Str(text)));
    proof {
        lemma_object_view(item);
        assert(member_views(item@) =~= seq![("type"@, JsonV::Str("text"@)), ("text"@, JsonV::Str(t))]);
    }
    let mut list: Vec<Json> = Vec::new();
    list.push(Json::Object(item));
    proof {
        lemma_array_view(list);
        assert(views(list@) =~= seq![JsonV::Object(seq![("type"@, JsonV::Str("text"@)), ("text"@, JsonV::Str(t))])]);
    }
    let mut m: Vec<(String, Json)> = Vec::new();
    m.push((owned("content"), Json::Array(list)));
    proof {
        lemma_object_view(m);
        assert(member_views(m@) =~= text_content(t)->Object_0);
    }
    Json::Object(m)
}

/// The application's outcome of a `tools/call`: a successful execution shows
/// its result (or `"No result"`) as JSON text; a failed one is an error with
/// code -32000 and the execution's error (or `Unknown error`); a service
/// error is reported as a tool execution error.
pub open spec fn app_call_outcome(resp: Result<ToolExecutionResponse, DomainError>) -> Result<JsonV, JsonV> {
    match resp {
        Ok(r) => if r.success {
            Ok(text_content(json_text(match r.result { Some(v) => v.view(), None => JsonV::Str("No result"@) })))
        } else {
            Err(error_object("-32000"@, match r.error { Some(e) => e@, None => "Unknown error"@ }))
        },
        Err(e) => Err(error_object("-32000"@, "Tool execution error: "@ + error_text(e))),
    }
}

/// Turns what the service answered to a `tools/call` into the outcome.
pub fn app_call_result(resp: Result<ToolExecutionResponse, DomainError>) -> (r: Result<Json, Json>)
    ensures
        match app_call_outcome(resp) {
            Ok(v) => r is Ok && r->Ok_0.view() == v,
            Err(v) => r is Err && r->Err_0.view() == v,
        },
{
    proof {
        reveal_strlit("No result");
        reveal_strlit("Unknown error");
        reveal_strlit("-32000");
        reveal_strlit("Tool execution error: ");
    }
    match resp {
        Ok(r) => {
            if r.success {
                let shown = match r.result {
                    Some(v) => v,
                    None => Json::string("No result"),
                };
                Ok(text_content_json(to_json_text(&shown)))
            } else {
                let m = match r.error {
                    Some(e) => e,
                    None => owned("Unknown error"),
                };
                Err(error_json("-32000", m))
            }
        }
        Err(e) => {
            let t = e.message();
            Err(error_json("-32000", join2("Tool execution error: ", t.as_str())))
        }
    }
}


/// The outcome of the application's `tools/list`: `{"tools": ..}`, or the
/// error -32603 with the service's error.
pub open spec fn app_list_outcome(tools: Result<Seq<JsonV>, DomainError>) -> Result<JsonV, JsonV> {
    match tools {
        Ok(ts) => Ok(JsonV::Object(seq![("tools"@, JsonV::Array(ts))])),
        Err(e) => Err(error_object("-32603"@, error_text(e))),
    }
}

/// Turns what the service listed into the outcome of a `tools/list`.
pub fn app_list_result(tools: Result<Vec<Json>, DomainError>) -> (r: Result<Json, Json>)
    ensures
        match app_list_outcome(match tools { Ok(ts) => Ok(views(ts@)), Err(e) => Err(e) }) {
            Ok(v) => r is Ok && r->Ok_0.view() == v,
            Err(v) => r is Err && r->Err_0.view() == v,
        },
{
    proof {
        reveal_strlit("tools");
        reveal_strlit("-32603");
    }
    match tools {
        Ok(ts) => {
            let ghost tv = views(ts@);
            proof { lemma_array_view(ts); }
            let m = vec![(owned("tools"), Json::Array(ts))];
            proof {
                lemma_object_view(m);
                assert(member_views(m@) =~= seq![("tools"@, JsonV::Array(tv))]);
            }
            Ok(Json::Object(m))
        }
        Err(e) => Err(error_json("-32603", e.message())),
    }
}


/// A tool call names the tool its `name` string gives and passes the
/// `arguments` member as it is; only a call without `arguments` passes the
/// empty object, and a call without a `name` string calls nothing.
pub proof fn law_call_passes_its_arguments(params: JsonV)
    ensures
        params.str_field("name"@) is None ==> call_target(params) is None,
        forall|n: Seq<char>, a: JsonV| params.str_field("name"@) == Some(n) && params.field("arguments"@) == Some(a)
            ==> #[trigger] call_target(params) == Some((n, a)),
        forall|n: Seq<char>| params.str_field("name"@) == Some(n) && params.field("arguments"@) is None
            ==> #[trigger] call_target(params) == Some((n, JsonV::Object(Seq::empty()))),
{
}

} // verus!
