//! The proxy server's side: the requests it forwards to the application and
//! how it reads the answers.
use vstd::prelude::*;
use crate::json::{Json, JsonV, clone_json, json_text, lemma_object_view, member_views,
    to_json_text, views};
use crate::rpc::JsonRpcRequest;
use crate::core_settings::{http_port, parsed_u16};
use crate::text::{decimal, join3, owned, str_eq, usize_to_string};

verus! {

/// One piece of a tool's answer.
pub enum Content {
    Text(String),
    Image { data: String, mime_type: String },
}

/// The value of a piece of content.
pub enum ContentV {
    Text(Seq<char>),
    Image(Seq<char>, Seq<char>),
}

impl Content {
    pub open spec fn view(self) -> ContentV {
        match self {
            Content::Text(t) => ContentV::Text(t@),
            Content::Image { data, mime_type } => ContentV::Image(data@, mime_type@),
        }
    }
}

/// The values of a sequence of contents.
pub open spec fn content_views(c: Seq<Content>) -> Seq<ContentV> {
    Seq::new(c.len(), |i: int| c[i].view())
}

/// The content that one item of an answer's `content` array stands for: a
/// `text` item with a `text` string, an `image` item with `data` and
/// `mimeType` strings; any other item stands for nothing.
pub open spec fn item_content(item: JsonV) -> Option<ContentV> {
    match item.str_field("type"@) {
        Some(t) => if t == "text"@ {
            match item.str_field("text"@) {
                Some(x) => Some(ContentV::Text(x)),
                None => None,
            }
        } else if t == "image"@ {
            match (item.str_field("data"@), item.str_field("mimeType"@)) {
                (Some(d), Some(m)) => Some(ContentV::Image(d, m)),
                _ => None,
            }
        } else {
            None
        },
        None => None,
    }
}

/// The contents that the items of an answer stand for, in order.
pub open spec fn item_contents(items: Seq<JsonV>) -> Seq<ContentV>
    decreases items.len(),
{
    if items.len() == 0 {
        Seq::empty()
    } else {
        let rest = item_contents(items.drop_last());
        match item_content(items.last()) {
            Some(c) => rest.push(c),
            None => rest,
        }
    }
}

/// What a tool call gives back, from the application's answer: with a
/// `content` member, the contents of its items (an error when there are
/// none); without one, the answer's JSON text as the only content.
pub open spec fn call_outcome(response: JsonV) -> Result<Seq<ContentV>, Seq<char>> {
    match response.field("content"@) {
        Some(c) => {
            let found = match c {
                JsonV::Array(items) => item_contents(items),
                _ => Seq::empty(),
            };
            if found.len() == 0 { Err("No valid content found in response"@) } else { Ok(found) }
        }
        None => Ok(seq![ContentV::Text(json_text(response))]),
    }
}

fn content_of(item: &Json) -> (r: Option<Content>)
    ensures
        match item_content(item.view()) {
            Some(c) => r is Some && r->0.view() == c,
            None => r is None,
        },
{
    proof {
        reveal_strlit("type");
        reveal_strlit("text");
        reveal_strlit("image");
        reveal_strlit("data");
        reveal_strlit("mimeType");
    }
    match item.str_field("type") {
        Some(t) => {
            if str_eq(t.as_str(), "text") {
                match item.str_field("text") {
                    Some(x) => Some(Content::Text(x.clone())),
                    None => None,
                }
            } else if str_eq(t.as_str(), "image") {
                match (item.str_field("data"), item.str_field("mimeType")) {
                    (Some(d), Some(m)) => Some(Content::Image { data: d.clone(), mime_type: m.clone() }),
                    _ => None,
                }
            } else {
                None
            }
        }
        None => None,
    }
}

/// The contents that the items of an answer stand for.
pub fn contents_of(items: &Vec<Json>) -> (r: Vec<Content>)
    ensures
        content_views(r@) == item_contents(views(items@)),
{
    let mut out: Vec<Content> = Vec::new();
    let mut i: usize = 0;
    while i < items.len()
        invariant
            i <= items@.len(),
            content_views(out@) == item_contents(views(items@).take(i as int)),
        decreases items@.len() - i,
    {
        assert(views(items@).take(i + 1).drop_last() =~= views(items@).take(i as int));
        assert(views(items@).take(i + 1).last() == items@[i as int].view());
        match content_of(&items[i]) {
            Some(c) => {
                out.push(c);
                assert(content_views(out@) =~= item_contents(views(items@).take(i + 1)));
            }
            None => {
                assert(content_views(out@) =~= item_contents(views(items@).take(i + 1)));
            }
        }
        i = i + 1;
    }
    assert(views(items@).take(i as int) =~= views(items@));
    out
}

/// Reads the application's answer to a forwarded tool call; an error of the
/// exchange is handed on.
pub fn call_contents(response: Result<Json, String>) -> (r: Result<Vec<Content>, String>)
    ensures
        match response {
            Err(e) => r == Err::<Vec<Content>, String>(e),
            Ok(v) => match call_outcome(v.view()) {
                Ok(cs) => r is Ok && content_views(r->Ok_0@) == cs,
                Err(m) => r is Err && r->Err_0@ == m,
            },
        },
{
    proof {
        reveal_strlit("content");
        reveal_strlit("No valid content found in response");
    }
    match response {
        Err(e) => Err(e),
        Ok(v) => match v.get("content") {
            Some(c) => {
                let found = match c.as_array() {
                    Some(items) => contents_of(items),
                    None => {
                        let empty: Vec<Content> = Vec::new();
                        assert(content_views(empty@) =~= Seq::<ContentV>::empty());
                        empty
                    }
                };
                if found.len() == 0 {
                    Err(owned("No valid content found in response"))
                } else {
                    Ok(found)
                }
            }
            None => {
                let text = to_json_text(&v);
                let out = vec![Content::Text(text)];
                assert(content_views(out@) =~= seq![ContentV::Text(json_text(v.view()))]);
                Ok(out)
            }
        },
    }
}

/// The parameters of a forwarded tool call: the tool's name and its arguments.
pub fn call_params(tool_name: &str, arguments: Json) -> (r: Json)
    ensures
        r.view() == JsonV::Object(seq![("name"@, JsonV::Str(tool_name@)), ("arguments"@, arguments.view())]),
{
    proof {
        reveal_strlit("name");
        reveal_strlit("arguments");
    }
    let ghost av = arguments.view();
    let m = vec![(owned("name"), Json::Str(owned(tool_name))), (owned("arguments"), arguments)];
    proof {
        lemma_object_view(m);
        assert(member_views(m@) =~= seq![("name"@, JsonV::Str(tool_name@)), ("arguments"@, av)]);
    }
    Json::Object(m)
}

/// The tools in the application's answer to `tools/list`: its `tools`
/// member, if the exchange succeeded and it has one.
pub fn listed_tools_value(response: Result<Json, String>) -> (r: Option<Json>)
    ensures
        match response {
            Ok(v) => match v.view().field("tools"@) {
                Some(t) => r is Some && r->0.view() == t,
                None => r is None,
            },
            Err(_) => r is None,
        },
{
    proof { reveal_strlit("tools"); }
    match response {
        Ok(v) => match v.get("tools") {
            Some(t) => Some(clone_json(t)),
            None => None,
        },
        Err(_) => None,
    }
}

/// The JSON-RPC request that forwards `method` with `params`: version 2.0,
/// identifier 1.
pub fn forwarded_request(method: &str, params: Json) -> (r: JsonRpcRequest)
    ensures
        r.jsonrpc@ == "2.0"@,
        r.id.view() == JsonV::Number("1"@),
        r.method@ == method@,
        r.params == Some(params),
{
    proof {
        reveal_strlit("2.0");
        reveal_strlit("1");
    }
    JsonRpcRequest { jsonrpc: owned("2.0"), id: Json::Number(owned("1")), method: owned(method), params: Some(params) }
}

/// The members of a tool call's arguments: those of an object, none for
/// any other value.
pub fn argument_members(arguments: &Json) -> (r: Vec<(String, Json)>)
    ensures
        match arguments.view() {
            JsonV::Object(m) => member_views(r@) == m,
            _ => r@.len() == 0,
        },
{
    match arguments.as_object() {
        Some(m) => crate::json::clone_members(m),
        None => Vec::new(),
    }
}

/// The address of the application's event stream: the given one, else the
/// local default.
pub fn sse_address(given: Option<String>) -> (r: String)
    ensures
        match given {
            Some(a) => r == a,
            None => r@ == "http://127.0.0.1:11011/sse"@,
        },
{
    proof { reveal_strlit("http://127.0.0.1:11011/sse"); }
    match given {
        Some(a) => a,
        None => owned("http://127.0.0.1:11011/sse"),
    }
}

/// The router's name.
pub fn router_name() -> (r: String)
    ensures
        r@ == "dockmaster"@,
{
    proof { reveal_strlit("dockmaster"); }
    owned("dockmaster")
}

/// The router's instructions to its clients.
pub fn router_instructions() -> (r: String)
    ensures
        r@ == "This server is a proxy to the MCP Dockmaster Application."@,
{
    proof { reveal_strlit("This server is a proxy to the MCP Dockmaster Application."); }
    owned("This server is a proxy to the MCP Dockmaster Application.")
}

/// The error for a resource: the router serves none.
pub fn resource_not_found(uri: &str) -> (r: String)
    ensures
        r@ == "Resource "@ + uri@ + " not found"@,
{
    proof {
        reveal_strlit("Resource ");
        reveal_strlit(" not found");
    }
    join3("Resource ", uri, " not found")
}

/// The error for a prompt: the router serves none.
pub fn prompt_not_found(name: &str) -> (r: String)
    ensures
        r@ == "Prompt "@ + name@ + " not found"@,
{
    proof {
        reveal_strlit("Prompt ");
        reveal_strlit(" not found");
    }
    join3("Prompt ", name, " not found")
}


/// The address of the application's event stream that the proxy's client
/// connects to, on the port that the port setting gives (11011 when it is
/// unset or no port number).
pub fn sse_server_url(port_setting: Option<&str>) -> (r: String)
    ensures
        ({
            let port: nat = match port_setting {
                Some(s) => match parsed_u16(s@) { Some(v) => v as nat, None => 11011 },
                None => 11011,
            };
            r@ == "http://localhost:"@ + decimal(port) + "/mcp/sse"@
        }),
{
    proof {
        reveal_strlit("http://localhost:");
        reveal_strlit("/mcp/sse");
    }
    let port = http_port(port_setting);
    let digits = usize_to_string(port as usize);
    join3("http://localhost:", digits.as_str(), "/mcp/sse")
}


/// The instructions that the stdio proxy server gives its clients.
pub fn proxy_server_instructions() -> (r: String)
    ensures
        r@ == "Dockmaster MCP Proxy Server"@,
{
    proof { reveal_strlit("Dockmaster MCP Proxy Server"); }
    owned("Dockmaster MCP Proxy Server")
}

} // verus!
