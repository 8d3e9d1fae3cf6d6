//! What the process managers decide: the tools and answers of the mock
//! manager, and how the manager that runs real processes reads a tool's
//! launch settings, frames its commands and reads its answers.
use vstd::prelude::*;
use crate::entities::DomainError;
use crate::json::{Json, JsonV, clone_elements, json_parse, json_text, parse_json_text, lemma_array_view, lemma_object_view, member_views, to_json_text, views};
use crate::registration::{collect_strings, config_args, texts};
use crate::text::{join2, owned, push_char};

verus! {

/// A tool as the mock manager lists it.
pub open spec fn tool_entry(id: Seq<char>, description: Seq<char>) -> JsonV {
    JsonV::Object(seq![("id"@, JsonV::Str(id)), ("name"@, JsonV::Str(id)), ("description"@, JsonV::Str(description))])
}

/// The tools that every server offers under the mock manager.
pub open spec fn mock_tools() -> Seq<JsonV> {
    seq![
        tool_entry("hello_world"@, "A simple hello world tool"@),
        tool_entry("hello_world_with_input"@, "A hello world tool that takes input"@),
        tool_entry("hello_world_with_config"@, "A hello world tool that uses configuration"@),
    ]
}

/// A tool result holding one text content.
pub open spec fn text_result(text: Seq<char>) -> JsonV {
    JsonV::Object(seq![("content"@, JsonV::Array(seq![JsonV::Object(seq![("text"@, JsonV::Str(text))])]))])
}

/// The string parameter `key`, or `fallback` when there is none.
pub open spec fn str_param_or(params: JsonV, key: Seq<char>, fallback: Seq<char>) -> Seq<char> {
    match params.str_field(key) {
        Some(s) => s,
        None => fallback,
    }
}

/// What the mock manager answers for `tool_id`: `Ok` with the tool's text
/// result, or `Err` with the message of the `ToolNotFound` error.
pub open spec fn mock_execution(tool_id: Seq<char>, params: JsonV) -> Result<JsonV, Seq<char>> {
    if tool_id == "hello_world"@ {
        Ok(text_result("hello world"@))
    } else if tool_id == "hello_world_with_input"@ {
        Ok(text_result("hello world "@ + str_param_or(params, "message"@, "default message"@)))
    } else if tool_id == "hello_world_with_config"@ {
        Ok(text_result("hello configuration "@ + str_param_or(params, "config"@, "default config"@)))
    } else {
        Err("Unknown tool: "@ + tool_id)
    }
}

fn tool_entry_json(id: &str, description: &str) -> (r: Json)
    ensures
        r.view() == tool_entry(id@, description@),
{
    proof {
        reveal_strlit("id");
        reveal_strlit("name");
        reveal_strlit("description");
    }
    let m = vec![
        (owned("id"), Json::Str(owned(id))),
        (owned("name"), Json::Str(owned(id))),
        (owned("description"), Json::Str(owned(description))),
    ];
    proof {
        lemma_object_view(m);
        assert(member_views(m@) =~= seq![("id"@, JsonV::Str(id@)), ("name"@, JsonV::Str(id@)), ("description"@, JsonV::Str(description@))]);
    }
    Json::Object(m)
}

fn text_result_json(text: String) -> (r: Json)
    ensures
        r.view() == text_result(text@),
{
    proof {
        reveal_strlit("content");
        reveal_strlit("text");
    }
    let inner = vec![(owned("text"), Json::Str(text))];
    proof {
        lemma_object_view(inner);
        assert(member_views(inner@) =~= seq![("text"@, JsonV::Str(text@))]);
    }
    let item = Json::Object(inner);
    let items = vec![item];
    proof {
        lemma_array_view(items);
        assert(views(items@) =~= seq![JsonV::Object(seq![("text"@, JsonV::Str(text@))])]);
    }
    let outer = vec![(owned("content"), Json::Array(items))];
    proof {
        lemma_object_view(outer);
        assert(member_views(outer@) =~= seq![("content"@, JsonV::Array(seq![JsonV::Object(seq![("text"@, JsonV::Str(text@))])]))]);
    }
    Json::Object(outer)
}

fn str_param(params: &Json, key: &str, fallback: &str) -> (r: String)
    ensures
        r@ == str_param_or(params.view(), key@, fallback@),
{
    match params.str_field(key) {
        Some(s) => s.clone(),
        None => owned(fallback),
    }
}

/// A process manager that starts nothing and answers from a fixed list of
/// tools.
pub struct MockProcessManager {}

impl MockProcessManager {
    pub fn new() -> (r: MockProcessManager) {
        MockProcessManager {}
    }

    /// The mock manager starts no process: it always answers with this error.
    pub fn spawn_process(&self) -> (r: Result<(), DomainError>)
        ensures
            r matches Err(DomainError::ProcessError(m)) && m@ == "Mock process manager doesn't actually spawn processes"@,
    {
        Err(DomainError::ProcessError(owned("Mock process manager doesn't actually spawn processes")))
    }

    /// Killing a process always succeeds.
    pub fn kill_process(&self) -> (r: Result<(), DomainError>)
        ensures
            r is Ok,
    {
        Ok(())
    }

    /// Every server offers the same three tools.
    pub fn discover_server_tools(&self, server_id: &str) -> (r: Result<Vec<Json>, DomainError>)
        ensures
            r is Ok && views(r->Ok_0@) == mock_tools(),
    {
        let tools = vec![
            tool_entry_json("hello_world", "A simple hello world tool"),
            tool_entry_json("hello_world_with_input", "A hello world tool that takes input"),
            tool_entry_json("hello_world_with_config", "A hello world tool that uses configuration"),
        ];
        assert(views(tools@) =~= mock_tools());
        Ok(tools)
    }

    /// Runs one of the three tools on the given parameters.
    pub fn execute_server_tool(&self, server_id: &str, tool_id: &str, parameters: &Json) -> (r: Result<Json, DomainError>)
        ensures
            match mock_execution(tool_id@, parameters.view()) {
                Ok(v) => r is Ok && r->Ok_0.view() == v,
                Err(m) => r matches Err(DomainError::ToolNotFound(t)) && t@ == m,
            },
    {
        proof {
            reveal_strlit("hello_world");
            reveal_strlit("hello_world_with_input");
            reveal_strlit("hello_world_with_config");
            reveal_strlit("hello world");
            reveal_strlit("hello world ");
            reveal_strlit("hello configuration ");
            reveal_strlit("Unknown tool: ");
        }
        if crate::text::str_eq(tool_id, "hello_world") {
            Ok(text_result_json(owned("hello world")))
        } else if crate::text::str_eq(tool_id, "hello_world_with_input") {
            let m = str_param(parameters, "message", "default message");
            Ok(text_result_json(join2("hello world ", m.as_str())))
        } else if crate::text::str_eq(tool_id, "hello_world_with_config") {
            let c = str_param(parameters, "config", "default config");
            Ok(text_result_json(join2("hello configuration ", c.as_str())))
        } else {
            Err(DomainError::ToolNotFound(join2("Unknown tool: ", tool_id)))
        }
    }

    /// Killing all processes always succeeds.
    pub fn kill_all_processes(&self) -> (r: Result<(), DomainError>)
        ensures
            r is Ok,
    {
        Ok(())
    }
}


/// The command object that asks a server to run `tool_id` on `parameters`.
pub open spec fn execute_command_value(tool_id: Seq<char>, parameters: JsonV) -> JsonV {
    JsonV::Object(seq![("command"@, JsonV::Str("execute"@)), ("tool_id"@, JsonV::Str(tool_id)), ("parameters"@, parameters)])
}

/// The tools that a discovery answer lists: its `tools` array, or none.
pub open spec fn listed_tools_of(response: JsonV) -> Seq<JsonV> {
    match response.field("tools"@) {
        Some(JsonV::Array(a)) => a,
        _ => Seq::empty(),
    }
}

/// A process manager that runs each tool as a child process and talks to it
/// one JSON line at a time. It keeps the identifiers of the tools whose
/// processes it started, so that it can kill them all.
pub struct TokioProcessManager {
    started: Vec<String>,
}

impl TokioProcessManager {
    /// The tools whose processes this manager started and has not killed, in
    /// the order they were started.
    pub closed spec fn managed(&self) -> Seq<Seq<char>> {
        texts(self.started@)
    }

    /// A manager that has started nothing yet.
    pub fn new() -> (r: TokioProcessManager)
        ensures
            r.managed() == Seq::<Seq<char>>::empty(),
    {
        let r = TokioProcessManager { started: Vec::new() };
        assert(r.managed() =~= Seq::<Seq<char>>::empty());
        r
    }

    /// Records that the process of tool `tool_id` was started.
    pub fn track_process(&mut self, tool_id: String)
        ensures
            final(self).managed() == old(self).managed().push(tool_id@),
    {
        self.started.push(tool_id);
        assert(self.managed() =~= old(self).managed().push(tool_id@));
    }

    /// The line written to a process for `command`: the command, then a newline.
    pub fn command_line(&self, command: &str) -> (r: String)
        ensures
            r@ == command@.push('\n'),
    {
        let mut s = owned(command);
        push_char(&mut s, '\n');
        s
    }

    /// The answer read from a process, given what one read gave (`None` when
    /// it timed out): a timeout, a reading error and an empty line (the
    /// process closed its output) are errors.
    pub fn response_line(&self, read: Option<Result<String, String>>, server_id: &str) -> (r: Result<String, DomainError>)
        ensures
            match read {
                None => r matches Err(DomainError::TimeoutError(t)) && t@ == server_id@,
                Some(Err(e)) => r == Err::<String, DomainError>(DomainError::StdoutReadError(e)),
                Some(Ok(line)) => if line@.len() == 0 {
                    r == Err::<String, DomainError>(DomainError::ServerClosedConnection)
                } else {
                    r == Ok::<String, DomainError>(line)
                },
            },
    {
        match read {
            None => Err(DomainError::TimeoutError(owned(server_id))),
            Some(Err(e)) => Err(DomainError::StdoutReadError(e)),
            Some(Ok(line)) => {
                if line.as_str().is_empty() {
                    Err(DomainError::ServerClosedConnection)
                } else {
                    Ok(line)
                }
            }
        }
    }

    /// The command and arguments that start a tool: the configuration's
    /// `command` string (an error when it has none) and the strings of its
    /// `args` array (none when it has no such array).
    pub fn spawn_command(&self, configuration: &Json) -> (r: Result<(String, Vec<String>), DomainError>)
        ensures
            match configuration.view().str_field("command"@) {
                Some(c) => r is Ok && r->Ok_0.0@ == c && texts(r->Ok_0.1@) == match config_args(configuration.view()) {
                    Some(a) => a,
                    None => Seq::<Seq<char>>::empty(),
                },
                None => r matches Err(DomainError::InvalidToolConfiguration(m)) && m@ == "Missing command"@,
            },
    {
        proof {
            reveal_strlit("command");
            reveal_strlit("args");
            reveal_strlit("Missing command");
        }
        let command = match configuration.str_field("command") {
            Some(c) => c.clone(),
            None => return Err(DomainError::InvalidToolConfiguration(owned("Missing command"))),
        };
        let args = match configuration.get("args") {
            Some(a) => match a.as_array() {
                Some(items) => collect_strings(items),
                None => Vec::new(),
            },
            None => Vec::new(),
        };
        assert(texts(Seq::<String>::empty()) =~= Seq::<Seq<char>>::empty());
        Ok((command, args))
    }

    /// The tools listed in a discovery answer: an answer that is no JSON is a
    /// parse error; one without a `tools` array lists none.
    pub fn discovered_tools(&self, response: Result<Json, String>) -> (r: Result<Vec<Json>, DomainError>)
        ensures
            match response {
                Ok(v) => r is Ok && views(r->Ok_0@) == listed_tools_of(v.view()),
                Err(e) => r == Err::<Vec<Json>, DomainError>(DomainError::JsonParseError(e)),
            },
    {
        proof { reveal_strlit("tools"); }
        match response {
            Ok(v) => {
                match v.get("tools") {
                    Some(t) => match t.as_array() {
                        Some(items) => Ok(clone_elements(items)),
                        None => {
                            let empty: Vec<Json> = Vec::new();
                            assert(views(empty@) =~= Seq::<JsonV>::empty());
                            Ok(empty)
                        }
                    },
                    None => {
                        let empty: Vec<Json> = Vec::new();
                        assert(views(empty@) =~= Seq::<JsonV>::empty());
                        Ok(empty)
                    }
                }
            }
            Err(e) => Err(DomainError::JsonParseError(e)),
        }
    }

    /// The tools listed in the line a server answered a discovery with: a
    /// line that is no JSON is a parse error with `serde_json`'s message; an
    /// answer without a `tools` array lists none.
    pub fn discovered_tools_of_line(&self, line: &str) -> (r: Result<Vec<Json>, DomainError>)
        ensures
            match json_parse(line@) {
                Ok(v) => r is Ok && views(r->Ok_0@) == listed_tools_of(v),
                Err(e) => r matches Err(DomainError::JsonParseError(m)) && m@ == e,
            },
    {
        self.discovered_tools(parse_json_text(line))
    }

    /// The error for a server to which no connection is kept.
    pub fn not_connected(&self, server_id: &str) -> (r: DomainError)
        ensures
            r matches DomainError::ServerNotFound(s) && s@ == server_id@,
    {
        DomainError::ServerNotFound(owned(server_id))
    }

    /// The command object that runs `tool_id` on `parameters`.
    pub fn execute_command(&self, tool_id: &str, parameters: Json) -> (r: Json)
        ensures
            r.view() == execute_command_value(tool_id@, parameters.view()),
    {
        proof {
            reveal_strlit("command");
            reveal_strlit("execute");
            reveal_strlit("tool_id");
            reveal_strlit("parameters");
        }
        let ghost pv = parameters.view();
        let m = vec![
            (owned("command"), Json::Str(owned("execute"))),
            (owned("tool_id"), Json::Str(owned(tool_id))),
            (owned("parameters"), parameters),
        ];
        proof {
            lemma_object_view(m);
            assert(member_views(m@) =~= seq![("command"@, JsonV::Str("execute"@)), ("tool_id"@, JsonV::Str(tool_id@)), ("parameters"@, pv)]);
        }
        Json::Object(m)
    }

    /// The line that asks a server to run `tool_id`: the command object's
    /// JSON text and a newline.
    pub fn execute_command_line(&self, tool_id: &str, parameters: Json) -> (r: String)
        ensures
            r@ == json_text(execute_command_value(tool_id@, parameters.view())).push('\n'),
    {
        let c = self.execute_command(tool_id, parameters);
        let text = to_json_text(&c);
        self.command_line(text.as_str())
    }

    /// The result in a server's answer to an execution: an answer that is no
    /// JSON is a parse error, one without `result` is `NoResultField`.
    pub fn execution_result(&self, response: Result<Json, String>) -> (r: Result<Json, DomainError>)
        ensures
            match response {
                Ok(v) => match v.view().field("result"@) {
                    Some(x) => r is Ok && r->Ok_0.view() == x,
                    None => r == Err::<Json, DomainError>(DomainError::NoResultField),
                },
                Err(e) => r == Err::<Json, DomainError>(DomainError::JsonParseError(e)),
            },
    {
        proof { reveal_strlit("result"); }
        match response {
            Ok(v) => match v.get("result") {
                Some(x) => Ok(crate::json::clone_json(x)),
                None => Err(DomainError::NoResultField),
            },
            Err(e) => Err(DomainError::JsonParseError(e)),
        }
    }

    /// The result in the line a server answered an execution with: a line
    /// that is no JSON is a parse error with `serde_json`'s message, an
    /// answer without `result` is `NoResultField`.
    pub fn execution_result_of_line(&self, line: &str) -> (r: Result<Json, DomainError>)
        ensures
            match json_parse(line@) {
                Ok(v) => match v.field("result"@) {
                    Some(x) => r is Ok && r->Ok_0.view() == x,
                    None => r == Err::<Json, DomainError>(DomainError::NoResultField),
                },
                Err(e) => r matches Err(DomainError::JsonParseError(m)) && m@ == e,
            },
    {
        self.execution_result(parse_json_text(line))
    }

    /// Kills all the processes that this manager manages: it hands over the
    /// tools whose processes are to be killed (every one it started, in
    /// order) and manages none afterwards.
    pub fn kill_all_processes(&mut self) -> (r: Vec<String>)
        ensures
            texts(r@) == old(self).managed(),
            final(self).managed() == Seq::<Seq<char>>::empty(),
    {
        let mut all: Vec<String> = Vec::new();
        std::mem::swap(&mut all, &mut self.started);
        assert(self.managed() =~= Seq::<Seq<char>>::empty());
        all
    }
}


/// Every tool that the mock manager lists can be run by it.
pub proof fn law_mock_listed_tools_run(i: int, params: JsonV)
    requires
        0 <= i < mock_tools().len(),
    ensures
        mock_execution(mock_tools()[i].field("id"@)->0.str_of()->0, params) is Ok,
{
    reveal_strlit("id");
    reveal_strlit("name");
    reveal_strlit("description");
    reveal_strlit("hello_world");
    reveal_strlit("hello_world_with_input");
    reveal_strlit("hello_world_with_config");
    let t = mock_tools()[i];
    let m = t->Object_0;
    crate::json::lemma_key_index_is(m, "id"@, 0);
}

} // verus!
