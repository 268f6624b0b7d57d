use crate::json::{lemma_no_members, names_of, push_member, string_array_json, string_json, Json};
use crate::text::{decimal, u64_text};
use vstd::prelude::*;
use vstd::string::*;

verus! {

/// An outbound protocol message: a call when it carries an id, a
/// notification when it does not. Inbound calls and notifications from the
/// agent take the same shape.
#[derive(Debug)]
pub struct JsonRpcRequest {
    pub jsonrpc: String,
    pub method: String,
    pub params: Option<Json>,
    pub id: Option<Json>,
}

impl JsonRpcRequest {
    /// Whether this is the call `method` with `params` under the id `id`.
    pub open spec fn is_call(self, method: Seq<char>, params: Option<Json>, id: u64) -> bool {
        &&& self.jsonrpc@ == "2.0"@
        &&& self.method@ == method
        &&& self.params == params
        &&& self.id matches Some(j) && j.is_number_text(decimal(id as nat))
    }

    /// A message of protocol version "2.0"; a numeric id becomes a JSON
    /// number written in decimal.
    pub fn new(method: &str, params: Option<Json>, id: Option<u64>) -> (r: Self)
        ensures
            r.jsonrpc@ == "2.0"@,
            r.method@ == method@,
            r.params == params,
            match id {
                Some(n) => r.id matches Some(j) && j.is_number_text(decimal(n as nat)),
                None => r.id is None,
            },
    {
        let id_json = match id {
            Some(n) => Some(Json::Number(u64_text(n))),
            None => None,
        };
        JsonRpcRequest {
            jsonrpc: String::from_str("2.0"),
            method: String::from_str(method),
            params,
            id: id_json,
        }
    }

    /// A message without an id: no reply is expected.
    pub fn notification(method: &str, params: Option<Json>) -> (r: Self)
        ensures
            r.jsonrpc@ == "2.0"@,
            r.method@ == method@,
            r.params == params,
            r.id is None,
    {
        JsonRpcRequest {
            jsonrpc: String::from_str("2.0"),
            method: String::from_str(method),
            params,
            id: None,
        }
    }
}

/// A reply to a call: the call's id and either a result or an error.
#[derive(Debug)]
pub struct JsonRpcResponse {
    pub jsonrpc: String,
    pub id: Json,
    pub result: Option<Json>,
    pub error: Option<JsonRpcError>,
}

/// The error object of a failed call.
#[derive(Debug)]
pub struct JsonRpcError {
    pub code: i64,
    pub message: String,
    pub data: Option<Json>,
}

/// What a client announces it can do, in the `initialize` call.
#[derive(Debug, Clone)]
#[allow(non_snake_case)]
pub struct InitializeParams {
    pub protocolVersion: u32,
    pub clientCapabilities: ClientCapabilities,
    pub clientInfo: ClientInfo,
}

/// Capabilities offered to the agent; an absent one is left out of the JSON.
#[derive(Debug, Clone)]
pub struct ClientCapabilities {
    pub fs: Option<FsCapabilities>,
    pub terminal: Option<bool>,
}

/// File system capabilities; an absent one is left out of the JSON.
#[derive(Debug, Clone)]
#[allow(non_snake_case)]
pub struct FsCapabilities {
    pub readTextFile: Option<bool>,
    pub writeTextFile: Option<bool>,
}

/// Who the client is.
#[derive(Debug, Clone)]
pub struct ClientInfo {
    pub name: String,
    pub title: Option<String>,
    pub version: String,
}

/// Parameters of `session/new`.
#[derive(Debug, Clone)]
#[allow(non_snake_case)]
pub struct SessionNewParams {
    pub cwd: String,
    pub mcpServers: Vec<McpServer>,
}

/// A tool server handed to the agent; written without a tag, the variant
/// shows in which members are present.
#[derive(Debug, Clone)]
pub enum McpServer {
    Stdio { name: String, command: String, args: Vec<String>, env: Vec<EnvVariable> },
    Http { transport_type: String, name: String, url: String, headers: Vec<HttpHeader> },
    Sse { transport_type: String, name: String, url: String, headers: Vec<HttpHeader> },
}

/// An environment variable for a tool server.
#[derive(Debug, Clone)]
pub struct EnvVariable {
    pub name: String,
    pub value: String,
}

/// An HTTP header for a tool server.
#[derive(Debug, Clone)]
pub struct HttpHeader {
    pub name: String,
    pub value: String,
}

/// Parameters of `session/prompt`.
#[derive(Debug, Clone)]
#[allow(non_snake_case)]
pub struct SessionPromptParams {
    pub sessionId: String,
    pub prompt: Vec<ContentBlock>,
}

/// A piece of prompt content, tagged by its `type` member.
#[derive(Debug, Clone)]
pub enum ContentBlock {
    Text { text: String },
}

/// Whether `j` is an object whose member `key` is the JSON boolean `b`, or
/// has no member `key` when `b` is absent.
pub open spec fn optional_bool_at(j: Json, key: Seq<char>, b: Option<bool>) -> bool {
    match b {
        Some(v) => j.member(key) == Some(Json::Bool(v)),
        None => j.member(key) is None,
    }
}

/// The names present in an object with an optional member `name` that is
/// there exactly when `present`.
pub open spec fn with_optional(
    before: Seq<Seq<char>>,
    name: Seq<char>,
    present: bool,
) -> Seq<Seq<char>> {
    if present {
        before.push(name)
    } else {
        before
    }
}

impl FsCapabilities {
    /// `j` is the JSON form of these capabilities.
    pub open spec fn describes(&self, j: Json) -> bool {
        &&& j.keys() == Some(
            with_optional(
                with_optional(Seq::empty(), "readTextFile"@, self.readTextFile is Some),
                "writeTextFile"@,
                self.writeTextFile is Some,
            ),
        )
        &&& optional_bool_at(j, "readTextFile"@, self.readTextFile)
        &&& optional_bool_at(j, "writeTextFile"@, self.writeTextFile)
    }

    pub fn to_json(&self) -> (r: Json)
        ensures
            self.describes(r),
    {
        proof {
            lemma_no_members();
            reveal_strlit("readTextFile");
            reveal_strlit("writeTextFile");
            assert("readTextFile"@.len() != "writeTextFile"@.len());
        }
        let mut members: Vec<(String, Json)> = Vec::new();
        if let Some(b) = self.readTextFile {
            push_member(&mut members, "readTextFile", Json::Bool(b));
        }
        if let Some(b) = self.writeTextFile {
            push_member(&mut members, "writeTextFile", Json::Bool(b));
        }
        Json::Object(members)
    }
}

/// Whether `j` is an object whose member `key` is the JSON string `t`.
pub open spec fn text_at_key(j: Json, key: Seq<char>, t: Seq<char>) -> bool {
    j.member(key) matches Some(v) && v.text() == Some(t)
}

impl ClientCapabilities {
    /// `j` is the JSON form of these capabilities.
    pub open spec fn describes(&self, j: Json) -> bool {
        &&& j.keys() == Some(
            with_optional(
                with_optional(Seq::empty(), "fs"@, self.fs is Some),
                "terminal"@,
                self.terminal is Some,
            ),
        )
        &&& match self.fs {
            Some(f) => j.member("fs"@) matches Some(v) && f.describes(v),
            None => j.member("fs"@) is None,
        }
        &&& optional_bool_at(j, "terminal"@, self.terminal)
    }

    pub fn to_json(&self) -> (r: Json)
        ensures
            self.describes(r),
    {
        proof {
            lemma_no_members();
            reveal_strlit("fs");
            reveal_strlit("terminal");
            assert("fs"@.len() != "terminal"@.len());
        }
        let mut members: Vec<(String, Json)> = Vec::new();
        if let Some(f) = &self.fs {
            push_member(&mut members, "fs", f.to_json());
        }
        if let Some(b) = self.terminal {
            push_member(&mut members, "terminal", Json::Bool(b));
        }
        Json::Object(members)
    }
}

impl ClientInfo {
    /// `j` is the JSON form of this client description.
    pub open spec fn describes(&self, j: Json) -> bool {
        &&& j.keys() == Some(
            with_optional(seq!["name"@], "title"@, self.title is Some).push("version"@),
        )
        &&& text_at_key(j, "name"@, self.name@)
        &&& match self.title {
            Some(t) => text_at_key(j, "title"@, t@),
            None => j.member("title"@) is None,
        }
        &&& text_at_key(j, "version"@, self.version@)
    }

    pub fn to_json(&self) -> (r: Json)
        ensures
            self.describes(r),
    {
        proof {
            lemma_no_members();
            reveal_strlit("name");
            reveal_strlit("title");
            reveal_strlit("version");
            assert("name"@.len() != "title"@.len());
            assert("name"@.len() != "version"@.len());
            assert("title"@.len() != "version"@.len());
        }
        let mut members: Vec<(String, Json)> = Vec::new();
        push_member(&mut members, "name", string_json(&self.name));
        if let Some(t) = &self.title {
            push_member(&mut members, "title", string_json(t));
        }
        push_member(&mut members, "version", string_json(&self.version));
        Json::Object(members)
    }
}

impl InitializeParams {
    /// `j` is the JSON form of these parameters.
    pub open spec fn describes(&self, j: Json) -> bool {
        &&& j.keys() == Some(seq!["protocolVersion"@, "clientCapabilities"@, "clientInfo"@])
        &&& j.member("protocolVersion"@) matches Some(v) && v.is_number_text(
            decimal(self.protocolVersion as nat),
        )
        &&& j.member("clientCapabilities"@) matches Some(v) && self.clientCapabilities.describes(v)
        &&& j.member("clientInfo"@) matches Some(v) && self.clientInfo.describes(v)
    }

    pub fn to_json(&self) -> (r: Json)
        ensures
            self.describes(r),
    {
        proof {
            lemma_no_members();
            reveal_strlit("protocolVersion");
            reveal_strlit("clientCapabilities");
            reveal_strlit("clientInfo");
            assert("protocolVersion"@.len() != "clientCapabilities"@.len());
            assert("protocolVersion"@.len() != "clientInfo"@.len());
            assert("clientCapabilities"@.len() != "clientInfo"@.len());
        }
        let mut members: Vec<(String, Json)> = Vec::new();
        push_member(
            &mut members,
            "protocolVersion",
            Json::Number(u64_text(self.protocolVersion as u64)),
        );
        push_member(&mut members, "clientCapabilities", self.clientCapabilities.to_json());
        push_member(&mut members, "clientInfo", self.clientInfo.to_json());
        assert(names_of(members@) =~= seq!["protocolVersion"@, "clientCapabilities"@, "clientInfo"@]);
        Json::Object(members)
    }
}

impl EnvVariable {
    /// `j` is the JSON form of this variable.
    pub open spec fn describes(&self, j: Json) -> bool {
        &&& j.keys() == Some(seq!["name"@, "value"@])
        &&& text_at_key(j, "name"@, self.name@)
        &&& text_at_key(j, "value"@, self.value@)
    }

    pub fn to_json(&self) -> (r: Json)
        ensures
            self.describes(r),
    {
        proof {
            lemma_no_members();
            reveal_strlit("name");
            reveal_strlit("value");
            assert("name"@.len() != "value"@.len());
        }
        let mut members: Vec<(String, Json)> = Vec::new();
        push_member(&mut members, "name", string_json(&self.name));
        push_member(&mut members, "value", string_json(&self.value));
        assert(names_of(members@) =~= seq!["name"@, "value"@]);
        Json::Object(members)
    }
}

impl HttpHeader {
    /// `j` is the JSON form of this header.
    pub open spec fn describes(&self, j: Json) -> bool {
        &&& j.keys() == Some(seq!["name"@, "value"@])
        &&& text_at_key(j, "name"@, self.name@)
        &&& text_at_key(j, "value"@, self.value@)
    }

    pub fn to_json(&self) -> (r: Json)
        ensures
            self.describes(r),
    {
        proof {
            lemma_no_members();
            reveal_strlit("name");
            reveal_strlit("value");
            assert("name"@.len() != "value"@.len());
        }
        let mut members: Vec<(String, Json)> = Vec::new();
        push_member(&mut members, "name", string_json(&self.name));
        push_member(&mut members, "value", string_json(&self.value));
        assert(names_of(members@) =~= seq!["name"@, "value"@]);
        Json::Object(members)
    }
}

/// Whether `j` is a JSON array of the forms of `env`, in order.
pub open spec fn env_array(env: Seq<EnvVariable>, j: Json) -> bool {
    j matches Json::Array(a) && a@.len() == env.len() && forall|i: int|
        0 <= i < env.len() ==> #[trigger] env[i].describes(a@[i])
}

/// Whether `j` is a JSON array of the forms of `headers`, in order.
pub open spec fn header_array(headers: Seq<HttpHeader>, j: Json) -> bool {
    j matches Json::Array(a) && a@.len() == headers.len() && forall|i: int|
        0 <= i < headers.len() ==> #[trigger] headers[i].describes(a@[i])
}

/// Whether `j` is a JSON array holding the strings of `items`, in order.
pub open spec fn string_array(items: Seq<String>, j: Json) -> bool {
    j matches Json::Array(a) && a@.len() == items.len() && forall|i: int|
        0 <= i < items.len() ==> #[trigger] a@[i].text() == Some(items[i]@)
}

fn env_json(env: &Vec<EnvVariable>) -> (r: Json)
    ensures
        env_array(env@, r),
{
    let mut out: Vec<Json> = Vec::new();
    let mut i: usize = 0;
    while i < env.len()
        invariant
            i <= env@.len(),
            out@.len() == i,
            forall|j: int| 0 <= j < i ==> #[trigger] env@[j].describes(out@[j]),
        decreases env@.len() - i,
    {
        out.push(env[i].to_json());
        i = i + 1;
    }
    Json::Array(out)
}

fn headers_json(headers: &Vec<HttpHeader>) -> (r: Json)
    ensures
        header_array(headers@, r),
{
    let mut out: Vec<Json> = Vec::new();
    let mut i: usize = 0;
    while i < headers.len()
        invariant
            i <= headers@.len(),
            out@.len() == i,
            forall|j: int| 0 <= j < i ==> #[trigger] headers@[j].describes(out@[j]),
        decreases headers@.len() - i,
    {
        out.push(headers[i].to_json());
        i = i + 1;
    }
    Json::Array(out)
}

impl McpServer {
    /// `j` is the JSON form of this server entry. A command-line server
    /// leaves out `env` when it has no variables; the others carry their
    /// transport under `type`.
    pub open spec fn describes(&self, j: Json) -> bool {
        match self {
            McpServer::Stdio { name, command, args, env } => {
                &&& j.keys() == Some(
                    with_optional(seq!["name"@, "command"@, "args"@], "env"@, env@.len() > 0),
                )
                &&& text_at_key(j, "name"@, name@)
                &&& text_at_key(j, "command"@, command@)
                &&& j.member("args"@) matches Some(v) && string_array(args@, v)
                &&& if env@.len() > 0 {
                    j.member("env"@) matches Some(v) && env_array(env@, v)
                } else {
                    j.member("env"@) is None
                }
            },
            McpServer::Http { transport_type, name, url, headers }
            | McpServer::Sse { transport_type, name, url, headers } => {
                &&& j.keys() == Some(seq!["type"@, "name"@, "url"@, "headers"@])
                &&& text_at_key(j, "type"@, transport_type@)
                &&& text_at_key(j, "name"@, name@)
                &&& text_at_key(j, "url"@, url@)
                &&& j.member("headers"@) matches Some(v) && header_array(headers@, v)
            },
        }
    }

    pub fn to_json(&self) -> (r: Json)
        ensures
            self.describes(r),
    {
        proof {
            lemma_no_members();
            reveal_strlit("name");
            reveal_strlit("command");
            reveal_strlit("args");
            reveal_strlit("env");
            reveal_strlit("type");
            reveal_strlit("url");
            reveal_strlit("headers");
            assert("name"@[0] != "args"@[0]);
            assert("name"@[0] != "type"@[0]);
            assert("name"@.len() != "command"@.len());
            assert("name"@.len() != "env"@.len());
            assert("command"@.len() != "args"@.len());
            assert("command"@.len() != "env"@.len());
            assert("args"@.len() != "env"@.len());
            assert("type"@.len() != "url"@.len());
            assert("type"@.len() != "headers"@.len());
            assert("name"@.len() != "url"@.len());
            assert("name"@.len() != "headers"@.len());
            assert("url"@.len() != "headers"@.len());
        }
        let mut members: Vec<(String, Json)> = Vec::new();
        match self {
            McpServer::Stdio { name, command, args, env } => {
                push_member(&mut members, "name", string_json(name));
                push_member(&mut members, "command", string_json(command));
                push_member(&mut members, "args", string_array_json(args));
                if env.len() > 0 {
                    push_member(&mut members, "env", env_json(env));
                    assert(names_of(members@) =~= seq!["name"@, "command"@, "args"@].push("env"@));
                } else {
                    assert(names_of(members@) =~= seq!["name"@, "command"@, "args"@]);
                }
            },
            McpServer::Http { transport_type, name, url, headers }
            | McpServer::Sse { transport_type, name, url, headers } => {
                push_member(&mut members, "type", string_json(transport_type));
                push_member(&mut members, "name", string_json(name));
                push_member(&mut members, "url", string_json(url));
                push_member(&mut members, "headers", headers_json(headers));
                assert(names_of(members@) =~= seq!["type"@, "name"@, "url"@, "headers"@]);
            },
        }
        Json::Object(members)
    }
}

/// Whether `j` is a JSON array of the forms of `servers`, in order.
pub open spec fn server_array(servers: Seq<McpServer>, j: Json) -> bool {
    j matches Json::Array(a) && a@.len() == servers.len() && forall|i: int|
        0 <= i < servers.len() ==> #[trigger] servers[i].describes(a@[i])
}

impl SessionNewParams {
    /// `j` is the JSON form of these parameters.
    pub open spec fn describes(&self, j: Json) -> bool {
        &&& j.keys() == Some(seq!["cwd"@, "mcpServers"@])
        &&& text_at_key(j, "cwd"@, self.cwd@)
        &&& j.member("mcpServers"@) matches Some(v) && server_array(self.mcpServers@, v)
    }

    pub fn to_json(&self) -> (r: Json)
        ensures
            self.describes(r),
    {
        proof {
            lemma_no_members();
            reveal_strlit("cwd");
            reveal_strlit("mcpServers");
            assert("cwd"@.len() != "mcpServers"@.len());
        }
        let mut servers: Vec<Json> = Vec::new();
        let mut i: usize = 0;
        while i < self.mcpServers.len()
            invariant
                i <= self.mcpServers@.len(),
                servers@.len() == i,
                forall|j: int| 0 <= j < i ==> #[trigger] self.mcpServers@[j].describes(servers@[j]),
            decreases self.mcpServers@.len() - i,
        {
            servers.push(self.mcpServers[i].to_json());
            i = i + 1;
        }
        let mut members: Vec<(String, Json)> = Vec::new();
        push_member(&mut members, "cwd", string_json(&self.cwd));
        push_member(&mut members, "mcpServers", Json::Array(servers));
        assert(names_of(members@) =~= seq!["cwd"@, "mcpServers"@]);
        Json::Object(members)
    }
}

impl ContentBlock {
    /// `j` is the JSON form of this block: its `type`, then its fields.
    pub open spec fn describes(&self, j: Json) -> bool {
        match self {
            ContentBlock::Text { text } => {
                &&& j.keys() == Some(seq!["type"@, "text"@])
                &&& text_at_key(j, "type"@, "text"@)
                &&& text_at_key(j, "text"@, text@)
            },
        }
    }

    pub fn to_json(&self) -> (r: Json)
        ensures
            self.describes(r),
    {
        proof {
            lemma_no_members();
            reveal_strlit("type");
            reveal_strlit("text");
            assert("type"@[1] != "text"@[1]);
        }
        let mut members: Vec<(String, Json)> = Vec::new();
        match self {
            ContentBlock::Text { text } => {
                push_member(&mut members, "type", Json::Str(String::from_str("text")));
                push_member(&mut members, "text", string_json(text));
            },
        }
        assert(names_of(members@) =~= seq!["type"@, "text"@]);
        Json::Object(members)
    }
}

impl SessionPromptParams {
    /// `j` is the JSON form of these parameters.
    pub open spec fn describes(&self, j: Json) -> bool {
        &&& j.keys() == Some(seq!["sessionId"@, "prompt"@])
        &&& text_at_key(j, "sessionId"@, self.sessionId@)
        &&& j.member("prompt"@) matches Some(v) && v matches Json::Array(a) && a@.len()
            == self.prompt@.len() && forall|i: int|
            0 <= i < self.prompt@.len() ==> #[trigger] self.prompt@[i].describes(a@[i])
    }

    pub fn to_json(&self) -> (r: Json)
        ensures
            self.describes(r),
    {
        proof {
            lemma_no_members();
            reveal_strlit("sessionId");
            reveal_strlit("prompt");
            assert("sessionId"@.len() != "prompt"@.len());
        }
        let mut blocks: Vec<Json> = Vec::new();
        let mut i: usize = 0;
        while i < self.prompt.len()
            invariant
                i <= self.prompt@.len(),
                blocks@.len() == i,
                forall|j: int| 0 <= j < i ==> #[trigger] self.prompt@[j].describes(blocks@[j]),
            decreases self.prompt@.len() - i,
        {
            blocks.push(self.prompt[i].to_json());
            i = i + 1;
        }
        let mut members: Vec<(String, Json)> = Vec::new();
        push_member(&mut members, "sessionId", string_json(&self.sessionId));
        push_member(&mut members, "prompt", Json::Array(blocks));
        assert(names_of(members@) =~= seq!["sessionId"@, "prompt"@]);
        Json::Object(members)
    }
}

} // verus!
