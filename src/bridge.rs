use crate::acp::{
    ClientCapabilities, ClientInfo, ContentBlock, FsCapabilities, InitializeParams, JsonRpcRequest,
    JsonRpcResponse, SessionNewParams, SessionPromptParams,
};
use crate::bus::{Event, NotificationLevel};
use crate::chat::{new_message_id, now, simple_text, ChatMessage, Timestamp};
use crate::client::ProtocolError;
use crate::entity::{EntityId, Role};
use crate::json::Json;
use crate::table::Metadata;
use crate::text::{same_text, strip_leading_newline, trim_leading_newline};
use vstd::prelude::*;
use vstd::string::*;

verus! {

/// The client description sent in `initialize`: protocol version 1, file
/// reads and writes and a terminal offered.
pub fn initialize_params() -> (r: InitializeParams)
    ensures
        r.protocolVersion == 1,
        r.clientCapabilities.fs matches Some(fs) && fs.readTextFile == Some(true)
            && fs.writeTextFile == Some(true),
        r.clientCapabilities.terminal == Some(true),
        r.clientInfo.name@ == "Thalassa"@,
        r.clientInfo.title matches Some(t) && t@ == "Thalassa Orchestrator"@,
        r.clientInfo.version@ == "0.1.0"@,
{
    InitializeParams {
        protocolVersion: 1,
        clientCapabilities: ClientCapabilities {
            fs: Some(FsCapabilities { readTextFile: Some(true), writeTextFile: Some(true) }),
            terminal: Some(true),
        },
        clientInfo: ClientInfo {
            name: String::from_str("Thalassa"),
            title: Some(String::from_str("Thalassa Orchestrator")),
            version: String::from_str("0.1.0"),
        },
    }
}

/// A call to make on the agent: its method and its parameters.
#[derive(Debug)]
pub struct ProtocolCall {
    pub method: String,
    pub params: Json,
}

/// The `initialize` call that announces `params`.
pub fn initialize_call(params: &InitializeParams) -> (r: ProtocolCall)
    ensures
        r.method@ == "initialize"@,
        params.describes(r.params),
{
    ProtocolCall { method: String::from_str("initialize"), params: params.to_json() }
}

/// The `session/new` call with `params`.
pub fn session_new_call(params: &SessionNewParams) -> (r: ProtocolCall)
    ensures
        r.method@ == "session/new"@,
        params.describes(r.params),
{
    ProtocolCall { method: String::from_str("session/new"), params: params.to_json() }
}

/// The `session/prompt` call with `params`; its reply marks the end of the
/// turn.
pub fn prompt_call(params: &SessionPromptParams) -> (r: ProtocolCall)
    ensures
        r.method@ == "session/prompt"@,
        params.describes(r.params),
{
    ProtocolCall { method: String::from_str("session/prompt"), params: params.to_json() }
}

/// The directory a project's agent works in.
pub open spec fn project_dir(project_name: Seq<char>) -> Seq<char> {
    "/home/devuser/projects/"@ + project_name
}

/// The parameters of `session/new` for a project: its directory and no
/// tool servers.
pub fn session_new_params(project_name: &String) -> (r: SessionNewParams)
    ensures
        r.cwd@ == project_dir(project_name@),
        r.mcpServers@.len() == 0,
{
    SessionNewParams {
        cwd: String::from_str("/home/devuser/projects/").concat(project_name.as_str()),
        mcpServers: Vec::new(),
    }
}

/// The session id in the result of `session/new`: its `sessionId` member
/// when that is a string, or else the result itself when it is a string.
pub open spec fn session_id_in(result: Json) -> Option<Seq<char>> {
    match result.member("sessionId"@) {
        Some(v) => match v.text() {
            Some(t) => Some(t),
            None => result.text(),
        },
        None => result.text(),
    }
}

/// The protocol session id that the reply to `session/new` carries.
pub fn session_id_of(response: JsonRpcResponse) -> (r: Result<String, ProtocolError>)
    ensures
        match response.error {
            Some(e) => r == Err::<String, ProtocolError>(
                (ProtocolError::CallFailed { code: e.code, message: e.message }),
            ),
            None => match response.result {
                None => r == Err::<String, ProtocolError>(ProtocolError::NoResult),
                Some(result) => match session_id_in(result) {
                    Some(t) => r matches Ok(s) && s@ == t,
                    None => r == Err::<String, ProtocolError>(ProtocolError::MissingSessionId),
                },
            },
        },
{
    match response.error {
        Some(e) => Err(ProtocolError::CallFailed { code: e.code, message: e.message }),
        None => match &response.result {
            None => Err(ProtocolError::NoResult),
            Some(result) => {
                if let Some(v) = result.get("sessionId") {
                    if let Some(t) = v.as_str() {
                        return Ok(t.clone());
                    }
                }
                match result.as_str() {
                    Some(t) => Ok(t.clone()),
                    None => Err(ProtocolError::MissingSessionId),
                }
            },
        },
    }
}

/// The text of an `agent_message_chunk` update: a `session/update`
/// notification whose `params.update.sessionUpdate` is that string, and
/// whose `params.update.content.text` is a string.
pub open spec fn chunk_of(n: JsonRpcRequest) -> Option<Seq<char>> {
    if n.method@ != "session/update"@ {
        None
    } else {
        match n.params {
            None => None,
            Some(p) => match p.member("update"@) {
                None => None,
                Some(u) => if u.member("sessionUpdate"@) matches Some(kind) && kind.text() == Some(
                    "agent_message_chunk"@,
                ) {
                    match u.member("content"@) {
                        None => None,
                        Some(c) => match c.member("text"@) {
                            None => None,
                            Some(t) => t.text(),
                        },
                    }
                } else {
                    None
                },
            },
        }
    }
}

/// What a notification adds to the turn accumulator: its chunk text, or
/// nothing.
pub open spec fn added_text(n: JsonRpcRequest) -> Seq<char> {
    match chunk_of(n) {
        Some(t) => t,
        None => Seq::empty(),
    }
}

/// The accumulator after the notifications `ns` arrive, in order, on top of
/// `held`.
pub open spec fn accumulate(held: Seq<char>, ns: Seq<JsonRpcRequest>) -> Seq<char>
    decreases ns.len(),
{
    if ns.len() == 0 {
        held
    } else {
        accumulate(held, ns.drop_last()) + added_text(ns.last())
    }
}

fn chunk_text(n: &JsonRpcRequest) -> (r: Option<&String>)
    ensures
        match r {
            Some(t) => chunk_of(*n) == Some(t@),
            None => chunk_of(*n) is None,
        },
{
    if !same_text(&n.method, "session/update") {
        return None;
    }
    let p = match &n.params {
        Some(p) => p,
        None => return None,
    };
    let u = match p.get("update") {
        Some(u) => u,
        None => return None,
    };
    let is_chunk = match u.get("sessionUpdate") {
        Some(kind) => match kind.as_str() {
            Some(k) => same_text(k, "agent_message_chunk"),
            None => false,
        },
        None => false,
    };
    if !is_chunk {
        return None;
    }
    match u.get("content") {
        Some(c) => match c.get("text") {
            Some(t) => t.as_str(),
            None => None,
        },
        None => None,
    }
}

/// The project named in a turn's context, for the reply prefix.
pub open spec fn project_label(metadata: Map<Seq<char>, String>) -> Seq<char> {
    if metadata.contains_key("project_name"@) {
        metadata["project_name"@]@
    } else {
        "unknown"@
    }
}

/// The reply text of a turn: the project in square brackets, a newline,
/// then the accumulated text without the one newline it may start with.
pub open spec fn reply_text(accumulated: Seq<char>, metadata: Map<Seq<char>, String>) -> Seq<
    char,
> {
    "["@ + project_label(metadata) + "]\n"@ + strip_leading_newline(accumulated)
}

/// The notification that a turn failed.
pub open spec fn failure_text(e: ProtocolError) -> Seq<char> {
    "Agent failed to reply: "@ + e.text()
}

/// Whether `e` is the error-level notification `text`, for everyone.
pub open spec fn is_error_notice(e: Event, text: Seq<char>) -> bool {
    e matches Event::SystemNotification { level, message, target } && level
        == NotificationLevel::Error && message@ == text && target is None
}

/// Whether `r` is the error-level notification `text`, for everyone.
pub open spec fn notice_of(r: Option<Event>, text: Seq<char>) -> bool {
    r matches Some(e) && is_error_notice(e, text)
}

/// Why a prompt call failed, if it did: the call itself, or the error object
/// of its reply.
pub open spec fn failure_of(outcome: Result<JsonRpcResponse, ProtocolError>) -> Option<
    ProtocolError,
> {
    match outcome {
        Ok(response) => match response.error {
            Some(e) => Some(ProtocolError::CallFailed { code: e.code, message: e.message }),
            None => None,
        },
        Err(e) => Some(e),
    }
}

/// Whether `event` starts a turn: a chat message written by a user.
pub fn starts_turn(event: &Event) -> (r: bool)
    ensures
        r == (event matches Event::ChatMessage(m) && m.sender.role == Role::User),
{
    match event {
        Event::ChatMessage(m) => m.sender.role == Role::User,
        _ => false,
    }
}

/// How a turn starts: with the prompt to send, or, when no protocol
/// session exists yet, with the one error notification to publish.
pub enum TurnStart {
    Prompt(SessionPromptParams),
    NotReady(Event),
}

/// The bridge between the event bus and one project's agent: the protocol
/// session it talks to, and the text the agent streams during a turn.
pub struct AgentSession {
    project_name: String,
    session_id: String,
    acp_session_id: Option<String>,
    agent_id: EntityId,
    current_metadata: Option<Metadata>,
    chunk_accumulator: String,
}

impl AgentSession {
    pub closed spec fn project(&self) -> Seq<char> {
        self.project_name@
    }

    /// The bridge's own session id, for logs.
    pub closed spec fn bridge_session(&self) -> Seq<char> {
        self.session_id@
    }

    /// The session id that the agent gave, once `session/new` succeeded.
    pub closed spec fn protocol_session(&self) -> Option<Seq<char>> {
        match self.acp_session_id {
            Some(s) => Some(s@),
            None => None,
        }
    }

    /// The identity under which replies are sent.
    pub closed spec fn agent(&self) -> EntityId {
        self.agent_id
    }

    /// The context of the turn in flight.
    pub closed spec fn turn_context(&self) -> Option<Map<Seq<char>, String>> {
        match self.current_metadata {
            Some(m) => Some(m@),
            None => None,
        }
    }

    /// The text gathered so far in this turn.
    pub closed spec fn accumulated(&self) -> Seq<char> {
        self.chunk_accumulator@
    }

    /// A bridge for `project_name` that has no protocol session yet.
    pub fn new(project_name: String, agent_id: EntityId) -> (r: Self)
        ensures
            r.project() == project_name@,
            r.agent() == agent_id,
            r.protocol_session() is None,
            r.turn_context() is None,
            r.accumulated() == Seq::<char>::empty(),
            r.bridge_session().len() == 36,
            r.bridge_session().subrange(0, 4) == "ses_"@,
    {
        let tag = simple_text(uuid::Uuid::new_v4());
        let session_id = String::from_str("ses_").concat(tag.as_str());
        proof {
            reveal_strlit("ses_");
            assert(session_id@.subrange(0, 4) =~= "ses_"@);
        }
        AgentSession {
            project_name,
            session_id,
            acp_session_id: None,
            agent_id,
            current_metadata: None,
            chunk_accumulator: String::new(),
        }
    }

    pub fn project_name(&self) -> (r: &String)
        ensures
            r@ == self.project(),
    {
        &self.project_name
    }

    pub fn session_id(&self) -> (r: &String)
        ensures
            r@ == self.bridge_session(),
    {
        &self.session_id
    }

    /// The parameters of `session/new` for this bridge's project.
    pub fn new_session_params(&self) -> (r: SessionNewParams)
        ensures
            r.cwd@ == project_dir(self.project()),
            r.mcpServers@.len() == 0,
    {
        session_new_params(&self.project_name)
    }

    /// Records how `session/new` went: on success the agent's session id is
    /// kept; on failure the bridge stays without one, and every turn reports
    /// that the session is not ready.
    pub fn session_created(&mut self, outcome: Result<String, ProtocolError>)
        ensures
            final(self).protocol_session() == match outcome {
                Ok(s) => Some(s@),
                Err(_) => old(self).protocol_session(),
            },
            final(self).project() == old(self).project(),
            final(self).bridge_session() == old(self).bridge_session(),
            final(self).agent() == old(self).agent(),
            final(self).turn_context() == old(self).turn_context(),
            final(self).accumulated() == old(self).accumulated(),
    {
        if let Ok(s) = outcome {
            self.acp_session_id = Some(s);
        }
    }

    /// The success notification that the session has started.
    pub fn started_notification(&self) -> (r: Event)
        ensures
            r matches Event::SystemNotification { level, message, target } && level
                == NotificationLevel::Success && message@ == "Agent session "@
                + self.bridge_session() + " started for "@ + self.project() && target is None,
    {
        let message = String::from_str("Agent session ").concat(self.session_id.as_str()).concat(
            " started for ",
        ).concat(self.project_name.as_str());
        Event::SystemNotification { level: NotificationLevel::Success, message, target: None }
    }

    /// Adds the text of an `agent_message_chunk` update to the turn's
    /// accumulator; any other notification leaves it as it is.
    pub fn on_notification(&mut self, n: &JsonRpcRequest)
        ensures
            final(self).accumulated() == old(self).accumulated() + added_text(*n),
            final(self).protocol_session() == old(self).protocol_session(),
            final(self).project() == old(self).project(),
            final(self).bridge_session() == old(self).bridge_session(),
            final(self).agent() == old(self).agent(),
            final(self).turn_context() == old(self).turn_context(),
    {
        match chunk_text(n) {
            Some(t) => self.chunk_accumulator.append(t.as_str()),
            None => {
                assert(old(self).accumulated() + added_text(*n) =~= old(self).accumulated());
            },
        }
    }

    /// Starts a turn for the user message `msg`: the accumulator is cleared
    /// and the message's metadata becomes the turn's context. Without a
    /// protocol session the turn ends here with one error notification and
    /// no call; otherwise it goes on with the prompt to send.
    pub fn begin_turn(&mut self, msg: &ChatMessage) -> (r: TurnStart)
        ensures
            final(self).accumulated() == Seq::<char>::empty(),
            final(self).turn_context() == Some(msg.metadata@),
            final(self).protocol_session() == old(self).protocol_session(),
            final(self).project() == old(self).project(),
            final(self).bridge_session() == old(self).bridge_session(),
            final(self).agent() == old(self).agent(),
            match old(self).protocol_session() {
                None => r matches TurnStart::NotReady(e) && is_error_notice(
                    e,
                    "Agent session not ready"@,
                ),
                Some(sid) => r matches TurnStart::Prompt(p) && p.sessionId@ == sid
                    && p.prompt@.len() == 1 && p.prompt@[0] == (ContentBlock::Text {
                    text: msg.content,
                }),
            },
    {
        self.chunk_accumulator = String::new();
        self.current_metadata = Some(msg.metadata.copy());
        match &self.acp_session_id {
            None => TurnStart::NotReady(
                Event::SystemNotification {
                    level: NotificationLevel::Error,
                    message: String::from_str("Agent session not ready"),
                    target: None,
                },
            ),
            Some(sid) => {
                let mut prompt: Vec<ContentBlock> = Vec::new();
                prompt.push(ContentBlock::Text { text: msg.content.clone() });
                TurnStart::Prompt(SessionPromptParams { sessionId: sid.clone(), prompt })
            },
        }
    }

    /// Ends a turn once the prompt call is over, with `id` and `at` for a
    /// reply. On success the accumulator is read and cleared: empty, nothing
    /// is published; otherwise the reply goes out as a message of the agent
    /// with the turn's metadata. On failure the result is one error
    /// notification.
    pub fn finish_turn_with(
        &mut self,
        outcome: Result<JsonRpcResponse, ProtocolError>,
        metadata: &Metadata,
        id: String,
        at: Timestamp,
    ) -> (r: Option<Event>)
        ensures
            final(self).protocol_session() == old(self).protocol_session(),
            final(self).project() == old(self).project(),
            final(self).bridge_session() == old(self).bridge_session(),
            final(self).agent() == old(self).agent(),
            final(self).turn_context() == old(self).turn_context(),
            match failure_of(outcome) {
                Some(e) => final(self).accumulated() == old(self).accumulated() && notice_of(
                    r,
                    failure_text(e),
                ),
                None => {
                    &&& final(self).accumulated() == Seq::<char>::empty()
                    &&& old(self).accumulated().len() == 0 ==> r is None
                    &&& old(self).accumulated().len() > 0 ==> (r matches Some(
                        Event::ChatMessage(m),
                    ) && m.id == id && m.chat_id is None && m.sender == old(self).agent()
                        && m.content@ == reply_text(old(self).accumulated(), metadata@)
                        && m.timestamp == at && m.metadata@ == metadata@)
                },
            },
    {
        let response = match outcome {
            Ok(response) => response,
            Err(e) => return Some(self.failure(e)),
        };
        if let Some(e) = response.error {
            return Some(self.failure(ProtocolError::CallFailed { code: e.code, message: e.message }));
        }
        let mut text = String::new();
        std::mem::swap(&mut text, &mut self.chunk_accumulator);
        if text.unicode_len() == 0 {
            return None;
        }
        let label = match metadata.get("project_name") {
            Some(p) => p.clone(),
            None => String::from_str("unknown"),
        };
        let body = trim_leading_newline(text.as_str());
        let content = String::from_str("[").concat(label.as_str()).concat("]\n").concat(
            body.as_str(),
        );
        Some(
            Event::ChatMessage(
                ChatMessage {
                    id,
                    chat_id: None,
                    sender: self.agent_id.copy(),
                    content,
                    timestamp: at,
                    metadata: metadata.copy(),
                },
            ),
        )
    }

    /// `finish_turn_with` under a fresh message id and the current time.
    pub fn finish_turn(&mut self, outcome: Result<JsonRpcResponse, ProtocolError>, metadata: &Metadata) -> (r: Option<Event>)
        ensures
            final(self).protocol_session() == old(self).protocol_session(),
            final(self).project() == old(self).project(),
            final(self).bridge_session() == old(self).bridge_session(),
            final(self).agent() == old(self).agent(),
            final(self).turn_context() == old(self).turn_context(),
            match failure_of(outcome) {
                Some(e) => final(self).accumulated() == old(self).accumulated() && notice_of(
                    r,
                    failure_text(e),
                ),
                None => {
                    &&& final(self).accumulated() == Seq::<char>::empty()
                    &&& old(self).accumulated().len() == 0 ==> r is None
                    &&& old(self).accumulated().len() > 0 ==> (r matches Some(
                        Event::ChatMessage(m),
                    ) && m.id@.len() == 36 && m.chat_id is None && m.sender == old(self).agent()
                        && m.content@ == reply_text(old(self).accumulated(), metadata@)
                        && m.metadata@ == metadata@)
                },
            },
    {
        let id = new_message_id();
        let at = now();
        self.finish_turn_with(outcome, metadata, id, at)
    }

    fn failure(&self, e: ProtocolError) -> (r: Event)
        ensures
            is_error_notice(r, failure_text(e)),
    {
        let message = String::from_str("Agent failed to reply: ").concat(e.message().as_str());
        Event::SystemNotification { level: NotificationLevel::Error, message, target: None }
    }
}

/// Turns do not leak into each other. A turn starts with an empty
/// accumulator, whatever it held before (what the turn before gathered,
/// say); so what it holds when the turn ends is the chunk text of the
/// notifications that arrived during the turn, in arrival order, and
/// nothing else.
pub proof fn lemma_turn_isolation(during: Seq<JsonRpcRequest>)
    ensures
        accumulate(Seq::empty(), during) == chunks_text(during),
        forall|i: int|
            0 <= i <= during.len() ==> #[trigger] accumulate(Seq::empty(), during.subrange(0, i))
                + chunks_text(during.subrange(i, during.len() as int)) == chunks_text(during),
    decreases during.len(),
{
    lemma_accumulate_is_chunks(during);
    assert forall|i: int| 0 <= i <= during.len() implies #[trigger] accumulate(
        Seq::empty(),
        during.subrange(0, i),
    ) + chunks_text(during.subrange(i, during.len() as int)) == chunks_text(during) by {
        lemma_accumulate_is_chunks(during.subrange(0, i));
        lemma_chunks_split(during, i);
    }
}

/// What a successful turn publishes once the accumulator holds `accumulated`:
/// nothing when it is empty, else a reply with this text.
pub open spec fn turn_reply(accumulated: Seq<char>, metadata: Map<Seq<char>, String>) -> Option<
    Seq<char>,
> {
    if accumulated.len() == 0 {
        None
    } else {
        Some(reply_text(accumulated, metadata))
    }
}

/// A turn's reply depends on the chunks that arrived during it alone.
/// `begin_turn` empties the accumulator whatever it held (what an earlier
/// turn gathered, or chunks that came while no turn was in flight);
/// `on_notification` then adds each chunk text in arrival order, and
/// `finish_turn` publishes `turn_reply` of the result. So the reply is the
/// one made of the chunks of `during`, and nothing when they hold no text.
pub proof fn lemma_turn_reply_from_its_chunks(
    during: Seq<JsonRpcRequest>,
    metadata: Map<Seq<char>, String>,
)
    ensures
        turn_reply(accumulate(Seq::empty(), during), metadata) == if chunks_text(during).len()
            == 0 {
            None
        } else {
            Some(reply_text(chunks_text(during), metadata))
        },
{
    lemma_accumulate_is_chunks(during);
}

/// A turn during which no notification carries chunk text publishes
/// nothing, however many notifications arrive.
pub proof fn lemma_no_chunks_no_reply(during: Seq<JsonRpcRequest>, metadata: Map<Seq<char>, String>)
    requires
        forall|i: int| 0 <= i < during.len() ==> chunk_of(#[trigger] during[i]) is None,
    ensures
        accumulate(Seq::empty(), during) == Seq::<char>::empty(),
        turn_reply(accumulate(Seq::empty(), during), metadata) is None,
    decreases during.len(),
{
    if during.len() > 0 {
        let prefix = during.drop_last();
        assert forall|i: int| 0 <= i < prefix.len() implies chunk_of(#[trigger] prefix[i]) is None by {
            assert(prefix[i] == during[i]);
        }
        lemma_no_chunks_no_reply(prefix, metadata);
        assert(chunk_of(during[during.len() - 1]) is None);
        assert(accumulate(Seq::empty(), during) =~= Seq::<char>::empty());
    }
}

/// The chunk texts of `ns`, one after another in order.
pub open spec fn chunks_text(ns: Seq<JsonRpcRequest>) -> Seq<char>
    decreases ns.len(),
{
    if ns.len() == 0 {
        Seq::empty()
    } else {
        added_text(ns[0]) + chunks_text(ns.drop_first())
    }
}

proof fn lemma_chunks_push(ns: Seq<JsonRpcRequest>, n: JsonRpcRequest)
    ensures
        chunks_text(ns.push(n)) == chunks_text(ns) + added_text(n),
    decreases ns.len(),
{
    if ns.len() == 0 {
        assert(ns.push(n).drop_first() =~= Seq::<JsonRpcRequest>::empty());
        assert(ns.push(n)[0] == n);
        assert(chunks_text(Seq::<JsonRpcRequest>::empty()) == Seq::<char>::empty());
        assert(chunks_text(ns) == Seq::<char>::empty());
        assert(chunks_text(ns.push(n)) =~= added_text(n));
    } else {
        assert(ns.push(n).drop_first() =~= ns.drop_first().push(n));
        lemma_chunks_push(ns.drop_first(), n);
        assert(chunks_text(ns.push(n)) =~= chunks_text(ns) + added_text(n));
    }
}

proof fn lemma_accumulate_is_chunks(ns: Seq<JsonRpcRequest>)
    ensures
        accumulate(Seq::empty(), ns) == chunks_text(ns),
    decreases ns.len(),
{
    if ns.len() > 0 {
        lemma_accumulate_is_chunks(ns.drop_last());
        lemma_chunks_push(ns.drop_last(), ns.last());
        assert(ns.drop_last().push(ns.last()) =~= ns);
    } else {
        assert(accumulate(Seq::empty(), ns) =~= chunks_text(ns));
    }
}

proof fn lemma_chunks_split(ns: Seq<JsonRpcRequest>, i: int)
    requires
        0 <= i <= ns.len(),
    ensures
        chunks_text(ns.subrange(0, i)) + chunks_text(ns.subrange(i, ns.len() as int)) == chunks_text(ns),
    decreases i,
{
    if i == 0 {
        assert(ns.subrange(0, 0) =~= Seq::<JsonRpcRequest>::empty());
        assert(ns.subrange(0, ns.len() as int) =~= ns);
        assert(Seq::<char>::empty() + chunks_text(ns) =~= chunks_text(ns));
    } else {
        lemma_chunks_split(ns, i - 1);
        lemma_chunks_push(ns.subrange(0, i - 1), ns[i - 1]);
        assert(ns.subrange(0, i - 1).push(ns[i - 1]) =~= ns.subrange(0, i));
        let rest = ns.subrange(i - 1, ns.len() as int);
        assert(rest.drop_first() =~= ns.subrange(i, ns.len() as int));
        assert(rest[0] == ns[i - 1]);
        assert(chunks_text(rest) == added_text(ns[i - 1]) + chunks_text(ns.subrange(i, ns.len() as int)));
        assert(chunks_text(ns.subrange(0, i)) + chunks_text(ns.subrange(i, ns.len() as int))
            =~= chunks_text(ns.subrange(0, i - 1)) + chunks_text(rest));
    }
}

/// The text of a reply's result, by the first of these that is a string:
/// `result.content[0].text`, `result.message.content`, `result.text`, the
/// result itself. Empty when there is none.
pub open spec fn response_text(response: JsonRpcResponse) -> Seq<char> {
    match response.result {
        None => Seq::empty(),
        Some(result) => {
            let from_content = match result.member("content"@) {
                Some(Json::Array(items)) => if items@.len() > 0 {
                    match items@[0].member("text"@) {
                        Some(t) => t.text(),
                        None => None,
                    }
                } else {
                    None
                },
                _ => None,
            };
            let from_message = match result.member("message"@) {
                Some(m) => match m.member("content"@) {
                    Some(c) => c.text(),
                    None => None,
                },
                None => None,
            };
            let from_text = match result.member("text"@) {
                Some(t) => t.text(),
                None => None,
            };
            if from_content is Some {
                from_content->0
            } else if from_message is Some {
                from_message->0
            } else if from_text is Some {
                from_text->0
            } else if result.text() is Some {
                result.text()->0
            } else {
                Seq::empty()
            }
        },
    }
}

fn text_member<'a>(j: &'a Json, key: &str) -> (r: Option<&'a String>)
    ensures
        match r {
            Some(t) => j.member(key@) matches Some(v) && v.text() == Some(t@),
            None => !(j.member(key@) matches Some(v) && v.text() is Some),
        },
{
    match j.get(key) {
        Some(v) => v.as_str(),
        None => None,
    }
}

/// The text of a reply, found by the strategies of `response_text` in
/// order.
pub fn extract_text_from_response(response: &JsonRpcResponse) -> (r: String)
    ensures
        r@ == response_text(*response),
{
    let result = match &response.result {
        Some(result) => result,
        None => return String::new(),
    };
    if let Some(Json::Array(items)) = result.get("content") {
        if items.len() > 0 {
            if let Some(t) = text_member(&items[0], "text") {
                return t.clone();
            }
        }
    }
    if let Some(m) = result.get("message") {
        if let Some(t) = text_member(m, "content") {
            return t.clone();
        }
    }
    if let Some(t) = text_member(result, "text") {
        return t.clone();
    }
    match result.as_str() {
        Some(t) => t.clone(),
        None => String::new(),
    }
}

} // verus!
