use crate::acp::{JsonRpcRequest, JsonRpcResponse};
use crate::json::Json;
use crate::text::{decimal, i64_text, int_text, lemma_decimal_injective, parse_decimal_u64};
use vstd::string::*;
use std::collections::HashMap;
use vstd::prelude::*;

verus! {

/// Whether `c` has the Unicode `White_Space` property.
pub open spec fn unicode_white_space(c: char) -> bool {
    let u = c as u32;
    ||| 0x09 <= u <= 0x0d
    ||| u == 0x20
    ||| u == 0x85
    ||| u == 0xa0
    ||| u == 0x1680
    ||| 0x2000 <= u <= 0x200a
    ||| u == 0x2028
    ||| u == 0x2029
    ||| u == 0x202f
    ||| u == 0x205f
    ||| u == 0x3000
}

/// Whether `c` has the Unicode `White_Space` property.
pub fn is_white_space(c: char) -> (r: bool)
    ensures
        r == unicode_white_space(c),
{
    let u = c as u32;
    (0x09 <= u && u <= 0x0d) || u == 0x20 || u == 0x85 || u == 0xa0 || u == 0x1680 || (0x2000 <= u
        && u <= 0x200a) || u == 0x2028 || u == 0x2029 || u == 0x202f || u == 0x205f || u == 0x3000
}

/// A line that holds nothing but white space.
pub open spec fn blank(line: Seq<char>) -> bool {
    forall|i: int| 0 <= i < line.len() ==> unicode_white_space(#[trigger] line[i])
}

/// Whether `line` is empty once white space is trimmed from it.
pub fn is_blank(line: &str) -> (r: bool)
    ensures
        r == blank(line@),
{
    let len = line.unicode_len();
    let mut i: usize = 0;
    while i < len
        invariant
            len == line@.len(),
            i <= len,
            forall|j: int| 0 <= j < i ==> unicode_white_space(#[trigger] line@[j]),
        decreases len - i,
    {
        if !is_white_space(line.get_char(i)) {
            return false;
        }
        i = i + 1;
    }
    true
}

/// The call id that a reply's id names: a JSON number or a JSON string
/// whose characters are the decimal text of the id.
pub open spec fn decimal_id(t: Seq<char>) -> Option<u64> {
    if exists|n: u64| t == decimal(n as nat) {
        Some(choose|n: u64| t == decimal(n as nat))
    } else {
        None
    }
}

/// The pending call that a reply id refers to, once quoting is stripped from
/// the id: `5` and `"5"` both name call 5.
pub open spec fn call_id(id: Json) -> Option<u64> {
    match id {
        Json::Number(t) => decimal_id(t@),
        Json::Str(s) => decimal_id(s@),
        _ => None,
    }
}

fn decimal_id_of(t: &str) -> (r: Option<u64>)
    ensures
        r == decimal_id(t@),
{
    let r = parse_decimal_u64(t);
    proof {
        if let Some(n) = r {
            let m = choose|m: u64| t@ == decimal(m as nat);
            lemma_decimal_injective(n as nat, m as nat);
        }
    }
    r
}

/// The pending call that the reply id `id` refers to.
pub fn call_id_of(id: &Json) -> (r: Option<u64>)
    ensures
        r == call_id(*id),
{
    match id {
        Json::Number(t) => decimal_id_of(t.as_str()),
        Json::Str(s) => decimal_id_of(s.as_str()),
        _ => None,
    }
}

/// Why a call failed.
#[derive(Debug, Clone)]
pub enum ProtocolError {
    /// The connection was torn down before the reply came, or before the
    /// call could be sent.
    ConnectionClosed,
    /// Every call id of this connection has been used.
    IdsExhausted,
    /// No reply came in time.
    Timeout,
    /// The agent answered the call with an error object.
    CallFailed { code: i64, message: String },
    /// The agent answered with neither a result nor an error.
    NoResult,
    /// The result of `session/new` held no session id.
    MissingSessionId,
}

impl ProtocolError {
    /// What the error says, for a log or a notification.
    pub open spec fn text(&self) -> Seq<char> {
        match self {
            ProtocolError::ConnectionClosed => "connection closed"@,
            ProtocolError::IdsExhausted => "call ids exhausted"@,
            ProtocolError::Timeout => "call timed out"@,
            ProtocolError::CallFailed { code, message } => "call failed: "@ + message@ + " ("@
                + int_text(*code as int) + ")"@,
            ProtocolError::NoResult => "reply held no result"@,
            ProtocolError::MissingSessionId => "could not parse sessionId from result"@,
        }
    }

    pub fn message(&self) -> (r: String)
        ensures
            r@ == self.text(),
    {
        match self {
            ProtocolError::ConnectionClosed => String::from_str("connection closed"),
            ProtocolError::IdsExhausted => String::from_str("call ids exhausted"),
            ProtocolError::Timeout => String::from_str("call timed out"),
            ProtocolError::CallFailed { code, message } => {
                let number = i64_text(*code);
                String::from_str("call failed: ").concat(message.as_str()).concat(" (").concat(
                    number.as_str(),
                ).concat(")")
            },
            ProtocolError::NoResult => String::from_str("reply held no result"),
            ProtocolError::MissingSessionId => String::from_str(
                "could not parse sessionId from result",
            ),
        }
    }
}

/// The outcome of a call once its reply is in: the reply, or the error
/// object it carried.
pub fn check_reply(response: JsonRpcResponse) -> (r: Result<JsonRpcResponse, ProtocolError>)
    ensures
        match response.error {
            Some(e) => r == Err::<JsonRpcResponse, ProtocolError>(
                (ProtocolError::CallFailed { code: e.code, message: e.message }),
            ),
            None => r == Ok::<JsonRpcResponse, ProtocolError>(response),
        },
{
    match response.error {
        Some(e) => Err(ProtocolError::CallFailed { code: e.code, message: e.message }),
        None => Ok(response),
    }
}

/// What the reader does with one line from the agent, or with one reply.
pub enum Inbound<H> {
    /// A blank line: nothing.
    Skip,
    /// A reply to a pending call: hand `response` to the caller waiting on
    /// `handle`.
    Deliver { handle: H, response: JsonRpcResponse },
    /// A reply whose id names no pending call: log it and drop it.
    Unmatched(JsonRpcResponse),
    /// A call or notification from the agent: publish it to the
    /// notification subscribers.
    Notify(JsonRpcRequest),
    /// A line of neither shape: log it and drop it.
    Malformed,
}

/// What a reply does to the pending calls `pending`, and what becomes of it.
pub open spec fn resolve_spec<H>(pending: Map<u64, H>, response: JsonRpcResponse) -> (
    Map<u64, H>,
    Inbound<H>,
) {
    match call_id(response.id) {
        Some(k) => if pending.contains_key(k) {
            (pending.remove(k), Inbound::Deliver { handle: pending[k], response })
        } else {
            (pending, Inbound::Unmatched(response))
        },
        None => (pending, Inbound::Unmatched(response)),
    }
}

/// Whether a decoded reply has the shape of one: exactly one of `result`
/// and `error`. A message with an id and neither (a call from the agent, say)
/// is not a reply.
pub open spec fn reply_shaped(response: JsonRpcResponse) -> bool {
    (response.result is Some) != (response.error is Some)
}

/// Whether `response` has the shape of a reply.
pub fn is_reply_shaped(response: &JsonRpcResponse) -> (r: bool)
    ensures
        r == reply_shaped(*response),
{
    response.result.is_some() != response.error.is_some()
}

/// What one line from the agent does to the pending calls. `as_response` and
/// `as_call` are the line decoded as a reply and as a call or notification,
/// where it has that shape. The reply shape is tried first; a decoded reply
/// without exactly one of `result` and `error` does not count as one.
pub open spec fn line_spec<H>(
    pending: Map<u64, H>,
    line: Seq<char>,
    as_response: Option<JsonRpcResponse>,
    as_call: Option<JsonRpcRequest>,
) -> (Map<u64, H>, Inbound<H>) {
    if blank(line) {
        (pending, Inbound::Skip)
    } else {
        match as_response {
            Some(response) if reply_shaped(response) => resolve_spec(pending, response),
            _ => match as_call {
                Some(call) => (pending, Inbound::Notify(call)),
                None => (pending, Inbound::Malformed),
            },
        }
    }
}

/// The table of calls that await their reply, with the counter that gives
/// each call its id. Ids start at 1, grow by one per call and are never
/// reused; each pending id has exactly one waiting handle.
pub struct PendingCalls<H> {
    next_id: u64,
    calls: HashMap<u64, H>,
    closed: bool,
}

impl<H> PendingCalls<H> {
    /// The handle of each call that awaits its reply, by id.
    pub closed spec fn pending(&self) -> Map<u64, H> {
        self.calls@
    }

    /// The id that the next call will get.
    pub closed spec fn next_id(&self) -> u64 {
        self.next_id
    }

    /// Whether the connection has been torn down.
    pub closed spec fn is_closed(&self) -> bool {
        self.closed
    }

    /// Every pending id was handed out before, and a closed table is empty.
    pub open spec fn wf(&self) -> bool {
        &&& 1 <= self.next_id()
        &&& forall|k: u64| #[trigger] self.pending().contains_key(k) ==> 1 <= k < self.next_id()
        &&& self.is_closed() ==> forall|k: u64| !#[trigger] self.pending().contains_key(k)
    }

    pub fn new() -> (r: Self)
        ensures
            r.wf(),
            r.pending() == Map::<u64, H>::empty(),
            r.next_id() == 1,
            !r.is_closed(),
    {
        PendingCalls { next_id: 1, calls: HashMap::new(), closed: false }
    }

    /// Registers `handle` under a fresh id and builds the call to send.
    pub fn begin_call(&mut self, method: &str, params: Option<Json>, handle: H) -> (r: Result<
        JsonRpcRequest,
        ProtocolError,
    >)
        requires
            old(self).wf(),
        ensures
            final(self).wf(),
            final(self).is_closed() == old(self).is_closed(),
            old(self).is_closed() ==> r == Err::<JsonRpcRequest, ProtocolError>(
                ProtocolError::ConnectionClosed,
            ) && final(self).pending() == old(self).pending() && final(self).next_id() == old(
                self,
            ).next_id(),
            !old(self).is_closed() && old(self).next_id() == u64::MAX ==> r == Err::<
                JsonRpcRequest,
                ProtocolError,
            >(ProtocolError::IdsExhausted) && final(self).pending() == old(self).pending()
                && final(self).next_id() == old(self).next_id(),
            !old(self).is_closed() && old(self).next_id() < u64::MAX ==> {
                &&& r matches Ok(call) && call.is_call(method@, params, old(self).next_id())
                &&& !old(self).pending().contains_key(old(self).next_id())
                &&& final(self).pending() == old(self).pending().insert(old(self).next_id(), handle)
                &&& final(self).next_id() == old(self).next_id() + 1
            },
    {
        if self.closed {
            return Err(ProtocolError::ConnectionClosed);
        }
        if self.next_id == u64::MAX {
            return Err(ProtocolError::IdsExhausted);
        }
        let id = self.next_id;
        self.calls.insert(id, handle);
        self.next_id = id + 1;
        proof {
            assert forall|k: u64| #[trigger] self.pending().contains_key(k) implies 1 <= k
                < self.next_id() by {
                if k != id {
                    assert(old(self).pending().contains_key(k));
                }
            }
        }
        Ok(JsonRpcRequest::new(method, params, Some(id)))
    }

    /// Takes the pending call that `response` answers out of the table.
    pub fn resolve(&mut self, response: JsonRpcResponse) -> (r: Inbound<H>)
        requires
            old(self).wf(),
        ensures
            final(self).wf(),
            (final(self).pending(), r) == resolve_spec(old(self).pending(), response),
            final(self).next_id() == old(self).next_id(),
            final(self).is_closed() == old(self).is_closed(),
    {
        match call_id_of(&response.id) {
            Some(k) => {
                let taken = self.calls.remove(&k);
                proof {
                    assert forall|j: u64| #[trigger] self.pending().contains_key(j) implies old(
                        self,
                    ).pending().contains_key(j) by {}
                }
                match taken {
                    Some(handle) => Inbound::Deliver { handle, response },
                    None => Inbound::Unmatched(response),
                }
            },
            None => Inbound::Unmatched(response),
        }
    }

    /// Decides what one line read from the agent comes to.
    pub fn on_line(
        &mut self,
        line: &str,
        as_response: Option<JsonRpcResponse>,
        as_call: Option<JsonRpcRequest>,
    ) -> (r: Inbound<H>)
        requires
            old(self).wf(),
        ensures
            final(self).wf(),
            (final(self).pending(), r) == line_spec(old(self).pending(), line@, as_response, as_call),
            final(self).next_id() == old(self).next_id(),
            final(self).is_closed() == old(self).is_closed(),
    {
        if is_blank(line) {
            return Inbound::Skip;
        }
        if let Some(response) = as_response {
            if is_reply_shaped(&response) {
                return self.resolve(response);
            }
        }
        match as_call {
            Some(call) => Inbound::Notify(call),
            None => Inbound::Malformed,
        }
    }

    /// Gives up on the call `id` (its time ran out): its handle leaves the
    /// table, so a late reply to it is unmatched.
    pub fn cancel(&mut self, id: u64) -> (r: Option<H>)
        requires
            old(self).wf(),
        ensures
            final(self).wf(),
            final(self).pending() == old(self).pending().remove(id),
            r == if old(self).pending().contains_key(id) {
                Some(old(self).pending()[id])
            } else {
                None
            },
            final(self).next_id() == old(self).next_id(),
            final(self).is_closed() == old(self).is_closed(),
    {
        let taken = self.calls.remove(&id);
        proof {
            assert forall|j: u64| #[trigger] self.pending().contains_key(j) implies old(
                self,
            ).pending().contains_key(j) by {}
        }
        taken
    }

    /// Tears the table down: every pending handle is dropped, so each waiting
    /// caller fails with `ConnectionClosed`, and no call can begin after.
    pub fn close(&mut self)
        requires
            old(self).wf(),
        ensures
            final(self).wf(),
            final(self).pending() == Map::<u64, H>::empty(),
            final(self).is_closed(),
            final(self).next_id() == old(self).next_id(),
    {
        self.calls.clear();
        self.closed = true;
    }

    /// Whether no call awaits its reply.
    pub fn is_idle(&self) -> (r: bool)
        ensures
            r == self.pending().is_empty(),
    {
        proof {
            assert(self.pending().is_empty() <==> self.pending().dom().len() == 0) by {
                if self.pending().dom().len() == 0 {
                    assert(self.pending().dom() =~= Set::empty());
                }
            }
        }
        self.calls.len() == 0
    }
}

/// The replies `responses`, read one after another against the pending
/// calls `pending`: the calls left pending, and what became of each reply.
pub open spec fn resolve_all<H>(pending: Map<u64, H>, responses: Seq<JsonRpcResponse>) -> (
    Map<u64, H>,
    Seq<Inbound<H>>,
)
    decreases responses.len(),
{
    if responses.len() == 0 {
        (pending, Seq::empty())
    } else {
        let before = resolve_all(pending, responses.drop_last());
        let step = resolve_spec(before.0, responses.last());
        (step.0, before.1.push(step.1))
    }
}

/// Whether the reply id `id` names a call of `pending`.
pub open spec fn names_pending<H>(pending: Map<u64, H>, id: Json) -> bool {
    call_id(id) matches Some(k) && pending.contains_key(k)
}

/// Whether some reply among `responses` names the call `k`.
pub open spec fn answered(responses: Seq<JsonRpcResponse>, k: u64) -> bool {
    exists|i: int| 0 <= i < responses.len() && call_id(#[trigger] responses[i].id) == Some(k)
}

/// Replies reach their callers: when each of `responses` names a different
/// pending call, every reply is handed to the handle registered under its
/// id, whatever order the replies arrive in, and exactly the calls that got
/// no reply stay pending.
pub proof fn lemma_replies_reach_their_callers<H>(
    pending: Map<u64, H>,
    responses: Seq<JsonRpcResponse>,
)
    requires
        forall|i: int| 0 <= i < responses.len() ==> names_pending(pending, #[trigger] responses[i].id),
        forall|i: int, j: int|
            0 <= i < j < responses.len() ==> call_id(#[trigger] responses[i].id) != call_id(
                #[trigger] responses[j].id,
            ),
    ensures
        resolve_all(pending, responses).1.len() == responses.len(),
        forall|i: int|
            0 <= i < responses.len() ==> #[trigger] resolve_all(pending, responses).1[i]
                == (Inbound::Deliver {
                handle: pending[call_id(responses[i].id)->0],
                response: responses[i],
            }),
        forall|k: u64|
            #[trigger] resolve_all(pending, responses).0.contains_key(k) <==> pending.contains_key(k)
                && !answered(responses, k),
        forall|k: u64|
            #[trigger] resolve_all(pending, responses).0.contains_key(k) ==> resolve_all(
                pending,
                responses,
            ).0[k] == pending[k],
    decreases responses.len(),
{
    if responses.len() > 0 {
        let prefix = responses.drop_last();
        let n = responses.len() - 1;
        let last = responses.last();
        assert forall|i: int| 0 <= i < prefix.len() implies names_pending(
            pending,
            #[trigger] prefix[i].id,
        ) by {
            assert(prefix[i] == responses[i]);
            assert(names_pending(pending, responses[i].id));
        }
        assert forall|i: int, j: int| 0 <= i < j < prefix.len() implies call_id(
            #[trigger] prefix[i].id,
        ) != call_id(#[trigger] prefix[j].id) by {
            assert(prefix[i] == responses[i] && prefix[j] == responses[j]);
            assert(call_id(responses[i].id) != call_id(responses[j].id));
        }
        lemma_replies_reach_their_callers(pending, prefix);
        let before = resolve_all(pending, prefix);
        assert(names_pending(pending, responses[n].id));
        let k = call_id(last.id)->0;
        assert(!answered(prefix, k)) by {
            if answered(prefix, k) {
                let i = choose|i: int| 0 <= i < prefix.len() && call_id(#[trigger] prefix[i].id) == Some(k);
                assert(prefix[i] == responses[i]);
                assert(call_id(responses[i].id) != call_id(responses[n].id));
            }
        }
        assert(before.0.contains_key(k));
        let all = resolve_all(pending, responses);
        assert forall|i: int| 0 <= i < responses.len() implies #[trigger] all.1[i]
            == Inbound::Deliver { handle: pending[call_id(responses[i].id)->0], response: responses[i] } by {
            if i < n {
                assert(all.1[i] == before.1[i]);
                assert(prefix[i] == responses[i]);
            }
        }
        assert forall|j: u64| #[trigger] all.0.contains_key(j) <==> pending.contains_key(j)
            && !answered(responses, j) by {
            if answered(responses, j) && !answered(prefix, j) {
                let i = choose|i: int| 0 <= i < responses.len() && call_id(#[trigger] responses[i].id) == Some(j);
                if i < n {
                    assert(prefix[i] == responses[i]);
                }
            }
            if answered(prefix, j) {
                let i = choose|i: int| 0 <= i < prefix.len() && call_id(#[trigger] prefix[i].id) == Some(j);
                assert(prefix[i] == responses[i]);
                assert(call_id(responses[i].id) == Some(j));
            }
        }
    }
}

/// A reply whose id names no pending call changes nothing: no handle is
/// taken, and it is dropped as unmatched.
pub proof fn lemma_unmatched_reply_is_inert<H>(pending: Map<u64, H>, response: JsonRpcResponse)
    requires
        !names_pending(pending, response.id),
    ensures
        resolve_spec(pending, response) == (pending, Inbound::<H>::Unmatched(response)),
{
}

/// A line that is neither a reply nor a call is dropped and changes
/// nothing: a reply read after it reaches its caller just as it would have
/// without it.
pub proof fn lemma_malformed_line_is_inert<H>(
    pending: Map<u64, H>,
    bad: Seq<char>,
    good: Seq<char>,
    response: JsonRpcResponse,
    as_call: Option<JsonRpcRequest>,
)
    requires
        !blank(bad),
        !blank(good),
        reply_shaped(response),
    ensures
        line_spec(pending, bad, None, None) == (pending, Inbound::<H>::Malformed),
        line_spec(line_spec(pending, bad, None, None).0, good, Some(response), as_call)
            == resolve_spec(pending, response),
{
}

/// A line that decodes as a reply with an id that names no pending call is
/// dropped as unmatched: no handle is taken, the pending calls stay as they
/// were, and nothing reaches the notification subscribers.
pub proof fn lemma_unmatched_reply_line_is_inert<H>(
    pending: Map<u64, H>,
    line: Seq<char>,
    response: JsonRpcResponse,
    as_call: Option<JsonRpcRequest>,
)
    requires
        !blank(line),
        reply_shaped(response),
        !names_pending(pending, response.id),
    ensures
        line_spec(pending, line, Some(response), as_call) == (pending, Inbound::<H>::Unmatched(response)),
{
}

/// A message with an id but neither `result` nor `error` (a call from the
/// agent) is never taken for a reply: it goes to the subscribers whatever
/// its id, and no pending call is touched.
pub proof fn lemma_agent_call_is_published<H>(
    pending: Map<u64, H>,
    line: Seq<char>,
    response: JsonRpcResponse,
    call: JsonRpcRequest,
)
    requires
        !blank(line),
        response.result is None,
        response.error is None,
    ensures
        line_spec(pending, line, Some(response), Some(call)) == (pending, Inbound::<H>::Notify(call)),
{
}

/// A stray reply changes nothing for the calls still waiting: after a line
/// that decodes as a reply whose id names no pending call, the replies that
/// follow resolve exactly as they would have without it, so each pending
/// call still gets its own reply and no other.
pub proof fn lemma_stray_reply_keeps_pending_calls<H>(
    pending: Map<u64, H>,
    line: Seq<char>,
    stray: JsonRpcResponse,
    as_call: Option<JsonRpcRequest>,
    later: Seq<JsonRpcResponse>,
)
    requires
        !blank(line),
        reply_shaped(stray),
        !names_pending(pending, stray.id),
    ensures
        line_spec(pending, line, Some(stray), as_call).1 == Inbound::<H>::Unmatched(stray),
        resolve_all(line_spec(pending, line, Some(stray), as_call).0, later) == resolve_all(
            pending,
            later,
        ),
{
}

} // verus!
