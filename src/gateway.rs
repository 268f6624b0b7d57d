use crate::bus::Event;
use crate::chat::{new_message_id, now, ChatMessage, Timestamp};
use crate::client::{is_white_space, unicode_white_space};
use crate::entity::{EntityId, Role};
use crate::table::Metadata;
use crate::text::{all_digits, i64_text, int_text, is_digit, lemma_prefix_value_le, value_of};
use std::collections::HashMap;
use vstd::prelude::*;
use vstd::string::*;

verus! {

/// The username a whitelist is checked against: empty for a user without one.
pub open spec fn name_or_empty(username: Option<String>) -> Seq<char> {
    match username {
        Some(n) => n@,
        None => Seq::empty(),
    }
}

/// Whether a user may use the bot: their username is on the whitelist.
pub open spec fn authorized(whitelist: Seq<String>, username: Option<String>) -> bool {
    exists|i: int| 0 <= i < whitelist.len() && (#[trigger] whitelist[i])@ == name_or_empty(username)
}

pub fn is_authorized(whitelist: &Vec<String>, username: &Option<String>) -> (r: bool)
    ensures
        r == authorized(whitelist@, *username),
{
    let name = match username {
        Some(n) => n.clone(),
        None => String::new(),
    };
    let mut i: usize = 0;
    while i < whitelist.len()
        invariant
            i <= whitelist@.len(),
            name@ == name_or_empty(*username),
            forall|j: int| 0 <= j < i ==> (#[trigger] whitelist@[j])@ != name@,
        decreases whitelist@.len() - i,
    {
        if whitelist[i] == name {
            return true;
        }
        i = i + 1;
    }
    false
}

/// `s` without the white space at its start.
pub open spec fn trim_start(s: Seq<char>) -> Seq<char>
    decreases s.len(),
{
    if s.len() > 0 && unicode_white_space(s[0]) {
        trim_start(s.drop_first())
    } else {
        s
    }
}

/// `s` without the white space at its end.
pub open spec fn trim_end(s: Seq<char>) -> Seq<char>
    decreases s.len(),
{
    if s.len() > 0 && unicode_white_space(s.last()) {
        trim_end(s.drop_last())
    } else {
        s
    }
}

/// `s` without white space at either end.
pub open spec fn trim(s: Seq<char>) -> Seq<char> {
    trim_end(trim_start(s))
}

/// A copy of `s` without white space at either end.
pub fn trim_text(s: &str) -> (r: String)
    ensures
        r@ == trim(s@),
{
    let len = s.unicode_len();
    let mut i: usize = 0;
    assert(s@.subrange(0, len as int) =~= s@);
    while i < len && is_white_space(s.get_char(i))
        invariant
            len == s@.len(),
            i <= len,
            trim_start(s@) == trim_start(s@.subrange(i as int, len as int)),
        decreases len - i,
    {
        assert(s@.subrange(i as int, len as int).drop_first() =~= s@.subrange(i as int + 1, len as int));
        i = i + 1;
    }
    let mut j: usize = len;
    while j > i && is_white_space(s.get_char(j - 1))
        invariant
            len == s@.len(),
            i <= j <= len,
            trim_start(s@) == s@.subrange(i as int, len as int),
            trim(s@) == trim_end(s@.subrange(i as int, j as int)),
        decreases j - i,
    {
        assert(s@.subrange(i as int, j as int).drop_last() =~= s@.subrange(i as int, j - 1));
        j = j - 1;
    }
    String::from_str(s.substring_char(i, j))
}

/// The comma-separated pieces of `s`, in order; `s` without a comma is one
/// piece.
pub open spec fn comma_pieces(s: Seq<char>) -> Seq<Seq<char>>
    decreases s.len(),
{
    if s.len() == 0 {
        seq![Seq::empty()]
    } else if s.last() == ',' {
        comma_pieces(s.drop_last()).push(Seq::empty())
    } else {
        let p = comma_pieces(s.drop_last());
        p.update(p.len() - 1, p.last().push(s.last()))
    }
}

proof fn lemma_comma_pieces_nonempty(s: Seq<char>)
    ensures
        comma_pieces(s).len() >= 1,
    decreases s.len(),
{
    if s.len() > 0 {
        lemma_comma_pieces_nonempty(s.drop_last());
    }
}

/// The names of a whitelist written as comma-separated names: each piece
/// trimmed, empty pieces left out.
pub open spec fn whitelist_names(pieces: Seq<Seq<char>>) -> Seq<Seq<char>>
    decreases pieces.len(),
{
    if pieces.len() == 0 {
        Seq::empty()
    } else {
        let rest = whitelist_names(pieces.drop_last());
        if trim(pieces.last()).len() == 0 {
            rest
        } else {
            rest.push(trim(pieces.last()))
        }
    }
}

/// Reads a whitelist written as comma-separated names.
pub fn parse_whitelist(text: &str) -> (r: Vec<String>)
    ensures
        r@.map_values(|n: String| n@) == whitelist_names(comma_pieces(text@)),
{
    let len = text.unicode_len();
    let mut pieces: Vec<String> = Vec::new();
    let mut start: usize = 0;
    let mut i: usize = 0;
    assert(text@.subrange(0, 0) =~= Seq::<char>::empty());
    while i < len
        invariant
            len == text@.len(),
            start <= i <= len,
            comma_pieces(text@.subrange(0, i as int)) == comma_pieces(text@.subrange(0, start as int))
                .update(
                comma_pieces(text@.subrange(0, start as int)).len() - 1,
                text@.subrange(start as int, i as int),
            ),
            start == 0 || text@[start - 1] == ',',
            comma_pieces(text@.subrange(0, start as int)).last() == Seq::<char>::empty(),
            pieces@.map_values(|n: String| n@) == whitelist_names(
                comma_pieces(text@.subrange(0, start as int)).drop_last(),
            ),
        decreases len - i,
    {
        proof {
            lemma_comma_pieces_nonempty(text@.subrange(0, start as int));
            assert(text@.subrange(0, i as int + 1).drop_last() =~= text@.subrange(0, i as int));
        }
        if text.get_char(i) == ',' {
            let piece = trim_text(text.substring_char(start, i));
            let ghost before = comma_pieces(text@.subrange(0, start as int));
            let ghost now = comma_pieces(text@.subrange(0, i as int + 1));
            proof {
                let cur = comma_pieces(text@.subrange(0, i as int));
                assert(now == cur.push(Seq::empty()));
                assert(now.drop_last() == cur);
                assert(cur.drop_last() =~= before.drop_last());
                assert(cur.last() == text@.subrange(start as int, i as int));
                assert(now.last() == Seq::<char>::empty());
            }
            if piece.unicode_len() > 0 {
                let ghost old_pieces = pieces@;
                pieces.push(piece);
                assert(pieces@.map_values(|n: String| n@) =~= old_pieces.map_values(|n: String| n@).push(
                    piece@,
                ));
            }
            start = i + 1;
            proof {
                assert(text@.subrange(0, start as int) == text@.subrange(0, i as int + 1));
                assert(text@.subrange(start as int, start as int) =~= Seq::<char>::empty());
                assert(now.update(now.len() - 1, Seq::<char>::empty()) =~= now);
            }
        } else {
            proof {
                let before = comma_pieces(text@.subrange(0, start as int));
                let cur = comma_pieces(text@.subrange(0, i as int));
                assert(text@.subrange(start as int, i as int + 1) =~= text@.subrange(
                    start as int,
                    i as int,
                ).push(text@[i as int]));
                assert(comma_pieces(text@.subrange(0, i as int + 1)) =~= before.update(
                    before.len() - 1,
                    text@.subrange(start as int, i as int + 1),
                ));
            }
        }
        i = i + 1;
    }
    let piece = trim_text(text.substring_char(start, len));
    proof {
        let all = comma_pieces(text@.subrange(0, len as int));
        assert(text@.subrange(0, len as int) =~= text@);
        lemma_comma_pieces_nonempty(text@.subrange(0, start as int));
        assert(all.drop_last() =~= comma_pieces(text@.subrange(0, start as int)).drop_last());
        assert(all.last() == text@.subrange(start as int, len as int));
    }
    if piece.unicode_len() > 0 {
        let ghost old_pieces = pieces@;
        pieces.push(piece);
        assert(pieces@.map_values(|n: String| n@) =~= old_pieces.map_values(|n: String| n@).push(
            piece@,
        ));
    }
    pieces
}

/// The line of a project in a project list: an arrow for the active one.
pub open spec fn project_line(project: Seq<char>, active: Option<String>) -> Seq<char> {
    if active matches Some(a) && a@ == project {
        "→ "@ + project + "\n"@
    } else {
        "  "@ + project + "\n"@
    }
}

/// The lines of a project list, in order.
pub open spec fn project_lines(projects: Seq<String>, active: Option<String>) -> Seq<char>
    decreases projects.len(),
{
    if projects.len() == 0 {
        Seq::empty()
    } else {
        project_lines(projects.drop_last(), active) + project_line(projects.last()@, active)
    }
}

/// The answer to a request for the project list of a chat whose active
/// project is `active`.
pub open spec fn projects_text(projects: Seq<String>, active: Option<String>) -> Seq<char> {
    if projects.len() == 0 {
        "No projects found."@
    } else if active is Some {
        "Projects (→ = active):\n"@ + project_lines(projects, active)
    } else {
        "Projects:\n"@ + project_lines(projects, active)
    }
}

pub fn projects_reply(projects: &Vec<String>, active: &Option<String>) -> (r: String)
    ensures
        r@ == projects_text(projects@, *active),
{
    if projects.len() == 0 {
        return String::from_str("No projects found.");
    }
    let mut out = match active {
        Some(_) => String::from_str("Projects (→ = active):\n"),
        None => String::from_str("Projects:\n"),
    };
    let ghost header = out@;
    let mut i: usize = 0;
    assert(projects@.subrange(0, 0) =~= Seq::<String>::empty());
    assert(header + Seq::<char>::empty() =~= header);
    while i < projects.len()
        invariant
            i <= projects@.len(),
            out@ == header + project_lines(projects@.subrange(0, i as int), *active),
        decreases projects@.len() - i,
    {
        let p = &projects[i];
        let marked = match active {
            Some(a) => *a == *p,
            None => false,
        };
        if marked {
            out.append("→ ");
        } else {
            out.append("  ");
        }
        out.append(p.as_str());
        out.append("\n");
        proof {
            let s = projects@.subrange(0, i as int + 1);
            assert(s.drop_last() =~= projects@.subrange(0, i as int));
            assert(s.last() == projects@[i as int]);
            assert(out@ =~= header + project_lines(s, *active));
        }
        i = i + 1;
    }
    assert(projects@.subrange(0, projects@.len() as int) =~= projects@);
    out
}

/// The project that an `/enter` command names: its argument trimmed, or
/// nothing when that is empty.
pub fn enter_target(argument: &str) -> (r: Option<String>)
    ensures
        match r {
            Some(p) => p@ == trim(argument@) && p@.len() > 0,
            None => trim(argument@).len() == 0,
        },
{
    let p = trim_text(argument);
    if p.unicode_len() == 0 {
        None
    } else {
        Some(p)
    }
}

/// The project that a button's callback data asks to enter: what follows
/// the prefix `enter:`.
pub open spec fn callback_target(data: Seq<char>) -> Option<Seq<char>> {
    if data.len() >= 6 && data.subrange(0, 6) == "enter:"@ {
        Some(data.subrange(6, data.len() as int))
    } else {
        None
    }
}

pub fn callback_project(data: &str) -> (r: Option<String>)
    ensures
        match r {
            Some(p) => callback_target(data@) == Some(p@),
            None => callback_target(data@) is None,
        },
{
    proof {
        reveal_strlit("enter:");
    }
    let len = data.unicode_len();
    if len < 6 {
        return None;
    }
    let head = String::from_str(data.substring_char(0, 6));
    if !(head == String::from_str("enter:")) {
        return None;
    }
    Some(String::from_str(data.substring_char(6, len)))
}

/// The value a signed decimal denotes, in the form `str::parse` reads: an
/// optional `+` or `-`, then at least one ASCII digit.
pub open spec fn signed_value(s: Seq<char>) -> Option<int> {
    if s.len() > 0 && (s[0] == '+' || s[0] == '-') {
        let digits = s.drop_first();
        if digits.len() > 0 && all_digits(digits) {
            Some(if s[0] == '-' { -value_of(digits) } else { value_of(digits) })
        } else {
            None
        }
    } else if s.len() > 0 && all_digits(s) {
        Some(value_of(s))
    } else {
        None
    }
}

/// Reads a signed decimal as an `i64`: `None` when it is malformed or out of
/// range.
pub fn parse_i64(text: &str) -> (r: Option<i64>)
    ensures
        r == match signed_value(text@) {
            Some(v) => if i64::MIN <= v <= i64::MAX {
                Some(v as i64)
            } else {
                None
            },
            None => None,
        },
{
    let len = text.unicode_len();
    if len == 0 {
        return None;
    }
    let first = text.get_char(0);
    let negative = first == '-';
    let start: usize = if first == '-' || first == '+' { 1 } else { 0 };
    if start == len {
        return None;
    }
    let digits = Ghost(text@.subrange(start as int, len as int));
    proof {
        if start == 1 {
            assert(digits@ =~= text@.drop_first());
        } else {
            assert(digits@ =~= text@);
        }
    }
    let limit: u64 = if negative { 0x8000_0000_0000_0000 } else { 0x7fff_ffff_ffff_ffff };
    let mut value: u64 = 0;
    let mut i: usize = start;
    assert(digits@.subrange(0, 0) =~= Seq::<char>::empty());
    while i < len
        invariant
            len == text@.len(),
            start <= i <= len,
            digits@ == text@.subrange(start as int, len as int),
            all_digits(digits@.subrange(0, i - start)),
            value == value_of(digits@.subrange(0, i - start)),
            value <= limit,
            len > 0,
            start <= 1,
            first == text@[0],
            negative == (first == '-'),
            start == 1 ==> (first == '+' || first == '-') && digits@ == text@.drop_first(),
            start == 0 ==> !(first == '+' || first == '-') && digits@ == text@,
            limit == if negative { 0x8000_0000_0000_0000u64 } else { 0x7fff_ffff_ffff_ffffu64 },
        decreases len - i,
    {
        let c = text.get_char(i);
        if !('0' <= c && c <= '9') {
            proof {
                assert(digits@[i - start] == c);
                assert(!all_digits(digits@));
            }
            return None;
        }
        let d = (c as u32 - 48) as u64;
        proof {
            let p = digits@.subrange(0, i - start + 1);
            assert(p.drop_last() =~= digits@.subrange(0, i - start));
            assert(p.last() == c);
            assert(all_digits(p)) by {
                assert forall|j: int| 0 <= j < p.len() implies is_digit(#[trigger] p[j]) by {
                    if j < i - start {
                        assert(p[j] == digits@.subrange(0, i - start)[j]);
                    }
                }
            }
        }
        if value > (limit - d) / 10 {
            proof {
                let p = digits@.subrange(0, i - start + 1);
                assert(value_of(p) > limit) by (nonlinear_arith)
                    requires
                        value_of(p) == value * 10 + d,
                        value > (limit - d) / 10,
                        d < 10,
                ;
                if all_digits(digits@) {
                    lemma_prefix_value_le(digits@, i - start + 1);
                    assert(value_of(digits@) > limit);
                }
                assert(i64::MIN <= -value_of(digits@) ==> value_of(digits@) <= 0x8000_0000_0000_0000);
            }
            return None;
        }
        proof {
            assert(value * 10 + d <= limit) by (nonlinear_arith)
                requires
                    value <= (limit - d) / 10,
                    d < 10,
            ;
        }
        value = value * 10 + d;
        i = i + 1;
    }
    assert(digits@.subrange(0, len - start) =~= digits@);
    if negative {
        if value == 0x8000_0000_0000_0000 {
            Some(i64::MIN)
        } else {
            Some(-(value as i64))
        }
    } else {
        Some(value as i64)
    }
}

/// The chat a reply of an agent goes to: the `telegram_chat_id` of its
/// metadata, when that reads as a number.
pub fn reply_chat_id(event: &Event) -> (r: Option<i64>)
    ensures
        match event {
            Event::ChatMessage(m) => if m.sender.role == Role::Agent && m.metadata@.contains_key(
                "telegram_chat_id"@,
            ) {
                r == parse_i64_spec(m.metadata@["telegram_chat_id"@]@)
            } else {
                r is None
            },
            _ => r is None,
        },
{
    match event {
        Event::ChatMessage(m) => {
            if m.sender.role != Role::Agent {
                return None;
            }
            match m.metadata.get("telegram_chat_id") {
                Some(text) => parse_i64(text.as_str()),
                None => None,
            }
        },
        _ => None,
    }
}

/// What `parse_i64` reads from `s`.
pub open spec fn parse_i64_spec(s: Seq<char>) -> Option<i64> {
    match signed_value(s) {
        Some(v) => if i64::MIN <= v <= i64::MAX {
            Some(v as i64)
        } else {
            None
        },
        None => None,
    }
}

/// The message that carries a user's text to the agent of `project`: from
/// the user, in the direct chat, with the chat id and the project in its
/// metadata, so that the reply finds its way back.
pub fn user_message_with(
    user_id: i64,
    chat_id: i64,
    project: &String,
    text: &String,
    id: String,
    at: Timestamp,
) -> (r: ChatMessage)
    ensures
        r.id == id,
        r.chat_id matches Some(c) && c@ == "telegram-direct"@,
        r.sender.id@ == int_text(user_id as int),
        r.sender.name@ == "TelegramUser"@,
        r.sender.role == Role::User,
        r.content@ == text@,
        r.timestamp == at,
        r.metadata@.contains_key("telegram_chat_id"@),
        r.metadata@["telegram_chat_id"@]@ == int_text(chat_id as int),
        r.metadata@.contains_key("project_name"@),
        r.metadata@["project_name"@]@ == project@,
        r.metadata@.dom().len() == 2,
{
    let mut metadata = Metadata::new();
    metadata.insert(String::from_str("telegram_chat_id"), i64_text(chat_id));
    metadata.insert(String::from_str("project_name"), project.clone());
    proof {
        reveal_strlit("telegram_chat_id");
        reveal_strlit("project_name");
        assert("telegram_chat_id"@.len() != "project_name"@.len());
        assert(metadata@.dom() =~= set!["telegram_chat_id"@, "project_name"@]);
        assert(metadata@.dom().len() == 2);
    }
    ChatMessage {
        id,
        chat_id: Some(String::from_str("telegram-direct")),
        sender: EntityId::new(i64_text(user_id), String::from_str("TelegramUser"), Role::User),
        content: text.clone(),
        timestamp: at,
        metadata,
    }
}

/// `user_message_with` under a fresh message id and the current time.
pub fn user_message(user_id: i64, chat_id: i64, project: &String, text: &String) -> (r: ChatMessage)
    ensures
        r.id@.len() == 36,
        r.chat_id matches Some(c) && c@ == "telegram-direct"@,
        r.sender.id@ == int_text(user_id as int),
        r.sender.name@ == "TelegramUser"@,
        r.sender.role == Role::User,
        r.content@ == text@,
        r.metadata@.contains_key("telegram_chat_id"@),
        r.metadata@["telegram_chat_id"@]@ == int_text(chat_id as int),
        r.metadata@.contains_key("project_name"@),
        r.metadata@["project_name"@]@ == project@,
        r.metadata@.dom().len() == 2,
{
    user_message_with(user_id, chat_id, project, text, new_message_id(), now())
}

/// The project a chat has entered, and the agent it talks to there.
#[derive(Debug, Clone)]
pub struct ChatContext {
    pub chat_id: i64,
    pub active_project: String,
    pub agent_id: EntityId,
}

impl ChatContext {
    pub fn new(chat_id: i64, project_name: String) -> (r: Self)
        ensures
            r.chat_id == chat_id,
            r.active_project == project_name,
            r.agent_id.id@ == "agent-"@ + project_name@,
            r.agent_id.name@ == "Agent ("@ + project_name@ + ")"@,
            r.agent_id.role == Role::Agent,
    {
        let agent_id = EntityId::new(
            String::from_str("agent-").concat(project_name.as_str()),
            String::from_str("Agent (").concat(project_name.as_str()).concat(")"),
            Role::Agent,
        );
        ChatContext { chat_id, active_project: project_name, agent_id }
    }
}

/// The project each chat has entered.
pub struct ActiveChats {
    chats: HashMap<i64, ChatContext>,
}

impl View for ActiveChats {
    type V = Map<i64, ChatContext>;

    closed spec fn view(&self) -> Map<i64, ChatContext> {
        self.chats@
    }
}

impl ActiveChats {
    pub fn new() -> (r: Self)
        ensures
            r@ == Map::<i64, ChatContext>::empty(),
    {
        ActiveChats { chats: HashMap::new() }
    }

    /// The context of `chat_id`, if it has entered a project.
    pub fn get(&self, chat_id: i64) -> (r: Option<&ChatContext>)
        ensures
            match r {
                Some(c) => self@.contains_key(chat_id) && self@[chat_id] == *c,
                None => !self@.contains_key(chat_id),
            },
    {
        self.chats.get(&chat_id)
    }

    /// Makes `project_name` the active project of `chat_id`.
    pub fn set_active_project(&mut self, chat_id: i64, project_name: String)
        ensures
            final(self)@.dom() == old(self)@.dom().insert(chat_id),
            final(self)@[chat_id].active_project == project_name,
            final(self)@[chat_id].chat_id == chat_id,
            forall|k: i64| k != chat_id && old(self)@.contains_key(k) ==> #[trigger] final(self)@[k]
                == old(self)@[k],
    {
        let context = ChatContext::new(chat_id, project_name);
        self.chats.insert(chat_id, context);
    }
}

/// The sender of a stored message, read back from its stored text: an agent
/// when the text starts with `Agent`, the system for `System (system)`, a
/// user otherwise; id and name are the text itself.
pub open spec fn stored_sender(text: Seq<char>) -> (Role, bool) {
    if text.len() >= 5 && text.subrange(0, 5) == "Agent"@ {
        (Role::Agent, false)
    } else if text == "System (system)"@ {
        (Role::System, true)
    } else {
        (Role::User, false)
    }
}

pub fn sender_from_text(text: &String) -> (r: EntityId)
    ensures
        r.role == stored_sender(text@).0,
        stored_sender(text@).1 ==> r.id@ == "system"@ && r.name@ == "System"@,
        !stored_sender(text@).1 ==> r.id@ == text@ && r.name@ == text@,
{
    proof {
        reveal_strlit("Agent");
    }
    let len = text.as_str().unicode_len();
    if len >= 5 && String::from_str(text.as_str().substring_char(0, 5)) == String::from_str("Agent") {
        EntityId::new(text.clone(), text.clone(), Role::Agent)
    } else if *text == String::from_str("System (system)") {
        EntityId::system()
    } else {
        EntityId::new(text.clone(), text.clone(), Role::User)
    }
}

} // verus!
