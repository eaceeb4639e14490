//! The shapes of messages on the wire: the chat-completions message, the
//! Anthropic messages request and response, and the Responses API input
//! and output, and how conversation messages become them and back.
//! JSON values are carried as their text; reading and printing them is
//! serde_json's work.

use vstd::prelude::*;
use crate::api::Usage;
use crate::runtime::{
    calls_view, role_name, MessageView, RuntimeMessage, RuntimeRole, RuntimeToolCall,
    RuntimeToolResult, ToolCallView, ToolResultView,
};
use crate::stream::{json_reformat, reformat_json};
use crate::text::{clone_opt, concat, join, join_strs, opt_view, str_eq, views};

verus! {

/// How a tool call's arguments come in an API message: as a JSON string
/// (the usual form), or as a JSON value of another kind, given as its
/// compact text.
#[derive(Debug, Clone, PartialEq, Eq)]
pub enum ApiArguments {
    Text(String),
    Value(String),
}

/// A tool call as the chat APIs carry it: `{"id", "type": "function",
/// "function": {"name", "arguments"}}`.
#[derive(Debug, Clone, PartialEq, Eq)]
pub struct ApiToolCall {
    pub id: String,
    pub name: String,
    pub arguments: ApiArguments,
}

/// A message in the chat-completions format.
#[derive(Debug, Clone, PartialEq, Eq)]
pub struct ChatMessage {
    pub role: String,
    pub content: String,
    pub tool_calls: Option<Vec<ApiToolCall>>,
    pub tool_call_id: Option<String>,
    pub name: Option<String>,
}

/// A hexadecimal digit, in lower case.
pub open spec fn hex_digit(n: u32) -> char {
    match n {
        0 => '0',
        1 => '1',
        2 => '2',
        3 => '3',
        4 => '4',
        5 => '5',
        6 => '6',
        7 => '7',
        8 => '8',
        9 => '9',
        10 => 'a',
        11 => 'b',
        12 => 'c',
        13 => 'd',
        14 => 'e',
        _ => 'f',
    }
}

/// How a character is written inside a JSON string: quote and backslash
/// are escaped, the five common control characters get their short
/// escapes, the other control characters (below U+0020) a `\u00XX`
/// escape, and everything else stands as it is.
pub open spec fn json_char_escape(c: char) -> Seq<char> {
    if c == '"' {
        seq!['\\', '"']
    } else if c == '\\' {
        seq!['\\', '\\']
    } else if c == '\n' {
        seq!['\\', 'n']
    } else if c == '\r' {
        seq!['\\', 'r']
    } else if c == '\t' {
        seq!['\\', 't']
    } else if c == '\u{8}' {
        seq!['\\', 'b']
    } else if c == '\u{c}' {
        seq!['\\', 'f']
    } else if (c as u32) < 0x20 {
        seq!['\\', 'u', '0', '0', hex_digit((c as u32) / 16), hex_digit((c as u32) % 16)]
    } else {
        seq![c]
    }
}

/// The body of a JSON string holding `s`.
pub open spec fn json_escape(s: Seq<char>) -> Seq<char>
    decreases s.len(),
{
    if s.len() == 0 {
        Seq::empty()
    } else {
        json_escape(s.drop_last()) + json_char_escape(s.last())
    }
}

/// The JSON text of the object `{"raw": text}`, compact.
pub open spec fn raw_arguments_json(text: Seq<char>) -> Seq<char> {
    "{\"raw\":\""@ + json_escape(text) + "\"}"@
}

fn hex_digit_exec(n: u32) -> (c: char)
    requires
        n < 16,
    ensures
        c == hex_digit(n),
{
    match n {
        0 => '0',
        1 => '1',
        2 => '2',
        3 => '3',
        4 => '4',
        5 => '5',
        6 => '6',
        7 => '7',
        8 => '8',
        9 => '9',
        10 => 'a',
        11 => 'b',
        12 => 'c',
        13 => 'd',
        14 => 'e',
        _ => 'f',
    }
}

/// Appends how `c` is written inside a JSON string.
fn push_json_char(out: &mut Vec<char>, c: char)
    ensures
        final(out)@ == old(out)@ + json_char_escape(c),
{
    let ghost before = out@;
    if c == '"' {
        out.push('\\');
        out.push('"');
    } else if c == '\\' {
        out.push('\\');
        out.push('\\');
    } else if c == '\n' {
        out.push('\\');
        out.push('n');
    } else if c == '\r' {
        out.push('\\');
        out.push('r');
    } else if c == '\t' {
        out.push('\\');
        out.push('t');
    } else if c == '\u{8}' {
        out.push('\\');
        out.push('b');
    } else if c == '\u{c}' {
        out.push('\\');
        out.push('f');
    } else if (c as u32) < 0x20 {
        let n = c as u32;
        out.push('\\');
        out.push('u');
        out.push('0');
        out.push('0');
        out.push(hex_digit_exec(n / 16));
        out.push(hex_digit_exec(n % 16));
    } else {
        out.push(c);
    }
    assert(out@ =~= before + json_char_escape(c));
}

/// The JSON text of the object `{"raw": text}`, the shape that keeps tool
/// arguments which are not JSON.
pub fn raw_arguments(text: &str) -> (r: String)
    ensures
        r@ == raw_arguments_json(text@),
{
    let v = crate::text::chars_of(text);
    let mut out: Vec<char> = Vec::new();
    let mut i: usize = 0;
    while i < v.len()
        invariant
            i <= v.len(),
            v@ == text@,
            out@ == json_escape(v@.subrange(0, i as int)),
        decreases v.len() - i,
    {
        let ghost pre = v@.subrange(0, i + 1);
        assert(pre.drop_last() =~= v@.subrange(0, i as int));
        push_json_char(&mut out, v[i]);
        i = i + 1;
    }
    assert(v@.subrange(0, v.len() as int) =~= v@);
    let body = crate::text::string_of(&out);
    let mut r = String::from_str("{\"raw\":\"");
    r.append(body.as_str());
    r.append("\"}");
    r
}

/// The JSON text of arguments as read: a JSON string is parsed (and kept
/// as `{"raw": ...}` when it is not JSON); another value stands as it is.
pub open spec fn arguments_json(a: ApiArguments) -> Seq<char> {
    match a {
        ApiArguments::Text(t) => match json_reformat(t@) {
            Ok(v) => v,
            Err(_) => raw_arguments_json(t@),
        },
        ApiArguments::Value(v) => v@,
    }
}

fn arguments_text(a: &ApiArguments) -> (r: String)
    ensures
        r@ == arguments_json(*a),
{
    match a {
        ApiArguments::Text(t) => match reformat_json(t.as_str()) {
            Ok(v) => v,
            Err(_) => raw_arguments(t.as_str()),
        },
        ApiArguments::Value(v) => v.clone(),
    }
}

/// The runtime tool call an API tool call describes.
pub open spec fn runtime_call_of(c: ApiToolCall) -> ToolCallView {
    ToolCallView { id: c.id@, name: c.name@, arguments: arguments_json(c.arguments) }
}

/// The API tool call of a runtime tool call: its arguments as a JSON
/// string.
pub open spec fn api_call_of(c: ToolCallView) -> (Seq<char>, Seq<char>, Seq<char>) {
    (c.id, c.name, c.arguments)
}

/// The view of an API tool call whose arguments are text.
pub open spec fn api_call_view(c: ApiToolCall) -> (Seq<char>, Seq<char>, Seq<char>) {
    match c.arguments {
        ApiArguments::Text(t) => (c.id@, c.name@, t@),
        ApiArguments::Value(v) => (c.id@, c.name@, v@),
    }
}

/// The chat message of a conversation message: its role's name; a tool
/// result's text, call id and tool name, or else the message's text; its
/// tool calls with their arguments as JSON strings, or none when it makes
/// none.
pub open spec fn chat_of_spec(m: MessageView, c: ChatMessage) -> bool {
    &&& c.role@ == role_name(m.role)
    &&& match m.tool_result {
        Some(r) => c.content@ == r.content && opt_view(c.tool_call_id) == Some(r.tool_call_id)
            && opt_view(c.name) == Some(r.name),
        None => c.content@ == m.content && c.tool_call_id is None && c.name is None,
    }
    &&& match c.tool_calls {
        None => m.tool_calls.len() == 0,
        Some(v) => {
            &&& m.tool_calls.len() > 0
            &&& v@.len() == m.tool_calls.len()
            &&& forall|i: int| 0 <= i < v@.len() ==> (#[trigger] v@[i]).arguments is Text
                && api_call_view(v@[i]) == api_call_of(m.tool_calls[i])
        }
    }
}

/// The chat message of a conversation message.
pub fn chat_message_of(m: &RuntimeMessage) -> (c: ChatMessage)
    ensures
        chat_of_spec(m@, c),
{
    let tool_calls = if m.tool_calls.len() == 0 {
        None
    } else {
        let mut v: Vec<ApiToolCall> = Vec::new();
        let mut i: usize = 0;
        while i < m.tool_calls.len()
            invariant
                i <= m.tool_calls.len(),
                v@.len() == i,
                forall|j: int| 0 <= j < i ==> (#[trigger] v@[j]).arguments is Text && api_call_view(v@[j])
                    == api_call_of(calls_view(m.tool_calls@)[j]),
            decreases m.tool_calls.len() - i,
        {
            let c = &m.tool_calls[i];
            v.push(
                ApiToolCall {
                    id: c.id.clone(),
                    name: c.name.clone(),
                    arguments: ApiArguments::Text(c.arguments.clone()),
                },
            );
            i = i + 1;
        }
        Some(v)
    };
    let (content, tool_call_id, name) = match &m.tool_result {
        Some(r) => (r.content.clone(), Some(r.tool_call_id.clone()), Some(r.name.clone())),
        None => (m.content.clone(), None, None),
    };
    ChatMessage {
        role: String::from_str(m.role.as_str()),
        content,
        tool_calls,
        tool_call_id,
        name,
    }
}

/// The role a chat message's role name means: `system`, `assistant` and
/// `tool` as named, anything else a user.
pub open spec fn role_of_name(n: Seq<char>) -> RuntimeRole {
    if n == "system"@ {
        RuntimeRole::System
    } else if n == "assistant"@ {
        RuntimeRole::Assistant
    } else if n == "tool"@ {
        RuntimeRole::Tool
    } else {
        RuntimeRole::User
    }
}

/// The tool calls a chat message lists.
pub open spec fn listed_calls(c: ChatMessage) -> Seq<ApiToolCall> {
    match c.tool_calls {
        Some(v) => v@,
        None => Seq::empty(),
    }
}

/// The conversation message a chat message describes: its role, text and
/// tool calls; a tool message with a call id also carries the result
/// (named `tool` when the message names no tool).
pub open spec fn runtime_of_spec(c: ChatMessage) -> MessageView {
    let role = role_of_name(c.role@);
    MessageView {
        role,
        content: c.content@,
        tool_calls: listed_calls(c).map_values(|t: ApiToolCall| runtime_call_of(t)),
        tool_result: if role == RuntimeRole::Tool {
            match opt_view(c.tool_call_id) {
                Some(id) => Some(
                    ToolResultView {
                        tool_call_id: id,
                        name: match opt_view(c.name) {
                            Some(n) => n,
                            None => "tool"@,
                        },
                        content: c.content@,
                        is_error: false,
                    },
                ),
                None => None,
            }
        } else {
            None
        },
    }
}

/// The conversation message a chat message describes.
pub fn runtime_message_of(c: &ChatMessage) -> (m: RuntimeMessage)
    ensures
        m@ == runtime_of_spec(*c),
{
    proof {
        reveal_strlit("tool");
    }
    let role = if str_eq(c.role.as_str(), "system") {
        RuntimeRole::System
    } else if str_eq(c.role.as_str(), "assistant") {
        RuntimeRole::Assistant
    } else if str_eq(c.role.as_str(), "tool") {
        RuntimeRole::Tool
    } else {
        RuntimeRole::User
    };
    let mut calls: Vec<RuntimeToolCall> = Vec::new();
    let ghost src = listed_calls(*c);
    match &c.tool_calls {
        Some(v) => {
            let mut i: usize = 0;
            while i < v.len()
                invariant
                    i <= v.len(),
                    src == v@,
                    calls_view(calls@) == src.subrange(0, i as int).map_values(
                        |t: ApiToolCall| runtime_call_of(t),
                    ),
                decreases v.len() - i,
            {
                let t = &v[i];
                let arguments = arguments_text(&t.arguments);
                let ghost before = calls_view(calls@);
                let call = RuntimeToolCall { id: t.id.clone(), name: t.name.clone(), arguments };
                assert(call@ == runtime_call_of(src[i as int]));
                calls.push(call);
                assert(calls_view(calls@) =~= before.push(runtime_call_of(src[i as int])));
                assert(src.subrange(0, i + 1).map_values(|t: ApiToolCall| runtime_call_of(t)) =~= src.subrange(
                    0,
                    i as int,
                ).map_values(|t: ApiToolCall| runtime_call_of(t)).push(runtime_call_of(src[i as int])));
                assert(calls_view(calls@) =~= src.subrange(0, i + 1).map_values(
                    |t: ApiToolCall| runtime_call_of(t),
                ));
                i = i + 1;
            }
            assert(src.subrange(0, v.len() as int) =~= src);
        },
        None => {
            assert(calls_view(calls@) =~= Seq::<ToolCallView>::empty());
        },
    }
    let tool_result = if role == RuntimeRole::Tool {
        match &c.tool_call_id {
            Some(id) => Some(
                RuntimeToolResult {
                    tool_call_id: id.clone(),
                    name: match &c.name {
                        Some(n) => n.clone(),
                        None => String::from_str("tool"),
                    },
                    content: c.content.clone(),
                    is_error: false,
                },
            ),
            None => None,
        }
    } else {
        None
    };
    assert(role == role_of_name(c.role@));
    assert(calls_view(calls@) == listed_calls(*c).map_values(|t: ApiToolCall| runtime_call_of(t)));
    assert(crate::runtime::result_view(tool_result) == runtime_of_spec(*c).tool_result);
    RuntimeMessage { role, content: c.content.clone(), tool_calls: calls, tool_result }
}

/// A content block of an Anthropic request message.
#[derive(Debug, Clone, PartialEq, Eq)]
pub enum AnthropicContentBlock {
    Text(String),
    /// A tool use with its input as JSON text.
    ToolUse { id: String, name: String, input: String },
    /// A tool result: the text of a successful call.
    ToolResult { tool_use_id: String, text: String },
}

/// The mathematical value of an Anthropic content block.
pub enum BlockSpec {
    Text(Seq<char>),
    ToolUse { id: Seq<char>, name: Seq<char>, input: Seq<char> },
    ToolResult { tool_use_id: Seq<char>, text: Seq<char> },
}

impl View for AnthropicContentBlock {
    type V = BlockSpec;

    open spec fn view(&self) -> BlockSpec {
        match self {
            AnthropicContentBlock::Text(t) => BlockSpec::Text(t@),
            AnthropicContentBlock::ToolUse { id, name, input } => BlockSpec::ToolUse {
                id: id@,
                name: name@,
                input: input@,
            },
            AnthropicContentBlock::ToolResult { tool_use_id, text } => BlockSpec::ToolResult {
                tool_use_id: tool_use_id@,
                text: text@,
            },
        }
    }
}

/// A message of an Anthropic request.
#[derive(Debug, Clone, PartialEq, Eq)]
pub struct AnthropicMessage {
    pub role: String,
    pub content: Vec<AnthropicContentBlock>,
}

/// The mathematical value of an Anthropic message.
pub struct AnthropicMessageSpec {
    pub role: Seq<char>,
    pub content: Seq<BlockSpec>,
}

impl View for AnthropicMessage {
    type V = AnthropicMessageSpec;

    open spec fn view(&self) -> AnthropicMessageSpec {
        AnthropicMessageSpec {
            role: self.role@,
            content: self.content@.map_values(|b: AnthropicContentBlock| b@),
        }
    }
}

/// The tool-use block of an API tool call.
pub open spec fn tool_use_block(c: ApiToolCall) -> BlockSpec {
    BlockSpec::ToolUse { id: c.id@, name: c.name@, input: arguments_json(c.arguments) }
}

/// The blocks of a user or assistant message: its text unless empty,
/// then a tool use per tool call; an empty text block when that leaves
/// nothing.
pub open spec fn message_blocks(c: ChatMessage) -> Seq<BlockSpec> {
    let text: Seq<BlockSpec> = if c.content@.len() == 0 {
        Seq::empty()
    } else {
        seq![BlockSpec::Text(c.content@)]
    };
    let all = text + listed_calls(c).map_values(|t: ApiToolCall| tool_use_block(t));
    if all.len() == 0 {
        seq![BlockSpec::Text(Seq::empty())]
    } else {
        all
    }
}

/// The Anthropic message a chat message becomes: a tool message is the
/// user's tool result; an assistant message stays the assistant's; any
/// other (but system) message is the user's.
pub open spec fn anthropic_message_spec(c: ChatMessage) -> AnthropicMessageSpec {
    if c.role@ == "tool"@ {
        AnthropicMessageSpec {
            role: "user"@,
            content: seq![
                BlockSpec::ToolResult {
                    tool_use_id: match opt_view(c.tool_call_id) {
                        Some(id) => id,
                        None => Seq::empty(),
                    },
                    text: c.content@,
                },
            ],
        }
    } else if c.role@ == "assistant"@ {
        AnthropicMessageSpec { role: "assistant"@, content: message_blocks(c) }
    } else {
        AnthropicMessageSpec { role: "user"@, content: message_blocks(c) }
    }
}

fn blocks_of(c: &ChatMessage) -> (r: Vec<AnthropicContentBlock>)
    ensures
        r@.map_values(|b: AnthropicContentBlock| b@) == message_blocks(*c),
{
    let ghost src = listed_calls(*c);
    let mut out: Vec<AnthropicContentBlock> = Vec::new();
    if !c.content.as_str().is_empty() {
        out.push(AnthropicContentBlock::Text(c.content.clone()));
    }
    let ghost text_part = out@.map_values(|b: AnthropicContentBlock| b@);
    assert(text_part =~= if c.content@.len() == 0 {
        Seq::<BlockSpec>::empty()
    } else {
        seq![BlockSpec::Text(c.content@)]
    });
    match &c.tool_calls {
        Some(v) => {
            let mut i: usize = 0;
            while i < v.len()
                invariant
                    i <= v.len(),
                    src == v@,
                    out@.map_values(|b: AnthropicContentBlock| b@) == text_part + src.subrange(
                        0,
                        i as int,
                    ).map_values(|t: ApiToolCall| tool_use_block(t)),
                decreases v.len() - i,
            {
                let t = &v[i];
                let input = arguments_text(&t.arguments);
                let b = AnthropicContentBlock::ToolUse { id: t.id.clone(), name: t.name.clone(), input };
                assert(b@ == tool_use_block(src[i as int]));
                let ghost before = out@.map_values(|b: AnthropicContentBlock| b@);
                out.push(b);
                assert(out@.map_values(|b: AnthropicContentBlock| b@) =~= before.push(
                    tool_use_block(src[i as int]),
                ));
                assert(src.subrange(0, i + 1).map_values(|t: ApiToolCall| tool_use_block(t))
                    =~= src.subrange(0, i as int).map_values(|t: ApiToolCall| tool_use_block(t)).push(
                    tool_use_block(src[i as int]),
                ));
                assert(text_part + src.subrange(0, i + 1).map_values(|t: ApiToolCall| tool_use_block(t))
                    =~= (text_part + src.subrange(0, i as int).map_values(
                    |t: ApiToolCall| tool_use_block(t),
                )).push(tool_use_block(src[i as int])));
                i = i + 1;
            }
            assert(src.subrange(0, v.len() as int) =~= src);
        },
        None => {
            assert(src.map_values(|t: ApiToolCall| tool_use_block(t)) =~= Seq::<BlockSpec>::empty());
            assert(text_part + Seq::<BlockSpec>::empty() =~= text_part);
        },
    }
    if out.len() == 0 {
        out.push(AnthropicContentBlock::Text(String::new()));
        assert(out@.map_values(|b: AnthropicContentBlock| b@) =~= seq![BlockSpec::Text(Seq::empty())]);
    }
    out
}

/// The Anthropic message a (non-system) chat message becomes.
pub fn anthropic_message_of(c: &ChatMessage) -> (r: AnthropicMessage)
    ensures
        r@ == anthropic_message_spec(*c),
{
    proof {
        reveal_strlit("tool");
        reveal_strlit("assistant");
        reveal_strlit("user");
    }
    if str_eq(c.role.as_str(), "tool") {
        let id = match &c.tool_call_id {
            Some(id) => id.clone(),
            None => String::new(),
        };
        let content = vec![AnthropicContentBlock::ToolResult { tool_use_id: id, text: c.content.clone() }];
        let r = AnthropicMessage { role: String::from_str("user"), content };
        assert(r@.content =~= anthropic_message_spec(*c).content);
        r
    } else if str_eq(c.role.as_str(), "assistant") {
        AnthropicMessage { role: String::from_str("assistant"), content: blocks_of(c) }
    } else {
        AnthropicMessage { role: String::from_str("user"), content: blocks_of(c) }
    }
}

/// The system texts of a conversation, in order.
pub open spec fn system_texts(ms: Seq<ChatMessage>) -> Seq<Seq<char>>
    decreases ms.len(),
{
    if ms.len() == 0 {
        Seq::empty()
    } else if ms.last().role@ == "system"@ {
        system_texts(ms.drop_last()).push(ms.last().content@)
    } else {
        system_texts(ms.drop_last())
    }
}

/// The messages of an Anthropic request, in order: every non-system
/// message converted.
pub open spec fn anthropic_messages_spec(ms: Seq<ChatMessage>) -> Seq<AnthropicMessageSpec>
    decreases ms.len(),
{
    if ms.len() == 0 {
        Seq::empty()
    } else if ms.last().role@ == "system"@ {
        anthropic_messages_spec(ms.drop_last())
    } else {
        anthropic_messages_spec(ms.drop_last()).push(anthropic_message_spec(ms.last()))
    }
}

/// A conversation as an Anthropic request takes it: the system texts
/// joined by blank lines (none when there are none), and the other
/// messages converted, in order.
pub fn to_anthropic_messages(messages: &Vec<ChatMessage>) -> (r: (Option<String>, Vec<AnthropicMessage>))
    ensures
        opt_view(r.0) == if system_texts(messages@).len() == 0 {
            None
        } else {
            Some(join(system_texts(messages@), "\n\n"@))
        },
        r.1@.map_values(|m: AnthropicMessage| m@) == anthropic_messages_spec(messages@),
{
    proof {
        reveal_strlit("system");
    }
    let ghost ms = messages@;
    let mut system: Vec<String> = Vec::new();
    let mut out: Vec<AnthropicMessage> = Vec::new();
    let mut i: usize = 0;
    assert(ms.subrange(0, 0) =~= Seq::<ChatMessage>::empty());
    assert(views(system@) =~= Seq::<Seq<char>>::empty());
    assert(out@.map_values(|m: AnthropicMessage| m@) =~= Seq::<AnthropicMessageSpec>::empty());
    while i < messages.len()
        invariant
            i <= messages.len(),
            ms == messages@,
            views(system@) == system_texts(ms.subrange(0, i as int)),
            out@.map_values(|m: AnthropicMessage| m@) == anthropic_messages_spec(ms.subrange(0, i as int)),
        decreases messages.len() - i,
    {
        let ghost sub = ms.subrange(0, i + 1);
        assert(sub.drop_last() =~= ms.subrange(0, i as int));
        assert(sub.last() == messages@[i as int]);
        let m = &messages[i];
        if str_eq(m.role.as_str(), "system") {
            let ghost before = views(system@);
            system.push(m.content.clone());
            assert(views(system@) =~= before.push(m.content@));
        } else {
            let a = anthropic_message_of(m);
            let ghost before = out@.map_values(|m: AnthropicMessage| m@);
            out.push(a);
            assert(out@.map_values(|m: AnthropicMessage| m@) =~= before.push(a@));
        }
        i = i + 1;
    }
    assert(ms.subrange(0, messages.len() as int) =~= ms);
    let joined = if system.len() == 0 {
        None
    } else {
        Some(join_strs(&system, "\n\n"))
    };
    (joined, out)
}

/// The input of a Responses API request: every message but tool
/// messages, as role and text.
pub open spec fn responses_input_spec(ms: Seq<ChatMessage>) -> Seq<(Seq<char>, Seq<char>)>
    decreases ms.len(),
{
    if ms.len() == 0 {
        Seq::empty()
    } else if ms.last().role@ == "tool"@ {
        responses_input_spec(ms.drop_last())
    } else {
        responses_input_spec(ms.drop_last()).push((ms.last().role@, ms.last().content@))
    }
}

/// The input of a Responses API request, as role and text pairs.
pub fn responses_input(messages: &Vec<ChatMessage>) -> (r: Vec<(String, String)>)
    ensures
        r@.map_values(|p: (String, String)| (p.0@, p.1@)) == responses_input_spec(messages@),
{
    proof {
        reveal_strlit("tool");
    }
    let ghost ms = messages@;
    let mut out: Vec<(String, String)> = Vec::new();
    let mut i: usize = 0;
    assert(out@.map_values(|p: (String, String)| (p.0@, p.1@)) =~= responses_input_spec(ms.subrange(0, 0)));
    while i < messages.len()
        invariant
            i <= messages.len(),
            ms == messages@,
            out@.map_values(|p: (String, String)| (p.0@, p.1@)) == responses_input_spec(
                ms.subrange(0, i as int),
            ),
        decreases messages.len() - i,
    {
        let ghost sub = ms.subrange(0, i + 1);
        assert(sub.drop_last() =~= ms.subrange(0, i as int));
        assert(sub.last() == messages@[i as int]);
        let m = &messages[i];
        if !str_eq(m.role.as_str(), "tool") {
            let p = (m.role.clone(), m.content.clone());
            let ghost before = out@.map_values(|p: (String, String)| (p.0@, p.1@));
            out.push(p);
            assert(out@.map_values(|p: (String, String)| (p.0@, p.1@)) =~= before.push(
                (m.role@, m.content@),
            ));
        }
        i = i + 1;
    }
    assert(ms.subrange(0, messages.len() as int) =~= ms);
    out
}

/// Token counts as the Responses API reports them.
#[derive(Debug, Clone, Copy, PartialEq, Eq)]
pub struct ResponsesUsage {
    pub input_tokens: usize,
    pub output_tokens: usize,
    pub total_tokens: Option<usize>,
}

/// The usage record of Responses API counts: the reported total, or the
/// sum of input and output when none is reported.
pub open spec fn responses_usage_spec(u: ResponsesUsage) -> Usage {
    Usage {
        prompt_tokens: u.input_tokens,
        completion_tokens: u.output_tokens,
        total_tokens: match u.total_tokens {
            Some(t) => t,
            None => (u.input_tokens + u.output_tokens) as usize,
        },
    }
}

/// The usage record of Responses API counts.
pub fn responses_usage(u: ResponsesUsage) -> (r: Usage)
    requires
        u.total_tokens is None ==> u.input_tokens + u.output_tokens <= usize::MAX,
    ensures
        r == responses_usage_spec(u),
{
    Usage {
        prompt_tokens: u.input_tokens,
        completion_tokens: u.output_tokens,
        total_tokens: match u.total_tokens {
            Some(t) => t,
            None => u.input_tokens + u.output_tokens,
        },
    }
}

/// The texts of output items, joined end to end.
pub open spec fn output_texts(items: Seq<Seq<Option<String>>>) -> Seq<char>
    decreases items.len(),
{
    if items.len() == 0 {
        Seq::empty()
    } else {
        output_texts(items.drop_last()) + item_texts(items.last())
    }
}

/// The texts of one output item's content, joined.
pub open spec fn item_texts(blocks: Seq<Option<String>>) -> Seq<char>
    decreases blocks.len(),
{
    if blocks.len() == 0 {
        Seq::empty()
    } else {
        item_texts(blocks.drop_last()) + match blocks.last() {
            Some(t) => t@,
            None => Seq::empty(),
        }
    }
}

fn append_item(out: &mut String, blocks: &Vec<Option<String>>)
    ensures
        final(out)@ == old(out)@ + item_texts(blocks@),
{
    let mut k: usize = 0;
    assert(blocks@.subrange(0, 0) =~= Seq::<Option<String>>::empty());
    assert(old(out)@ + Seq::<char>::empty() =~= old(out)@);
    while k < blocks.len()
        invariant
            k <= blocks.len(),
            out@ == old(out)@ + item_texts(blocks@.subrange(0, k as int)),
        decreases blocks.len() - k,
    {
        let ghost sub = blocks@.subrange(0, k + 1);
        assert(sub.drop_last() =~= blocks@.subrange(0, k as int));
        match &blocks[k] {
            Some(t) => {
                out.append(t.as_str());
                assert(old(out)@ + item_texts(sub) =~= old(out)@ + item_texts(blocks@.subrange(0, k as int)) + t@);
            },
            None => {
                assert(item_texts(sub) =~= item_texts(blocks@.subrange(0, k as int)));
            },
        }
        k = k + 1;
    }
    assert(blocks@.subrange(0, blocks.len() as int) =~= blocks@);
}

/// The text of a Responses API reply: its `output_text` when given, else
/// the texts of its output items joined.
pub fn responses_output_text(output_text: &Option<String>, output: &Vec<Vec<Option<String>>>) -> (r: String)
    ensures
        r@ == match opt_view(*output_text) {
            Some(t) => t,
            None => output_texts(output@.map_values(|v: Vec<Option<String>>| v@)),
        },
{
    match output_text {
        Some(t) => t.clone(),
        None => {
            let mut out = String::new();
            let mut i: usize = 0;
            assert(output@.subrange(0, 0) =~= Seq::<Vec<Option<String>>>::empty());
            while i < output.len()
                invariant
                    i <= output.len(),
                    out@ == output_texts(output@.subrange(0, i as int).map_values(
                        |v: Vec<Option<String>>| v@,
                    )),
                decreases output.len() - i,
            {
                let ghost sub = output@.subrange(0, i + 1).map_values(|v: Vec<Option<String>>| v@);
                assert(sub.drop_last() =~= output@.subrange(0, i as int).map_values(
                    |v: Vec<Option<String>>| v@,
                ));
                assert(sub.last() == output@[i as int]@);
                append_item(&mut out, &output[i]);
                i = i + 1;
            }
            assert(output@.subrange(0, output.len() as int).map_values(|v: Vec<Option<String>>| v@)
                =~= output@.map_values(|v: Vec<Option<String>>| v@));
            out
        },
    }
}

/// One choice of a chat reply.
#[derive(Debug, Clone, PartialEq, Eq)]
pub struct Choice {
    pub index: i32,
    pub message: ChatMessage,
    pub finish_reason: Option<String>,
}

/// A chat reply in the chat-completions format.
#[derive(Debug, Clone, PartialEq, Eq)]
pub struct ChatResponse {
    pub id: String,
    pub object: String,
    pub created: i64,
    pub model: String,
    pub choices: Vec<Choice>,
    pub usage: Option<Usage>,
}

/// The assistant's chat message with the given text and no tool calls.
pub open spec fn assistant_text_message(c: ChatMessage, text: Seq<char>) -> bool {
    &&& c.role@ == "assistant"@
    &&& c.content@ == text
    &&& c.tool_call_id is None
    &&& c.name is None
}

/// The chat message of an assistant's reply: its text and, when it makes
/// any, its tool calls with their arguments as JSON strings.
pub fn assistant_chat_message(content: String, calls: &Vec<RuntimeToolCall>) -> (c: ChatMessage)
    ensures
        assistant_text_message(c, content@),
        match c.tool_calls {
            None => calls@.len() == 0,
            Some(v) => {
                &&& calls@.len() > 0
                &&& v@.len() == calls@.len()
                &&& forall|i: int| 0 <= i < v@.len() ==> (#[trigger] v@[i]).arguments is Text
                    && api_call_view(v@[i]) == api_call_of(calls@[i]@)
            },
        },
{
    proof {
        reveal_strlit("assistant");
    }
    let m = RuntimeMessage {
        role: RuntimeRole::Assistant,
        content,
        tool_calls: crate::runtime::clone_calls(calls),
        tool_result: None,
    };
    let c = chat_message_of(&m);
    proof {
        assert(role_name(RuntimeRole::Assistant) == "assistant"@);
        if c.tool_calls is Some {
            let v = c.tool_calls->0;
            assert forall|i: int| 0 <= i < v@.len() implies (#[trigger] v@[i]).arguments is Text
                && api_call_view(v@[i]) == api_call_of(calls@[i]@) by {
                assert(calls_view(m.tool_calls@)[i] == calls_view(calls@)[i]);
            }
        }
    }
    c
}

/// The gateway's view of a chat reply: the first choice's message (as a
/// conversation message) and finish reason, the usage and the model.
pub fn gateway_response_of(r: &ChatResponse) -> (g: crate::query::GatewayResponse)
    ensures
        g.model@ == r.model@,
        g.usage == match r.usage {
            Some(u) => Some(
                crate::runtime::RuntimeUsage {
                    prompt_tokens: u.prompt_tokens,
                    completion_tokens: u.completion_tokens,
                    total_tokens: u.total_tokens,
                },
            ),
            None => None,
        },
        if r.choices@.len() == 0 {
            g.assistant_message is None && g.finish_reason is None
        } else {
            &&& g.assistant_message matches Some(m) && m@ == runtime_of_spec(r.choices@[0].message)
            &&& opt_view(g.finish_reason) == opt_view(r.choices@[0].finish_reason)
        },
{
    let usage = match &r.usage {
        Some(u) => Some(
            crate::runtime::RuntimeUsage {
                prompt_tokens: u.prompt_tokens,
                completion_tokens: u.completion_tokens,
                total_tokens: u.total_tokens,
            },
        ),
        None => None,
    };
    if r.choices.len() == 0 {
        crate::query::GatewayResponse {
            assistant_message: None,
            usage,
            model: r.model.clone(),
            finish_reason: None,
        }
    } else {
        let choice = &r.choices[0];
        crate::query::GatewayResponse {
            assistant_message: Some(runtime_message_of(&choice.message)),
            usage,
            model: r.model.clone(),
            finish_reason: clone_opt(&choice.finish_reason),
        }
    }
}

impl crate::stream::StreamedReply {
    /// The chat reply of a streamed reply: one choice, the assistant's
    /// message with the text and tool calls gathered.
    pub fn into_chat_response(self) -> (r: ChatResponse)
        ensures
            r.id@ == self.id@,
            r.object@ == self.object@,
            r.created == self.created,
            r.model@ == self.model@,
            r.usage == self.usage,
            r.choices@.len() == 1,
            r.choices@[0].index == 0,
            opt_view(r.choices@[0].finish_reason) == opt_view(self.finish_reason),
            assistant_text_message(r.choices@[0].message, self.content@),
            match r.choices@[0].message.tool_calls {
                None => self.tool_calls@.len() == 0,
                Some(v) => {
                    &&& self.tool_calls@.len() > 0
                    &&& v@.len() == self.tool_calls@.len()
                    &&& forall|i: int| 0 <= i < v@.len() ==> (#[trigger] v@[i]).arguments is Text
                        && api_call_view(v@[i]) == api_call_of(self.tool_calls@[i]@)
                },
            },
    {
        let message = assistant_chat_message(self.content, &self.tool_calls);
        ChatResponse {
            id: self.id,
            object: self.object,
            created: self.created,
            model: self.model,
            choices: vec![Choice { index: 0, message, finish_reason: self.finish_reason }],
            usage: self.usage,
        }
    }
}

/// The chat reply of a Responses API reply: one choice holding the reply's
/// text with the finish reason `stop`; the creation time is the reply's,
/// or `now_secs` when it gives none.
pub fn responses_chat_response(
    id: String,
    object: String,
    created_at: Option<i64>,
    now_secs: i64,
    model: String,
    text: String,
    usage: Option<ResponsesUsage>,
) -> (r: ChatResponse)
    requires
        match usage {
            Some(u) => u.total_tokens is None ==> u.input_tokens + u.output_tokens <= usize::MAX,
            None => true,
        },
    ensures
        r.id@ == id@,
        r.object@ == object@,
        r.created == match created_at {
            Some(t) => t,
            None => now_secs,
        },
        r.model@ == model@,
        r.choices@.len() == 1,
        r.choices@[0].index == 0,
        assistant_text_message(r.choices@[0].message, text@),
        r.choices@[0].message.tool_calls is None,
        opt_view(r.choices@[0].finish_reason) == Some("stop"@),
        r.usage == match usage {
            Some(u) => Some(responses_usage_spec(u)),
            None => None,
        },
{
    let message = ChatMessage {
        role: String::from_str("assistant"),
        content: text,
        tool_calls: None,
        tool_call_id: None,
        name: None,
    };
    ChatResponse {
        id,
        object,
        created: match created_at {
            Some(t) => t,
            None => now_secs,
        },
        model,
        choices: vec![Choice { index: 0, message, finish_reason: Some(String::from_str("stop")) }],
        usage: match usage {
            Some(u) => Some(responses_usage(u)),
            None => None,
        },
    }
}

} // verus!
