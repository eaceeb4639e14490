use rustcode::runtime::{RuntimeMessage, RuntimeRole, RuntimeToolCall, RuntimeToolResult};
use rustcode::stream::StreamedReply;
use rustcode::wire::{
    chat_message_of, gateway_response_of, responses_chat_response, responses_input,
    responses_output_text, runtime_message_of, to_anthropic_messages, AnthropicContentBlock,
    ApiArguments, ApiToolCall, ChatMessage, ResponsesUsage,
};

fn chat(role: &str, content: &str) -> ChatMessage {
    ChatMessage { role: role.to_string(), content: content.to_string(), tool_calls: None, tool_call_id: None, name: None }
}

#[test]
fn runtime_messages_become_chat_messages() {
    let call = RuntimeToolCall { id: "c1".to_string(), name: "ls".to_string(), arguments: "{\"p\":1}".to_string() };
    let m = RuntimeMessage::assistant_with_tool_calls(vec![call]);
    let c = chat_message_of(&m);
    assert_eq!(c.role, "assistant");
    assert_eq!(
        c.tool_calls,
        Some(vec![ApiToolCall { id: "c1".to_string(), name: "ls".to_string(), arguments: ApiArguments::Text("{\"p\":1}".to_string()) }])
    );
    let r = RuntimeMessage::tool_result(RuntimeToolResult {
        tool_call_id: "c1".to_string(),
        name: "ls".to_string(),
        content: "a\nb".to_string(),
        is_error: false,
    });
    let c = chat_message_of(&r);
    assert_eq!(c.role, "tool");
    assert_eq!(c.tool_call_id.as_deref(), Some("c1"));
    assert_eq!(c.name.as_deref(), Some("ls"));
    assert_eq!(c.tool_calls, None);
}

#[test]
fn chat_messages_become_runtime_messages() {
    let mut c = chat("assistant", "");
    c.tool_calls = Some(vec![
        ApiToolCall { id: "a".to_string(), name: "f".to_string(), arguments: ApiArguments::Text("{ \"x\" : 2 }".to_string()) },
        ApiToolCall { id: "b".to_string(), name: "g".to_string(), arguments: ApiArguments::Text("not json".to_string()) },
        ApiToolCall { id: "c".to_string(), name: "h".to_string(), arguments: ApiArguments::Value("{\"y\":3}".to_string()) },
    ]);
    let m = runtime_message_of(&c);
    assert_eq!(m.role, RuntimeRole::Assistant);
    assert_eq!(m.tool_calls[0].arguments, "{\"x\":2}");
    assert_eq!(m.tool_calls[1].arguments, "{\"raw\":\"not json\"}");
    assert_eq!(m.tool_calls[2].arguments, "{\"y\":3}");
    let mut t = chat("tool", "out");
    t.tool_call_id = Some("a".to_string());
    let m = runtime_message_of(&t);
    let result = m.tool_result.unwrap();
    assert_eq!(result.name, "tool");
    assert_eq!(result.content, "out");
    assert_eq!(runtime_message_of(&chat("developer", "hi")).role, RuntimeRole::User);
}

#[test]
fn anthropic_requests_gather_system_text() {
    let mut assistant = chat("assistant", "");
    assistant.tool_calls = Some(vec![ApiToolCall {
        id: "t1".to_string(),
        name: "read".to_string(),
        arguments: ApiArguments::Text("{\"path\":\"a\"}".to_string()),
    }]);
    let mut tool = chat("tool", "contents");
    tool.tool_call_id = Some("t1".to_string());
    let messages = vec![chat("system", "one"), chat("user", "hi"), chat("system", "two"), assistant, tool, chat("assistant", "")];
    let (system, out) = to_anthropic_messages(&messages);
    assert_eq!(system.as_deref(), Some("one\n\ntwo"));
    assert_eq!(out.len(), 4);
    assert_eq!(out[0].role, "user");
    assert_eq!(out[0].content, vec![AnthropicContentBlock::Text("hi".to_string())]);
    assert_eq!(
        out[1].content,
        vec![AnthropicContentBlock::ToolUse { id: "t1".to_string(), name: "read".to_string(), input: "{\"path\":\"a\"}".to_string() }]
    );
    assert_eq!(out[2].role, "user");
    assert_eq!(out[2].content, vec![AnthropicContentBlock::ToolResult { tool_use_id: "t1".to_string(), text: "contents".to_string() }]);
    assert_eq!(out[3].content, vec![AnthropicContentBlock::Text(String::new())]);
    let (none, _) = to_anthropic_messages(&vec![chat("user", "x")]);
    assert_eq!(none, None);
}

#[test]
fn responses_requests_skip_tool_messages() {
    let input = responses_input(&vec![chat("system", "s"), chat("tool", "t"), chat("user", "u")]);
    assert_eq!(input, vec![("system".to_string(), "s".to_string()), ("user".to_string(), "u".to_string())]);
    assert_eq!(responses_output_text(&Some("given".to_string()), &vec![vec![Some("x".to_string())]]), "given");
    assert_eq!(
        responses_output_text(&None, &vec![vec![Some("a".to_string()), None], vec![Some("b".to_string())]]),
        "ab"
    );
    let r = responses_chat_response(
        "r1".to_string(),
        "response".to_string(),
        None,
        77,
        "m".to_string(),
        "text".to_string(),
        Some(ResponsesUsage { input_tokens: 2, output_tokens: 3, total_tokens: None }),
    );
    assert_eq!(r.created, 77);
    assert_eq!(r.usage.unwrap().total_tokens, 5);
    assert_eq!(r.choices[0].finish_reason.as_deref(), Some("stop"));
}

#[test]
fn streamed_replies_reach_the_gateway() {
    let reply = StreamedReply {
        id: "s".to_string(),
        object: "chat.completion.chunk".to_string(),
        created: 1,
        model: "m".to_string(),
        content: "done".to_string(),
        tool_calls: vec![RuntimeToolCall { id: "c".to_string(), name: "f".to_string(), arguments: "{}".to_string() }],
        finish_reason: Some("tool_calls".to_string()),
        usage: None,
    };
    let response = reply.into_chat_response();
    let g = gateway_response_of(&response);
    let m = g.assistant_message.unwrap();
    assert_eq!(m.content, "done");
    assert_eq!(m.tool_calls[0].name, "f");
    assert_eq!(m.tool_calls[0].arguments, "{}");
    assert_eq!(g.finish_reason.as_deref(), Some("tool_calls"));
    assert_eq!(g.model, "m");
}

#[test]
fn raw_arguments_print_as_serde_json_does() {
    for text in ["not json", "a \"quoted\" \\ path", "line\nbreak\ttab\r", "\u{1}\u{8}\u{c}\u{1f}\u{7f}", "héllo ☃"] {
        let mut object = serde_json::Map::new();
        object.insert("raw".to_string(), serde_json::Value::String(text.to_string()));
        assert_eq!(rustcode::wire::raw_arguments(text), serde_json::Value::Object(object).to_string());
    }
}
