use rustcode::api::{Delta, StreamChoice, StreamChunk, StreamDeltaFunction, StreamDeltaToolCall, Usage};
use rustcode::stream::{
    anthropic_line, finalize_streaming_tool_call, finalize_with_arguments, merge_delta, openai_line,
    stream_failure, AnthropicStreamContentBlock, AnthropicStreamDelta, AnthropicStreamEnvelope,
    AnthropicStreamMessageDelta, AnthropicStreamMessageStart, AnthropicStreamState, AnthropicUsage,
    OpenAiStreamState, SseBuffer, SseLine, StreamText, StreamingToolCall,
};

fn fragment(index: usize, id: Option<&str>, name: Option<&str>, args: Option<&str>) -> StreamDeltaToolCall {
    StreamDeltaToolCall {
        index,
        id: id.map(|s| s.to_string()),
        function: Some(StreamDeltaFunction {
            name: name.map(|s| s.to_string()),
            arguments: args.map(|s| s.to_string()),
        }),
    }
}

fn choice(content: Option<&str>, calls: Option<Vec<StreamDeltaToolCall>>, finish: Option<&str>) -> StreamChoice {
    StreamChoice {
        index: 0,
        delta: Delta { role: None, content: content.map(|s| s.to_string()), tool_calls: calls },
        finish_reason: finish.map(|s| s.to_string()),
    }
}

fn chunk(id: &str, choices: Vec<StreamChoice>) -> StreamChunk {
    StreamChunk {
        id: id.to_string(),
        object: "chat.completion.chunk".to_string(),
        created: 1700,
        model: "gpt-test".to_string(),
        choices,
    }
}

fn envelope(event_type: &str) -> AnthropicStreamEnvelope {
    AnthropicStreamEnvelope {
        event_type: event_type.to_string(),
        index: None,
        delta: None,
        content_block: None,
        message: None,
        message_delta: None,
    }
}

#[test]
fn sse_buffer_hands_out_complete_lines() {
    let mut b = SseBuffer::new();
    b.push_text("data: a\ndata: ");
    assert_eq!(b.next_line(), Some("data: a".to_string()));
    assert_eq!(b.next_line(), None);
    b.push_text("b\n\npartial");
    assert_eq!(b.next_line(), Some("data: b".to_string()));
    assert_eq!(b.next_line(), Some(String::new()));
    assert_eq!(b.next_line(), None);
    assert_eq!(b.pending_text(), "partial");
}

#[test]
fn openai_lines_are_classified() {
    assert_eq!(openai_line("  data: {\"x\":1}  "), SseLine::Payload("{\"x\":1}".to_string()));
    assert_eq!(openai_line("data: [DONE]"), SseLine::Done);
    assert_eq!(openai_line(": keep-alive"), SseLine::Skip);
    assert_eq!(openai_line("   "), SseLine::Skip);
    assert_eq!(openai_line("event: ping"), SseLine::Skip);
}

#[test]
fn anthropic_lines_are_classified() {
    assert_eq!(anthropic_line("event: message_start\r"), SseLine::Event("message_start".to_string()));
    assert_eq!(anthropic_line("data: {}\r\r"), SseLine::Payload("{}".to_string()));
    assert_eq!(anthropic_line("data: [DONE]"), SseLine::Skip);
    assert_eq!(anthropic_line("\r"), SseLine::Skip);
    assert_eq!(anthropic_line(" data: {}"), SseLine::Skip);
}

#[test]
fn fragments_are_kept_in_order_of_position() {
    let mut calls: Vec<StreamingToolCall> = Vec::new();
    merge_delta(&mut calls, &fragment(2, Some("b"), Some("grep"), Some("{\"q\":")));
    merge_delta(&mut calls, &fragment(0, Some("a"), Some("read"), Some("{}")));
    merge_delta(&mut calls, &fragment(2, None, None, Some("1}")));
    merge_delta(&mut calls, &fragment(1, None, Some("ls"), None));
    let order: Vec<usize> = calls.iter().map(|c| c.index).collect();
    assert_eq!(order, vec![0, 1, 2]);
    assert_eq!(calls[2].id, "b");
    assert_eq!(calls[2].name, "grep");
    assert_eq!(calls[2].arguments, "{\"q\":1}");
    assert_eq!(calls[1].id, "");
    assert_eq!(calls[1].arguments, "");
}

#[test]
fn openai_chunks_fold_into_one_reply() {
    let mut st = OpenAiStreamState::new("fallback-model".to_string(), 5);
    let shown = st.apply_chunk(&chunk(
        "chatcmpl-1",
        vec![choice(Some("Hel"), Some(vec![fragment(1, None, Some("bash"), Some("{\"cmd\": "))]), None)],
    ));
    assert_eq!(shown, vec!["Hel".to_string()]);
    let shown = st.apply_chunk(&chunk(
        "chatcmpl-other",
        vec![choice(Some("lo"), Some(vec![fragment(1, None, None, Some("\"ls\"}"))]), Some("tool_calls"))],
    ));
    assert_eq!(shown, vec!["lo".to_string()]);
    assert_eq!(st.content, "Hello");
    assert_eq!(st.response_id, "chatcmpl-1");
    assert_eq!(st.model, "gpt-test");
    assert_eq!(st.created, 1700);
    let reply = st.finish(99).ok().unwrap();
    assert_eq!(reply.id, "chatcmpl-1");
    assert_eq!(reply.content, "Hello");
    assert_eq!(reply.finish_reason, Some("tool_calls".to_string()));
    assert_eq!(reply.tool_calls.len(), 1);
    assert_eq!(reply.tool_calls[0].id, "call_1");
    assert_eq!(reply.tool_calls[0].name, "bash");
    assert_eq!(reply.tool_calls[0].arguments, "{\"cmd\":\"ls\"}");
    assert!(reply.usage.is_none());
}

#[test]
fn openai_reply_without_id_takes_the_time() {
    let st = OpenAiStreamState::new("m".to_string(), 0);
    let reply = st.finish(123).ok().unwrap();
    assert_eq!(reply.id, "stream-123");
    assert_eq!(reply.object, "chat.completion.chunk");
    assert_eq!(reply.model, "m");
    assert_eq!(reply.content, "");
}

#[test]
fn bad_streamed_arguments_fail_the_attempt() {
    let mut st = OpenAiStreamState::new("m".to_string(), 0);
    st.apply_chunk(&chunk("x", vec![choice(None, Some(vec![fragment(0, Some("c0"), Some("edit"), Some("{oops"))]), None)]));
    let failure = st.finish(1).err().unwrap();
    assert!(failure.eligible_for_fallback);
    assert!(failure.message.starts_with("failed to parse streamed tool call arguments for edit: "));
}

#[test]
fn blank_arguments_become_an_empty_object() {
    let call = StreamingToolCall { index: 3, id: String::new(), name: "t".to_string(), arguments: "  ".to_string() };
    let done = finalize_streaming_tool_call(&call).ok().unwrap();
    assert_eq!(done.id, "call_3");
    assert_eq!(done.arguments, "{}");
    let given = finalize_with_arguments(&call, Err("ignored".to_string())).ok().unwrap();
    assert_eq!(given.arguments, "{}");
}

#[test]
fn parsed_arguments_are_used_as_given() {
    let call = StreamingToolCall { index: 0, id: "id9".to_string(), name: "t".to_string(), arguments: "{\"a\": 1}".to_string() };
    let ok = finalize_with_arguments(&call, Ok("{\"a\":1}".to_string())).ok().unwrap();
    assert_eq!(ok.id, "id9");
    assert_eq!(ok.arguments, "{\"a\":1}");
    let err = finalize_with_arguments(&call, Err("bad".to_string())).err().unwrap();
    assert_eq!(err.message, "failed to parse streamed tool call arguments for t: bad");
}

#[test]
fn anthropic_events_fold_into_one_reply() {
    let mut st = AnthropicStreamState::new("m-1".to_string());
    let mut start = envelope("message_start");
    start.message = Some(AnthropicStreamMessageStart {
        id: "msg_1".to_string(),
        model: "m-2".to_string(),
        usage: Some(AnthropicUsage { input_tokens: 10, output_tokens: 1 }),
    });
    let step = st.apply_event(&start);
    assert!(step.shown.is_none() && !step.stop);
    assert_eq!(st.usage, Some(Usage { prompt_tokens: 10, completion_tokens: 1, total_tokens: 11 }));

    let mut open_text = envelope("content_block_start");
    open_text.index = Some(0);
    open_text.content_block = Some(AnthropicStreamContentBlock::Text { text: None });
    st.apply_event(&open_text);

    let mut text = envelope("content_block_delta");
    text.index = Some(0);
    text.delta = Some(AnthropicStreamDelta::TextDelta { text: "Hi".to_string() });
    let step = st.apply_event(&text);
    assert_eq!(step.shown, Some(StreamText::Assistant("Hi".to_string())));

    let mut think = envelope("content_block_delta");
    think.index = Some(1);
    think.delta = Some(AnthropicStreamDelta::ThinkingDelta { thinking: "hmm".to_string() });
    let step = st.apply_event(&think);
    assert_eq!(step.shown, Some(StreamText::Thinking("hmm".to_string())));

    let mut open_tool = envelope("content_block_start");
    open_tool.content_block = Some(AnthropicStreamContentBlock::ToolUse {
        id: Some("tu_1".to_string()),
        name: Some("read".to_string()),
        input: None,
    });
    st.apply_event(&open_tool);
    assert_eq!(st.blocks.len(), 3);

    let mut part = envelope("content_block_delta");
    part.index = Some(2);
    part.delta = Some(AnthropicStreamDelta::InputJsonDelta { partial_json: "{\"path\": ".to_string() });
    st.apply_event(&part);
    part.delta = Some(AnthropicStreamDelta::InputJsonDelta { partial_json: "\"a.rs\"}".to_string() });
    st.apply_event(&part);

    let mut md = envelope("message_delta");
    md.message_delta = Some(AnthropicStreamMessageDelta {
        stop_reason: Some("tool_use".to_string()),
        usage: Some(AnthropicUsage { input_tokens: 10, output_tokens: 7 }),
    });
    st.apply_event(&md);
    let step = st.apply_event(&envelope("message_stop"));
    assert!(step.stop);

    assert_eq!(st.content, "Hi");
    assert_eq!(st.thinking, "hmm");
    let reply = st.finish(5, 6);
    assert_eq!(reply.id, "msg_1");
    assert_eq!(reply.object, "message");
    assert_eq!(reply.created, 6);
    assert_eq!(reply.model, "m-2");
    assert_eq!(reply.finish_reason, Some("tool_use".to_string()));
    assert_eq!(reply.usage, Some(Usage { prompt_tokens: 10, completion_tokens: 7, total_tokens: 17 }));
    assert_eq!(reply.tool_calls.len(), 1);
    assert_eq!(reply.tool_calls[0].id, "tu_1");
    assert_eq!(reply.tool_calls[0].arguments, "{\"path\":\"a.rs\"}");
}

#[test]
fn anthropic_event_line_overrides_payload_type() {
    let mut st = AnthropicStreamState::new("m".to_string());
    st.set_event("message_stop".to_string());
    let step = st.apply_event(&envelope("message_start"));
    assert!(step.stop);
    let reply = st.finish(42, 0);
    assert_eq!(reply.id, "anthropic-stream-42");
    assert!(reply.tool_calls.is_empty());
}

#[test]
fn tool_use_with_unparsable_input_gets_empty_object() {
    let mut st = AnthropicStreamState::new("m".to_string());
    let mut open_tool = envelope("content_block_start");
    open_tool.index = Some(0);
    open_tool.content_block = Some(AnthropicStreamContentBlock::ToolUse { id: None, name: None, input: None });
    st.apply_event(&open_tool);
    let mut part = envelope("content_block_delta");
    part.index = Some(0);
    part.delta = Some(AnthropicStreamDelta::InputJsonDelta { partial_json: "{\"unterminated\"".to_string() });
    st.apply_event(&part);
    let reply = st.finish(0, 0);
    assert_eq!(reply.tool_calls[0].arguments, "{}");
    assert_eq!(reply.tool_calls[0].id, "");
}

#[test]
fn stream_failures_name_their_cause() {
    let f = stream_failure("failed to read streaming response", "reset");
    assert_eq!(f.message, "failed to read streaming response: reset");
    assert!(f.eligible_for_fallback);
}
