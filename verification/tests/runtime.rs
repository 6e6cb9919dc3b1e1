use kernelia::chat::{ChatCompletionResponse, ChatMessage, Choice, Delta, FunctionCall, MessageRole, ToolCall};
use kernelia::client::{
    api_error_message, client_profile, fallback_error_message, is_event_stream, normalize_reasoning_content,
    response_to_stream_chunks,
};
use kernelia::core_state::{
    heartbeat_status, new_event, new_heartbeat, new_task, newest_snapshots, run_event_fields, stamped_id, CoreState,
    SystemSnapshot, MAX_EVENTS,
};
use kernelia::settings::AppSettings;
use kernelia::sse::SseLineBuffer;
use kernelia::tool_loop::{StreamedReply, ToolLoop};

fn message(role: MessageRole, content: &str) -> ChatMessage {
    ChatMessage { role, content: content.to_string(), reasoning_content: None, tool_call_id: None, tool_calls: None }
}

#[test]
fn event_log_keeps_newest_first_and_bounded() {
    let mut core = CoreState::new();
    for i in 0..(MAX_EVENTS + 5) {
        let id = format!("evt-{}", i);
        core.record_event(new_event(&id, "2024-01-01T00:00:00Z", "task.queue", "info", "m", "{}"));
    }
    assert_eq!(core.events.len(), MAX_EVENTS);
    assert_eq!(core.events[0].id, format!("evt-{}", MAX_EVENTS + 4));
    let first_three = core.list_events(3);
    assert_eq!(first_three.len(), 3);
    assert_eq!(first_three[2].id, format!("evt-{}", MAX_EVENTS + 2));
    assert_eq!(core.list_events(10_000).len(), MAX_EVENTS);
}

#[test]
fn task_queue_claims_retries_and_fails() {
    let mut core = CoreState::new();
    core.enqueue(new_task("tsk-1", "t0", "dns_lookup", "{}"));
    core.enqueue(new_task("tsk-2", "t1", "restart_service", "{}"));
    assert_eq!(core.list_tasks().len(), 2);

    let claimed = core.claim_next_task().expect("queued task");
    assert_eq!(claimed.id, "tsk-1");
    assert_eq!(claimed.status, "running");
    assert_eq!(core.tasks[0].status, "running");

    assert!(core.finish_task("tsk-1", true, None));
    assert_eq!(core.tasks[0].status, "done");

    let second = core.claim_next_task().unwrap();
    assert_eq!(second.id, "tsk-2");
    for attempt in 1..=3u8 {
        assert!(core.finish_task("tsk-2", false, Some("boom".to_string())));
        assert_eq!(core.tasks[1].status, "queued");
        assert_eq!(core.tasks[1].retries, attempt);
        core.claim_next_task().unwrap();
    }
    assert!(core.finish_task("tsk-2", false, Some("boom".to_string())));
    assert_eq!(core.tasks[1].status, "failed");
    assert_eq!(core.tasks[1].retries, 3);
    assert_eq!(core.tasks[1].last_error.as_deref(), Some("boom"));
    assert!(core.claim_next_task().is_none());
    assert!(!core.finish_task("tsk-9", true, None));
}

#[test]
fn core_identifiers_and_health() {
    assert_eq!(stamped_id("evt-", 1700000000123), "evt-1700000000123");
    assert_eq!(stamped_id("tsk-", -5), "tsk--5");
    assert_eq!(run_event_fields(true), ("info", "Tarea ejecutada"));
    assert_eq!(run_event_fields(false), ("warn", "Tarea fallida/reintentada"));
    assert_eq!(heartbeat_status(61, 60), "stale");
    assert_eq!(heartbeat_status(60, 60), "ok");
    let hb = new_heartbeat("2024-01-01T00:00:00Z", "1.0.0");
    assert_eq!(hb.status, "ok");

    let snaps: Vec<SystemSnapshot> = (0..5)
        .map(|i| SystemSnapshot { id: format!("snap-{}", i), timestamp: String::new(), source: "manual".to_string(), data: "{}".to_string() })
        .collect();
    let newest = newest_snapshots(snaps, 2);
    assert_eq!(newest.iter().map(|s| s.id.as_str()).collect::<Vec<_>>(), vec!["snap-4", "snap-3"]);
}

#[test]
fn sse_lines_yield_payloads_across_chunks() {
    let mut buffer = SseLineBuffer::new();
    let first = buffer.feed("data: {\"a\":1}\n\nda");
    assert_eq!(first, vec!["{\"a\":1}"]);
    assert_eq!(buffer.pending, "da");
    let second = buffer.feed("ta: {\"b\":2}\n: keep-alive\ndata: [DONE]\n  data: {\"c\":3}  \n");
    assert_eq!(second, vec!["{\"b\":2}", "{\"c\":3}"]);
    assert_eq!(buffer.pending, "");

    let mut whole = SseLineBuffer::new();
    let all = whole.feed("data: {\"a\":1}\n\ndata: {\"b\":2}\n: keep-alive\ndata: [DONE]\n  data: {\"c\":3}  \n");
    assert_eq!(all, vec!["{\"a\":1}", "{\"b\":2}", "{\"c\":3}"]);
}

fn delta_call(index: Option<u32>, id: Option<&str>, name: &str, args: &str) -> ToolCall {
    ToolCall {
        id: id.map(|s| s.to_string()),
        call_type: None,
        function: FunctionCall { name: name.to_string(), arguments: args.to_string() },
        index,
    }
}

#[test]
fn streamed_reply_assembles_text_and_calls() {
    let mut reply = StreamedReply::new();
    let shown = reply.absorb(&Delta { role: None, content: Some("Hola".to_string()), reasoning_content: None, tool_calls: None });
    assert_eq!(shown.as_deref(), Some("Hola"));
    let shown = reply.absorb(&Delta { role: None, content: Some("  ".to_string()), reasoning_content: Some(" pienso".to_string()), tool_calls: None });
    assert_eq!(shown.as_deref(), Some(" pienso"));
    let shown = reply.absorb(&Delta {
        role: None,
        content: None,
        reasoning_content: None,
        tool_calls: Some(vec![delta_call(Some(1), Some("call_b"), "dns_", "{\"host\""), delta_call(None, None, "get_", "")]),
    });
    assert!(shown.is_none());
    reply.absorb(&Delta { role: None, content: None, reasoning_content: None, tool_calls: Some(vec![delta_call(Some(1), None, "lookup", ":\"x\"}")]) });
    assert_eq!(reply.content, "Hola pienso");
    assert_eq!(reply.calls.len(), 2);
    assert_eq!(reply.calls[0].function.name, "get_");
    assert_eq!(reply.calls[0].index, Some(1));
    assert_eq!(reply.calls[1].function.name, "dns_lookup");
    assert_eq!(reply.calls[1].function.arguments, "{\"host\":\"x\"}");
    assert_eq!(reply.calls[1].id.as_deref(), Some("call_b"));
    assert_eq!(reply.calls[1].call_type.as_deref(), Some("function"));
    let msg = reply.into_message();
    assert_eq!(msg.role, MessageRole::Assistant);
    assert_eq!(msg.tool_calls.map(|c| c.len()), Some(2));

    let empty = StreamedReply::new().into_message();
    assert!(empty.tool_calls.is_none());
}

#[test]
fn tool_loop_keeps_conversation_and_tools() {
    let mut lp = ToolLoop::new(vec![message(MessageRole::User, "hola")]);
    assert!(lp.has_rounds_left());
    let call = delta_call(None, Some("c1"), "dns_lookup", "{\"host\":\"a\"}");
    lp.push_reply(message(MessageRole::Assistant, ""));
    lp.note_tool(&call);
    lp.answer_call(&call, false, "", &None, "[POST_VERIFY]", true);
    lp.refuse_call(&call);
    assert_eq!(lp.messages.len(), 5);
    assert_eq!(lp.messages[2].content, "Error desconocido");
    assert_eq!(lp.messages[2].tool_call_id.as_deref(), Some("c1"));
    assert_eq!(lp.messages[4].content, "Privilegio MegaBoss requerido para esta herramienta.");
    for _ in 0..5 {
        lp.end_round();
    }
    assert!(!lp.has_rounds_left());
    let result = lp.finish("fin".to_string());
    assert_eq!(result.response, "fin");
    assert_eq!(result.tools_used.len(), 1);
    assert_eq!(result.tools_used[0].name, "dns_lookup");
}

#[test]
fn client_profile_and_replies() {
    let mut settings = AppSettings::initial("1.0.0", None, None, None);
    settings.selected_model = "gemma3-local".to_string();
    let profile = client_profile(&settings).expect("selected model");
    assert_eq!(profile.provider, "docker-model-runner");
    assert!(profile.api_key.is_none());
    assert!(profile.fallback_base_url.is_none());
    assert_eq!(profile.generation_max_tokens(), 500);

    settings.selected_model = "missing".to_string();
    assert_eq!(client_profile(&settings).err().as_deref(), Some("No model selected"));

    let mut resp = ChatCompletionResponse {
        id: Some("r1".to_string()),
        choices: vec![Choice {
            index: 0,
            message: ChatMessage {
                role: MessageRole::Assistant,
                content: "   ".to_string(),
                reasoning_content: Some("  razonamiento  ".to_string()),
                tool_call_id: None,
                tool_calls: None,
            },
            finish_reason: Some("stop".to_string()),
        }],
        usage: None,
    };
    normalize_reasoning_content(&mut resp);
    assert_eq!(resp.choices[0].message.content, "razonamiento");
    let chunks = response_to_stream_chunks(resp);
    assert_eq!(chunks.len(), 1);
    let chunk = chunks[0].as_ref().unwrap();
    assert_eq!(chunk.id.as_deref(), Some("r1"));
    assert_eq!(chunk.choices[0].delta.content.as_deref(), Some("razonamiento"));
    assert_eq!(chunk.choices[0].delta.role, Some(MessageRole::Assistant));

    assert_eq!(api_error_message(false, "500 Internal Server Error", "boom"), "AI API Error (500 Internal Server Error): boom");
    assert_eq!(api_error_message(true, "404 Not Found", ""), "AI Stream Error (404 Not Found): ");
    assert_eq!(
        fallback_error_message(false, "gemma4", "gemma:2b", "a", "b"),
        "Primary (gemma4) and fallback (gemma:2b) failed. Primary error: a | Fallback error: b"
    );
    assert!(is_event_stream(Some("Text/Event-Stream; charset=utf-8")));
    assert!(!is_event_stream(Some("application/json")));
    assert!(!is_event_stream(None));
}

#[test]
fn owner_only_calls_are_refused_while_locked() {
    let mut lp = ToolLoop::new(vec![message(MessageRole::User, "hola")]);
    let call = delta_call(None, Some("c1"), "restart_service", "{}");
    assert!(!lp.gate_call(&call, true, false));
    assert_eq!(lp.messages.len(), 2);
    assert_eq!(lp.messages[1].content, "Privilegio MegaBoss requerido para esta herramienta.");
    assert_eq!(lp.messages[1].tool_call_id.as_deref(), Some("c1"));
    assert!(lp.gate_call(&call, true, true));
    assert!(lp.gate_call(&call, false, false));
    assert_eq!(lp.messages.len(), 2);
}

#[test]
fn a_queue_turn_runs_the_oldest_queued_task_once() {
    let mut core = CoreState::new();
    core.enqueue(new_task("tsk-1", "t0", "dns_lookup", "{}"));
    core.enqueue(new_task("tsk-2", "t1", "restart_service", "{}"));
    let persisted = std::cell::Cell::new(0);
    let ran = std::cell::Cell::new(0);
    let turn = core.process_queue_once(
        |_| persisted.set(persisted.get() + 1),
        |t| {
            ran.set(ran.get() + 1);
            assert_eq!(t.status, "running");
            (false, Some(format!("{} fallo", t.name)))
        },
    );
    let (task, (success, error)) = turn.expect("a task ran");
    assert_eq!(task.id, "tsk-1");
    assert!(!success);
    assert_eq!(error.as_deref(), Some("dns_lookup fallo"));
    assert_eq!((ran.get(), persisted.get()), (1, 2));
    assert_eq!(core.tasks[0].status, "queued");
    assert_eq!(core.tasks[0].retries, 1);
    assert_eq!(core.tasks[0].last_error.as_deref(), Some("dns_lookup fallo"));
    assert_eq!(core.tasks[1].status, "queued");
    assert_eq!(core.tasks[1].retries, 0);

    let mut idle = CoreState::new();
    assert!(idle.process_queue_once(|_| {}, |_| (true, None)).is_none());
}
