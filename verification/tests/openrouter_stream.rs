use warp_helm::multi_agent::{
    Action, EventType, FinishReason, MessageContent, Request, ResponseEvent, Task, TaskContext,
    Timestamp, Tool,
};
use warp_helm::openrouter::{AIApiError, OpenRouterToolCall, OpenRouterToolCallFunction};
use warp_helm::openrouter_stream::{
    sse_payloads, text_payloads, OpenRouterChatCompletionResponse, OpenRouterChoice,
    OpenRouterDelta, OpenRouterStream, StreamInput,
};

fn call(id: &str, name: &str, arguments: &str) -> OpenRouterToolCall {
    OpenRouterToolCall {
        id: id.to_string(),
        kind: "function".to_string(),
        function: OpenRouterToolCallFunction {
            name: name.to_string(),
            arguments: arguments.to_string(),
        },
    }
}

fn choice(content: Option<&str>, calls: Option<Vec<OpenRouterToolCall>>) -> OpenRouterChoice {
    OpenRouterChoice {
        index: 0,
        message: None,
        delta: Some(OpenRouterDelta {
            role: None,
            content: content.map(|s| s.to_string()),
            tool_calls: calls,
        }),
        finish_reason: None,
    }
}

fn completion(choices: Vec<OpenRouterChoice>) -> OpenRouterChatCompletionResponse {
    OpenRouterChatCompletionResponse {
        id: "x".to_string(),
        model: "m".to_string(),
        choices,
        usage: None,
    }
}

fn stream() -> OpenRouterStream {
    OpenRouterStream {
        conversation_id: "conv".to_string(),
        request_id: "req".to_string(),
        run_id: "run".to_string(),
        task_id: "task".to_string(),
        assistant_message_id: "msg".to_string(),
        content: String::new(),
    }
}

fn the_action(event: &ResponseEvent) -> &Action {
    match &event.kind {
        Some(EventType::ClientActions { actions }) => {
            assert_eq!(actions.len(), 1);
            actions[0].action.as_ref().unwrap()
        }
        other => panic!("unexpected {other:?}"),
    }
}

#[test]
fn data_lines_are_read_up_to_done() {
    let text = ": comment\r\n\r\ndata: {\"a\":1}\r\nevent: x\n  data:   b  \n:\ndata:c\ndata: [DONE]\ndata: d\n";
    assert_eq!(text_payloads(text), vec!["{\"a\":1}".to_string(), "b".to_string()]);
    assert_eq!(sse_payloads(text.as_bytes().to_vec()), text_payloads(text));
    assert!(text_payloads("").is_empty());
    assert_eq!(text_payloads("data: tail"), vec!["tail".to_string()]);
    assert_eq!(text_payloads("data:  [DONE] \ndata: d"), Vec::<String>::new());
}

#[test]
fn chunks_that_are_not_utf8_are_skipped() {
    assert!(sse_payloads(vec![b'd', b'a', b't', b'a', b':', b' ', 0xff]).is_empty());
    assert_eq!(sse_payloads("data: é".as_bytes().to_vec()), vec!["é".to_string()]);
}

#[test]
fn stream_takes_its_ids_from_the_request() {
    let request = Request {
        task_context: Some(TaskContext {
            tasks: vec![Task {
                id: "t1".to_string(),
                description: String::new(),
                dependencies: None,
                messages: Vec::new(),
                summary: String::new(),
                server_data: String::new(),
            }],
        }),
        input: None,
        settings: None,
        metadata: None,
        existing_suggestions: None,
        mcp_context: None,
    };
    let started = OpenRouterStream::start(&request);
    assert_eq!(started.task_id, "t1");
    assert_eq!(started.conversation_id.len(), 36);
    assert_ne!(started.request_id, started.run_id);
    assert_ne!(started.request_id, started.assistant_message_id);
    assert_eq!(started.content, "");
}

#[test]
fn stream_opens_with_its_ids_and_a_task() {
    let events = stream().opening_events();
    assert_eq!(events.len(), 2);
    match &events[0].kind {
        Some(EventType::Init(init)) => {
            assert_eq!(init.conversation_id, "conv");
            assert_eq!(init.request_id, "req");
            assert_eq!(init.run_id, "run");
        }
        other => panic!("unexpected {other:?}"),
    }
    match the_action(&events[1]) {
        Action::CreateTask { task } => {
            let task = task.as_ref().unwrap();
            assert_eq!(task.id, "task");
            assert!(task.messages.is_empty());
        }
        other => panic!("unexpected {other:?}"),
    }
}

#[test]
fn text_adds_up_and_tool_calls_become_events() {
    let mut s = stream();
    let none = OpenRouterChoice { delta: None, ..choice(None, None) };
    let events = s.on_completion(&completion(vec![
        choice(Some("Hel"), None),
        none,
        choice(
            Some("lo"),
            Some(vec![
                call("c1", "run_shell_command", "{\"command\":\"ls\"}"),
                call("c2", "run_shell_command", "broken"),
                call("c3", "lookup", "args"),
            ]),
        ),
    ]));
    assert_eq!(s.content, "Hello");
    assert_eq!(events.len(), 2);
    let tool = |event: &ResponseEvent| match the_action(event) {
        Action::AddMessagesToTask { task_id, messages } => {
            assert_eq!(task_id, "task");
            assert_eq!(messages.len(), 1);
            assert_eq!(messages[0].task_id, "task");
            assert_eq!(messages[0].request_id, "req");
            match &messages[0].message {
                Some(MessageContent::ToolCall(c)) => (c.tool_call_id.clone(), c.tool.clone()),
                other => panic!("unexpected {other:?}"),
            }
        }
        other => panic!("unexpected {other:?}"),
    };
    let (id, first) = tool(&events[0]);
    assert_eq!(id, "c1");
    match first {
        Some(Tool::RunShellCommand(c)) => assert_eq!(c.command, "ls"),
        other => panic!("unexpected {other:?}"),
    }
    assert_eq!(
        tool(&events[1]),
        ("c3".to_string(), Some(Tool::Server { payload: "args".to_string() }))
    );
}

#[test]
fn data_that_does_not_parse_is_skipped() {
    let mut s = stream();
    let events = s.on_chunk(&vec![
        Some(completion(vec![choice(Some("a"), Some(vec![call("c1", "f", "")]))])),
        None,
        Some(completion(vec![choice(Some("b"), Some(vec![call("c2", "f", "")]))])),
    ]);
    assert_eq!(s.content, "ab");
    assert_eq!(events.len(), 2);
    assert!(s.on_chunk(&vec![None]).is_empty());
    assert_eq!(s.content, "ab");
}

#[test]
fn stream_closes_with_the_whole_text() {
    let mut s = stream();
    for part in ["one ", "", "two"] {
        s.on_chunk(&vec![Some(completion(vec![choice(Some(part), None)]))]);
    }
    let timestamp = Timestamp { seconds: 1, nanos: 2 };
    let events = s.closing_events_at(timestamp);
    assert_eq!(events.len(), 2);
    match the_action(&events[0]) {
        Action::AddMessagesToTask { task_id, messages } => {
            assert_eq!(task_id, "task");
            assert_eq!(messages.len(), 1);
            assert_eq!(messages[0].id, "msg");
            assert_eq!(messages[0].timestamp, Some(timestamp));
            assert_eq!(
                messages[0].message,
                Some(MessageContent::AgentOutput { text: "one two".to_string() })
            );
        }
        other => panic!("unexpected {other:?}"),
    }
    match &events[1].kind {
        Some(EventType::Finished(finished)) => {
            assert_eq!(finished.reason, Some(FinishReason::Done));
            assert!(!finished.should_refresh_model_config);
        }
        other => panic!("unexpected {other:?}"),
    }
    assert_eq!(s.closing_events().len(), 2);
    assert_eq!(s.closing_events()[1], events[1]);
}

#[test]
fn a_lost_chunk_is_reported_and_the_stream_goes_on() {
    let mut s = stream();
    let chunk = |text: &str| StreamInput::Chunk {
        parsed: vec![Some(completion(vec![choice(Some(text), Some(vec![call("c", "f", "")]))]))],
    };
    assert_eq!(s.on_input(chunk("a")).len(), 1);
    assert_eq!(
        s.on_input(StreamInput::Failed { cause: "reset".to_string() }),
        vec![Err(AIApiError::Transport { cause: "reset".to_string() })]
    );
    let out = s.on_input(chunk("b"));
    assert!(matches!(the_action(out[0].as_ref().unwrap()), Action::AddMessagesToTask { .. }));
    let end = s.on_input(StreamInput::End);
    assert_eq!(end.len(), 2);
    match the_action(end[0].as_ref().unwrap()) {
        Action::AddMessagesToTask { messages, .. } => assert_eq!(
            messages[0].message,
            Some(MessageContent::AgentOutput { text: "ab".to_string() })
        ),
        other => panic!("unexpected {other:?}"),
    }
}
