use warp_helm::multi_agent::{
    Action, EventType, FinishReason, MessageContent, Metadata, Request, Timestamp,
};
use warp_helm::multi_agent_mock::{
    accept, answer_events, check_content_type, routes, sse_frame, stamp, Incoming, MockError,
    Stamps, MAX_BODY_BYTES,
};

fn request(conversation_id: Option<&str>) -> Request {
    Request {
        task_context: None,
        input: None,
        settings: None,
        metadata: conversation_id.map(|id| Metadata {
            logging: Vec::new(),
            conversation_id: id.to_string(),
            ambient_agent_task_id: String::new(),
            forked_from_conversation_id: String::new(),
            parent_agent_id: String::new(),
            agent_name: String::new(),
        }),
        existing_suggestions: None,
        mcp_context: None,
    }
}

fn bad(message: &str) -> MockError {
    MockError::BadRequest(message.to_string())
}

#[test]
fn only_protobuf_is_accepted() {
    assert_eq!(check_content_type(Some("application/x-protobuf")), Ok(()));
    let expected = Err(bad("expected application/x-protobuf body"));
    assert_eq!(check_content_type(Some("application/json")), expected);
    assert_eq!(check_content_type(None), expected);
}

#[test]
fn faults_of_a_request_are_told_in_order() {
    let cause = || "eof".to_string();
    let protobuf = Some("application/x-protobuf");
    assert_eq!(
        accept(None, Incoming::Unreadable { cause: cause() }),
        Err(bad("expected application/x-protobuf body"))
    );
    assert_eq!(
        accept(protobuf, Incoming::Unreadable { cause: cause() }),
        Err(bad("failed to read body: eof"))
    );
    assert_eq!(
        accept(protobuf, Incoming::Undecodable { cause: cause() }),
        Err(bad("failed to decode protobuf: eof"))
    );
    assert_eq!(
        accept(protobuf, Incoming::Request { request: request(None) }),
        Ok(request(None))
    );
    assert_eq!(bad("x").into_response(), (400, "x".to_string()));
}

#[test]
fn the_answer_is_one_message_in_the_conversations_task() {
    let timestamp = Timestamp { seconds: 3, nanos: 4 };
    let events = answer_events(Stamps {
        conversation_id: "conv".to_string(),
        request_id: "req".to_string(),
        run_id: "run".to_string(),
        message_id: "msg".to_string(),
        timestamp,
    });
    assert_eq!(events.len(), 3);
    match &events[0].kind {
        Some(EventType::Init(init)) => {
            assert_eq!(init.conversation_id, "conv");
            assert_eq!(init.request_id, "req");
            assert_eq!(init.run_id, "run");
        }
        other => panic!("unexpected {other:?}"),
    }
    match &events[1].kind {
        Some(EventType::ClientActions { actions }) => match &actions[0].action {
            Some(Action::AddMessagesToTask { task_id, messages }) => {
                assert_eq!(task_id, "conv");
                assert_eq!(messages[0].id, "msg");
                assert_eq!(messages[0].task_id, "conv");
                assert_eq!(messages[0].request_id, "req");
                assert_eq!(messages[0].timestamp, Some(timestamp));
                assert_eq!(
                    messages[0].message,
                    Some(MessageContent::AgentOutput {
                        text: "Mock agent response from helm_multi_agent_mock.".to_string(),
                    })
                );
            }
            other => panic!("unexpected {other:?}"),
        },
        other => panic!("unexpected {other:?}"),
    }
    match &events[2].kind {
        Some(EventType::Finished(f)) => assert_eq!(f.reason, Some(FinishReason::Done)),
        other => panic!("unexpected {other:?}"),
    }
}

#[test]
fn stamps_keep_the_conversation_of_the_request() {
    let kept = stamp(&request(Some("conv")));
    assert_eq!(kept.conversation_id, "conv");
    assert_eq!(stamp(&request(Some(""))).conversation_id.len(), 36);
    let new = stamp(&request(None));
    assert_eq!(new.conversation_id.len(), 36);
    assert_ne!(new.request_id, new.run_id);
    assert_ne!(new.request_id, new.message_id);
}

#[test]
fn frames_are_one_line_of_url_safe_base64() {
    assert_eq!(sse_frame(&vec![]), "data: \"\"\n\n");
    assert_eq!(sse_frame(&b"f".to_vec()), "data: \"Zg==\"\n\n");
    assert_eq!(sse_frame(&b"foo".to_vec()), "data: \"Zm9v\"\n\n");
    assert_eq!(sse_frame(&vec![0xfb, 0xff, 0xfe]), "data: \"-__-\"\n\n");
}

#[test]
fn routes_and_limits_are_fixed() {
    assert_eq!(
        routes(),
        ["/ai/multi-agent", "/agent-mode-evals/multi-agent", "/ai/passive-suggestions"]
    );
    assert_eq!(MAX_BODY_BYTES, 64 * 1024 * 1024);
}
