use warp_helm::http_status::HttpStatus;
use warp_helm::multi_agent::{
    EncodedMessage, Input, InputType, Message, MessageContent, Metadata, Request, RiskCategory,
    RunShellCommand, Task, TaskContext, Timestamp, Tool, ToolCall, ToolCallResult, UserInput,
};
use warp_helm::openrouter::{
    adapter_config, build_openrouter_request, current_user_message, is_openrouter_adapter_enabled,
    supported_tools, warp_message_to_openrouter_message, warp_tool_call_to_openrouter_tool_call,
    AIApiError, HelmCommandRiskCategory, HelmEndpointExecutionContext, OpenRouterMessage,
    OpenRouterRole, OpenRouterToolCall, OpenRouterToolCallFunction, OpenRouterToolChoice,
    DEFAULT_OPENROUTER_MODEL,
};
use warp_helm::openrouter_stream::{
    conversation_id_from_request, conversation_id_or,
    openrouter_function_to_warp_tool, openrouter_tool_call_to_warp_message,
    parse_openrouter_error, primary_task_id, primary_task_id_or, response_error, tool_call_message,
    tool_from_command, OpenRouterErrorDetail, OpenRouterErrorResponse,
};

fn encoded() -> EncodedMessage {
    EncodedMessage { bytes: vec![1, 2] }
}

fn request() -> Request {
    Request {
        task_context: None,
        input: None,
        settings: None,
        metadata: None,
        existing_suggestions: None,
        mcp_context: None,
    }
}

fn input(kind: Option<InputType>) -> Option<Input> {
    Some(Input { kind, rest: encoded() })
}

fn message(content: Option<MessageContent>) -> Message {
    Message {
        id: "m".to_string(),
        task_id: "t".to_string(),
        request_id: "r".to_string(),
        timestamp: None,
        server_message_data: String::new(),
        citations: Vec::new(),
        message: content,
    }
}

fn task(id: &str, contents: Vec<Option<MessageContent>>) -> Task {
    Task {
        id: id.to_string(),
        description: String::new(),
        dependencies: None,
        messages: contents.into_iter().map(message).collect(),
        summary: String::new(),
        server_data: String::new(),
    }
}

fn shell(command: &str) -> Tool {
    Tool::RunShellCommand(RunShellCommand {
        command: command.to_string(),
        is_read_only: false,
        uses_pager: false,
        citations: Vec::new(),
        is_risky: false,
        risk_category: RiskCategory::Unspecified,
        wait_until_complete_value: None,
    })
}

fn says(role: OpenRouterRole, content: &str) -> OpenRouterMessage {
    OpenRouterMessage {
        role,
        content: Some(content.to_string()),
        tool_calls: None,
        tool_call_id: None,
        name: None,
    }
}

fn call(id: &str, name: &str, arguments: &str) -> OpenRouterToolCall {
    OpenRouterToolCall {
        id: id.to_string(),
        kind: "function".to_string(),
        function: OpenRouterToolCallFunction {
            name: name.to_string(),
            arguments: arguments.to_string(),
        },
    }
}

fn is_uuid(s: &str) -> bool {
    s.len() == 36
        && s.chars().enumerate().all(|(i, c)| match i {
            8 | 13 | 18 | 23 => c == '-',
            14 => c == '4',
            19 => "89ab".contains(c),
            _ => "0123456789abcdef".contains(c),
        })
}

#[test]
fn adapter_is_on_with_a_key_that_is_not_blank() {
    assert!(is_openrouter_adapter_enabled(Some("sk-or-test-key")));
    assert!(!is_openrouter_adapter_enabled(Some("   ")));
    assert!(!is_openrouter_adapter_enabled(None));
}

#[test]
fn adapter_config_takes_key_and_model() {
    let config = adapter_config(Some(" key "), Some("m/x")).unwrap();
    assert_eq!(config.api_key, " key ");
    assert_eq!(config.model, "m/x");
    assert_eq!(config.authorization(), "Bearer  key ");
    let config = adapter_config(Some("key"), Some(" ")).unwrap();
    assert_eq!(config.model, DEFAULT_OPENROUTER_MODEL);
    assert_eq!(config.model, "openai/gpt-4.1-mini");
    assert_eq!(
        adapter_config(Some("\n"), None),
        Err(AIApiError::Other { message: "HELM_OPENROUTER_API_KEY is not set".to_string() })
    );
}

#[test]
fn small_types_hold_what_they_are_given() {
    let endpoint = HelmEndpointExecutionContext::new("a", "http://b");
    assert_eq!(endpoint.name, "a");
    assert_eq!(endpoint.base_url, "http://b");
    assert_eq!(HelmCommandRiskCategory::default(), HelmCommandRiskCategory::Unknown);
}

#[test]
fn history_messages_become_chat_messages() {
    let to_chat = |content| warp_message_to_openrouter_message(&message(Some(content)));
    assert_eq!(
        to_chat(MessageContent::UserQuery { query: "hi".to_string() }),
        Some(says(OpenRouterRole::User, "hi"))
    );
    assert_eq!(
        to_chat(MessageContent::AgentOutput { text: "yo".to_string() }),
        Some(says(OpenRouterRole::Assistant, "yo"))
    );
    assert_eq!(
        to_chat(MessageContent::ToolCallResult(ToolCallResult {
            tool_call_id: "c1".to_string(),
            text: "out".to_string(),
        })),
        Some(OpenRouterMessage {
            tool_call_id: Some("c1".to_string()),
            ..says(OpenRouterRole::Tool, "out")
        })
    );
    assert_eq!(
        to_chat(MessageContent::ToolCall(ToolCall {
            tool_call_id: "c1".to_string(),
            tool: Some(shell("ls")),
        })),
        Some(OpenRouterMessage {
            role: OpenRouterRole::Assistant,
            content: None,
            tool_calls: Some(vec![call("c1", "run_shell_command", "{\"command\":\"ls\"}")]),
            tool_call_id: None,
            name: None,
        })
    );
    assert_eq!(to_chat(MessageContent::Other(encoded())), None);
    assert_eq!(warp_message_to_openrouter_message(&message(None)), None);
}

#[test]
fn only_shell_calls_are_shown_to_the_model() {
    let call_of = |tool| {
        warp_tool_call_to_openrouter_tool_call(&ToolCall { tool_call_id: "c".to_string(), tool })
    };
    assert_eq!(call_of(None), None);
    assert_eq!(call_of(Some(Tool::Server { payload: "p".to_string() })), None);
    assert_eq!(call_of(Some(Tool::Other(encoded()))), None);
    assert!(call_of(Some(shell(""))).is_some());
}

#[test]
fn shell_commands_round_trip() {
    for command in ["ls", "", "echo \"a\\b\"\n\t\u{0}\u{7f}é\u{1f600}", "{\"command\":1}"] {
        let there = warp_tool_call_to_openrouter_tool_call(&ToolCall {
            tool_call_id: "c".to_string(),
            tool: Some(shell(command)),
        })
        .unwrap();
        let back = openrouter_function_to_warp_tool(&there.function);
        assert_eq!(back, Some(shell(command)));
    }
}

#[test]
fn shell_calls_without_a_command_ask_for_nothing() {
    let tool = |arguments: &str| {
        openrouter_function_to_warp_tool(&call("c", "run_shell_command", arguments).function)
    };
    assert_eq!(tool("not json"), None);
    assert_eq!(tool("{}"), None);
    assert_eq!(tool("{\"command\":3}"), None);
    assert_eq!(tool("[\"command\"]"), None);
    assert_eq!(tool("{\"command\":\"a\",\"x\":[1]}"), Some(shell("a")));
}

#[test]
fn other_functions_run_on_the_server() {
    let function = call("c", "search", "not json").function;
    assert_eq!(
        openrouter_function_to_warp_tool(&function),
        Some(Tool::Server { payload: "not json".to_string() })
    );
    assert_eq!(
        tool_from_command(&function, Some("ls".to_string())),
        Some(Tool::Server { payload: "not json".to_string() })
    );
    let shell_function = call("c", "run_shell_command", "x").function;
    assert_eq!(tool_from_command(&shell_function, Some("ls".to_string())), Some(shell("ls")));
    assert_eq!(tool_from_command(&shell_function, None), None);
}

#[test]
fn current_input_is_the_first_query() {
    let query = |q: &str| Some(UserInput::UserQuery { query: q.to_string() });
    let of = |kind| {
        let mut r = request();
        r.input = input(kind);
        current_user_message(&r)
    };
    assert_eq!(current_user_message(&request()), None);
    assert_eq!(of(None), None);
    assert_eq!(of(Some(InputType::Other(encoded()))), None);
    assert_eq!(
        of(Some(InputType::UserQuery { query: "q".to_string() })),
        Some(says(OpenRouterRole::User, "q"))
    );
    let inputs = vec![Some(UserInput::Other(encoded())), query("a"), query("b")];
    assert_eq!(
        of(Some(InputType::UserInputs { inputs })),
        Some(says(OpenRouterRole::User, "a"))
    );
    let inputs = vec![None, query("a")];
    assert_eq!(of(Some(InputType::UserInputs { inputs })), None);
    assert_eq!(of(Some(InputType::UserInputs { inputs: Vec::new() })), None);
}

#[test]
fn chat_request_has_system_message_history_and_input() {
    let mut r = request();
    r.task_context = Some(TaskContext {
        tasks: vec![
            task(
                "t1",
                vec![
                    Some(MessageContent::UserQuery { query: "one".to_string() }),
                    None,
                    Some(MessageContent::AgentOutput { text: "two".to_string() }),
                ],
            ),
            task("t2", vec![Some(MessageContent::UserQuery { query: "three".to_string() })]),
        ],
    });
    r.input = input(Some(InputType::UserQuery { query: "four".to_string() }));
    let chat = build_openrouter_request(&r, "model".to_string());
    assert_eq!(chat.model, "model");
    assert_eq!(
        chat.messages,
        vec![
            says(
                OpenRouterRole::System,
                "You are Warp's agent mode assistant. Help the user with coding, terminal, and shell tasks.",
            ),
            says(OpenRouterRole::User, "one"),
            says(OpenRouterRole::Assistant, "two"),
            says(OpenRouterRole::User, "three"),
            says(OpenRouterRole::User, "four"),
        ]
    );
    assert!(chat.tools.is_empty());
    assert_eq!(chat.tool_choice, None);
    assert!(chat.stream);
    assert_eq!(chat.max_tokens, None);
    assert!(supported_tools(&r).is_empty());
    assert_ne!(chat.tool_choice, Some(OpenRouterToolChoice::Auto));
}

#[test]
fn ids_come_from_the_request_or_are_new() {
    let mut r = request();
    assert_eq!(conversation_id_or(&r, "f".to_string()), "f");
    assert_eq!(primary_task_id_or(&r, "f".to_string()), "f");
    assert!(is_uuid(&conversation_id_from_request(&r)));
    assert!(is_uuid(&primary_task_id(&r)));
    assert_ne!(primary_task_id(&r), primary_task_id(&r));
    r.task_context = Some(TaskContext { tasks: Vec::new() });
    r.metadata = Some(Metadata {
        logging: Vec::new(),
        conversation_id: String::new(),
        ambient_agent_task_id: String::new(),
        forked_from_conversation_id: String::new(),
        parent_agent_id: String::new(),
        agent_name: String::new(),
    });
    assert!(is_uuid(&conversation_id_from_request(&r)));
    assert!(is_uuid(&primary_task_id(&r)));
    r.task_context = Some(TaskContext { tasks: vec![task("t1", vec![]), task("t2", vec![])] });
    if let Some(metadata) = &mut r.metadata {
        metadata.conversation_id = "conv".to_string();
    }
    assert_eq!(conversation_id_from_request(&r), "conv");
    assert_eq!(primary_task_id(&r), "t1");
}

#[test]
fn tool_calls_become_messages() {
    let timestamp = Timestamp { seconds: 5, nanos: 6 };
    let made = tool_call_message(
        &call("c", "run_shell_command", "{\"command\":\"ls\"}"),
        "id".to_string(),
        "task",
        "request",
        timestamp,
    )
    .unwrap();
    assert_eq!(made.id, "id");
    assert_eq!(made.task_id, "task");
    assert_eq!(made.request_id, "request");
    assert_eq!(made.timestamp, Some(timestamp));
    assert_eq!(
        made.message,
        Some(MessageContent::ToolCall(ToolCall {
            tool_call_id: "c".to_string(),
            tool: Some(shell("ls")),
        }))
    );
    let now = openrouter_tool_call_to_warp_message(&call("c", "f", "{}"), "task", "request")
        .unwrap();
    assert!(is_uuid(&now.id));
    let time = now.timestamp.unwrap();
    assert!(time.seconds > 1_500_000_000);
    assert!((0..1_000_000_000).contains(&time.nanos));
    let nothing = call("c", "run_shell_command", "{}");
    assert_eq!(openrouter_tool_call_to_warp_message(&nothing, "task", "request"), None);
}

#[test]
fn errors_speak_for_themselves() {
    let status = HttpStatus::new(429).unwrap();
    let parsed = || {
        Some(OpenRouterErrorResponse {
            error: OpenRouterErrorDetail {
                message: "slow down".to_string(),
                error_type: None,
                code: Some(429),
            },
        })
    };
    assert_eq!(
        parse_openrouter_error("  \n".to_string(), status, parsed()),
        "OpenRouter returned 429 Too Many Requests"
    );
    assert_eq!(parse_openrouter_error("{..}".to_string(), status, parsed()), "slow down");
    assert_eq!(parse_openrouter_error("oops ".to_string(), status, None), "oops ");
    assert_eq!(
        response_error(status, "oops".to_string(), None),
        AIApiError::ErrorStatus { status, message: "oops".to_string() }
    );
}
