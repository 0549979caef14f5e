use warp_helm::agent_request::{
    api_keys_with_warp_credit_fallback_setting, build_request, check_tab,
    get_supported_cli_agent_tools, get_supported_tools, input_steps, prepare_request,
    ConvertToAPITypeError,
    FeatureFlags, RequestMetadata, RequestParams, SessionContext, SessionType,
};
use warp_helm::helm_tab_binding::{HelmConnectionState, HelmEndpointBinding, HelmTabBinding};
use warp_helm::helm_warp::{refresh_loop_step, HelmRefreshDescriptor, RefreshStepError};
use warp_helm::multi_agent::{
    ApiKeys, EncodedMessage, Input, InputType, LoggingValue, ToolType,
};
use warp_helm::openrouter::{build_openrouter_request, OpenRouterToolChoice};

fn flags(on: bool) -> FeatureFlags {
    FeatureFlags {
        configurable_context_window: on,
        linked_code_blocks: on,
        read_image_files: on,
        v4a_file_diffs: on,
        summarization_via_message_replacement: on,
        bundled_skills: on,
        orchestration_v2: on,
        conversations_as_context: on,
        artifact_command: on,
        remote_codebase_indexing: on,
        agent_mode_computer_use: on,
        pr_comments_slash_command: on,
        list_skills: on,
        run_agents_tool: on,
        ask_user_question: on,
        transfer_control_tool: on,
    }
}

fn params(session_type: Option<SessionType>) -> RequestParams {
    RequestParams {
        session_context: SessionContext {
            effective_session_type: session_type,
            is_remote: false,
            is_helm_remote: false,
            helm_connection_state: HelmConnectionState::Connected,
            has_unresolved_helm_binding_lookup: false,
        },
        tasks: Vec::new(),
        model: "base".to_string(),
        cli_agent_model: "cli".to_string(),
        computer_use_model: "computer".to_string(),
        context_window_limit: Some(1000),
        is_memory_enabled: true,
        warp_drive_context_enabled: false,
        planning_enabled: true,
        should_redact_secrets: false,
        api_keys: None,
        allow_use_of_warp_credits: false,
        autonomy_level: 2,
        isolation_level: 1,
        web_search_enabled: true,
        computer_use_enabled: true,
        orchestration_enabled: true,
        ask_user_question_enabled: true,
        research_agent_enabled: false,
        custom_model_providers: None,
        supported_tools_override: None,
        metadata: None,
        conversation_token: None,
        ambient_agent_task_id: None,
        forked_from_conversation_token: None,
        parent_agent_id: None,
        agent_name: None,
        existing_suggestions: None,
        mcp_context: None,
    }
}

fn connected() -> Option<SessionType> {
    Some(SessionType::WarpifiedRemote { host_id: Some("h".to_string()) })
}

fn unconnected() -> Option<SessionType> {
    Some(SessionType::WarpifiedRemote { host_id: None })
}

fn input() -> Input {
    Input {
        kind: Some(InputType::UserQuery { query: "q".to_string() }),
        rest: EncodedMessage { bytes: Vec::new() },
    }
}

const LOCAL_SHELL: [ToolType; 4] = [
    ToolType::RunShellCommand,
    ToolType::WriteToLongRunningShellCommand,
    ToolType::ReadShellCommandOutput,
    ToolType::TransferShellCommandControlToUser,
];

#[test]
fn local_sessions_get_every_tool() {
    let expected = vec![
        ToolType::Grep,
        ToolType::FileGlob,
        ToolType::FileGlobV2,
        ToolType::ReadMcpResource,
        ToolType::CallMcpTool,
        ToolType::InitProject,
        ToolType::OpenCodeReview,
        ToolType::RunShellCommand,
        ToolType::SuggestNewConversation,
        ToolType::Subagent,
        ToolType::WriteToLongRunningShellCommand,
        ToolType::ReadShellCommandOutput,
        ToolType::ReadDocuments,
        ToolType::CreateDocuments,
        ToolType::EditDocuments,
        ToolType::SuggestPrompt,
        ToolType::FetchConversation,
        ToolType::ReadFiles,
        ToolType::ApplyFileDiffs,
        ToolType::SearchCodebase,
        ToolType::UploadFileArtifact,
        ToolType::UseComputer,
        ToolType::RequestComputerUse,
        ToolType::InsertReviewComments,
        ToolType::ReadSkill,
        ToolType::StartAgentV2,
        ToolType::RunAgents,
        ToolType::SendMessageToAgent,
        ToolType::AskUserQuestion,
    ];
    assert_eq!(get_supported_tools(&params(None), &flags(true)), expected);
    assert_eq!(get_supported_tools(&params(Some(SessionType::Local)), &flags(true)), expected);
}

#[test]
fn connected_remote_sessions_get_only_endpoint_tools() {
    assert_eq!(
        get_supported_tools(&params(connected()), &flags(false)),
        vec![
            ToolType::Grep,
            ToolType::FileGlob,
            ToolType::FileGlobV2,
            ToolType::ReadMcpResource,
            ToolType::CallMcpTool,
            ToolType::InitProject,
            ToolType::OpenCodeReview,
            ToolType::SuggestNewConversation,
            ToolType::Subagent,
            ToolType::ReadDocuments,
            ToolType::CreateDocuments,
            ToolType::EditDocuments,
            ToolType::SuggestPrompt,
            ToolType::ReadFiles,
            ToolType::ApplyFileDiffs,
            ToolType::StartAgent,
            ToolType::SendMessageToAgent,
        ]
    );
    let tools = get_supported_tools(&params(connected()), &flags(true));
    assert!(tools.contains(&ToolType::SearchCodebase));
    assert!(!tools.contains(&ToolType::UploadFileArtifact));
}

#[test]
fn unconnected_remote_sessions_get_no_file_tools() {
    let tools = get_supported_tools(&params(unconnected()), &flags(true));
    for tool in [ToolType::ReadFiles, ToolType::ApplyFileDiffs, ToolType::SearchCodebase] {
        assert!(!tools.contains(&tool));
    }
    assert!(tools.contains(&ToolType::FetchConversation));
}

#[test]
fn remote_sessions_get_no_local_shell() {
    for on in [false, true] {
        for session in [connected(), unconnected()] {
            let p = params(session);
            for tool in LOCAL_SHELL {
                assert!(!get_supported_tools(&p, &flags(on)).contains(&tool));
                assert!(!get_supported_cli_agent_tools(&p, &flags(on)).contains(&tool));
            }
        }
    }
}

#[test]
fn no_tool_is_listed_twice() {
    for on in [false, true] {
        for session in [None, Some(SessionType::Local), connected(), unconnected()] {
            let p = params(session);
            for tools in
                [get_supported_tools(&p, &flags(on)), get_supported_cli_agent_tools(&p, &flags(on))]
            {
                for (i, tool) in tools.iter().enumerate() {
                    assert!(!tools[..i].contains(tool));
                }
            }
        }
    }
}

#[test]
fn switches_of_the_request_count_too() {
    let mut p = params(None);
    p.computer_use_enabled = false;
    p.orchestration_enabled = false;
    p.ask_user_question_enabled = false;
    let tools = get_supported_tools(&p, &flags(true));
    for tool in [
        ToolType::UseComputer,
        ToolType::RequestComputerUse,
        ToolType::StartAgentV2,
        ToolType::RunAgents,
        ToolType::SendMessageToAgent,
        ToolType::AskUserQuestion,
    ] {
        assert!(!tools.contains(&tool));
    }
}

#[test]
fn running_agents_needs_both_flags() {
    let mut f = flags(true);
    f.orchestration_v2 = false;
    let tools = get_supported_tools(&params(None), &f);
    assert!(tools.contains(&ToolType::StartAgent));
    assert!(!tools.contains(&ToolType::StartAgentV2));
    assert!(!tools.contains(&ToolType::RunAgents));
}

#[test]
fn cli_agent_tools_fit_the_session() {
    let cli = |session, on| get_supported_cli_agent_tools(&params(session), &flags(on));
    assert_eq!(
        cli(None, true),
        vec![
            ToolType::WriteToLongRunningShellCommand,
            ToolType::ReadShellCommandOutput,
            ToolType::Grep,
            ToolType::FileGlob,
            ToolType::FileGlobV2,
            ToolType::ReadFiles,
            ToolType::SearchCodebase,
            ToolType::TransferShellCommandControlToUser,
        ]
    );
    assert!(!cli(None, false).contains(&ToolType::TransferShellCommandControlToUser));
    let base = vec![ToolType::Grep, ToolType::FileGlob, ToolType::FileGlobV2];
    assert_eq!(cli(unconnected(), true), base);
    let mut remote = base.clone();
    remote.push(ToolType::ReadFiles);
    assert_eq!(cli(connected(), false), remote);
    remote.push(ToolType::SearchCodebase);
    assert_eq!(cli(connected(), true), remote);
}

#[test]
fn requests_without_a_tab_are_refused_before_anything_else() {
    let mut p = params(None);
    p.session_context.has_unresolved_helm_binding_lookup = true;
    assert_eq!(
        check_tab(&p.session_context),
        Err(ConvertToAPITypeError::HelmTabLookupFailed)
    );
    assert_eq!(
        prepare_request(p.clone(), &flags(true), Ok(input())),
        Err(ConvertToAPITypeError::HelmTabLookupFailed)
    );
    assert_eq!(
        prepare_request(p, &flags(true), Err(ConvertToAPITypeError::Ignore)),
        Err(ConvertToAPITypeError::HelmTabLookupFailed)
    );
    assert_eq!(check_tab(&params(None).session_context), Ok(()));
    let other = ConvertToAPITypeError::Other { message: "x".to_string() };
    assert_eq!(
        prepare_request(params(None), &flags(true), Err(other.clone())),
        Err(other)
    );
}

#[test]
fn credit_setting_is_kept() {
    let keys = |allow| ApiKeys {
        keys: Some(EncodedMessage { bytes: vec![7] }),
        allow_use_of_warp_credits: allow,
    };
    let set = api_keys_with_warp_credit_fallback_setting;
    assert_eq!(set(Some(keys(false)), true), Some(keys(true)));
    assert_eq!(set(Some(keys(true)), false), Some(keys(false)));
    assert_eq!(set(None, false), None);
    assert_eq!(
        set(None, true),
        Some(ApiKeys { keys: None, allow_use_of_warp_credits: true })
    );
}

#[test]
fn request_carries_settings_and_metadata() {
    let mut p = params(None);
    p.metadata = Some(RequestMetadata {
        is_autodetected_user_query: true,
        entrypoint: "terminal".to_string(),
        is_auto_resume_after_error: false,
    });
    p.forked_from_conversation_token = Some("fork".to_string());
    p.agent_name = Some("agent".to_string());
    let request = build_request(p, &flags(true), input());
    assert_eq!(request.input, Some(input()));
    let settings = request.settings.unwrap();
    let models = settings.model_config.unwrap();
    assert_eq!(models.base, "base");
    assert_eq!(models.cli_agent, "cli");
    assert_eq!(models.computer_use_agent, "computer");
    assert_eq!(models.base_model_context_window_limit, 1000);
    assert_eq!(settings.supported_tools, get_supported_tools(&params(None), &flags(true)));
    assert!(settings.rules_enabled);
    assert!(!settings.use_anthropic_text_editor_tools);
    assert_eq!(settings.autonomy_level, 2);
    assert_eq!(settings.isolation_level, 1);
    let metadata = request.metadata.unwrap();
    assert_eq!(
        metadata.logging,
        vec![
            ("is_autodetected_user_query", LoggingValue::Bool(true)),
            ("entrypoint", LoggingValue::Text("terminal".to_string())),
            ("is_auto_resume_after_error", LoggingValue::Bool(false)),
        ]
    );
    assert_eq!(metadata.conversation_id, "");
    assert_eq!(metadata.forked_from_conversation_id, "fork");
    assert_eq!(metadata.agent_name, "agent");
    assert_eq!(metadata.parent_agent_id, "");
}

#[test]
fn a_conversation_with_an_id_does_not_name_its_origin() {
    let mut p = params(None);
    p.conversation_token = Some("conv".to_string());
    p.forked_from_conversation_token = Some("fork".to_string());
    let metadata = build_request(p, &flags(true), input()).metadata.unwrap();
    assert_eq!(metadata.conversation_id, "conv");
    assert_eq!(metadata.forked_from_conversation_id, "");
    assert!(metadata.logging.is_empty());
}

#[test]
fn context_window_limit_needs_its_flag() {
    let limit = |p: RequestParams, on| {
        build_request(p, &flags(on), input())
            .settings
            .unwrap()
            .model_config
            .unwrap()
            .base_model_context_window_limit
    };
    assert_eq!(limit(params(None), false), 0);
    assert_eq!(limit(params(None), true), 1000);
    let mut p = params(None);
    p.context_window_limit = None;
    assert_eq!(limit(p, true), 0);
}

#[test]
fn overridden_tools_take_the_place_of_fitting_ones() {
    let mut p = params(None);
    p.supported_tools_override = Some(vec![ToolType::Other { code: 99 }]);
    let settings = build_request(p, &flags(true), input()).settings.unwrap();
    assert_eq!(settings.supported_tools, vec![ToolType::Other { code: 99 }]);
    assert_eq!(settings.supported_cli_agent_tools.len(), 8);
}

#[test]
fn the_chat_model_gets_the_shell_of_local_sessions_only() {
    let chat = |session| {
        let request = build_request(params(session), &flags(true), input());
        build_openrouter_request(&request, "m".to_string())
    };
    let local = chat(None);
    assert_eq!(local.tools.len(), 1);
    assert_eq!(local.tools[0].kind, "function");
    assert_eq!(local.tools[0].function.name, "run_shell_command");
    assert_eq!(
        local.tools[0].function.description.as_deref(),
        Some("Run a shell command in the user's terminal.")
    );
    let schema = &local.tools[0].function.parameters;
    assert_eq!(schema.required, vec!["command".to_string()]);
    assert_eq!(schema.properties[0].name, "command");
    assert_eq!(schema.properties[0].kind, "string");
    assert_eq!(schema.properties[0].description, "The shell command to execute.");
    assert_eq!(local.tool_choice, Some(OpenRouterToolChoice::Auto));
    for session in [connected(), unconnected()] {
        let remote = chat(session);
        assert!(remote.tools.is_empty());
        assert_eq!(remote.tool_choice, None);
    }
}

#[test]
fn remote_by_session_or_by_tab_is_remote() {
    let mut context = params(None).session_context;
    assert!(!context.is_remote_or_helm_bound());
    context.is_helm_remote = true;
    assert!(context.is_remote_or_helm_bound());
    context.is_helm_remote = false;
    context.is_remote = true;
    assert!(context.is_remote_or_helm_bound());
}

fn bound_tab() -> HelmTabBinding {
    let mut tab = HelmTabBinding::new();
    tab.freeze_remote(HelmEndpointBinding::for_test("e", "l", "h", "o", "u", "t")).unwrap();
    tab
}

fn sent_from(tab: &HelmTabBinding) -> RequestParams {
    let mut p = params(None);
    p.session_context = p.session_context.with_tab(tab);
    p
}

#[test]
fn a_session_takes_over_the_state_of_its_tab() {
    let mut tab = HelmTabBinding::new();
    let session = params(None).session_context.with_tab(&tab);
    assert_eq!(session, params(None).session_context);
    tab.freeze_remote(HelmEndpointBinding::for_test("e", "l", "h", "o", "u", "t")).unwrap();
    tab.set_connection_state(HelmConnectionState::Stale);
    let session = params(connected()).session_context.with_tab(&tab);
    assert!(session.is_helm_remote);
    assert_eq!(session.helm_connection_state, HelmConnectionState::Stale);
    assert_eq!(session.effective_session_type, connected());
}

#[test]
fn bound_tabs_send_nothing_unless_connected() {
    let mut tab = bound_tab();
    assert!(prepare_request(sent_from(&tab), &flags(true), Ok(input())).is_ok());
    for state in [HelmConnectionState::Stale, HelmConnectionState::Disconnected] {
        tab.set_connection_state(state);
        let refused = ConvertToAPITypeError::HelmTabNotConnected { state };
        assert_eq!(check_tab(&sent_from(&tab).session_context), Err(refused.clone()));
        assert_eq!(
            prepare_request(sent_from(&tab), &flags(true), Ok(input())),
            Err(refused.clone())
        );
        assert_eq!(
            prepare_request(sent_from(&tab), &flags(true), Err(ConvertToAPITypeError::Ignore)),
            Err(refused)
        );
    }
}

#[test]
fn unbound_tabs_are_not_held_back() {
    let mut tab = HelmTabBinding::new();
    tab.set_connection_state(HelmConnectionState::Disconnected);
    assert_eq!(check_tab(&sent_from(&tab).session_context), Ok(()));
}

#[test]
fn a_tab_that_was_not_found_counts_before_its_state() {
    let mut tab = bound_tab();
    tab.set_connection_state(HelmConnectionState::Stale);
    let mut session = sent_from(&tab).session_context;
    session.has_unresolved_helm_binding_lookup = true;
    assert_eq!(check_tab(&session), Err(ConvertToAPITypeError::HelmTabLookupFailed));
}

#[test]
fn a_stopped_refresh_holds_requests_back() {
    let mut tab = bound_tab();
    let identity = tab.get().unwrap().endpoint_identity_owned();
    let descriptor = HelmRefreshDescriptor::new(Some("u"), Some("rt"), identity).unwrap();
    let failed = Err(RefreshStepError::Parse("html".to_string()));
    assert!(!refresh_loop_step(&mut tab, &descriptor, failed));
    assert_eq!(
        prepare_request(sent_from(&tab), &flags(true), Ok(input())),
        Err(ConvertToAPITypeError::HelmTabNotConnected { state: HelmConnectionState::Stale })
    );
}

#[test]
fn input_is_converted_as_the_request_asks() {
    let mut p = params(None);
    assert!(!input_steps(&p).redact);
    assert!(!input_steps(&p).is_remote);
    p.should_redact_secrets = true;
    p.session_context.is_helm_remote = true;
    assert!(input_steps(&p).redact);
    assert!(input_steps(&p).is_remote);
    p.session_context.is_helm_remote = false;
    p.session_context.is_remote = true;
    assert!(input_steps(&p).is_remote);
}
