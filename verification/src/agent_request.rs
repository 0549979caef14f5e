//! Construction of multi-agent requests: which tools the client offers, what the server
//! is told, and which requests are refused before anything is sent.
//!
//! A tab that was not found, or that is bound to an endpoint which is not connected, sends
//! nothing. A tab that is bound to a remote endpoint must never let the model run commands
//! on the user's own machine. So the tools that reach a local shell are not even offered
//! there.
use crate::helm_tab_binding::{HelmConnectionState, HelmTabBinding, IdentityView, TabView};
use crate::helm_warp;
use crate::helm_warp::{RefreshResponse, RefreshStepError};
use crate::multi_agent::{
    ApiKeys, EncodedMessage, Input, LoggingValue, Metadata, ModelConfig, Request, Settings, Task,
    TaskContext, ToolType,
};
use crate::text;
use crate::text::text_or_empty;
use vstd::prelude::*;
use vstd::string::*;

verus! {

/// Which features are switched on.
#[derive(Debug, Clone, Copy, PartialEq, Eq, Structural)]
pub struct FeatureFlags {
    pub configurable_context_window: bool,
    pub linked_code_blocks: bool,
    pub read_image_files: bool,
    pub v4a_file_diffs: bool,
    pub summarization_via_message_replacement: bool,
    pub bundled_skills: bool,
    pub orchestration_v2: bool,
    pub conversations_as_context: bool,
    pub artifact_command: bool,
    pub remote_codebase_indexing: bool,
    pub agent_mode_computer_use: bool,
    pub pr_comments_slash_command: bool,
    pub list_skills: bool,
    pub run_agents_tool: bool,
    pub ask_user_question: bool,
    pub transfer_control_tool: bool,
}

/// Where a terminal session runs.
#[derive(Debug, Clone, PartialEq, Eq)]
pub enum SessionType {
    Local,
    /// On a remote host; its id once it is connected.
    WarpifiedRemote { host_id: Option<String> },
}

/// What a request knows of its session.
#[derive(Debug, Clone, PartialEq, Eq)]
pub struct SessionContext {
    /// Where commands of the session run, the tab's binding taken into account.
    pub effective_session_type: Option<SessionType>,
    /// Whether the terminal session itself is remote.
    pub is_remote: bool,
    /// Whether the tab is bound to a remote endpoint.
    pub is_helm_remote: bool,
    /// The connection state of the tab's endpoint. It says something only while the tab is
    /// bound.
    pub helm_connection_state: HelmConnectionState,
    /// Whether the tab that owns the session could not be found.
    pub has_unresolved_helm_binding_lookup: bool,
}

impl SessionContext {
    /// Whether commands of the session run on another machine.
    pub open spec fn runs_remotely(self) -> bool {
        self.effective_session_type matches Some(SessionType::WarpifiedRemote { .. })
    }

    /// Whether the session's commands run on a connected remote host.
    pub open spec fn is_connected_remote(self) -> bool {
        self.effective_session_type matches Some(SessionType::WarpifiedRemote { host_id: Some(_) })
    }

    /// Takes over what a tab's slot says: whether the tab is bound, and whether its endpoint
    /// is connected. Where commands run is settled by whoever makes the session.
    pub fn with_tab(self, tab: &HelmTabBinding) -> (r: Self)
        ensures
            r == sent_from(self, tab@),
    {
        SessionContext {
            effective_session_type: self.effective_session_type,
            is_remote: self.is_remote,
            is_helm_remote: tab.is_remote(),
            helm_connection_state: tab.connection_state(),
            has_unresolved_helm_binding_lookup: self.has_unresolved_helm_binding_lookup,
        }
    }

    /// Whether the request is for another machine, by its session or by its tab. The
    /// request then carries nothing of the local shell and operating system.
    pub fn is_remote_or_helm_bound(&self) -> (r: bool)
        ensures
            r == (self.is_remote || self.is_helm_remote),
    {
        self.is_remote || self.is_helm_remote
    }
}

/// How a request came about.
#[derive(Debug, Clone, PartialEq, Eq)]
pub struct RequestMetadata {
    pub is_autodetected_user_query: bool,
    pub entrypoint: String,
    pub is_auto_resume_after_error: bool,
}

/// What a request is made of, besides its input.
#[derive(Debug, Clone, PartialEq, Eq)]
pub struct RequestParams {
    pub session_context: SessionContext,
    pub tasks: Vec<Task>,
    pub model: String,
    pub cli_agent_model: String,
    pub computer_use_model: String,
    pub context_window_limit: Option<u32>,
    pub is_memory_enabled: bool,
    pub warp_drive_context_enabled: bool,
    pub planning_enabled: bool,
    pub should_redact_secrets: bool,
    pub api_keys: Option<ApiKeys>,
    pub allow_use_of_warp_credits: bool,
    pub autonomy_level: i32,
    pub isolation_level: i32,
    pub web_search_enabled: bool,
    pub computer_use_enabled: bool,
    pub orchestration_enabled: bool,
    pub ask_user_question_enabled: bool,
    pub research_agent_enabled: bool,
    pub custom_model_providers: Option<EncodedMessage>,
    /// When set, offered to the model in place of the tools that fit the session.
    pub supported_tools_override: Option<Vec<ToolType>>,
    pub metadata: Option<RequestMetadata>,
    pub conversation_token: Option<String>,
    pub ambient_agent_task_id: Option<String>,
    pub forked_from_conversation_token: Option<String>,
    pub parent_agent_id: Option<String>,
    pub agent_name: Option<String>,
    pub existing_suggestions: Option<EncodedMessage>,
    pub mcp_context: Option<EncodedMessage>,
}

/// Why a request could not be made.
#[derive(Debug, Clone, PartialEq, Eq)]
pub enum ConvertToAPITypeError {
    /// The tab of the request was not found, so nobody knows which endpoint it is for.
    HelmTabLookupFailed,
    /// The tab is bound to an endpoint that is not connected. Nothing is sent until the user
    /// reconnects.
    HelmTabNotConnected { state: HelmConnectionState },
    /// An input that is to be ignored.
    Ignore,
    Other { message: String },
}

/// Why no request may be sent from a session, whatever it asks for: its tab was not found,
/// or its tab is bound to an endpoint that is not connected.
pub open spec fn tab_refusal(session: SessionContext) -> Option<ConvertToAPITypeError> {
    if session.has_unresolved_helm_binding_lookup {
        Some(ConvertToAPITypeError::HelmTabLookupFailed)
    } else if session.is_helm_remote && session.helm_connection_state
        != HelmConnectionState::Connected {
        Some(ConvertToAPITypeError::HelmTabNotConnected { state: session.helm_connection_state })
    } else {
        None
    }
}

/// Refuses a request whose tab was not found: it may not fall through to another endpoint,
/// for that could not be told apart from a request that went astray. Refuses a request of a
/// bound tab, too, whose endpoint is stale or disconnected.
pub fn check_tab(session_context: &SessionContext) -> (r: Result<(), ConvertToAPITypeError>)
    ensures
        r == match tab_refusal(*session_context) {
            Some(e) => Err::<(), ConvertToAPITypeError>(e),
            None => Ok(()),
        },
{
    if session_context.has_unresolved_helm_binding_lookup {
        return Err(ConvertToAPITypeError::HelmTabLookupFailed);
    }
    if session_context.is_helm_remote && !session_context.helm_connection_state.is_connected() {
        return Err(
            ConvertToAPITypeError::HelmTabNotConnected {
                state: session_context.helm_connection_state,
            },
        );
    }
    Ok(())
}

/// How the input of a request is to be converted.
#[derive(Debug, Clone, Copy, PartialEq, Eq, Structural)]
pub struct InputSteps {
    /// Take out what looks like a secret, before anything else.
    pub redact: bool,
    /// Leave the local machine out.
    pub is_remote: bool,
}

/// Decides how the input of a request is to be converted.
pub fn input_steps(params: &RequestParams) -> (r: InputSteps)
    ensures
        r.redact == params.should_redact_secrets,
        r.is_remote == (params.session_context.is_remote
            || params.session_context.is_helm_remote),
{
    InputSteps {
        redact: params.should_redact_secrets,
        is_remote: params.session_context.is_remote_or_helm_bound(),
    }
}

/// Sets whether credits may be used beside the user's keys. Without keys there is an
/// entry only when credits may be used.
pub fn api_keys_with_warp_credit_fallback_setting(
    api_keys: Option<ApiKeys>,
    allow_use_of_warp_credits: bool,
) -> (r: Option<ApiKeys>)
    ensures
        r == match api_keys {
            Some(keys) => Some(ApiKeys { allow_use_of_warp_credits, ..keys }),
            None => if allow_use_of_warp_credits {
                Some(ApiKeys { keys: None, allow_use_of_warp_credits: true })
            } else {
                None
            },
        },
{
    match api_keys {
        Some(api_keys) => Some(
            ApiKeys { keys: api_keys.keys, allow_use_of_warp_credits },
        ),
        None => {
            if allow_use_of_warp_credits {
                Some(ApiKeys { keys: None, allow_use_of_warp_credits: true })
            } else {
                None
            }
        },
    }
}

/// The tools that reach a shell on the user's own machine.
pub open spec fn reaches_local_shell(tool: ToolType) -> bool {
    ||| tool == ToolType::RunShellCommand
    ||| tool == ToolType::WriteToLongRunningShellCommand
    ||| tool == ToolType::ReadShellCommandOutput
    ||| tool == ToolType::TransferShellCommandControlToUser
}

/// A list of tools without those that reach a local shell.
pub open spec fn without_local_shell(tools: Seq<ToolType>) -> Seq<ToolType>
    decreases tools.len(),
{
    if tools.len() == 0 {
        seq![]
    } else {
        let before = without_local_shell(tools.drop_last());
        if reaches_local_shell(tools.last()) {
            before
        } else {
            before.push(tools.last())
        }
    }
}

/// Removes the tools that reach a local shell.
fn strip_local_shell(tools: Vec<ToolType>) -> (r: Vec<ToolType>)
    ensures
        r@ == without_local_shell(tools@),
{
    let mut kept: Vec<ToolType> = Vec::new();
    let n: usize = tools.len();
    assert(tools@.take(0) =~= seq![]);
    for i in 0..n
        invariant
            n == tools@.len(),
            kept@ == without_local_shell(tools@.take(i as int)),
    {
        let tool = tools[i];
        assert(tools@.take(i + 1).drop_last() =~= tools@.take(i as int));
        assert(tools@.take(i + 1).last() == tool);
        if !(tool == ToolType::RunShellCommand || tool == ToolType::WriteToLongRunningShellCommand
            || tool == ToolType::ReadShellCommandOutput || tool
            == ToolType::TransferShellCommandControlToUser) {
            kept.push(tool);
        }
    }
    assert(tools@.take(n as int) =~= tools@);
    kept
}

/// A tool under a condition.
pub open spec fn when(condition: bool, tool: ToolType) -> Seq<ToolType> {
    if condition {
        seq![tool]
    } else {
        seq![]
    }
}

/// Appends a tool under a condition.
fn push_when(tools: &mut Vec<ToolType>, condition: bool, tool: ToolType)
    ensures
        final(tools)@ == old(tools)@ + when(condition, tool),
{
    if condition {
        tools.push(tool);
    }
    assert(tools@ =~= old(tools)@ + when(condition, tool));
}

/// The tools that every client has.
#[verifier::opaque]
pub open spec fn common_tools() -> Seq<ToolType> {
    seq![
        ToolType::Grep,
        ToolType::FileGlob,
        ToolType::FileGlobV2,
        ToolType::ReadMcpResource,
        ToolType::CallMcpTool,
        ToolType::InitProject,
        ToolType::OpenCodeReview,
        ToolType::RunShellCommand,
        ToolType::SuggestNewConversation,
        ToolType::Subagent,
        ToolType::WriteToLongRunningShellCommand,
        ToolType::ReadShellCommandOutput,
        ToolType::ReadDocuments,
        ToolType::CreateDocuments,
        ToolType::EditDocuments,
        ToolType::SuggestPrompt,
    ]
}

/// The tools that work on files, by where the session runs.
pub open spec fn file_tools(session: SessionContext, flags: FeatureFlags) -> Seq<ToolType> {
    if !session.runs_remotely() {
        seq![ToolType::ReadFiles, ToolType::ApplyFileDiffs, ToolType::SearchCodebase] + when(
            flags.artifact_command,
            ToolType::UploadFileArtifact,
        )
    } else if session.is_connected_remote() {
        seq![ToolType::ReadFiles, ToolType::ApplyFileDiffs] + when(
            flags.remote_codebase_indexing,
            ToolType::SearchCodebase,
        )
    } else {
        seq![]
    }
}

/// The tools to work with other agents.
pub open spec fn orchestration_tools(params: RequestParams, flags: FeatureFlags) -> Seq<ToolType> {
    if params.orchestration_enabled {
        seq![
            if flags.orchestration_v2 {
                ToolType::StartAgentV2
            } else {
                ToolType::StartAgent
            },
        ] + when(flags.run_agents_tool && flags.orchestration_v2, ToolType::RunAgents)
            + seq![ToolType::SendMessageToAgent]
    } else {
        seq![]
    }
}

/// The tools that come first: what every client has, without the local shell where the
/// session runs remotely.
pub open spec fn leading_tools(params: RequestParams, flags: FeatureFlags) -> Seq<ToolType> {
    let all = common_tools() + when(flags.conversations_as_context, ToolType::FetchConversation);
    if params.session_context.runs_remotely() {
        without_local_shell(all)
    } else {
        all
    }
}

/// The tools that fit the session and the switches of a request, in order.
pub open spec fn fitting_tools(params: RequestParams, flags: FeatureFlags) -> Seq<ToolType> {
    let computer_use = flags.agent_mode_computer_use && params.computer_use_enabled;
    leading_tools(params, flags) + file_tools(params.session_context, flags) + when(
        computer_use,
        ToolType::UseComputer,
    ) + when(computer_use, ToolType::RequestComputerUse) + when(
        flags.pr_comments_slash_command,
        ToolType::InsertReviewComments,
    ) + when(flags.list_skills, ToolType::ReadSkill) + orchestration_tools(params, flags) + when(
        flags.ask_user_question && params.ask_user_question_enabled,
        ToolType::AskUserQuestion,
    )
}

/// Lists the tools that every client has.
fn list_common_tools() -> (r: Vec<ToolType>)
    ensures
        r@ == common_tools(),
{
    let r: Vec<ToolType> = vec![
        ToolType::Grep,
        ToolType::FileGlob,
        ToolType::FileGlobV2,
        ToolType::ReadMcpResource,
        ToolType::CallMcpTool,
        ToolType::InitProject,
        ToolType::OpenCodeReview,
        ToolType::RunShellCommand,
        ToolType::SuggestNewConversation,
        ToolType::Subagent,
        ToolType::WriteToLongRunningShellCommand,
        ToolType::ReadShellCommandOutput,
        ToolType::ReadDocuments,
        ToolType::CreateDocuments,
        ToolType::EditDocuments,
        ToolType::SuggestPrompt,
    ];
    proof {
        reveal(common_tools);
    }
    assert(r@ =~= common_tools());
    r
}

/// Lists the tools that come first and the tools that work on files.
fn list_session_tools(params: &RequestParams, flags: &FeatureFlags) -> (r: Vec<ToolType>)
    ensures
        r@ == leading_tools(*params, *flags) + file_tools(params.session_context, *flags),
{
    let mut tools = list_common_tools();
    push_when(&mut tools, flags.conversations_as_context, ToolType::FetchConversation);
    let ghost leading = leading_tools(*params, *flags);
    match &params.session_context.effective_session_type {
        None | Some(SessionType::Local) => {
            assert(tools@ == leading);
            tools.push(ToolType::ReadFiles);
            tools.push(ToolType::ApplyFileDiffs);
            tools.push(ToolType::SearchCodebase);
            push_when(&mut tools, flags.artifact_command, ToolType::UploadFileArtifact);
        },
        Some(SessionType::WarpifiedRemote { host_id: Some(_) }) => {
            tools = strip_local_shell(tools);
            assert(tools@ == leading);
            tools.push(ToolType::ReadFiles);
            tools.push(ToolType::ApplyFileDiffs);
            push_when(&mut tools, flags.remote_codebase_indexing, ToolType::SearchCodebase);
        },
        Some(SessionType::WarpifiedRemote { host_id: None }) => {
            // Not connected yet: no remote tools, and no local shell either.
            tools = strip_local_shell(tools);
            assert(tools@ == leading);
        },
    }
    assert(tools@ =~= leading + file_tools(params.session_context, *flags));
    tools
}

/// Appends the tools to work with other agents.
fn push_orchestration_tools(tools: &mut Vec<ToolType>, params: &RequestParams, flags: &FeatureFlags)
    ensures
        final(tools)@ == old(tools)@ + orchestration_tools(*params, *flags),
{
    if params.orchestration_enabled {
        // Starting one agent is offered even beside running several, for servers that do
        // not take the latter.
        tools.push(
            if flags.orchestration_v2 {
                ToolType::StartAgentV2
            } else {
                ToolType::StartAgent
            },
        );
        push_when(tools, flags.run_agents_tool && flags.orchestration_v2, ToolType::RunAgents);
        tools.push(ToolType::SendMessageToAgent);
    }
    assert(tools@ =~= old(tools)@ + orchestration_tools(*params, *flags));
}

/// Lists the tools to offer to the model for a request.
pub fn get_supported_tools(params: &RequestParams, flags: &FeatureFlags) -> (r: Vec<ToolType>)
    ensures
        r@ == fitting_tools(*params, *flags),
{
    let mut tools = list_session_tools(params, flags);
    let computer_use = flags.agent_mode_computer_use && params.computer_use_enabled;
    push_when(&mut tools, computer_use, ToolType::UseComputer);
    push_when(&mut tools, computer_use, ToolType::RequestComputerUse);
    push_when(&mut tools, flags.pr_comments_slash_command, ToolType::InsertReviewComments);
    push_when(&mut tools, flags.list_skills, ToolType::ReadSkill);
    push_orchestration_tools(&mut tools, params, flags);
    push_when(
        &mut tools,
        flags.ask_user_question && params.ask_user_question_enabled,
        ToolType::AskUserQuestion,
    );
    tools
}

/// The tools that every command line agent has.
pub open spec fn common_cli_tools() -> Seq<ToolType> {
    seq![
        ToolType::WriteToLongRunningShellCommand,
        ToolType::ReadShellCommandOutput,
        ToolType::Grep,
        ToolType::FileGlob,
        ToolType::FileGlobV2,
    ]
}

/// The tools of a command line agent that fit the session, in order.
pub open spec fn fitting_cli_tools(session: SessionContext, flags: FeatureFlags) -> Seq<ToolType> {
    if !session.runs_remotely() {
        common_cli_tools() + seq![ToolType::ReadFiles, ToolType::SearchCodebase] + when(
            flags.transfer_control_tool,
            ToolType::TransferShellCommandControlToUser,
        )
    } else if session.is_connected_remote() {
        without_local_shell(common_cli_tools()) + seq![ToolType::ReadFiles] + when(
            flags.remote_codebase_indexing,
            ToolType::SearchCodebase,
        )
    } else {
        without_local_shell(common_cli_tools())
    }
}

/// Lists the tools to offer to a command line agent.
pub fn get_supported_cli_agent_tools(params: &RequestParams, flags: &FeatureFlags) -> (r: Vec<
    ToolType,
>)
    ensures
        r@ == fitting_cli_tools(params.session_context, *flags),
{
    let mut tools: Vec<ToolType> = vec![
        ToolType::WriteToLongRunningShellCommand,
        ToolType::ReadShellCommandOutput,
        ToolType::Grep,
        ToolType::FileGlob,
        ToolType::FileGlobV2,
    ];
    assert(tools@ =~= common_cli_tools());
    match &params.session_context.effective_session_type {
        None | Some(SessionType::Local) => {
            tools.push(ToolType::ReadFiles);
            tools.push(ToolType::SearchCodebase);
            // Hands a local process over to the user, so only local sessions have it.
            push_when(
                &mut tools,
                flags.transfer_control_tool,
                ToolType::TransferShellCommandControlToUser,
            );
        },
        Some(SessionType::WarpifiedRemote { host_id: Some(_) }) => {
            tools = strip_local_shell(tools);
            tools.push(ToolType::ReadFiles);
            push_when(&mut tools, flags.remote_codebase_indexing, ToolType::SearchCodebase);
        },
        Some(SessionType::WarpifiedRemote { host_id: None }) => {
            tools = strip_local_shell(tools);
        },
    }
    assert(tools@ =~= fitting_cli_tools(params.session_context, *flags));
    tools
}

/// What the server logs of a request.
pub open spec fn logs(
    entries: Seq<(&'static str, LoggingValue)>,
    metadata: Option<RequestMetadata>,
) -> bool {
    match metadata {
        Some(m) => {
            &&& entries.len() == 3
            &&& entries[0].0@ == "is_autodetected_user_query"@
            &&& entries[0].1 == LoggingValue::Bool(m.is_autodetected_user_query)
            &&& entries[1].0@ == "entrypoint"@
            &&& entries[1].1 == LoggingValue::Text(m.entrypoint)
            &&& entries[2].0@ == "is_auto_resume_after_error"@
            &&& entries[2].1 == LoggingValue::Bool(m.is_auto_resume_after_error)
        },
        None => entries.len() == 0,
    }
}

/// Lists what the server is to log of a request.
pub fn logging_metadata(metadata: Option<RequestMetadata>) -> (r: Vec<
    (&'static str, LoggingValue),
>)
    ensures
        logs(r@, metadata),
{
    let mut entries: Vec<(&'static str, LoggingValue)> = Vec::new();
    if let Some(m) = metadata {
        entries.push(
            ("is_autodetected_user_query", LoggingValue::Bool(m.is_autodetected_user_query)),
        );
        entries.push(("entrypoint", LoggingValue::Text(m.entrypoint)));
        entries.push(
            ("is_auto_resume_after_error", LoggingValue::Bool(m.is_auto_resume_after_error)),
        );
    }
    entries
}

/// No name stands twice in what the server logs.
pub proof fn law_logged_names_are_distinct(
    entries: Seq<(&'static str, LoggingValue)>,
    metadata: Option<RequestMetadata>,
    i: int,
    j: int,
)
    requires
        logs(entries, metadata),
        0 <= i < j < entries.len(),
    ensures
        entries[i].0@ != entries[j].0@,
{
    reveal_strlit("is_autodetected_user_query");
    reveal_strlit("entrypoint");
    reveal_strlit("is_auto_resume_after_error");
    assert("is_autodetected_user_query"@[7] != "is_auto_resume_after_error"@[7]);
    assert("entrypoint"@.len() != "is_autodetected_user_query"@.len());
    assert("entrypoint"@.len() != "is_auto_resume_after_error"@.len());
}

/// Whether settings are those that the parameters and the feature flags of a request ask
/// for, once the tools are settled.
pub open spec fn settings_for(
    settings: Settings,
    params: RequestParams,
    flags: FeatureFlags,
    tools: Seq<ToolType>,
    cli_tools: Seq<ToolType>,
) -> bool {
    &&& settings.model_config == Some(
        ModelConfig {
            base: params.model,
            cli_agent: params.cli_agent_model,
            computer_use_agent: params.computer_use_model,
            base_model_context_window_limit: if flags.configurable_context_window {
                match params.context_window_limit {
                    Some(limit) => limit,
                    None => 0,
                }
            } else {
                0
            },
        },
    )
    &&& settings.supported_tools@ == tools
    &&& settings.supported_cli_agent_tools@ == cli_tools
    &&& settings.api_keys == match params.api_keys {
        Some(keys) => Some(
            ApiKeys { allow_use_of_warp_credits: params.allow_use_of_warp_credits, ..keys },
        ),
        None => if params.allow_use_of_warp_credits {
            Some(ApiKeys { keys: None, allow_use_of_warp_credits: true })
        } else {
            None
        },
    }
    &&& settings.custom_model_providers == params.custom_model_providers
    &&& settings.autonomy_level == params.autonomy_level
    &&& settings.isolation_level == params.isolation_level
    // As the parameters say.
    &&& settings.rules_enabled == params.is_memory_enabled
    &&& settings.warp_drive_context_enabled == params.warp_drive_context_enabled
    &&& settings.planning_enabled == params.planning_enabled
    &&& settings.web_search_enabled == params.web_search_enabled
    &&& settings.supports_research_agent == params.research_agent_enabled
    // As the feature flags say.
    &&& settings.supports_linked_code_blocks == flags.linked_code_blocks
    &&& settings.supports_read_image_files == flags.read_image_files
    &&& settings.supports_v4a_file_diffs == flags.v4a_file_diffs
    &&& settings.supports_summarization_via_message_replacement
        == flags.summarization_via_message_replacement
    &&& settings.supports_bundled_skills == flags.bundled_skills
    &&& settings.supports_orchestration_v2 == flags.orchestration_v2
    // The same for every request.
    &&& settings.web_context_retrieval_enabled
    &&& settings.supports_parallel_tool_calls
    &&& !settings.use_anthropic_text_editor_tools
    &&& settings.supports_create_files
    &&& settings.supports_long_running_commands
    &&& settings.should_preserve_file_content_in_history
    &&& settings.supports_todos_ui
    &&& settings.supports_started_child_task_message
    &&& settings.supports_suggest_prompt
    &&& settings.supports_reasoning_message
}

/// Whether metadata is that of a request with these parameters. The conversation that it
/// was forked from is named only while it has no id of its own.
pub open spec fn metadata_for(metadata: Metadata, params: RequestParams) -> bool {
    &&& logs(metadata.logging@, params.metadata)
    &&& metadata.conversation_id@ == text::or_empty(params.conversation_token)
    &&& metadata.ambient_agent_task_id@ == text::or_empty(params.ambient_agent_task_id)
    &&& metadata.forked_from_conversation_id@ == if params.conversation_token is None {
        text::or_empty(params.forked_from_conversation_token)
    } else {
        seq![]
    }
    &&& metadata.parent_agent_id@ == text::or_empty(params.parent_agent_id)
    &&& metadata.agent_name@ == text::or_empty(params.agent_name)
}

/// The tools that a request offers to the model.
pub open spec fn offered_tools(params: RequestParams, flags: FeatureFlags) -> Seq<ToolType> {
    match params.supported_tools_override {
        Some(tools) => tools@,
        None => fitting_tools(params, flags),
    }
}

/// Whether a request is the one that these parameters, feature flags and input ask for.
pub open spec fn request_for(
    request: Request,
    params: RequestParams,
    flags: FeatureFlags,
    input: Input,
) -> bool {
    &&& request.task_context == Some(TaskContext { tasks: params.tasks })
    &&& request.input == Some(input)
    &&& request.settings matches Some(settings) && settings_for(
        settings,
        params,
        flags,
        offered_tools(params, flags),
        fitting_cli_tools(params.session_context, flags),
    )
    &&& request.metadata matches Some(metadata) && metadata_for(metadata, params)
    &&& request.existing_suggestions == params.existing_suggestions
    &&& request.mcp_context == params.mcp_context
}

/// Builds the request, given its converted input.
pub fn build_request(params: RequestParams, flags: &FeatureFlags, input: Input) -> (r: Request)
    ensures
        request_for(r, params, *flags, input),
        r.task_context == Some(TaskContext { tasks: params.tasks }),
        r.input == Some(input),
{
    let ghost whole = params;
    let supported_cli_agent_tools = get_supported_cli_agent_tools(&params, flags);
    let fitting = get_supported_tools(&params, flags);
    let supported_tools = match params.supported_tools_override {
        Some(tools) => tools,
        None => fitting,
    };
    let api_keys = api_keys_with_warp_credit_fallback_setting(
        params.api_keys,
        params.allow_use_of_warp_credits,
    );
    let base_model_context_window_limit: u32 = if flags.configurable_context_window {
        match params.context_window_limit {
            Some(limit) => limit,
            None => 0,
        }
    } else {
        0
    };
    let settings = Settings {
        model_config: Some(
            ModelConfig {
                base: params.model,
                cli_agent: params.cli_agent_model,
                computer_use_agent: params.computer_use_model,
                base_model_context_window_limit,
            },
        ),
        rules_enabled: params.is_memory_enabled,
        warp_drive_context_enabled: params.warp_drive_context_enabled,
        web_context_retrieval_enabled: true,
        supports_parallel_tool_calls: true,
        use_anthropic_text_editor_tools: false,
        planning_enabled: params.planning_enabled,
        supports_create_files: true,
        supported_tools,
        supports_long_running_commands: true,
        should_preserve_file_content_in_history: true,
        supports_todos_ui: true,
        supports_linked_code_blocks: flags.linked_code_blocks,
        supports_started_child_task_message: true,
        supports_suggest_prompt: true,
        supports_read_image_files: flags.read_image_files,
        supports_reasoning_message: true,
        api_keys,
        autonomy_level: params.autonomy_level,
        isolation_level: params.isolation_level,
        web_search_enabled: params.web_search_enabled,
        supported_cli_agent_tools,
        supports_v4a_file_diffs: flags.v4a_file_diffs,
        supports_summarization_via_message_replacement: flags.summarization_via_message_replacement,
        supports_bundled_skills: flags.bundled_skills,
        supports_research_agent: params.research_agent_enabled,
        supports_orchestration_v2: flags.orchestration_v2,
        custom_model_providers: params.custom_model_providers,
    };
    let forked_from_conversation_id = if params.conversation_token.is_none() {
        text_or_empty(params.forked_from_conversation_token)
    } else {
        String::new()
    };
    let metadata = Metadata {
        logging: logging_metadata(params.metadata),
        conversation_id: text_or_empty(params.conversation_token),
        ambient_agent_task_id: text_or_empty(params.ambient_agent_task_id),
        forked_from_conversation_id,
        parent_agent_id: text_or_empty(params.parent_agent_id),
        agent_name: text_or_empty(params.agent_name),
    };
    let r = Request {
        task_context: Some(TaskContext { tasks: params.tasks }),
        input: Some(input),
        settings: Some(settings),
        metadata: Some(metadata),
        existing_suggestions: params.existing_suggestions,
        mcp_context: params.mcp_context,
    };
    assert(settings_for(
        settings,
        whole,
        *flags,
        offered_tools(whole, *flags),
        fitting_cli_tools(whole.session_context, *flags),
    ));
    assert(metadata_for(metadata, whole));
    r
}

/// Makes the request to send, or says why there is none. The tab comes first: when it was
/// not found or is not connected, nothing else counts. Then the input must have converted.
pub fn prepare_request(
    params: RequestParams,
    flags: &FeatureFlags,
    input: Result<Input, ConvertToAPITypeError>,
) -> (r: Result<Request, ConvertToAPITypeError>)
    ensures
        match tab_refusal(params.session_context) {
            Some(e) => r == Err::<Request, _>(e),
            None => match input {
                Ok(input) => r matches Ok(request) && request_for(request, params, *flags, input)
                    && request.task_context == Some(TaskContext { tasks: params.tasks })
                    && request.input == Some(input),
                Err(e) => r == Err::<Request, _>(e),
            },
        },
{
    if let Err(e) = check_tab(&params.session_context) {
        return Err(e);
    }
    match input {
        Ok(input) => Ok(build_request(params, flags, input)),
        Err(e) => Err(e),
    }
}

/// The session of a request that is sent from a tab.
pub open spec fn sent_from(session: SessionContext, tab: TabView) -> SessionContext {
    SessionContext {
        is_helm_remote: tab.binding is Some,
        helm_connection_state: tab.connection_state,
        ..session
    }
}

/// A bound tab sends nothing unless its endpoint is connected; an unbound tab that was
/// found is never held back.
pub proof fn law_unconnected_tabs_send_nothing(session: SessionContext, tab: TabView)
    ensures
        tab.binding is Some && tab.connection_state != HelmConnectionState::Connected
            ==> tab_refusal(sent_from(session, tab)) is Some,
        tab_refusal(sent_from(session, tab)) is None <==> {
            &&& !session.has_unresolved_helm_binding_lookup
            &&& tab.binding is None || tab.connection_state == HelmConnectionState::Connected
        },
{
}

/// Once the refresh loop of a bound tab has stopped, the tab sends nothing.
pub proof fn law_stopped_refresh_holds_requests_back(
    session: SessionContext,
    tab: TabView,
    frozen: IdentityView,
    result: Result<RefreshResponse, RefreshStepError>,
)
    requires
        tab.binding is Some,
        tab.binding->0.identity == frozen,
        !helm_warp::after_step(tab, frozen, result).1,
    ensures
        tab_refusal(sent_from(session, helm_warp::after_step(tab, frozen, result).0)) is Some,
{
    helm_warp::law_stopped_loop_leaves_stale_binding(tab, frozen, result);
}

/// Whether no tool of a list reaches a local shell.
pub open spec fn no_local_shell(tools: Seq<ToolType>) -> bool {
    forall|i: int| 0 <= i < tools.len() ==> !reaches_local_shell(#[trigger] tools[i])
}

proof fn lemma_stripped(tools: Seq<ToolType>)
    ensures
        no_local_shell(without_local_shell(tools)),
    decreases tools.len(),
{
    if tools.len() > 0 {
        lemma_stripped(tools.drop_last());
    }
}

proof fn lemma_no_local_shell_concat(a: Seq<ToolType>, b: Seq<ToolType>)
    requires
        no_local_shell(a),
        no_local_shell(b),
    ensures
        no_local_shell(a + b),
{
    assert forall|i: int| 0 <= i < (a + b).len() implies !reaches_local_shell(
        #[trigger] (a + b)[i],
    ) by {
        if i < a.len() {
            assert((a + b)[i] == a[i]);
        } else {
            assert((a + b)[i] == b[i - a.len()]);
        }
    }
}

/// Where commands run remotely, neither the model nor a command line agent is offered a
/// tool that reaches a shell on the user's own machine.
pub proof fn law_remote_sessions_get_no_local_shell(params: RequestParams, flags: FeatureFlags)
    requires
        params.session_context.runs_remotely(),
    ensures
        no_local_shell(fitting_tools(params, flags)),
        no_local_shell(fitting_cli_tools(params.session_context, flags)),
{
    let session = params.session_context;
    let computer_use = flags.agent_mode_computer_use && params.computer_use_enabled;
    lemma_stripped(
        common_tools() + when(flags.conversations_as_context, ToolType::FetchConversation),
    );
    let a = leading_tools(params, flags);
    let b = a + file_tools(session, flags);
    let c = b + when(computer_use, ToolType::UseComputer);
    let d = c + when(computer_use, ToolType::RequestComputerUse);
    let e = d + when(flags.pr_comments_slash_command, ToolType::InsertReviewComments);
    let f = e + when(flags.list_skills, ToolType::ReadSkill);
    let g = f + orchestration_tools(params, flags);
    lemma_no_local_shell_concat(a, file_tools(session, flags));
    lemma_no_local_shell_concat(b, when(computer_use, ToolType::UseComputer));
    lemma_no_local_shell_concat(c, when(computer_use, ToolType::RequestComputerUse));
    lemma_no_local_shell_concat(
        d,
        when(flags.pr_comments_slash_command, ToolType::InsertReviewComments),
    );
    lemma_no_local_shell_concat(e, when(flags.list_skills, ToolType::ReadSkill));
    lemma_no_local_shell_concat(f, orchestration_tools(params, flags));
    lemma_no_local_shell_concat(
        g,
        when(
            flags.ask_user_question && params.ask_user_question_enabled,
            ToolType::AskUserQuestion,
        ),
    );
    lemma_stripped(common_cli_tools());
}

/// Where commands run locally, the model is offered the local shell.
pub proof fn law_local_sessions_get_the_shell(params: RequestParams, flags: FeatureFlags)
    requires
        !params.session_context.runs_remotely(),
    ensures
        fitting_tools(params, flags).contains(ToolType::RunShellCommand),
        fitting_tools(params, flags).contains(ToolType::WriteToLongRunningShellCommand),
        fitting_tools(params, flags).contains(ToolType::ReadShellCommandOutput),
{
    reveal(common_tools);
    let fitting = fitting_tools(params, flags);
    assert(fitting[7] == ToolType::RunShellCommand);
    assert(fitting[10] == ToolType::WriteToLongRunningShellCommand);
    assert(fitting[11] == ToolType::ReadShellCommandOutput);
}

/// The place of a tool in the order in which tools are listed.
pub open spec fn rank(tool: ToolType) -> int {
    match tool {
        ToolType::Grep => 0,
        ToolType::FileGlob => 1,
        ToolType::FileGlobV2 => 2,
        ToolType::ReadMcpResource => 3,
        ToolType::CallMcpTool => 4,
        ToolType::InitProject => 5,
        ToolType::OpenCodeReview => 6,
        ToolType::RunShellCommand => 7,
        ToolType::SuggestNewConversation => 8,
        ToolType::Subagent => 9,
        ToolType::WriteToLongRunningShellCommand => 10,
        ToolType::ReadShellCommandOutput => 11,
        ToolType::ReadDocuments => 12,
        ToolType::CreateDocuments => 13,
        ToolType::EditDocuments => 14,
        ToolType::SuggestPrompt => 15,
        ToolType::FetchConversation => 16,
        ToolType::ReadFiles => 17,
        ToolType::ApplyFileDiffs => 18,
        ToolType::SearchCodebase => 19,
        ToolType::UploadFileArtifact => 20,
        ToolType::UseComputer => 21,
        ToolType::RequestComputerUse => 22,
        ToolType::InsertReviewComments => 23,
        ToolType::ReadSkill => 24,
        ToolType::StartAgent => 25,
        ToolType::StartAgentV2 => 25,
        ToolType::RunAgents => 26,
        ToolType::SendMessageToAgent => 27,
        ToolType::AskUserQuestion => 28,
        ToolType::TransferShellCommandControlToUser => 29,
        ToolType::Other { code } => 30 + code,
    }
}

/// Whether the ranks of a list rise strictly and lie between `low` and `high`.
spec fn ranked(tools: Seq<ToolType>, low: int, high: int) -> bool {
    &&& forall|i: int| 0 <= i < tools.len() ==> low <= rank(#[trigger] tools[i]) < high
    &&& forall|i: int, j: int|
        0 <= i < j < tools.len() ==> rank(#[trigger] tools[i]) < rank(#[trigger] tools[j])
}

proof fn lemma_ranked_concat(a: Seq<ToolType>, b: Seq<ToolType>, low: int, mid: int, high: int)
    requires
        ranked(a, low, mid),
        ranked(b, mid, high),
        low <= mid <= high,
    ensures
        ranked(a + b, low, high),
{
    let all = a + b;
    assert forall|i: int| 0 <= i < all.len() implies low <= rank(#[trigger] all[i]) < high by {
        if i < a.len() {
            assert(all[i] == a[i]);
        } else {
            assert(all[i] == b[i - a.len()]);
        }
    }
    assert forall|i: int, j: int| 0 <= i < j < all.len() implies rank(#[trigger] all[i]) < rank(
        #[trigger] all[j],
    ) by {
        if i < a.len() {
            assert(all[i] == a[i]);
        } else {
            assert(all[i] == b[i - a.len()]);
        }
        if j < a.len() {
            assert(all[j] == a[j]);
        } else {
            assert(all[j] == b[j - a.len()]);
        }
    }
}

proof fn lemma_ranked_stripped(tools: Seq<ToolType>, low: int, high: int)
    requires
        ranked(tools, low, high),
    ensures
        ranked(without_local_shell(tools), low, high),
    decreases tools.len(),
{
    if tools.len() > 0 {
        let init = tools.drop_last();
        let last = tools.last();
        assert forall|i: int| 0 <= i < init.len() implies low <= rank(#[trigger] init[i]) < rank(
            last,
        ) by {
            assert(init[i] == tools[i]);
        }
        assert(ranked(init, low, rank(last))) by {
            assert forall|i: int, j: int| 0 <= i < j < init.len() implies rank(#[trigger] init[i])
                < rank(#[trigger] init[j]) by {
                assert(init[i] == tools[i] && init[j] == tools[j]);
            }
        }
        lemma_ranked_stripped(init, low, rank(last));
    }
}

proof fn lemma_leading_tools_ranked(params: RequestParams, flags: FeatureFlags)
    ensures
        ranked(leading_tools(params, flags), 0, 17),
{
    reveal(common_tools);
    let fetch = when(flags.conversations_as_context, ToolType::FetchConversation);
    assert(ranked(common_tools(), 0, 16));
    lemma_ranked_concat(common_tools(), fetch, 0, 16, 17);
    lemma_ranked_stripped(common_tools() + fetch, 0, 17);
}

proof fn lemma_fitting_tools_ranked(params: RequestParams, flags: FeatureFlags)
    ensures
        ranked(fitting_tools(params, flags), 0, 29),
{
    let session = params.session_context;
    let computer_use = flags.agent_mode_computer_use && params.computer_use_enabled;
    lemma_leading_tools_ranked(params, flags);
    let a = leading_tools(params, flags);
    let b = a + file_tools(session, flags);
    let c = b + when(computer_use, ToolType::UseComputer);
    let d = c + when(computer_use, ToolType::RequestComputerUse);
    let e = d + when(flags.pr_comments_slash_command, ToolType::InsertReviewComments);
    let f = e + when(flags.list_skills, ToolType::ReadSkill);
    let g = f + orchestration_tools(params, flags);
    let ask = when(
        flags.ask_user_question && params.ask_user_question_enabled,
        ToolType::AskUserQuestion,
    );
    lemma_ranked_concat(a, file_tools(session, flags), 0, 17, 21);
    lemma_ranked_concat(b, when(computer_use, ToolType::UseComputer), 0, 21, 22);
    lemma_ranked_concat(c, when(computer_use, ToolType::RequestComputerUse), 0, 22, 23);
    lemma_ranked_concat(
        d,
        when(flags.pr_comments_slash_command, ToolType::InsertReviewComments),
        0,
        23,
        24,
    );
    lemma_ranked_concat(e, when(flags.list_skills, ToolType::ReadSkill), 0, 24, 25);
    lemma_ranked_concat(f, orchestration_tools(params, flags), 0, 25, 28);
    lemma_ranked_concat(g, ask, 0, 28, 29);
}

/// No tool is offered twice, neither to the model nor to a command line agent.
pub proof fn law_no_tool_is_offered_twice(params: RequestParams, flags: FeatureFlags)
    ensures
        fitting_tools(params, flags).no_duplicates(),
        fitting_cli_tools(params.session_context, flags).no_duplicates(),
{
    lemma_fitting_tools_ranked(params, flags);
    reveal_with_fuel(without_local_shell, 6);
    assert(without_local_shell(common_cli_tools()) =~= seq![
        ToolType::Grep,
        ToolType::FileGlob,
        ToolType::FileGlobV2,
    ]);
}

/// A request for a remote session offers no shell to a model behind OpenRouter either:
/// the chat request that is made of it has no tools.
pub proof fn law_remote_requests_offer_no_chat_tools(
    request: Request,
    params: RequestParams,
    flags: FeatureFlags,
    input: Input,
)
    requires
        request_for(request, params, flags, input),
        params.supported_tools_override is None,
        params.session_context.runs_remotely(),
    ensures
        crate::openrouter::chat_tools_of(request).len() == 0,
{
    law_remote_sessions_get_no_local_shell(params, flags);
    let tools = fitting_tools(params, flags);
    assert forall|i: int| 0 <= i < tools.len() implies tools[i] != ToolType::RunShellCommand by {
        assert(!reaches_local_shell(tools[i]));
    }
}

/// The credit setting of a request is always the one of its parameters, and without keys
/// and credits there is no entry.
pub proof fn law_credit_setting_is_kept(
    request: Request,
    params: RequestParams,
    flags: FeatureFlags,
    input: Input,
)
    requires
        request_for(request, params, flags, input),
    ensures
        request.settings matches Some(settings) && match settings.api_keys {
            Some(keys) => keys.allow_use_of_warp_credits == params.allow_use_of_warp_credits,
            None => params.api_keys is None && !params.allow_use_of_warp_credits,
        },
{
}

proof fn lemma_contains_concat(a: Seq<ToolType>, b: Seq<ToolType>, tool: ToolType)
    ensures
        (a + b).contains(tool) <==> a.contains(tool) || b.contains(tool),
{
    let all = a + b;
    if a.contains(tool) {
        let i = choose|i: int| 0 <= i < a.len() && a[i] == tool;
        assert(all[i] == tool);
    }
    if b.contains(tool) {
        let i = choose|i: int| 0 <= i < b.len() && b[i] == tool;
        assert(all[a.len() + i] == tool);
    }
    if all.contains(tool) {
        let i = choose|i: int| 0 <= i < all.len() && all[i] == tool;
        if i < a.len() {
            assert(a[i] == tool);
        } else {
            assert(b[i - a.len()] == tool);
        }
    }
}

proof fn lemma_contains_when(condition: bool, other: ToolType, tool: ToolType)
    ensures
        (condition && other == tool) <==> when(condition, other).contains(tool),
{
    if condition {
        assert(when(condition, other)[0] == other);
    }
}

proof fn lemma_contains_stripped(tools: Seq<ToolType>, tool: ToolType)
    ensures
        without_local_shell(tools).contains(tool) <==> tools.contains(tool)
            && !reaches_local_shell(tool),
    decreases tools.len(),
{
    if tools.len() > 0 {
        let init = tools.drop_last();
        lemma_contains_stripped(init, tool);
        assert(tools =~= init + seq![tools.last()]);
        lemma_contains_concat(init, seq![tools.last()], tool);
        assert(seq![tools.last()][0] == tools.last());
        if !reaches_local_shell(tools.last()) {
            assert(without_local_shell(tools) =~= without_local_shell(init) + seq![tools.last()]);
            lemma_contains_concat(without_local_shell(init), seq![tools.last()], tool);
        }
    }
}

proof fn lemma_common_tools(tool: ToolType)
    ensures
        common_tools().contains(tool) <==> rank(tool) < 16 && !(tool is Other),
{
    reveal(common_tools);
    let c = common_tools();
    assert(c[0] == ToolType::Grep && c[1] == ToolType::FileGlob && c[2] == ToolType::FileGlobV2
        && c[3] == ToolType::ReadMcpResource && c[4] == ToolType::CallMcpTool && c[5]
        == ToolType::InitProject && c[6] == ToolType::OpenCodeReview && c[7]
        == ToolType::RunShellCommand && c[8] == ToolType::SuggestNewConversation && c[9]
        == ToolType::Subagent && c[10] == ToolType::WriteToLongRunningShellCommand && c[11]
        == ToolType::ReadShellCommandOutput && c[12] == ToolType::ReadDocuments && c[13]
        == ToolType::CreateDocuments && c[14] == ToolType::EditDocuments && c[15]
        == ToolType::SuggestPrompt);
    if rank(tool) < 16 && !(tool is Other) {
        assert(c[rank(tool)] == tool);
    }
}

proof fn lemma_leading_tools(params: RequestParams, flags: FeatureFlags, tool: ToolType)
    ensures
        leading_tools(params, flags).contains(tool) <==> {
            &&& (rank(tool) < 16 && !(tool is Other)) || (tool == ToolType::FetchConversation
                && flags.conversations_as_context)
            &&& params.session_context.runs_remotely() ==> !reaches_local_shell(tool)
        },
{
    let fetch = when(flags.conversations_as_context, ToolType::FetchConversation);
    lemma_common_tools(tool);
    lemma_contains_when(flags.conversations_as_context, ToolType::FetchConversation, tool);
    lemma_contains_concat(common_tools(), fetch, tool);
    lemma_contains_stripped(common_tools() + fetch, tool);
}

proof fn lemma_file_tools(session: SessionContext, flags: FeatureFlags, tool: ToolType)
    ensures
        file_tools(session, flags).contains(tool) <==> {
            let local = !session.runs_remotely();
            let connected = session.is_connected_remote();
            ||| (tool == ToolType::ReadFiles || tool == ToolType::ApplyFileDiffs) && (local
                || connected)
            ||| tool == ToolType::SearchCodebase && (local || (connected
                && flags.remote_codebase_indexing))
            ||| tool == ToolType::UploadFileArtifact && local && flags.artifact_command
        },
{
    lemma_contains_when(flags.artifact_command, ToolType::UploadFileArtifact, tool);
    lemma_contains_when(flags.remote_codebase_indexing, ToolType::SearchCodebase, tool);
    let local = seq![ToolType::ReadFiles, ToolType::ApplyFileDiffs, ToolType::SearchCodebase];
    let remote = seq![ToolType::ReadFiles, ToolType::ApplyFileDiffs];
    assert(local[0] == ToolType::ReadFiles && local[1] == ToolType::ApplyFileDiffs && local[2]
        == ToolType::SearchCodebase);
    assert(remote[0] == ToolType::ReadFiles && remote[1] == ToolType::ApplyFileDiffs);
    lemma_contains_concat(
        local,
        when(flags.artifact_command, ToolType::UploadFileArtifact),
        tool,
    );
    lemma_contains_concat(
        remote,
        when(flags.remote_codebase_indexing, ToolType::SearchCodebase),
        tool,
    );
}

proof fn lemma_orchestration_tools(params: RequestParams, flags: FeatureFlags, tool: ToolType)
    ensures
        orchestration_tools(params, flags).contains(tool) <==> params.orchestration_enabled && {
            ||| tool == ToolType::StartAgentV2 && flags.orchestration_v2
            ||| tool == ToolType::StartAgent && !flags.orchestration_v2
            ||| tool == ToolType::RunAgents && flags.run_agents_tool && flags.orchestration_v2
            ||| tool == ToolType::SendMessageToAgent
        },
{
    let start = seq![
        if flags.orchestration_v2 {
            ToolType::StartAgentV2
        } else {
            ToolType::StartAgent
        },
    ];
    let run = when(flags.run_agents_tool && flags.orchestration_v2, ToolType::RunAgents);
    let send = seq![ToolType::SendMessageToAgent];
    assert(start[0] == if flags.orchestration_v2 {
        ToolType::StartAgentV2
    } else {
        ToolType::StartAgent
    });
    assert(send[0] == ToolType::SendMessageToAgent);
    lemma_contains_when(
        flags.run_agents_tool && flags.orchestration_v2,
        ToolType::RunAgents,
        tool,
    );
    lemma_contains_concat(start, run, tool);
    lemma_contains_concat(start + run, send, tool);
}

/// When each tool is offered to the model: what every session has, what only local or only
/// connected sessions have, and what the switches of the request and the feature flags add.
pub proof fn law_each_tool_is_offered_on_its_condition(
    params: RequestParams,
    flags: FeatureFlags,
    tool: ToolType,
)
    ensures
        fitting_tools(params, flags).contains(tool) <==> ({
            let session = params.session_context.effective_session_type;
            let local = session is None || session->0 is Local;
            let connected = session is Some && session->0 is WarpifiedRemote
                && session->0->host_id is Some;
            match tool {
                ToolType::Grep
                | ToolType::FileGlob
                | ToolType::FileGlobV2
                | ToolType::ReadMcpResource
                | ToolType::CallMcpTool
                | ToolType::InitProject
                | ToolType::OpenCodeReview
                | ToolType::SuggestNewConversation
                | ToolType::Subagent
                | ToolType::ReadDocuments
                | ToolType::CreateDocuments
                | ToolType::EditDocuments
                | ToolType::SuggestPrompt => true,
                ToolType::RunShellCommand
                | ToolType::WriteToLongRunningShellCommand
                | ToolType::ReadShellCommandOutput => local,
                ToolType::FetchConversation => flags.conversations_as_context,
                ToolType::ReadFiles | ToolType::ApplyFileDiffs => local || connected,
                ToolType::SearchCodebase => local || (connected && flags.remote_codebase_indexing),
                ToolType::UploadFileArtifact => local && flags.artifact_command,
                ToolType::UseComputer
                | ToolType::RequestComputerUse => flags.agent_mode_computer_use
                    && params.computer_use_enabled,
                ToolType::InsertReviewComments => flags.pr_comments_slash_command,
                ToolType::ReadSkill => flags.list_skills,
                ToolType::StartAgentV2 => params.orchestration_enabled && flags.orchestration_v2,
                ToolType::StartAgent => params.orchestration_enabled && !flags.orchestration_v2,
                ToolType::RunAgents => params.orchestration_enabled && flags.orchestration_v2
                    && flags.run_agents_tool,
                ToolType::SendMessageToAgent => params.orchestration_enabled,
                ToolType::AskUserQuestion => flags.ask_user_question
                    && params.ask_user_question_enabled,
                ToolType::TransferShellCommandControlToUser => false,
                ToolType::Other { .. } => false,
            }
        }),
{
    let session = params.session_context;
    let computer_use = flags.agent_mode_computer_use && params.computer_use_enabled;
    let ask = flags.ask_user_question && params.ask_user_question_enabled;
    let a = leading_tools(params, flags);
    let b = a + file_tools(session, flags);
    let c = b + when(computer_use, ToolType::UseComputer);
    let d = c + when(computer_use, ToolType::RequestComputerUse);
    let e = d + when(flags.pr_comments_slash_command, ToolType::InsertReviewComments);
    let f = e + when(flags.list_skills, ToolType::ReadSkill);
    let g = f + orchestration_tools(params, flags);
    lemma_leading_tools(params, flags, tool);
    lemma_file_tools(session, flags, tool);
    lemma_orchestration_tools(params, flags, tool);
    lemma_contains_when(computer_use, ToolType::UseComputer, tool);
    lemma_contains_when(computer_use, ToolType::RequestComputerUse, tool);
    lemma_contains_when(flags.pr_comments_slash_command, ToolType::InsertReviewComments, tool);
    lemma_contains_when(flags.list_skills, ToolType::ReadSkill, tool);
    lemma_contains_when(ask, ToolType::AskUserQuestion, tool);
    lemma_contains_concat(a, file_tools(session, flags), tool);
    lemma_contains_concat(b, when(computer_use, ToolType::UseComputer), tool);
    lemma_contains_concat(c, when(computer_use, ToolType::RequestComputerUse), tool);
    lemma_contains_concat(
        d,
        when(flags.pr_comments_slash_command, ToolType::InsertReviewComments),
        tool,
    );
    lemma_contains_concat(e, when(flags.list_skills, ToolType::ReadSkill), tool);
    lemma_contains_concat(f, orchestration_tools(params, flags), tool);
    lemma_contains_concat(g, when(ask, ToolType::AskUserQuestion), tool);
}

/// When each tool is offered to a command line agent.
pub proof fn law_each_cli_tool_is_offered_on_its_condition(
    session: SessionContext,
    flags: FeatureFlags,
    tool: ToolType,
)
    ensures
        fitting_cli_tools(session, flags).contains(tool) <==> ({
            let kind = session.effective_session_type;
            let local = kind is None || kind->0 is Local;
            let connected = kind is Some && kind->0 is WarpifiedRemote && kind->0->host_id is Some;
            match tool {
                ToolType::Grep | ToolType::FileGlob | ToolType::FileGlobV2 => true,
                ToolType::WriteToLongRunningShellCommand | ToolType::ReadShellCommandOutput => local,
                ToolType::ReadFiles => local || connected,
                ToolType::SearchCodebase => local || (connected && flags.remote_codebase_indexing),
                ToolType::TransferShellCommandControlToUser => local && flags.transfer_control_tool,
                _ => false,
            }
        }),
{
    let c = common_cli_tools();
    let local = seq![ToolType::ReadFiles, ToolType::SearchCodebase];
    let remote = seq![ToolType::ReadFiles];
    let transfer = when(
        flags.transfer_control_tool,
        ToolType::TransferShellCommandControlToUser,
    );
    let search = when(flags.remote_codebase_indexing, ToolType::SearchCodebase);
    assert(c[0] == ToolType::WriteToLongRunningShellCommand && c[1]
        == ToolType::ReadShellCommandOutput && c[2] == ToolType::Grep && c[3] == ToolType::FileGlob
        && c[4] == ToolType::FileGlobV2);
    assert(local[0] == ToolType::ReadFiles && local[1] == ToolType::SearchCodebase);
    assert(remote[0] == ToolType::ReadFiles);
    lemma_contains_stripped(c, tool);
    lemma_contains_when(
        flags.transfer_control_tool,
        ToolType::TransferShellCommandControlToUser,
        tool,
    );
    lemma_contains_when(flags.remote_codebase_indexing, ToolType::SearchCodebase, tool);
    lemma_contains_concat(c, local, tool);
    lemma_contains_concat(c + local, transfer, tool);
    lemma_contains_concat(without_local_shell(c), remote, tool);
    lemma_contains_concat(without_local_shell(c) + remote, search, tool);
}

/// The place of a tool in the order in which a command line agent's tools are listed.
pub open spec fn cli_rank(tool: ToolType) -> int {
    match tool {
        ToolType::WriteToLongRunningShellCommand => 0,
        ToolType::ReadShellCommandOutput => 1,
        ToolType::Grep => 2,
        ToolType::FileGlob => 3,
        ToolType::FileGlobV2 => 4,
        ToolType::ReadFiles => 5,
        ToolType::SearchCodebase => 6,
        _ => 7,
    }
}

/// Tools are always listed in the same order, whichever of them are offered.
pub proof fn law_tools_are_listed_in_order(
    params: RequestParams,
    flags: FeatureFlags,
    i: int,
    j: int,
)
    requires
        0 <= i < j,
    ensures
        j < fitting_tools(params, flags).len() ==> rank(fitting_tools(params, flags)[i]) < rank(
            fitting_tools(params, flags)[j],
        ),
        j < fitting_cli_tools(params.session_context, flags).len() ==> cli_rank(
            fitting_cli_tools(params.session_context, flags)[i],
        ) < cli_rank(fitting_cli_tools(params.session_context, flags)[j]),
{
    lemma_fitting_tools_ranked(params, flags);
    reveal_with_fuel(without_local_shell, 6);
    assert(without_local_shell(common_cli_tools()) =~= seq![
        ToolType::Grep,
        ToolType::FileGlob,
        ToolType::FileGlobV2,
    ]);
}

/// A request is for the tasks of the conversation so far, all of them and as they are, and
/// for the given input; what is only passed on is passed on.
pub proof fn law_request_carries_conversation_and_input(
    request: Request,
    params: RequestParams,
    flags: FeatureFlags,
    input: Input,
)
    requires
        request_for(request, params, flags, input),
    ensures
        request.task_context is Some,
        request.task_context->0.tasks@ == params.tasks@,
        request.task_context->0.tasks == params.tasks,
        request.input == Some(input),
        request.existing_suggestions == params.existing_suggestions,
        request.mcp_context == params.mcp_context,
        crate::openrouter::history(crate::openrouter::tasks_of(request))
            == crate::openrouter::history(params.tasks@),
        params.tasks@.len() > 0 ==> crate::openrouter_stream::first_task(request) == Some(
            params.tasks@[0].id@,
        ),
{
}

/// The settings of a request name its models in their places and offer its tools: those of
/// the override where there is one, else exactly the ones that fit.
pub proof fn law_request_names_its_models_and_tools(
    request: Request,
    params: RequestParams,
    flags: FeatureFlags,
    input: Input,
)
    requires
        request_for(request, params, flags, input),
    ensures
        ({
            let settings = request.settings->0;
            let models = settings.model_config->0;
            &&& request.settings is Some
            &&& settings.model_config is Some
            &&& models.base@ == params.model@
            &&& models.cli_agent@ == params.cli_agent_model@
            &&& models.computer_use_agent@ == params.computer_use_model@
            &&& flags.configurable_context_window && params.context_window_limit is Some
                ==> models.base_model_context_window_limit == params.context_window_limit->0
            &&& !flags.configurable_context_window || params.context_window_limit is None
                ==> models.base_model_context_window_limit == 0
            &&& params.supported_tools_override matches Some(tools) ==> settings.supported_tools@
                == tools@
            &&& params.supported_tools_override is None ==> settings.supported_tools@
                == fitting_tools(params, flags)
            &&& settings.supported_cli_agent_tools@ == fitting_cli_tools(
                params.session_context,
                flags,
            )
            &&& settings.custom_model_providers == params.custom_model_providers
            &&& params.api_keys matches Some(keys) ==> settings.api_keys is Some
                && settings.api_keys->0.keys == keys.keys
            &&& params.api_keys is None && params.allow_use_of_warp_credits ==> settings.api_keys
                is Some && settings.api_keys->0.keys is None
        }),
{
}

/// Every switch of the settings follows its own parameter or feature flag, or is the same
/// for all requests.
pub proof fn law_every_switch_follows_its_own_source(
    request: Request,
    params: RequestParams,
    flags: FeatureFlags,
    input: Input,
)
    requires
        request_for(request, params, flags, input),
    ensures
        ({
            let s = request.settings->0;
            &&& s.rules_enabled == params.is_memory_enabled
            &&& s.warp_drive_context_enabled == params.warp_drive_context_enabled
            &&& s.planning_enabled == params.planning_enabled
            &&& s.web_search_enabled == params.web_search_enabled
            &&& s.supports_research_agent == params.research_agent_enabled
            &&& s.autonomy_level == params.autonomy_level
            &&& s.isolation_level == params.isolation_level
            &&& s.supports_linked_code_blocks == flags.linked_code_blocks
            &&& s.supports_read_image_files == flags.read_image_files
            &&& s.supports_v4a_file_diffs == flags.v4a_file_diffs
            &&& s.supports_summarization_via_message_replacement
                == flags.summarization_via_message_replacement
            &&& s.supports_bundled_skills == flags.bundled_skills
            &&& s.supports_orchestration_v2 == flags.orchestration_v2
            &&& s.web_context_retrieval_enabled && s.supports_parallel_tool_calls
            &&& s.supports_create_files && s.supports_long_running_commands
            &&& s.should_preserve_file_content_in_history && s.supports_todos_ui
            &&& s.supports_started_child_task_message && s.supports_suggest_prompt
            &&& s.supports_reasoning_message && !s.use_anthropic_text_editor_tools
        }),
{
}

/// The metadata of a request holds each id in its place, or nothing; the conversation that
/// it was forked from is named only while it has no id of its own.
pub proof fn law_metadata_holds_each_id_in_its_place(
    request: Request,
    params: RequestParams,
    flags: FeatureFlags,
    input: Input,
)
    requires
        request_for(request, params, flags, input),
    ensures
        ({
            let m = request.metadata->0;
            &&& request.metadata is Some
            &&& params.conversation_token matches Some(token) ==> m.conversation_id@ == token@
                && m.forked_from_conversation_id@.len() == 0
            &&& params.conversation_token is None ==> m.conversation_id@.len() == 0
                && m.forked_from_conversation_id@ == text::or_empty(
                params.forked_from_conversation_token,
            )
            &&& m.ambient_agent_task_id@ == text::or_empty(params.ambient_agent_task_id)
            &&& m.parent_agent_id@ == text::or_empty(params.parent_agent_id)
            &&& m.agent_name@ == text::or_empty(params.agent_name)
            &&& logs(m.logging@, params.metadata)
            &&& m.logging@.len() == if params.metadata is Some {
                3int
            } else {
                0
            }
        }),
{
}

/// What the server logs of a request is how it came about, each fact under its own name.
pub proof fn law_log_tells_how_the_request_came_about(
    entries: Seq<(&'static str, LoggingValue)>,
    metadata: RequestMetadata,
    i: int,
)
    requires
        logs(entries, Some(metadata)),
        0 <= i < entries.len(),
    ensures
        entries[i].0@ == "is_autodetected_user_query"@ ==> entries[i].1 == LoggingValue::Bool(
            metadata.is_autodetected_user_query,
        ),
        entries[i].0@ == "entrypoint"@ ==> entries[i].1 == LoggingValue::Text(metadata.entrypoint),
        entries[i].0@ == "is_auto_resume_after_error"@ ==> entries[i].1 == LoggingValue::Bool(
            metadata.is_auto_resume_after_error,
        ),
        entries[i].0@ == "is_autodetected_user_query"@ || entries[i].0@ == "entrypoint"@
            || entries[i].0@ == "is_auto_resume_after_error"@,
{
    if 0 < i {
        law_logged_names_are_distinct(entries, Some(metadata), 0, i);
    }
    if 1 < i {
        law_logged_names_are_distinct(entries, Some(metadata), 1, i);
    }
    if i == 0 {
        law_logged_names_are_distinct(entries, Some(metadata), 0, 1);
        law_logged_names_are_distinct(entries, Some(metadata), 0, 2);
    }
    if i == 1 {
        law_logged_names_are_distinct(entries, Some(metadata), 1, 2);
    }
}

/// A session that is sent from a tab differs from the session only in what the tab says, and
/// a refusal gives its reason: a tab that was not found before one that is not connected.
pub proof fn law_refusals_give_the_reason(session: SessionContext, tab: TabView)
    ensures
        sent_from(session, tab).is_helm_remote == tab.binding is Some,
        sent_from(session, tab).helm_connection_state == tab.connection_state,
        sent_from(session, tab).is_remote == session.is_remote,
        sent_from(session, tab).effective_session_type == session.effective_session_type,
        sent_from(session, tab).has_unresolved_helm_binding_lookup
            == session.has_unresolved_helm_binding_lookup,
        session.has_unresolved_helm_binding_lookup ==> tab_refusal(sent_from(session, tab)) == Some(
            ConvertToAPITypeError::HelmTabLookupFailed,
        ),
        !session.has_unresolved_helm_binding_lookup && tab.binding is Some && tab.connection_state
            != HelmConnectionState::Connected ==> tab_refusal(sent_from(session, tab)) == Some(
            ConvertToAPITypeError::HelmTabNotConnected { state: tab.connection_state },
        ),
{
}

} // verus!
