//! The multi-agent protocol, as far as this crate reads and writes it: requests, the
//! messages of a task, and the events of a response stream. Parts that are only passed
//! on stay encoded.
use vstd::prelude::*;

verus! {

/// A part of the protocol that is passed on as it is, in its encoded form.
#[derive(Debug, Clone, PartialEq, Eq)]
pub struct EncodedMessage {
    pub bytes: Vec<u8>,
}

impl View for EncodedMessage {
    type V = Seq<u8>;

    open spec fn view(&self) -> Seq<u8> {
        self.bytes@
    }
}

/// The bytes of a list of encoded parts.
pub open spec fn encoded_views(v: Seq<EncodedMessage>) -> Seq<Seq<u8>> {
    v.map_values(|m: EncodedMessage| m@)
}

/// The bytes of an optional encoded part.
pub open spec fn encoded_view(o: Option<EncodedMessage>) -> Option<Seq<u8>> {
    match o {
        Some(m) => Some(m@),
        None => None,
    }
}

/// A point in time: seconds since the Unix epoch and nanoseconds after that second.
#[derive(Debug, Clone, Copy, PartialEq, Eq, Structural)]
pub struct Timestamp {
    pub seconds: i64,
    pub nanos: i32,
}

impl Timestamp {
    /// Whether the nanoseconds count forward from the second and stay below the next.
    pub open spec fn normalized(self) -> bool {
        0 <= self.nanos < 1_000_000_000
    }
}

/// How risky a proposed command is.
#[derive(Debug, Clone, Copy, PartialEq, Eq, Structural)]
pub enum RiskCategory {
    Unspecified,
    /// Another category, by its number in the protocol.
    Other { code: i32 },
}

/// A proposed shell command.
#[derive(Debug, Clone, PartialEq, Eq)]
pub struct RunShellCommand {
    pub command: String,
    pub is_read_only: bool,
    pub uses_pager: bool,
    pub citations: Vec<EncodedMessage>,
    pub is_risky: bool,
    pub risk_category: RiskCategory,
    pub wait_until_complete_value: Option<EncodedMessage>,
}

/// The texts of a [`RunShellCommand`].
#[verifier::ext_equal]
pub struct ShellCommandView {
    pub command: Seq<char>,
    pub is_read_only: bool,
    pub uses_pager: bool,
    pub citations: Seq<Seq<u8>>,
    pub is_risky: bool,
    pub risk_category: RiskCategory,
    pub wait_until_complete_value: Option<Seq<u8>>,
}

impl View for RunShellCommand {
    type V = ShellCommandView;

    open spec fn view(&self) -> ShellCommandView {
        ShellCommandView {
            command: self.command@,
            is_read_only: self.is_read_only,
            uses_pager: self.uses_pager,
            citations: encoded_views(self.citations@),
            is_risky: self.is_risky,
            risk_category: self.risk_category,
            wait_until_complete_value: encoded_view(self.wait_until_complete_value),
        }
    }
}

/// A tool that the model asks for.
#[derive(Debug, Clone, PartialEq, Eq)]
pub enum Tool {
    RunShellCommand(RunShellCommand),
    /// A tool that the server runs.
    Server { payload: String },
    Other(EncodedMessage),
}

/// The texts of a [`Tool`].
#[verifier::ext_equal]
pub enum ToolView {
    RunShellCommand(ShellCommandView),
    Server { payload: Seq<char> },
    Other(Seq<u8>),
}

impl View for Tool {
    type V = ToolView;

    open spec fn view(&self) -> ToolView {
        match self {
            Tool::RunShellCommand(c) => ToolView::RunShellCommand(c@),
            Tool::Server { payload } => ToolView::Server { payload: payload@ },
            Tool::Other(m) => ToolView::Other(m@),
        }
    }
}

/// The texts of an optional tool.
pub open spec fn tool_view(t: Option<Tool>) -> Option<ToolView> {
    match t {
        Some(t) => Some(t@),
        None => None,
    }
}

/// A call of a tool.
#[derive(Debug, Clone, PartialEq, Eq)]
pub struct ToolCall {
    pub tool_call_id: String,
    pub tool: Option<Tool>,
}

/// The texts of a [`ToolCall`].
#[verifier::ext_equal]
pub struct ToolCallView {
    pub tool_call_id: Seq<char>,
    pub tool: Option<ToolView>,
}

impl View for ToolCall {
    type V = ToolCallView;

    open spec fn view(&self) -> ToolCallView {
        ToolCallView { tool_call_id: self.tool_call_id@, tool: tool_view(self.tool) }
    }
}

/// The result of a tool call: the id of the call, and the result as text for the model.
#[derive(Debug, Clone, PartialEq, Eq)]
pub struct ToolCallResult {
    pub tool_call_id: String,
    pub text: String,
}

/// The texts of a [`ToolCallResult`].
#[verifier::ext_equal]
pub struct ToolCallResultView {
    pub tool_call_id: Seq<char>,
    pub text: Seq<char>,
}

impl View for ToolCallResult {
    type V = ToolCallResultView;

    open spec fn view(&self) -> ToolCallResultView {
        ToolCallResultView { tool_call_id: self.tool_call_id@, text: self.text@ }
    }
}

/// What a message says.
#[derive(Debug, Clone, PartialEq, Eq)]
pub enum MessageContent {
    UserQuery { query: String },
    AgentOutput { text: String },
    ToolCall(ToolCall),
    ToolCallResult(ToolCallResult),
    Other(EncodedMessage),
}

/// The texts of a [`MessageContent`].
#[verifier::ext_equal]
pub enum ContentView {
    UserQuery { query: Seq<char> },
    AgentOutput { text: Seq<char> },
    ToolCall(ToolCallView),
    ToolCallResult(ToolCallResultView),
    Other(Seq<u8>),
}

impl View for MessageContent {
    type V = ContentView;

    open spec fn view(&self) -> ContentView {
        match self {
            MessageContent::UserQuery { query } => ContentView::UserQuery { query: query@ },
            MessageContent::AgentOutput { text } => ContentView::AgentOutput { text: text@ },
            MessageContent::ToolCall(c) => ContentView::ToolCall(c@),
            MessageContent::ToolCallResult(r) => ContentView::ToolCallResult(r@),
            MessageContent::Other(m) => ContentView::Other(m@),
        }
    }
}

/// A message of a task.
#[derive(Debug, Clone, PartialEq, Eq)]
pub struct Message {
    pub id: String,
    pub task_id: String,
    pub request_id: String,
    pub timestamp: Option<Timestamp>,
    pub server_message_data: String,
    pub citations: Vec<EncodedMessage>,
    pub message: Option<MessageContent>,
}

/// The texts of a [`Message`].
#[verifier::ext_equal]
pub struct MessageView {
    pub id: Seq<char>,
    pub task_id: Seq<char>,
    pub request_id: Seq<char>,
    pub timestamp: Option<Timestamp>,
    pub server_message_data: Seq<char>,
    pub citations: Seq<Seq<u8>>,
    pub message: Option<ContentView>,
}

impl View for Message {
    type V = MessageView;

    open spec fn view(&self) -> MessageView {
        MessageView {
            id: self.id@,
            task_id: self.task_id@,
            request_id: self.request_id@,
            timestamp: self.timestamp,
            server_message_data: self.server_message_data@,
            citations: encoded_views(self.citations@),
            message: match self.message {
                Some(m) => Some(m@),
                None => None,
            },
        }
    }
}

/// The texts of a list of messages.
pub open spec fn message_views(v: Seq<Message>) -> Seq<MessageView> {
    v.map_values(|m: Message| m@)
}

impl MessageView {
    /// A message of a task with nothing but its content, time and ids.
    pub open spec fn plain(
        id: Seq<char>,
        task_id: Seq<char>,
        request_id: Seq<char>,
        timestamp: Timestamp,
        content: ContentView,
    ) -> MessageView {
        MessageView {
            id,
            task_id,
            request_id,
            timestamp: Some(timestamp),
            server_message_data: seq![],
            citations: seq![],
            message: Some(content),
        }
    }
}

impl Message {
    /// Makes a message with nothing but its content, time and ids.
    pub fn plain(
        id: String,
        task_id: &str,
        request_id: &str,
        timestamp: Timestamp,
        content: MessageContent,
    ) -> (r: Self)
        ensures
            r@ == MessageView::plain(id@, task_id@, request_id@, timestamp, content@),
    {
        let r = Message {
            id,
            task_id: task_id.to_string(),
            request_id: request_id.to_string(),
            timestamp: Some(timestamp),
            server_message_data: String::new(),
            citations: Vec::new(),
            message: Some(content),
        };
        assert(r@ =~= MessageView::plain(id@, task_id@, request_id@, timestamp, content@));
        r
    }
}

/// A task: a line of conversation with its messages.
#[derive(Debug, Clone, PartialEq, Eq)]
pub struct Task {
    pub id: String,
    pub description: String,
    pub dependencies: Option<EncodedMessage>,
    pub messages: Vec<Message>,
    pub summary: String,
    pub server_data: String,
}

/// The texts of a [`Task`].
#[verifier::ext_equal]
pub struct TaskView {
    pub id: Seq<char>,
    pub description: Seq<char>,
    pub dependencies: Option<Seq<u8>>,
    pub messages: Seq<MessageView>,
    pub summary: Seq<char>,
    pub server_data: Seq<char>,
}

impl View for Task {
    type V = TaskView;

    open spec fn view(&self) -> TaskView {
        TaskView {
            id: self.id@,
            description: self.description@,
            dependencies: encoded_view(self.dependencies),
            messages: message_views(self.messages@),
            summary: self.summary@,
            server_data: self.server_data@,
        }
    }
}

impl TaskView {
    /// A task with an id and nothing else.
    pub open spec fn empty(id: Seq<char>) -> TaskView {
        TaskView {
            id,
            description: seq![],
            dependencies: None,
            messages: seq![],
            summary: seq![],
            server_data: seq![],
        }
    }
}

/// Something that the client is to do.
#[derive(Debug, Clone, PartialEq, Eq)]
pub enum Action {
    CreateTask { task: Option<Task> },
    AddMessagesToTask { task_id: String, messages: Vec<Message> },
}

/// The texts of an [`Action`].
#[verifier::ext_equal]
pub enum ActionView {
    CreateTask { task: Option<TaskView> },
    AddMessagesToTask { task_id: Seq<char>, messages: Seq<MessageView> },
}

impl View for Action {
    type V = ActionView;

    open spec fn view(&self) -> ActionView {
        match self {
            Action::CreateTask { task } => ActionView::CreateTask {
                task: match task {
                    Some(t) => Some(t@),
                    None => None,
                },
            },
            Action::AddMessagesToTask { task_id, messages } => ActionView::AddMessagesToTask {
                task_id: task_id@,
                messages: message_views(messages@),
            },
        }
    }
}

/// The envelope of an [`Action`].
#[derive(Debug, Clone, PartialEq, Eq)]
pub struct ClientAction {
    pub action: Option<Action>,
}

impl View for ClientAction {
    type V = Option<ActionView>;

    open spec fn view(&self) -> Option<ActionView> {
        match self.action {
            Some(a) => Some(a@),
            None => None,
        }
    }
}

/// The first event of a stream, which names the conversation, the request and the run.
#[derive(Debug, Clone, PartialEq, Eq)]
pub struct StreamInit {
    pub conversation_id: String,
    pub request_id: String,
    pub run_id: String,
}

/// Why a stream ended.
#[derive(Debug, Clone, PartialEq, Eq)]
pub enum FinishReason {
    Done,
    Other(EncodedMessage),
}

/// The last event of a stream.
#[derive(Debug, Clone, PartialEq, Eq)]
pub struct StreamFinished {
    pub reason: Option<FinishReason>,
    pub token_usage: Vec<EncodedMessage>,
    pub should_refresh_model_config: bool,
    pub request_cost: Option<EncodedMessage>,
    pub conversation_usage_metadata: Option<EncodedMessage>,
}

/// What an event is.
#[derive(Debug, Clone, PartialEq, Eq)]
pub enum EventType {
    Init(StreamInit),
    ClientActions { actions: Vec<ClientAction> },
    Finished(StreamFinished),
}

/// The texts of an [`EventType`].
#[verifier::ext_equal]
pub enum EventView {
    Init { conversation_id: Seq<char>, request_id: Seq<char>, run_id: Seq<char> },
    ClientActions { actions: Seq<Option<ActionView>> },
    Finished {
        reason: Option<FinishReasonView>,
        token_usage: Seq<Seq<u8>>,
        should_refresh_model_config: bool,
        request_cost: Option<Seq<u8>>,
        conversation_usage_metadata: Option<Seq<u8>>,
    },
}

/// A [`FinishReason`] in plain values.
pub enum FinishReasonView {
    Done,
    Other(Seq<u8>),
}

impl View for FinishReason {
    type V = FinishReasonView;

    open spec fn view(&self) -> FinishReasonView {
        match self {
            FinishReason::Done => FinishReasonView::Done,
            FinishReason::Other(m) => FinishReasonView::Other(m@),
        }
    }
}

impl View for EventType {
    type V = EventView;

    open spec fn view(&self) -> EventView {
        match self {
            EventType::Init(init) => EventView::Init {
                conversation_id: init.conversation_id@,
                request_id: init.request_id@,
                run_id: init.run_id@,
            },
            EventType::ClientActions { actions } => EventView::ClientActions {
                actions: actions@.map_values(|a: ClientAction| a@),
            },
            EventType::Finished(f) => EventView::Finished {
                reason: match f.reason {
                    Some(r) => Some(r@),
                    None => None,
                },
                token_usage: encoded_views(f.token_usage@),
                should_refresh_model_config: f.should_refresh_model_config,
                request_cost: encoded_view(f.request_cost),
                conversation_usage_metadata: encoded_view(f.conversation_usage_metadata),
            },
        }
    }
}

impl EventView {
    /// An event with one action.
    pub open spec fn act(action: ActionView) -> EventView {
        EventView::ClientActions { actions: seq![Some(action)] }
    }

    /// An event that adds one message to a task.
    pub open spec fn add_message(task_id: Seq<char>, message: MessageView) -> EventView {
        EventView::act(ActionView::AddMessagesToTask { task_id, messages: seq![message] })
    }

    /// The event that ends a stream that is done, with nothing to report.
    pub open spec fn done() -> EventView {
        EventView::Finished {
            reason: Some(FinishReasonView::Done),
            token_usage: seq![],
            should_refresh_model_config: false,
            request_cost: None,
            conversation_usage_metadata: None,
        }
    }
}

/// An event of a response stream.
#[derive(Debug, Clone, PartialEq, Eq)]
pub struct ResponseEvent {
    pub kind: Option<EventType>,
}

impl View for ResponseEvent {
    type V = Option<EventView>;

    open spec fn view(&self) -> Option<EventView> {
        match self.kind {
            Some(k) => Some(k@),
            None => None,
        }
    }
}

/// The texts of a list of events.
pub open spec fn event_views(v: Seq<ResponseEvent>) -> Seq<Option<EventView>> {
    v.map_values(|e: ResponseEvent| e@)
}

/// Wraps an event type into an event.
pub fn make_event(event_type: EventType) -> (r: ResponseEvent)
    ensures
        r@ == Some(event_type@),
{
    ResponseEvent { kind: Some(event_type) }
}

/// The event that opens a stream.
pub fn init_event(conversation_id: &str, request_id: &str, run_id: &str) -> (r: ResponseEvent)
    ensures
        r@ == Some(
            EventView::Init {
                conversation_id: conversation_id@,
                request_id: request_id@,
                run_id: run_id@,
            },
        ),
{
    make_event(
        EventType::Init(
            StreamInit {
                conversation_id: conversation_id.to_string(),
                request_id: request_id.to_string(),
                run_id: run_id.to_string(),
            },
        ),
    )
}

/// An event with one action.
fn action_event(action: Action) -> (r: ResponseEvent)
    ensures
        r@ == Some(EventView::act(action@)),
{
    let mut actions: Vec<ClientAction> = Vec::new();
    actions.push(ClientAction { action: Some(action) });
    assert(actions@.map_values(|a: ClientAction| a@) =~= seq![Some(action@)]);
    make_event(EventType::ClientActions { actions })
}

/// The event that makes the client create a task, with no message in it.
pub fn create_task_event(task_id: &str) -> (r: ResponseEvent)
    ensures
        r@ == Some(
            EventView::act(ActionView::CreateTask { task: Some(TaskView::empty(task_id@)) }),
        ),
{
    let task = Task {
        id: task_id.to_string(),
        description: String::new(),
        dependencies: None,
        messages: Vec::new(),
        summary: String::new(),
        server_data: String::new(),
    };
    assert(task@ =~= TaskView::empty(task_id@));
    action_event(Action::CreateTask { task: Some(task) })
}

/// The event that makes the client add a message to a task.
pub fn add_message_event(task_id: &str, message: Message) -> (r: ResponseEvent)
    ensures
        r@ == Some(EventView::add_message(task_id@, message@)),
{
    let mut messages: Vec<Message> = Vec::new();
    messages.push(message);
    assert(message_views(messages@) =~= seq![message@]);
    action_event(Action::AddMessagesToTask { task_id: task_id.to_string(), messages })
}

/// The event that ends a stream that is done.
pub fn done_event() -> (r: ResponseEvent)
    ensures
        r@ == Some(EventView::done()),
{
    let finished = StreamFinished {
        reason: Some(FinishReason::Done),
        token_usage: Vec::new(),
        should_refresh_model_config: false,
        request_cost: None,
        conversation_usage_metadata: None,
    };
    assert(encoded_views(finished.token_usage@) =~= seq![]);
    make_event(EventType::Finished(finished))
}

/// The tools that a client can offer to the server.
#[derive(Debug, Clone, Copy, PartialEq, Eq, Structural)]
pub enum ToolType {
    Grep,
    FileGlob,
    FileGlobV2,
    ReadMcpResource,
    CallMcpTool,
    InitProject,
    OpenCodeReview,
    RunShellCommand,
    SuggestNewConversation,
    Subagent,
    WriteToLongRunningShellCommand,
    ReadShellCommandOutput,
    ReadDocuments,
    CreateDocuments,
    EditDocuments,
    SuggestPrompt,
    FetchConversation,
    ReadFiles,
    ApplyFileDiffs,
    SearchCodebase,
    UploadFileArtifact,
    UseComputer,
    RequestComputerUse,
    InsertReviewComments,
    ReadSkill,
    StartAgent,
    StartAgentV2,
    RunAgents,
    SendMessageToAgent,
    AskUserQuestion,
    TransferShellCommandControlToUser,
    /// A tool that this crate does not know, by its number in the protocol.
    Other { code: i32 },
}

/// One of several inputs of a request.
#[derive(Debug, Clone, PartialEq, Eq)]
pub enum UserInput {
    UserQuery { query: String },
    Other(EncodedMessage),
}

/// What the user put in.
#[derive(Debug, Clone, PartialEq, Eq)]
pub enum InputType {
    UserQuery { query: String },
    /// Several inputs; an entry may be empty.
    UserInputs { inputs: Vec<Option<UserInput>> },
    Other(EncodedMessage),
}

/// The input of a request.
#[derive(Debug, Clone, PartialEq, Eq)]
pub struct Input {
    pub kind: Option<InputType>,
    /// What else the input carries.
    pub rest: EncodedMessage,
}

/// API keys of the user, and whether credits may be used beside them.
#[derive(Debug, Clone, PartialEq, Eq)]
pub struct ApiKeys {
    /// The keys; `None` when the user has none.
    pub keys: Option<EncodedMessage>,
    pub allow_use_of_warp_credits: bool,
}

/// Which models serve a request.
#[derive(Debug, Clone, PartialEq, Eq)]
pub struct ModelConfig {
    pub base: String,
    pub cli_agent: String,
    pub computer_use_agent: String,
    /// Zero stands for no limit.
    pub base_model_context_window_limit: u32,
}

/// The settings of a request.
#[derive(Debug, Clone, PartialEq, Eq)]
pub struct Settings {
    pub model_config: Option<ModelConfig>,
    pub rules_enabled: bool,
    pub warp_drive_context_enabled: bool,
    pub web_context_retrieval_enabled: bool,
    pub supports_parallel_tool_calls: bool,
    pub use_anthropic_text_editor_tools: bool,
    pub planning_enabled: bool,
    pub supports_create_files: bool,
    pub supported_tools: Vec<ToolType>,
    pub supports_long_running_commands: bool,
    pub should_preserve_file_content_in_history: bool,
    pub supports_todos_ui: bool,
    pub supports_linked_code_blocks: bool,
    pub supports_started_child_task_message: bool,
    pub supports_suggest_prompt: bool,
    pub supports_read_image_files: bool,
    pub supports_reasoning_message: bool,
    pub api_keys: Option<ApiKeys>,
    pub autonomy_level: i32,
    pub isolation_level: i32,
    pub web_search_enabled: bool,
    pub supported_cli_agent_tools: Vec<ToolType>,
    pub supports_v4a_file_diffs: bool,
    pub supports_summarization_via_message_replacement: bool,
    pub supports_bundled_skills: bool,
    pub supports_research_agent: bool,
    pub supports_orchestration_v2: bool,
    pub custom_model_providers: Option<EncodedMessage>,
}

/// A value of the logging metadata.
#[derive(Debug, Clone, PartialEq, Eq)]
pub enum LoggingValue {
    Bool(bool),
    Text(String),
}

/// The metadata of a request.
#[derive(Debug, Clone, PartialEq, Eq)]
pub struct Metadata {
    /// What the server logs, by name. No name occurs twice.
    pub logging: Vec<(&'static str, LoggingValue)>,
    pub conversation_id: String,
    pub ambient_agent_task_id: String,
    pub forked_from_conversation_id: String,
    pub parent_agent_id: String,
    pub agent_name: String,
}

/// The tasks of a conversation.
#[derive(Debug, Clone, PartialEq, Eq)]
pub struct TaskContext {
    pub tasks: Vec<Task>,
}

/// A multi-agent request.
#[derive(Debug, Clone, PartialEq, Eq)]
pub struct Request {
    pub task_context: Option<TaskContext>,
    pub input: Option<Input>,
    pub settings: Option<Settings>,
    pub metadata: Option<Metadata>,
    pub existing_suggestions: Option<EncodedMessage>,
    pub mcp_context: Option<EncodedMessage>,
}

/// A plain message has its ids, its time and its content where they belong, and nothing
/// else.
pub proof fn law_plain_message_has_its_parts(
    id: Seq<char>,
    task_id: Seq<char>,
    request_id: Seq<char>,
    timestamp: Timestamp,
    content: ContentView,
)
    ensures
        ({
            let m = MessageView::plain(id, task_id, request_id, timestamp, content);
            &&& m.id == id
            &&& m.task_id == task_id
            &&& m.request_id == request_id
            &&& m.timestamp == Some(timestamp)
            &&& m.message == Some(content)
            &&& m.server_message_data.len() == 0
            &&& m.citations.len() == 0
        }),
{
}

/// A new task has its id and no messages, no text and no dependencies.
pub proof fn law_empty_task_has_only_its_id(id: Seq<char>)
    ensures
        TaskView::empty(id).id == id,
        TaskView::empty(id).messages.len() == 0,
        TaskView::empty(id).dependencies is None,
        TaskView::empty(id).description.len() == 0,
        TaskView::empty(id).summary.len() == 0,
        TaskView::empty(id).server_data.len() == 0,
{
}

/// An event that adds a message holds one action, for the given task and with that message
/// alone.
pub proof fn law_added_message_is_the_only_one(task_id: Seq<char>, message: MessageView)
    ensures
        ({
            let actions = EventView::add_message(task_id, message)->actions;
            &&& EventView::add_message(task_id, message) is ClientActions
            &&& actions.len() == 1
            &&& actions[0] is Some
            &&& actions[0]->0 is AddMessagesToTask
            &&& actions[0]->0->task_id == task_id
            &&& actions[0]->0->messages.len() == 1
            &&& actions[0]->0->messages[0] == message
        }),
{
}

/// The event that ends a stream says that it is done, and reports nothing else.
pub proof fn law_done_event_reports_nothing_else()
    ensures
        EventView::done()->reason == Some(FinishReasonView::Done),
        EventView::done()->token_usage.len() == 0,
        !EventView::done()->should_refresh_model_config,
        EventView::done()->request_cost is None,
        EventView::done()->conversation_usage_metadata is None,
{
}

/// Tools and their calls are seen as they are, field by field.
pub proof fn law_tool_is_seen_as_it_is(tool: Tool, call: ToolCall, result: ToolCallResult)
    ensures
        tool matches Tool::RunShellCommand(shell) ==> {
            &&& tool@ is RunShellCommand
            &&& tool@->RunShellCommand_0.command == shell.command@
            &&& tool@->RunShellCommand_0.is_read_only == shell.is_read_only
            &&& tool@->RunShellCommand_0.uses_pager == shell.uses_pager
            &&& tool@->RunShellCommand_0.is_risky == shell.is_risky
            &&& tool@->RunShellCommand_0.risk_category == shell.risk_category
            &&& tool@->RunShellCommand_0.citations.len() == shell.citations@.len()
            &&& tool@->RunShellCommand_0.wait_until_complete_value is Some
                <==> shell.wait_until_complete_value is Some
        },
        tool matches Tool::Server { payload } ==> tool@ == (ToolView::Server { payload: payload@ }),
        tool matches Tool::Other(m) ==> tool@ == ToolView::Other(m.bytes@),
        call@.tool_call_id == call.tool_call_id@,
        call@.tool is Some <==> call.tool is Some,
        call.tool matches Some(t) ==> call@.tool == Some(t@),
        result@.tool_call_id == result.tool_call_id@,
        result@.text == result.text@,
{
}

/// Messages and tasks are seen as they are, field by field.
pub proof fn law_message_is_seen_as_it_is(m: Message, task: Task, i: int)
    ensures
        m@.id == m.id@,
        m@.task_id == m.task_id@,
        m@.request_id == m.request_id@,
        m@.timestamp == m.timestamp,
        m@.server_message_data == m.server_message_data@,
        m@.citations.len() == m.citations@.len(),
        match m.message {
            Some(MessageContent::UserQuery { query }) => m@.message == Some(
                ContentView::UserQuery { query: query@ },
            ),
            Some(MessageContent::AgentOutput { text }) => m@.message == Some(
                ContentView::AgentOutput { text: text@ },
            ),
            Some(MessageContent::ToolCall(call)) => m@.message == Some(ContentView::ToolCall(call@)),
            Some(MessageContent::ToolCallResult(result)) => m@.message == Some(
                ContentView::ToolCallResult(result@),
            ),
            Some(MessageContent::Other(e)) => m@.message == Some(ContentView::Other(e.bytes@)),
            None => m@.message is None,
        },
        task@.id == task.id@,
        task@.description == task.description@,
        task@.summary == task.summary@,
        task@.server_data == task.server_data@,
        task@.dependencies is Some <==> task.dependencies is Some,
        task@.messages.len() == task.messages@.len(),
        0 <= i < task.messages@.len() ==> task@.messages[i] == task.messages@[i]@,
{
}

/// Events are seen as they are, field by field.
pub proof fn law_event_is_seen_as_it_is(event: ResponseEvent, i: int)
    ensures
        event@ is Some <==> event.kind is Some,
        event.kind matches Some(EventType::Init(init)) ==> event@ == Some(
            EventView::Init {
                conversation_id: init.conversation_id@,
                request_id: init.request_id@,
                run_id: init.run_id@,
            },
        ),
        event.kind matches Some(EventType::ClientActions { actions }) ==> {
            &&& event@->0 is ClientActions
            &&& event@->0->actions.len() == actions@.len()
            &&& 0 <= i < actions@.len() ==> match actions@[i].action {
                Some(Action::CreateTask { task }) => {
                    &&& event@->0->actions[i]->0 is CreateTask
                    &&& event@->0->actions[i]->0->task is Some <==> task is Some
                    &&& task matches Some(t) ==> event@->0->actions[i]->0->task->0 == t@
                },
                Some(Action::AddMessagesToTask { task_id, messages }) => {
                    &&& event@->0->actions[i]->0 is AddMessagesToTask
                    &&& event@->0->actions[i]->0->task_id == task_id@
                    &&& event@->0->actions[i]->0->messages == message_views(messages@)
                },
                None => event@->0->actions[i] is None,
            }
        },
        event.kind matches Some(EventType::Finished(f)) ==> {
            &&& event@->0 is Finished
            &&& event@->0->reason is Some <==> f.reason is Some
            &&& f.reason == Some(FinishReason::Done) ==> event@->0->reason == Some(
                FinishReasonView::Done,
            )
            &&& event@->0->token_usage.len() == f.token_usage@.len()
            &&& event@->0->should_refresh_model_config == f.should_refresh_model_config
            &&& event@->0->request_cost is Some <==> f.request_cost is Some
            &&& event@->0->conversation_usage_metadata is Some
                <==> f.conversation_usage_metadata is Some
        },
{
}

} // verus!
