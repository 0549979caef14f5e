//! The OpenRouter adapter, towards OpenRouter: with an API key of the user, multi-agent
//! requests go to OpenRouter's chat completions endpoint.
use crate::helm_launch;
use crate::helm_launch::non_blank;
use crate::http_status::HttpStatus;
use crate::multi_agent::{
    ContentView, InputType, Message, MessageContent, MessageView, Request, Task, Tool, ToolCall,
    ToolCallView, ToolType, ToolView, UserInput,
};
use crate::outside;
use crate::outside::json_object;
use crate::text;
use vstd::prelude::*;
use vstd::string::*;

verus! {

/// Environment variable with the OpenRouter API key.
pub const HELM_OPENROUTER_API_KEY_ENV: &'static str = "HELM_OPENROUTER_API_KEY";

/// Environment variable that overrides the model.
pub const HELM_OPENROUTER_MODEL_ENV: &'static str = "HELM_OPENROUTER_MODEL_ENV";

/// Environment variable that overrides the adapter identifier.
pub const HELM_CLIENT_OPENROUTER_ADAPTER_ENV: &'static str = "HELM_CLIENT_OPENROUTER_ADAPTER_ENV";

/// The model without an override.
pub const DEFAULT_OPENROUTER_MODEL: &'static str = "openai/gpt-4.1-mini";

/// OpenRouter's chat completions endpoint.
pub const OPENROUTER_CHAT_COMPLETIONS_URL: &'static str =
    "https://openrouter.ai/api/v1/chat/completions";

/// Whether the adapter is on: the API key is set and not blank.
pub fn is_openrouter_adapter_enabled(api_key: Option<&str>) -> (r: bool)
    ensures
        r == (helm_launch::present(text::opt_str(api_key)) is Some),
{
    non_blank(api_key).is_some()
}

/// Why a request failed.
#[derive(Debug, Clone, PartialEq, Eq)]
pub enum AIApiError {
    /// The server answered with an error status.
    ErrorStatus { status: HttpStatus, message: String },
    /// The request did not get through.
    Transport { cause: String },
    Other { message: String },
}

/// What the adapter takes from the environment.
#[derive(Debug, Clone, PartialEq, Eq)]
pub struct AdapterConfig {
    pub api_key: String,
    pub model: String,
}

/// The model to use, given the override.
pub open spec fn model_of(override_model: Option<Seq<char>>) -> Seq<char> {
    match helm_launch::present(override_model) {
        Some(model) => model,
        None => DEFAULT_OPENROUTER_MODEL@,
    }
}

/// Reads the configuration: the API key has to be there, the model may be overridden.
pub fn adapter_config(api_key: Option<&str>, override_model: Option<&str>) -> (r: Result<
    AdapterConfig,
    AIApiError,
>)
    ensures
        match helm_launch::present(text::opt_str(api_key)) {
            Some(key) => r matches Ok(config) && config.api_key@ == key && config.model@
                == model_of(text::opt_str(override_model)),
            None => r matches Err(AIApiError::Other { message }) && message@
                == "HELM_OPENROUTER_API_KEY is not set"@,
        },
{
    let api_key = match non_blank(api_key) {
        Some(key) => key.to_string(),
        None => {
            return Err(
                AIApiError::Other { message: "HELM_OPENROUTER_API_KEY is not set".to_string() },
            );
        },
    };
    let model = match non_blank(override_model) {
        Some(model) => model.to_string(),
        None => DEFAULT_OPENROUTER_MODEL.to_string(),
    };
    Ok(AdapterConfig { api_key, model })
}

impl AdapterConfig {
    /// The value of the authorization header.
    pub fn authorization(&self) -> (r: String)
        ensures
            r@ == "Bearer "@ + self.api_key@,
    {
        let mut out = "Bearer ".to_string();
        out.append(self.api_key.as_str());
        out
    }
}

/// Where a command or a tool runs.
#[derive(Debug, Clone, Copy, PartialEq, Eq, Structural)]
pub enum HelmLocalExecutionContext {
    /// In the user's local shell.
    Local,
    /// Through an endpoint.
    Endpoint,
}

/// An endpoint that the adapter uses.
#[derive(Debug, Clone, PartialEq, Eq)]
pub struct HelmEndpointExecutionContext {
    /// Name for people.
    pub name: String,
    /// Base URL of the endpoint.
    pub base_url: String,
}

impl HelmEndpointExecutionContext {
    pub fn new(name: &str, base_url: &str) -> (r: Self)
        ensures
            r.name@ == name@,
            r.base_url@ == base_url@,
    {
        HelmEndpointExecutionContext { name: name.to_string(), base_url: base_url.to_string() }
    }
}

/// How risky a command is that the model proposes.
#[derive(Debug, Clone, Copy, PartialEq, Eq, Structural)]
pub enum HelmCommandRiskCategory {
    /// Changes nothing.
    ReadOnly,
    /// May destroy something; the user has to approve.
    Destructive,
    /// Not known; to be treated with care.
    Unknown,
}

impl Default for HelmCommandRiskCategory {
    fn default() -> (r: Self)
        ensures
            r == HelmCommandRiskCategory::Unknown,
    {
        HelmCommandRiskCategory::Unknown
    }
}

/// Who speaks in a chat message.
#[derive(Debug, Clone, Copy, PartialEq, Eq, Structural)]
pub enum OpenRouterRole {
    System,
    User,
    Assistant,
    Tool,
}

/// The function that a tool call names, with its arguments as JSON text.
#[derive(Debug, Clone, PartialEq, Eq)]
pub struct OpenRouterToolCallFunction {
    pub name: String,
    pub arguments: String,
}

/// A tool call of the model.
#[derive(Debug, Clone, PartialEq, Eq)]
pub struct OpenRouterToolCall {
    pub id: String,
    pub kind: String,
    pub function: OpenRouterToolCallFunction,
}

/// The texts of an [`OpenRouterToolCall`].
#[verifier::ext_equal]
pub struct ChatCallView {
    pub id: Seq<char>,
    pub kind: Seq<char>,
    pub name: Seq<char>,
    pub arguments: Seq<char>,
}

impl View for OpenRouterToolCall {
    type V = ChatCallView;

    open spec fn view(&self) -> ChatCallView {
        ChatCallView {
            id: self.id@,
            kind: self.kind@,
            name: self.function.name@,
            arguments: self.function.arguments@,
        }
    }
}

/// The texts of a list of calls.
pub open spec fn call_views(v: Seq<OpenRouterToolCall>) -> Seq<ChatCallView> {
    v.map_values(|c: OpenRouterToolCall| c@)
}

/// A chat message.
#[derive(Debug, Clone, PartialEq, Eq)]
pub struct OpenRouterMessage {
    pub role: OpenRouterRole,
    pub content: Option<String>,
    pub tool_calls: Option<Vec<OpenRouterToolCall>>,
    pub tool_call_id: Option<String>,
    pub name: Option<String>,
}

/// The texts of an [`OpenRouterMessage`].
#[verifier::ext_equal]
pub struct ChatMessageView {
    pub role: OpenRouterRole,
    pub content: Option<Seq<char>>,
    pub tool_calls: Option<Seq<ChatCallView>>,
    pub tool_call_id: Option<Seq<char>>,
    pub name: Option<Seq<char>>,
}

impl View for OpenRouterMessage {
    type V = ChatMessageView;

    open spec fn view(&self) -> ChatMessageView {
        ChatMessageView {
            role: self.role,
            content: text::opt_text(self.content),
            tool_calls: match self.tool_calls {
                Some(calls) => Some(call_views(calls@)),
                None => None,
            },
            tool_call_id: text::opt_text(self.tool_call_id),
            name: text::opt_text(self.name),
        }
    }
}

/// The texts of an optional chat message.
pub open spec fn chat_view(m: Option<OpenRouterMessage>) -> Option<ChatMessageView> {
    match m {
        Some(m) => Some(m@),
        None => None,
    }
}

/// The texts of a list of chat messages.
pub open spec fn chat_views(v: Seq<OpenRouterMessage>) -> Seq<ChatMessageView> {
    v.map_values(|m: OpenRouterMessage| m@)
}

impl ChatMessageView {
    /// A message that is only text.
    pub open spec fn says(role: OpenRouterRole, content: Seq<char>) -> ChatMessageView {
        ChatMessageView {
            role,
            content: Some(content),
            tool_calls: None,
            tool_call_id: None,
            name: None,
        }
    }
}

impl OpenRouterMessage {
    /// A message that is only text.
    fn says(role: OpenRouterRole, content: String) -> (r: Self)
        ensures
            r@ == ChatMessageView::says(role, content@),
    {
        OpenRouterMessage {
            role,
            content: Some(content),
            tool_calls: None,
            tool_call_id: None,
            name: None,
        }
    }
}

/// The function that runs a shell command.
pub const RUN_SHELL_COMMAND: &'static str = "run_shell_command";

/// What makes a chat tool call of a protocol tool call: only shell commands have one.
pub open spec fn chat_call_of(call: ToolCallView) -> Option<ChatCallView> {
    match call.tool {
        Some(ToolView::RunShellCommand(shell)) => Some(
            ChatCallView {
                id: call.tool_call_id,
                kind: "function"@,
                name: RUN_SHELL_COMMAND@,
                arguments: outside::json_of("command"@, shell.command),
            },
        ),
        _ => None,
    }
}

/// Whether a chat tool call runs exactly the shell command `command`.
pub open spec fn runs_command(call: ChatCallView, command: Seq<char>) -> bool {
    &&& call.name == RUN_SHELL_COMMAND@
    &&& outside::json_string_member(call.arguments, "command"@) == Some(command)
}

/// Turns a tool call of the history into a chat tool call; `None` for anything but a
/// shell command.
pub fn warp_tool_call_to_openrouter_tool_call(tool_call: &ToolCall) -> (r: Option<
    OpenRouterToolCall,
>)
    ensures
        match r {
            Some(call) => chat_call_of(tool_call@) == Some(call@),
            None => chat_call_of(tool_call@) is None,
        },
        tool_call@.tool matches Some(ToolView::RunShellCommand(shell)) ==> r is Some
            && runs_command(r->0@, shell.command),
{
    match &tool_call.tool {
        Some(Tool::RunShellCommand(shell)) => {
            proof {
                reveal_strlit("command");
            }
            let arguments = json_object("command", shell.command.as_str());
            Some(
                OpenRouterToolCall {
                    id: tool_call.tool_call_id.clone(),
                    kind: "function".to_string(),
                    function: OpenRouterToolCallFunction {
                        name: RUN_SHELL_COMMAND.to_string(),
                        arguments,
                    },
                },
            )
        },
        _ => None,
    }
}

/// The chat message for a message of the history; none when there is nothing that a chat
/// can show.
pub open spec fn chat_message_of(message: MessageView) -> Option<ChatMessageView> {
    match message.message {
        Some(ContentView::UserQuery { query }) => Some(
            ChatMessageView::says(OpenRouterRole::User, query),
        ),
        Some(ContentView::AgentOutput { text }) => Some(
            ChatMessageView::says(OpenRouterRole::Assistant, text),
        ),
        Some(ContentView::ToolCall(call)) => match chat_call_of(call) {
            Some(chat_call) => Some(
                ChatMessageView {
                    role: OpenRouterRole::Assistant,
                    content: None,
                    tool_calls: Some(seq![chat_call]),
                    tool_call_id: None,
                    name: None,
                },
            ),
            None => None,
        },
        Some(ContentView::ToolCallResult(result)) => Some(
            ChatMessageView {
                role: OpenRouterRole::Tool,
                content: Some(result.text),
                tool_calls: None,
                tool_call_id: Some(result.tool_call_id),
                name: None,
            },
        ),
        _ => None,
    }
}

/// Turns a message of the history into a chat message.
pub fn warp_message_to_openrouter_message(message: &Message) -> (r: Option<OpenRouterMessage>)
    ensures
        chat_view(r) == chat_message_of(message@),
{
    match &message.message {
        Some(MessageContent::UserQuery { query }) => Some(
            OpenRouterMessage::says(OpenRouterRole::User, query.clone()),
        ),
        Some(MessageContent::AgentOutput { text }) => Some(
            OpenRouterMessage::says(OpenRouterRole::Assistant, text.clone()),
        ),
        Some(MessageContent::ToolCall(call)) => {
            match warp_tool_call_to_openrouter_tool_call(call) {
                Some(chat_call) => {
                    let mut calls: Vec<OpenRouterToolCall> = Vec::new();
                    calls.push(chat_call);
                    assert(call_views(calls@) =~= seq![chat_call@]);
                    Some(
                        OpenRouterMessage {
                            role: OpenRouterRole::Assistant,
                            content: None,
                            tool_calls: Some(calls),
                            tool_call_id: None,
                            name: None,
                        },
                    )
                },
                None => None,
            }
        },
        Some(MessageContent::ToolCallResult(result)) => Some(
            OpenRouterMessage {
                role: OpenRouterRole::Tool,
                content: Some(result.text.clone()),
                tool_calls: None,
                tool_call_id: Some(result.tool_call_id.clone()),
                name: None,
            },
        ),
        Some(MessageContent::Other(_)) => None,
        None => None,
    }
}

/// The first query among several inputs. An empty entry ends the search.
pub open spec fn first_query(inputs: Seq<Option<UserInput>>) -> Option<Seq<char>>
    decreases inputs.len(),
{
    if inputs.len() == 0 {
        None
    } else {
        match inputs[0] {
            Some(UserInput::UserQuery { query }) => Some(query@),
            Some(UserInput::Other(_)) => first_query(inputs.skip(1)),
            None => None,
        }
    }
}

/// The query that a request puts to the model.
pub open spec fn current_query(request: Request) -> Option<Seq<char>> {
    match request.input {
        Some(input) => match input.kind {
            Some(InputType::UserQuery { query }) => Some(query@),
            Some(InputType::UserInputs { inputs }) => first_query(inputs@),
            _ => None,
        },
        None => None,
    }
}

/// The chat message for the current input.
pub open spec fn current_chat_message(request: Request) -> Option<ChatMessageView> {
    match current_query(request) {
        Some(query) => Some(ChatMessageView::says(OpenRouterRole::User, query)),
        None => None,
    }
}

/// Turns the current input into a chat message; `None` when it has no query.
pub fn current_user_message(request: &Request) -> (r: Option<OpenRouterMessage>)
    ensures
        chat_view(r) == current_chat_message(*request),
{
    let input = match &request.input {
        Some(input) => input,
        None => {
            return None;
        },
    };
    match &input.kind {
        Some(InputType::UserQuery { query }) => Some(
            OpenRouterMessage::says(OpenRouterRole::User, query.clone()),
        ),
        Some(InputType::UserInputs { inputs }) => {
            let n: usize = inputs.len();
            assert(inputs@.skip(0) =~= inputs@);
            for i in 0..n
                invariant
                    n == inputs@.len(),
                    first_query(inputs@) == first_query(inputs@.skip(i as int)),
                    current_query(*request) == first_query(inputs@),
            {
                assert(inputs@.skip(i as int)[0] == inputs@[i as int]);
                assert(inputs@.skip(i as int).skip(1) =~= inputs@.skip(i + 1));
                match &inputs[i] {
                    Some(UserInput::UserQuery { query }) => {
                        return Some(OpenRouterMessage::says(OpenRouterRole::User, query.clone()));
                    },
                    Some(UserInput::Other(_)) => {},
                    None => {
                        return None;
                    },
                }
            }
            None
        },
        _ => None,
    }
}

/// One property of an object schema.
#[derive(Debug, Clone, PartialEq, Eq)]
pub struct PropertySchema {
    pub name: String,
    pub kind: String,
    pub description: String,
}

/// The texts of a [`PropertySchema`].
#[verifier::ext_equal]
pub struct PropertyView {
    pub name: Seq<char>,
    pub kind: Seq<char>,
    pub description: Seq<char>,
}

/// The JSON schema of a tool's arguments: an object with these properties.
#[derive(Debug, Clone, PartialEq, Eq)]
pub struct ObjectSchema {
    pub properties: Vec<PropertySchema>,
    pub required: Vec<String>,
}

/// The texts of an [`ObjectSchema`].
#[verifier::ext_equal]
pub struct SchemaView {
    pub properties: Seq<PropertyView>,
    pub required: Seq<Seq<char>>,
}

impl View for ObjectSchema {
    type V = SchemaView;

    open spec fn view(&self) -> SchemaView {
        SchemaView {
            properties: self.properties@.map_values(
                |p: PropertySchema|
                    PropertyView { name: p.name@, kind: p.kind@, description: p.description@ },
            ),
            required: text::texts(self.required@),
        }
    }
}

/// A function that the model may call.
#[derive(Debug, Clone, PartialEq, Eq)]
pub struct OpenRouterToolFunction {
    pub name: String,
    pub description: Option<String>,
    pub parameters: ObjectSchema,
}

/// A tool that is offered to the model.
#[derive(Debug, Clone, PartialEq, Eq)]
pub struct OpenRouterTool {
    pub kind: String,
    pub function: OpenRouterToolFunction,
}

/// The texts of an [`OpenRouterTool`].
#[verifier::ext_equal]
pub struct ChatToolView {
    pub kind: Seq<char>,
    pub name: Seq<char>,
    pub description: Option<Seq<char>>,
    pub parameters: SchemaView,
}

impl View for OpenRouterTool {
    type V = ChatToolView;

    open spec fn view(&self) -> ChatToolView {
        ChatToolView {
            kind: self.kind@,
            name: self.function.name@,
            description: text::opt_text(self.function.description),
            parameters: self.function.parameters@,
        }
    }
}

/// The texts of a list of tools.
pub open spec fn chat_tool_views(v: Seq<OpenRouterTool>) -> Seq<ChatToolView> {
    v.map_values(|t: OpenRouterTool| t@)
}

/// The tool that runs a shell command.
pub open spec fn shell_tool() -> ChatToolView {
    ChatToolView {
        kind: "function"@,
        name: RUN_SHELL_COMMAND@,
        description: Some("Run a shell command in the user's terminal."@),
        parameters: SchemaView {
            properties: seq![
                PropertyView {
                    name: "command"@,
                    kind: "string"@,
                    description: "The shell command to execute."@,
                },
            ],
            required: seq!["command"@],
        },
    }
}

/// Whether a request says that the client can run shell commands.
pub open spec fn offers_shell(request: Request) -> bool {
    request.settings matches Some(settings) && settings.supported_tools@.contains(
        ToolType::RunShellCommand,
    )
}

/// The tools that are offered to the model for a request.
pub open spec fn chat_tools_of(request: Request) -> Seq<ChatToolView> {
    if offers_shell(request) {
        seq![shell_tool()]
    } else {
        seq![]
    }
}

/// Whether a tool is in a list.
fn contains_tool(tools: &Vec<ToolType>, tool: ToolType) -> (r: bool)
    ensures
        r == tools@.contains(tool),
{
    let n: usize = tools.len();
    for i in 0..n
        invariant
            n == tools@.len(),
            forall|j: int| 0 <= j < i ==> tools@[j] != tool,
    {
        if tools[i] == tool {
            assert(tools@[i as int] == tool);
            return true;
        }
    }
    false
}

/// Makes the tool that runs a shell command.
fn make_shell_tool() -> (r: OpenRouterTool)
    ensures
        r@ == shell_tool(),
{
    let mut properties: Vec<PropertySchema> = Vec::new();
    properties.push(
        PropertySchema {
            name: "command".to_string(),
            kind: "string".to_string(),
            description: "The shell command to execute.".to_string(),
        },
    );
    let mut required: Vec<String> = Vec::new();
    required.push("command".to_string());
    let r = OpenRouterTool {
        kind: "function".to_string(),
        function: OpenRouterToolFunction {
            name: RUN_SHELL_COMMAND.to_string(),
            description: Some("Run a shell command in the user's terminal.".to_string()),
            parameters: ObjectSchema { properties, required },
        },
    };
    assert(r@.parameters.properties =~= shell_tool().parameters.properties);
    assert(r@.parameters.required =~= shell_tool().parameters.required);
    r
}

/// The tools to offer to the model: running shell commands, when the client can do that.
pub fn supported_tools(request: &Request) -> (r: Vec<OpenRouterTool>)
    ensures
        chat_tool_views(r@) == chat_tools_of(*request),
{
    let mut tools: Vec<OpenRouterTool> = Vec::new();
    if let Some(settings) = &request.settings {
        if contains_tool(&settings.supported_tools, ToolType::RunShellCommand) {
            tools.push(make_shell_tool());
        }
    }
    assert(chat_tool_views(tools@) =~= chat_tools_of(*request));
    tools
}

/// Which tool the model is to use.
#[derive(Debug, Clone, PartialEq, Eq)]
pub enum OpenRouterToolChoice {
    /// No tool.
    Never,
    /// The model decides.
    Auto,
    /// This function.
    Function { name: String },
}

/// A chat completion request. The sampling temperature is never set.
#[derive(Debug, Clone, PartialEq, Eq)]
pub struct OpenRouterChatCompletionRequest {
    pub model: String,
    pub messages: Vec<OpenRouterMessage>,
    pub tools: Vec<OpenRouterTool>,
    pub tool_choice: Option<OpenRouterToolChoice>,
    pub stream: bool,
    pub max_tokens: Option<u32>,
}

/// How the model is instructed.
pub const SYSTEM_PROMPT: &'static str =
    "You are Warp's agent mode assistant. Help the user with coding, terminal, and shell tasks.";

/// What the model is told first.
pub open spec fn system_message() -> ChatMessageView {
    ChatMessageView::says(OpenRouterRole::System, SYSTEM_PROMPT@)
}

/// The chat messages for the messages of a task, in order.
pub open spec fn task_history(messages: Seq<Message>) -> Seq<ChatMessageView>
    decreases messages.len(),
{
    if messages.len() == 0 {
        seq![]
    } else {
        task_history(messages.drop_last()) + listed(chat_message_of(messages.last()@))
    }
}

/// The chat messages for the messages of several tasks, in order.
pub open spec fn history(tasks: Seq<Task>) -> Seq<ChatMessageView>
    decreases tasks.len(),
{
    if tasks.len() == 0 {
        seq![]
    } else {
        history(tasks.drop_last()) + task_history(tasks.last().messages@)
    }
}

/// A message that may be there, as a list.
pub open spec fn listed(message: Option<ChatMessageView>) -> Seq<ChatMessageView> {
    match message {
        Some(m) => seq![m],
        None => seq![],
    }
}

/// The tasks of a request.
pub open spec fn tasks_of(request: Request) -> Seq<Task> {
    match request.task_context {
        Some(context) => context.tasks@,
        None => seq![],
    }
}

/// The whole conversation of a chat request: what the model is told first, the history,
/// and the current input.
pub open spec fn conversation(request: Request) -> Seq<ChatMessageView> {
    seq![system_message()] + history(tasks_of(request)) + listed(current_chat_message(request))
}

/// Appends the chat messages for the messages of a task.
fn push_task_history(messages: &Vec<Message>, out: &mut Vec<OpenRouterMessage>)
    ensures
        chat_views(final(out)@) == chat_views(old(out)@) + task_history(messages@),
{
    let n: usize = messages.len();
    let ghost before = chat_views(out@);
    assert(messages@.take(0) =~= seq![]);
    assert(before + task_history(messages@.take(0)) =~= before);
    for i in 0..n
        invariant
            n == messages@.len(),
            chat_views(out@) == before + task_history(messages@.take(i as int)),
    {
        let ghost at = chat_views(out@);
        let chat = warp_message_to_openrouter_message(&messages[i]);
        assert(messages@.take(i + 1).drop_last() =~= messages@.take(i as int));
        assert(messages@.take(i + 1).last() == messages@[i as int]);
        let ghost one = listed(chat_message_of(messages@[i as int]@));
        if let Some(chat) = chat {
            out.push(chat);
            assert(chat_views(out@) =~= at + one);
        } else {
            assert(at + one =~= at);
        }
        assert(before + task_history(messages@.take(i as int)) + one =~= before + (task_history(
            messages@.take(i as int),
        ) + one));
    }
    assert(messages@.take(n as int) =~= messages@);
}

/// Appends the chat messages for the messages of several tasks.
fn push_history(tasks: &Vec<Task>, out: &mut Vec<OpenRouterMessage>)
    ensures
        chat_views(final(out)@) == chat_views(old(out)@) + history(tasks@),
{
    let n: usize = tasks.len();
    let ghost before = chat_views(out@);
    assert(tasks@.take(0) =~= seq![]);
    assert(before + history(tasks@.take(0)) =~= before);
    for i in 0..n
        invariant
            n == tasks@.len(),
            chat_views(out@) == before + history(tasks@.take(i as int)),
    {
        push_task_history(&tasks[i].messages, out);
        assert(tasks@.take(i + 1).drop_last() =~= tasks@.take(i as int));
        assert(tasks@.take(i + 1).last() == tasks@[i as int]);
        assert(before + history(tasks@.take(i as int)) + task_history(tasks@[i as int].messages@)
            =~= before + (history(tasks@.take(i as int)) + task_history(
            tasks@[i as int].messages@,
        )));
    }
    assert(tasks@.take(n as int) =~= tasks@);
}

/// Turns a multi-agent request into a streaming chat completion request.
pub fn build_openrouter_request(request: &Request, model: String) -> (r:
    OpenRouterChatCompletionRequest)
    ensures
        r.model@ == model@,
        chat_views(r.messages@) == conversation(*request),
        chat_tool_views(r.tools@) == chat_tools_of(*request),
        r.tool_choice == if offers_shell(*request) {
            Some(OpenRouterToolChoice::Auto)
        } else {
            None
        },
        r.stream,
        r.max_tokens is None,
{
    let mut messages: Vec<OpenRouterMessage> = Vec::new();
    messages.push(
        OpenRouterMessage::says(OpenRouterRole::System, SYSTEM_PROMPT.to_string()),
    );
    assert(chat_views(messages@) =~= seq![system_message()]);
    match &request.task_context {
        Some(context) => {
            push_history(&context.tasks, &mut messages);
        },
        None => {
            assert(chat_views(messages@) + history(seq![]) =~= chat_views(messages@));
        },
    }
    let ghost at = chat_views(messages@);
    match current_user_message(request) {
        Some(message) => {
            messages.push(message);
            assert(chat_views(messages@) =~= at + seq![message@]);
        },
        None => {
            assert(at + seq![] =~= at);
        },
    }
    let tools = supported_tools(request);
    assert(chat_tool_views(tools@).len() == tools@.len());
    let tool_choice = if tools.len() == 0 {
        None
    } else {
        Some(OpenRouterToolChoice::Auto)
    };
    OpenRouterChatCompletionRequest {
        model,
        messages,
        tools,
        tool_choice,
        stream: true,
        max_tokens: None,
    }
}

/// Every conversation opens with the system message, and the current input, when there is
/// any, comes last, after the whole history.
pub proof fn law_conversation_shape(request: Request)
    ensures
        conversation(request).len() >= 1,
        conversation(request)[0] == system_message(),
        current_chat_message(request) matches Some(m) ==> conversation(request).len() >= 2
            && conversation(request).last() == m,
        conversation(request).len() == 1 + history(tasks_of(request)).len() + listed(
            current_chat_message(request),
        ).len(),
{
}

/// The model is offered the shell exactly when the client says that it can run shell
/// commands, and no other tool ever.
pub proof fn law_only_the_shell_is_offered(request: Request)
    ensures
        chat_tools_of(request).contains(shell_tool()) <==> offers_shell(request),
        forall|i: int|
            0 <= i < chat_tools_of(request).len() ==> #[trigger] chat_tools_of(request)[i]
                == shell_tool(),
{
    if offers_shell(request) {
        assert(chat_tools_of(request)[0] == shell_tool());
    }
}

/// The history of two runs of messages is the one followed by the other; that of a single
/// message is its chat message, when it has one.
pub proof fn law_task_history_follows_the_messages(
    a: Seq<Message>,
    b: Seq<Message>,
    message: Message,
)
    ensures
        task_history(a + b) == task_history(a) + task_history(b),
        match chat_message_of(message@) {
            Some(chat) => task_history(seq![message]) == seq![chat],
            None => task_history(seq![message]).len() == 0,
        },
    decreases b.len(),
{
    let single = seq![message];
    assert(single.drop_last() =~= seq![]);
    assert(task_history(single.drop_last()).len() == 0);
    assert(single.last() == message);
    if let Some(chat) = chat_message_of(message@) {
        assert(task_history(single) =~= seq![chat]);
    }
    if b.len() == 0 {
        assert(a + b =~= a);
        assert(task_history(a) + task_history(b) =~= task_history(a));
    } else {
        law_task_history_follows_the_messages(a, b.drop_last(), message);
        assert((a + b).drop_last() =~= a + b.drop_last());
        assert((a + b).last() == b.last());
        let one = listed(chat_message_of(b.last()@));
        assert(task_history(a) + task_history(b.drop_last()) + one =~= task_history(a) + (
        task_history(b.drop_last()) + one));
    }
}

/// The history of two runs of tasks is the one followed by the other, and that of one task
/// is that of its messages.
pub proof fn law_history_follows_the_tasks(a: Seq<Task>, b: Seq<Task>, task: Task)
    ensures
        history(a + b) == history(a) + history(b),
        history(seq![task]) == task_history(task.messages@),
    decreases b.len(),
{
    assert(seq![task].drop_last() =~= seq![]);
    assert(history(seq![task].drop_last()).len() == 0);
    assert(seq![task].last() == task);
    assert(history(seq![task]) =~= task_history(task.messages@));
    if b.len() == 0 {
        assert(a + b =~= a);
        assert(history(a) + history(b) =~= history(a));
    } else {
        law_history_follows_the_tasks(a, b.drop_last(), task);
        assert((a + b).drop_last() =~= a + b.drop_last());
        assert((a + b).last() == b.last());
        let one = task_history(b.last().messages@);
        assert(history(a) + history(b.drop_last()) + one =~= history(a) + (history(b.drop_last())
            + one));
    }
}

/// Whether a message can be shown in a chat: a query, an answer, the result of a tool, or
/// the call of a shell command.
pub open spec fn is_shown(message: Message) -> bool {
    match message.message {
        Some(MessageContent::UserQuery { .. }) => true,
        Some(MessageContent::AgentOutput { .. }) => true,
        Some(MessageContent::ToolCallResult(_)) => true,
        Some(MessageContent::ToolCall(call)) => call.tool matches Some(Tool::RunShellCommand(_)),
        _ => false,
    }
}

/// Whether a chat message shows a message of the history: who speaks, what is said, and
/// which call is made or answered.
pub open spec fn shows(chat: ChatMessageView, message: Message) -> bool {
    &&& chat.name is None
    &&& match message.message {
        Some(MessageContent::UserQuery { query }) => {
            &&& chat.role == OpenRouterRole::User
            &&& chat.content == Some(query@)
            &&& chat.tool_calls is None
            &&& chat.tool_call_id is None
        },
        Some(MessageContent::AgentOutput { text }) => {
            &&& chat.role == OpenRouterRole::Assistant
            &&& chat.content == Some(text@)
            &&& chat.tool_calls is None
            &&& chat.tool_call_id is None
        },
        Some(MessageContent::ToolCallResult(result)) => {
            &&& chat.role == OpenRouterRole::Tool
            &&& chat.content == Some(result.text@)
            &&& chat.tool_calls is None
            &&& chat.tool_call_id == Some(result.tool_call_id@)
        },
        Some(MessageContent::ToolCall(call)) => {
            &&& call.tool is Some
            &&& call.tool->0 is RunShellCommand
            &&& chat.role == OpenRouterRole::Assistant
            &&& chat.content is None
            &&& chat.tool_call_id is None
            &&& chat.tool_calls is Some
            &&& chat.tool_calls->0.len() == 1
            &&& chat.tool_calls->0[0].id == call.tool_call_id@
            &&& chat.tool_calls->0[0].kind == "function"@
            &&& chat.tool_calls->0[0].name == "run_shell_command"@
            &&& chat.tool_calls->0[0].arguments == outside::json_of(
                "command"@,
                call.tool->0->RunShellCommand_0.command@,
            )
        },
        _ => false,
    }
}

/// A message of the history that can be shown has one chat message, which shows it; any
/// other has none.
pub proof fn law_chat_message_shows_the_message(message: Message)
    ensures
        chat_message_of(message@) is Some <==> is_shown(message),
        chat_message_of(message@) matches Some(chat) ==> shows(chat, message),
{
}

/// A query is said by the user, an answer by the assistant and the result of a tool by the
/// tool, in the words of the message; a result names the call that it answers. A call is
/// made by the assistant when it runs a shell command, and not shown otherwise.
pub proof fn law_everyone_speaks_for_themselves(message: Message)
    ensures
        match message.message {
            Some(MessageContent::UserQuery { query }) => chat_message_of(message@) == Some(
                ChatMessageView {
                    role: OpenRouterRole::User,
                    content: Some(query@),
                    tool_calls: None,
                    tool_call_id: None,
                    name: None,
                },
            ),
            Some(MessageContent::AgentOutput { text }) => chat_message_of(message@) == Some(
                ChatMessageView {
                    role: OpenRouterRole::Assistant,
                    content: Some(text@),
                    tool_calls: None,
                    tool_call_id: None,
                    name: None,
                },
            ),
            Some(MessageContent::ToolCallResult(result)) => chat_message_of(message@) == Some(
                ChatMessageView {
                    role: OpenRouterRole::Tool,
                    content: Some(result.text@),
                    tool_calls: None,
                    tool_call_id: Some(result.tool_call_id@),
                    name: None,
                },
            ),
            Some(MessageContent::ToolCall(call)) => match call.tool {
                Some(Tool::RunShellCommand(shell)) => chat_message_of(message@) == Some(
                    ChatMessageView {
                        role: OpenRouterRole::Assistant,
                        content: None,
                        tool_calls: Some(
                            seq![
                                ChatCallView {
                                    id: call.tool_call_id@,
                                    kind: "function"@,
                                    name: "run_shell_command"@,
                                    arguments: outside::json_of("command"@, shell.command@),
                                },
                            ],
                        ),
                        tool_call_id: None,
                        name: None,
                    },
                ),
                _ => chat_message_of(message@) is None,
            },
            _ => chat_message_of(message@) is None,
        },
{
}

/// How many of the messages can be shown.
pub open spec fn count_shown(messages: Seq<Message>) -> nat
    decreases messages.len(),
{
    if messages.len() == 0 {
        0
    } else {
        count_shown(messages.drop_last()) + if is_shown(messages.last()) {
            1nat
        } else {
            0
        }
    }
}

/// Every message of a task that can be shown stands in the history once and in order: it is
/// shown right after the messages before it that are shown, and nothing else stands there.
pub proof fn law_every_message_is_shown_once_and_in_order(messages: Seq<Message>, i: int)
    requires
        0 <= i < messages.len(),
    ensures
        task_history(messages).len() == count_shown(messages),
        is_shown(messages[i]) ==> count_shown(messages.take(i)) < task_history(messages).len()
            && shows(task_history(messages)[count_shown(messages.take(i)) as int], messages[i]),
{
    lemma_history_length(messages);
    let before = messages.take(i);
    let after = messages.skip(i + 1);
    let m = messages[i];
    assert(messages =~= before.push(m) + after);
    law_task_history_follows_the_messages(before.push(m), after, m);
    assert(before.push(m).drop_last() =~= before);
    lemma_history_length(before);
    law_chat_message_shows_the_message(m);
}

proof fn lemma_history_length(messages: Seq<Message>)
    ensures
        task_history(messages).len() == count_shown(messages),
    decreases messages.len(),
{
    if messages.len() > 0 {
        lemma_history_length(messages.drop_last());
        law_chat_message_shows_the_message(messages.last());
    }
}

/// How many of the messages are results of tool calls.
pub open spec fn count_results(messages: Seq<Message>) -> nat
    decreases messages.len(),
{
    if messages.len() == 0 {
        0
    } else {
        count_results(messages.drop_last()) + if messages.last().message matches Some(
            MessageContent::ToolCallResult(_),
        ) {
            1nat
        } else {
            0
        }
    }
}

/// How many of the chat messages speak for a tool.
pub open spec fn count_tool_messages(chat: Seq<ChatMessageView>) -> nat
    decreases chat.len(),
{
    if chat.len() == 0 {
        0
    } else {
        count_tool_messages(chat.drop_last()) + if chat.last().role == OpenRouterRole::Tool {
            1nat
        } else {
            0
        }
    }
}

/// The model sees as many tool messages as there are results of tool calls.
pub proof fn law_every_tool_result_is_answered(messages: Seq<Message>)
    ensures
        count_tool_messages(task_history(messages)) == count_results(messages),
    decreases messages.len(),
{
    if messages.len() > 0 {
        let init = messages.drop_last();
        law_every_tool_result_is_answered(init);
        law_chat_message_shows_the_message(messages.last());
        let one = listed(chat_message_of(messages.last()@));
        if one.len() == 1 {
            let all = task_history(init) + one;
            assert(all.drop_last() =~= task_history(init));
        } else {
            assert(task_history(init) + one =~= task_history(init));
        }
    }
}

/// A chat request holds the instructions, the histories of all tasks in order, and the
/// current query, and nothing else.
pub proof fn law_conversation_is_instructions_history_and_query(request: Request)
    ensures
        ({
            let chat = conversation(request);
            let past = history(
                if request.task_context is Some {
                    request.task_context->0.tasks@
                } else {
                    seq![]
                },
            );
            let asked = current_query(request);
            &&& chat.len() == 1 + past.len() + if asked is Some {
                1int
            } else {
                0
            }
            &&& chat[0].role == OpenRouterRole::System
            &&& chat[0].content == Some(
                "You are Warp's agent mode assistant. Help the user with coding, terminal, and shell tasks."@,
            )
            &&& chat[0].tool_calls is None && chat[0].tool_call_id is None && chat[0].name is None
            &&& chat.subrange(1, 1 + past.len() as int) == past
            &&& asked matches Some(query) ==> {
                &&& chat.last().role == OpenRouterRole::User
                &&& chat.last().content == Some(query)
                &&& chat.last().tool_calls is None
                &&& chat.last().tool_call_id is None
                &&& chat.last().name is None
            }
        }),
{
    let past = history(tasks_of(request));
    assert(conversation(request).subrange(1, 1 + past.len() as int) =~= past);
}

/// The query among several inputs is the first one that comes before any empty entry: only
/// inputs that are no queries stand before it.
pub proof fn law_first_query_comes_before_any_gap(inputs: Seq<Option<UserInput>>) -> (at: int)
    ensures
        0 <= at <= inputs.len(),
        forall|i: int|
            0 <= i < at ==> (#[trigger] inputs[i]) is Some && inputs[i]->0 is Other,
        match first_query(inputs) {
            Some(query) => at < inputs.len() && inputs[at] is Some && inputs[at]->0 is UserQuery
                && inputs[at]->0->query@ == query,
            None => at == inputs.len() || inputs[at] is None,
        },
    decreases inputs.len(),
{
    if inputs.len() == 0 {
        0
    } else {
        match inputs[0] {
            Some(UserInput::UserQuery { query }) => 0,
            Some(UserInput::Other(_)) => {
                let at = law_first_query_comes_before_any_gap(inputs.skip(1));
                assert forall|i: int| 0 <= i < at + 1 implies (#[trigger] inputs[i]) is Some
                    && inputs[i]->0 is Other by {
                    if i > 0 {
                        assert(inputs.skip(1)[i - 1] is Some && inputs.skip(1)[i - 1]->0 is Other);
                    }
                }
                at + 1
            },
            None => 0,
        }
    }
}

/// A single query is the current one as it is; several inputs are searched for one; an
/// input of another kind, or none, has no query.
pub proof fn law_current_query_is_what_the_user_asked(request: Request)
    ensures
        ({
            let kind = if request.input is Some {
                request.input->0.kind
            } else {
                None
            };
            match kind {
                Some(InputType::UserQuery { query }) => current_query(request) == Some(query@),
                Some(InputType::UserInputs { inputs }) => current_query(request) == first_query(
                    inputs@,
                ),
                _ => current_query(request) is None,
            }
        }),
{
}

/// The one tool that is ever offered is the shell, described with its one required argument,
/// and it is offered exactly when the request's settings list it.
pub proof fn law_shell_is_offered_when_listed(request: Request)
    ensures
        ({
            let tools = chat_tools_of(request);
            let listed = request.settings is Some && exists|i: int|
                0 <= i < request.settings->0.supported_tools@.len()
                    && #[trigger] request.settings->0.supported_tools@[i]
                    == ToolType::RunShellCommand;
            &&& listed ==> tools.len() == 1
            &&& !listed ==> tools.len() == 0
            &&& listed ==> {
                &&& tools[0].kind == "function"@
                &&& tools[0].name == "run_shell_command"@
                &&& tools[0].description == Some("Run a shell command in the user's terminal."@)
                &&& tools[0].parameters.properties.len() == 1
                &&& tools[0].parameters.properties[0].name == "command"@
                &&& tools[0].parameters.properties[0].kind == "string"@
                &&& tools[0].parameters.properties[0].description
                    == "The shell command to execute."@
                &&& tools[0].parameters.required == seq!["command"@]
            }
        }),
{
    if offers_shell(request) {
        let tools = request.settings->0.supported_tools@;
        let i = choose|i: int| 0 <= i < tools.len() && tools[i] == ToolType::RunShellCommand;
        assert(tools[i] == ToolType::RunShellCommand);
    }
}

/// An override of the model counts as it is, unless it is blank.
pub proof fn law_model_is_the_override_unless_blank(override_model: Option<Seq<char>>)
    ensures
        override_model matches Some(model) && !text::is_blank(model) ==> model_of(override_model)
            == override_model->0,
        override_model is None || text::is_blank(override_model->0) ==> model_of(override_model)
            == "openai/gpt-4.1-mini"@,
{
}

/// Every message of every task that has a chat message reaches the model: it stands in the
/// conversation after the instructions, the tasks before its own and the messages before it
/// in its task. A result of a tool in particular is there with its call's id and its text.
pub proof fn law_every_task_message_reaches_the_model(request: Request, t: int, i: int) -> (at: int)
    requires
        0 <= t < tasks_of(request).len(),
        0 <= i < tasks_of(request)[t].messages@.len(),
    ensures
        at == 1 + history(tasks_of(request).take(t)).len() + task_history(
            tasks_of(request)[t].messages@.take(i),
        ).len(),
        chat_message_of(tasks_of(request)[t].messages@[i]@) matches Some(chat) ==> 0 < at
            < conversation(request).len() && conversation(request)[at] == chat,
        tasks_of(request)[t].messages@[i].message matches Some(
            MessageContent::ToolCallResult(result),
        ) ==> {
            &&& 0 < at < conversation(request).len()
            &&& conversation(request)[at].role == OpenRouterRole::Tool
            &&& conversation(request)[at].tool_call_id == Some(result.tool_call_id@)
            &&& conversation(request)[at].content == Some(result.text@)
        },
{
    let tasks = tasks_of(request);
    let task = tasks[t];
    let messages = task.messages@;
    let m = messages[i];
    law_history_follows_the_tasks(tasks.take(t), seq![task], task);
    law_history_follows_the_tasks(tasks.take(t) + seq![task], tasks.skip(t + 1), task);
    assert(tasks =~= tasks.take(t) + seq![task] + tasks.skip(t + 1));
    law_task_history_follows_the_messages(messages.take(i), seq![m], m);
    law_task_history_follows_the_messages(messages.take(i) + seq![m], messages.skip(i + 1), m);
    assert(messages =~= messages.take(i) + seq![m] + messages.skip(i + 1));
    let before = history(tasks.take(t));
    let at: int = 1 + before.len() as int + task_history(messages.take(i)).len();
    if let Some(chat) = chat_message_of(m@) {
        assert(task_history(messages)[task_history(messages.take(i)).len() as int] == chat);
        assert(history(tasks)[at - 1] == chat);
        assert(conversation(request)[at] == history(tasks)[at - 1]);
    }
    at
}

/// Chat messages, calls and tools are seen as they are, field by field.
pub proof fn law_chat_is_seen_as_it_is(
    m: OpenRouterMessage,
    call: OpenRouterToolCall,
    tool: OpenRouterTool,
    i: int,
)
    ensures
        m@.role == m.role,
        m@.content is Some <==> m.content is Some,
        m.content matches Some(content) ==> m@.content == Some(content@),
        m@.tool_calls is Some <==> m.tool_calls is Some,
        m.tool_calls matches Some(calls) ==> m@.tool_calls->0.len() == calls@.len() && (0 <= i
            < calls@.len() ==> m@.tool_calls->0[i] == calls@[i]@),
        m@.tool_call_id is Some <==> m.tool_call_id is Some,
        m.tool_call_id matches Some(id) ==> m@.tool_call_id == Some(id@),
        m@.name is Some <==> m.name is Some,
        m.name matches Some(name) ==> m@.name == Some(name@),
        call@.id == call.id@,
        call@.kind == call.kind@,
        call@.name == call.function.name@,
        call@.arguments == call.function.arguments@,
        tool@.kind == tool.kind@,
        tool@.name == tool.function.name@,
        tool@.description is Some <==> tool.function.description is Some,
        tool.function.description matches Some(d) ==> tool@.description == Some(d@),
        tool@.parameters.required.len() == tool.function.parameters.required@.len(),
        0 <= i < tool.function.parameters.required@.len() ==> tool@.parameters.required[i]
            == tool.function.parameters.required@[i]@,
        tool@.parameters.properties.len() == tool.function.parameters.properties@.len(),
        0 <= i < tool.function.parameters.properties@.len() ==> {
            let p = tool.function.parameters.properties@[i];
            &&& tool@.parameters.properties[i].name == p.name@
            &&& tool@.parameters.properties[i].kind == p.kind@
            &&& tool@.parameters.properties[i].description == p.description@
        },
{
}

} // verus!
