//! The OpenRouter adapter, from OpenRouter: the streamed completion comes back as the
//! events of a multi-agent response.
use crate::http_status::HttpStatus;
use crate::multi_agent;
use crate::multi_agent::{
    ContentView, EventView, Message, MessageContent, MessageView, Request, ResponseEvent,
    RiskCategory, RunShellCommand, ShellCommandView, Timestamp, Tool, ToolCall, ToolCallView,
    ToolView,
};
use crate::openrouter;
use crate::openrouter::{
    AIApiError, ChatCallView, OpenRouterMessage, OpenRouterRole, OpenRouterToolCall,
    OpenRouterToolCallFunction, RUN_SHELL_COMMAND,
};
use crate::outside;
use crate::outside::{current_timestamp, fresh_uuid, json_string, utf8_text};
use crate::text;
use crate::text::{split_lines, str_eq, strip_prefix};
use vstd::prelude::*;
use vstd::string::*;

verus! {

/// The conversation that a request belongs to, when it names one.
pub open spec fn named_conversation(request: Request) -> Option<Seq<char>> {
    match request.metadata {
        Some(metadata) => if metadata.conversation_id@.len() == 0 {
            None
        } else {
            Some(metadata.conversation_id@)
        },
        None => None,
    }
}

/// The id of the conversation that a request belongs to, or `fallback`.
pub fn conversation_id_or(request: &Request, fallback: String) -> (r: String)
    ensures
        r@ == match named_conversation(*request) {
            Some(id) => id,
            None => fallback@,
        },
{
    match &request.metadata {
        Some(metadata) => {
            if metadata.conversation_id.as_str().is_empty() {
                fallback
            } else {
                metadata.conversation_id.clone()
            }
        },
        None => fallback,
    }
}

/// The id of the conversation that a request belongs to, or a new one.
pub fn conversation_id_from_request(request: &Request) -> (r: String)
    ensures
        match named_conversation(*request) {
            Some(id) => r@ == id,
            None => outside::is_random_uuid(r@),
        },
{
    conversation_id_or(request, fresh_uuid())
}

/// The task that a request is about, when it has tasks: the first one.
pub open spec fn first_task(request: Request) -> Option<Seq<char>> {
    if openrouter::tasks_of(request).len() > 0 {
        Some(openrouter::tasks_of(request)[0].id@)
    } else {
        None
    }
}

/// The id of the request's first task, or `fallback`.
pub fn primary_task_id_or(request: &Request, fallback: String) -> (r: String)
    ensures
        r@ == match first_task(*request) {
            Some(id) => id,
            None => fallback@,
        },
{
    match &request.task_context {
        Some(context) => {
            if context.tasks.len() > 0 {
                context.tasks[0].id.clone()
            } else {
                fallback
            }
        },
        None => fallback,
    }
}

/// The id of the request's first task, or a new one.
pub fn primary_task_id(request: &Request) -> (r: String)
    ensures
        match first_task(*request) {
            Some(id) => r@ == id,
            None => outside::is_random_uuid(r@),
        },
{
    primary_task_id_or(request, fresh_uuid())
}

/// The tool for a shell command of which nothing but the text is known.
pub open spec fn plain_shell(command: Seq<char>) -> ToolView {
    ToolView::RunShellCommand(
        ShellCommandView {
            command,
            is_read_only: false,
            uses_pager: false,
            citations: seq![],
            is_risky: false,
            risk_category: RiskCategory::Unspecified,
            wait_until_complete_value: None,
        },
    )
}

/// The tool that a function call asks for, where `command` is the string that its
/// arguments hold under that name, if any.
pub open spec fn tool_with_command(
    name: Seq<char>,
    arguments: Seq<char>,
    command: Option<Seq<char>>,
) -> Option<ToolView> {
    if name == RUN_SHELL_COMMAND@ {
        match command {
            Some(command) => Some(plain_shell(command)),
            None => None,
        }
    } else {
        Some(ToolView::Server { payload: arguments })
    }
}

/// The tool that a function call asks for.
pub open spec fn tool_of(name: Seq<char>, arguments: Seq<char>) -> Option<ToolView> {
    tool_with_command(name, arguments, outside::json_string_member(arguments, "command"@))
}

/// Turns a function call into a tool, where `command` is the string that its arguments
/// hold under that name. A shell call without a command asks for nothing; every other
/// function runs on the server.
pub fn tool_from_command(
    function: &OpenRouterToolCallFunction,
    command: Option<String>,
) -> (r: Option<Tool>)
    ensures
        multi_agent::tool_view(r) == tool_with_command(
            function.name@,
            function.arguments@,
            text::opt_text(command),
        ),
{
    if str_eq(function.name.as_str(), RUN_SHELL_COMMAND) {
        match command {
            Some(command) => {
                let shell = RunShellCommand {
                    command,
                    is_read_only: false,
                    uses_pager: false,
                    citations: Vec::new(),
                    is_risky: false,
                    risk_category: RiskCategory::Unspecified,
                    wait_until_complete_value: None,
                };
                assert(multi_agent::encoded_views(shell.citations@) =~= seq![]);
                Some(Tool::RunShellCommand(shell))
            },
            None => None,
        }
    } else {
        Some(Tool::Server { payload: function.arguments.clone() })
    }
}

/// Turns a function call into a tool.
pub fn openrouter_function_to_warp_tool(function: &OpenRouterToolCallFunction) -> (r: Option<Tool>)
    ensures
        multi_agent::tool_view(r) == tool_of(function.name@, function.arguments@),
{
    tool_from_command(function, json_string(function.arguments.as_str(), "command"))
}

/// The message that carries a tool call.
pub open spec fn call_message(
    tool_call_id: Seq<char>,
    tool: ToolView,
    id: Seq<char>,
    task_id: Seq<char>,
    request_id: Seq<char>,
    timestamp: Timestamp,
) -> MessageView {
    MessageView::plain(
        id,
        task_id,
        request_id,
        timestamp,
        ContentView::ToolCall(ToolCallView { tool_call_id, tool: Some(tool) }),
    )
}

/// Turns a tool call of the model into a message with this id and time; `None` when the
/// call asks for nothing.
pub fn tool_call_message(
    tool_call: &OpenRouterToolCall,
    id: String,
    task_id: &str,
    request_id: &str,
    timestamp: Timestamp,
) -> (r: Option<Message>)
    ensures
        match (r, tool_of(tool_call@.name, tool_call@.arguments)) {
            (Some(m), Some(tool)) => m@ == call_message(
                tool_call@.id,
                tool,
                id@,
                task_id@,
                request_id@,
                timestamp,
            ),
            (None, None) => true,
            _ => false,
        },
{
    match openrouter_function_to_warp_tool(&tool_call.function) {
        Some(tool) => {
            let content = MessageContent::ToolCall(
                ToolCall { tool_call_id: tool_call.id.clone(), tool: Some(tool) },
            );
            Some(Message::plain(id, task_id, request_id, timestamp, content))
        },
        None => None,
    }
}

/// Turns a tool call of the model into a message with a new id and the current time;
/// `None` when the call asks for nothing.
pub fn openrouter_tool_call_to_warp_message(
    tool_call: &OpenRouterToolCall,
    task_id: &str,
    request_id: &str,
) -> (r: Option<Message>)
    ensures
        match (r, tool_of(tool_call@.name, tool_call@.arguments)) {
            (Some(m), Some(tool)) => {
                &&& outside::is_random_uuid(m@.id)
                &&& m@.timestamp matches Some(timestamp) && timestamp.normalized()
                &&& m@ == call_message(
                    tool_call@.id,
                    tool,
                    m@.id,
                    task_id@,
                    request_id@,
                    m@.timestamp->0,
                )
            },
            (None, None) => true,
            _ => false,
        },
{
    tool_call_message(tool_call, fresh_uuid(), task_id, request_id, current_timestamp())
}

/// The event that adds a tool call to a task.
pub fn build_add_tool_call_event(task_id: &str, message: Message) -> (r: ResponseEvent)
    ensures
        r@ == Some(EventView::add_message(task_id@, message@)),
{
    multi_agent::add_message_event(task_id, message)
}

/// Whether an event adds a call of `tool` to a task, with some new id at some time.
pub open spec fn adds_call(
    event: Option<EventView>,
    task_id: Seq<char>,
    request_id: Seq<char>,
    call: (Seq<char>, ToolView),
) -> bool {
    exists|id: Seq<char>, timestamp: Timestamp|
        {
            &&& outside::is_random_uuid(id)
            &&& timestamp.normalized()
            &&& event == Some(
                EventView::add_message(
                    task_id,
                    #[trigger] call_message(call.0, call.1, id, task_id, request_id, timestamp),
                ),
            )
        }
}

/// What a chunk of the stream adds to a choice.
#[derive(Debug, Clone)]
pub struct OpenRouterDelta {
    pub role: Option<OpenRouterRole>,
    pub content: Option<String>,
    pub tool_calls: Option<Vec<OpenRouterToolCall>>,
}

/// One choice of a completion.
#[derive(Debug, Clone)]
pub struct OpenRouterChoice {
    pub index: u32,
    pub message: Option<OpenRouterMessage>,
    pub delta: Option<OpenRouterDelta>,
    pub finish_reason: Option<String>,
}

/// How many tokens a completion used.
#[derive(Debug, Clone)]
pub struct OpenRouterUsage {
    pub prompt_tokens: u32,
    pub completion_tokens: u32,
    pub total_tokens: u32,
}

/// A chunk of a streamed completion.
#[derive(Debug, Clone)]
pub struct OpenRouterChatCompletionResponse {
    pub id: String,
    pub model: String,
    pub choices: Vec<OpenRouterChoice>,
    pub usage: Option<OpenRouterUsage>,
}

/// The text that a choice adds.
pub open spec fn choice_text(choice: OpenRouterChoice) -> Seq<char> {
    match choice.delta {
        Some(delta) => match delta.content {
            Some(content) => content@,
            None => seq![],
        },
        None => seq![],
    }
}

/// The tool calls that a choice adds.
pub open spec fn choice_calls(choice: OpenRouterChoice) -> Seq<OpenRouterToolCall> {
    match choice.delta {
        Some(delta) => match delta.tool_calls {
            Some(calls) => calls@,
            None => seq![],
        },
        None => seq![],
    }
}

/// The tools that calls ask for, each with the id of its call, in order. Calls that ask
/// for nothing are left out.
pub open spec fn requested_tools(calls: Seq<OpenRouterToolCall>) -> Seq<(Seq<char>, ToolView)>
    decreases calls.len(),
{
    if calls.len() == 0 {
        seq![]
    } else {
        let last = calls.last()@;
        let before = requested_tools(calls.drop_last());
        match tool_of(last.name, last.arguments) {
            Some(tool) => before.push((last.id, tool)),
            None => before,
        }
    }
}

/// The text that the choices of a chunk add, in order.
pub open spec fn added_text(choices: Seq<OpenRouterChoice>) -> Seq<char>
    decreases choices.len(),
{
    if choices.len() == 0 {
        seq![]
    } else {
        added_text(choices.drop_last()) + choice_text(choices.last())
    }
}

/// The tools that the choices of a chunk ask for, in order.
pub open spec fn added_tools(choices: Seq<OpenRouterChoice>) -> Seq<(Seq<char>, ToolView)>
    decreases choices.len(),
{
    if choices.len() == 0 {
        seq![]
    } else {
        added_tools(choices.drop_last()) + requested_tools(choice_calls(choices.last()))
    }
}

/// Whether events add the calls of `tools` to a task, one each and in order.
pub open spec fn add_calls(
    events: Seq<ResponseEvent>,
    task_id: Seq<char>,
    request_id: Seq<char>,
    tools: Seq<(Seq<char>, ToolView)>,
) -> bool {
    &&& events.len() == tools.len()
    &&& forall|i: int|
        0 <= i < events.len() ==> adds_call(#[trigger] events[i]@, task_id, request_id, tools[i])
}

/// Turns the tool calls of one choice into events and appends them.
fn push_call_events(
    calls: &Vec<OpenRouterToolCall>,
    task_id: &str,
    request_id: &str,
    events: &mut Vec<ResponseEvent>,
    Ghost(tools): Ghost<Seq<(Seq<char>, ToolView)>>,
)
    requires
        add_calls(old(events)@, task_id@, request_id@, tools),
    ensures
        add_calls(final(events)@, task_id@, request_id@, tools + requested_tools(calls@)),
{
    let n: usize = calls.len();
    assert(calls@.take(0) =~= seq![]);
    assert(tools + requested_tools(calls@.take(0)) =~= tools);
    for i in 0..n
        invariant
            n == calls@.len(),
            add_calls(
                events@,
                task_id@,
                request_id@,
                tools + requested_tools(calls@.take(i as int)),
            ),
    {
        let call = &calls[i];
        let ghost so_far = tools + requested_tools(calls@.take(i as int));
        assert(calls@.take(i + 1).drop_last() =~= calls@.take(i as int));
        assert(calls@.take(i + 1).last() == calls@[i as int]);
        if let Some(message) = openrouter_tool_call_to_warp_message(call, task_id, request_id) {
            let ghost tool = tool_of(call@.name, call@.arguments)->0;
            let ghost id = message@.id;
            let ghost timestamp = message@.timestamp->0;
            let event = build_add_tool_call_event(task_id, message);
            assert(event@ == Some(
                EventView::add_message(
                    task_id@,
                    call_message(call@.id, tool, id, task_id@, request_id@, timestamp),
                ),
            ));
            assert(adds_call(event@, task_id@, request_id@, (call@.id, tool)));
            events.push(event);
            assert(tools + requested_tools(calls@.take(i + 1)) =~= so_far.push((call@.id, tool)));
        } else {
            assert(requested_tools(calls@.take(i + 1)) == requested_tools(calls@.take(i as int)));
        }
    }
    assert(calls@.take(n as int) =~= calls@);
}

/// The text that the parsed data of a chunk of the response body adds, in order.
pub open spec fn parsed_text(parsed: Seq<Option<OpenRouterChatCompletionResponse>>) -> Seq<char>
    decreases parsed.len(),
{
    if parsed.len() == 0 {
        seq![]
    } else {
        let before = parsed_text(parsed.drop_last());
        match parsed.last() {
            Some(completion) => before + added_text(completion.choices@),
            None => before,
        }
    }
}

/// The tools that the parsed data of a chunk of the response body asks for, in order.
pub open spec fn parsed_tools(parsed: Seq<Option<OpenRouterChatCompletionResponse>>) -> Seq<
    (Seq<char>, ToolView),
>
    decreases parsed.len(),
{
    if parsed.len() == 0 {
        seq![]
    } else {
        let before = parsed_tools(parsed.drop_last());
        match parsed.last() {
            Some(completion) => before + added_tools(completion.choices@),
            None => before,
        }
    }
}

proof fn lemma_add_calls_concat(
    a: Seq<ResponseEvent>,
    b: Seq<ResponseEvent>,
    task_id: Seq<char>,
    request_id: Seq<char>,
    s: Seq<(Seq<char>, ToolView)>,
    t: Seq<(Seq<char>, ToolView)>,
)
    requires
        add_calls(a, task_id, request_id, s),
        add_calls(b, task_id, request_id, t),
    ensures
        add_calls(a + b, task_id, request_id, s + t),
{
    assert forall|i: int| 0 <= i < (a + b).len() implies adds_call(
        #[trigger] (a + b)[i]@,
        task_id,
        request_id,
        (s + t)[i],
    ) by {
        if i < a.len() {
            assert(adds_call(a[i]@, task_id, request_id, s[i]));
        } else {
            assert(adds_call(b[i - a.len()]@, task_id, request_id, t[i - a.len()]));
        }
    }
}

/// A response stream under way: its ids, and the text that has come so far.
#[derive(Debug, Clone)]
pub struct OpenRouterStream {
    pub conversation_id: String,
    pub request_id: String,
    pub run_id: String,
    pub task_id: String,
    pub assistant_message_id: String,
    pub content: String,
}

/// The texts of an [`OpenRouterStream`].
#[verifier::ext_equal]
pub struct StreamView {
    pub conversation_id: Seq<char>,
    pub request_id: Seq<char>,
    pub run_id: Seq<char>,
    pub task_id: Seq<char>,
    pub assistant_message_id: Seq<char>,
    pub content: Seq<char>,
}

impl View for OpenRouterStream {
    type V = StreamView;

    open spec fn view(&self) -> StreamView {
        StreamView {
            conversation_id: self.conversation_id@,
            request_id: self.request_id@,
            run_id: self.run_id@,
            task_id: self.task_id@,
            assistant_message_id: self.assistant_message_id@,
            content: self.content@,
        }
    }
}

impl StreamView {
    /// The stream with more text.
    pub open spec fn with_more(self, more: Seq<char>) -> StreamView {
        StreamView { content: self.content + more, ..self }
    }

    /// The events that open the stream: its ids, and a task for the answer, which the
    /// client does not know of yet.
    pub open spec fn opening(self) -> Seq<Option<EventView>> {
        seq![
            Some(
                EventView::Init {
                    conversation_id: self.conversation_id,
                    request_id: self.request_id,
                    run_id: self.run_id,
                },
            ),
            Some(
                EventView::act(
                    multi_agent::ActionView::CreateTask {
                        task: Some(multi_agent::TaskView::empty(self.task_id)),
                    },
                ),
            ),
        ]
    }

    /// The events that close the stream at a given time: one message with the whole text,
    /// and the end.
    pub open spec fn closing(self, timestamp: Timestamp) -> Seq<Option<EventView>> {
        seq![
            Some(
                EventView::add_message(
                    self.task_id,
                    MessageView::plain(
                        self.assistant_message_id,
                        self.task_id,
                        self.request_id,
                        timestamp,
                        ContentView::AgentOutput { text: self.content },
                    ),
                ),
            ),
            Some(EventView::done()),
        ]
    }
}

impl OpenRouterStream {
    /// Starts the stream that answers a request: the conversation and the task are those
    /// of the request where it names them; all other ids are new.
    pub fn start(request: &Request) -> (r: Self)
        ensures
            match named_conversation(*request) {
                Some(id) => r@.conversation_id == id,
                None => outside::is_random_uuid(r@.conversation_id),
            },
            match first_task(*request) {
                Some(id) => r@.task_id == id,
                None => outside::is_random_uuid(r@.task_id),
            },
            outside::is_random_uuid(r@.request_id),
            outside::is_random_uuid(r@.run_id),
            outside::is_random_uuid(r@.assistant_message_id),
            r@.content == Seq::<char>::empty(),
    {
        OpenRouterStream {
            conversation_id: conversation_id_from_request(request),
            request_id: fresh_uuid(),
            run_id: fresh_uuid(),
            task_id: primary_task_id(request),
            assistant_message_id: fresh_uuid(),
            content: String::new(),
        }
    }

    /// The events that open the stream.
    pub fn opening_events(&self) -> (r: Vec<ResponseEvent>)
        ensures
            multi_agent::event_views(r@) == self@.opening(),
    {
        let mut events: Vec<ResponseEvent> = Vec::new();
        events.push(
            multi_agent::init_event(
                self.conversation_id.as_str(),
                self.request_id.as_str(),
                self.run_id.as_str(),
            ),
        );
        events.push(multi_agent::create_task_event(self.task_id.as_str()));
        assert(multi_agent::event_views(events@) =~= self@.opening());
        events
    }

    /// Takes a chunk of the completion: keeps its text, and returns the events for its
    /// tool calls.
    pub fn on_completion(&mut self, completion: &OpenRouterChatCompletionResponse) -> (r: Vec<
        ResponseEvent,
    >)
        ensures
            final(self)@ == old(self)@.with_more(added_text(completion.choices@)),
            add_calls(
                r@,
                old(self)@.task_id,
                old(self)@.request_id,
                added_tools(completion.choices@),
            ),
    {
        let mut events: Vec<ResponseEvent> = Vec::new();
        let n: usize = completion.choices.len();
        let ghost choices = completion.choices@;
        let ghost before = self@;
        assert(choices.take(0) =~= seq![]);
        assert(self@ =~= before.with_more(added_text(choices.take(0))));
        for i in 0..n
            invariant
                n == completion.choices@.len(),
                choices == completion.choices@,
                self@ == before.with_more(added_text(choices.take(i as int))),
                add_calls(
                    events@,
                    before.task_id,
                    before.request_id,
                    added_tools(choices.take(i as int)),
                ),
        {
            let choice = &completion.choices[i];
            assert(choices.take(i + 1).drop_last() =~= choices.take(i as int));
            assert(choices.take(i + 1).last() == *choice);
            let ghost text_so_far = added_text(choices.take(i as int));
            let ghost tools_so_far = added_tools(choices.take(i as int));
            assert(before.content + (text_so_far + choice_text(*choice)) =~= (before.content
                + text_so_far) + choice_text(*choice));
            assert(text_so_far + Seq::<char>::empty() =~= text_so_far);
            assert(tools_so_far + Seq::<(Seq<char>, ToolView)>::empty() =~= tools_so_far);
            if let Some(delta) = &choice.delta {
                if let Some(content) = &delta.content {
                    self.content.append(content.as_str());
                }
                if let Some(calls) = &delta.tool_calls {
                    push_call_events(
                        calls,
                        self.task_id.as_str(),
                        self.request_id.as_str(),
                        &mut events,
                        Ghost(tools_so_far),
                    );
                }
            }
        }
        assert(choices.take(n as int) =~= choices);
        events
    }

    /// Takes what the data of one chunk of the response body parsed to: keeps the text,
    /// and returns the events for the tool calls. Data that did not parse is skipped.
    pub fn on_chunk(&mut self, parsed: &Vec<Option<OpenRouterChatCompletionResponse>>) -> (r: Vec<
        ResponseEvent,
    >)
        ensures
            final(self)@ == old(self)@.with_more(parsed_text(parsed@)),
            add_calls(r@, old(self)@.task_id, old(self)@.request_id, parsed_tools(parsed@)),
    {
        let mut events: Vec<ResponseEvent> = Vec::new();
        let n: usize = parsed.len();
        let ghost before = self@;
        assert(parsed@.take(0) =~= seq![]);
        assert(self@ =~= before.with_more(parsed_text(parsed@.take(0))));
        for i in 0..n
            invariant
                n == parsed@.len(),
                self@ == before.with_more(parsed_text(parsed@.take(i as int))),
                add_calls(
                    events@,
                    before.task_id,
                    before.request_id,
                    parsed_tools(parsed@.take(i as int)),
                ),
        {
            assert(parsed@.take(i + 1).drop_last() =~= parsed@.take(i as int));
            assert(parsed@.take(i + 1).last() == parsed@[i as int]);
            let ghost text_so_far = parsed_text(parsed@.take(i as int));
            let ghost tools_so_far = parsed_tools(parsed@.take(i as int));
            if let Some(completion) = &parsed[i] {
                let mut more = self.on_completion(completion);
                proof {
                    lemma_add_calls_concat(
                        events@,
                        more@,
                        before.task_id,
                        before.request_id,
                        tools_so_far,
                        added_tools(completion.choices@),
                    );
                    assert(before.content + text_so_far + added_text(completion.choices@)
                        =~= before.content + (text_so_far + added_text(completion.choices@)));
                }
                events.append(&mut more);
            }
        }
        assert(parsed@.take(n as int) =~= parsed@);
        events
    }

    /// The events that close the stream, at a given time.
    pub fn closing_events_at(&self, timestamp: Timestamp) -> (r: Vec<ResponseEvent>)
        ensures
            multi_agent::event_views(r@) == self@.closing(timestamp),
    {
        let message = Message::plain(
            self.assistant_message_id.clone(),
            self.task_id.as_str(),
            self.request_id.as_str(),
            timestamp,
            MessageContent::AgentOutput { text: self.content.clone() },
        );
        let mut events: Vec<ResponseEvent> = Vec::new();
        events.push(multi_agent::add_message_event(self.task_id.as_str(), message));
        events.push(multi_agent::done_event());
        assert(multi_agent::event_views(events@) =~= self@.closing(timestamp));
        events
    }

    /// The events that close the stream now.
    pub fn closing_events(&self) -> (r: Vec<ResponseEvent>)
        ensures
            exists|timestamp: Timestamp|
                timestamp.normalized() && multi_agent::event_views(r@) == #[trigger] self@.closing(
                    timestamp,
                ),
    {
        self.closing_events_at(current_timestamp())
    }
}

/// What comes in while a stream runs.
pub enum StreamInput {
    /// A chunk of the response body, with what its data parsed to.
    Chunk { parsed: Vec<Option<OpenRouterChatCompletionResponse>> },
    /// A chunk that did not get through; the cause. More may follow.
    Failed { cause: String },
    /// The end of the response body.
    End,
}

/// Whether all results are events.
pub open spec fn all_events(results: Seq<Result<ResponseEvent, AIApiError>>) -> bool {
    forall|i: int| 0 <= i < results.len() ==> #[trigger] results[i] is Ok
}

/// The events of results.
pub open spec fn events_of(results: Seq<Result<ResponseEvent, AIApiError>>) -> Seq<ResponseEvent> {
    results.map_values(|r: Result<ResponseEvent, AIApiError>| r->Ok_0)
}

/// Hands events out as results.
fn as_results(events: Vec<ResponseEvent>) -> (r: Vec<Result<ResponseEvent, AIApiError>>)
    ensures
        all_events(r@),
        events_of(r@) == events@,
{
    let mut results: Vec<Result<ResponseEvent, AIApiError>> = Vec::new();
    let ghost all = events@;
    for event in it: events
        invariant
            it.seq() == all,
            all_events(results@),
            events_of(results@) == all.take(it.index() as int),
    {
        let ghost before = results@;
        results.push(Ok(event));
        assert(events_of(results@) =~= events_of(before).push(event));
        assert(all.take(it.index() + 1) =~= all.take(it.index() as int).push(
            all[it.index() as int],
        ));
    }
    assert(all.take(all.len() as int) =~= all);
    results
}

impl OpenRouterStream {
    /// Takes what comes in and returns what goes out. A chunk that did not get through is
    /// reported and otherwise ignored; the end of the body closes the stream.
    pub fn on_input(&mut self, input: StreamInput) -> (r: Vec<Result<ResponseEvent, AIApiError>>)
        ensures
            match input {
                StreamInput::Chunk { parsed } => {
                    &&& final(self)@ == old(self)@.with_more(parsed_text(parsed@))
                    &&& all_events(r@)
                    &&& add_calls(
                        events_of(r@),
                        old(self)@.task_id,
                        old(self)@.request_id,
                        parsed_tools(parsed@),
                    )
                },
                StreamInput::Failed { cause } => {
                    &&& final(self)@ == old(self)@
                    &&& r@ == seq![
                        Err::<ResponseEvent, AIApiError>(AIApiError::Transport { cause }),
                    ]
                },
                StreamInput::End => {
                    &&& final(self)@ == old(self)@
                    &&& all_events(r@)
                    &&& exists|timestamp: Timestamp|
                        timestamp.normalized() && multi_agent::event_views(events_of(r@))
                            == #[trigger] old(self)@.closing(timestamp)
                },
            },
    {
        match input {
            StreamInput::Chunk { parsed } => as_results(self.on_chunk(&parsed)),
            StreamInput::Failed { cause } => {
                let mut results: Vec<Result<ResponseEvent, AIApiError>> = Vec::new();
                results.push(Err(AIApiError::Transport { cause }));
                assert(results@ =~= seq![
                    Err::<ResponseEvent, AIApiError>(AIApiError::Transport { cause }),
                ]);
                results
            },
            StreamInput::End => as_results(self.closing_events()),
        }
    }
}

/// What a line of the event stream means.
pub enum SseLine {
    /// Nothing: an empty line, a comment or a field that is not data.
    Skip,
    /// Data.
    Data { payload: Seq<char> },
    /// The end of the completion.
    Done,
}

/// Reads a line of the event stream.
pub open spec fn sse_line(line: Seq<char>) -> SseLine {
    match text::stripped_prefix(text::trimmed(line), "data: "@) {
        Some(data) => if text::trimmed(data) == "[DONE]"@ {
            SseLine::Done
        } else {
            SseLine::Data { payload: text::trimmed(data) }
        },
        None => SseLine::Skip,
    }
}

/// The data of the lines of a chunk, in order, up to the end of the completion.
pub open spec fn payloads(lines: Seq<Seq<char>>) -> Seq<Seq<char>>
    decreases lines.len(),
{
    if lines.len() == 0 {
        seq![]
    } else {
        match sse_line(lines[0]) {
            SseLine::Skip => payloads(lines.skip(1)),
            SseLine::Data { payload } => seq![payload] + payloads(lines.skip(1)),
            SseLine::Done => seq![],
        }
    }
}

/// The data of a chunk. A chunk that is not UTF-8 has none.
pub open spec fn chunk_payloads(chunk: Seq<u8>) -> Seq<Seq<char>> {
    if vstd::utf8::valid_utf8(chunk) {
        payloads(text::lines_of(vstd::utf8::decode_utf8(chunk)))
    } else {
        seq![]
    }
}

/// Reads the data of a text of the event stream.
pub fn text_payloads(input: &str) -> (r: Vec<String>)
    ensures
        text::texts(r@) == payloads(text::lines_of(input@)),
{
    let lines = split_lines(input);
    let mut out: Vec<String> = Vec::new();
    let n: usize = lines.len();
    let ghost all = text::texts(lines@);
    assert(all.skip(0) =~= all);
    assert(text::texts(out@) + payloads(all) =~= payloads(all));
    for i in 0..n
        invariant
            n == lines@.len(),
            all == text::texts(lines@),
            all == text::lines_of(input@),
            payloads(all) == text::texts(out@) + payloads(all.skip(i as int)),
    {
        let ghost so_far = text::texts(out@);
        assert(all.skip(i as int)[0] == lines@[i as int]@);
        assert(all.skip(i as int).skip(1) =~= all.skip(i + 1));
        if let Some(data) = strip_prefix(lines[i].as_str().trim(), "data: ") {
            let payload = data.as_str().trim();
            if str_eq(payload, "[DONE]") {
                assert(so_far + seq![] =~= so_far);
                return out;
            }
            out.push(payload.to_string());
            assert(text::texts(out@) =~= so_far.push(payload@));
            assert(so_far.push(payload@) + payloads(all.skip(i + 1)) =~= so_far + (seq![payload@]
                + payloads(all.skip(i + 1))));
        }
    }
    assert(text::texts(out@) + payloads(all.skip(n as int)) =~= text::texts(out@));
    out
}

/// Reads the data of a chunk of the response body, each to be parsed as a chunk of the
/// completion.
pub fn sse_payloads(chunk: Vec<u8>) -> (r: Vec<String>)
    ensures
        text::texts(r@) == chunk_payloads(chunk@),
{
    match utf8_text(chunk) {
        Some(input) => text_payloads(input.as_str()),
        None => {
            let none: Vec<String> = Vec::new();
            assert(text::texts(none@) =~= seq![]);
            none
        },
    }
}

/// What OpenRouter says of an error.
#[derive(Debug, Clone, PartialEq, Eq)]
pub struct OpenRouterErrorDetail {
    pub message: String,
    pub error_type: Option<String>,
    pub code: Option<u32>,
}

/// The body of an error answer.
#[derive(Debug, Clone, PartialEq, Eq)]
pub struct OpenRouterErrorResponse {
    pub error: OpenRouterErrorDetail,
}

/// The message for an error answer: that of the parsed body, else the body itself, else
/// the status.
pub open spec fn error_message(
    body: Seq<char>,
    status: u16,
    parsed: Option<OpenRouterErrorResponse>,
) -> Seq<char> {
    if text::is_blank(body) {
        "OpenRouter returned "@ + outside::status_display(status)
    } else {
        match parsed {
            Some(response) => response.error.message@,
            None => body,
        }
    }
}

/// Makes the message for an error answer, where `parsed` is the body read as an error
/// response, if it is one.
pub fn parse_openrouter_error(
    body_text: String,
    status: HttpStatus,
    parsed: Option<OpenRouterErrorResponse>,
) -> (r: String)
    ensures
        r@ == error_message(body_text@, status@, parsed),
{
    if body_text.as_str().trim().is_empty() {
        let mut out = "OpenRouter returned ".to_string();
        out.append(status.display_text().as_str());
        return out;
    }
    match parsed {
        Some(response) => response.error.message,
        None => body_text,
    }
}

/// Turns an answer with an error status into an error.
pub fn response_error(
    status: HttpStatus,
    body_text: String,
    parsed: Option<OpenRouterErrorResponse>,
) -> (r: AIApiError)
    ensures
        r matches AIApiError::ErrorStatus { status: s, message } && s == status && message@
            == error_message(body_text@, status@, parsed),
{
    AIApiError::ErrorStatus { status, message: parse_openrouter_error(body_text, status, parsed) }
}

/// A shell command survives the way to the model and back: the chat call that stands for
/// it in the history asks for the same command when the model repeats it.
pub proof fn law_shell_command_round_trips(call: ChatCallView, command: Seq<char>)
    requires
        openrouter::runs_command(call, command),
    ensures
        tool_of(call.name, call.arguments) == Some(plain_shell(command)),
{
}

/// The stream after a series of chunks, each with what its data parsed to.
pub open spec fn after_chunks(
    stream: StreamView,
    chunks: Seq<Seq<Option<OpenRouterChatCompletionResponse>>>,
) -> StreamView
    decreases chunks.len(),
{
    if chunks.len() == 0 {
        stream
    } else {
        after_chunks(stream, chunks.drop_last()).with_more(parsed_text(chunks.last()))
    }
}

/// The text of a series of chunks.
pub open spec fn text_of_chunks(
    chunks: Seq<Seq<Option<OpenRouterChatCompletionResponse>>>,
) -> Seq<char>
    decreases chunks.len(),
{
    if chunks.len() == 0 {
        seq![]
    } else {
        text_of_chunks(chunks.drop_last()) + parsed_text(chunks.last())
    }
}

/// Whatever chunks come, the ids of the stream stay, and the closing message carries the
/// text of all chunks in order.
pub proof fn law_closing_message_carries_the_whole_text(
    stream: StreamView,
    chunks: Seq<Seq<Option<OpenRouterChatCompletionResponse>>>,
    timestamp: Timestamp,
)
    requires
        stream.content.len() == 0,
    ensures
        after_chunks(stream, chunks) == (StreamView { content: text_of_chunks(chunks), ..stream }),
        after_chunks(stream, chunks).closing(timestamp)[0] == Some(
            EventView::add_message(
                stream.task_id,
                MessageView::plain(
                    stream.assistant_message_id,
                    stream.task_id,
                    stream.request_id,
                    timestamp,
                    ContentView::AgentOutput { text: text_of_chunks(chunks) },
                ),
            ),
        ),
    decreases chunks.len(),
{
    if chunks.len() > 0 {
        law_closing_message_carries_the_whole_text(stream, chunks.drop_last(), timestamp);
    }
    assert(after_chunks(stream, chunks) =~= (StreamView {
        content: text_of_chunks(chunks),
        ..stream
    }));
}

/// Whether all messages that an event adds belong to the task `task_id` and go there.
pub open spec fn stays_in_task(event: Option<EventView>, task_id: Seq<char>) -> bool {
    match event {
        Some(EventView::ClientActions { actions }) => forall|i: int|
            0 <= i < actions.len() ==> match #[trigger] actions[i] {
                Some(multi_agent::ActionView::AddMessagesToTask { task_id: target, messages }) => {
                    &&& target == task_id
                    &&& forall|j: int|
                        0 <= j < messages.len() ==> (#[trigger] messages[j]).task_id == task_id
                },
                _ => true,
            },
        _ => true,
    }
}

/// A stream creates its task before any message, puts every message into that task, and
/// is over with its last event.
pub proof fn law_stream_stays_in_its_task(
    stream: StreamView,
    events: Seq<ResponseEvent>,
    tools: Seq<(Seq<char>, ToolView)>,
    timestamp: Timestamp,
)
    requires
        add_calls(events, stream.task_id, stream.request_id, tools),
    ensures
        stream.opening().last() == Some(
            EventView::act(
                multi_agent::ActionView::CreateTask {
                    task: Some(multi_agent::TaskView::empty(stream.task_id)),
                },
            ),
        ),
        forall|i: int|
            0 <= i < stream.opening().len() ==> stays_in_task(
                #[trigger] stream.opening()[i],
                stream.task_id,
            ),
        forall|i: int|
            0 <= i < events.len() ==> stays_in_task((#[trigger] events[i])@, stream.task_id),
        forall|i: int|
            0 <= i < stream.closing(timestamp).len() ==> stays_in_task(
                #[trigger] stream.closing(timestamp)[i],
                stream.task_id,
            ),
        stream.closing(timestamp).last() == Some(EventView::done()),
{
    assert forall|i: int| 0 <= i < events.len() implies stays_in_task(
        (#[trigger] events[i])@,
        stream.task_id,
    ) by {
        assert(adds_call(events[i]@, stream.task_id, stream.request_id, tools[i]));
    }
}

/// Nothing that follows the end marker in a chunk is read.
pub proof fn law_nothing_counts_after_done(
    before: Seq<Seq<char>>,
    done: Seq<char>,
    after: Seq<Seq<char>>,
)
    requires
        sse_line(done) is Done,
    ensures
        payloads(before + seq![done] + after) == payloads(before),
    decreases before.len(),
{
    let lines = before + seq![done] + after;
    if before.len() == 0 {
        assert(lines[0] == done);
    } else {
        assert(lines[0] == before[0]);
        assert(lines.skip(1) =~= before.skip(1) + seq![done] + after);
        law_nothing_counts_after_done(before.skip(1), done, after);
    }
}

/// A request's conversation is the one its metadata names, as it is named, and its task is
/// the first one it has.
pub proof fn law_ids_are_those_of_the_request(request: Request)
    ensures
        match named_conversation(request) {
            Some(id) => request.metadata is Some && request.metadata->0.conversation_id@ == id
                && id.len() > 0,
            None => request.metadata is None || request.metadata->0.conversation_id@.len() == 0,
        },
        match first_task(request) {
            Some(id) => request.task_context is Some && request.task_context->0.tasks@.len() > 0
                && request.task_context->0.tasks@[0].id@ == id,
            None => request.task_context is None || request.task_context->0.tasks@.len() == 0,
        },
{
}

/// A shell call asks for the command that its arguments hold, unchanged and marked neither
/// safe nor risky; without one it asks for nothing. Every other function goes to the server
/// with its arguments as they are, whatever they hold.
pub proof fn law_functions_become_tools(
    name: Seq<char>,
    arguments: Seq<char>,
    command: Option<Seq<char>>,
)
    ensures
        name != "run_shell_command"@ ==> tool_with_command(name, arguments, command) == Some(
            ToolView::Server { payload: arguments },
        ),
        name == "run_shell_command"@ ==> {
            let tool = tool_with_command(name, arguments, command);
            &&& tool is Some <==> command is Some
            &&& tool is Some ==> {
                let shell = tool->0->RunShellCommand_0;
                &&& tool->0 is RunShellCommand
                &&& shell.command == command->0
                &&& !shell.is_read_only
                &&& !shell.uses_pager
                &&& !shell.is_risky
                &&& shell.risk_category == RiskCategory::Unspecified
                &&& shell.citations.len() == 0
                &&& shell.wait_until_complete_value is None
            }
        },
        tool_of(name, arguments) == tool_with_command(
            name,
            arguments,
            outside::json_string_member(arguments, "command"@),
        ),
{
}

/// An event that adds a call adds one message to the task: a new message of the request,
/// with the call's own id and tool.
pub proof fn law_call_events_carry_the_call(
    event: Option<EventView>,
    task_id: Seq<char>,
    request_id: Seq<char>,
    call: (Seq<char>, ToolView),
)
    requires
        adds_call(event, task_id, request_id, call),
    ensures
        ({
            let action = event->0->actions[0]->0;
            let message = action->messages[0];
            &&& event is Some
            &&& event->0 is ClientActions
            &&& event->0->actions.len() == 1
            &&& event->0->actions[0] is Some
            &&& action is AddMessagesToTask
            &&& action->task_id == task_id
            &&& action->messages.len() == 1
            &&& message.task_id == task_id
            &&& message.request_id == request_id
            &&& outside::is_random_uuid(message.id)
            &&& message.timestamp is Some && message.timestamp->0.normalized()
            &&& message.server_message_data.len() == 0
            &&& message.citations.len() == 0
            &&& message.message == Some(
                ContentView::ToolCall(ToolCallView { tool_call_id: call.0, tool: Some(call.1) }),
            )
        }),
{
}

/// Events stand for calls one for one: as many events as calls, each for its own.
pub proof fn law_calls_and_events_match(
    events: Seq<ResponseEvent>,
    task_id: Seq<char>,
    request_id: Seq<char>,
    tools: Seq<(Seq<char>, ToolView)>,
    i: int,
)
    requires
        add_calls(events, task_id, request_id, tools),
    ensures
        events.len() == tools.len(),
        0 <= i < tools.len() ==> adds_call(events[i]@, task_id, request_id, tools[i]),
{
    if 0 <= i < tools.len() {
        assert(adds_call(events[i]@, task_id, request_id, tools[i]));
    }
}

/// What a delta says is added as it is, whitespace and all; a choice that says nothing adds
/// nothing. The choices of a completion add up in order.
pub proof fn law_deltas_add_up_unchanged(
    a: Seq<OpenRouterChoice>,
    b: Seq<OpenRouterChoice>,
    choice: OpenRouterChoice,
)
    ensures
        added_text(a + b) == added_text(a) + added_text(b),
        choice.delta is Some && choice.delta->0.content is Some ==> added_text(seq![choice])
            == choice.delta->0.content->0@,
        choice.delta is None || choice.delta->0.content is None ==> added_text(
            seq![choice],
        ).len() == 0,
        added_text(a.push(choice)).len() == added_text(a).len() + added_text(seq![choice]).len(),
    decreases b.len(),
{
    let one = seq![choice];
    assert(one.drop_last() =~= seq![]);
    assert(added_text(one.drop_last()).len() == 0);
    assert(one.last() == choice);
    assert(added_text(one) =~= choice_text(choice));
    assert(a.push(choice).drop_last() =~= a);
    if b.len() == 0 {
        assert(a + b =~= a);
        assert(added_text(a) + added_text(b) =~= added_text(a));
    } else {
        law_deltas_add_up_unchanged(a, b.drop_last(), choice);
        assert((a + b).drop_last() =~= a + b.drop_last());
        assert((a + b).last() == b.last());
        assert(added_text(a) + added_text(b.drop_last()) + choice_text(b.last()) =~= added_text(a)
            + (added_text(b.drop_last()) + choice_text(b.last())));
    }
}

/// The calls of a completion are taken choice by choice and call by call, in order: a call
/// that asks for a tool adds that tool under the call's id, one that asks for nothing adds
/// nothing.
pub proof fn law_calls_are_taken_in_order(
    a: Seq<OpenRouterToolCall>,
    b: Seq<OpenRouterToolCall>,
    call: OpenRouterToolCall,
)
    ensures
        requested_tools(a + b) == requested_tools(a) + requested_tools(b),
        match tool_of(call.function.name@, call.function.arguments@) {
            Some(tool) => requested_tools(seq![call]) == seq![(call.id@, tool)],
            None => requested_tools(seq![call]).len() == 0,
        },
    decreases b.len(),
{
    let one = seq![call];
    assert(one.drop_last() =~= seq![]);
    assert(requested_tools(one.drop_last()).len() == 0);
    assert(one.last() == call);
    if let Some(tool) = tool_of(call.function.name@, call.function.arguments@) {
        assert(requested_tools(one) =~= seq![(call.id@, tool)]);
    }
    if b.len() == 0 {
        assert(a + b =~= a);
        assert(requested_tools(a) + requested_tools(b) =~= requested_tools(a));
    } else {
        law_calls_are_taken_in_order(a, b.drop_last(), call);
        assert((a + b).drop_last() =~= a + b.drop_last());
        assert((a + b).last() == b.last());
        assert(requested_tools(a + b) =~= requested_tools(a) + requested_tools(b));
    }
}

/// The tools of the choices of a completion add up in order, and those of one choice are
/// the ones that its delta's calls ask for.
pub proof fn law_choices_add_up_their_tools(
    a: Seq<OpenRouterChoice>,
    b: Seq<OpenRouterChoice>,
    choice: OpenRouterChoice,
)
    ensures
        added_tools(a + b) == added_tools(a) + added_tools(b),
        choice.delta is Some && choice.delta->0.tool_calls is Some ==> added_tools(seq![choice])
            == requested_tools(choice.delta->0.tool_calls->0@),
        choice.delta is None || choice.delta->0.tool_calls is None ==> added_tools(
            seq![choice],
        ).len() == 0,
    decreases b.len(),
{
    let one = seq![choice];
    assert(one.drop_last() =~= seq![]);
    assert(added_tools(one.drop_last()).len() == 0);
    assert(one.last() == choice);
    assert(added_tools(one) =~= requested_tools(choice_calls(choice)));
    if b.len() == 0 {
        assert(a + b =~= a);
        assert(added_tools(a) + added_tools(b) =~= added_tools(a));
    } else {
        law_choices_add_up_their_tools(a, b.drop_last(), choice);
        assert((a + b).drop_last() =~= a + b.drop_last());
        assert((a + b).last() == b.last());
        assert(added_tools(a + b) =~= added_tools(a) + added_tools(b));
    }
}

/// Data that parsed counts with all its text and tools, in order; data that did not parse
/// counts for nothing.
pub proof fn law_parsed_data_adds_up(
    a: Seq<Option<OpenRouterChatCompletionResponse>>,
    b: Seq<Option<OpenRouterChatCompletionResponse>>,
    completion: OpenRouterChatCompletionResponse,
)
    ensures
        parsed_text(a + b) == parsed_text(a) + parsed_text(b),
        parsed_tools(a + b) == parsed_tools(a) + parsed_tools(b),
        parsed_text(seq![Some(completion)]) == added_text(completion.choices@),
        parsed_tools(seq![Some(completion)]) == added_tools(completion.choices@),
        parsed_text(seq![None]).len() == 0,
        parsed_tools(seq![None]).len() == 0,
    decreases b.len(),
{
    let one = seq![Some(completion)];
    let none = seq![None::<OpenRouterChatCompletionResponse>];
    assert(one.drop_last() =~= seq![]);
    assert(none.drop_last() =~= seq![]);
    assert(one.last() == Some(completion));
    assert(none.last() is None);
    assert(parsed_text(one.drop_last()).len() == 0);
    assert(parsed_tools(one.drop_last()).len() == 0);
    assert(parsed_text(one) =~= added_text(completion.choices@));
    assert(parsed_tools(one) =~= added_tools(completion.choices@));
    if b.len() == 0 {
        assert(a + b =~= a);
        assert(parsed_text(a) + parsed_text(b) =~= parsed_text(a));
        assert(parsed_tools(a) + parsed_tools(b) =~= parsed_tools(a));
    } else {
        law_parsed_data_adds_up(a, b.drop_last(), completion);
        assert((a + b).drop_last() =~= a + b.drop_last());
        assert((a + b).last() == b.last());
        assert(parsed_text(a + b) =~= parsed_text(a) + parsed_text(b));
        assert(parsed_tools(a + b) =~= parsed_tools(a) + parsed_tools(b));
    }
}

/// Text that comes in is appended to the stream's text, and the ids stay.
pub proof fn law_more_text_is_appended(stream: StreamView, more: Seq<char>)
    ensures
        ({
            let after = stream.with_more(more);
            &&& after.content == stream.content + more
            &&& after.content.len() == stream.content.len() + more.len()
            &&& after.conversation_id == stream.conversation_id
            &&& after.request_id == stream.request_id
            &&& after.run_id == stream.run_id
            &&& after.task_id == stream.task_id
            &&& after.assistant_message_id == stream.assistant_message_id
        }),
{
}

/// A stream opens with its own ids and a new task, and closes with one message of its
/// request that holds its text, under the id that was set aside for it, and the end.
pub proof fn law_stream_opens_and_closes_with_its_own_ids(stream: StreamView, timestamp: Timestamp)
    ensures
        ({
            let opening = stream.opening();
            let closing = stream.closing(timestamp);
            let created = opening[1]->0->actions[0]->0->task->0;
            let added = closing[0]->0->actions[0]->0;
            let message = added->messages[0];
            &&& opening.len() == 2
            &&& opening[0]->0 is Init
            &&& opening[0]->0->conversation_id == stream.conversation_id
            &&& opening[0]->0->request_id == stream.request_id
            &&& opening[0]->0->run_id == stream.run_id
            &&& opening[1]->0 is ClientActions
            &&& opening[1]->0->actions.len() == 1
            &&& opening[1]->0->actions[0]->0 is CreateTask
            &&& opening[1]->0->actions[0]->0->task is Some
            &&& created.id == stream.task_id
            &&& created.messages.len() == 0
            &&& closing.len() == 2
            &&& closing[0]->0 is ClientActions
            &&& closing[0]->0->actions.len() == 1
            &&& added is AddMessagesToTask
            &&& added->task_id == stream.task_id
            &&& added->messages.len() == 1
            &&& message.id == stream.assistant_message_id
            &&& message.task_id == stream.task_id
            &&& message.request_id == stream.request_id
            &&& message.timestamp == Some(timestamp)
            &&& message.message == Some(ContentView::AgentOutput { text: stream.content })
            &&& closing[1]->0 is Finished
            &&& closing[1]->0->reason == Some(multi_agent::FinishReasonView::Done)
        }),
{
}

/// A line carries data exactly when, without outer whitespace, it is the data mark and
/// something more; that, trimmed, is the data, unless it says that the completion is done.
pub proof fn law_data_follows_its_mark(line: Seq<char>, data: Seq<char>)
    ensures
        text::trimmed(line) == seq!['d', 'a', 't', 'a', ':', ' '] + data ==> if text::trimmed(data)
            == "[DONE]"@ {
            sse_line(line) is Done
        } else {
            sse_line(line) == (SseLine::Data { payload: text::trimmed(data) })
        },
        sse_line(line) is Skip <==> !seq!['d', 'a', 't', 'a', ':', ' '].is_prefix_of(
            text::trimmed(line),
        ),
{
    reveal_strlit("data: ");
    assert("data: "@ =~= seq!['d', 'a', 't', 'a', ':', ' ']);
    text::law_prefix_and_rest_make_the_text(text::trimmed(line), "data: "@, data);
}

/// Lines are read in order up to the one that says done: before that, each line of data adds
/// its data, and a line that carries none adds nothing.
pub proof fn law_lines_are_read_in_order(first: Seq<char>, rest: Seq<Seq<char>>)
    ensures
        payloads(seq![]).len() == 0,
        match sse_line(first) {
            SseLine::Skip => payloads(seq![first] + rest) == payloads(rest),
            SseLine::Data { payload } => payloads(seq![first] + rest) == seq![payload] + payloads(
                rest,
            ),
            SseLine::Done => payloads(seq![first] + rest).len() == 0,
        },
{
    let lines = seq![first] + rest;
    assert(lines[0] == first);
    assert(lines.skip(1) =~= rest);
}

/// A chunk is read by its lines when it is UTF-8, and not at all when it is not.
pub proof fn law_chunks_are_read_by_lines(chunk: Seq<u8>)
    ensures
        vstd::utf8::valid_utf8(chunk) ==> chunk_payloads(chunk) == payloads(
            text::lines_of(vstd::utf8::decode_utf8(chunk)),
        ),
        !vstd::utf8::valid_utf8(chunk) ==> chunk_payloads(chunk).len() == 0,
{
}

/// The message for an error is what the server says of it, else the body as it is; a blank
/// body leaves the status.
pub proof fn law_errors_tell_what_the_server_said(
    body: Seq<char>,
    status: u16,
    parsed: Option<OpenRouterErrorResponse>,
)
    ensures
        text::is_blank(body) ==> error_message(body, status, parsed) == "OpenRouter returned "@
            + outside::status_display(status),
        !text::is_blank(body) && parsed is Some ==> error_message(body, status, parsed)
            == parsed->0.error.message@,
        !text::is_blank(body) && parsed is None ==> error_message(body, status, parsed) == body,
{
}

/// A stream is seen as it is, field by field.
pub proof fn law_stream_is_seen_as_it_is(stream: OpenRouterStream)
    ensures
        stream@.conversation_id == stream.conversation_id@,
        stream@.request_id == stream.request_id@,
        stream@.run_id == stream.run_id@,
        stream@.task_id == stream.task_id@,
        stream@.assistant_message_id == stream.assistant_message_id@,
        stream@.content == stream.content@,
{
}

} // verus!
