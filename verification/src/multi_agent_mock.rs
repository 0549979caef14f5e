//! A stand-in for the multi-agent endpoint, for tests: what it answers to a request, and
//! how the answer looks on the wire.
use crate::multi_agent;
use crate::multi_agent::{
    ContentView, EventView, Message, MessageContent, MessageView, Request, ResponseEvent, Timestamp,
};
use crate::openrouter_stream;
use crate::openrouter_stream::conversation_id_from_request;
use crate::outside;
use crate::outside::{base64_url_safe, current_timestamp, fresh_uuid};
use crate::text;
use crate::text::str_eq;
use vstd::prelude::*;
use vstd::string::*;

verus! {

/// The paths that the server answers requests at.
pub fn routes() -> (r: [&'static str; 3])
    ensures
        r@[0]@ == "/ai/multi-agent"@,
        r@[1]@ == "/agent-mode-evals/multi-agent"@,
        r@[2]@ == "/ai/passive-suggestions"@,
{
    ["/ai/multi-agent", "/agent-mode-evals/multi-agent", "/ai/passive-suggestions"]
}

/// The content type of requests.
pub const REQUEST_CONTENT_TYPE: &'static str = "application/x-protobuf";

/// The content type of answers.
pub const RESPONSE_CONTENT_TYPE: &'static str = "text/event-stream";

/// The largest request body, in bytes.
pub const MAX_BODY_BYTES: usize = 67_108_864;

/// What the agent says.
pub const MOCK_ANSWER: &'static str = "Mock agent response from helm_multi_agent_mock.";

/// Why a request is refused.
#[derive(Debug, Clone, PartialEq, Eq)]
pub enum MockError {
    BadRequest(String),
}

impl MockError {
    /// The status code and the body of the answer.
    pub fn into_response(self) -> (r: (u16, String))
        ensures
            r.0 == 400,
            r.1@ == (match self {
                MockError::BadRequest(message) => message@,
            }),
    {
        match self {
            MockError::BadRequest(message) => (400, message),
        }
    }
}

/// Refuses a request that does not say that its body is protobuf.
pub fn check_content_type(content_type: Option<&str>) -> (r: Result<(), MockError>)
    ensures
        match r {
            Ok(()) => text::opt_str(content_type) == Some(REQUEST_CONTENT_TYPE@),
            Err(MockError::BadRequest(message)) => text::opt_str(content_type) != Some(
                REQUEST_CONTENT_TYPE@,
            ) && message@ == "expected application/x-protobuf body"@,
        },
{
    let expected = match content_type {
        Some(content_type) => str_eq(content_type, REQUEST_CONTENT_TYPE),
        None => false,
    };
    if expected {
        Ok(())
    } else {
        Err(MockError::BadRequest("expected application/x-protobuf body".to_string()))
    }
}

/// The request that comes in, as far as the server got with it.
pub enum Incoming {
    /// The body could not be read; the cause.
    Unreadable { cause: String },
    /// The body is not a request; the cause.
    Undecodable { cause: String },
    Request { request: Request },
}

/// The message that refuses a request: `reason`, a colon and the cause.
fn bad_request(reason: &str, cause: &str) -> (r: MockError)
    ensures
        r matches MockError::BadRequest(message) && message@ == reason@ + ": "@ + cause@,
{
    let mut message = reason.to_string();
    message.append(": ");
    message.append(cause);
    MockError::BadRequest(message)
}

/// Takes in a request: the content type must be right, the body readable and decodable,
/// in this order.
pub fn accept(content_type: Option<&str>, incoming: Incoming) -> (r: Result<Request, MockError>)
    ensures
        if text::opt_str(content_type) != Some(REQUEST_CONTENT_TYPE@) {
            r matches Err(MockError::BadRequest(message)) && message@
                == "expected application/x-protobuf body"@
        } else {
            match incoming {
                Incoming::Unreadable { cause } => r matches Err(MockError::BadRequest(message))
                    && message@ == "failed to read body"@ + ": "@ + cause@,
                Incoming::Undecodable { cause } => r matches Err(MockError::BadRequest(message))
                    && message@ == "failed to decode protobuf"@ + ": "@ + cause@,
                Incoming::Request { request } => r == Ok::<_, MockError>(request),
            }
        },
{
    if let Err(e) = check_content_type(content_type) {
        return Err(e);
    }
    match incoming {
        Incoming::Unreadable { cause } => Err(bad_request("failed to read body", cause.as_str())),
        Incoming::Undecodable { cause } => Err(
            bad_request("failed to decode protobuf", cause.as_str()),
        ),
        Incoming::Request { request } => Ok(request),
    }
}

/// What an answer is made of besides the request: four ids and the time.
pub struct Stamps {
    pub conversation_id: String,
    pub request_id: String,
    pub run_id: String,
    pub message_id: String,
    pub timestamp: Timestamp,
}

/// The answer to a request: the ids, one message of the agent, and the end. The message
/// belongs to a task that has the id of the conversation.
pub open spec fn answer(
    conversation_id: Seq<char>,
    request_id: Seq<char>,
    run_id: Seq<char>,
    message_id: Seq<char>,
    timestamp: Timestamp,
) -> Seq<Option<EventView>> {
    seq![
        Some(EventView::Init { conversation_id, request_id, run_id }),
        Some(
            EventView::add_message(
                conversation_id,
                MessageView::plain(
                    message_id,
                    conversation_id,
                    request_id,
                    timestamp,
                    ContentView::AgentOutput { text: MOCK_ANSWER@ },
                ),
            ),
        ),
        Some(EventView::done()),
    ]
}

/// The answer to a request, with these ids at this time.
pub fn answer_events(stamps: Stamps) -> (r: Vec<ResponseEvent>)
    ensures
        multi_agent::event_views(r@) == answer(
            stamps.conversation_id@,
            stamps.request_id@,
            stamps.run_id@,
            stamps.message_id@,
            stamps.timestamp,
        ),
{
    let mut events: Vec<ResponseEvent> = Vec::new();
    events.push(
        multi_agent::init_event(
            stamps.conversation_id.as_str(),
            stamps.request_id.as_str(),
            stamps.run_id.as_str(),
        ),
    );
    let message = Message::plain(
        stamps.message_id,
        stamps.conversation_id.as_str(),
        stamps.request_id.as_str(),
        stamps.timestamp,
        MessageContent::AgentOutput { text: MOCK_ANSWER.to_string() },
    );
    events.push(multi_agent::add_message_event(stamps.conversation_id.as_str(), message));
    events.push(multi_agent::done_event());
    assert(multi_agent::event_views(events@) =~= answer(
        stamps.conversation_id@,
        stamps.request_id@,
        stamps.run_id@,
        stamps.message_id@,
        stamps.timestamp,
    ));
    events
}

/// Draws the ids of an answer, and takes the time. The conversation is that of the
/// request, where it names one.
pub fn stamp(request: &Request) -> (r: Stamps)
    ensures
        match openrouter_stream::named_conversation(*request) {
            Some(id) => r.conversation_id@ == id,
            None => outside::is_random_uuid(r.conversation_id@),
        },
        outside::is_random_uuid(r.request_id@),
        outside::is_random_uuid(r.run_id@),
        outside::is_random_uuid(r.message_id@),
        r.timestamp.normalized(),
{
    Stamps {
        conversation_id: conversation_id_from_request(request),
        request_id: fresh_uuid(),
        run_id: fresh_uuid(),
        message_id: fresh_uuid(),
        timestamp: current_timestamp(),
    }
}

/// The frame of an event on the wire, given its encoding as URL-safe base64 text.
pub open spec fn frame(data: Seq<char>) -> Seq<char> {
    "data: \""@ + data + "\"\n\n"@
}

/// The frame of an encoded event on the wire: base64 in quotes, as one line of data, and
/// an empty line.
pub fn sse_frame(encoded: &Vec<u8>) -> (r: String)
    requires
        4 * ((encoded@.len() + 2) / 3) <= isize::MAX,
    ensures
        r@ == frame(outside::base64_text(encoded@)),
        forall|i: int|
            0 <= i < r@.len() - 2 ==> #[trigger] r@[i] != '\n' && r@[i] != '\r',
        r@.len() >= 2 && r@[r@.len() - 1] == '\n' && r@[r@.len() - 2] == '\n',
{
    let data = base64_url_safe(encoded);
    let mut out = "data: \"".to_string();
    out.append(data.as_str());
    out.append("\"\n\n");
    proof {
        reveal_strlit("data: \"");
        reveal_strlit("\"\n\n");
        let d = data@;
        assert(out@ == frame(d));
        assert(out@.len() == 7 + d.len() + 3);
        assert forall|i: int| 0 <= i < out@.len() - 2 implies #[trigger] out@[i] != '\n' && out@[i]
            != '\r' by {
            if 7 <= i < 7 + d.len() {
                assert(out@[i] == d[i - 7]);
                assert(outside::is_base64_char(d[i - 7]));
            }
        }
    }
    out
}

/// The parts of an answer agree: the message goes to the conversation's own task and
/// belongs to the request that the stream opened with, and the end comes last.
pub proof fn law_answer_is_consistent(
    conversation_id: Seq<char>,
    request_id: Seq<char>,
    run_id: Seq<char>,
    message_id: Seq<char>,
    timestamp: Timestamp,
)
    ensures
        ({
            let events = answer(conversation_id, request_id, run_id, message_id, timestamp);
            &&& events.len() == 3
            &&& forall|i: int|
                0 <= i < events.len() ==> openrouter_stream::stays_in_task(
                    #[trigger] events[i],
                    conversation_id,
                )
            &&& events[0] == Some(EventView::Init { conversation_id, request_id, run_id })
            &&& events.last() == Some(EventView::done())
        }),
{
}

/// The answer opens with the ids of the stream, says one thing in one message at the given
/// time, and ends.
pub proof fn law_answer_says_one_thing(
    conversation_id: Seq<char>,
    request_id: Seq<char>,
    run_id: Seq<char>,
    message_id: Seq<char>,
    timestamp: Timestamp,
)
    ensures
        ({
            let events = answer(conversation_id, request_id, run_id, message_id, timestamp);
            let opening = events[0]->0;
            let actions = events[1]->0->actions;
            let message = actions[0]->0->messages[0];
            &&& events.len() == 3
            &&& opening is Init
            &&& opening->conversation_id == conversation_id
            &&& opening->request_id == request_id
            &&& opening->run_id == run_id
            &&& events[1]->0 is ClientActions
            &&& actions.len() == 1
            &&& actions[0] is Some
            &&& actions[0]->0 is AddMessagesToTask
            &&& actions[0]->0->task_id == conversation_id
            &&& actions[0]->0->messages.len() == 1
            &&& message.id == message_id
            &&& message.task_id == conversation_id
            &&& message.request_id == request_id
            &&& message.timestamp == Some(timestamp)
            &&& message.message == Some(
                ContentView::AgentOutput {
                    text: "Mock agent response from helm_multi_agent_mock."@,
                },
            )
            &&& events[2] is Some
            &&& events[2]->0 is Finished
            &&& events[2]->0->reason == Some(multi_agent::FinishReasonView::Done)
        }),
{
}

/// A frame gives its data back: it is what stands between the quotes of the only data line,
/// and a blank line follows.
pub proof fn law_frame_holds_its_data(data: Seq<char>)
    ensures
        frame(data).len() == data.len() + 10,
        frame(data).subrange(7, 7 + data.len() as int) == data,
        frame(data).take(7) == seq!['d', 'a', 't', 'a', ':', ' ', '"'],
        frame(data).skip(7 + data.len() as int) == seq!['"', '\n', '\n'],
{
    reveal_strlit("data: \"");
    reveal_strlit("\"\n\n");
    assert(frame(data).subrange(7, 7 + data.len() as int) =~= data);
    assert(frame(data).take(7) =~= seq!['d', 'a', 't', 'a', ':', ' ', '"']);
    assert(frame(data).skip(7 + data.len() as int) =~= seq!['"', '\n', '\n']);
}

} // verus!
