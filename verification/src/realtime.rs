//! The realtime API over a WebSocket: the handshake, the first request, what
//! each incoming message leads to, and how each event is handled.
use vstd::prelude::*;
use crate::audio::{decode_audio, decoded_samples, decodes_to_samples, try_decode_audio};
use crate::http::{header, Header};
use crate::text::str_eq;

verus! {

/// A request sent to the realtime API.
pub struct RealtimeRequest {
    pub request_type: String,
    pub item: Option<Item>,
    pub response: Option<Response>,
}

/// The response that a request asks the model for.
pub struct Response {
    pub modalities: Vec<String>,
    pub instructions: String,
}

/// A conversation item.
pub struct Item {
    pub item_type: String,
    pub role: Option<String>,
    pub content: Vec<ItemContent>,
}

/// A part of a conversation item: text, or base64 PCM16 audio.
pub struct ItemContent {
    pub content_type: String,
    pub text: Option<String>,
    pub audio: Option<String>,
}

/// An event that the realtime API sends.
pub struct RealtimeEvent {
    pub event_type: String,
    pub item_id: Option<String>,
    pub content_index: Option<usize>,
    pub delta: Option<String>,
    pub audio_delta: Option<String>,
}

/// The address of the realtime API, with its model.
pub open spec fn realtime_address() -> Seq<char> {
    "wss://api.openai.com/v1/realtime?model=gpt-4o-realtime-preview-2024-10-01"@
}

/// What `url::Url::parse` gives for a text, serialized back to a string
/// (`String::from` of the URL), or `None` where it reports an error.
pub uninterp spec fn url_serialization(input: Seq<char>) -> Option<Seq<char>>;

/// `url::Url::parse`, its result taken as its serialization: the contract
/// claims only that the result is `url_serialization` of the input.
#[verifier::external_body]
fn parse_url(input: &str) -> (r: Option<String>)
    ensures
        r is None <==> url_serialization(input@) is None,
        r matches Some(s) ==> url_serialization(input@) == Some(s@),
{
    url::Url::parse(input).ok().map(String::from)
}

/// The errors of the realtime handshake.
pub enum RealtimeError {
    /// The address of the realtime API does not parse as a URL.
    InvalidUrl,
}

/// What opening the WebSocket takes: its URL and the headers of the
/// handshake, in order.
pub struct RealtimeHandshake {
    pub url: String,
    pub headers: Vec<Header>,
}

/// The headers of the realtime handshake, in order:
/// `Authorization: Bearer <key>` and `OpenAI-Beta: realtime=v1`.
pub fn realtime_headers(api_key: &str) -> (headers: Vec<Header>)
    ensures
        crate::http::headers_view(headers@) == seq![
            ("Authorization"@, "Bearer "@ + api_key@),
            ("OpenAI-Beta"@, "realtime=v1"@),
        ],
{
    let mut bearer = String::from_str("Bearer ");
    bearer.append(api_key);
    let mut headers: Vec<Header> = Vec::new();
    headers.push(header("Authorization", bearer));
    headers.push(header("OpenAI-Beta", String::from_str("realtime=v1")));
    let ghost expected = seq![
        ("Authorization"@, "Bearer "@ + api_key@),
        ("OpenAI-Beta"@, "realtime=v1"@),
    ];
    assert(crate::http::headers_view(headers@) =~= expected);
    headers
}

/// Prepares the handshake with the realtime API: the parsed address, and
/// the headers of [`realtime_headers`].
pub fn realtime_handshake(api_key: &str) -> (r: Result<RealtimeHandshake, RealtimeError>)
    ensures
        r is Err <==> url_serialization(realtime_address()) is None,
        r matches Ok(h) ==> {
            &&& url_serialization(realtime_address()) == Some(h.url@)
            &&& crate::http::headers_view(h.headers@) == seq![
                ("Authorization"@, "Bearer "@ + api_key@),
                ("OpenAI-Beta"@, "realtime=v1"@),
            ]
        },
{
    let parsed = parse_url("wss://api.openai.com/v1/realtime?model=gpt-4o-realtime-preview-2024-10-01");
    match parsed {
        Some(url) => Ok(RealtimeHandshake { url, headers: realtime_headers(api_key) }),
        None => Err(RealtimeError::InvalidUrl),
    }
}

/// The request sent first: `response.create`, asking for a text response
/// with the instructions "Please assist the user.", with no item.
pub fn response_create_request() -> (r: RealtimeRequest)
    ensures
        r.request_type@ == "response.create"@,
        r.item is None,
        r.response matches Some(resp) && resp.modalities@.len() == 1 && resp.modalities@[0]@
            == "text"@ && resp.instructions@ == "Please assist the user."@,
{
    let mut modalities: Vec<String> = Vec::new();
    modalities.push(String::from_str("text"));
    RealtimeRequest {
        request_type: String::from_str("response.create"),
        response: Some(Response { modalities, instructions: String::from_str("Please assist the user.") }),
        item: None,
    }
}

/// A message received on the WebSocket, as far as the session tells them
/// apart.
pub enum IncomingMessage {
    /// A text message.
    Text(String),
    /// The server closes the connection.
    Close,
    /// Receiving failed.
    Error,
    /// Any other message (binary, ping, pong, frame).
    Other,
}

/// What the session does after a message.
pub enum SessionStep {
    /// Read the text as a [`RealtimeEvent`] and handle it.
    HandleEvent(String),
    /// The connection is closed: stop.
    Closed,
    /// Receiving failed: report it and stop.
    Failed,
    /// Ignore the message and wait for the next.
    Continue,
}

/// Decides what the session does with a message: it handles text as an
/// event, stops on a close or an error, and ignores anything else.
pub fn on_message(message: IncomingMessage) -> (step: SessionStep)
    ensures
        message matches IncomingMessage::Text(t) ==> (step matches SessionStep::HandleEvent(u) && u == t),
        message is Close ==> step is Closed,
        message is Error ==> step is Failed,
        message is Other ==> step is Continue,
{
    match message {
        IncomingMessage::Text(t) => SessionStep::HandleEvent(t),
        IncomingMessage::Close => SessionStep::Closed,
        IncomingMessage::Error => SessionStep::Failed,
        IncomingMessage::Other => SessionStep::Continue,
    }
}

/// What handling an event comes to.
pub enum RealtimeAction {
    /// A conversation item was created: report the event.
    ItemCreated(RealtimeEvent),
    /// Audio arrived: report the decoded samples.
    Audio(Vec<i16>),
    /// Text arrived: report it.
    TextDelta(String),
    /// An event of another type: report it as unknown.
    Unknown(RealtimeEvent),
    /// An audio or text event without its data: nothing to report.
    Nothing,
}

/// Whether handling the event can decode its audio (the only case in which
/// handling is refused: audio data that is not whole base64 samples).
pub open spec fn event_is_handled(event: RealtimeEvent) -> bool {
    event.event_type@ == "response.audio.delta"@ && event.audio_delta is Some ==> decodes_to_samples(
        event.audio_delta->0@,
    )
}

proof fn lemma_event_types_distinct()
    ensures
        "conversation.item.created"@ != "response.audio.delta"@,
        "conversation.item.created"@ != "response.text.delta"@,
        "response.audio.delta"@ != "response.text.delta"@,
{
    reveal_strlit("conversation.item.created");
    reveal_strlit("response.audio.delta");
    reveal_strlit("response.text.delta");
    assert("conversation.item.created"@.len() == 25);
    assert("response.audio.delta"@.len() == 20);
    assert("response.text.delta"@.len() == 19);
}

fn is_audio_event(event: &RealtimeEvent) -> (r: bool)
    ensures
        r == (event.event_type@ == "response.audio.delta"@),
{
    str_eq(event.event_type.as_str(), "response.audio.delta")
}

/// The action for an event that carries no audio.
fn action_without_audio(event: RealtimeEvent) -> (action: RealtimeAction)
    requires
        event.event_type@ != "response.audio.delta"@,
    ensures
        event.event_type@ == "conversation.item.created"@ ==> action == RealtimeAction::ItemCreated(
            event,
        ),
        event.event_type@ == "response.text.delta"@ ==> (match event.delta {
            Some(d) => action == RealtimeAction::TextDelta(d),
            None => action is Nothing,
        }),
        event.event_type@ != "conversation.item.created"@ && event.event_type@
            != "response.text.delta"@ ==> action == RealtimeAction::Unknown(event),
{
    proof { lemma_event_types_distinct(); }
    if str_eq(event.event_type.as_str(), "conversation.item.created") {
        RealtimeAction::ItemCreated(event)
    } else if str_eq(event.event_type.as_str(), "response.text.delta") {
        match event.delta {
            Some(delta) => RealtimeAction::TextDelta(delta),
            None => RealtimeAction::Nothing,
        }
    } else {
        RealtimeAction::Unknown(event)
    }
}

/// Handles an event by its type: `conversation.item.created`,
/// `response.audio.delta` (the base64 PCM16 audio is decoded),
/// `response.text.delta`, or any other type.
pub fn handle_realtime_event(event: RealtimeEvent) -> (action: RealtimeAction)
    requires
        event_is_handled(event),
    ensures
        event.event_type@ == "conversation.item.created"@ ==> action == RealtimeAction::ItemCreated(
            event,
        ),
        event.event_type@ == "response.audio.delta"@ ==> (match event.audio_delta {
            Some(a) => action matches RealtimeAction::Audio(v) && decoded_samples(a@) == Some(v@),
            None => action is Nothing,
        }),
        event.event_type@ == "response.text.delta"@ ==> (match event.delta {
            Some(d) => action == RealtimeAction::TextDelta(d),
            None => action is Nothing,
        }),
        event.event_type@ != "conversation.item.created"@ && event.event_type@
            != "response.audio.delta"@ && event.event_type@ != "response.text.delta"@ ==> action
            == RealtimeAction::Unknown(event),
{
    proof { lemma_event_types_distinct(); }
    if is_audio_event(&event) {
        match &event.audio_delta {
            Some(audio_delta) => RealtimeAction::Audio(decode_audio(audio_delta.as_str())),
            None => RealtimeAction::Nothing,
        }
    } else {
        action_without_audio(event)
    }
}

/// [`handle_realtime_event`] for any event: `None` where its audio data is
/// not whole base64 samples.
pub fn try_handle_realtime_event(event: RealtimeEvent) -> (action: Option<RealtimeAction>)
    ensures
        action is None <==> !event_is_handled(event),
        event.event_type@ == "conversation.item.created"@ ==> action == Some(
            RealtimeAction::ItemCreated(event),
        ),
        event.event_type@ == "response.audio.delta"@ ==> (match event.audio_delta {
            Some(a) => match decoded_samples(a@) {
                Some(s) => action matches Some(RealtimeAction::Audio(v)) && v@ == s,
                None => action is None,
            },
            None => action matches Some(RealtimeAction::Nothing),
        }),
        event.event_type@ == "response.text.delta"@ ==> (match event.delta {
            Some(d) => action == Some(RealtimeAction::TextDelta(d)),
            None => action matches Some(RealtimeAction::Nothing),
        }),
        event.event_type@ != "conversation.item.created"@ && event.event_type@
            != "response.audio.delta"@ && event.event_type@ != "response.text.delta"@ ==> action
            == Some(RealtimeAction::Unknown(event)),
{
    proof { lemma_event_types_distinct(); }
    if is_audio_event(&event) {
        match &event.audio_delta {
            Some(audio_delta) => match try_decode_audio(audio_delta.as_str()) {
                Some(samples) => Some(RealtimeAction::Audio(samples)),
                None => None,
            },
            None => Some(RealtimeAction::Nothing),
        }
    } else {
        Some(action_without_audio(event))
    }
}

} // verus!
