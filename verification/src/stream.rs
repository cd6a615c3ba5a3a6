//! How the events of a streamed chat completion are read: the data of each
//! server-sent event is either the end-of-stream marker, a JSON chunk, or
//! something the stream does not accept.
use vstd::prelude::*;
use crate::text::{starts_with_char, str_eq};

verus! {

/// A message of a chunk: its text and the name of its author. (The
/// closing chunk has no role and no function call either; the types of
/// those fields belong to the chat completion messages, which this library
/// does not model.)
pub struct ChunkMessage {
    pub content: Option<String>,
    pub name: Option<String>,
}

/// A choice of a chunk: its position, its message, why it finished, and
/// the change it brings.
pub struct ChunkChoice {
    pub index: i64,
    pub message: Option<ChunkMessage>,
    pub finish_reason: Option<String>,
    pub delta: ChunkMessage,
}

/// A chunk of a streamed chat completion, as the closing chunk fills it (it
/// reports no usage).
pub struct ChatCompletionChunk {
    pub id: String,
    pub object: String,
    pub created: i64,
    pub model: String,
    pub choices: Vec<ChunkChoice>,
}

/// Whether a message is the empty message of the closing chunk: empty
/// content, no name.
pub open spec fn is_empty_message(m: ChunkMessage) -> bool {
    &&& m.content matches Some(c) && c@.len() == 0
    &&& m.name is None
}

/// Whether a chunk is the closing chunk: empty id, object and model,
/// created at 0, and one choice with index 0, an empty message and delta,
/// finished for the reason `stop`.
pub open spec fn is_closing_chunk(c: ChatCompletionChunk) -> bool {
    &&& c.id@.len() == 0
    &&& c.object@.len() == 0
    &&& c.model@.len() == 0
    &&& c.created == 0
    &&& c.choices@.len() == 1
    &&& c.choices@[0].index == 0
    &&& c.choices@[0].message matches Some(m) && is_empty_message(m)
    &&& c.choices@[0].finish_reason matches Some(r) && r@ == "stop"@
    &&& is_empty_message(c.choices@[0].delta)
}

fn empty_message() -> (m: ChunkMessage)
    ensures
        is_empty_message(m),
{
    proof { reveal_strlit(""); }
    ChunkMessage { content: Some(String::from_str("")), name: None }
}

/// The chunk that answers the end marker of the stream.
pub fn closing_chunk() -> (c: ChatCompletionChunk)
    ensures
        is_closing_chunk(c),
{
    proof { reveal_strlit(""); }
    let mut choices: Vec<ChunkChoice> = Vec::new();
    choices.push(
        ChunkChoice {
            index: 0,
            message: Some(empty_message()),
            finish_reason: Some(String::from_str("stop")),
            delta: empty_message(),
        },
    );
    ChatCompletionChunk {
        id: String::from_str(""),
        object: String::from_str(""),
        created: 0,
        model: String::from_str(""),
        choices,
    }
}

/// What the data of one event of a chat completion stream is.
pub enum ChatStreamItem {
    /// The marker `[DONE]`: the stream answers with its closing chunk.
    Done(ChatCompletionChunk),
    /// A JSON object, to be read as a chat completion chunk.
    Json(String),
    /// Anything else: the stream answers with the error "Invalid result!".
    Invalid,
}

/// The marker that ends a chat completion stream.
pub open spec fn done_marker() -> Seq<char> {
    "[DONE]"@
}

/// The end marker is the six characters `[DONE]`.
pub proof fn lemma_done_marker()
    ensures
        done_marker() == seq!['[', 'D', 'O', 'N', 'E', ']'],
{
    reveal_strlit("[DONE]");
    assert(done_marker() =~= seq!['[', 'D', 'O', 'N', 'E', ']']);
}

/// Sorts the data of one event: the marker `[DONE]`, a JSON object (data
/// that begins with `{`), or invalid data.
pub fn chat_stream_item(data: String) -> (r: ChatStreamItem)
    ensures
        data@ == done_marker() ==> (r matches ChatStreamItem::Done(c) && is_closing_chunk(c)),
        data@ != done_marker() && data@.len() > 0 && data@[0] == '{' ==> (r matches ChatStreamItem::Json(
            j,
        ) && j@ == data@),
        data@ != done_marker() && !(data@.len() > 0 && data@[0] == '{') ==> r is Invalid,
{
    if str_eq(data.as_str(), "[DONE]") {
        ChatStreamItem::Done(closing_chunk())
    } else if starts_with_char(data.as_str(), '{') {
        ChatStreamItem::Json(data)
    } else {
        ChatStreamItem::Invalid
    }
}

/// The message of the error for data that begins like JSON but does not
/// read as a chunk: the data and the reader's error, each after a blank line.
pub fn parse_error_message(data: &str, error: &str) -> (m: String)
    ensures
        m@ == "Error parsing:\n\n"@ + data@ + "\n\n"@ + error@,
{
    let mut m = String::from_str("Error parsing:\n\n");
    m.append(data);
    m.append("\n\n");
    m.append(error);
    m
}

/// The message of the error for data that is neither the end marker nor JSON.
pub fn invalid_result_message() -> (m: String)
    ensures
        m@ == "Invalid result!"@,
{
    String::from_str("Invalid result!")
}

} // verus!
