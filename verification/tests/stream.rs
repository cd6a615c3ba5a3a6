use openai_api_rs::stream::{
    chat_stream_item, closing_chunk, invalid_result_message, parse_error_message, ChatCompletionChunk, ChatStreamItem,
};

fn assert_closing(c: &ChatCompletionChunk) {
    assert_eq!(c.id, "");
    assert_eq!(c.object, "");
    assert_eq!(c.model, "");
    assert_eq!(c.created, 0);
    assert_eq!(c.choices.len(), 1);
    let choice = &c.choices[0];
    assert_eq!(choice.index, 0);
    assert_eq!(choice.finish_reason.as_deref(), Some("stop"));
    let m = choice.message.as_ref().expect("a message");
    assert_eq!(m.content.as_deref(), Some(""));
    assert!(m.name.is_none());
    assert_eq!(choice.delta.content.as_deref(), Some(""));
    assert!(choice.delta.name.is_none());
}

#[test]
fn done_marker_ends_stream() {
    match chat_stream_item("[DONE]".to_string()) {
        ChatStreamItem::Done(c) => assert_closing(&c),
        _ => panic!("expected the end"),
    }
    assert_closing(&closing_chunk());
}

#[test]
fn json_data_is_parsed() {
    match chat_stream_item("{\"id\":\"x\"}".to_string()) {
        ChatStreamItem::Json(j) => assert_eq!(j, "{\"id\":\"x\"}"),
        _ => panic!("expected JSON"),
    }
}

#[test]
fn other_data_is_invalid() {
    assert!(matches!(chat_stream_item("[DONE] ".to_string()), ChatStreamItem::Invalid));
    assert!(matches!(chat_stream_item("".to_string()), ChatStreamItem::Invalid));
    assert!(matches!(chat_stream_item(" {}".to_string()), ChatStreamItem::Invalid));
    assert_eq!(invalid_result_message(), "Invalid result!");
}

#[test]
fn parse_error_message_layout() {
    assert_eq!(
        parse_error_message("{bad", "EOF while parsing"),
        "Error parsing:\n\n{bad\n\nEOF while parsing"
    );
}
