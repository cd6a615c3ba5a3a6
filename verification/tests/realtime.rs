use openai_api_rs::realtime::{
    handle_realtime_event, on_message, realtime_handshake, response_create_request, try_handle_realtime_event,
    IncomingMessage, RealtimeAction, RealtimeEvent, SessionStep,
};

fn event(event_type: &str, delta: Option<&str>, audio_delta: Option<&str>) -> RealtimeEvent {
    RealtimeEvent {
        event_type: event_type.to_string(),
        item_id: None,
        content_index: None,
        delta: delta.map(|s| s.to_string()),
        audio_delta: audio_delta.map(|s| s.to_string()),
    }
}

#[test]
fn handshake_url_and_headers() {
    let h = match realtime_handshake("sk-1") {
        Ok(h) => h,
        Err(_) => panic!("the address must parse"),
    };
    assert_eq!(h.url, "wss://api.openai.com/v1/realtime?model=gpt-4o-realtime-preview-2024-10-01");
    let hs: Vec<(String, String)> = h.headers.iter().map(|x| (x.name.clone(), x.value.clone())).collect();
    assert_eq!(
        hs,
        vec![
            ("Authorization".to_string(), "Bearer sk-1".to_string()),
            ("OpenAI-Beta".to_string(), "realtime=v1".to_string()),
        ]
    );
}

#[test]
fn first_request_asks_for_text() {
    let r = response_create_request();
    assert_eq!(r.request_type, "response.create");
    assert!(r.item.is_none());
    let resp = r.response.expect("a response is requested");
    assert_eq!(resp.modalities, vec!["text".to_string()]);
    assert_eq!(resp.instructions, "Please assist the user.");
}

#[test]
fn session_steps() {
    match on_message(IncomingMessage::Text("{}".to_string())) {
        SessionStep::HandleEvent(t) => assert_eq!(t, "{}"),
        _ => panic!("text is handled"),
    }
    assert!(matches!(on_message(IncomingMessage::Close), SessionStep::Closed));
    assert!(matches!(on_message(IncomingMessage::Error), SessionStep::Failed));
    assert!(matches!(on_message(IncomingMessage::Other), SessionStep::Continue));
}

#[test]
fn events_by_type() {
    match handle_realtime_event(event("conversation.item.created", None, None)) {
        RealtimeAction::ItemCreated(e) => assert_eq!(e.event_type, "conversation.item.created"),
        _ => panic!("item created"),
    }
    match handle_realtime_event(event("response.audio.delta", None, Some("AQD//w=="))) {
        RealtimeAction::Audio(v) => assert_eq!(v, vec![1, -1]),
        _ => panic!("audio"),
    }
    assert!(matches!(handle_realtime_event(event("response.audio.delta", None, None)), RealtimeAction::Nothing));
    match handle_realtime_event(event("response.text.delta", Some("Hel"), None)) {
        RealtimeAction::TextDelta(t) => assert_eq!(t, "Hel"),
        _ => panic!("text"),
    }
    assert!(matches!(handle_realtime_event(event("response.text.delta", None, None)), RealtimeAction::Nothing));
    match handle_realtime_event(event("session.created", Some("x"), None)) {
        RealtimeAction::Unknown(e) => assert_eq!(e.delta.as_deref(), Some("x")),
        _ => panic!("unknown"),
    }
}

#[test]
fn undecodable_audio_event_is_refused() {
    assert!(try_handle_realtime_event(event("response.audio.delta", None, Some("%%%"))).is_none());
    assert!(try_handle_realtime_event(event("response.audio.delta", None, Some("QQ=="))).is_none());
    assert!(matches!(
        try_handle_realtime_event(event("response.text.delta", None, Some("%%%"))),
        Some(RealtimeAction::Nothing)
    ));
}
