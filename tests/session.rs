use voice_router::adapters::assemblyai::AssemblyAIStreamMessage;
use voice_router::adapters::deepgram::DeepgramStreamMessage;
use voice_router::adapters::streaming::{generate_session_id, session_id_from_clock};
use voice_router::session::{IncomingMessage, SessionAction, SessionPhase, StreamSession};
use voice_router::types::{StreamEventType, StreamingProvider};

fn texts(actions: &[SessionAction]) -> Vec<String> {
    actions
        .iter()
        .filter_map(|a| match a {
            SessionAction::SendText(t) => Some(t.clone()),
            _ => None,
        })
        .collect()
}

fn closes(actions: &[SessionAction]) -> usize {
    actions
        .iter()
        .filter(|a| matches!(a, SessionAction::Emit(e) if e.event_type == StreamEventType::Close))
        .count()
}

fn frames(actions: &[SessionAction]) -> Vec<usize> {
    actions
        .iter()
        .filter_map(|a| match a {
            SessionAction::SendBinary(b) => Some(b.len()),
            _ => None,
        })
        .collect()
}

fn open(vendor: StreamingProvider) -> StreamSession {
    let mut s = StreamSession::new(vendor);
    let first = s.on_connected();
    assert_eq!(first.len(), 1);
    assert!(matches!(&first[0], SessionAction::Emit(e) if e.event_type == StreamEventType::Open));
    s
}

#[test]
fn close_fired_twice_terminates_once() {
    let mut s = open(StreamingProvider::Deepgram);
    let first = s.on_close_requested();
    let second = s.on_close_requested();
    assert_eq!(texts(&first), vec![r#"{"type":"CloseStream"}"#.to_string()]);
    assert_eq!(closes(&first), 1);
    assert!(matches!(first[first.len() - 2], SessionAction::CloseTransport));
    assert!(second.is_empty());
    assert!(s.is_ended());
}

#[test]
fn termination_messages_per_vendor() {
    let mut a = open(StreamingProvider::AssemblyAI);
    assert_eq!(texts(&a.on_close_requested()), vec![r#"{"terminate_session":true}"#.to_string()]);
    let mut g = open(StreamingProvider::Gladia);
    assert_eq!(texts(&g.on_close_requested()), vec![r#"{"type":"stop_recording"}"#.to_string()]);
}

#[test]
fn buffered_audio_goes_out_in_full_frames() {
    let mut s = open(StreamingProvider::AssemblyAI);
    let sent = s.on_audio(vec![0u8; 64000]);
    assert_eq!(frames(&sent), vec![32000, 32000]);
    let closing = s.on_close_requested();
    assert!(frames(&closing).is_empty());
    assert_eq!(closes(&closing), 1);
}

#[test]
fn remainder_is_sent_before_termination() {
    let mut s = open(StreamingProvider::AssemblyAI);
    assert!(s.on_audio(vec![0u8; 40000]).len() == 1);
    let closing = s.on_close_requested();
    assert_eq!(frames(&closing), vec![8000]);
    assert!(matches!(closing[0], SessionAction::SendBinary(_)));
}

#[test]
fn other_vendors_send_audio_as_is() {
    let mut s = open(StreamingProvider::Gladia);
    assert_eq!(frames(&s.on_audio(vec![1u8; 5])), vec![5]);
}

#[test]
fn nothing_happens_after_the_end() {
    let mut s = open(StreamingProvider::Deepgram);
    let failed = s.on_transport_error("reset".into());
    assert!(matches!(&failed[0], SessionAction::Emit(e) if e.error.as_ref().unwrap().code == "WEBSOCKET_ERROR"));
    assert!(s.on_audio(vec![1, 2, 3]).is_empty());
    assert!(s.on_close_requested().is_empty());
    assert!(s.on_message(IncomingMessage::Deepgram(DeepgramStreamMessage::Metadata { payload: "{}".into() })).is_empty());
    assert_eq!(s.current_phase(), SessionPhase::Ended);
}

#[test]
fn failed_connection_never_opens() {
    let mut s = StreamSession::new(StreamingProvider::Gladia);
    let actions = s.on_connect_failed("refused".into());
    assert_eq!(actions.len(), 1);
    assert!(matches!(&actions[0], SessionAction::Emit(e)
        if e.event_type == StreamEventType::Error && e.error.as_ref().unwrap().code == "CONNECTION_ERROR"));
    assert!(s.on_connected().is_empty());
    assert!(s.on_close_requested().is_empty());
}

#[test]
fn messages_are_normalized_or_dropped() {
    let mut s = open(StreamingProvider::AssemblyAI);
    assert!(s.on_message(IncomingMessage::Unrecognized).is_empty());
    assert!(s.on_message(IncomingMessage::AssemblyAI(AssemblyAIStreamMessage::SessionInformation)).is_empty());
    let err = s.on_message(IncomingMessage::AssemblyAI(AssemblyAIStreamMessage::Error { error: "x".into() }));
    assert!(matches!(&err[0], SessionAction::Emit(e) if e.event_type == StreamEventType::Error));
    let closed = s.on_transport_closed();
    assert_eq!(closes(&closed), 1);
    assert!(s.on_send_failed("late".into()).is_empty());
}

#[test]
fn session_ids_are_hexadecimal_clock_readings() {
    assert_eq!(session_id_from_clock(255), "stream_ff");
    assert_eq!(session_id_from_clock(0), "stream_0");
    let id = generate_session_id();
    assert!(id.starts_with("stream_"));
    assert!(id["stream_".len()..].chars().all(|c| c.is_ascii_hexdigit()));
}
