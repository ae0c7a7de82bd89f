use voice_router::errors::{get_error_message, ErrorCodes, StandardError};
use voice_router::text::integer_text;
use voice_router::types::{Seconds, TranscriptionProvider, TranscriptionStatus};
use voice_router::webhooks::{
    GladiaWebhookHandler, GladiaWebhookUtterance, GladiaWebhookWord, WebhookError, WebhookEventType,
    WebhookPayload, WebhookRouter,
};

fn payload(event: Option<&str>) -> WebhookPayload {
    WebhookPayload {
        id: Some("job-9".into()),
        event: event.map(|e| e.to_string()),
        has_status: false,
        has_result: true,
        full_transcript: Some("hello world".into()),
        audio_duration: Some(Seconds { thousandths: 2500 }),
        first_language: Some("en".into()),
        utterances: None,
        summarization_success: false,
        summary_results: Some("ignored".into()),
        transcription_time: "1.2".into(),
        billing_time: "3".into(),
        number_of_distinct_channels: "1".into(),
        custom_metadata: "null".into(),
        error_message: None,
        error_code: None,
        raw: "{}".into(),
    }
}

fn word(w: Option<&str>) -> GladiaWebhookWord {
    GladiaWebhookWord {
        word: w.map(|s| s.to_string()),
        start: Some(Seconds { thousandths: 1 }),
        end: Some(Seconds { thousandths: 2 }),
        confidence: None,
    }
}

#[test]
fn completed_callback() {
    let mut p = payload(Some("transcription.success"));
    p.utterances = Some(vec![
        GladiaWebhookUtterance {
            text: Some("hello".into()),
            start: Some(Seconds { thousandths: 0 }),
            end: Some(Seconds { thousandths: 900 }),
            confidence: None,
            speaker: Some(1),
            words: Some(vec![word(Some("hello")), word(None)]),
        },
        GladiaWebhookUtterance {
            text: None,
            start: None,
            end: None,
            confidence: None,
            speaker: Some(1),
            words: Some(vec![word(Some("world"))]),
        },
    ]);
    let e = WebhookRouter::new().route(&p, "2024-01-01T00:00:00Z".into()).unwrap();
    assert!(e.success);
    assert_eq!(e.provider, TranscriptionProvider::Gladia);
    assert_eq!(e.event_type, WebhookEventType::TranscriptionCompleted);
    let d = e.data.unwrap();
    assert_eq!(d.status, TranscriptionStatus::Completed);
    assert_eq!(d.summary, None);
    assert_eq!(d.utterances.unwrap().len(), 1);
    let words: Vec<_> = d.words.unwrap().into_iter().map(|w| w.text).collect();
    assert_eq!(words, vec!["hello".to_string(), "world".to_string()]);
    let speakers = d.speakers.unwrap();
    assert_eq!(speakers.len(), 1);
    assert_eq!(speakers[0].id, "1");
    assert_eq!(
        d.metadata.as_deref(),
        Some(r#"{"billing_time":3,"custom_metadata":null,"number_of_distinct_channels":1,"transcription_time":1.2}"#)
    );
}

#[test]
fn failed_callback() {
    let mut p = payload(Some("transcription.error"));
    p.error_code = Some(500);
    let e = GladiaWebhookHandler::parse(&p, "t".into()).unwrap();
    assert!(!e.success);
    assert_eq!(e.event_type, WebhookEventType::TranscriptionFailed);
    let d = e.data.unwrap();
    assert_eq!(d.error.as_deref(), Some("Transcription failed"));
    assert_eq!(d.metadata.as_deref(), Some(r#"{"custom_metadata":null,"error_code":500}"#));
}

#[test]
fn unknown_events_and_envelopes() {
    let p = payload(Some("transcription.started"));
    assert_eq!(
        WebhookRouter::new().route(&p, "t".into()),
        Err(WebhookError::UnknownEvent("transcription.started".into()))
    );
    let mut q = payload(None);
    assert_eq!(WebhookRouter::new().route(&q, "t".into()), Err(WebhookError::UnknownProvider));
    q.has_status = true;
    assert_eq!(
        WebhookRouter::new().route(&q, "t".into()),
        Err(WebhookError::UnsupportedProvider("assemblyai".into()))
    );
    let mut r = payload(Some("transcription.success"));
    r.has_result = false;
    assert_eq!(
        GladiaWebhookHandler::parse(&r, "t".into()),
        Err(WebhookError::InvalidPayload("Missing 'payload' field".into()))
    );
    assert_eq!(
        WebhookRouter::new().parse(TranscriptionProvider::Deepgram, &r, "t".into()),
        Err(WebhookError::UnsupportedProvider("Deepgram".into()))
    );
}

#[test]
fn error_codes_and_messages() {
    assert_eq!(get_error_message(ErrorCodes::POLLING_TIMEOUT), "Transcription did not complete within timeout period");
    assert_eq!(get_error_message("nope"), "An unknown error occurred");
    let e = StandardError::new(ErrorCodes::NOT_SUPPORTED, None, None).with_status_code(501);
    assert_eq!(e.message, "Operation not supported by this provider");
    assert_eq!(e.status_code, Some(501));
    assert_eq!(e.to_text(), "[NOT_SUPPORTED] Operation not supported by this provider");
    assert_eq!(StandardError::new("X", Some("custom"), None).message, "custom");
}

#[test]
fn integers_in_decimal() {
    assert_eq!(integer_text(0), "0");
    assert_eq!(integer_text(-42), "-42");
    assert_eq!(integer_text(i64::MIN), "-9223372036854775808");
    assert_eq!(integer_text(1234567890), "1234567890");
}
