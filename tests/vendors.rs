use voice_router::adapters::assemblyai::{
    self, AssemblyAIAdapter, AssemblyAIStatus, AssemblyAIStreamMessage, AssemblyAIStreamWord,
    AssemblyAITranscript, AssemblyAIUtterance, AssemblyAIWord,
};
use voice_router::adapters::deepgram::{
    self, DeepgramAdapter, DeepgramAlternative, DeepgramBatchAlternative, DeepgramChannel, DeepgramOutcome,
    DeepgramResponse, DeepgramStreamMessage, DeepgramStreamWord, DeepgramSummary, DeepgramUtterance,
    DeepgramWord,
};
use voice_router::adapters::gladia::{
    self, GladiaAdapter, GladiaJob, GladiaResult, GladiaStatus, GladiaStreamMessage, GladiaTranscription,
    GladiaUtterance, GladiaWord,
};
use voice_router::adapters::{url_only, AdapterError, ProviderConfig};
use voice_router::poller::{self, after_submit, is_terminal, AfterSubmit, JobPoller, PollDecision};
use voice_router::types::{
    AudioInput, Confidence, Seconds, StreamEventType, StreamingOptions, TranscribeOptions,
    TranscriptionProvider, TranscriptionStatus,
};

fn secs(ms: i64) -> Seconds {
    Seconds { thousandths: ms }
}

fn conf(m: i64) -> Confidence {
    Confidence { millionths: m }
}

fn aai_word(text: &str, start: i64, end: i64, speaker: &str) -> AssemblyAIWord {
    AssemblyAIWord { text: text.into(), start, end, confidence: conf(900_000), speaker: Some(speaker.into()) }
}

fn aai_transcript(status: AssemblyAIStatus) -> AssemblyAITranscript {
    AssemblyAITranscript {
        id: "job-1".into(),
        status,
        error: None,
        text: None,
        words: None,
        utterances: None,
        summary: None,
        confidence: None,
        audio_duration: None,
        language_code: None,
    }
}

#[test]
fn milliseconds_become_seconds() {
    let w = assemblyai::map_word(&aai_word("hi", 1500, 2250, "A"));
    assert_eq!(w.start, secs(1500));
    assert_eq!(w.end, secs(2250));
    assert!(w.start.thousandths <= w.end.thousandths);
    let ev = assemblyai::parse_streaming_message(AssemblyAIStreamMessage::Turn {
        transcript: "hi".into(),
        end_of_turn: false,
        end_of_turn_confidence: conf(800_000),
        words: vec![AssemblyAIStreamWord { text: "hi".into(), start: 40, end: 360, confidence: conf(1) }],
    })
    .unwrap();
    let words = ev.words.unwrap();
    assert_eq!((words[0].start, words[0].end), (secs(40), secs(360)));
    assert_eq!(ev.confidence, None);
    assert_eq!(ev.is_final, Some(false));
}

#[test]
fn polled_job_with_diarization_ends_completed_with_two_speakers() {
    let options = TranscribeOptions { diarization: Some(true), speakers_expected: Some(2), ..Default::default() };
    let params = AssemblyAIAdapter::build_transcript_params("https://x/a.mp3".into(), Some(&options));
    assert_eq!(params.speaker_labels, Some(true));
    assert_eq!(params.speakers_expected, Some(2));

    let words_a = vec![aai_word("hello", 0, 400, "A"), aai_word("there", 400, 900, "A")];
    let words_b = vec![aai_word("hi", 1000, 1300, "B")];
    let mut done = aai_transcript(AssemblyAIStatus::Completed);
    done.text = Some("hello there hi".into());
    done.words = Some(words_a.iter().chain(words_b.iter()).cloned().collect());
    done.utterances = Some(vec![
        AssemblyAIUtterance {
            text: "hello there".into(),
            start: 0,
            end: 900,
            confidence: conf(900_000),
            speaker: "A".into(),
            words: words_a,
        },
        AssemblyAIUtterance {
            text: "hi".into(),
            start: 1000,
            end: 1300,
            confidence: conf(900_000),
            speaker: "B".into(),
            words: words_b,
        },
    ]);
    let fetched =
        vec![aai_transcript(AssemblyAIStatus::Queued), aai_transcript(AssemblyAIStatus::Processing), done];

    let mut poller = JobPoller::new();
    let mut outcome = None;
    for job in fetched {
        match poller.observe(is_terminal(assemblyai::canonical_status(job.status))) {
            PollDecision::Finish => {
                outcome = Some(assemblyai::normalize_response(job, None));
                break;
            }
            PollDecision::Wait { ms } => assert_eq!(ms, 1000),
            PollDecision::GiveUp { .. } => panic!("gave up"),
        }
    }
    assert_eq!(poller.attempts(), 3);
    let response = outcome.unwrap();
    assert!(response.success);
    let data = response.data.unwrap();
    assert_eq!(data.status, TranscriptionStatus::Completed);
    let speakers = data.speakers.unwrap();
    assert_eq!(speakers.len(), 2);
    assert_ne!(speakers[0].id, speakers[1].id);
    assert_eq!(speakers[0].label.as_deref(), Some("Speaker A"));
    let words = data.words.unwrap();
    assert!(words.iter().all(|w| w.speaker.is_some()));
    assert_eq!(words[2].speaker.as_deref(), Some("B"));
}

#[test]
fn poller_gives_up_at_the_ceiling() {
    let mut poller = JobPoller::new();
    for _ in 0..119 {
        assert_eq!(poller.observe(false), PollDecision::Wait { ms: 1000 });
    }
    assert_eq!(poller.observe(false), PollDecision::GiveUp { attempts: 120 });
    let r = poller::timeout_response(TranscriptionProvider::Gladia, 120);
    assert!(!r.success);
    assert!(r.raw.is_none());
    let e = r.error.unwrap();
    assert_eq!(e.code, "POLLING_TIMEOUT");
    assert_eq!(e.message, "Transcription did not complete after 120 attempts");
}

#[test]
fn error_status_keeps_the_vendor_message() {
    let mut job = aai_transcript(AssemblyAIStatus::Error);
    job.error = Some("audio too short".into());
    let r = assemblyai::normalize_response(job, Some("{}".into()));
    assert!(!r.success && r.data.is_none());
    let e = r.error.unwrap();
    assert_eq!((e.code.as_str(), e.message.as_str()), ("TRANSCRIPTION_ERROR", "audio too short"));
}

#[test]
fn assemblyai_stream_messages() {
    let e = assemblyai::parse_streaming_message(AssemblyAIStreamMessage::Error { error: "bad key".into() }).unwrap();
    assert_eq!(e.event_type, StreamEventType::Error);
    assert_eq!(e.error.as_ref().unwrap().code, "PROVIDER_ERROR");
    assert_eq!(e.error.unwrap().message, "bad key");
    let b = assemblyai::parse_streaming_message(AssemblyAIStreamMessage::Begin {
        id: "s1".into(),
        expires_at: "9".into(),
    })
    .unwrap();
    assert_eq!(b.text.as_deref(), Some(r#"{"id":"s1","expires_at":"9"}"#));
    let t = assemblyai::parse_streaming_message(AssemblyAIStreamMessage::Termination {
        audio_duration_seconds: "1.5".into(),
        session_duration_seconds: "2".into(),
    })
    .unwrap();
    assert_eq!(t.text.as_deref(), Some(r#"{"audio_duration":1.5,"session_duration":2}"#));
    assert!(assemblyai::parse_streaming_message(AssemblyAIStreamMessage::SessionInformation).is_none());
    let f = assemblyai::parse_streaming_message(AssemblyAIStreamMessage::Turn {
        transcript: "ok".into(),
        end_of_turn: true,
        end_of_turn_confidence: conf(750_000),
        words: vec![],
    })
    .unwrap();
    assert_eq!(f.confidence, Some(conf(750_000)));
    assert!(f.words.is_none());
}

#[test]
fn streaming_urls() {
    let opts = StreamingOptions {
        encoding: Some("MULAW".into()),
        sample_rate: Some(8000),
        diarization: Some(true),
        language: Some("en".into()),
        ..Default::default()
    };
    assert_eq!(
        DeepgramAdapter::build_streaming_url(&opts).unwrap(),
        "wss://api.deepgram.com/v1/listen?encoding=mulaw&sample_rate=8000&language=en&interim_results=true&diarize=true&punctuate=true"
    );
    assert_eq!(
        AssemblyAIAdapter::build_streaming_url(&opts).unwrap(),
        "wss://streaming.assemblyai.com/v3/ws?sample_rate=8000&encoding=pcm_mulaw"
    );
    assert_eq!(
        AssemblyAIAdapter::build_streaming_url(&StreamingOptions::default()).unwrap(),
        "wss://streaming.assemblyai.com/v3/ws?sample_rate=16000"
    );
    assert_eq!(
        DeepgramAdapter::build_streaming_url(&StreamingOptions { interim_results: Some(false), ..Default::default() }).unwrap(),
        "wss://api.deepgram.com/v1/listen?interim_results=false&punctuate=true"
    );
    let header = DeepgramAdapter::streaming_header("k1");
    assert_eq!((header.0.as_str(), header.1.as_str()), ("Authorization", "Token k1"));
}

#[test]
fn gladia_streaming_request() {
    let opts = StreamingOptions {
        encoding: Some("pcm".into()),
        sample_rate: Some(22050),
        channels: Some(2),
        model: Some("solaria-1".into()),
        ..Default::default()
    };
    let r = GladiaAdapter::build_streaming_request(&opts).unwrap();
    assert_eq!(r.sample_rate, Some(16000));
    assert_eq!(r.encoding.as_deref(), Some("wav/pcm"));
    assert_eq!(r.bit_depth, Some(16));
    assert_eq!(r.channels, Some(2));
    assert_eq!(r.model.as_deref(), Some("solaria-1"));
    let r = GladiaAdapter::build_streaming_request(&StreamingOptions {
        encoding: Some("alaw".into()),
        model: Some("other".into()),
        ..Default::default()
    })
    .unwrap();
    assert_eq!(r.encoding.as_deref(), Some("wav/alaw"));
    assert_eq!(r.bit_depth, None);
    assert_eq!(r.model, None);
}

#[test]
fn request_flags_map_one_to_one() {
    let options = TranscribeOptions {
        summarization: Some(true),
        sentiment_analysis: Some(false),
        speakers_expected: Some(3),
        custom_vocabulary: Some(vec![]),
        webhook_url: Some("https://hook".into()),
        ..Default::default()
    };
    let p = AssemblyAIAdapter::build_transcript_params("u".into(), Some(&options));
    assert_eq!(p.summarization, Some(true));
    assert_eq!(p.sentiment_analysis, None);
    assert_eq!(p.speakers_expected, None);
    assert_eq!(p.keyterms_prompt, None);
    assert_eq!(p.webhook_url.as_deref(), Some("https://hook"));
    let g = GladiaAdapter::build_transcription_request("u".into(), Some(&options));
    assert_eq!(g.summarization, Some(true));
    assert_eq!(g.number_of_speakers, None);
    assert_eq!(g.callback_url.as_deref(), Some("https://hook"));
    assert_eq!(g.language_config, None);
    let d = DeepgramAdapter::build_query("u".into(), Some(&options));
    assert_eq!(d.sentiment, Some(false));
    assert_eq!(d.punctuate, Some(true));
    assert_eq!(d.callback.as_deref(), Some("https://hook"));
}

#[test]
fn adapters_need_a_credential() {
    let mut a = GladiaAdapter::new();
    let empty = ProviderConfig { api_key: String::new(), base_url: None, timeout_ms: None, headers: None };
    assert_eq!(a.initialize(empty), Err(AdapterError::InvalidConfig("API key is required".into())));
    let ok = ProviderConfig { api_key: "k".into(), base_url: None, timeout_ms: None, headers: None };
    assert_eq!(a.initialize(ok), Ok(()));
    assert!(a.config.is_some());
    assert!(!a.capabilities().pii_redaction);
    assert!(matches!(DeepgramAdapter::new().get_transcript("x"), Err(AdapterError::NotSupported(_))));
    assert!(matches!(url_only(AudioInput::Stream), Err(AdapterError::NotSupported(_))));
    assert_eq!(url_only(AudioInput::Url("u".into())), Ok("u".to_string()));
}

fn dg_word(w: &str, speaker: Option<i64>) -> DeepgramWord {
    DeepgramWord { word: Some(w.into()), start: Some(secs(100)), end: None, confidence: None, speaker }
}

#[test]
fn deepgram_batch_response() {
    let response = DeepgramResponse {
        request_id: "req".into(),
        created: "2024".into(),
        duration: secs(3500),
        channels: vec![DeepgramChannel {
            alternatives: Some(vec![DeepgramBatchAlternative {
                transcript: Some("a b".into()),
                confidence: Some(conf(990_000)),
                words: Some(vec![dg_word("a", Some(0))]),
            }]),
            detected_language: Some("en".into()),
        }],
        utterances: Some(vec![
            DeepgramUtterance {
                transcript: Some("a".into()),
                start: None,
                end: Some(secs(500)),
                confidence: None,
                speaker: Some(1),
                words: Some(vec![dg_word("a", Some(1))]),
            },
            DeepgramUtterance {
                transcript: None,
                start: None,
                end: None,
                confidence: None,
                speaker: Some(-2),
                words: None,
            },
            DeepgramUtterance { transcript: None, start: None, end: None, confidence: None, speaker: Some(1), words: None },
        ]),
        summary: Some(DeepgramSummary { short: None }),
    };
    let r = deepgram::transcribe_outcome(DeepgramOutcome::Complete(response), None);
    let d = r.data.unwrap();
    assert_eq!(d.text, "a b");
    assert_eq!(d.language.as_deref(), Some("en"));
    assert_eq!(d.duration, Some(secs(3500)));
    assert_eq!(d.summary.as_deref(), Some(""));
    let words = d.words.unwrap();
    assert_eq!(words[0].speaker, None);
    assert_eq!(words[0].end, secs(0));
    let ids: Vec<_> = d.speakers.unwrap().into_iter().map(|s| s.id).collect();
    assert_eq!(ids, vec!["-2".to_string(), "1".to_string()]);
    let utts = d.utterances.unwrap();
    assert_eq!(utts[0].words.as_ref().unwrap()[0].speaker.as_deref(), Some("1"));
    let queued = deepgram::transcribe_outcome(DeepgramOutcome::Accepted { request_id: "r2".into() }, None);
    assert_eq!(queued.data.unwrap().status, TranscriptionStatus::Queued);
}

#[test]
fn deepgram_stream_messages() {
    let ev = deepgram::parse_streaming_message(DeepgramStreamMessage::Results {
        is_final: true,
        alternatives: vec![DeepgramAlternative {
            transcript: "yes".into(),
            confidence: conf(5),
            words: Some(vec![DeepgramStreamWord {
                word: "yes".into(),
                start: secs(1),
                end: secs(2),
                confidence: conf(5),
                speaker: Some(12),
            }]),
        }],
    })
    .unwrap();
    assert_eq!(ev.event_type, StreamEventType::Transcript);
    assert_eq!(ev.words.unwrap()[0].speaker.as_deref(), Some("12"));
    assert!(deepgram::parse_streaming_message(DeepgramStreamMessage::Results { is_final: false, alternatives: vec![] })
        .is_none());
    let m = deepgram::parse_streaming_message(DeepgramStreamMessage::Metadata { payload: "{}".into() }).unwrap();
    assert_eq!(m.event_type, StreamEventType::Metadata);
}

fn g_utt(speaker: Option<i64>, words: Vec<GladiaWord>) -> GladiaUtterance {
    GladiaUtterance { text: "t".into(), start: secs(0), end: secs(10), speaker, confidence: conf(1), words }
}

fn g_word(w: &str) -> GladiaWord {
    GladiaWord { word: w.into(), start: secs(1), end: secs(2), confidence: conf(3) }
}

#[test]
fn gladia_batch_response() {
    let job = GladiaJob {
        id: "g1".into(),
        status: GladiaStatus::Done,
        error_code: None,
        result: Some(GladiaResult {
            audio_duration: secs(4200),
            transcription: Some(GladiaTranscription {
                full_transcript: "x y z".into(),
                languages: vec!["fr".into()],
                utterances: vec![g_utt(Some(0), vec![g_word("x")]), g_utt(Some(1), vec![g_word("y"), g_word("z")]), g_utt(Some(0), vec![])],
            }),
            summary: Some("sum".into()),
        }),
        custom_metadata: None,
        created_at: "c".into(),
        completed_at: Some("d".into()),
    };
    let r = gladia::normalize_response(job, None);
    let d = r.data.unwrap();
    assert_eq!(d.status, TranscriptionStatus::Completed);
    assert_eq!(d.language.as_deref(), Some("fr"));
    assert_eq!(d.speakers.unwrap().len(), 2);
    let words = d.words.unwrap();
    assert_eq!(words.len(), 3);
    assert_eq!(words[2].speaker.as_deref(), Some("1"));
    assert_eq!(d.utterances.unwrap()[0].words.as_ref().unwrap()[0].speaker, None);
    let failed = gladia::normalize_response(
        GladiaJob {
            id: "g2".into(),
            status: GladiaStatus::Error,
            error_code: Some(422),
            result: None,
            custom_metadata: None,
            created_at: "c".into(),
            completed_at: None,
        },
        None,
    );
    assert!(!failed.success);
    assert_eq!(failed.error.unwrap().status_code, Some(422));
}

#[test]
fn gladia_stream_messages() {
    let u = gladia::parse_streaming_message(GladiaStreamMessage::Utterance { utterance: g_utt(Some(3), vec![g_word("w")]) });
    assert_eq!(u.event_type, StreamEventType::Utterance);
    assert_eq!(u.is_final, Some(true));
    let inner = u.utterance.unwrap();
    assert_eq!(inner.speaker.as_deref(), Some("3"));
    assert_eq!(inner.words.unwrap()[0].speaker.as_deref(), Some("3"));
    let t = gladia::parse_streaming_message(GladiaStreamMessage::Transcript { is_final: false, utterance: g_utt(None, vec![]) });
    assert!(t.utterance.is_none() && t.words.is_none());
    let e = gladia::parse_streaming_message(GladiaStreamMessage::Error { message: "boom".into() });
    assert_eq!(e.error.unwrap().message, "boom");
}

#[test]
fn unsupported_stream_encodings_are_refused() {
    let opus = StreamingOptions { encoding: Some("opus".into()), ..Default::default() };
    assert_eq!(
        AssemblyAIAdapter::build_streaming_url(&opus),
        Err(AdapterError::NotSupported(
            "Encoding 'opus' is not supported by AssemblyAI. Supported encodings: linear16, mulaw, alaw".into()
        ))
    );
    assert_eq!(
        GladiaAdapter::build_streaming_request(&opus),
        Err(AdapterError::NotSupported(
            "Encoding 'opus' is not supported by Gladia. Supported encodings: linear16, mulaw, alaw".into()
        ))
    );
    let unknown = StreamingOptions { encoding: Some("vorbis".into()), ..Default::default() };
    assert!(matches!(DeepgramAdapter::build_streaming_url(&unknown), Err(AdapterError::NotSupported(_))));
    assert!(DeepgramAdapter::build_streaming_url(&opus).unwrap().contains("encoding=opus"));
}

#[test]
fn deepgram_speakers_are_sorted() {
    let utt = |s: i64| DeepgramUtterance { transcript: None, start: None, end: None, confidence: None, speaker: Some(s), words: None };
    let response = DeepgramResponse {
        request_id: "r".into(),
        created: "c".into(),
        duration: secs(0),
        channels: vec![],
        utterances: Some(vec![utt(2), utt(10), utt(1), utt(2)]),
        summary: None,
    };
    let d = deepgram::normalize_response(response, None).data.unwrap();
    let ids: Vec<_> = d.speakers.unwrap().into_iter().map(|s| s.id).collect();
    assert_eq!(ids, vec!["1".to_string(), "10".to_string(), "2".to_string()]);
}

#[test]
fn callback_requests_answer_queued() {
    match after_submit(TranscriptionProvider::Gladia, "j1".into(), &Some("https://hook".into()), None) {
        AfterSubmit::Respond(r) => {
            let d = r.data.unwrap();
            assert_eq!((d.id.as_str(), d.status), ("j1", TranscriptionStatus::Queued));
        }
        other => panic!("unexpected {:?}", other),
    }
    assert_eq!(after_submit(TranscriptionProvider::Gladia, "j2".into(), &None, None), AfterSubmit::Poll("j2".into()));
    assert_eq!(
        assemblyai::classify_frame(Some("bad".into()), Some(AssemblyAIStreamMessage::SessionInformation)),
        Some(AssemblyAIStreamMessage::Error { error: "bad".into() })
    );
}
