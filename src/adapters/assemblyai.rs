//! AssemblyAI: request mapping, response and streaming-message
//! normalization. AssemblyAI reports times in milliseconds.
use vstd::prelude::*;
use crate::adapters::streaming::{assemblyai_encoding, error_event, stream_encoding_from_name, AudioEncoding};
use crate::adapters::{check_config, AdapterError, ProviderConfig};
use crate::poller::{terminal, JobPoller, PollDecision, MAX_ATTEMPTS, POLL_INTERVAL_MS};
use crate::speakers::{distinct_tags, holds_text, labelled_speakers, no_repeats, same_texts, speaker_label};
use crate::text::{digits, join, lower_of, natural_text, owned};
use crate::types::{
    copy_text, Confidence, ProviderCapabilities, Seconds, Speaker, StreamEvent, StreamEventType,
    TranscribeOptions, StreamingOptions, TranscriptionData, TranscriptionError, TranscriptionProvider,
    TranscriptionStatus, UnifiedTranscriptResponse, Utterance, Word,
};

verus! {

/// A word of a batch transcript; times in milliseconds.
#[derive(Debug, Clone, PartialEq, Eq)]
pub struct AssemblyAIWord {
    pub text: String,
    pub start: i64,
    pub end: i64,
    pub confidence: Confidence,
    pub speaker: Option<String>,
}

/// An utterance of a batch transcript; times in milliseconds.
#[derive(Debug, Clone, PartialEq, Eq)]
pub struct AssemblyAIUtterance {
    pub text: String,
    pub start: i64,
    pub end: i64,
    pub confidence: Confidence,
    pub speaker: String,
    pub words: Vec<AssemblyAIWord>,
}

/// Job status as AssemblyAI reports it.
#[derive(Debug, Clone, Copy, PartialEq, Eq, Structural)]
pub enum AssemblyAIStatus {
    Queued,
    Processing,
    Completed,
    Error,
}

/// A batch transcript as AssemblyAI returns it.
#[derive(Debug, Clone, PartialEq, Eq)]
pub struct AssemblyAITranscript {
    pub id: String,
    pub status: AssemblyAIStatus,
    pub error: Option<String>,
    pub text: Option<String>,
    pub words: Option<Vec<AssemblyAIWord>>,
    pub utterances: Option<Vec<AssemblyAIUtterance>>,
    pub summary: Option<String>,
    pub confidence: Option<Confidence>,
    /// Audio duration, in milliseconds.
    pub audio_duration: Option<i64>,
    pub language_code: Option<String>,
}

/// A word of a streaming turn; times in milliseconds.
#[derive(Debug, Clone, PartialEq, Eq)]
pub struct AssemblyAIStreamWord {
    pub text: String,
    pub start: i64,
    pub end: i64,
    pub confidence: Confidence,
}

/// A streaming message, by its tag; an untagged `error` frame is `Error`.
#[derive(Debug, Clone, PartialEq, Eq)]
pub enum AssemblyAIStreamMessage {
    Error { error: String },
    Begin { id: String, expires_at: String },
    Turn {
        transcript: String,
        end_of_turn: bool,
        end_of_turn_confidence: Confidence,
        words: Vec<AssemblyAIStreamWord>,
    },
    /// Durations as the decimal text the vendor sent.
    Termination { audio_duration_seconds: String, session_duration_seconds: String },
    SessionInformation,
}

/// The batch request, in AssemblyAI's fields.
#[derive(Debug, Clone, PartialEq, Eq)]
pub struct AssemblyAIParams {
    pub audio_url: String,
    pub language_detection: Option<bool>,
    pub speaker_labels: Option<bool>,
    pub speakers_expected: Option<u32>,
    pub keyterms_prompt: Option<Vec<String>>,
    pub summarization: Option<bool>,
    pub sentiment_analysis: Option<bool>,
    pub entity_detection: Option<bool>,
    pub redact_pii: Option<bool>,
    pub webhook_url: Option<String>,
}

/// AssemblyAI's streaming endpoint.
pub const STREAMING_URL: &'static str = "wss://streaming.assemblyai.com/v3/ws";

/// The control message that ends an AssemblyAI stream.
pub const TERMINATE_MESSAGE: &'static str = "{\"terminate_session\":true}";

/// The AssemblyAI adapter: holds its configuration once initialized.
#[derive(Debug, Clone, PartialEq, Eq)]
pub struct AssemblyAIAdapter {
    pub config: Option<ProviderConfig>,
}

/// A word of a batch transcript in the canonical schema: milliseconds
/// become seconds.
pub open spec fn word_of(w: AssemblyAIWord) -> Word {
    Word {
        text: w.text,
        start: Seconds { thousandths: w.start },
        end: Seconds { thousandths: w.end },
        confidence: Some(w.confidence),
        speaker: w.speaker,
    }
}

/// A streaming word in the canonical schema.
pub open spec fn stream_word_of(w: AssemblyAIStreamWord) -> Word {
    Word {
        text: w.text,
        start: Seconds { thousandths: w.start },
        end: Seconds { thousandths: w.end },
        confidence: Some(w.confidence),
        speaker: None,
    }
}

/// An utterance in the canonical schema, but for its words.
pub open spec fn utterance_matches(u: Utterance, a: AssemblyAIUtterance) -> bool {
    &&& u.text == a.text
    &&& u.start == Seconds { thousandths: a.start }
    &&& u.end == Seconds { thousandths: a.end }
    &&& u.confidence == Some(a.confidence)
    &&& u.speaker == Some(a.speaker)
    &&& u.words is Some
    &&& u.words->0@ == a.words@.map_values(|w: AssemblyAIWord| word_of(w))
}

/// The canonical status of an AssemblyAI status.
pub open spec fn status_of(s: AssemblyAIStatus) -> TranscriptionStatus {
    match s {
        AssemblyAIStatus::Queued => TranscriptionStatus::Queued,
        AssemblyAIStatus::Processing => TranscriptionStatus::Processing,
        AssemblyAIStatus::Completed => TranscriptionStatus::Completed,
        AssemblyAIStatus::Error => TranscriptionStatus::Error,
    }
}

/// The text of a `Begin` frame passed on as metadata.
pub open spec fn begin_text(id: Seq<char>, expires_at: Seq<char>) -> Seq<char> {
    "{\"id\":\""@ + id + "\",\"expires_at\":\""@ + expires_at + "\"}"@
}

/// The text of a `Termination` frame passed on as metadata.
pub open spec fn termination_text(audio: Seq<char>, session: Seq<char>) -> Seq<char> {
    "{\"audio_duration\":"@ + audio + ",\"session_duration\":"@ + session + "}"@
}

/// The encodings AssemblyAI streams, as named in refusals.
pub const STREAMING_ENCODINGS: &'static str = "linear16, mulaw, alaw";

/// The streaming URL for the given options; none when an encoding is named
/// that AssemblyAI does not stream.
pub open spec fn streaming_url(sample_rate: Option<u32>, encoding: Option<Seq<char>>) -> Option<Seq<char>> {
    let rate = match sample_rate {
        Some(r) => r,
        None => 16000u32,
    };
    let base = STREAMING_URL@ + "?"@ + "sample_rate="@ + digits(rate as nat, false);
    match encoding {
        Some(e) => match stream_encoding_from_name(lower_of(e)) {
            Some(enc) => match assemblyai_encoding(enc) {
                Some(token) => Some(base + "&encoding="@ + token),
                None => None,
            },
            None => None,
        },
        None => Some(base),
    }
}

/// The canonical status of a job status.
pub fn canonical_status(s: AssemblyAIStatus) -> (r: TranscriptionStatus)
    ensures
        r == status_of(s),
{
    match s {
        AssemblyAIStatus::Queued => TranscriptionStatus::Queued,
        AssemblyAIStatus::Processing => TranscriptionStatus::Processing,
        AssemblyAIStatus::Completed => TranscriptionStatus::Completed,
        AssemblyAIStatus::Error => TranscriptionStatus::Error,
    }
}

/// Maps a word of a batch transcript.
pub fn map_word(w: &AssemblyAIWord) -> (r: Word)
    ensures
        r == word_of(*w),
{
    Word {
        text: w.text.clone(),
        start: Seconds { thousandths: w.start },
        end: Seconds { thousandths: w.end },
        confidence: Some(w.confidence),
        speaker: copy_text(&w.speaker),
    }
}

/// Maps a list of words of a batch transcript.
pub fn map_words(ws: &Vec<AssemblyAIWord>) -> (r: Vec<Word>)
    ensures
        r@ == ws@.map_values(|w: AssemblyAIWord| word_of(w)),
{
    let mut out: Vec<Word> = Vec::new();
    let mut i: usize = 0;
    while i < ws.len()
        invariant
            0 <= i <= ws@.len(),
            out@ == ws@.subrange(0, i as int).map_values(|w: AssemblyAIWord| word_of(w)),
        decreases ws@.len() - i,
    {
        out.push(map_word(&ws[i]));
        i += 1;
        assert(ws@.subrange(0, i as int) == ws@.subrange(0, i - 1).push(ws@[i - 1]));
    }
    assert(ws@.subrange(0, ws@.len() as int) == ws@);
    out
}

/// Maps an utterance of a batch transcript, words included.
pub fn map_utterance(u: &AssemblyAIUtterance) -> (r: Utterance)
    ensures
        utterance_matches(r, *u),
{
    Utterance {
        text: u.text.clone(),
        start: Seconds { thousandths: u.start },
        end: Seconds { thousandths: u.end },
        confidence: Some(u.confidence),
        speaker: Some(u.speaker.clone()),
        words: Some(map_words(&u.words)),
    }
}

/// Maps the utterances of a batch transcript.
pub fn map_utterances(us: &Vec<AssemblyAIUtterance>) -> (r: Vec<Utterance>)
    ensures
        r@.len() == us@.len(),
        forall|i: int| 0 <= i < r@.len() ==> utterance_matches(#[trigger] r@[i], us@[i]),
{
    let mut out: Vec<Utterance> = Vec::new();
    let mut i: usize = 0;
    while i < us.len()
        invariant
            0 <= i <= us@.len(),
            out@.len() == i,
            forall|k: int| 0 <= k < i ==> utterance_matches(#[trigger] out@[k], us@[k]),
        decreases us@.len() - i,
    {
        out.push(map_utterance(&us[i]));
        i += 1;
    }
    out
}

/// The speaker tags of the utterances, in order.
fn utterance_speakers(us: &Vec<AssemblyAIUtterance>) -> (r: Vec<String>)
    ensures
        r@ == us@.map_values(|u: AssemblyAIUtterance| u.speaker),
{
    let mut out: Vec<String> = Vec::new();
    let mut i: usize = 0;
    while i < us.len()
        invariant
            0 <= i <= us@.len(),
            out@ == us@.subrange(0, i as int).map_values(|u: AssemblyAIUtterance| u.speaker),
        decreases us@.len() - i,
    {
        out.push(us[i].speaker.clone());
        i += 1;
        assert(us@.subrange(0, i as int) == us@.subrange(0, i - 1).push(us@[i - 1]));
    }
    assert(us@.subrange(0, us@.len() as int) == us@);
    out
}

/// The distinct speakers of the utterances, or none when there are no
/// utterances.
pub fn extract_speakers(us: &Vec<AssemblyAIUtterance>) -> (r: Option<Vec<Speaker>>)
    ensures
        r is None <==> us@.len() == 0,
        r is Some ==> ({
            let ids = r->0@.map_values(|s: Speaker| s.id);
            &&& no_repeats(ids)
            &&& same_texts(ids, us@.map_values(|u: AssemblyAIUtterance| u.speaker))
            &&& forall|i: int| 0 <= i < r->0@.len() ==> (#[trigger] r->0@[i]).label is Some
                && r->0@[i].label->0@ == speaker_label(r->0@[i].id@)
        }),
{
    let tags = utterance_speakers(us);
    let ids = distinct_tags(&tags);
    if ids.len() == 0 {
        proof {
            if us@.len() > 0 {
                assert(tags@[0] == us@[0].speaker);
                assert(crate::speakers::holds_text(ids@, tags@[0]@));
            }
        }
        return None;
    }
    proof {
        if us@.len() == 0 {
            assert(crate::speakers::holds_text(tags@, ids@[0]@));
        }
    }
    let speakers = labelled_speakers(ids);
    proof {
        assert(speakers@.map_values(|s: Speaker| s.id) =~= ids@);
    }
    Some(speakers)
}

/// What normalizing a batch transcript gives.
pub open spec fn normalized(response: AssemblyAITranscript, raw: Option<String>, r: UnifiedTranscriptResponse) -> bool {
    &&& (r.well_formed())
    &&& (r.provider == TranscriptionProvider::AssemblyAI)
    &&& (r.raw == raw)
    &&& (response.status == AssemblyAIStatus::Error ==> ({
        let e = r.error->0;
        &&& !r.success
        &&& e.code@ == "TRANSCRIPTION_ERROR"@
        &&& response.error is Some ==> e.message == response.error->0
        &&& response.error is None ==> e.message@ == "Transcription failed"@
    }))
    &&& (response.status != AssemblyAIStatus::Error ==> ({
        let d = r.data->0;
        &&& r.success
        &&& d.id == response.id
        &&& d.status == status_of(response.status)
        &&& (response.text is Some ==> d.text == response.text->0)
        &&& (response.text is None ==> d.text@.len() == 0)
        &&& d.confidence == response.confidence
        &&& d.summary == response.summary
        &&& d.language == response.language_code
        &&& d.duration == (match response.audio_duration {
            Some(ms) => Some(Seconds { thousandths: ms }),
            None => None,
        })
        &&& (d.words is Some <==> response.words is Some)
        &&& (d.words is Some ==> d.words->0@ == response.words->0@.map_values(
            |w: AssemblyAIWord| word_of(w),
        ))
        &&& (d.utterances is Some <==> response.utterances is Some)
        &&& (d.utterances is Some ==> d.utterances->0@.len() == response.utterances->0@.len()
            && forall|i: int| 0 <= i < d.utterances->0@.len() ==> utterance_matches(
            #[trigger] d.utterances->0@[i],
            response.utterances->0@[i],
        ))
        &&& (d.speakers is Some <==> (response.utterances is Some
            && response.utterances->0@.len() > 0))
        &&& (d.speakers is Some ==> ({
            let ids = d.speakers->0@.map_values(|s: Speaker| s.id);
            no_repeats(ids) && same_texts(
                ids,
                response.utterances->0@.map_values(|u: AssemblyAIUtterance| u.speaker),
            )
        }))
    }))
}

/// The canonical form of a batch transcript. An error status gives a failed
/// response carrying the vendor's message; any other status gives the
/// transcript's fields, times converted from milliseconds to seconds.
pub fn normalize_response(response: AssemblyAITranscript, raw: Option<String>) -> (r: UnifiedTranscriptResponse)
    ensures
        normalized(response, raw, r),
{
    if response.status == AssemblyAIStatus::Error {
        let message = match response.error {
            Some(m) => m,
            None => owned("Transcription failed"),
        };
        return UnifiedTranscriptResponse {
            success: false,
            provider: TranscriptionProvider::AssemblyAI,
            data: None,
            error: Some(TranscriptionError {
                code: owned("TRANSCRIPTION_ERROR"),
                message,
                details: None,
                status_code: None,
            }),
            raw,
        };
    }
    let status = match response.status {
        AssemblyAIStatus::Queued => TranscriptionStatus::Queued,
        AssemblyAIStatus::Processing => TranscriptionStatus::Processing,
        AssemblyAIStatus::Completed => TranscriptionStatus::Completed,
        AssemblyAIStatus::Error => TranscriptionStatus::Error,
    };
    let text = match response.text {
        Some(t) => t,
        None => String::new(),
    };
    let words = match &response.words {
        Some(ws) => Some(map_words(ws)),
        None => None,
    };
    let (speakers, utterances) = match &response.utterances {
        Some(us) => (extract_speakers(us), Some(map_utterances(us))),
        None => (None, None),
    };
    let duration = match response.audio_duration {
        Some(ms) => Some(Seconds { thousandths: ms }),
        None => None,
    };
    UnifiedTranscriptResponse {
        success: true,
        provider: TranscriptionProvider::AssemblyAI,
        data: Some(TranscriptionData {
            id: response.id,
            text,
            confidence: response.confidence,
            status,
            language: response.language_code,
            duration,
            speakers,
            words,
            utterances,
            summary: response.summary,
            metadata: None,
            created_at: None,
            completed_at: None,
        }),
        error: None,
        raw,
    }
}

/// Maps the words of a streaming turn.
pub fn map_stream_words(ws: &Vec<AssemblyAIStreamWord>) -> (r: Vec<Word>)
    ensures
        r@ == ws@.map_values(|w: AssemblyAIStreamWord| stream_word_of(w)),
{
    let mut out: Vec<Word> = Vec::new();
    let mut i: usize = 0;
    while i < ws.len()
        invariant
            0 <= i <= ws@.len(),
            out@ == ws@.subrange(0, i as int).map_values(|w: AssemblyAIStreamWord| stream_word_of(w)),
        decreases ws@.len() - i,
    {
        let w = &ws[i];
        out.push(Word {
            text: w.text.clone(),
            start: Seconds { thousandths: w.start },
            end: Seconds { thousandths: w.end },
            confidence: Some(w.confidence),
            speaker: None,
        });
        i += 1;
        assert(ws@.subrange(0, i as int) == ws@.subrange(0, i - 1).push(ws@[i - 1]));
    }
    assert(ws@.subrange(0, ws@.len() as int) == ws@);
    out
}

/// A metadata event with the given text.
fn metadata_event(text: String) -> (r: StreamEvent)
    ensures
        r.event_type == StreamEventType::Metadata,
        r.text == Some(text),
        r.is_final is None && r.utterance is None && r.words is None && r.speaker is None,
        r.confidence is None && r.error is None && r.data is None,
{
    StreamEvent {
        event_type: StreamEventType::Metadata,
        text: Some(text),
        is_final: None,
        utterance: None,
        words: None,
        speaker: None,
        confidence: None,
        error: None,
        data: None,
    }
}

/// The canonical event of a streaming message.
pub open spec fn stream_event_of(msg: AssemblyAIStreamMessage, r: Option<StreamEvent>) -> bool {
    &&& (r is Some ==> r->0.well_formed())
    &&& (r is None <==> msg is SessionInformation)
    &&& (msg matches AssemblyAIStreamMessage::Error { error } ==> ({
        let e = r->0;
        &&& e.event_type == StreamEventType::Error
        &&& e.error is Some
        &&& e.error->0.code@ == "PROVIDER_ERROR"@
        &&& e.error->0.message == error
        &&& e.error->0.details is None && e.error->0.status_code is None
    }))
    &&& (msg matches AssemblyAIStreamMessage::Begin { id, expires_at } ==> ({
        let e = r->0;
        &&& e.event_type == StreamEventType::Metadata
        &&& e.text is Some
        &&& e.text->0@ == begin_text(id@, expires_at@)
    }))
    &&& (msg matches AssemblyAIStreamMessage::Termination { audio_duration_seconds, session_duration_seconds } ==> ({
        let e = r->0;
        &&& e.event_type == StreamEventType::Metadata
        &&& e.text is Some
        &&& e.text->0@ == termination_text(audio_duration_seconds@, session_duration_seconds@)
    }))
    &&& (msg matches AssemblyAIStreamMessage::Turn { transcript, end_of_turn, end_of_turn_confidence, words } ==> ({
        let e = r->0;
        &&& e.event_type == StreamEventType::Transcript
        &&& e.text == Some(transcript)
        &&& e.is_final == Some(end_of_turn)
        &&& e.utterance is None
        &&& e.speaker is None
        &&& e.error is None
        &&& e.confidence == (if end_of_turn { Some(end_of_turn_confidence) } else { None })
        &&& (e.words is Some <==> words@.len() > 0)
        &&& (e.words is Some ==> e.words->0@ == words@.map_values(
            |w: AssemblyAIStreamWord| stream_word_of(w),
        ))
    }))
}

/// The canonical event of a streaming message: an error frame gives an
/// error with code `PROVIDER_ERROR` and the vendor's message; session begin
/// and end give metadata; a turn gives a transcript, final at the end of the
/// turn, with a confidence only then; session information gives nothing.
pub fn parse_streaming_message(msg: AssemblyAIStreamMessage) -> (r: Option<StreamEvent>)
    ensures
        stream_event_of(msg, r),
{
    match msg {
        AssemblyAIStreamMessage::Error { error } => Some(error_event("PROVIDER_ERROR", error)),
        AssemblyAIStreamMessage::Begin { id, expires_at } => {
            let t = owned("{\"id\":\"");
            let t = join(t, id.as_str());
            let t = join(t, "\",\"expires_at\":\"");
            let t = join(t, expires_at.as_str());
            let t = join(t, "\"}");
            Some(metadata_event(t))
        },
        AssemblyAIStreamMessage::Turn { transcript, end_of_turn, end_of_turn_confidence, words } => {
            let mapped = map_stream_words(&words);
            let words = if mapped.len() == 0 {
                None
            } else {
                Some(mapped)
            };
            Some(StreamEvent {
                event_type: StreamEventType::Transcript,
                text: Some(transcript),
                is_final: Some(end_of_turn),
                utterance: None,
                words,
                speaker: None,
                confidence: if end_of_turn {
                    Some(end_of_turn_confidence)
                } else {
                    None
                },
                error: None,
                data: None,
            })
        },
        AssemblyAIStreamMessage::Termination { audio_duration_seconds, session_duration_seconds } => {
            let t = owned("{\"audio_duration\":");
            let t = join(t, audio_duration_seconds.as_str());
            let t = join(t, ",\"session_duration\":");
            let t = join(t, session_duration_seconds.as_str());
            let t = join(t, "}");
            Some(metadata_event(t))
        },
        AssemblyAIStreamMessage::SessionInformation => None,
    }
}

/// A streaming frame: a frame with an `error` field is an error frame,
/// whatever its type tag says; otherwise the tagged message, if any.
pub fn classify_frame(error: Option<String>, tagged: Option<AssemblyAIStreamMessage>) -> (r: Option<
    AssemblyAIStreamMessage,
>)
    ensures
        error is Some ==> r == Some(AssemblyAIStreamMessage::Error { error: error->0 }),
        error is None ==> r == tagged,
{
    match error {
        Some(e) => Some(AssemblyAIStreamMessage::Error { error: e }),
        None => tagged,
    }
}

/// Maps a flag that is sent only when set.
fn when_set(flag: Option<bool>) -> (r: Option<bool>)
    ensures
        r == (if flag == Some(true) { Some(true) } else { None::<bool> }),
{
    match flag {
        Some(true) => Some(true),
        _ => None,
    }
}

fn copy_texts(v: &Vec<String>) -> (r: Vec<String>)
    ensures
        r@ == v@,
{
    let mut out: Vec<String> = Vec::new();
    let mut i: usize = 0;
    while i < v.len()
        invariant
            0 <= i <= v@.len(),
            out@ == v@.subrange(0, i as int),
        decreases v@.len() - i,
    {
        out.push(v[i].clone());
        i += 1;
        assert(v@.subrange(0, i as int) == v@.subrange(0, i - 1).push(v@[i - 1]));
    }
    assert(v@.subrange(0, v@.len() as int) == v@);
    out
}

impl AssemblyAIAdapter {
    pub fn new() -> (r: AssemblyAIAdapter)
        ensures
            r.config is None,
    {
        AssemblyAIAdapter { config: None }
    }

    pub fn name(&self) -> (r: TranscriptionProvider)
        ensures
            r == TranscriptionProvider::AssemblyAI,
    {
        TranscriptionProvider::AssemblyAI
    }

    /// Everything is supported.
    pub fn capabilities(&self) -> (r: ProviderCapabilities)
        ensures
            r == (ProviderCapabilities {
                streaming: true,
                diarization: true,
                word_timestamps: true,
                language_detection: true,
                custom_vocabulary: true,
                summarization: true,
                sentiment_analysis: true,
                entity_detection: true,
                pii_redaction: true,
            }),
    {
        ProviderCapabilities {
            streaming: true,
            diarization: true,
            word_timestamps: true,
            language_detection: true,
            custom_vocabulary: true,
            summarization: true,
            sentiment_analysis: true,
            entity_detection: true,
            pii_redaction: true,
        }
    }

    /// Keeps the configuration; fails without a credential.
    pub fn initialize(&mut self, config: ProviderConfig) -> (r: Result<(), AdapterError>)
        ensures
            r is Ok <==> config.api_key@.len() > 0,
            r is Ok ==> final(self).config == Some(config),
            r is Err ==> *final(self) == *old(self),
    {
        match check_config(&config) {
            Ok(()) => {
                self.config = Some(config);
                Ok(())
            },
            Err(e) => Err(e),
        }
    }

    /// The batch request for a URL and canonical options: each set flag maps
    /// to its AssemblyAI field, and the expected speaker count is sent only
    /// with diarization.
    pub fn build_transcript_params(audio_url: String, options: Option<&TranscribeOptions>) -> (r: AssemblyAIParams)
        ensures
            r.audio_url == audio_url,
            options is None ==> ({
                &&& r.language_detection is None && r.speaker_labels is None
                &&& r.speakers_expected is None && r.keyterms_prompt is None
                &&& r.summarization is None && r.sentiment_analysis is None
                &&& r.entity_detection is None && r.redact_pii is None && r.webhook_url is None
            }),
            options matches Some(o) ==> ({
                &&& r.language_detection == (if o.language_detection == Some(true) { Some(true) } else { None::<bool> })
                &&& r.speaker_labels == (if o.diarization == Some(true) { Some(true) } else { None::<bool> })
                &&& r.speakers_expected == (if o.diarization == Some(true) { o.speakers_expected } else { None::<u32> })
                &&& (r.keyterms_prompt is Some <==> (o.custom_vocabulary is Some && o.custom_vocabulary->0@.len() > 0))
                &&& (r.keyterms_prompt is Some ==> r.keyterms_prompt->0@ == o.custom_vocabulary->0@)
                &&& r.summarization == (if o.summarization == Some(true) { Some(true) } else { None::<bool> })
                &&& r.sentiment_analysis == (if o.sentiment_analysis == Some(true) { Some(true) } else { None::<bool> })
                &&& r.entity_detection == (if o.entity_detection == Some(true) { Some(true) } else { None::<bool> })
                &&& r.redact_pii == (if o.pii_redaction == Some(true) { Some(true) } else { None::<bool> })
                &&& r.webhook_url == o.webhook_url
            }),
    {
        let mut params = AssemblyAIParams {
            audio_url,
            language_detection: None,
            speaker_labels: None,
            speakers_expected: None,
            keyterms_prompt: None,
            summarization: None,
            sentiment_analysis: None,
            entity_detection: None,
            redact_pii: None,
            webhook_url: None,
        };
        if let Some(opts) = options {
            params.language_detection = when_set(opts.language_detection);
            if opts.diarization == Some(true) {
                params.speaker_labels = Some(true);
                params.speakers_expected = opts.speakers_expected;
            }
            if let Some(vocab) = &opts.custom_vocabulary {
                if vocab.len() > 0 {
                    params.keyterms_prompt = Some(copy_texts(vocab));
                }
            }
            params.summarization = when_set(opts.summarization);
            params.sentiment_analysis = when_set(opts.sentiment_analysis);
            params.entity_detection = when_set(opts.entity_detection);
            params.redact_pii = when_set(opts.pii_redaction);
            params.webhook_url = copy_text(&opts.webhook_url);
        }
        params
    }

    /// The header that authenticates a stream: the bare key as
    /// `Authorization`.
    pub fn streaming_header(api_key: &str) -> (r: (String, String))
        ensures
            r.0@ == "Authorization"@,
            r.1@ == api_key@,
    {
        (owned("Authorization"), owned(api_key))
    }

    /// The streaming URL: the sample rate (16000 unless given) and, when an
    /// encoding is named, AssemblyAI's name of it. An encoding name that is
    /// unknown or that AssemblyAI does not stream is refused, naming the
    /// supported set; nothing stands in for it.
    pub fn build_streaming_url(options: &StreamingOptions) -> (r: Result<String, AdapterError>)
        ensures
            ({
                let name = match options.encoding {
                    Some(e) => Some(e@),
                    None => None,
                };
                match streaming_url(options.sample_rate, name) {
                    Some(url) => r is Ok && r->Ok_0@ == url,
                    None => r matches Err(AdapterError::NotSupported(m)) && m@
                        == crate::adapters::streaming::unsupported_encoding_message(
                        name->0,
                        "AssemblyAI"@,
                        STREAMING_ENCODINGS@,
                    ),
                }
            }),
    {
        let rate = match options.sample_rate {
            Some(r) => r,
            None => 16000,
        };
        let url = join(owned(STREAMING_URL), "?");
        let url = join(url, "sample_rate=");
        let digits_text = natural_text(rate as u128, false);
        let url = join(url, digits_text.as_str());
        match &options.encoding {
            Some(name) => {
                let token = match AudioEncoding::from_str(name.as_str()) {
                    Some(enc) => enc.to_assemblyai(),
                    None => None,
                };
                match token {
                    Some(t) => Ok(join(join(url, "&encoding="), t)),
                    None => Err(
                        crate::adapters::streaming::unsupported_encoding(
                            name.as_str(),
                            "AssemblyAI",
                            STREAMING_ENCODINGS,
                        ),
                    ),
                }
            },
            None => Ok(url),
        }
    }
}

/// A vendor word with millisecond times enters the canonical schema with
/// start = ms / 1000 and end = ms / 1000 seconds, in order.
pub proof fn lemma_milliseconds_become_seconds(w: AssemblyAIWord, u: AssemblyAIUtterance)
    requires
        w.start <= w.end,
        u.start <= u.end,
    ensures
        word_of(w).start.thousandths == w.start,
        word_of(w).end.thousandths == w.end,
        word_of(w).start.thousandths <= word_of(w).end.thousandths,
        forall|r: Utterance| #[trigger] utterance_matches(r, u) ==> r.start.thousandths == u.start
            && r.end.thousandths == u.end && r.start.thousandths <= r.end.thousandths,
{
}

/// End to end, a diarized batch job. A poller that has made no, one and two
/// fetches decides wait, wait and finish on fetches reporting queued,
/// processing and completed. The completed transcript, whose utterances
/// carry exactly two distinct speaker tags and whose words all carry a
/// speaker, normalizes to a successful, completed response with exactly two
/// distinct speakers, every word keeping its speaker.
pub proof fn lemma_diarized_job_end_to_end(
    p0: JobPoller,
    p1: JobPoller,
    p2: JobPoller,
    job: AssemblyAITranscript,
    raw: Option<String>,
    r: UnifiedTranscriptResponse,
    a: Seq<char>,
    b: Seq<char>,
)
    requires
        p0.made() == 0 && p1.made() == 1 && p2.made() == 2,
        p0.ceiling() == MAX_ATTEMPTS && p1.ceiling() == MAX_ATTEMPTS && p2.ceiling() == MAX_ATTEMPTS,
        p0.interval() == POLL_INTERVAL_MS && p1.interval() == POLL_INTERVAL_MS,
        job.status == AssemblyAIStatus::Completed,
        normalized(job, raw, r),
        job.utterances is Some,
        a != b,
        forall|k: int| 0 <= k < job.utterances->0@.len() ==> (#[trigger] job.utterances->0@[k]).speaker@ == a
            || job.utterances->0@[k].speaker@ == b,
        exists|k: int| 0 <= k < job.utterances->0@.len() && (#[trigger] job.utterances->0@[k]).speaker@ == a,
        exists|k: int| 0 <= k < job.utterances->0@.len() && (#[trigger] job.utterances->0@[k]).speaker@ == b,
        job.words is Some,
        forall|k: int| 0 <= k < job.words->0@.len() ==> (#[trigger] job.words->0@[k]).speaker is Some,
    ensures
        p0.decision(terminal(status_of(AssemblyAIStatus::Queued))) == (PollDecision::Wait { ms: POLL_INTERVAL_MS }),
        p1.decision(terminal(status_of(AssemblyAIStatus::Processing))) == (PollDecision::Wait {
            ms: POLL_INTERVAL_MS,
        }),
        p2.decision(terminal(status_of(AssemblyAIStatus::Completed))) == PollDecision::Finish,
        r.success,
        r.data->0.status == TranscriptionStatus::Completed,
        r.data->0.speakers is Some,
        r.data->0.speakers->0@.len() == 2,
        no_repeats(r.data->0.speakers->0@.map_values(|s: Speaker| s.id)),
        r.data->0.words is Some,
        forall|i: int| 0 <= i < r.data->0.words->0@.len() ==> (#[trigger] r.data->0.words->0@[i]).speaker is Some,
{
    let us = job.utterances->0@;
    let tags = us.map_values(|u: AssemblyAIUtterance| u.speaker);
    let ka = choose|k: int| 0 <= k < us.len() && (#[trigger] us[k]).speaker@ == a;
    let kb = choose|k: int| 0 <= k < us.len() && (#[trigger] us[k]).speaker@ == b;
    let d = r.data->0;
    let ids = d.speakers->0@.map_values(|s: Speaker| s.id);
    assert(tags[ka]@ == a && tags[kb]@ == b);
    assert(holds_text(ids, tags[ka]@));
    assert(holds_text(ids, tags[kb]@));
    let ia = choose|i: int| 0 <= i < ids.len() && (#[trigger] ids[i])@ == tags[ka]@;
    let ib = choose|i: int| 0 <= i < ids.len() && (#[trigger] ids[i])@ == tags[kb]@;
    assert(ia != ib);
    assert forall|i: int| 0 <= i < ids.len() implies (#[trigger] ids[i])@ == a || ids[i]@ == b by {
        assert(holds_text(tags, ids[i]@));
        let j = choose|j: int| 0 <= j < tags.len() && (#[trigger] tags[j])@ == ids[i]@;
        assert(tags[j] == us[j].speaker);
    }
    if ids.len() >= 3 {
        assert(ids[0]@ == a || ids[0]@ == b);
        assert(ids[1]@ == a || ids[1]@ == b);
        assert(ids[2]@ == a || ids[2]@ == b);
        assert(ids[0]@ != ids[1]@ && ids[0]@ != ids[2]@ && ids[1]@ != ids[2]@);
    }
    assert(d.speakers->0@.len() == ids.len());
    assert forall|i: int| 0 <= i < d.words->0@.len() implies (#[trigger] d.words->0@[i]).speaker is Some by {
        assert(d.words->0@[i] == word_of(job.words->0@[i]));
    }
}

} // verus!
