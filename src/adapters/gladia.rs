//! Gladia: request mapping, response and streaming-message normalization.
//! Gladia reports times in seconds.
use vstd::prelude::*;
use crate::adapters::streaming::{error_event, stream_encoding_from_name, AudioEncoding};
use crate::adapters::{check_config, AdapterError, ProviderConfig};
use crate::speakers::{distinct_tags, holds_text, labelled_speakers, no_repeats};
use crate::text::{decimal, integer_text, lower_of, owned, same_text};
use crate::types::{
    copy_text, Confidence, ProviderCapabilities, Seconds, Speaker, StreamEvent, StreamEventType,
    StreamingOptions, TranscribeOptions, TranscriptionData, TranscriptionError, TranscriptionProvider,
    TranscriptionStatus, UnifiedTranscriptResponse, Utterance, Word,
};

verus! {

/// A word, in a streaming message or a batch result.
#[derive(Debug, Clone, PartialEq, Eq)]
pub struct GladiaWord {
    pub word: String,
    pub start: Seconds,
    pub end: Seconds,
    pub confidence: Confidence,
}

/// An utterance, in a streaming message or a batch result.
#[derive(Debug, Clone, PartialEq, Eq)]
pub struct GladiaUtterance {
    pub text: String,
    pub start: Seconds,
    pub end: Seconds,
    pub speaker: Option<i64>,
    pub confidence: Confidence,
    pub words: Vec<GladiaWord>,
}

/// A streaming message, by its tag.
#[derive(Debug, Clone, PartialEq, Eq)]
pub enum GladiaStreamMessage {
    /// An interim or final transcript.
    Transcript { is_final: bool, utterance: GladiaUtterance },
    /// A completed utterance.
    Utterance { utterance: GladiaUtterance },
    /// Session metadata; the payload is the frame's JSON text.
    Metadata { payload: String },
    /// A vendor error.
    Error { message: String },
}

/// Job status as Gladia reports it.
#[derive(Debug, Clone, Copy, PartialEq, Eq, Structural)]
pub enum GladiaStatus {
    Queued,
    Processing,
    Done,
    Error,
}

/// The transcription block of a batch result.
#[derive(Debug, Clone, PartialEq, Eq)]
pub struct GladiaTranscription {
    pub full_transcript: String,
    pub languages: Vec<String>,
    pub utterances: Vec<GladiaUtterance>,
}

/// The result block of a batch job.
#[derive(Debug, Clone, PartialEq, Eq)]
pub struct GladiaResult {
    pub audio_duration: Seconds,
    pub transcription: Option<GladiaTranscription>,
    pub summary: Option<String>,
}

/// A batch job as Gladia returns it.
#[derive(Debug, Clone, PartialEq, Eq)]
pub struct GladiaJob {
    pub id: String,
    pub status: GladiaStatus,
    pub error_code: Option<u16>,
    pub result: Option<GladiaResult>,
    /// Caller metadata, as JSON text.
    pub custom_metadata: Option<String>,
    pub created_at: String,
    pub completed_at: Option<String>,
}

/// The batch request, in Gladia's fields.
#[derive(Debug, Clone, PartialEq, Eq)]
pub struct GladiaRequest {
    pub audio_url: String,
    /// Present when a language or language detection was asked for; holds
    /// the code-switching flag.
    pub language_config: Option<Option<bool>>,
    pub diarization: Option<bool>,
    pub number_of_speakers: Option<u32>,
    pub custom_vocabulary: Option<Vec<String>>,
    pub summarization: Option<bool>,
    pub sentiment_analysis: Option<bool>,
    pub named_entity_recognition: Option<bool>,
    pub callback_url: Option<String>,
    pub custom_metadata: Option<String>,
}

/// The request that opens a streaming session.
#[derive(Debug, Clone, PartialEq, Eq)]
pub struct GladiaStreamingRequest {
    pub sample_rate: Option<u32>,
    pub encoding: Option<String>,
    pub bit_depth: Option<u8>,
    pub channels: Option<u8>,
    pub model: Option<String>,
}

/// The control message that ends a Gladia stream.
pub const STOP_RECORDING_MESSAGE: &'static str = "{\"type\":\"stop_recording\"}";

/// The Gladia adapter: holds its configuration once initialized.
#[derive(Debug, Clone, PartialEq, Eq)]
pub struct GladiaAdapter {
    pub config: Option<ProviderConfig>,
}

/// The decimal text of an optional speaker number.
pub open spec fn speaker_text(s: Option<i64>) -> Option<Seq<char>> {
    match s {
        Some(n) => Some(decimal(n as int)),
        None => None,
    }
}

/// An optional text, as characters.
pub open spec fn chars_of(s: Option<String>) -> Option<Seq<char>> {
    match s {
        Some(t) => Some(t@),
        None => None,
    }
}

/// A canonical word matches a Gladia word said by `speaker`.
pub open spec fn word_matches(w: Word, g: GladiaWord, speaker: Option<Seq<char>>) -> bool {
    &&& w.text == g.word
    &&& w.start == g.start
    &&& w.end == g.end
    &&& w.confidence == Some(g.confidence)
    &&& chars_of(w.speaker) == speaker
}

/// The words match, one for one, each said by `speaker`.
pub open spec fn words_match(ws: Seq<Word>, gs: Seq<GladiaWord>, speaker: Option<Seq<char>>) -> bool {
    &&& ws.len() == gs.len()
    &&& forall|i: int| 0 <= i < ws.len() ==> word_matches(#[trigger] ws[i], gs[i], speaker)
}

/// A canonical utterance of a batch result matches a Gladia utterance;
/// its words carry no speaker.
pub open spec fn utterance_matches(u: Utterance, g: GladiaUtterance) -> bool {
    &&& u.text == g.text
    &&& u.start == g.start
    &&& u.end == g.end
    &&& u.confidence == Some(g.confidence)
    &&& chars_of(u.speaker) == speaker_text(g.speaker)
    &&& u.words is Some
    &&& words_match(u.words->0@, g.words@, None)
}

/// The canonical status of a Gladia status.
pub open spec fn status_of(s: GladiaStatus) -> TranscriptionStatus {
    match s {
        GladiaStatus::Queued => TranscriptionStatus::Queued,
        GladiaStatus::Processing => TranscriptionStatus::Processing,
        GladiaStatus::Done => TranscriptionStatus::Completed,
        GladiaStatus::Error => TranscriptionStatus::Error,
    }
}

/// All words of the utterances, in order, each with its utterance's speaker.
pub open spec fn all_words(us: Seq<GladiaUtterance>) -> Seq<(GladiaWord, Option<i64>)>
    decreases us.len(),
{
    if us.len() == 0 {
        Seq::empty()
    } else {
        all_words(us.drop_last()) + us.last().words@.map_values(
            |w: GladiaWord| (w, us.last().speaker),
        )
    }
}

/// The canonical status of a job status.
pub fn canonical_status(s: GladiaStatus) -> (r: TranscriptionStatus)
    ensures
        r == status_of(s),
{
    match s {
        GladiaStatus::Queued => TranscriptionStatus::Queued,
        GladiaStatus::Processing => TranscriptionStatus::Processing,
        GladiaStatus::Done => TranscriptionStatus::Completed,
        GladiaStatus::Error => TranscriptionStatus::Error,
    }
}

fn speaker_of(s: Option<i64>) -> (r: Option<String>)
    ensures
        chars_of(r) == speaker_text(s),
{
    match s {
        Some(n) => Some(integer_text(n)),
        None => None,
    }
}

/// Maps words, each said by `speaker`.
pub fn map_words(ws: &Vec<GladiaWord>, speaker: &Option<String>) -> (r: Vec<Word>)
    ensures
        words_match(r@, ws@, chars_of(*speaker)),
{
    let mut out: Vec<Word> = Vec::new();
    let mut i: usize = 0;
    while i < ws.len()
        invariant
            0 <= i <= ws@.len(),
            out@.len() == i,
            forall|k: int| 0 <= k < i ==> word_matches(#[trigger] out@[k], ws@[k], chars_of(*speaker)),
        decreases ws@.len() - i,
    {
        let w = &ws[i];
        out.push(Word {
            text: w.word.clone(),
            start: w.start,
            end: w.end,
            confidence: Some(w.confidence),
            speaker: copy_text(speaker),
        });
        i += 1;
    }
    out
}

/// Maps a batch utterance, words included.
pub fn map_utterance(u: &GladiaUtterance) -> (r: Utterance)
    ensures
        utterance_matches(r, *u),
{
    Utterance {
        text: u.text.clone(),
        start: u.start,
        end: u.end,
        confidence: Some(u.confidence),
        speaker: speaker_of(u.speaker),
        words: Some(map_words(&u.words, &None)),
    }
}

/// Maps the utterances of a batch result.
pub fn map_utterances(us: &Vec<GladiaUtterance>) -> (r: Vec<Utterance>)
    ensures
        r@.len() == us@.len(),
        forall|i: int| 0 <= i < r@.len() ==> utterance_matches(#[trigger] r@[i], us@[i]),
{
    let mut out: Vec<Utterance> = Vec::new();
    let mut i: usize = 0;
    while i < us.len()
        invariant
            0 <= i <= us@.len(),
            out@.len() == i,
            forall|k: int| 0 <= k < i ==> utterance_matches(#[trigger] out@[k], us@[k]),
        decreases us@.len() - i,
    {
        out.push(map_utterance(&us[i]));
        i += 1;
    }
    out
}

/// Some utterance has a speaker whose text is `t`.
pub open spec fn has_speaker(us: Seq<GladiaUtterance>, t: Seq<char>) -> bool {
    exists|k: int| 0 <= k < us.len() && #[trigger] speaker_text(us[k].speaker) == Some(t)
}

/// The distinct speakers of the utterances, labelled; none when no
/// utterance has a speaker.
pub fn extract_speakers(us: &Vec<GladiaUtterance>) -> (r: Option<Vec<Speaker>>)
    ensures
        r is None <==> forall|k: int| 0 <= k < us@.len() ==> (#[trigger] us@[k]).speaker is None,
        r is Some ==> ({
            let ids = r->0@.map_values(|s: Speaker| s.id);
            &&& no_repeats(ids)
            &&& forall|i: int| 0 <= i < ids.len() ==> has_speaker(us@, (#[trigger] ids[i])@)
            &&& forall|k: int| 0 <= k < us@.len() && (#[trigger] us@[k]).speaker is Some
                ==> holds_text(ids, speaker_text(us@[k].speaker)->0)
        }),
{
    let mut tags: Vec<String> = Vec::new();
    let mut i: usize = 0;
    while i < us.len()
        invariant
            0 <= i <= us@.len(),
            forall|j: int| 0 <= j < tags@.len() ==> has_speaker(us@, (#[trigger] tags@[j])@),
            forall|k: int| 0 <= k < i && (#[trigger] us@[k]).speaker is Some
                ==> holds_text(tags@, speaker_text(us@[k].speaker)->0),
            tags@.len() == 0 <==> forall|k: int| 0 <= k < i ==> (#[trigger] us@[k]).speaker is None,
        decreases us@.len() - i,
    {
        let ghost before = tags@;
        if let Some(n) = us[i].speaker {
            tags.push(integer_text(n));
            proof {
                assert(speaker_text(us@[i as int].speaker) == Some(tags@[before.len() as int]@));
            }
        }
        proof {
            assert forall|j: int| 0 <= j < tags@.len() implies has_speaker(us@, (#[trigger] tags@[j])@) by {
                if j < before.len() {
                    assert(tags@[j] == before[j]);
                } else {
                    assert(speaker_text(us@[i as int].speaker) == Some(tags@[j]@));
                }
            }
            assert forall|k: int| 0 <= k < i + 1 && (#[trigger] us@[k]).speaker is Some
                implies holds_text(tags@, speaker_text(us@[k].speaker)->0) by {
                if k < i {
                    let j = choose|j: int| 0 <= j < before.len() && (#[trigger] before[j])@ == speaker_text(us@[k].speaker)->0;
                    assert(tags@[j] == before[j]);
                } else {
                    assert(tags@[before.len() as int]@ == speaker_text(us@[k].speaker)->0);
                }
            }
        }
        i += 1;
    }
    let ids = distinct_tags(&tags);
    if ids.len() == 0 {
        proof {
            if tags@.len() > 0 {
                assert(holds_text(ids@, tags@[0]@));
            }
        }
        return None;
    }
    proof {
        if tags@.len() == 0 {
            assert(holds_text(tags@, ids@[0]@));
        }
    }
    let speakers = labelled_speakers(ids);
    proof {
        let v = speakers@.map_values(|s: Speaker| s.id);
        assert(v =~= ids@);
        assert forall|i: int| 0 <= i < v.len() implies has_speaker(us@, (#[trigger] v[i])@) by {
            assert(holds_text(tags@, ids@[i]@));
            let j = choose|j: int| 0 <= j < tags@.len() && (#[trigger] tags@[j])@ == ids@[i]@;
            assert(has_speaker(us@, tags@[j]@));
        }
        assert forall|k: int| 0 <= k < us@.len() && (#[trigger] us@[k]).speaker is Some
            implies holds_text(v, speaker_text(us@[k].speaker)->0) by {
            let j = choose|j: int| 0 <= j < tags@.len() && (#[trigger] tags@[j])@ == speaker_text(us@[k].speaker)->0;
            assert(holds_text(ids@, tags@[j]@));
        }
    }
    Some(speakers)
}

/// All words of the utterances, each with its utterance's speaker; none
/// when there are no words.
pub fn extract_words(us: &Vec<GladiaUtterance>) -> (r: Option<Vec<Word>>)
    ensures
        r is None <==> all_words(us@).len() == 0,
        r is Some ==> r->0@.len() == all_words(us@).len() && forall|i: int| 0 <= i < r->0@.len()
            ==> word_matches(#[trigger] r->0@[i], all_words(us@)[i].0, speaker_text(all_words(us@)[i].1)),
{
    let mut out: Vec<Word> = Vec::new();
    let mut i: usize = 0;
    while i < us.len()
        invariant
            0 <= i <= us@.len(),
            out@.len() == all_words(us@.subrange(0, i as int)).len(),
            forall|k: int| 0 <= k < out@.len() ==> word_matches(
                #[trigger] out@[k],
                all_words(us@.subrange(0, i as int))[k].0,
                speaker_text(all_words(us@.subrange(0, i as int))[k].1),
            ),
        decreases us@.len() - i,
    {
        let u = &us[i];
        let speaker = speaker_of(u.speaker);
        let mut ws = map_words(&u.words, &speaker);
        let ghost before = out@;
        let ghost prev = all_words(us@.subrange(0, i as int));
        out.append(&mut ws);
        proof {
            let next = us@.subrange(0, i + 1);
            assert(next.drop_last() =~= us@.subrange(0, i as int));
            assert(next.last() == us@[i as int]);
            let tail = u.words@.map_values(|w: GladiaWord| (w, u.speaker));
            assert(all_words(next) == prev + tail);
            assert forall|k: int| 0 <= k < out@.len() implies word_matches(
                #[trigger] out@[k],
                all_words(next)[k].0,
                speaker_text(all_words(next)[k].1),
            ) by {
                if k < before.len() {
                    assert(out@[k] == before[k]);
                    assert(all_words(next)[k] == prev[k]);
                } else {
                    assert(all_words(next)[k] == tail[k - before.len()]);
                }
            }
        }
        i += 1;
    }
    assert(us@.subrange(0, us@.len() as int) =~= us@);
    if out.len() == 0 {
        None
    } else {
        Some(out)
    }
}

/// The canonical form of a batch job. An error status gives a failed
/// response with the vendor's error code; otherwise the transcription's
/// text, first language, distinct speakers, words, utterances, summary and
/// duration are carried over, with the job's metadata and timestamps.
pub fn normalize_response(response: GladiaJob, raw: Option<String>) -> (r: UnifiedTranscriptResponse)
    ensures
        r.well_formed(),
        r.provider == TranscriptionProvider::Gladia,
        r.raw == raw,
        response.status == GladiaStatus::Error ==> ({
            let e = r.error->0;
            &&& !r.success
            &&& e.code@ == "TRANSCRIPTION_ERROR"@
            &&& e.message@ == "Transcription failed"@
            &&& e.status_code == response.error_code
        }),
        response.status != GladiaStatus::Error ==> ({
            let d = r.data->0;
            &&& r.success
            &&& d.id == response.id
            &&& d.status == status_of(response.status)
            &&& d.metadata == response.custom_metadata
            &&& d.created_at == Some(response.created_at)
            &&& d.completed_at == response.completed_at
            &&& d.confidence is None
            &&& d.duration == (match response.result { Some(res) => Some(res.audio_duration), None => None })
            &&& (response.result is Some && response.result->0.transcription is Some ==> ({
                let res = response.result->0;
                let t = res.transcription->0;
                &&& d.text == t.full_transcript
                &&& d.language == (if t.languages@.len() > 0 { Some(t.languages@[0]) } else { None })
                &&& d.summary == res.summary
                &&& d.utterances is Some
                &&& d.utterances->0@.len() == t.utterances@.len()
                &&& forall|i: int| 0 <= i < t.utterances@.len() ==> utterance_matches(
                    #[trigger] d.utterances->0@[i],
                    t.utterances@[i],
                )
                &&& (d.words is None <==> all_words(t.utterances@).len() == 0)
                &&& (d.words is Some ==> d.words->0@.len() == all_words(t.utterances@).len() && forall|i: int|
                    0 <= i < d.words->0@.len() ==> word_matches(
                    #[trigger] d.words->0@[i],
                    all_words(t.utterances@)[i].0,
                    speaker_text(all_words(t.utterances@)[i].1),
                ))
                &&& (d.speakers is None <==> forall|k: int| 0 <= k < t.utterances@.len()
                    ==> (#[trigger] t.utterances@[k]).speaker is None)
                &&& (d.speakers is Some ==> ({
                    let ids = d.speakers->0@.map_values(|s: Speaker| s.id);
                    &&& no_repeats(ids)
                    &&& forall|i: int| 0 <= i < ids.len() ==> has_speaker(t.utterances@, (#[trigger] ids[i])@)
                    &&& forall|k: int| 0 <= k < t.utterances@.len() && (#[trigger] t.utterances@[k]).speaker is Some
                        ==> holds_text(ids, speaker_text(t.utterances@[k].speaker)->0)
                }))
            }))
            &&& (!(response.result is Some && response.result->0.transcription is Some) ==> ({
                &&& d.text@.len() == 0
                &&& d.language is None && d.speakers is None && d.words is None
                &&& d.utterances is None && d.summary is None
            }))
        }),
{
    if response.status == GladiaStatus::Error {
        return UnifiedTranscriptResponse {
            success: false,
            provider: TranscriptionProvider::Gladia,
            data: None,
            error: Some(TranscriptionError {
                code: owned("TRANSCRIPTION_ERROR"),
                message: owned("Transcription failed"),
                details: None,
                status_code: response.error_code,
            }),
            raw,
        };
    }
    let status = match response.status {
        GladiaStatus::Queued => TranscriptionStatus::Queued,
        GladiaStatus::Processing => TranscriptionStatus::Processing,
        GladiaStatus::Done => TranscriptionStatus::Completed,
        GladiaStatus::Error => TranscriptionStatus::Error,
    };
    let mut text = String::new();
    let mut language: Option<String> = None;
    let mut speakers: Option<Vec<Speaker>> = None;
    let mut words: Option<Vec<Word>> = None;
    let mut utterances: Option<Vec<Utterance>> = None;
    let mut summary: Option<String> = None;
    let mut duration: Option<Seconds> = None;
    if let Some(result) = &response.result {
        duration = Some(result.audio_duration);
        if let Some(t) = &result.transcription {
            text = t.full_transcript.clone();
            language = if t.languages.len() > 0 {
                Some(t.languages[0].clone())
            } else {
                None
            };
            speakers = extract_speakers(&t.utterances);
            words = extract_words(&t.utterances);
            utterances = Some(map_utterances(&t.utterances));
            summary = copy_text(&result.summary);
        }
    }
    UnifiedTranscriptResponse {
        success: true,
        provider: TranscriptionProvider::Gladia,
        data: Some(TranscriptionData {
            id: response.id,
            text,
            confidence: None,
            status,
            language,
            duration,
            speakers,
            words,
            utterances,
            summary,
            metadata: response.custom_metadata,
            created_at: Some(response.created_at),
            completed_at: response.completed_at,
        }),
        error: None,
        raw,
    }
}

/// The canonical event of a streaming message.
pub open spec fn stream_event_of(msg: GladiaStreamMessage, r: StreamEvent) -> bool {
    &&& (r.well_formed())
    &&& (msg matches GladiaStreamMessage::Transcript { is_final, utterance } ==> ({
        &&& r.event_type == StreamEventType::Transcript
        &&& r.text == Some(utterance.text)
        &&& r.is_final == Some(is_final)
        &&& r.utterance is None
        &&& chars_of(r.speaker) == speaker_text(utterance.speaker)
        &&& r.confidence == Some(utterance.confidence)
        &&& (r.words is Some <==> utterance.words@.len() > 0)
        &&& (r.words is Some ==> words_match(r.words->0@, utterance.words@, speaker_text(utterance.speaker)))
    }))
    &&& (msg matches GladiaStreamMessage::Utterance { utterance } ==> ({
        let u = r.utterance->0;
        &&& r.event_type == StreamEventType::Utterance
        &&& r.text == Some(utterance.text)
        &&& r.is_final == Some(true)
        &&& r.words is None
        &&& chars_of(r.speaker) == speaker_text(utterance.speaker)
        &&& r.confidence == Some(utterance.confidence)
        &&& u.text == utterance.text
        &&& u.start == utterance.start
        &&& u.end == utterance.end
        &&& chars_of(u.speaker) == speaker_text(utterance.speaker)
        &&& u.confidence == Some(utterance.confidence)
        &&& (u.words is Some <==> utterance.words@.len() > 0)
        &&& (u.words is Some ==> words_match(u.words->0@, utterance.words@, speaker_text(utterance.speaker)))
    }))
    &&& (msg matches GladiaStreamMessage::Metadata { payload } ==> r.event_type == StreamEventType::Metadata
        && r.text == Some(payload))
    &&& (msg matches GladiaStreamMessage::Error { message } ==> r.event_type == StreamEventType::Error
        && r.error is Some && r.error->0.code@ == "PROVIDER_ERROR"@ && r.error->0.message == message
        && r.error->0.details is None && r.error->0.status_code is None)
}

/// The canonical event of a streaming message: a transcript keeps the
/// vendor's finality flag; an utterance is final and carries the full
/// utterance with its words; metadata passes its payload on; an error frame
/// gives code `PROVIDER_ERROR` with the vendor's message.
pub fn parse_streaming_message(msg: GladiaStreamMessage) -> (r: StreamEvent)
    ensures
        stream_event_of(msg, r),
{
    match msg {
        GladiaStreamMessage::Transcript { is_final, utterance } => {
            let speaker = speaker_of(utterance.speaker);
            let ws = map_words(&utterance.words, &speaker);
            StreamEvent {
                event_type: StreamEventType::Transcript,
                text: Some(utterance.text),
                is_final: Some(is_final),
                utterance: None,
                words: if ws.len() == 0 {
                    None
                } else {
                    Some(ws)
                },
                speaker,
                confidence: Some(utterance.confidence),
                error: None,
                data: None,
            }
        },
        GladiaStreamMessage::Utterance { utterance } => {
            let speaker = speaker_of(utterance.speaker);
            let ws = map_words(&utterance.words, &speaker);
            let text = utterance.text.clone();
            StreamEvent {
                event_type: StreamEventType::Utterance,
                text: Some(text),
                is_final: Some(true),
                utterance: Some(Utterance {
                    text: utterance.text,
                    start: utterance.start,
                    end: utterance.end,
                    speaker: copy_text(&speaker),
                    confidence: Some(utterance.confidence),
                    words: if ws.len() == 0 {
                        None
                    } else {
                        Some(ws)
                    },
                }),
                words: None,
                speaker,
                confidence: Some(utterance.confidence),
                error: None,
                data: None,
            }
        },
        GladiaStreamMessage::Metadata { payload } => StreamEvent {
            event_type: StreamEventType::Metadata,
            text: Some(payload),
            is_final: None,
            utterance: None,
            words: None,
            speaker: None,
            confidence: None,
            error: None,
            data: None,
        },
        GladiaStreamMessage::Error { message } => error_event("PROVIDER_ERROR", message),
    }
}

fn copy_texts(v: &Vec<String>) -> (r: Vec<String>)
    ensures
        r@ == v@,
{
    let mut out: Vec<String> = Vec::new();
    let mut i: usize = 0;
    while i < v.len()
        invariant
            0 <= i <= v@.len(),
            out@ == v@.subrange(0, i as int),
        decreases v@.len() - i,
    {
        out.push(v[i].clone());
        i += 1;
        assert(v@.subrange(0, i as int) == v@.subrange(0, i - 1).push(v@[i - 1]));
    }
    assert(v@.subrange(0, v@.len() as int) == v@);
    out
}

/// Gladia's sample rate for a requested one: a supported rate is kept,
/// any other becomes 16000.
pub open spec fn gladia_rate(r: u32) -> u32 {
    if r == 8000 || r == 16000 || r == 32000 || r == 44100 || r == 48000 {
        r
    } else {
        16000
    }
}

/// Gladia's encoding token for a parsed encoding; none for those Gladia
/// does not stream.
pub open spec fn gladia_token(e: AudioEncoding) -> Option<Seq<char>> {
    match e {
        AudioEncoding::Pcm16 => Some("wav/pcm"@),
        AudioEncoding::Mulaw => Some("wav/ulaw"@),
        AudioEncoding::Alaw => Some("wav/alaw"@),
        _ => None,
    }
}

/// The encodings Gladia streams, as named in refusals.
pub const STREAMING_ENCODINGS: &'static str = "linear16, mulaw, alaw";

impl GladiaAdapter {
    pub fn new() -> (r: GladiaAdapter)
        ensures
            r.config is None,
    {
        GladiaAdapter { config: None }
    }

    pub fn name(&self) -> (r: TranscriptionProvider)
        ensures
            r == TranscriptionProvider::Gladia,
    {
        TranscriptionProvider::Gladia
    }

    /// Everything but PII redaction.
    pub fn capabilities(&self) -> (r: ProviderCapabilities)
        ensures
            r == (ProviderCapabilities {
                streaming: true,
                diarization: true,
                word_timestamps: true,
                language_detection: true,
                custom_vocabulary: true,
                summarization: true,
                sentiment_analysis: true,
                entity_detection: true,
                pii_redaction: false,
            }),
    {
        ProviderCapabilities {
            streaming: true,
            diarization: true,
            word_timestamps: true,
            language_detection: true,
            custom_vocabulary: true,
            summarization: true,
            sentiment_analysis: true,
            entity_detection: true,
            pii_redaction: false,
        }
    }

    /// Keeps the configuration; fails without a credential.
    pub fn initialize(&mut self, config: ProviderConfig) -> (r: Result<(), AdapterError>)
        ensures
            r is Ok <==> config.api_key@.len() > 0,
            r is Ok ==> final(self).config == Some(config),
            r is Err ==> *final(self) == *old(self),
    {
        match check_config(&config) {
            Ok(()) => {
                self.config = Some(config);
                Ok(())
            },
            Err(e) => Err(e),
        }
    }

    /// The batch request for a URL and canonical options: each set flag maps
    /// to its Gladia field, the speaker count goes only with diarization, a
    /// non-empty vocabulary is sent, and a webhook becomes the callback.
    pub fn build_transcription_request(audio_url: String, options: Option<&TranscribeOptions>) -> (r: GladiaRequest)
        ensures
            r.audio_url == audio_url,
            options is None ==> ({
                &&& r.language_config is None && r.diarization is None && r.number_of_speakers is None
                &&& r.custom_vocabulary is None && r.summarization is None && r.sentiment_analysis is None
                &&& r.named_entity_recognition is None && r.callback_url is None && r.custom_metadata is None
            }),
            options matches Some(o) ==> ({
                &&& (r.language_config is Some <==> (o.language is Some || o.language_detection is Some))
                &&& (r.language_config is Some ==> r.language_config->0 == (if o.language_detection
                    == Some(true) { Some(true) } else { None::<bool> }))
                &&& r.diarization == (if o.diarization == Some(true) { Some(true) } else { None::<bool> })
                &&& r.number_of_speakers == (if o.diarization == Some(true) { o.speakers_expected } else { None::<u32> })
                &&& (r.custom_vocabulary is Some <==> (o.custom_vocabulary is Some && o.custom_vocabulary->0@.len() > 0))
                &&& (r.custom_vocabulary is Some ==> r.custom_vocabulary->0@ == o.custom_vocabulary->0@)
                &&& r.summarization == (if o.summarization == Some(true) { Some(true) } else { None::<bool> })
                &&& r.sentiment_analysis == (if o.sentiment_analysis == Some(true) { Some(true) } else { None::<bool> })
                &&& r.named_entity_recognition == (if o.entity_detection == Some(true) { Some(true) } else { None::<bool> })
                &&& r.callback_url == o.webhook_url
                &&& r.custom_metadata == o.metadata
            }),
    {
        let mut request = GladiaRequest {
            audio_url,
            language_config: None,
            diarization: None,
            number_of_speakers: None,
            custom_vocabulary: None,
            summarization: None,
            sentiment_analysis: None,
            named_entity_recognition: None,
            callback_url: None,
            custom_metadata: None,
        };
        if let Some(o) = options {
            if o.language.is_some() || o.language_detection.is_some() {
                request.language_config = Some(
                    if o.language_detection == Some(true) {
                        Some(true)
                    } else {
                        None
                    },
                );
            }
            if o.diarization == Some(true) {
                request.diarization = Some(true);
                request.number_of_speakers = o.speakers_expected;
            }
            if let Some(vocab) = &o.custom_vocabulary {
                if vocab.len() > 0 {
                    request.custom_vocabulary = Some(copy_texts(vocab));
                }
            }
            if o.summarization == Some(true) {
                request.summarization = Some(true);
            }
            if o.sentiment_analysis == Some(true) {
                request.sentiment_analysis = Some(true);
            }
            if o.entity_detection == Some(true) {
                request.named_entity_recognition = Some(true);
            }
            request.callback_url = copy_text(&o.webhook_url);
            request.custom_metadata = copy_text(&o.metadata);
        }
        request
    }

    /// The request that opens a stream: a supported sample rate (else 16000),
    /// the encoding token with bit depth 16 for PCM, the channel count, and
    /// the model when it is `solaria-1`. An encoding name that is unknown or
    /// that Gladia does not stream is refused, naming the supported set;
    /// nothing stands in for it.
    pub fn build_streaming_request(options: &StreamingOptions) -> (r: Result<GladiaStreamingRequest, AdapterError>)
        ensures
            ({
                let parsed = match options.encoding {
                    Some(e) => stream_encoding_from_name(lower_of(e@)),
                    None => None,
                };
                let refused = options.encoding is Some && (parsed is None || gladia_token(parsed->0) is None);
                &&& refused ==> (r matches Err(AdapterError::NotSupported(m)) && m@
                    == crate::adapters::streaming::unsupported_encoding_message(
                    options.encoding->0@,
                    "Gladia"@,
                    STREAMING_ENCODINGS@,
                ))
                &&& !refused ==> (r matches Ok(req) && req.sample_rate == (match options.sample_rate {
                    Some(x) => Some(gladia_rate(x)),
                    None => None,
                }) && req.channels == options.channels && (req.model is Some <==> (options.model is Some
                    && options.model->0@ == "solaria-1"@)) && (req.model is Some ==> req.model->0@ == "solaria-1"@)
                    && (req.encoding is Some <==> options.encoding is Some) && (req.encoding is Some
                    ==> req.encoding->0@ == gladia_token(parsed->0)->0) && req.bit_depth == (if parsed == Some(
                    AudioEncoding::Pcm16,
                ) { Some(16u8) } else { None::<u8> }))
            }),
    {
        let sample_rate = match options.sample_rate {
            Some(x) => Some(
                if x == 8000 || x == 16000 || x == 32000 || x == 44100 || x == 48000 {
                    x
                } else {
                    16000
                },
            ),
            None => None,
        };
        let mut encoding: Option<String> = None;
        let mut bit_depth: Option<u8> = None;
        if let Some(name) = &options.encoding {
            let token = match AudioEncoding::from_str(name.as_str()) {
                Some(AudioEncoding::Pcm16) => Some(("wav/pcm", true)),
                Some(AudioEncoding::Mulaw) => Some(("wav/ulaw", false)),
                Some(AudioEncoding::Alaw) => Some(("wav/alaw", false)),
                _ => None,
            };
            match token {
                Some((t, pcm)) => {
                    encoding = Some(owned(t));
                    if pcm {
                        bit_depth = Some(16);
                    }
                },
                None => {
                    return Err(
                        crate::adapters::streaming::unsupported_encoding(name.as_str(), "Gladia", STREAMING_ENCODINGS),
                    );
                },
            }
        }
        let model = match &options.model {
            Some(m) => if same_text(m.as_str(), "solaria-1") {
                Some(owned("solaria-1"))
            } else {
                None
            },
            None => None,
        };
        Ok(GladiaStreamingRequest { sample_rate, encoding, bit_depth, channels: options.channels, model })
    }
}

} // verus!
