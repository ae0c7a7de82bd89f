//! Deepgram: request mapping, response and streaming-message normalization.
//! Deepgram answers batch requests inline and reports times in seconds.
use vstd::prelude::*;
use crate::adapters::streaming::{deepgram_encoding, stream_encoding_from_name, AudioEncoding};
use crate::adapters::{check_config, AdapterError, ProviderConfig};
use crate::speakers::{labelled_speakers, no_repeats};
use crate::text::{decimal, digits, integer_text, join, lower_of, natural_text, owned};
use crate::types::{
    copy_text, Confidence, ProviderCapabilities, Seconds, Speaker, StreamEvent, StreamEventType,
    StreamingOptions, TranscribeOptions, TranscriptionData, TranscriptionProvider, TranscriptionStatus,
    UnifiedTranscriptResponse, Utterance, Word,
};

verus! {

/// A word of a streaming result.
#[derive(Debug, Clone, PartialEq, Eq)]
pub struct DeepgramStreamWord {
    pub word: String,
    pub start: Seconds,
    pub end: Seconds,
    pub confidence: Confidence,
    pub speaker: Option<i64>,
}

/// One alternative of a streaming result.
#[derive(Debug, Clone, PartialEq, Eq)]
pub struct DeepgramAlternative {
    pub transcript: String,
    pub confidence: Confidence,
    pub words: Option<Vec<DeepgramStreamWord>>,
}

/// A streaming message, by its tag.
#[derive(Debug, Clone, PartialEq, Eq)]
pub enum DeepgramStreamMessage {
    /// Transcription results of the first channel.
    Results { is_final: bool, alternatives: Vec<DeepgramAlternative> },
    /// The end of an utterance; the payload is the frame's JSON text.
    UtteranceEnd { payload: String },
    /// Session metadata; the payload is the frame's JSON text.
    Metadata { payload: String },
}

/// A word of a batch response.
#[derive(Debug, Clone, PartialEq, Eq)]
pub struct DeepgramWord {
    pub word: Option<String>,
    pub start: Option<Seconds>,
    pub end: Option<Seconds>,
    pub confidence: Option<Confidence>,
    pub speaker: Option<i64>,
}

/// An utterance of a batch response.
#[derive(Debug, Clone, PartialEq, Eq)]
pub struct DeepgramUtterance {
    pub transcript: Option<String>,
    pub start: Option<Seconds>,
    pub end: Option<Seconds>,
    pub confidence: Option<Confidence>,
    pub speaker: Option<i64>,
    pub words: Option<Vec<DeepgramWord>>,
}

/// One alternative of a batch channel.
#[derive(Debug, Clone, PartialEq, Eq)]
pub struct DeepgramBatchAlternative {
    pub transcript: Option<String>,
    pub confidence: Option<Confidence>,
    pub words: Option<Vec<DeepgramWord>>,
}

/// One channel of a batch response.
#[derive(Debug, Clone, PartialEq, Eq)]
pub struct DeepgramChannel {
    pub alternatives: Option<Vec<DeepgramBatchAlternative>>,
    pub detected_language: Option<String>,
}

/// The summary block of a batch response.
#[derive(Debug, Clone, PartialEq, Eq)]
pub struct DeepgramSummary {
    pub short: Option<String>,
}

/// A complete batch response.
#[derive(Debug, Clone, PartialEq, Eq)]
pub struct DeepgramResponse {
    pub request_id: String,
    pub created: String,
    pub duration: Seconds,
    pub channels: Vec<DeepgramChannel>,
    pub utterances: Option<Vec<DeepgramUtterance>>,
    pub summary: Option<DeepgramSummary>,
}

/// What a batch request returns: the transcript, or an acknowledgement
/// when a callback URL was given.
#[derive(Debug, Clone, PartialEq, Eq)]
pub enum DeepgramOutcome {
    Complete(DeepgramResponse),
    Accepted { request_id: String },
}

/// The batch request, in Deepgram's query fields.
#[derive(Debug, Clone, PartialEq, Eq)]
pub struct DeepgramQuery {
    pub url: String,
    pub callback: Option<String>,
    pub sentiment: Option<bool>,
    pub summarize: Option<bool>,
    pub detect_entities: Option<bool>,
    pub detect_language: Option<bool>,
    pub diarize: Option<bool>,
    pub keyterm: Option<Vec<String>>,
    pub language: Option<String>,
    pub punctuate: Option<bool>,
    pub utterances: Option<bool>,
}

/// Deepgram's streaming endpoint.
pub const STREAMING_URL: &'static str = "wss://api.deepgram.com/v1/listen";

/// The encodings Deepgram streams, as named in refusals.
pub const STREAMING_ENCODINGS: &'static str = "linear16, mulaw, alaw, opus, flac, mp3";

/// The control message that ends a Deepgram stream.
pub const CLOSE_STREAM_MESSAGE: &'static str = "{\"type\":\"CloseStream\"}";

/// The Deepgram adapter: holds its configuration once initialized.
#[derive(Debug, Clone, PartialEq, Eq)]
pub struct DeepgramAdapter {
    pub config: Option<ProviderConfig>,
}

/// The decimal text of an optional speaker number.
pub open spec fn speaker_text(s: Option<i64>) -> Option<Seq<char>> {
    match s {
        Some(n) => Some(decimal(n as int)),
        None => None,
    }
}

/// An optional text, as characters.
pub open spec fn chars_of(s: Option<String>) -> Option<Seq<char>> {
    match s {
        Some(t) => Some(t@),
        None => None,
    }
}

/// A canonical word matches a streaming word.
pub open spec fn stream_word_matches(w: Word, d: DeepgramStreamWord) -> bool {
    &&& w.text == d.word
    &&& w.start == d.start
    &&& w.end == d.end
    &&& w.confidence == Some(d.confidence)
    &&& chars_of(w.speaker) == speaker_text(d.speaker)
}

/// A canonical word matches a batch word; missing times become zero and a
/// missing text becomes empty. `with_speaker` says whether the speaker is
/// carried (utterance words) or dropped (channel words).
pub open spec fn word_matches(w: Word, d: DeepgramWord, with_speaker: bool) -> bool {
    &&& (d.word is Some ==> w.text == d.word->0)
    &&& (d.word is None ==> w.text@.len() == 0)
    &&& w.start == (match d.start { Some(s) => s, None => Seconds { thousandths: 0 } })
    &&& w.end == (match d.end { Some(s) => s, None => Seconds { thousandths: 0 } })
    &&& w.confidence == d.confidence
    &&& chars_of(w.speaker) == (if with_speaker { speaker_text(d.speaker) } else { None })
}

/// A canonical utterance matches a batch utterance.
pub open spec fn utterance_matches(u: Utterance, d: DeepgramUtterance) -> bool {
    &&& (d.transcript is Some ==> u.text == d.transcript->0)
    &&& (d.transcript is None ==> u.text@.len() == 0)
    &&& u.start == (match d.start { Some(s) => s, None => Seconds { thousandths: 0 } })
    &&& u.end == (match d.end { Some(s) => s, None => Seconds { thousandths: 0 } })
    &&& u.confidence == d.confidence
    &&& chars_of(u.speaker) == speaker_text(d.speaker)
    &&& (u.words is Some <==> d.words is Some)
    &&& (u.words is Some ==> u.words->0@.len() == d.words->0@.len() && forall|i: int|
        0 <= i < u.words->0@.len() ==> word_matches(#[trigger] u.words->0@[i], d.words->0@[i], true))
}

/// The first alternative of the first channel, if any.
pub open spec fn first_alternative(r: DeepgramResponse) -> Option<DeepgramBatchAlternative> {
    if r.channels@.len() > 0 && r.channels@[0].alternatives is Some
        && r.channels@[0].alternatives->0@.len() > 0 {
        Some(r.channels@[0].alternatives->0@[0])
    } else {
        None
    }
}

/// The parameters of a streaming URL, in order.
pub open spec fn stream_params(o: StreamingOptions) -> Seq<Seq<char>> {
    let p0: Seq<Seq<char>> = Seq::empty();
    let p1 = match o.encoding {
        Some(e) => match stream_encoding_from_name(lower_of(e@)) {
            Some(enc) => p0.push("encoding="@ + deepgram_encoding(enc)),
            None => p0,
        },
        None => p0,
    };
    let p2 = match o.sample_rate {
        Some(r) => p1.push("sample_rate="@ + digits(r as nat, false)),
        None => p1,
    };
    let p3 = match o.channels {
        Some(c) => p2.push("channels="@ + digits(c as nat, false)),
        None => p2,
    };
    let p4 = match o.language {
        Some(l) => p3.push("language="@ + l@),
        None => p3,
    };
    let p5 = match o.model {
        Some(m) => p4.push("model="@ + m@),
        None => p4,
    };
    let p6 = p5.push(
        if o.interim_results == Some(false) { "interim_results=false"@ } else { "interim_results=true"@ },
    );
    let p7 = if o.diarization == Some(true) { p6.push("diarize=true"@) } else { p6 };
    p7.push("punctuate=true"@)
}

/// Parameters joined with `&`.
pub open spec fn joined(ps: Seq<Seq<char>>) -> Seq<char>
    decreases ps.len(),
{
    if ps.len() == 0 {
        Seq::empty()
    } else if ps.len() == 1 {
        ps[0]
    } else {
        joined(ps.drop_last()) + "&"@ + ps.last()
    }
}

fn speaker_of(s: Option<i64>) -> (r: Option<String>)
    ensures
        chars_of(r) == speaker_text(s),
{
    match s {
        Some(n) => Some(integer_text(n)),
        None => None,
    }
}

fn seconds_or_zero(s: Option<Seconds>) -> (r: Seconds)
    ensures
        r == (match s { Some(t) => t, None => Seconds { thousandths: 0 } }),
{
    match s {
        Some(t) => t,
        None => Seconds { thousandths: 0 },
    }
}

fn text_or_empty(s: &Option<String>) -> (r: String)
    ensures
        s is Some ==> r == s->0,
        s is None ==> r@.len() == 0,
{
    match s {
        Some(t) => t.clone(),
        None => String::new(),
    }
}

/// Maps a batch word; channel words drop the speaker.
pub fn map_word(w: &DeepgramWord, with_speaker: bool) -> (r: Word)
    ensures
        word_matches(r, *w, with_speaker),
{
    Word {
        text: text_or_empty(&w.word),
        start: seconds_or_zero(w.start),
        end: seconds_or_zero(w.end),
        confidence: w.confidence,
        speaker: if with_speaker { speaker_of(w.speaker) } else { None },
    }
}

/// Maps a list of batch words.
pub fn map_words(ws: &Vec<DeepgramWord>, with_speaker: bool) -> (r: Vec<Word>)
    ensures
        r@.len() == ws@.len(),
        forall|i: int| 0 <= i < r@.len() ==> word_matches(#[trigger] r@[i], ws@[i], with_speaker),
{
    let mut out: Vec<Word> = Vec::new();
    let mut i: usize = 0;
    while i < ws.len()
        invariant
            0 <= i <= ws@.len(),
            out@.len() == i,
            forall|k: int| 0 <= k < i ==> word_matches(#[trigger] out@[k], ws@[k], with_speaker),
        decreases ws@.len() - i,
    {
        out.push(map_word(&ws[i], with_speaker));
        i += 1;
    }
    out
}

/// Maps a batch utterance, words included.
pub fn map_utterance(u: &DeepgramUtterance) -> (r: Utterance)
    ensures
        utterance_matches(r, *u),
{
    let words = match &u.words {
        Some(ws) => Some(map_words(ws, true)),
        None => None,
    };
    Utterance {
        text: text_or_empty(&u.transcript),
        start: seconds_or_zero(u.start),
        end: seconds_or_zero(u.end),
        confidence: u.confidence,
        speaker: speaker_of(u.speaker),
        words,
    }
}

/// Utterance `k`, among the first `n`, has speaker `t`.
pub open spec fn spoken_at(us: Seq<Utterance>, n: int, k: int, t: Seq<char>) -> bool {
    0 <= k < n && k < us.len() && us[k].speaker is Some && us[k].speaker->0@ == t
}

/// Some utterance among the first `n` has speaker `t`.
pub open spec fn spoken(us: Seq<Utterance>, n: int, t: Seq<char>) -> bool {
    exists|k: int| #[trigger] spoken_at(us, n, k, t)
}

/// The distinct speakers of the canonical utterances, in ascending order of
/// their ids; utterances without a speaker are skipped.
pub fn extract_speakers(us: &Vec<Utterance>) -> (r: Vec<Speaker>)
    ensures
        ({
            let ids = r@.map_values(|s: Speaker| s.id);
            &&& no_repeats(ids)
            &&& crate::speakers::ascending(ids)
            &&& forall|i: int| 0 <= i < ids.len() ==> spoken(us@, us@.len() as int, (#[trigger] ids[i])@)
            &&& forall|k: int| 0 <= k < us@.len() && (#[trigger] us@[k]).speaker is Some
                ==> crate::speakers::holds_text(ids, us@[k].speaker->0@)
        }),
{
    let mut tags: Vec<String> = Vec::new();
    let mut i: usize = 0;
    while i < us.len()
        invariant
            0 <= i <= us@.len(),
            forall|j: int| 0 <= j < tags@.len() ==> spoken(us@, i as int, (#[trigger] tags@[j])@),
            forall|k: int| 0 <= k < i && (#[trigger] us@[k]).speaker is Some
                ==> crate::speakers::holds_text(tags@, us@[k].speaker->0@),
        decreases us@.len() - i,
    {
        let ghost before = tags@;
        if let Some(s) = &us[i].speaker {
            tags.push(s.clone());
            proof {
                assert(tags@[before.len() as int] == us@[i as int].speaker->0);
            }
        }
        proof {
            assert forall|j: int| 0 <= j < tags@.len() implies spoken(us@, i + 1, (#[trigger] tags@[j])@) by {
                if j < before.len() {
                    assert(tags@[j] == before[j]);
                    let k = choose|k: int| #[trigger] spoken_at(us@, i as int, k, before[j]@);
                    assert(spoken_at(us@, i + 1, k, tags@[j]@));
                } else {
                    assert(spoken_at(us@, i + 1, i as int, tags@[j]@));
                }
            }
            assert forall|k: int| 0 <= k < i + 1 && (#[trigger] us@[k]).speaker is Some
                implies crate::speakers::holds_text(tags@, us@[k].speaker->0@) by {
                if k < i {
                    let j = choose|j: int| 0 <= j < before.len() && (#[trigger] before[j])@ == us@[k].speaker->0@;
                    assert(tags@[j] == before[j]);
                } else {
                    assert(tags@[before.len() as int]@ == us@[k].speaker->0@);
                }
            }
        }
        i += 1;
    }
    let ids = crate::speakers::sorted_distinct_tags(&tags);
    let speakers = labelled_speakers(ids);
    proof {
        let v = speakers@.map_values(|s: Speaker| s.id);
        assert(v =~= ids@);
        assert forall|i: int| 0 <= i < v.len() implies spoken(us@, us@.len() as int, (#[trigger] v[i])@) by {
            assert(crate::speakers::holds_text(tags@, ids@[i]@));
            let j = choose|j: int| 0 <= j < tags@.len() && (#[trigger] tags@[j])@ == ids@[i]@;
            assert(spoken(us@, us@.len() as int, tags@[j]@));
        }
        assert forall|k: int| 0 <= k < us@.len() && (#[trigger] us@[k]).speaker is Some
            implies crate::speakers::holds_text(v, us@[k].speaker->0@) by {
            let j = choose|j: int| 0 <= j < tags@.len() && (#[trigger] tags@[j])@ == us@[k].speaker->0@;
            assert(crate::speakers::holds_text(ids@, tags@[j]@));
        }
    }
    speakers
}

/// What normalizing a complete batch response gives: the first channel's
/// first alternative gives text, words and confidence; the utterances, their
/// distinct speakers in ascending order, the summary, the duration and the
/// detected language are carried over.
pub open spec fn normalized(response: DeepgramResponse, raw: Option<String>, r: UnifiedTranscriptResponse) -> bool {
    &&& r.well_formed()
    &&& r.success
    &&& r.provider == TranscriptionProvider::Deepgram
    &&& r.raw == raw
    &&& ({
        let d = r.data->0;
        let alt = first_alternative(response);
        &&& d.id == response.request_id
        &&& d.status == TranscriptionStatus::Completed
        &&& d.duration == Some(response.duration)
        &&& d.created_at == Some(response.created)
        &&& (alt is Some && alt->0.transcript is Some ==> d.text == alt->0.transcript->0)
        &&& (!(alt is Some && alt->0.transcript is Some) ==> d.text@.len() == 0)
        &&& d.confidence == (match alt { Some(a) => a.confidence, None => None })
        &&& (d.words is Some <==> (alt is Some && alt->0.words is Some))
        &&& (d.words is Some ==> d.words->0@.len() == alt->0.words->0@.len() && forall|i: int|
            0 <= i < d.words->0@.len() ==> word_matches(#[trigger] d.words->0@[i], alt->0.words->0@[i], false))
        &&& d.language == (if response.channels@.len() > 0 { response.channels@[0].detected_language } else { None })
        &&& (d.utterances is Some <==> response.utterances is Some)
        &&& (d.utterances is Some ==> d.utterances->0@.len() == response.utterances->0@.len() && forall|i: int|
            0 <= i < d.utterances->0@.len() ==> utterance_matches(#[trigger] d.utterances->0@[i], response.utterances->0@[i]))
        &&& (d.speakers is Some <==> response.utterances is Some)
        &&& (d.speakers is Some ==> ({
            let ids = d.speakers->0@.map_values(|s: Speaker| s.id);
            let us = d.utterances->0@;
            &&& no_repeats(ids)
            &&& crate::speakers::ascending(ids)
            &&& forall|i: int| 0 <= i < ids.len() ==> spoken(us, us.len() as int, (#[trigger] ids[i])@)
            &&& forall|k: int| 0 <= k < us.len() && (#[trigger] us[k]).speaker is Some
                ==> crate::speakers::holds_text(ids, us[k].speaker->0@)
        }))
        &&& (d.summary is Some <==> response.summary is Some)
        &&& (response.summary is Some && response.summary->0.short is Some ==> d.summary->0
            == response.summary->0.short->0)
        &&& (response.summary is Some && response.summary->0.short is None ==> d.summary->0@.len()
            == 0)
    })
}

/// The canonical form of a complete batch response; see `normalized`.
pub fn normalize_response(response: DeepgramResponse, raw: Option<String>) -> (r: UnifiedTranscriptResponse)
    ensures
        normalized(response, raw, r),
{
    let mut text = String::new();
    let mut confidence: Option<Confidence> = None;
    let mut words: Option<Vec<Word>> = None;
    let mut language: Option<String> = None;
    if response.channels.len() > 0 {
        let channel = &response.channels[0];
        language = copy_text(&channel.detected_language);
        if let Some(alts) = &channel.alternatives {
            if alts.len() > 0 {
                let alt = &alts[0];
                text = text_or_empty(&alt.transcript);
                confidence = alt.confidence;
                words = match &alt.words {
                    Some(ws) => Some(map_words(ws, false)),
                    None => None,
                };
            }
        }
    }
    let (utterances, speakers) = match &response.utterances {
        Some(us) => {
            let mapped = map_utterances(us);
            let speakers = extract_speakers(&mapped);
            (Some(mapped), Some(speakers))
        },
        None => (None, None),
    };
    let summary = match &response.summary {
        Some(s) => Some(text_or_empty(&s.short)),
        None => None,
    };
    UnifiedTranscriptResponse {
        success: true,
        provider: TranscriptionProvider::Deepgram,
        data: Some(TranscriptionData {
            id: response.request_id,
            text,
            confidence,
            status: TranscriptionStatus::Completed,
            language,
            duration: Some(response.duration),
            speakers,
            words,
            utterances,
            summary,
            metadata: None,
            created_at: Some(response.created),
            completed_at: None,
        }),
        error: None,
        raw,
    }
}

/// Maps the utterances of a batch response.
pub fn map_utterances(us: &Vec<DeepgramUtterance>) -> (r: Vec<Utterance>)
    ensures
        r@.len() == us@.len(),
        forall|i: int| 0 <= i < r@.len() ==> utterance_matches(#[trigger] r@[i], us@[i]),
{
    let mut out: Vec<Utterance> = Vec::new();
    let mut i: usize = 0;
    while i < us.len()
        invariant
            0 <= i <= us@.len(),
            out@.len() == i,
            forall|k: int| 0 <= k < i ==> utterance_matches(#[trigger] out@[k], us@[k]),
        decreases us@.len() - i,
    {
        out.push(map_utterance(&us[i]));
        i += 1;
    }
    out
}

/// The canonical answer of a batch request: the normalized transcript, or,
/// for an acknowledged callback request, a queued job with an empty text.
pub fn transcribe_outcome(outcome: DeepgramOutcome, raw: Option<String>) -> (r: UnifiedTranscriptResponse)
    ensures
        r.well_formed(),
        r.success,
        r.provider == TranscriptionProvider::Deepgram,
        r.raw == raw,
        outcome matches DeepgramOutcome::Accepted { request_id } ==> ({
            let d = r.data->0;
            &&& d.id == request_id
            &&& d.status == TranscriptionStatus::Queued
            &&& d.text@.len() == 0
            &&& d.words is None && d.utterances is None && d.speakers is None
            &&& d.summary is None && d.confidence is None && d.language is None && d.duration is None
        }),
        outcome matches DeepgramOutcome::Complete(resp) ==> normalized(resp, raw, r),
{
    match outcome {
        DeepgramOutcome::Complete(resp) => normalize_response(resp, raw),
        DeepgramOutcome::Accepted { request_id } => crate::poller::queued_response(
            TranscriptionProvider::Deepgram,
            request_id,
            raw,
        ),
    }
}

fn map_stream_words(ws: &Vec<DeepgramStreamWord>) -> (r: Vec<Word>)
    ensures
        r@.len() == ws@.len(),
        forall|i: int| 0 <= i < r@.len() ==> stream_word_matches(#[trigger] r@[i], ws@[i]),
{
    let mut out: Vec<Word> = Vec::new();
    let mut i: usize = 0;
    while i < ws.len()
        invariant
            0 <= i <= ws@.len(),
            out@.len() == i,
            forall|k: int| 0 <= k < i ==> stream_word_matches(#[trigger] out@[k], ws@[k]),
        decreases ws@.len() - i,
    {
        let w = &ws[i];
        out.push(Word {
            text: w.word.clone(),
            start: w.start,
            end: w.end,
            confidence: Some(w.confidence),
            speaker: speaker_of(w.speaker),
        });
        i += 1;
    }
    out
}

fn metadata_event(text: String) -> (r: StreamEvent)
    ensures
        r.event_type == StreamEventType::Metadata,
        r.text == Some(text),
        r.is_final is None && r.utterance is None && r.words is None && r.speaker is None,
        r.confidence is None && r.error is None && r.data is None,
{
    StreamEvent {
        event_type: StreamEventType::Metadata,
        text: Some(text),
        is_final: None,
        utterance: None,
        words: None,
        speaker: None,
        confidence: None,
        error: None,
        data: None,
    }
}

/// The canonical event of a streaming message.
pub open spec fn stream_event_of(msg: DeepgramStreamMessage, r: Option<StreamEvent>) -> bool {
    &&& (r is Some ==> r->0.well_formed())
    &&& (msg matches DeepgramStreamMessage::Results { is_final, alternatives } ==> ({
        &&& (r is None <==> alternatives@.len() == 0)
        &&& (r is Some ==> ({
            let e = r->0;
            let a = alternatives@[0];
            &&& e.event_type == StreamEventType::Transcript
            &&& e.text == Some(a.transcript)
            &&& e.is_final == Some(is_final)
            &&& e.confidence == Some(a.confidence)
            &&& e.utterance is None && e.speaker is None && e.error is None
            &&& (e.words is Some <==> a.words is Some)
            &&& (e.words is Some ==> e.words->0@.len() == a.words->0@.len() && forall|i: int|
                0 <= i < e.words->0@.len() ==> stream_word_matches(#[trigger] e.words->0@[i], a.words->0@[i]))
        }))
    }))
    &&& (msg matches DeepgramStreamMessage::UtteranceEnd { payload } ==> r is Some
        && r->0.event_type == StreamEventType::Metadata && r->0.text == Some(payload))
    &&& (msg matches DeepgramStreamMessage::Metadata { payload } ==> r is Some
        && r->0.event_type == StreamEventType::Metadata && r->0.text == Some(payload))
}

/// The canonical event of a streaming message: results give a transcript of
/// the first alternative, with its confidence and the vendor's finality
/// flag (nothing when there is no alternative); the utterance-end marker and
/// metadata pass on their payload as metadata.
pub fn parse_streaming_message(msg: DeepgramStreamMessage) -> (r: Option<StreamEvent>)
    ensures
        stream_event_of(msg, r),
{
    match msg {
        DeepgramStreamMessage::Results { is_final, alternatives } => {
            if alternatives.len() == 0 {
                return None;
            }
            let alt = &alternatives[0];
            let words = match &alt.words {
                Some(ws) => Some(map_stream_words(ws)),
                None => None,
            };
            Some(StreamEvent {
                event_type: StreamEventType::Transcript,
                text: Some(alt.transcript.clone()),
                is_final: Some(is_final),
                utterance: None,
                words,
                speaker: None,
                confidence: Some(alt.confidence),
                error: None,
                data: None,
            })
        },
        DeepgramStreamMessage::UtteranceEnd { payload } => Some(metadata_event(payload)),
        DeepgramStreamMessage::Metadata { payload } => Some(metadata_event(payload)),
    }
}

fn copy_texts(v: &Vec<String>) -> (r: Vec<String>)
    ensures
        r@ == v@,
{
    let mut out: Vec<String> = Vec::new();
    let mut i: usize = 0;
    while i < v.len()
        invariant
            0 <= i <= v@.len(),
            out@ == v@.subrange(0, i as int),
        decreases v@.len() - i,
    {
        out.push(v[i].clone());
        i += 1;
        assert(v@.subrange(0, i as int) == v@.subrange(0, i - 1).push(v@[i - 1]));
    }
    assert(v@.subrange(0, v@.len() as int) == v@);
    out
}

fn add_param(url: String, ps: Ghost<Seq<Seq<char>>>, p: &str) -> (r: String)
    requires
        ps@.len() > 0,
    ensures
        r@ == url@ + "&"@ + p@,
        joined(ps@.push(p@)) == joined(ps@) + "&"@ + p@,
{
    assert(ps@.push(p@).drop_last() =~= ps@);
    join(join(url, "&"), p)
}

impl DeepgramAdapter {
    pub fn new() -> (r: DeepgramAdapter)
        ensures
            r.config is None,
    {
        DeepgramAdapter { config: None }
    }

    pub fn name(&self) -> (r: TranscriptionProvider)
        ensures
            r == TranscriptionProvider::Deepgram,
    {
        TranscriptionProvider::Deepgram
    }

    /// Everything is supported.
    pub fn capabilities(&self) -> (r: ProviderCapabilities)
        ensures
            r == (ProviderCapabilities {
                streaming: true,
                diarization: true,
                word_timestamps: true,
                language_detection: true,
                custom_vocabulary: true,
                summarization: true,
                sentiment_analysis: true,
                entity_detection: true,
                pii_redaction: true,
            }),
    {
        ProviderCapabilities {
            streaming: true,
            diarization: true,
            word_timestamps: true,
            language_detection: true,
            custom_vocabulary: true,
            summarization: true,
            sentiment_analysis: true,
            entity_detection: true,
            pii_redaction: true,
        }
    }

    /// Keeps the configuration; fails without a credential.
    pub fn initialize(&mut self, config: ProviderConfig) -> (r: Result<(), AdapterError>)
        ensures
            r is Ok <==> config.api_key@.len() > 0,
            r is Ok ==> final(self).config == Some(config),
            r is Err ==> *final(self) == *old(self),
    {
        match check_config(&config) {
            Ok(()) => {
                self.config = Some(config);
                Ok(())
            },
            Err(e) => Err(e),
        }
    }

    /// Deepgram has no fetch-by-id endpoint: results come back inline.
    pub fn get_transcript(&self, transcript_id: &str) -> (r: Result<UnifiedTranscriptResponse, AdapterError>)
        ensures
            r matches Err(AdapterError::NotSupported(m))
                && m@ == "Deepgram returns results synchronously - use transcribe() instead"@,
    {
        Err(AdapterError::NotSupported(owned("Deepgram returns results synchronously - use transcribe() instead")))
    }

    /// The batch request for a URL and canonical options: the options pass
    /// through to Deepgram's fields, utterances follow diarization, and
    /// punctuation is always on.
    pub fn build_query(audio_url: String, options: Option<&TranscribeOptions>) -> (r: DeepgramQuery)
        ensures
            r.url == audio_url,
            r.punctuate == Some(true),
            r.utterances == r.diarize,
            options is None ==> ({
                &&& r.callback is None && r.sentiment is None && r.summarize is None
                &&& r.detect_entities is None && r.detect_language is None && r.diarize is None
                &&& r.keyterm is None && r.language is None
            }),
            options matches Some(o) ==> ({
                &&& r.callback == o.webhook_url
                &&& r.sentiment == o.sentiment_analysis
                &&& r.summarize == o.summarization
                &&& r.detect_entities == o.entity_detection
                &&& r.detect_language == o.language_detection
                &&& r.diarize == o.diarization
                &&& r.language == o.language
                &&& (r.keyterm is Some <==> o.custom_vocabulary is Some)
                &&& (r.keyterm is Some ==> r.keyterm->0@ == o.custom_vocabulary->0@)
            }),
    {
        match options {
            Some(o) => DeepgramQuery {
                url: audio_url,
                callback: copy_text(&o.webhook_url),
                sentiment: o.sentiment_analysis,
                summarize: o.summarization,
                detect_entities: o.entity_detection,
                detect_language: o.language_detection,
                diarize: o.diarization,
                keyterm: match &o.custom_vocabulary {
                    Some(v) => Some(copy_texts(v)),
                    None => None,
                },
                language: copy_text(&o.language),
                punctuate: Some(true),
                utterances: o.diarization,
            },
            None => DeepgramQuery {
                url: audio_url,
                callback: None,
                sentiment: None,
                summarize: None,
                detect_entities: None,
                detect_language: None,
                diarize: None,
                keyterm: None,
                language: None,
                punctuate: Some(true),
                utterances: None,
            },
        }
    }

    /// The streaming URL: the endpoint, `?`, and the parameters of the
    /// options joined with `&`. An unknown encoding name is refused, naming
    /// the supported set; nothing stands in for it.
    pub fn build_streaming_url(options: &StreamingOptions) -> (r: Result<String, AdapterError>)
        ensures
            options.encoding is Some && stream_encoding_from_name(lower_of(options.encoding->0@)) is None ==> (
            r matches Err(AdapterError::NotSupported(m)) && m@
                == crate::adapters::streaming::unsupported_encoding_message(
                options.encoding->0@,
                "Deepgram"@,
                STREAMING_ENCODINGS@,
            )),
            !(options.encoding is Some && stream_encoding_from_name(lower_of(options.encoding->0@)) is None) ==> (
            r is Ok && r->Ok_0@ == STREAMING_URL@ + "?"@ + joined(stream_params(*options))),
    {
        if let Some(name) = &options.encoding {
            if AudioEncoding::from_str(name.as_str()).is_none() {
                return Err(
                    crate::adapters::streaming::unsupported_encoding(name.as_str(), "Deepgram", STREAMING_ENCODINGS),
                );
            }
        }
        let ghost p0: Seq<Seq<char>> = Seq::empty();
        let mut params = String::new();
        let mut count: usize = 0;
        let ghost ps = p0;
        // Each step keeps `params` equal to the parameters so far, joined.
        if let Some(name) = &options.encoding {
            if let Some(enc) = AudioEncoding::from_str(name.as_str()) {
                let p = join(owned("encoding="), enc.to_deepgram());
                params = p;
                count = 1;
                proof { ps = ps.push(params@); }
            }
        }
        assert(params@ == joined(ps) && count == ps.len());
        if let Some(rate) = options.sample_rate {
            let p = join(owned("sample_rate="), natural_text(rate as u128, false).as_str());
            if count == 0 {
                params = p;
                proof { ps = ps.push(params@); }
            } else {
                params = add_param(params, Ghost(ps), p.as_str());
                proof { ps = ps.push(p@); }
            }
            count = count + 1;
        }
        assert(params@ == joined(ps) && count == ps.len());
        if let Some(ch) = options.channels {
            let p = join(owned("channels="), natural_text(ch as u128, false).as_str());
            if count == 0 {
                params = p;
                proof { ps = ps.push(params@); }
            } else {
                params = add_param(params, Ghost(ps), p.as_str());
                proof { ps = ps.push(p@); }
            }
            count = count + 1;
        }
        assert(params@ == joined(ps) && count == ps.len());
        if let Some(language) = &options.language {
            let p = join(owned("language="), language.as_str());
            if count == 0 {
                params = p;
                proof { ps = ps.push(params@); }
            } else {
                params = add_param(params, Ghost(ps), p.as_str());
                proof { ps = ps.push(p@); }
            }
            count = count + 1;
        }
        assert(params@ == joined(ps) && count == ps.len());
        if let Some(model) = &options.model {
            let p = join(owned("model="), model.as_str());
            if count == 0 {
                params = p;
                proof { ps = ps.push(params@); }
            } else {
                params = add_param(params, Ghost(ps), p.as_str());
                proof { ps = ps.push(p@); }
            }
            count = count + 1;
        }
        assert(params@ == joined(ps) && count == ps.len());
        let interim = if options.interim_results == Some(false) {
            "interim_results=false"
        } else {
            "interim_results=true"
        };
        if count == 0 {
            params = owned(interim);
            proof { ps = ps.push(params@); }
        } else {
            params = add_param(params, Ghost(ps), interim);
            proof { ps = ps.push(interim@); }
        }
        if options.diarization == Some(true) {
            params = add_param(params, Ghost(ps), "diarize=true");
            proof { ps = ps.push("diarize=true"@); }
        }
        params = add_param(params, Ghost(ps), "punctuate=true");
        proof {
            ps = ps.push("punctuate=true"@);
            assert(ps =~= stream_params(*options));
        }
        let url = join(owned(STREAMING_URL), "?");
        Ok(join(url, params.as_str()))
    }

    /// The header that authenticates a stream: `Authorization: Token <key>`.
    pub fn streaming_header(api_key: &str) -> (r: (String, String))
        ensures
            r.0@ == "Authorization"@,
            r.1@ == "Token "@ + api_key@,
    {
        (owned("Authorization"), join(owned("Token "), api_key))
    }
}

} // verus!
