//! Vendor callback payloads in the canonical schema. The payload's JSON is
//! decoded by the caller into the fields below (absent fields are `None`,
//! absent JSON values are the text `null`); the decisions and the mapping
//! are made here.
use vstd::prelude::*;
use vstd::string::*;
use crate::speakers::{distinct_tags, holds_text, no_repeats};
use crate::text::{decimal, integer_text, join, owned, same_text};
use crate::types::{
    Confidence, Seconds, Speaker, TranscriptionProvider, TranscriptionStatus, Utterance, Word,
};

verus! {

/// Kinds of callback events.
#[derive(Debug, Clone, Copy, PartialEq, Eq, Structural)]
pub enum WebhookEventType {
    TranscriptionCreated,
    TranscriptionProcessing,
    TranscriptionCompleted,
    TranscriptionFailed,
}

/// The transcription carried by a callback.
#[derive(Debug, Clone, PartialEq, Eq)]
pub struct WebhookTranscriptionData {
    pub id: String,
    pub status: TranscriptionStatus,
    pub text: Option<String>,
    pub confidence: Option<Confidence>,
    pub duration: Option<Seconds>,
    pub language: Option<String>,
    pub speakers: Option<Vec<Speaker>>,
    pub words: Option<Vec<Word>>,
    pub utterances: Option<Vec<Utterance>>,
    pub summary: Option<String>,
    /// The vendor's message, for failed jobs.
    pub error: Option<String>,
    /// Further details, as JSON text.
    pub metadata: Option<String>,
}

/// A callback in the canonical schema.
#[derive(Debug, Clone, PartialEq, Eq)]
pub struct UnifiedWebhookEvent {
    pub success: bool,
    pub provider: TranscriptionProvider,
    pub event_type: WebhookEventType,
    pub data: Option<WebhookTranscriptionData>,
    /// When the callback was handled (RFC 3339).
    pub timestamp: String,
    /// The payload as received.
    pub raw: Option<String>,
}

/// Why a callback could not be handled.
#[derive(Debug, Clone, PartialEq, Eq)]
pub enum WebhookError {
    /// The payload is not JSON; the decoder's message.
    JsonError(String),
    /// A required field is missing.
    InvalidPayload(String),
    /// The event name is not known.
    UnknownEvent(String),
    /// The envelope matches no vendor.
    UnknownProvider,
    /// The vendor's callbacks are not handled.
    UnsupportedProvider(String),
}

/// A word of a Gladia callback; any field may be missing.
#[derive(Debug, Clone, PartialEq, Eq)]
pub struct GladiaWebhookWord {
    pub word: Option<String>,
    pub start: Option<Seconds>,
    pub end: Option<Seconds>,
    pub confidence: Option<Confidence>,
}

/// An utterance of a Gladia callback; any field may be missing.
#[derive(Debug, Clone, PartialEq, Eq)]
pub struct GladiaWebhookUtterance {
    pub text: Option<String>,
    pub start: Option<Seconds>,
    pub end: Option<Seconds>,
    pub confidence: Option<Confidence>,
    pub speaker: Option<i64>,
    pub words: Option<Vec<GladiaWebhookWord>>,
}

/// A decoded callback payload.
#[derive(Debug, Clone, PartialEq, Eq)]
pub struct WebhookPayload {
    /// The top-level `id`, when it is a string.
    pub id: Option<String>,
    /// The top-level `event`, when it is a string.
    pub event: Option<String>,
    /// Whether a top-level `status` field is present.
    pub has_status: bool,
    /// Whether the top-level `payload` object is present.
    pub has_result: bool,
    /// `payload.transcription.full_transcript`.
    pub full_transcript: Option<String>,
    /// `payload.metadata.audio_duration`.
    pub audio_duration: Option<Seconds>,
    /// The first of `payload.transcription.languages`, when a string.
    pub first_language: Option<String>,
    /// `payload.transcription.utterances`, when an array.
    pub utterances: Option<Vec<GladiaWebhookUtterance>>,
    /// `payload.summarization.success`.
    pub summarization_success: bool,
    /// `payload.summarization.results`, when a string.
    pub summary_results: Option<String>,
    /// JSON text of `payload.metadata.transcription_time`.
    pub transcription_time: String,
    /// JSON text of `payload.metadata.billing_time`.
    pub billing_time: String,
    /// JSON text of `payload.metadata.number_of_distinct_channels`.
    pub number_of_distinct_channels: String,
    /// JSON text of the top-level `custom_metadata`.
    pub custom_metadata: String,
    /// `error.message`, when a string.
    pub error_message: Option<String>,
    /// `error.code`, when an integer.
    pub error_code: Option<i64>,
    /// The payload's JSON text.
    pub raw: String,
}

/// Parses Gladia callbacks.
pub struct GladiaWebhookHandler;

/// Dispatches callbacks by vendor.
pub struct WebhookRouter;

/// `prefix` starts `s`.
pub open spec fn starts_with(s: Seq<char>, prefix: Seq<char>) -> bool {
    prefix.len() <= s.len() && s.subrange(0, prefix.len() as int) == prefix
}

/// Whether `s` starts with `prefix`.
pub fn text_starts_with(s: &str, prefix: &str) -> (r: bool)
    ensures
        r == starts_with(s@, prefix@),
{
    let n = prefix.unicode_len();
    if n > s.unicode_len() {
        return false;
    }
    same_text(s.substring_char(0, n), prefix)
}

/// The canonical word of a callback word, if it has a text and both times.
pub open spec fn webhook_word(w: GladiaWebhookWord) -> Option<Word> {
    if w.word is Some && w.start is Some && w.end is Some {
        Some(Word { text: w.word->0, start: w.start->0, end: w.end->0, confidence: w.confidence, speaker: None })
    } else {
        None
    }
}

/// The words of a list that can be mapped, in order.
pub open spec fn kept_words(ws: Seq<GladiaWebhookWord>) -> Seq<Word>
    decreases ws.len(),
{
    if ws.len() == 0 {
        Seq::empty()
    } else {
        kept_words(ws.drop_last()) + match webhook_word(ws.last()) {
            Some(w) => seq![w],
            None => Seq::empty(),
        }
    }
}

/// A callback utterance can be mapped when it has a text and both times.
pub open spec fn utterance_complete(u: GladiaWebhookUtterance) -> bool {
    u.text is Some && u.start is Some && u.end is Some
}

/// A canonical utterance matches a complete callback utterance.
pub open spec fn utterance_matches(c: Utterance, u: GladiaWebhookUtterance) -> bool {
    &&& c.text == u.text->0
    &&& c.start == u.start->0
    &&& c.end == u.end->0
    &&& c.confidence == u.confidence
    &&& (c.speaker is Some <==> u.speaker is Some)
    &&& (c.speaker is Some ==> c.speaker->0@ == decimal(u.speaker->0 as int))
    &&& (c.words is Some <==> u.words is Some)
    &&& (c.words is Some ==> c.words->0@ == kept_words(u.words->0@))
}

/// All mappable words of all utterances, in order (complete or not).
pub open spec fn all_kept_words(us: Seq<GladiaWebhookUtterance>) -> Seq<Word>
    decreases us.len(),
{
    if us.len() == 0 {
        Seq::empty()
    } else {
        all_kept_words(us.drop_last()) + match us.last().words {
            Some(ws) => kept_words(ws@),
            None => Seq::empty(),
        }
    }
}

/// The metadata text of a completed callback.
pub open spec fn success_metadata(p: WebhookPayload) -> Seq<char> {
    "{\"billing_time\":"@ + p.billing_time@ + ",\"custom_metadata\":"@ + p.custom_metadata@
        + ",\"number_of_distinct_channels\":"@ + p.number_of_distinct_channels@
        + ",\"transcription_time\":"@ + p.transcription_time@ + "}"@
}

/// The metadata text of a failed callback.
pub open spec fn failure_metadata(p: WebhookPayload) -> Seq<char> {
    "{\"custom_metadata\":"@ + p.custom_metadata@ + ",\"error_code\":"@ + match p.error_code {
        Some(c) => decimal(c as int),
        None => "null"@,
    } + "}"@
}

fn map_word(w: &GladiaWebhookWord) -> (r: Option<Word>)
    ensures
        r == webhook_word(*w),
{
    match (&w.word, w.start, w.end) {
        (Some(t), Some(s), Some(e)) => Some(
            Word { text: t.clone(), start: s, end: e, confidence: w.confidence, speaker: None },
        ),
        _ => None,
    }
}

/// Maps the words that have a text and both times, in order.
pub fn map_words(ws: &Vec<GladiaWebhookWord>) -> (r: Vec<Word>)
    ensures
        r@ == kept_words(ws@),
{
    let mut out: Vec<Word> = Vec::new();
    let mut i: usize = 0;
    while i < ws.len()
        invariant
            0 <= i <= ws@.len(),
            out@ == kept_words(ws@.subrange(0, i as int)),
        decreases ws@.len() - i,
    {
        let ghost prefix = ws@.subrange(0, i + 1);
        assert(prefix.drop_last() =~= ws@.subrange(0, i as int));
        if let Some(w) = map_word(&ws[i]) {
            out.push(w);
            assert(out@ =~= kept_words(prefix));
        } else {
            assert(out@ =~= kept_words(prefix));
        }
        i += 1;
    }
    assert(ws@.subrange(0, ws@.len() as int) =~= ws@);
    out
}

fn speaker_of(s: Option<i64>) -> (r: Option<String>)
    ensures
        r is Some <==> s is Some,
        r is Some ==> r->0@ == decimal(s->0 as int),
{
    match s {
        Some(n) => Some(integer_text(n)),
        None => None,
    }
}

fn copy_seconds(s: Option<Seconds>) -> (r: Option<Seconds>)
    ensures
        r == s,
{
    s
}

/// The canonical utterances are the mappings of the complete callback
/// utterances, one for one and in order; incomplete ones are dropped.
pub open spec fn kept_utterances(cs: Seq<Utterance>, us: Seq<GladiaWebhookUtterance>) -> bool
    decreases us.len(),
{
    if us.len() == 0 {
        cs.len() == 0
    } else if utterance_complete(us.last()) {
        cs.len() > 0 && utterance_matches(cs.last(), us.last()) && kept_utterances(cs.drop_last(), us.drop_last())
    } else {
        kept_utterances(cs, us.drop_last())
    }
}

/// Maps the complete utterances, in order, dropping the others.
pub fn map_utterances(us: &Vec<GladiaWebhookUtterance>) -> (r: Vec<Utterance>)
    ensures
        kept_utterances(r@, us@),
{
    let mut out: Vec<Utterance> = Vec::new();
    let mut i: usize = 0;
    while i < us.len()
        invariant
            0 <= i <= us@.len(),
            kept_utterances(out@, us@.subrange(0, i as int)),
        decreases us@.len() - i,
    {
        let u = &us[i];
        let ghost prefix = us@.subrange(0, i + 1);
        assert(prefix.drop_last() =~= us@.subrange(0, i as int));
        assert(prefix.last() == us@[i as int]);
        if let (Some(text), Some(start), Some(end)) = (&u.text, copy_seconds(u.start), copy_seconds(u.end)) {
            let words = match &u.words {
                Some(ws) => Some(map_words(ws)),
                None => None,
            };
            let c = Utterance {
                text: text.clone(),
                start,
                end,
                speaker: speaker_of(u.speaker),
                confidence: u.confidence,
                words,
            };
            let ghost before = out@;
            out.push(c);
            proof {
                assert(out@.drop_last() =~= before);
                assert(utterance_matches(out@.last(), us@[i as int]));
            }
        }
        i += 1;
    }
    assert(us@.subrange(0, us@.len() as int) =~= us@);
    out
}

/// All words of all utterances that have a text and both times, in order.
pub fn flatten_words(us: &Vec<GladiaWebhookUtterance>) -> (r: Vec<Word>)
    ensures
        r@ == all_kept_words(us@),
{
    let mut out: Vec<Word> = Vec::new();
    let mut i: usize = 0;
    while i < us.len()
        invariant
            0 <= i <= us@.len(),
            out@ == all_kept_words(us@.subrange(0, i as int)),
        decreases us@.len() - i,
    {
        let ghost prefix = us@.subrange(0, i + 1);
        assert(prefix.drop_last() =~= us@.subrange(0, i as int));
        if let Some(ws) = &us[i].words {
            let mut mapped = map_words(ws);
            out.append(&mut mapped);
        }
        assert(out@ =~= all_kept_words(prefix));
        i += 1;
    }
    assert(us@.subrange(0, us@.len() as int) =~= us@);
    out
}

/// Some utterance has speaker number `n`.
pub open spec fn has_speaker(us: Seq<GladiaWebhookUtterance>, t: Seq<char>) -> bool {
    exists|k: int| 0 <= k < us.len() && us[k].speaker is Some && #[trigger] decimal(us[k].speaker->0 as int) == t
}

/// The speakers are the distinct speaker numbers of the utterances, as
/// decimal text, unlabelled and without a score.
pub open spec fn speakers_of(ss: Seq<Speaker>, us: Seq<GladiaWebhookUtterance>) -> bool {
    let ids = ss.map_values(|s: Speaker| s.id);
    &&& no_repeats(ids)
    &&& forall|i: int| 0 <= i < ids.len() ==> has_speaker(us, (#[trigger] ids[i])@)
    &&& forall|k: int| 0 <= k < us.len() && (#[trigger] us[k]).speaker is Some ==> holds_text(
        ids,
        decimal(us[k].speaker->0 as int),
    )
    &&& forall|i: int| 0 <= i < ss.len() ==> (#[trigger] ss[i]).label is None && ss[i].confidence is None
}

/// The distinct speaker numbers of the utterances, unlabelled; none when no
/// utterance has one.
pub fn distinct_speakers(us: &Vec<GladiaWebhookUtterance>) -> (r: Option<Vec<Speaker>>)
    ensures
        r is None <==> forall|k: int| 0 <= k < us@.len() ==> (#[trigger] us@[k]).speaker is None,
        r is Some ==> speakers_of(r->0@, us@),
{
    let mut tags: Vec<String> = Vec::new();
    let mut i: usize = 0;
    while i < us.len()
        invariant
            0 <= i <= us@.len(),
            forall|j: int| 0 <= j < tags@.len() ==> has_speaker(us@, (#[trigger] tags@[j])@),
            forall|k: int| 0 <= k < i && (#[trigger] us@[k]).speaker is Some ==> holds_text(
                tags@,
                decimal(us@[k].speaker->0 as int),
            ),
            tags@.len() == 0 <==> forall|k: int| 0 <= k < i ==> (#[trigger] us@[k]).speaker is None,
        decreases us@.len() - i,
    {
        let ghost before = tags@;
        if let Some(n) = us[i].speaker {
            tags.push(integer_text(n));
            proof {
                assert forall|j: int| 0 <= j < tags@.len() implies has_speaker(us@, (#[trigger] tags@[j])@) by {
                    if j < before.len() {
                        assert(tags@[j] == before[j]);
                    } else {
                        assert(decimal(us@[i as int].speaker->0 as int) == tags@[j]@);
                    }
                }
                assert forall|k: int| 0 <= k < i + 1 && (#[trigger] us@[k]).speaker is Some implies holds_text(
                    tags@,
                    decimal(us@[k].speaker->0 as int),
                ) by {
                    if k < i {
                        let j = choose|j: int| 0 <= j < before.len() && (#[trigger] before[j])@ == decimal(
                            us@[k].speaker->0 as int,
                        );
                        assert(tags@[j] == before[j]);
                    } else {
                        assert(tags@[before.len() as int]@ == decimal(us@[k].speaker->0 as int));
                    }
                }
            }
        }
        i += 1;
    }
    let ids = distinct_tags(&tags);
    if ids.len() == 0 {
        proof {
            if tags@.len() > 0 {
                assert(holds_text(ids@, tags@[0]@));
            }
        }
        return None;
    }
    proof {
        if tags@.len() == 0 {
            assert(holds_text(tags@, ids@[0]@));
        }
    }
    let mut speakers: Vec<Speaker> = Vec::new();
    let mut j: usize = 0;
    while j < ids.len()
        invariant
            0 <= j <= ids@.len(),
            speakers@.len() == j,
            forall|k: int| 0 <= k < j ==> (#[trigger] speakers@[k]).id == ids@[k] && speakers@[k].label is None
                && speakers@[k].confidence is None,
        decreases ids@.len() - j,
    {
        speakers.push(Speaker { id: ids[j].clone(), label: None, confidence: None });
        j += 1;
    }
    proof {
        let v = speakers@.map_values(|s: Speaker| s.id);
        assert(v =~= ids@);
        assert forall|i: int| 0 <= i < v.len() implies has_speaker(us@, (#[trigger] v[i])@) by {
            assert(holds_text(tags@, ids@[i]@));
            let k = choose|k: int| 0 <= k < tags@.len() && (#[trigger] tags@[k])@ == ids@[i]@;
            assert(has_speaker(us@, tags@[k]@));
        }
        assert forall|k: int| 0 <= k < us@.len() && (#[trigger] us@[k]).speaker is Some implies holds_text(
            v,
            decimal(us@[k].speaker->0 as int),
        ) by {
            let j = choose|j: int| 0 <= j < tags@.len() && (#[trigger] tags@[j])@ == decimal(us@[k].speaker->0 as int);
            assert(holds_text(ids@, tags@[j]@));
        }
    }
    Some(speakers)
}

fn success_metadata_text(p: &WebhookPayload) -> (r: String)
    ensures
        r@ == success_metadata(*p),
{
    let m = join(owned("{\"billing_time\":"), p.billing_time.as_str());
    let m = join(m, ",\"custom_metadata\":");
    let m = join(m, p.custom_metadata.as_str());
    let m = join(m, ",\"number_of_distinct_channels\":");
    let m = join(m, p.number_of_distinct_channels.as_str());
    let m = join(m, ",\"transcription_time\":");
    let m = join(m, p.transcription_time.as_str());
    join(m, "}")
}

fn failure_metadata_text(p: &WebhookPayload) -> (r: String)
    ensures
        r@ == failure_metadata(*p),
{
    let m = join(owned("{\"custom_metadata\":"), p.custom_metadata.as_str());
    let m = join(m, ",\"error_code\":");
    let m = match p.error_code {
        Some(c) => join(m, integer_text(c).as_str()),
        None => join(m, "null"),
    };
    join(m, "}")
}

/// What parsing a Gladia callback gives.
pub open spec fn parsed_as_gladia(payload: WebhookPayload, timestamp: String, r: Result<UnifiedWebhookEvent, WebhookError>) -> bool {
    &&& (payload.id is None ==> (r matches Err(WebhookError::InvalidPayload(m)) && m@ == "Missing 'id' field"@))
    &&& (payload.id is Some && payload.event is None ==> (r matches Err(WebhookError::InvalidPayload(m))
        && m@ == "Missing 'event' field"@))
    &&& (payload.id is Some && payload.event is Some ==> ({
        let ev = payload.event->0@;
        &&& ev == "transcription.success"@ && !payload.has_result ==> (r matches Err(
            WebhookError::InvalidPayload(m),
        ) && m@ == "Missing 'payload' field"@)
        &&& ev == "transcription.success"@ && payload.has_result ==> (r matches Ok(e)
            && e.success && e.event_type == WebhookEventType::TranscriptionCompleted
            && e.provider == TranscriptionProvider::Gladia && e.timestamp == timestamp
            && e.data is Some && e.data->0.id == payload.id->0
            && e.data->0.status == TranscriptionStatus::Completed
            && e.data->0.text == payload.full_transcript
            && e.data->0.duration == payload.audio_duration
            && e.data->0.language == payload.first_language
            && e.data->0.summary == (if payload.summarization_success { payload.summary_results } else { None })
            && e.data->0.error is None
            && e.data->0.metadata is Some && e.data->0.metadata->0@ == success_metadata(payload)
            && (e.data->0.words is Some <==> payload.utterances is Some)
            && (e.data->0.words is Some ==> e.data->0.words->0@ == all_kept_words(payload.utterances->0@))
            && (e.data->0.utterances is Some <==> payload.utterances is Some)
            && (e.data->0.utterances is Some ==> kept_utterances(e.data->0.utterances->0@, payload.utterances->0@))
            && (e.data->0.speakers is None <==> (payload.utterances is None || forall|k: int|
                0 <= k < payload.utterances->0@.len() ==> (#[trigger] payload.utterances->0@[k]).speaker is None))
            && (e.data->0.speakers is Some ==> speakers_of(e.data->0.speakers->0@, payload.utterances->0@))
            && e.raw is Some && e.raw->0 == payload.raw)
        &&& ev == "transcription.error"@ ==> (r matches Ok(e)
            && !e.success && e.event_type == WebhookEventType::TranscriptionFailed
            && e.provider == TranscriptionProvider::Gladia && e.timestamp == timestamp
            && e.data is Some && e.data->0.id == payload.id->0
            && e.data->0.status == TranscriptionStatus::Error
            && e.data->0.error is Some
            && (payload.error_message is Some ==> e.data->0.error->0 == payload.error_message->0)
            && (payload.error_message is None ==> e.data->0.error->0@ == "Transcription failed"@)
            && e.data->0.metadata is Some && e.data->0.metadata->0@ == failure_metadata(payload)
            && e.data->0.text is None && e.data->0.words is None && e.data->0.utterances is None
            && e.raw is Some && e.raw->0 == payload.raw)
        &&& ev != "transcription.success"@ && ev != "transcription.error"@ ==> (r matches Err(
            WebhookError::UnknownEvent(name),
        ) && name@ == ev)
    }))
}

impl GladiaWebhookHandler {
    /// A Gladia callback: `transcription.success` gives a completed event,
    /// `transcription.error` a failed one; a missing id or event, or a
    /// success without its result, is an invalid payload; any other event
    /// name is unknown.
    pub fn parse(payload: &WebhookPayload, timestamp: String) -> (r: Result<UnifiedWebhookEvent, WebhookError>)
        ensures
            parsed_as_gladia(*payload, timestamp, r),
    {
        let id = match &payload.id {
            Some(id) => id,
            None => {
                return Err(WebhookError::InvalidPayload(owned("Missing 'id' field")));
            },
        };
        let event = match &payload.event {
            Some(e) => e,
            None => {
                return Err(WebhookError::InvalidPayload(owned("Missing 'event' field")));
            },
        };
        proof {
            reveal_strlit("transcription.success");
            reveal_strlit("transcription.error");
            assert("transcription.success"@.len() != "transcription.error"@.len());
        }
        if same_text(event.as_str(), "transcription.success") {
            Self::parse_success(id, payload, timestamp)
        } else if same_text(event.as_str(), "transcription.error") {
            Ok(Self::parse_error(id, payload, timestamp))
        } else {
            Err(WebhookError::UnknownEvent(event.clone()))
        }
    }

    fn parse_success(id: &String, payload: &WebhookPayload, timestamp: String) -> (r: Result<
        UnifiedWebhookEvent,
        WebhookError,
    >)
        ensures
            !payload.has_result ==> (r matches Err(WebhookError::InvalidPayload(m)) && m@ == "Missing 'payload' field"@),
            payload.has_result ==> (r matches Ok(e)
                && e.success && e.event_type == WebhookEventType::TranscriptionCompleted
                && e.provider == TranscriptionProvider::Gladia && e.timestamp == timestamp
                && e.data is Some && e.data->0.id == *id
                && e.data->0.status == TranscriptionStatus::Completed
                && e.data->0.text == payload.full_transcript
                && e.data->0.duration == payload.audio_duration
                && e.data->0.language == payload.first_language
                && e.data->0.summary == (if payload.summarization_success { payload.summary_results } else { None })
                && e.data->0.error is None
                && e.data->0.metadata is Some && e.data->0.metadata->0@ == success_metadata(*payload)
                && (e.data->0.words is Some <==> payload.utterances is Some)
                && (e.data->0.words is Some ==> e.data->0.words->0@ == all_kept_words(payload.utterances->0@))
                && (e.data->0.utterances is Some <==> payload.utterances is Some)
            && (e.data->0.utterances is Some ==> kept_utterances(e.data->0.utterances->0@, payload.utterances->0@))
            && (e.data->0.speakers is None <==> (payload.utterances is None || forall|k: int|
                0 <= k < payload.utterances->0@.len() ==> (#[trigger] payload.utterances->0@[k]).speaker is None))
            && (e.data->0.speakers is Some ==> speakers_of(e.data->0.speakers->0@, payload.utterances->0@))
                && e.raw is Some && e.raw->0 == payload.raw),
    {
        if !payload.has_result {
            return Err(WebhookError::InvalidPayload(owned("Missing 'payload' field")));
        }
        let (utterances, words, speakers) = match &payload.utterances {
            Some(us) => (Some(map_utterances(us)), Some(flatten_words(us)), distinct_speakers(us)),
            None => (None, None, None),
        };
        let summary = if payload.summarization_success {
            crate::types::copy_text(&payload.summary_results)
        } else {
            None
        };
        Ok(UnifiedWebhookEvent {
            success: true,
            provider: TranscriptionProvider::Gladia,
            event_type: WebhookEventType::TranscriptionCompleted,
            data: Some(WebhookTranscriptionData {
                id: id.clone(),
                status: TranscriptionStatus::Completed,
                text: crate::types::copy_text(&payload.full_transcript),
                confidence: None,
                duration: payload.audio_duration,
                language: crate::types::copy_text(&payload.first_language),
                speakers,
                words,
                utterances,
                summary,
                error: None,
                metadata: Some(success_metadata_text(payload)),
            }),
            timestamp,
            raw: Some(payload.raw.clone()),
        })
    }

    fn parse_error(id: &String, payload: &WebhookPayload, timestamp: String) -> (e: UnifiedWebhookEvent)
        ensures
            !e.success && e.event_type == WebhookEventType::TranscriptionFailed
                && e.provider == TranscriptionProvider::Gladia && e.timestamp == timestamp
                && e.data is Some && e.data->0.id == *id
                && e.data->0.status == TranscriptionStatus::Error
                && e.data->0.error is Some
                && (payload.error_message is Some ==> e.data->0.error->0 == payload.error_message->0)
                && (payload.error_message is None ==> e.data->0.error->0@ == "Transcription failed"@)
                && e.data->0.metadata is Some && e.data->0.metadata->0@ == failure_metadata(*payload)
                && e.data->0.text is None && e.data->0.words is None && e.data->0.utterances is None
                && e.raw is Some && e.raw->0 == payload.raw,
    {
        let message = match &payload.error_message {
            Some(m) => m.clone(),
            None => owned("Transcription failed"),
        };
        UnifiedWebhookEvent {
            success: false,
            provider: TranscriptionProvider::Gladia,
            event_type: WebhookEventType::TranscriptionFailed,
            data: Some(WebhookTranscriptionData {
                id: id.clone(),
                status: TranscriptionStatus::Error,
                text: None,
                confidence: None,
                duration: None,
                language: None,
                speakers: None,
                words: None,
                utterances: None,
                summary: None,
                error: Some(message),
                metadata: Some(failure_metadata_text(payload)),
            }),
            timestamp,
            raw: Some(payload.raw.clone()),
        }
    }
}

/// The vendor a payload's envelope points to: an `event` starting with
/// `transcription.` is Gladia's; a `status` with an `id` is AssemblyAI's,
/// whose callbacks are not handled; anything else is unknown.
pub open spec fn envelope_vendor(p: WebhookPayload) -> Result<TranscriptionProvider, Seq<char>> {
    if p.event is Some && starts_with(p.event->0@, "transcription."@) {
        Ok(TranscriptionProvider::Gladia)
    } else if p.has_status && p.id is Some {
        Err("assemblyai"@)
    } else {
        Err(Seq::empty())
    }
}

impl WebhookRouter {
    pub fn new() -> (r: WebhookRouter) {
        WebhookRouter
    }

    /// Detects the vendor from the envelope and parses the payload.
    pub fn route(&self, payload: &WebhookPayload, timestamp: String) -> (r: Result<UnifiedWebhookEvent, WebhookError>)
        ensures
            envelope_vendor(*payload) is Ok ==> parsed_as_gladia(*payload, timestamp, r),
            envelope_vendor(*payload) is Err && envelope_vendor(*payload)->Err_0.len() > 0 ==> (r matches Err(
                WebhookError::UnsupportedProvider(m),
            ) && m@ == envelope_vendor(*payload)->Err_0),
            envelope_vendor(*payload) is Err && envelope_vendor(*payload)->Err_0.len() == 0 ==> r == Err::<
                UnifiedWebhookEvent,
                WebhookError,
            >(WebhookError::UnknownProvider),
    {
        proof { reveal_strlit("assemblyai"); }
        if let Some(event) = &payload.event {
            if text_starts_with(event.as_str(), "transcription.") {
                return GladiaWebhookHandler::parse(payload, timestamp);
            }
        }
        if payload.has_status && payload.id.is_some() {
            return Err(WebhookError::UnsupportedProvider(owned("assemblyai")));
        }
        Err(WebhookError::UnknownProvider)
    }

    /// Parses a payload of a named vendor; only Gladia's are handled.
    pub fn parse(&self, provider: TranscriptionProvider, payload: &WebhookPayload, timestamp: String) -> (r: Result<
        UnifiedWebhookEvent,
        WebhookError,
    >)
        ensures
            provider == TranscriptionProvider::Gladia ==> parsed_as_gladia(*payload, timestamp, r),
            provider != TranscriptionProvider::Gladia ==> (r matches Err(WebhookError::UnsupportedProvider(m))
                && m@ == crate::router::provider_label(provider)),
    {
        match provider {
            TranscriptionProvider::Gladia => GladiaWebhookHandler::parse(payload, timestamp),
            _ => Err(WebhookError::UnsupportedProvider(owned(crate::router::label(provider)))),
        }
    }
}

} // verus!
