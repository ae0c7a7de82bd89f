//! The canonical, vendor-independent schema.
//!
//! Times are seconds held as whole thousandths, so a vendor time in
//! milliseconds enters unchanged as the count of thousandths. Scores
//! (confidences) are held as whole millionths.
use vstd::prelude::*;

verus! {

/// Supported transcription vendors.
#[derive(Debug, Clone, Copy, PartialEq, Eq, Hash, Structural)]
pub enum TranscriptionProvider {
    Gladia,
    AssemblyAI,
    Deepgram,
    AzureStt,
    OpenAIWhisper,
    Speechmatics,
}

/// Vendors that support real-time streaming transcription.
#[derive(Debug, Clone, Copy, PartialEq, Eq, Structural)]
pub enum StreamingProvider {
    Gladia,
    Deepgram,
    AssemblyAI,
}

/// Status of a transcription job.
#[derive(Debug, Clone, Copy, PartialEq, Eq, Structural)]
pub enum TranscriptionStatus {
    Queued,
    Processing,
    Completed,
    Error,
}

/// Feature flags of a vendor, queried before dispatch.
#[derive(Debug, Clone, Copy, PartialEq, Eq, Structural, Default)]
pub struct ProviderCapabilities {
    pub streaming: bool,
    pub diarization: bool,
    pub word_timestamps: bool,
    pub language_detection: bool,
    pub custom_vocabulary: bool,
    pub summarization: bool,
    pub sentiment_analysis: bool,
    pub entity_detection: bool,
    pub pii_redaction: bool,
}

/// A time in seconds, held as a whole number of thousandths of a second.
#[derive(Debug, Clone, Copy, PartialEq, Eq, Structural)]
pub struct Seconds {
    pub thousandths: i64,
}

/// A score between zero and one, held as a whole number of millionths.
#[derive(Debug, Clone, Copy, PartialEq, Eq, Structural)]
pub struct Confidence {
    pub millionths: i64,
}

/// Audio handed to a batch transcription.
#[derive(Debug, Clone, PartialEq, Eq)]
pub enum AudioInput {
    /// A URL of an audio file.
    Url(String),
    /// Raw audio bytes.
    Bytes { data: Vec<u8>, filename: Option<String> },
    /// Live audio, which belongs on the streaming path.
    Stream,
}

/// Canonical request options of a batch transcription.
#[derive(Debug, Clone, PartialEq, Eq, Default)]
pub struct TranscribeOptions {
    pub language: Option<String>,
    pub language_detection: Option<bool>,
    pub diarization: Option<bool>,
    pub speakers_expected: Option<u32>,
    pub word_timestamps: Option<bool>,
    pub custom_vocabulary: Option<Vec<String>>,
    pub summarization: Option<bool>,
    pub sentiment_analysis: Option<bool>,
    pub entity_detection: Option<bool>,
    pub pii_redaction: Option<bool>,
    pub webhook_url: Option<String>,
    /// Caller metadata, as the text of a JSON object.
    pub metadata: Option<String>,
}

/// A speaker found by diarization.
#[derive(Debug, Clone, PartialEq, Eq)]
pub struct Speaker {
    pub id: String,
    pub label: Option<String>,
    pub confidence: Option<Confidence>,
}

/// A word with its timing.
#[derive(Debug, Clone, PartialEq, Eq)]
pub struct Word {
    pub text: String,
    pub start: Seconds,
    pub end: Seconds,
    pub confidence: Option<Confidence>,
    pub speaker: Option<String>,
}

/// A phrase spoken by one speaker.
#[derive(Debug, Clone, PartialEq, Eq)]
pub struct Utterance {
    pub text: String,
    pub start: Seconds,
    pub end: Seconds,
    pub speaker: Option<String>,
    pub confidence: Option<Confidence>,
    pub words: Option<Vec<Word>>,
}

/// A failure, with a stable code and the vendor's message.
#[derive(Debug, Clone, PartialEq, Eq)]
pub struct TranscriptionError {
    pub code: String,
    pub message: String,
    /// Further details, as JSON text.
    pub details: Option<String>,
    pub status_code: Option<u16>,
}

/// The result of a transcription.
#[derive(Debug, Clone, PartialEq, Eq)]
pub struct TranscriptionData {
    pub id: String,
    pub text: String,
    pub confidence: Option<Confidence>,
    pub status: TranscriptionStatus,
    pub language: Option<String>,
    pub duration: Option<Seconds>,
    pub speakers: Option<Vec<Speaker>>,
    pub words: Option<Vec<Word>>,
    pub utterances: Option<Vec<Utterance>>,
    pub summary: Option<String>,
    /// Vendor metadata, as JSON text.
    pub metadata: Option<String>,
    pub created_at: Option<String>,
    pub completed_at: Option<String>,
}

/// The canonical answer of a batch operation: data on success, an error
/// otherwise.
#[derive(Debug, Clone, PartialEq, Eq)]
pub struct UnifiedTranscriptResponse {
    pub success: bool,
    pub provider: TranscriptionProvider,
    pub data: Option<TranscriptionData>,
    pub error: Option<TranscriptionError>,
    /// The vendor's own answer, as JSON text.
    pub raw: Option<String>,
}

impl UnifiedTranscriptResponse {
    /// Data is present exactly on success, an error exactly on failure.
    pub open spec fn well_formed(&self) -> bool {
        &&& self.success == self.data is Some
        &&& self.success == self.error is None
    }
}

/// Kinds of streaming events.
#[derive(Debug, Clone, Copy, PartialEq, Eq, Structural)]
pub enum StreamEventType {
    Open,
    Transcript,
    Utterance,
    Metadata,
    Error,
    Close,
}

/// A canonical streaming event.
#[derive(Debug, Clone, PartialEq, Eq)]
pub struct StreamEvent {
    pub event_type: StreamEventType,
    pub text: Option<String>,
    pub is_final: Option<bool>,
    pub utterance: Option<Utterance>,
    pub words: Option<Vec<Word>>,
    pub speaker: Option<String>,
    pub confidence: Option<Confidence>,
    pub error: Option<TranscriptionError>,
    /// Further event data, as JSON text.
    pub data: Option<String>,
}

impl StreamEvent {
    /// A transcript never carries an utterance; an utterance always does.
    pub open spec fn well_formed(&self) -> bool {
        &&& self.event_type == StreamEventType::Transcript ==> self.utterance is None
        &&& self.event_type == StreamEventType::Utterance ==> self.utterance is Some
    }
}

/// A piece of caller audio.
#[derive(Debug, Clone, PartialEq, Eq)]
pub struct AudioChunk {
    pub data: Vec<u8>,
    pub is_last: Option<bool>,
}

/// Canonical options of a streaming transcription.
#[derive(Debug, Clone, PartialEq, Eq, Default)]
pub struct StreamingOptions {
    pub language: Option<String>,
    pub language_detection: Option<bool>,
    pub diarization: Option<bool>,
    pub speakers_expected: Option<u32>,
    pub word_timestamps: Option<bool>,
    pub custom_vocabulary: Option<Vec<String>>,
    pub summarization: Option<bool>,
    pub sentiment_analysis: Option<bool>,
    pub entity_detection: Option<bool>,
    pub pii_redaction: Option<bool>,
    /// Caller metadata, as the text of a JSON object.
    pub metadata: Option<String>,
    /// Audio encoding name (linear16, mulaw, ...).
    pub encoding: Option<String>,
    /// Sample rate in Hz.
    pub sample_rate: Option<u32>,
    /// Number of audio channels.
    pub channels: Option<u8>,
    /// Bit depth of PCM audio.
    pub bit_depth: Option<u8>,
    /// Whether partial transcripts are wanted.
    pub interim_results: Option<bool>,
    /// Silence in milliseconds that ends an utterance.
    pub endpointing: Option<u32>,
    /// Longest stretch in seconds without endpointing.
    pub max_silence: Option<u32>,
    /// Vendor model name.
    pub model: Option<String>,
}

/// Lifecycle of a streaming session as seen by its handle.
#[derive(Debug, Clone, Copy, PartialEq, Eq, Structural)]
pub enum SessionStatus {
    Connecting,
    Open,
    Closing,
    Closed,
}

/// Copies an optional text.
pub fn copy_text(o: &Option<String>) -> (r: Option<String>)
    ensures
        r == *o,
{
    match o {
        Some(s) => Some(s.clone()),
        None => None,
    }
}

} // verus!
