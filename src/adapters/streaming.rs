//! Streaming helpers: wire encodings, the audio chunk buffer, lifecycle
//! events and session ids.
use vstd::prelude::*;
use crate::text::{digits, join, lower_of, lowercase, natural_text, owned, same_text};
use crate::types::{StreamEvent, StreamEventType, TranscriptionError};

verus! {

/// Audio encodings named in streaming options.
#[derive(Debug, Clone, Copy, PartialEq, Eq, Structural)]
pub enum AudioEncoding {
    /// 16-bit signed little-endian PCM
    Pcm16,
    /// 8-bit mu-law
    Mulaw,
    /// 8-bit A-law
    Alaw,
    Opus,
    Flac,
    Mp3,
}

/// The encoding that an already lowercased name denotes, aliases included.
pub open spec fn stream_encoding_from_name(s: Seq<char>) -> Option<AudioEncoding> {
    if s == "linear16"@ || s == "pcm_s16le"@ || s == "pcm16"@ || s == "pcm"@ || s == "wav/pcm"@ {
        Some(AudioEncoding::Pcm16)
    } else if s == "mulaw"@ || s == "pcm_mulaw"@ || s == "wav/mulaw"@ {
        Some(AudioEncoding::Mulaw)
    } else if s == "alaw"@ || s == "pcm_alaw"@ || s == "wav/alaw"@ {
        Some(AudioEncoding::Alaw)
    } else if s == "opus"@ {
        Some(AudioEncoding::Opus)
    } else if s == "flac"@ {
        Some(AudioEncoding::Flac)
    } else if s == "mp3"@ {
        Some(AudioEncoding::Mp3)
    } else {
        None
    }
}

/// Deepgram's name of an encoding.
pub open spec fn deepgram_encoding(e: AudioEncoding) -> Seq<char> {
    match e {
        AudioEncoding::Pcm16 => "linear16"@,
        AudioEncoding::Mulaw => "mulaw"@,
        AudioEncoding::Alaw => "alaw"@,
        AudioEncoding::Opus => "opus"@,
        AudioEncoding::Flac => "flac"@,
        AudioEncoding::Mp3 => "mp3"@,
    }
}

/// AssemblyAI's name of an encoding; none for those it does not stream.
pub open spec fn assemblyai_encoding(e: AudioEncoding) -> Option<Seq<char>> {
    match e {
        AudioEncoding::Pcm16 => Some("pcm_s16le"@),
        AudioEncoding::Mulaw => Some("pcm_mulaw"@),
        AudioEncoding::Alaw => Some("pcm_alaw"@),
        _ => None,
    }
}

/// Gladia's name of an encoding; none for those it does not stream.
pub open spec fn gladia_encoding(e: AudioEncoding) -> Option<Seq<char>> {
    match e {
        AudioEncoding::Pcm16 => Some("wav/pcm"@),
        AudioEncoding::Mulaw => Some("wav/mulaw"@),
        AudioEncoding::Alaw => Some("wav/alaw"@),
        _ => None,
    }
}

/// The message refusing an encoding name that a vendor does not stream.
pub open spec fn unsupported_encoding_message(name: Seq<char>, vendor: Seq<char>, supported: Seq<char>) -> Seq<char> {
    "Encoding '"@ + name + "' is not supported by "@ + vendor + ". Supported encodings: "@ + supported
}

/// Refuses an encoding name that a vendor does not stream, naming the
/// vendor's supported set.
pub fn unsupported_encoding(name: &str, vendor: &str, supported: &str) -> (r: crate::adapters::AdapterError)
    ensures
        r matches crate::adapters::AdapterError::NotSupported(m) && m@ == unsupported_encoding_message(
            name@,
            vendor@,
            supported@,
        ),
{
    let m = join(owned("Encoding '"), name);
    let m = join(m, "' is not supported by ");
    let m = join(m, vendor);
    let m = join(m, ". Supported encodings: ");
    crate::adapters::AdapterError::NotSupported(join(m, supported))
}

impl AudioEncoding {
    pub fn to_deepgram(&self) -> (r: &'static str)
        ensures
            r@ == deepgram_encoding(*self),
    {
        match self {
            AudioEncoding::Pcm16 => "linear16",
            AudioEncoding::Mulaw => "mulaw",
            AudioEncoding::Alaw => "alaw",
            AudioEncoding::Opus => "opus",
            AudioEncoding::Flac => "flac",
            AudioEncoding::Mp3 => "mp3",
        }
    }

    /// AssemblyAI's name, or none where AssemblyAI does not stream it.
    pub fn to_assemblyai(&self) -> (r: Option<&'static str>)
        ensures
            r is Some <==> assemblyai_encoding(*self) is Some,
            r is Some ==> r->0@ == assemblyai_encoding(*self)->0,
    {
        match self {
            AudioEncoding::Pcm16 => Some("pcm_s16le"),
            AudioEncoding::Mulaw => Some("pcm_mulaw"),
            AudioEncoding::Alaw => Some("pcm_alaw"),
            _ => None,
        }
    }

    /// Gladia's name, or none where Gladia does not stream it.
    pub fn to_gladia(&self) -> (r: Option<&'static str>)
        ensures
            r is Some <==> gladia_encoding(*self) is Some,
            r is Some ==> r->0@ == gladia_encoding(*self)->0,
    {
        match self {
            AudioEncoding::Pcm16 => Some("wav/pcm"),
            AudioEncoding::Mulaw => Some("wav/mulaw"),
            AudioEncoding::Alaw => Some("wav/alaw"),
            _ => None,
        }
    }

    /// Parses a name that is already in lower case.
    pub fn from_lowercase_name(s: &str) -> (r: Option<AudioEncoding>)
        ensures
            r == stream_encoding_from_name(s@),
    {
        if same_text(s, "linear16") || same_text(s, "pcm_s16le") || same_text(s, "pcm16")
            || same_text(s, "pcm") || same_text(s, "wav/pcm") {
            Some(AudioEncoding::Pcm16)
        } else if same_text(s, "mulaw") || same_text(s, "pcm_mulaw") || same_text(s, "wav/mulaw") {
            Some(AudioEncoding::Mulaw)
        } else if same_text(s, "alaw") || same_text(s, "pcm_alaw") || same_text(s, "wav/alaw") {
            Some(AudioEncoding::Alaw)
        } else if same_text(s, "opus") {
            Some(AudioEncoding::Opus)
        } else if same_text(s, "flac") {
            Some(AudioEncoding::Flac)
        } else if same_text(s, "mp3") {
            Some(AudioEncoding::Mp3)
        } else {
            None
        }
    }

    /// Parses a name in any letter case.
    pub fn from_str(s: &str) -> (r: Option<AudioEncoding>)
        ensures
            r == stream_encoding_from_name(lower_of(s@)),
    {
        let lower = lowercase(s);
        AudioEncoding::from_lowercase_name(lower.as_str())
    }
}

/// The concatenation of a sequence of chunks.
pub open spec fn flatten(chunks: Seq<Vec<u8>>) -> Seq<u8>
    decreases chunks.len(),
{
    if chunks.len() == 0 {
        Seq::empty()
    } else {
        flatten(chunks.drop_last()) + chunks.last()@
    }
}

/// Accumulates audio bytes and releases chunks of exactly `max_bytes`,
/// first in, first out.
#[derive(Debug)]
pub struct AudioBuffer {
    buffer: Vec<u8>,
    min_bytes: usize,
    max_bytes: usize,
}

impl AudioBuffer {
    /// The bytes held back.
    pub closed spec fn pending(&self) -> Seq<u8> {
        self.buffer@
    }

    /// The size of every released chunk.
    pub closed spec fn chunk_size(&self) -> nat {
        self.max_bytes as nat
    }

    /// The smallest chunk the vendor accepts.
    pub closed spec fn min_size(&self) -> nat {
        self.min_bytes as nat
    }

    /// Fewer bytes than one chunk are held back.
    pub open spec fn well_formed(&self) -> bool {
        &&& self.chunk_size() > 0
        &&& self.pending().len() < self.chunk_size()
    }

    /// An empty buffer releasing chunks of `max_bytes`.
    pub fn new(min_bytes: usize, max_bytes: usize) -> (r: AudioBuffer)
        requires
            max_bytes > 0,
        ensures
            r.well_formed(),
            r.pending() == Seq::<u8>::empty(),
            r.chunk_size() == max_bytes,
            r.min_size() == min_bytes,
    {
        AudioBuffer { buffer: Vec::new(), min_bytes, max_bytes }
    }

    /// The buffer AssemblyAI needs: 50 ms to 1000 ms of 16 kHz 16-bit mono
    /// audio, that is 1600 to 32000 bytes.
    pub fn for_assemblyai() -> (r: AudioBuffer)
        ensures
            r.well_formed(),
            r.pending() == Seq::<u8>::empty(),
            r.chunk_size() == 32000,
            r.min_size() == 1600,
    {
        AudioBuffer::new(1600, 32000)
    }

    /// Appends `data`, then slices whole chunks off the front while at least
    /// one chunk is held; the rest stays held.
    pub fn add(&mut self, data: Vec<u8>) -> (chunks: Vec<Vec<u8>>)
        requires
            old(self).well_formed(),
            old(self).pending().len() + data@.len() <= usize::MAX,
        ensures
            final(self).well_formed(),
            final(self).chunk_size() == old(self).chunk_size(),
            final(self).min_size() == old(self).min_size(),
            flatten(chunks@) + final(self).pending() == old(self).pending() + data@,
            forall|i: int| 0 <= i < chunks@.len() ==> #[trigger] chunks@[i]@.len() == old(self).chunk_size(),
    {
        let ghost all = self.buffer@ + data@;
        let ghost min = self.min_bytes;
        let mut data = data;
        self.buffer.append(&mut data);
        let mut chunks: Vec<Vec<u8>> = Vec::new();
        let max = self.max_bytes;
        while self.buffer.len() >= max
            invariant
                max == self.max_bytes,
                min == self.min_bytes,
                max > 0,
                flatten(chunks@) + self.buffer@ == all,
                forall|i: int| 0 <= i < chunks@.len() ==> #[trigger] chunks@[i]@.len() == max,
            decreases self.buffer@.len(),
        {
            let mut chunk = self.buffer.split_off(max);
            std::mem::swap(&mut self.buffer, &mut chunk);
            let ghost before = chunks@;
            chunks.push(chunk);
            proof {
                assert(chunks@.drop_last() == before);
                assert(flatten(chunks@) == flatten(before) + chunk@);
                assert(flatten(chunks@) + self.buffer@ =~= flatten(before) + (chunk@ + self.buffer@));
            }
        }
        chunks
    }

    /// Releases whatever is held, whatever its size, or nothing when empty.
    pub fn flush(&mut self) -> (r: Option<Vec<u8>>)
        requires
            old(self).well_formed(),
        ensures
            final(self).well_formed(),
            final(self).chunk_size() == old(self).chunk_size(),
            final(self).min_size() == old(self).min_size(),
            final(self).pending() == Seq::<u8>::empty(),
            r is Some <==> old(self).pending().len() > 0,
            r is Some ==> r->0@ == old(self).pending(),
    {
        if self.buffer.len() >= self.min_bytes && self.buffer.len() > 0 {
            let mut out = Vec::new();
            std::mem::swap(&mut self.buffer, &mut out);
            Some(out)
        } else if self.buffer.len() > 0 {
            let mut out = Vec::new();
            std::mem::swap(&mut self.buffer, &mut out);
            Some(out)
        } else {
            None
        }
    }
}

/// A stream event carrying nothing but its kind.
pub open spec fn bare_event(t: StreamEventType) -> StreamEvent {
    StreamEvent {
        event_type: t,
        text: None,
        is_final: None,
        utterance: None,
        words: None,
        speaker: None,
        confidence: None,
        error: None,
        data: None,
    }
}

/// An error event with the given code and message.
pub fn error_event(code: &str, message: String) -> (r: StreamEvent)
    ensures
        r.event_type == StreamEventType::Error,
        r.error is Some,
        r.error->0.code@ == code@,
        r.error->0.message == message,
        r.error->0.details is None,
        r.error->0.status_code is None,
        r.text is None && r.is_final is None && r.utterance is None && r.words is None,
        r.speaker is None && r.confidence is None && r.data is None,
{
    StreamEvent {
        event_type: StreamEventType::Error,
        text: None,
        is_final: None,
        utterance: None,
        words: None,
        speaker: None,
        confidence: None,
        error: Some(TranscriptionError { code: owned(code), message, details: None, status_code: None }),
        data: None,
    }
}

/// The event that announces an open session.
pub fn open_event() -> (r: StreamEvent)
    ensures
        r == bare_event(StreamEventType::Open),
{
    StreamEvent {
        event_type: StreamEventType::Open,
        text: None,
        is_final: None,
        utterance: None,
        words: None,
        speaker: None,
        confidence: None,
        error: None,
        data: None,
    }
}

/// The event that announces a closed session.
pub fn close_event() -> (r: StreamEvent)
    ensures
        r == bare_event(StreamEventType::Close),
{
    StreamEvent {
        event_type: StreamEventType::Close,
        text: None,
        is_final: None,
        utterance: None,
        words: None,
        speaker: None,
        confidence: None,
        error: None,
        data: None,
    }
}

/// Relies on `SystemTime::elapsed` of `UNIX_EPOCH`: the nanoseconds since
/// the epoch (zero for a clock set before it). Nothing is known of the value.
#[verifier::external_body]
fn clock_nanos() -> (r: u128) {
    std::time::UNIX_EPOCH.elapsed().unwrap_or_default().as_nanos()
}

/// The session id made from a clock reading: `stream_` and the reading in
/// hexadecimal.
pub fn session_id_from_clock(nanos: u128) -> (r: String)
    ensures
        r@ == "stream_"@ + digits(nanos as nat, true),
{
    let hex = natural_text(nanos, true);
    join(owned("stream_"), hex.as_str())
}

/// A session id from the current time.
pub fn generate_session_id() -> (r: String)
    ensures
        exists|n: nat| r@ == "stream_"@ + digits(n, true),
{
    let nanos = clock_nanos();
    session_id_from_clock(nanos)
}

} // verus!
