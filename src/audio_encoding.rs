//! Canonical audio formats and their per-vendor wire tokens.
use vstd::prelude::*;
use crate::text::{join, lower_of, lowercase, owned, same_text};

verus! {

/// Canonical audio encodings.
#[derive(Debug, Clone, Copy, PartialEq, Eq, Structural)]
pub enum AudioEncoding {
    /// PCM 16-bit linear
    Linear16,
    /// mu-law 8-bit telephony codec
    Mulaw,
    /// A-law 8-bit telephony codec
    Alaw,
    Flac,
    Opus,
    Speex,
    /// AMR narrowband
    AmrNb,
    /// AMR wideband
    AmrWb,
    G729,
}

/// Vendors that stream.
#[derive(Debug, Clone, Copy, PartialEq, Eq, Structural)]
pub enum StreamingProvider {
    Gladia,
    Deepgram,
    AssemblyAI,
}

/// The canonical name of an encoding.
pub open spec fn encoding_name(e: AudioEncoding) -> Seq<char> {
    match e {
        AudioEncoding::Linear16 => "linear16"@,
        AudioEncoding::Mulaw => "mulaw"@,
        AudioEncoding::Alaw => "alaw"@,
        AudioEncoding::Flac => "flac"@,
        AudioEncoding::Opus => "opus"@,
        AudioEncoding::Speex => "speex"@,
        AudioEncoding::AmrNb => "amr-nb"@,
        AudioEncoding::AmrWb => "amr-wb"@,
        AudioEncoding::G729 => "g729"@,
    }
}

/// The variant name of an encoding, as written in messages.
pub open spec fn encoding_label(e: AudioEncoding) -> Seq<char> {
    match e {
        AudioEncoding::Linear16 => "Linear16"@,
        AudioEncoding::Mulaw => "Mulaw"@,
        AudioEncoding::Alaw => "Alaw"@,
        AudioEncoding::Flac => "Flac"@,
        AudioEncoding::Opus => "Opus"@,
        AudioEncoding::Speex => "Speex"@,
        AudioEncoding::AmrNb => "AmrNb"@,
        AudioEncoding::AmrWb => "AmrWb"@,
        AudioEncoding::G729 => "G729"@,
    }
}

/// The variant name of a vendor, as written in messages.
pub open spec fn provider_label(p: StreamingProvider) -> Seq<char> {
    match p {
        StreamingProvider::Gladia => "Gladia"@,
        StreamingProvider::Deepgram => "Deepgram"@,
        StreamingProvider::AssemblyAI => "AssemblyAI"@,
    }
}

/// The encoding that an already lowercased name denotes, aliases included.
pub open spec fn encoding_from_name(s: Seq<char>) -> Option<AudioEncoding> {
    if s == "linear16"@ || s == "pcm_s16le"@ || s == "pcm16"@ || s == "pcm"@ {
        Some(AudioEncoding::Linear16)
    } else if s == "mulaw"@ || s == "pcm_mulaw"@ {
        Some(AudioEncoding::Mulaw)
    } else if s == "alaw"@ || s == "pcm_alaw"@ {
        Some(AudioEncoding::Alaw)
    } else if s == "flac"@ {
        Some(AudioEncoding::Flac)
    } else if s == "opus"@ {
        Some(AudioEncoding::Opus)
    } else if s == "speex"@ {
        Some(AudioEncoding::Speex)
    } else if s == "amr-nb"@ {
        Some(AudioEncoding::AmrNb)
    } else if s == "amr-wb"@ {
        Some(AudioEncoding::AmrWb)
    } else if s == "g729"@ {
        Some(AudioEncoding::G729)
    } else {
        None
    }
}

/// The support matrix: the wire token of an encoding for a vendor, if the
/// vendor accepts it.
pub open spec fn vendor_token(e: AudioEncoding, p: StreamingProvider) -> Option<Seq<char>> {
    match p {
        StreamingProvider::Gladia => match e {
            AudioEncoding::Linear16 => Some("wav/pcm"@),
            AudioEncoding::Mulaw => Some("wav/ulaw"@),
            AudioEncoding::Alaw => Some("wav/alaw"@),
            _ => None,
        },
        StreamingProvider::Deepgram => match e {
            AudioEncoding::Linear16 => Some("linear16"@),
            AudioEncoding::Mulaw => Some("mulaw"@),
            AudioEncoding::Flac => Some("flac"@),
            AudioEncoding::Opus => Some("opus"@),
            AudioEncoding::Speex => Some("speex"@),
            AudioEncoding::AmrNb => Some("amr-nb"@),
            AudioEncoding::AmrWb => Some("amr-wb"@),
            AudioEncoding::G729 => Some("g729"@),
            _ => None,
        },
        StreamingProvider::AssemblyAI => match e {
            AudioEncoding::Linear16 => Some("pcm_s16le"@),
            AudioEncoding::Mulaw => Some("pcm_mulaw"@),
            AudioEncoding::Alaw => Some("pcm_alaw"@),
            _ => None,
        },
    }
}

/// The list of a vendor's supported encodings, as named in messages.
pub open spec fn supported_list(p: StreamingProvider) -> Seq<char> {
    match p {
        StreamingProvider::Gladia => "linear16, mulaw, alaw"@,
        StreamingProvider::Deepgram => "linear16, mulaw, flac, opus, speex, amr-nb, amr-wb, g729"@,
        StreamingProvider::AssemblyAI => "linear16, mulaw, alaw"@,
    }
}

/// The message of an unsupported (encoding, vendor) pair.
pub open spec fn unsupported_message(e: AudioEncoding, p: StreamingProvider) -> Seq<char> {
    "Encoding '"@ + encoding_label(e) + "' is not supported by "@ + provider_label(p)
        + ". Supported encodings: "@ + supported_list(p)
}

impl AudioEncoding {
    /// Canonical name of the encoding.
    pub fn as_str(&self) -> (r: &'static str)
        ensures
            r@ == encoding_name(*self),
    {
        match self {
            AudioEncoding::Linear16 => "linear16",
            AudioEncoding::Mulaw => "mulaw",
            AudioEncoding::Alaw => "alaw",
            AudioEncoding::Flac => "flac",
            AudioEncoding::Opus => "opus",
            AudioEncoding::Speex => "speex",
            AudioEncoding::AmrNb => "amr-nb",
            AudioEncoding::AmrWb => "amr-wb",
            AudioEncoding::G729 => "g729",
        }
    }

    /// Variant name of the encoding.
    fn label(&self) -> (r: &'static str)
        ensures
            r@ == encoding_label(*self),
    {
        match self {
            AudioEncoding::Linear16 => "Linear16",
            AudioEncoding::Mulaw => "Mulaw",
            AudioEncoding::Alaw => "Alaw",
            AudioEncoding::Flac => "Flac",
            AudioEncoding::Opus => "Opus",
            AudioEncoding::Speex => "Speex",
            AudioEncoding::AmrNb => "AmrNb",
            AudioEncoding::AmrWb => "AmrWb",
            AudioEncoding::G729 => "G729",
        }
    }

    /// Parses a name that is already in lower case.
    pub fn from_lowercase_name(s: &str) -> (r: Option<AudioEncoding>)
        ensures
            r == encoding_from_name(s@),
    {
        if same_text(s, "linear16") || same_text(s, "pcm_s16le") || same_text(s, "pcm16")
            || same_text(s, "pcm") {
            Some(AudioEncoding::Linear16)
        } else if same_text(s, "mulaw") || same_text(s, "pcm_mulaw") {
            Some(AudioEncoding::Mulaw)
        } else if same_text(s, "alaw") || same_text(s, "pcm_alaw") {
            Some(AudioEncoding::Alaw)
        } else if same_text(s, "flac") {
            Some(AudioEncoding::Flac)
        } else if same_text(s, "opus") {
            Some(AudioEncoding::Opus)
        } else if same_text(s, "speex") {
            Some(AudioEncoding::Speex)
        } else if same_text(s, "amr-nb") {
            Some(AudioEncoding::AmrNb)
        } else if same_text(s, "amr-wb") {
            Some(AudioEncoding::AmrWb)
        } else if same_text(s, "g729") {
            Some(AudioEncoding::G729)
        } else {
            None
        }
    }

    /// Parses a name in any letter case.
    pub fn from_str(s: &str) -> (r: Option<AudioEncoding>)
        ensures
            r == encoding_from_name(lower_of(s@)),
    {
        let lower = lowercase(s);
        AudioEncoding::from_lowercase_name(lower.as_str())
    }
}

impl StreamingProvider {
    fn label(&self) -> (r: &'static str)
        ensures
            r@ == provider_label(*self),
    {
        match self {
            StreamingProvider::Gladia => "Gladia",
            StreamingProvider::Deepgram => "Deepgram",
            StreamingProvider::AssemblyAI => "AssemblyAI",
        }
    }

    fn supported(&self) -> (r: &'static str)
        ensures
            r@ == supported_list(*self),
    {
        match self {
            StreamingProvider::Gladia => "linear16, mulaw, alaw",
            StreamingProvider::Deepgram => "linear16, mulaw, flac, opus, speex, amr-nb, amr-wb, g729",
            StreamingProvider::AssemblyAI => "linear16, mulaw, alaw",
        }
    }
}

/// Standard sample rates (Hz) for streaming.
#[derive(Debug, Clone, Copy, PartialEq, Eq, Structural)]
pub enum AudioSampleRate {
    Hz8000,
    Hz16000,
    Hz32000,
    Hz44100,
    Hz48000,
}

/// The rate in Hz.
pub open spec fn sample_rate_hz(r: AudioSampleRate) -> u32 {
    match r {
        AudioSampleRate::Hz8000 => 8000,
        AudioSampleRate::Hz16000 => 16000,
        AudioSampleRate::Hz32000 => 32000,
        AudioSampleRate::Hz44100 => 44100,
        AudioSampleRate::Hz48000 => 48000,
    }
}

impl AudioSampleRate {
    pub fn as_u32(&self) -> (r: u32)
        ensures
            r == sample_rate_hz(*self),
    {
        match self {
            AudioSampleRate::Hz8000 => 8000,
            AudioSampleRate::Hz16000 => 16000,
            AudioSampleRate::Hz32000 => 32000,
            AudioSampleRate::Hz44100 => 44100,
            AudioSampleRate::Hz48000 => 48000,
        }
    }
}

/// Standard bit depths for PCM audio.
#[derive(Debug, Clone, Copy, PartialEq, Eq, Structural)]
pub enum AudioBitDepth {
    Bit8,
    Bit16,
    Bit24,
    Bit32,
}

/// A channel count between one and eight.
#[derive(Debug, Clone, Copy, PartialEq, Eq)]
pub struct AudioChannels {
    count: u8,
}

impl AudioChannels {
    #[verifier::type_invariant]
    spec fn in_range(self) -> bool {
        1 <= self.count <= 8
    }

    /// The channel count.
    pub closed spec fn spec_count(self) -> u8 {
        self.count
    }

    /// A channel count, if it lies in 1..=8.
    pub fn new(channels: u8) -> (r: Option<AudioChannels>)
        ensures
            r is Some <==> 1 <= channels <= 8,
            r is Some ==> r->0.spec_count() == channels,
    {
        if channels >= 1 && channels <= 8 {
            Some(AudioChannels { count: channels })
        } else {
            None
        }
    }

    pub fn mono() -> (r: AudioChannels)
        ensures
            r.spec_count() == 1,
    {
        AudioChannels { count: 1 }
    }

    pub fn stereo() -> (r: AudioChannels)
        ensures
            r.spec_count() == 2,
    {
        AudioChannels { count: 2 }
    }

    pub fn as_u8(&self) -> (r: u8)
        ensures
            r == self.spec_count(),
            1 <= r <= 8,
    {
        proof { use_type_invariant(self); }
        self.count
    }
}

impl Default for AudioChannels {
    fn default() -> (r: AudioChannels)
        ensures
            r.spec_count() == 1,
    {
        AudioChannels::mono()
    }
}

fn map_to_gladia(encoding: AudioEncoding) -> (r: Option<&'static str>)
    ensures
        r is Some <==> vendor_token(encoding, StreamingProvider::Gladia) is Some,
        r is Some ==> r->0@ == vendor_token(encoding, StreamingProvider::Gladia)->0,
{
    match encoding {
        AudioEncoding::Linear16 => Some("wav/pcm"),
        AudioEncoding::Mulaw => Some("wav/ulaw"),
        AudioEncoding::Alaw => Some("wav/alaw"),
        _ => None,
    }
}

fn map_to_deepgram(encoding: AudioEncoding) -> (r: Option<&'static str>)
    ensures
        r is Some <==> vendor_token(encoding, StreamingProvider::Deepgram) is Some,
        r is Some ==> r->0@ == vendor_token(encoding, StreamingProvider::Deepgram)->0,
{
    match encoding {
        AudioEncoding::Linear16 => Some("linear16"),
        AudioEncoding::Mulaw => Some("mulaw"),
        AudioEncoding::Flac => Some("flac"),
        AudioEncoding::Opus => Some("opus"),
        AudioEncoding::Speex => Some("speex"),
        AudioEncoding::AmrNb => Some("amr-nb"),
        AudioEncoding::AmrWb => Some("amr-wb"),
        AudioEncoding::G729 => Some("g729"),
        _ => None,
    }
}

fn map_to_assemblyai(encoding: AudioEncoding) -> (r: Option<&'static str>)
    ensures
        r is Some <==> vendor_token(encoding, StreamingProvider::AssemblyAI) is Some,
        r is Some ==> r->0@ == vendor_token(encoding, StreamingProvider::AssemblyAI)->0,
{
    match encoding {
        AudioEncoding::Linear16 => Some("pcm_s16le"),
        AudioEncoding::Mulaw => Some("pcm_mulaw"),
        AudioEncoding::Alaw => Some("pcm_alaw"),
        _ => None,
    }
}

/// The vendor's wire token for an encoding, or a message naming the
/// encoding, the vendor and the vendor's full supported set.
pub fn map_encoding_to_provider(encoding: AudioEncoding, provider: StreamingProvider) -> (r: Result<
    &'static str,
    String,
>)
    ensures
        r is Ok <==> vendor_token(encoding, provider) is Some,
        r is Ok ==> r->Ok_0@ == vendor_token(encoding, provider)->0,
        r is Err ==> r->Err_0@ == unsupported_message(encoding, provider),
{
    let result = match provider {
        StreamingProvider::Gladia => map_to_gladia(encoding),
        StreamingProvider::Deepgram => map_to_deepgram(encoding),
        StreamingProvider::AssemblyAI => map_to_assemblyai(encoding),
    };
    match result {
        Some(token) => Ok(token),
        None => {
            let m = owned("Encoding '");
            let m = join(m, encoding.label());
            let m = join(m, "' is not supported by ");
            let m = join(m, provider.label());
            let m = join(m, ". Supported encodings: ");
            let m = join(m, provider.supported());
            Err(m)
        },
    }
}

/// The verdict of `validate_audio_config` on plain values.
pub open spec fn audio_config_error(
    encoding: Option<AudioEncoding>,
    channels: Option<int>,
    provider: StreamingProvider,
) -> Option<Seq<char>> {
    if encoding is Some && vendor_token(encoding->0, provider) is None {
        Some(unsupported_message(encoding->0, provider))
    } else if provider == StreamingProvider::Gladia && channels is Some && !(1 <= channels->0 <= 8) {
        Some("Gladia supports 1-8 audio channels"@)
    } else if provider == StreamingProvider::AssemblyAI && encoding is Some && encoding->0
        != AudioEncoding::Linear16 {
        Some("AssemblyAI streaming only supports linear16 encoding"@)
    } else {
        None
    }
}

/// Checks an audio configuration against a vendor's constraints.
pub fn validate_audio_config(
    encoding: Option<AudioEncoding>,
    channels: Option<AudioChannels>,
    provider: StreamingProvider,
) -> (r: Result<(), String>)
    ensures
        ({
            let ch = match channels {
                Some(c) => Some(c.spec_count() as int),
                None => None,
            };
            match audio_config_error(encoding, ch, provider) {
                Some(m) => r is Err && r->Err_0@ == m,
                None => r is Ok,
            }
        }),
{
    if let Some(enc) = encoding {
        match map_encoding_to_provider(enc, provider) {
            Ok(_) => {},
            Err(m) => {
                return Err(m);
            },
        }
    }
    if provider == StreamingProvider::Gladia {
        if let Some(ch) = channels {
            let n = ch.as_u8();
            if n < 1 || n > 8 {
                return Err(owned("Gladia supports 1-8 audio channels"));
            }
        }
    }
    if provider == StreamingProvider::AssemblyAI {
        if let Some(enc) = encoding {
            if enc != AudioEncoding::Linear16 {
                return Err(owned("AssemblyAI streaming only supports linear16 encoding"));
            }
        }
    }
    Ok(())
}

/// The refusal of an (encoding, vendor) pair outside the vendor's table
/// ends with the vendor's full supported set.
pub proof fn lemma_refusal_names_supported_set(encoding: AudioEncoding, provider: StreamingProvider)
    ensures
        vendor_token(encoding, provider) is None ==> unsupported_message(encoding, provider).subrange(
            unsupported_message(encoding, provider).len() - supported_list(provider).len(),
            unsupported_message(encoding, provider).len() as int,
        ) == supported_list(provider),
{
    let m = unsupported_message(encoding, provider);
    let prefix = "Encoding '"@ + encoding_label(encoding) + "' is not supported by "@
        + provider_label(provider) + ". Supported encodings: "@;
    assert(m == prefix + supported_list(provider));
    assert(m.subrange(prefix.len() as int, m.len() as int) =~= supported_list(provider));
}

} // verus!
