//! Unified speech-to-text routing: the canonical schema, the audio encoding
//! table and chunk buffer, the vendor normalizers, the streaming-session
//! decisions, the bounded job poller, the provider router and the callback
//! parser.

pub mod adapters;
pub mod audio_encoding;
pub mod constants;
pub mod errors;
pub mod poller;
pub mod router;
pub mod session;
pub mod speakers;
pub mod text;
pub mod types;
pub mod webhooks;
