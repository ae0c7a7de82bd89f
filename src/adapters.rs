//! The per-vendor adapters: configuration, capabilities and the
//! vendor-to-canonical mappings.
use vstd::prelude::*;
use crate::text::owned;

pub mod assemblyai;
pub mod deepgram;
pub mod gladia;
pub mod streaming;

verus! {

/// Failures of adapter and router operations.
#[derive(Debug, Clone, PartialEq, Eq)]
pub enum AdapterError {
    /// The HTTP request failed; the message says why.
    HttpError(String),
    /// The streaming transport failed.
    WebSocketError(String),
    /// A payload could not be encoded or decoded.
    SerializationError(String),
    /// The vendor reported a failure.
    ProviderError { code: String, message: String },
    /// The adapter was used before `initialize`.
    NotInitialized,
    /// The vendor lacks the feature.
    NotSupported(String),
    /// The configuration is unusable.
    InvalidConfig(String),
}

/// Credentials and connection settings of one vendor.
#[derive(Debug, Clone, PartialEq, Eq)]
pub struct ProviderConfig {
    /// API key for authentication.
    pub api_key: String,
    /// Base API URL; the vendor default where absent.
    pub base_url: Option<String>,
    /// Request timeout in milliseconds.
    pub timeout_ms: Option<u64>,
    /// Extra request headers, as (name, value) pairs.
    pub headers: Option<Vec<(String, String)>>,
}

/// The outcome of `initialize` on a configuration: a credential is needed.
pub fn check_config(config: &ProviderConfig) -> (r: Result<(), AdapterError>)
    ensures
        r is Ok <==> config.api_key@.len() > 0,
        r is Err ==> (r->Err_0 matches AdapterError::InvalidConfig(m) && m@ == "API key is required"@),
{
    if config.api_key.as_str().is_empty() {
        Err(AdapterError::InvalidConfig(owned("API key is required")))
    } else {
        Ok(())
    }
}

/// The error of a batch input that is not a URL.
pub fn url_only(audio: crate::types::AudioInput) -> (r: Result<String, AdapterError>)
    ensures
        audio matches crate::types::AudioInput::Url(u) ==> r == Ok::<String, AdapterError>(u),
        audio matches crate::types::AudioInput::Bytes { .. } ==> (r matches Err(
            AdapterError::NotSupported(m),
        ) && m@ == "File upload not yet implemented - use URL input"@),
        audio matches crate::types::AudioInput::Stream ==> (r matches Err(
            AdapterError::NotSupported(m),
        ) && m@ == "Use transcribe_stream for streaming audio"@),
{
    match audio {
        crate::types::AudioInput::Url(u) => Ok(u),
        crate::types::AudioInput::Bytes { .. } => Err(
            AdapterError::NotSupported(owned("File upload not yet implemented - use URL input")),
        ),
        crate::types::AudioInput::Stream => Err(
            AdapterError::NotSupported(owned("Use transcribe_stream for streaming audio")),
        ),
    }
}

} // verus!
