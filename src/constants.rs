//! Default timeouts and polling settings.
use vstd::prelude::*;

verus! {

/// Timeouts of the different kinds of operation, in milliseconds.
#[derive(Debug, Clone, Copy, PartialEq, Eq, Structural)]
pub struct Timeouts {
    /// An HTTP request.
    pub http_request: u64,
    /// Processing of long audio.
    pub audio_processing: u64,
    /// Establishing a streaming connection.
    pub ws_connection: u64,
    /// Closing a streaming connection gracefully.
    pub ws_close: u64,
}

impl Timeouts {
    /// The default timeouts: 60 s per request, 120 s of audio processing,
    /// 10 s to connect a stream and 5 s to close it.
    pub fn defaults() -> (r: Timeouts)
        ensures
            r == (Timeouts { http_request: 60000, audio_processing: 120000, ws_connection: 10000, ws_close: 5000 }),
    {
        Timeouts { http_request: 60000, audio_processing: 120000, ws_connection: 10000, ws_close: 5000 }
    }
}

/// Polling settings of asynchronous jobs.
#[derive(Debug, Clone, Copy, PartialEq, Eq, Structural)]
pub struct Polling {
    /// The most polling attempts.
    pub max_attempts: u32,
    /// The usual wait between attempts, in milliseconds.
    pub interval_ms: u64,
    /// The wait for long-running jobs, in milliseconds.
    pub slow_interval_ms: u64,
}

impl Polling {
    /// The default polling settings: 60 attempts, 2 s apart (3 s for slow
    /// jobs).
    pub fn defaults() -> (r: Polling)
        ensures
            r == (Polling { max_attempts: 60, interval_ms: 2000, slow_interval_ms: 3000 }),
    {
        Polling { max_attempts: 60, interval_ms: 2000, slow_interval_ms: 3000 }
    }
}

} // verus!
