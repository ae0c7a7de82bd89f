//! The bounded job poller of asynchronous batch APIs: fetch, look at the
//! status, then finish, wait a fixed interval, or give up at the ceiling.
//! The caller performs the fetches and the waits, one at a time.
use vstd::prelude::*;
use crate::text::{decimal, integer_text, join, owned};
use crate::types::{
    TranscriptionData, TranscriptionError, TranscriptionProvider, TranscriptionStatus,
    UnifiedTranscriptResponse,
};

verus! {

/// The most fetches made for one job.
pub const MAX_ATTEMPTS: u32 = 120;

/// The wait between two fetches, in milliseconds.
pub const POLL_INTERVAL_MS: u64 = 1000;

/// What to do after a fetch.
#[derive(Debug, Clone, Copy, PartialEq, Eq, Structural)]
pub enum PollDecision {
    /// The job reached a terminal status: normalize the fetched result.
    Finish,
    /// Wait this many milliseconds, then fetch again.
    Wait { ms: u64 },
    /// The ceiling is reached after this many fetches.
    GiveUp { attempts: u32 },
}

/// Counts the fetches of one job.
#[derive(Debug, Clone, Copy, PartialEq, Eq)]
pub struct JobPoller {
    attempts: u32,
    max_attempts: u32,
    interval_ms: u64,
}

/// A status after which the job does not change.
pub open spec fn terminal(s: TranscriptionStatus) -> bool {
    s == TranscriptionStatus::Completed || s == TranscriptionStatus::Error
}

/// Whether a job status is terminal.
pub fn is_terminal(status: TranscriptionStatus) -> (r: bool)
    ensures
        r == terminal(status),
{
    status == TranscriptionStatus::Completed || status == TranscriptionStatus::Error
}

impl JobPoller {
    /// Fetches made so far.
    pub closed spec fn made(&self) -> nat {
        self.attempts as nat
    }

    /// The ceiling of fetches.
    pub closed spec fn ceiling(&self) -> nat {
        self.max_attempts as nat
    }

    /// The wait between fetches.
    pub closed spec fn interval(&self) -> u64 {
        self.interval_ms
    }

    /// A poller that has made no fetch, with the standard ceiling (120) and
    /// interval (1000 ms).
    pub fn new() -> (r: JobPoller)
        ensures
            r.made() == 0,
            r.ceiling() == MAX_ATTEMPTS,
            r.interval() == POLL_INTERVAL_MS,
    {
        JobPoller { attempts: 0, max_attempts: MAX_ATTEMPTS, interval_ms: POLL_INTERVAL_MS }
    }

    /// A poller with its own ceiling and interval.
    pub fn with_limits(max_attempts: u32, interval_ms: u64) -> (r: JobPoller)
        requires
            max_attempts > 0,
        ensures
            r.made() == 0,
            r.ceiling() == max_attempts,
            r.interval() == interval_ms,
    {
        JobPoller { attempts: 0, max_attempts, interval_ms }
    }

    /// Fetches made so far.
    pub fn attempts(&self) -> (r: u32)
        ensures
            r == self.made(),
    {
        self.attempts
    }

    /// The decision after a fetch, given the fetches made before it.
    pub open spec fn decision(&self, terminal: bool) -> PollDecision {
        if terminal {
            PollDecision::Finish
        } else if self.made() + 1 >= self.ceiling() {
            PollDecision::GiveUp { attempts: (self.made() + 1) as u32 }
        } else {
            PollDecision::Wait { ms: self.interval() }
        }
    }

    /// Records one fetch whose result is `terminal` or not, and decides:
    /// finish on a terminal result, give up when the ceiling is reached,
    /// wait the interval otherwise.
    pub fn observe(&mut self, terminal: bool) -> (d: PollDecision)
        requires
            old(self).made() < old(self).ceiling(),
        ensures
            final(self).made() == old(self).made() + 1,
            final(self).ceiling() == old(self).ceiling(),
            final(self).interval() == old(self).interval(),
            terminal ==> d == PollDecision::Finish,
            !terminal && final(self).made() == final(self).ceiling() ==> d == (PollDecision::GiveUp {
                attempts: final(self).made() as u32,
            }),
            !terminal && final(self).made() < final(self).ceiling() ==> d == (PollDecision::Wait {
                ms: old(self).interval(),
            }),
            d == old(self).decision(terminal),
    {
        self.attempts = self.attempts + 1;
        if terminal {
            PollDecision::Finish
        } else if self.attempts >= self.max_attempts {
            PollDecision::GiveUp { attempts: self.attempts }
        } else {
            PollDecision::Wait { ms: self.interval_ms }
        }
    }
}

/// The message of a job that never reached a terminal status.
pub open spec fn timeout_message(attempts: int) -> Seq<char> {
    "Transcription did not complete after "@ + decimal(attempts) + " attempts"@
}

/// The answer when the ceiling is reached: a failure with code
/// `POLLING_TIMEOUT` and no raw payload.
pub fn timeout_response(provider: TranscriptionProvider, attempts: u32) -> (r: UnifiedTranscriptResponse)
    ensures
        r.well_formed(),
        !r.success,
        r.provider == provider,
        r.raw is None,
        r.error->0.code@ == "POLLING_TIMEOUT"@,
        r.error->0.message@ == timeout_message(attempts as int),
{
    let m = join(owned("Transcription did not complete after "), integer_text(attempts as i64).as_str());
    let m = join(m, " attempts");
    UnifiedTranscriptResponse {
        success: false,
        provider,
        data: None,
        error: Some(TranscriptionError {
            code: owned("POLLING_TIMEOUT"),
            message: m,
            details: None,
            status_code: None,
        }),
        raw: None,
    }
}

/// The answer when results will come by callback: a queued job with an
/// empty payload.
pub fn queued_response(provider: TranscriptionProvider, id: String, raw: Option<String>) -> (r: UnifiedTranscriptResponse)
    ensures
        r.well_formed(),
        r.success,
        r.provider == provider,
        r.raw == raw,
        ({
            let d = r.data->0;
            &&& d.id == id
            &&& d.status == TranscriptionStatus::Queued
            &&& d.text@.len() == 0
            &&& d.confidence is None && d.language is None && d.duration is None
            &&& d.speakers is None && d.words is None && d.utterances is None
            &&& d.summary is None && d.metadata is None
        }),
{
    UnifiedTranscriptResponse {
        success: true,
        provider,
        data: Some(TranscriptionData {
            id,
            text: String::new(),
            confidence: None,
            status: TranscriptionStatus::Queued,
            language: None,
            duration: None,
            speakers: None,
            words: None,
            utterances: None,
            summary: None,
            metadata: None,
            created_at: None,
            completed_at: None,
        }),
        error: None,
        raw,
    }
}

/// What follows the submission of a batch job.
#[derive(Debug, Clone, PartialEq, Eq)]
pub enum AfterSubmit {
    /// Answer at once: the results will come by callback.
    Respond(UnifiedTranscriptResponse),
    /// Poll the job with this id.
    Poll(String),
}

/// After submitting a job: with a callback URL, answer at once with the
/// queued job and an empty payload; without one, poll the job.
pub fn after_submit(
    provider: TranscriptionProvider,
    id: String,
    webhook_url: &Option<String>,
    raw: Option<String>,
) -> (r: AfterSubmit)
    ensures
        webhook_url is None ==> r == AfterSubmit::Poll(id),
        webhook_url is Some ==> (r matches AfterSubmit::Respond(resp) && resp.well_formed() && resp.success
            && resp.provider == provider && resp.raw == raw && resp.data->0.id == id
            && resp.data->0.status == TranscriptionStatus::Queued && resp.data->0.text@.len() == 0
            && resp.data->0.words is None && resp.data->0.utterances is None && resp.data->0.speakers is None
            && resp.data->0.summary is None),
{
    match webhook_url {
        Some(_) => AfterSubmit::Respond(queued_response(provider, id, raw)),
        None => AfterSubmit::Poll(id),
    }
}

} // verus!
