//! The decisions of a streaming session. The caller runs the transport and
//! hands each happening (connected, caller audio, a vendor message, a
//! transport failure, a close request) to the session, which answers with
//! the actions to perform in order: frames to send, the transport to close,
//! canonical events to emit. Once the session has ended, every happening is
//! ignored.
use vstd::prelude::*;
use crate::adapters::assemblyai::{self, AssemblyAIStreamMessage};
use crate::adapters::deepgram::{self, DeepgramStreamMessage};
use crate::adapters::gladia::{self, GladiaStreamMessage};
use crate::adapters::streaming::{close_event, error_event, flatten, open_event, AudioBuffer};
use crate::text::owned;
use crate::types::{StreamEvent, StreamEventType, StreamingProvider, TranscriptionProvider};

verus! {

/// Where a session stands.
#[derive(Debug, Clone, Copy, PartialEq, Eq, Structural)]
pub enum SessionPhase {
    /// The transport is being established.
    Connecting,
    /// Audio and messages flow.
    Streaming,
    /// The session is over; nothing more happens.
    Ended,
}

/// A message received from the vendor, decoded by its tag.
#[derive(Debug, Clone, PartialEq, Eq)]
pub enum IncomingMessage {
    AssemblyAI(AssemblyAIStreamMessage),
    Deepgram(DeepgramStreamMessage),
    Gladia(GladiaStreamMessage),
    /// A message whose structure is not recognized.
    Unrecognized,
}

/// Something for the caller to do.
#[derive(Debug, Clone, PartialEq, Eq)]
pub enum SessionAction {
    /// Send a binary frame of audio.
    SendBinary(Vec<u8>),
    /// Send a text frame.
    SendText(String),
    /// Close the transport.
    CloseTransport,
    /// Hand an event to the caller.
    Emit(StreamEvent),
}

/// The state of one streaming session.
#[derive(Debug)]
pub struct StreamSession {
    vendor: StreamingProvider,
    phase: SessionPhase,
    buffer: Option<AudioBuffer>,
}

/// The bytes of the binary frames among the actions, in order.
pub open spec fn sent_bytes(actions: Seq<SessionAction>) -> Seq<u8>
    decreases actions.len(),
{
    if actions.len() == 0 {
        Seq::empty()
    } else {
        sent_bytes(actions.drop_last()) + match actions.last() {
            SessionAction::SendBinary(b) => b@,
            _ => Seq::empty(),
        }
    }
}

/// How many text frames among the actions say `text`.
pub open spec fn count_texts(actions: Seq<SessionAction>, text: Seq<char>) -> nat
    decreases actions.len(),
{
    if actions.len() == 0 {
        0
    } else {
        count_texts(actions.drop_last(), text) + match actions.last() {
            SessionAction::SendText(t) => if t@ == text { 1nat } else { 0nat },
            _ => 0nat,
        }
    }
}

/// How many close events are emitted among the actions.
pub open spec fn count_closes(actions: Seq<SessionAction>) -> nat
    decreases actions.len(),
{
    if actions.len() == 0 {
        0
    } else {
        count_closes(actions.drop_last()) + match actions.last() {
            SessionAction::Emit(e) => if e.event_type == StreamEventType::Close { 1nat } else { 0nat },
            _ => 0nat,
        }
    }
}

/// The event emitted by at most one action, if any.
pub open spec fn emitted(actions: Seq<SessionAction>) -> Option<StreamEvent> {
    if actions.len() == 1 && actions[0] is Emit {
        Some(actions[0]->Emit_0)
    } else {
        None
    }
}

/// The vendor's literal control message that ends a stream.
pub open spec fn termination_message(v: StreamingProvider) -> Seq<char> {
    match v {
        StreamingProvider::AssemblyAI => assemblyai::TERMINATE_MESSAGE@,
        StreamingProvider::Deepgram => deepgram::CLOSE_STREAM_MESSAGE@,
        StreamingProvider::Gladia => gladia::STOP_RECORDING_MESSAGE@,
    }
}

/// The phase after a close request.
pub open spec fn after_close(p: SessionPhase) -> SessionPhase {
    match p {
        SessionPhase::Streaming => SessionPhase::Ended,
        _ => p,
    }
}

/// How many termination messages and close events a close request in
/// phase `p` produces.
pub open spec fn close_effects(p: SessionPhase) -> (nat, nat) {
    match p {
        SessionPhase::Streaming => (1, 1),
        _ => (0, 0),
    }
}

/// The termination control message of a vendor.
pub fn termination_text(v: StreamingProvider) -> (r: &'static str)
    ensures
        r@ == termination_message(v),
{
    match v {
        StreamingProvider::AssemblyAI => assemblyai::TERMINATE_MESSAGE,
        StreamingProvider::Deepgram => deepgram::CLOSE_STREAM_MESSAGE,
        StreamingProvider::Gladia => gladia::STOP_RECORDING_MESSAGE,
    }
}

/// The transcription vendor of a streaming vendor.
pub fn provider_of(v: StreamingProvider) -> (r: TranscriptionProvider)
    ensures
        v == StreamingProvider::AssemblyAI ==> r == TranscriptionProvider::AssemblyAI,
        v == StreamingProvider::Deepgram ==> r == TranscriptionProvider::Deepgram,
        v == StreamingProvider::Gladia ==> r == TranscriptionProvider::Gladia,
{
    match v {
        StreamingProvider::AssemblyAI => TranscriptionProvider::AssemblyAI,
        StreamingProvider::Deepgram => TranscriptionProvider::Deepgram,
        StreamingProvider::Gladia => TranscriptionProvider::Gladia,
    }
}

proof fn lemma_push(actions: Seq<SessionAction>, a: SessionAction, text: Seq<char>)
    ensures
        sent_bytes(actions.push(a)) == sent_bytes(actions) + match a {
            SessionAction::SendBinary(b) => b@,
            _ => Seq::empty(),
        },
        count_texts(actions.push(a), text) == count_texts(actions, text) + match a {
            SessionAction::SendText(t) => if t@ == text { 1nat } else { 0nat },
            _ => 0nat,
        },
        count_closes(actions.push(a)) == count_closes(actions) + match a {
            SessionAction::Emit(e) => if e.event_type == StreamEventType::Close { 1nat } else { 0nat },
            _ => 0nat,
        },
{
    assert(actions.push(a).drop_last() =~= actions);
}

impl StreamSession {
    /// The vendor of the session.
    pub closed spec fn vendor(&self) -> StreamingProvider {
        self.vendor
    }

    /// Where the session stands.
    pub closed spec fn phase(&self) -> SessionPhase {
        self.phase
    }

    /// Audio bytes held back until a full frame is ready (always empty for
    /// vendors without frame limits).
    pub closed spec fn pending(&self) -> Seq<u8> {
        match self.buffer {
            Some(b) => b.pending(),
            None => Seq::empty(),
        }
    }

    /// The size of the frames sent, for vendors with frame limits.
    pub closed spec fn frame_size(&self) -> Option<nat> {
        match self.buffer {
            Some(b) => Some(b.chunk_size()),
            None => None,
        }
    }

    /// Internal consistency: only AssemblyAI buffers, with 32000-byte frames.
    pub closed spec fn well_formed(&self) -> bool {
        &&& (self.vendor == StreamingProvider::AssemblyAI <==> self.buffer is Some)
        &&& (self.buffer matches Some(b) ==> b.well_formed() && b.chunk_size() == 32000)
    }

    /// A session that is connecting. AssemblyAI's audio goes through a
    /// buffer of 1600 to 32000 bytes; the other vendors take audio as it
    /// comes.
    pub fn new(vendor: StreamingProvider) -> (r: StreamSession)
        ensures
            r.well_formed(),
            r.vendor() == vendor,
            r.phase() == SessionPhase::Connecting,
            r.pending() == Seq::<u8>::empty(),
            r.frame_size() == (if vendor == StreamingProvider::AssemblyAI { Some(32000nat) } else { None }),
    {
        let buffer = match vendor {
            StreamingProvider::AssemblyAI => Some(AudioBuffer::for_assemblyai()),
            _ => None,
        };
        StreamSession { vendor, phase: SessionPhase::Connecting, buffer }
    }

    /// The vendor of the session.
    pub fn provider(&self) -> (r: StreamingProvider)
        ensures
            r == self.vendor(),
    {
        self.vendor
    }

    /// Where the session stands.
    pub fn current_phase(&self) -> (r: SessionPhase)
        ensures
            r == self.phase(),
    {
        self.phase
    }

    /// Whether the session is over.
    pub fn is_ended(&self) -> (r: bool)
        ensures
            r == (self.phase() == SessionPhase::Ended),
    {
        self.phase == SessionPhase::Ended
    }

    /// The transport is up: emit the open event.
    pub fn on_connected(&mut self) -> (actions: Vec<SessionAction>)
        requires
            old(self).well_formed(),
        ensures
            final(self).well_formed(),
            final(self).vendor() == old(self).vendor(),
            final(self).pending() == old(self).pending(),
            old(self).phase() == SessionPhase::Connecting ==> final(self).phase() == SessionPhase::Streaming
                && actions@.len() == 1 && actions@[0] == SessionAction::Emit(
                crate::adapters::streaming::bare_event(StreamEventType::Open),
            ),
            old(self).phase() != SessionPhase::Connecting ==> final(self).phase() == old(self).phase()
                && actions@.len() == 0,
    {
        let mut actions: Vec<SessionAction> = Vec::new();
        if self.phase == SessionPhase::Connecting {
            self.phase = SessionPhase::Streaming;
            actions.push(SessionAction::Emit(open_event()));
        }
        actions
    }

    /// The transport could not be established: one connection error, and the
    /// session ends without ever opening.
    pub fn on_connect_failed(&mut self, message: String) -> (actions: Vec<SessionAction>)
        requires
            old(self).well_formed(),
        ensures
            final(self).well_formed(),
            final(self).vendor() == old(self).vendor(),
            final(self).pending() == old(self).pending(),
            old(self).phase() == SessionPhase::Connecting ==> final(self).phase() == SessionPhase::Ended
                && actions@.len() == 1 && (actions@[0] matches SessionAction::Emit(e)
                && e.event_type == StreamEventType::Error && e.error is Some
                && e.error->0.code@ == "CONNECTION_ERROR"@ && e.error->0.message == message),
            old(self).phase() != SessionPhase::Connecting ==> final(self).phase() == old(self).phase()
                && actions@.len() == 0,
    {
        let mut actions: Vec<SessionAction> = Vec::new();
        if self.phase == SessionPhase::Connecting {
            self.phase = SessionPhase::Ended;
            actions.push(SessionAction::Emit(error_event("CONNECTION_ERROR", message)));
        }
        actions
    }

    /// Caller audio: send every frame that is ready, in order. AssemblyAI's
    /// frames are exactly 32000 bytes and the rest is held back; the other
    /// vendors' audio is sent as it came.
    pub fn on_audio(&mut self, data: Vec<u8>) -> (actions: Vec<SessionAction>)
        requires
            old(self).well_formed(),
            old(self).pending().len() + data@.len() <= usize::MAX,
        ensures
            final(self).well_formed(),
            final(self).vendor() == old(self).vendor(),
            final(self).phase() == old(self).phase(),
            forall|i: int| 0 <= i < actions@.len() ==> (#[trigger] actions@[i]) is SendBinary,
            old(self).phase() != SessionPhase::Streaming ==> actions@.len() == 0
                && final(self).pending() == old(self).pending(),
            old(self).phase() == SessionPhase::Streaming ==> sent_bytes(actions@) + final(self).pending()
                == old(self).pending() + data@,
            old(self).phase() == SessionPhase::Streaming && old(self).frame_size() is None ==> actions@
                == seq![SessionAction::SendBinary(data)],
            old(self).frame_size() matches Some(n) ==> forall|i: int| 0 <= i < actions@.len()
                ==> (#[trigger] actions@[i] matches SessionAction::SendBinary(b) && b@.len() == n),
            final(self).frame_size() == old(self).frame_size(),
            final(self).frame_size() matches Some(n) ==> final(self).pending().len() < n,
            final(self).frame_size() is None ==> final(self).pending().len() == 0,
    {
        let mut actions: Vec<SessionAction> = Vec::new();
        if self.phase != SessionPhase::Streaming {
            return actions;
        }
        match &mut self.buffer {
            None => {
                actions.push(SessionAction::SendBinary(data));
                proof {
                    lemma_push(Seq::empty(), SessionAction::SendBinary(data), Seq::empty());
                    assert(actions@ =~= seq![SessionAction::SendBinary(data)]);
                }
            },
            Some(buffer) => {
                let chunks = buffer.add(data);
                let ghost n = buffer.chunk_size();
                let mut i: usize = 0;
                while i < chunks.len()
                    invariant
                        0 <= i <= chunks@.len(),
                        sent_bytes(actions@) == flatten(chunks@.subrange(0, i as int)),
                        forall|k: int| 0 <= k < chunks@.len() ==> #[trigger] chunks@[k]@.len() == n,
                        forall|k: int| 0 <= k < actions@.len() ==> (#[trigger] actions@[k]
                            matches SessionAction::SendBinary(b) && b@.len() == n),
                    decreases chunks@.len() - i,
                {
                    let chunk = chunks[i].clone();
                    let ghost before = actions@;
                    actions.push(SessionAction::SendBinary(chunk));
                    proof {
                        lemma_push(before, SessionAction::SendBinary(chunk), Seq::empty());
                        assert(chunks@.subrange(0, i + 1).drop_last() =~= chunks@.subrange(0, i as int));
                        assert(chunk@ == chunks@[i as int]@);
                        assert(actions@[before.len() as int] == SessionAction::SendBinary(chunk));
                        assert forall|k: int| 0 <= k < actions@.len() implies (#[trigger] actions@[k]
                            matches SessionAction::SendBinary(b) && b@.len() == n) by {
                            if k < before.len() {
                                assert(actions@[k] == before[k]);
                            }
                        }
                    }
                    i += 1;
                }
                assert(chunks@.subrange(0, chunks@.len() as int) =~= chunks@);
            },
        }
        actions
    }

    /// Sending audio failed: one send error, and the session ends.
    pub fn on_send_failed(&mut self, message: String) -> (actions: Vec<SessionAction>)
        requires
            old(self).well_formed(),
        ensures
            final(self).well_formed(),
            final(self).vendor() == old(self).vendor(),
            final(self).pending() == old(self).pending(),
            old(self).phase() == SessionPhase::Streaming ==> final(self).phase() == SessionPhase::Ended
                && actions@.len() == 1 && (actions@[0] matches SessionAction::Emit(e)
                && e.event_type == StreamEventType::Error && e.error is Some
                && e.error->0.code@ == "SEND_ERROR"@ && e.error->0.message == message),
            old(self).phase() != SessionPhase::Streaming ==> final(self).phase() == old(self).phase()
                && actions@.len() == 0,
    {
        self.fail("SEND_ERROR", message)
    }

    /// The transport failed while receiving: one transport error, and the
    /// session ends.
    pub fn on_transport_error(&mut self, message: String) -> (actions: Vec<SessionAction>)
        requires
            old(self).well_formed(),
        ensures
            final(self).well_formed(),
            final(self).vendor() == old(self).vendor(),
            final(self).pending() == old(self).pending(),
            old(self).phase() == SessionPhase::Streaming ==> final(self).phase() == SessionPhase::Ended
                && actions@.len() == 1 && (actions@[0] matches SessionAction::Emit(e)
                && e.event_type == StreamEventType::Error && e.error is Some
                && e.error->0.code@ == "WEBSOCKET_ERROR"@ && e.error->0.message == message),
            old(self).phase() != SessionPhase::Streaming ==> final(self).phase() == old(self).phase()
                && actions@.len() == 0,
    {
        self.fail("WEBSOCKET_ERROR", message)
    }

    fn fail(&mut self, code: &str, message: String) -> (actions: Vec<SessionAction>)
        requires
            old(self).well_formed(),
        ensures
            final(self).well_formed(),
            final(self).vendor() == old(self).vendor(),
            final(self).pending() == old(self).pending(),
            old(self).phase() == SessionPhase::Streaming ==> final(self).phase() == SessionPhase::Ended
                && actions@.len() == 1 && (actions@[0] matches SessionAction::Emit(e)
                && e.event_type == StreamEventType::Error && e.error is Some
                && e.error->0.code@ == code@ && e.error->0.message == message),
            old(self).phase() != SessionPhase::Streaming ==> final(self).phase() == old(self).phase()
                && actions@.len() == 0,
    {
        let mut actions: Vec<SessionAction> = Vec::new();
        if self.phase == SessionPhase::Streaming {
            self.phase = SessionPhase::Ended;
            actions.push(SessionAction::Emit(error_event(code, message)));
        }
        actions
    }

    /// The vendor closed the transport: one close event, and the session ends.
    pub fn on_transport_closed(&mut self) -> (actions: Vec<SessionAction>)
        requires
            old(self).well_formed(),
        ensures
            final(self).well_formed(),
            final(self).vendor() == old(self).vendor(),
            final(self).pending() == old(self).pending(),
            old(self).phase() == SessionPhase::Streaming ==> final(self).phase() == SessionPhase::Ended
                && actions@ == seq![SessionAction::Emit(crate::adapters::streaming::bare_event(StreamEventType::Close))],
            old(self).phase() != SessionPhase::Streaming ==> final(self).phase() == old(self).phase()
                && actions@.len() == 0,
    {
        let mut actions: Vec<SessionAction> = Vec::new();
        if self.phase == SessionPhase::Streaming {
            self.phase = SessionPhase::Ended;
            actions.push(SessionAction::Emit(close_event()));
            assert(actions@ =~= seq![SessionAction::Emit(crate::adapters::streaming::bare_event(StreamEventType::Close))]);
        }
        actions
    }

    /// Nobody receives the events any more: the session ends silently.
    pub fn on_receiver_gone(&mut self) -> (actions: Vec<SessionAction>)
        requires
            old(self).well_formed(),
        ensures
            final(self).well_formed(),
            final(self).vendor() == old(self).vendor(),
            final(self).pending() == old(self).pending(),
            final(self).phase() == SessionPhase::Ended,
            actions@.len() == 0,
    {
        self.phase = SessionPhase::Ended;
        Vec::new()
    }

    /// A message from the vendor: its canonical event, if it has one, is
    /// emitted in order of receipt; a message of another vendor or of an
    /// unknown structure is dropped.
    pub fn on_message(&mut self, msg: IncomingMessage) -> (actions: Vec<SessionAction>)
        requires
            old(self).well_formed(),
        ensures
            final(self).well_formed(),
            final(self).vendor() == old(self).vendor(),
            final(self).phase() == old(self).phase(),
            final(self).pending() == old(self).pending(),
            actions@.len() <= 1,
            forall|i: int| 0 <= i < actions@.len() ==> (#[trigger] actions@[i] matches SessionAction::Emit(e)
                && e.well_formed()),
            old(self).phase() != SessionPhase::Streaming ==> actions@.len() == 0,
            msg is Unrecognized ==> actions@.len() == 0,
            old(self).phase() == SessionPhase::Streaming ==> ({
                let v = old(self).vendor();
                &&& msg matches IncomingMessage::Gladia(_) ==> (actions@.len() == 1 <==> v
                    == StreamingProvider::Gladia)
                &&& msg matches IncomingMessage::AssemblyAI(m) ==> (actions@.len() == 1 <==> (v
                    == StreamingProvider::AssemblyAI && !(m is SessionInformation)))
                &&& msg matches IncomingMessage::Deepgram(m) ==> (actions@.len() == 1 <==> (v
                    == StreamingProvider::Deepgram && !(m matches DeepgramStreamMessage::Results {
                    alternatives,
                    ..
                } && alternatives@.len() == 0)))
                &&& (msg is Gladia && v == StreamingProvider::Gladia ==> emitted(actions@) is Some
                    && gladia::stream_event_of(msg->Gladia_0, emitted(actions@)->0))
                &&& (msg is AssemblyAI && v == StreamingProvider::AssemblyAI ==> assemblyai::stream_event_of(
                    msg->AssemblyAI_0,
                    emitted(actions@),
                ))
                &&& (msg is Deepgram && v == StreamingProvider::Deepgram ==> deepgram::stream_event_of(
                    msg->Deepgram_0,
                    emitted(actions@),
                ))
            }),
    {
        let mut actions: Vec<SessionAction> = Vec::new();
        if self.phase != SessionPhase::Streaming {
            return actions;
        }
        let event = match (self.vendor, msg) {
            (StreamingProvider::AssemblyAI, IncomingMessage::AssemblyAI(m)) => assemblyai::parse_streaming_message(m),
            (StreamingProvider::Deepgram, IncomingMessage::Deepgram(m)) => deepgram::parse_streaming_message(m),
            (StreamingProvider::Gladia, IncomingMessage::Gladia(m)) => Some(gladia::parse_streaming_message(m)),
            _ => None,
        };
        if let Some(e) = event {
            actions.push(SessionAction::Emit(e));
        }
        actions
    }

    /// The caller asks to close: send any held audio, then the vendor's
    /// termination message, close the transport, emit one close event, and
    /// end. Asking again, or before the session is open, does nothing.
    pub fn on_close_requested(&mut self) -> (actions: Vec<SessionAction>)
        requires
            old(self).well_formed(),
        ensures
            final(self).well_formed(),
            final(self).vendor() == old(self).vendor(),
            final(self).phase() == after_close(old(self).phase()),
            (count_texts(actions@, termination_message(old(self).vendor())), count_closes(actions@))
                == close_effects(old(self).phase()),
            old(self).phase() != SessionPhase::Streaming ==> actions@.len() == 0
                && final(self).pending() == old(self).pending(),
            old(self).phase() == SessionPhase::Streaming ==> ({
                let p = old(self).pending();
                let tail = seq![
                    SessionAction::SendText(actions@[actions@.len() - 3]->SendText_0),
                    SessionAction::CloseTransport,
                    SessionAction::Emit(crate::adapters::streaming::bare_event(StreamEventType::Close)),
                ];
                &&& final(self).pending() == Seq::<u8>::empty()
                &&& sent_bytes(actions@) == p
                &&& actions@.len() == (if p.len() > 0 { 4int } else { 3int })
                &&& (p.len() > 0 ==> actions@[0] is SendBinary)
                &&& actions@[actions@.len() - 3] is SendText
                &&& actions@[actions@.len() - 3]->SendText_0@ == termination_message(old(self).vendor())
                &&& actions@.subrange(actions@.len() - 3, actions@.len() as int) == tail
            }),
    {
        let mut actions: Vec<SessionAction> = Vec::new();
        if self.phase != SessionPhase::Streaming {
            return actions;
        }
        let ghost msg = termination_message(self.vendor);
        if let Some(buffer) = &mut self.buffer {
            if let Some(rest) = buffer.flush() {
                actions.push(SessionAction::SendBinary(rest));
                proof {
                    lemma_push(Seq::empty(), SessionAction::SendBinary(rest), msg);
                }
            }
        }
        let ghost a0 = actions@;
        let control = SessionAction::SendText(owned(termination_text(self.vendor)));
        actions.push(control);
        let ghost a1 = actions@;
        actions.push(SessionAction::CloseTransport);
        let ghost a2 = actions@;
        let closing = SessionAction::Emit(close_event());
        actions.push(closing);
        proof {
            lemma_push(a0, control, msg);
            lemma_push(a1, SessionAction::CloseTransport, msg);
            lemma_push(a2, closing, msg);
            assert(a0.len() == 0 ==> count_texts(a0, msg) == 0 && count_closes(a0) == 0 && sent_bytes(a0)
                == Seq::<u8>::empty());
            if a0.len() == 1 {
                assert(a0.drop_last() =~= Seq::<SessionAction>::empty());
            }
            assert(actions@.subrange(actions@.len() - 3, actions@.len() as int) =~= seq![
                control,
                SessionAction::CloseTransport,
                closing,
            ]);
        }
        self.phase = SessionPhase::Ended;
        actions
    }
}

/// A close request is single-fire: the first, on an open session, produces
/// exactly one termination message and one close event; a second produces
/// neither, and leaves the session ended.
pub proof fn lemma_close_fires_once(p: SessionPhase)
    requires
        p == SessionPhase::Streaming,
    ensures
        close_effects(p) == (1nat, 1nat),
        after_close(p) == SessionPhase::Ended,
        close_effects(after_close(p)) == (0nat, 0nat),
        after_close(after_close(p)) == SessionPhase::Ended,
{
}

} // verus!
