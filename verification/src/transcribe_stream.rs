//! The streaming session bridge: one live duplex connection per session,
//! with an inbound subscription derived at construction, single-writer
//! outbound access, and clean, idempotent, irreversible teardown.
//!
//! The struct here is the verified state machine of that bridge.  The
//! surrounding transport drives it under one exclusive lock per
//! connection: it performs the handshake, drains approved outbound
//! frames onto the socket, feeds arriving frames in, and performs the
//! actual timed waits.  Every decision — which transitions are legal,
//! when a write is accepted, what a read observes, when the socket
//! handle must be released — is taken and proved here.

use vstd::prelude::*;

use crate::types::ApiError;

verus! {

/// One discrete unit of outbound data on the session connection.
#[derive(Debug, Clone, PartialEq, Eq)]
pub enum Frame {
    Text(String),
    Binary(Vec<u8>),
}

/// Mathematical image of a frame.
pub enum FrameView {
    Text(Seq<char>),
    Binary(Seq<u8>),
}

impl View for Frame {
    type V = FrameView;

    open spec fn view(&self) -> FrameView {
        match self {
            Frame::Text(s) => FrameView::Text(s@),
            Frame::Binary(b) => FrameView::Binary(b@),
        }
    }
}

/// Connection lifecycle.  Transitions go Idle to Starting to Open on
/// success, Starting to Failed on handshake rejection, and any live
/// state to Closed on stop; nothing ever leaves Closed.
#[derive(Debug, Clone, Copy, PartialEq, Eq, Structural)]
pub enum ConnState {
    Idle,
    Starting,
    Open,
    Closed,
    Failed,
}

/// What a start call asks of the transport.
#[derive(Debug, Clone, Copy, PartialEq, Eq, Structural)]
pub enum StartAction {
    /// The connection was idle: perform the handshake, then report its
    /// outcome through `finish_start`.
    Connect,
    /// The connection is already open: idempotent no-op.
    AlreadyOpen,
}

/// Exactly one of three mutually exclusive outcomes of a read.
#[derive(Debug, Clone, PartialEq, Eq)]
pub enum ReadOutcome {
    /// The next pending inbound frame, consumed by this call alone.
    Frame(String),
    /// Nothing is pending; the wait may elapse without a frame.  This
    /// cancels only the wait: a frame arriving later is kept for the
    /// next call.
    NoFrameWithinTimeout,
    /// The subscription was cancelled by stop; immediate, forever.
    StreamEnded,
}

/// Mathematical image of a read outcome.
pub enum ReadOutcomeView {
    Frame(Seq<char>),
    NoFrameWithinTimeout,
    StreamEnded,
}

impl View for ReadOutcome {
    type V = ReadOutcomeView;

    open spec fn view(&self) -> ReadOutcomeView {
        match self {
            ReadOutcome::Frame(s) => ReadOutcomeView::Frame(s@),
            ReadOutcome::NoFrameWithinTimeout => ReadOutcomeView::NoFrameWithinTimeout,
            ReadOutcome::StreamEnded => ReadOutcomeView::StreamEnded,
        }
    }
}

impl ReadOutcome {
    /// Collapses the three-way outcome to the minimal host surface,
    /// where one absent value covers both an elapsed wait and an ended
    /// stream.  The distinction is kept by `read_next` itself; this
    /// collapse is a deliberate compatibility decision, taken here so
    /// nothing else blurs the outcomes by accident.
    pub fn into_option(self) -> (r: Option<String>)
        ensures
            self matches ReadOutcome::Frame(text) ==> r == Some(text),
            !(self is Frame) ==> r is None,
    {
        match self {
            ReadOutcome::Frame(text) => Some(text),
            ReadOutcome::NoFrameWithinTimeout => None,
            ReadOutcome::StreamEnded => None,
        }
    }
}

/// Mathematical model of one session bridge: the connection state, the
/// frames approved for the wire in grant order, the inbound frames not
/// yet consumed in arrival order, and the subscription's cancellation
/// flag.
#[verifier::ext_equal]
pub struct StreamView {
    pub session_id: Seq<char>,
    pub state: ConnState,
    pub outbound: Seq<FrameView>,
    pub inbound: Seq<Seq<char>>,
    pub ended: bool,
}

impl StreamView {
    /// The subscription is cancelled exactly when its source connection
    /// is closed.
    pub open spec fn wf(self) -> bool {
        self.ended <==> self.state is Closed
    }
}

/// A session identifier must name something: the empty string is
/// malformed.
pub open spec fn valid_session_id(s: Seq<char>) -> bool {
    s.len() > 0
}

/// A write is accepted only while the connection is open or still
/// starting.
pub open spec fn writable(m: StreamView) -> bool {
    m.state is Open || m.state is Starting
}

/// Stop closes the connection and cancels the subscription, whatever
/// held before; everything else is untouched.
pub open spec fn stop_spec(m: StreamView) -> StreamView {
    StreamView { state: ConnState::Closed, ended: true, ..m }
}

/// The socket handle, acquired by start, is released by the stop that
/// finds the connection still live — and by no later one.
pub open spec fn stop_releases(m: StreamView) -> bool {
    m.state is Starting || m.state is Open
}

/// An accepted write appends its frame, whole, after everything already
/// granted.
pub open spec fn write_spec(m: StreamView, f: FrameView) -> StreamView {
    StreamView { outbound: m.outbound.push(f), ..m }
}

/// What one read consumes: the oldest pending frame, and only when the
/// subscription still lives and a frame is pending.
pub open spec fn read_spec(m: StreamView) -> StreamView {
    if !m.ended && m.inbound.len() > 0 {
        StreamView { inbound: m.inbound.drop_first(), ..m }
    } else {
        m
    }
}

/// What one read observes: stream ended once cancelled, else the oldest
/// pending frame, else an elapsed wait.
pub open spec fn read_outcome_spec(m: StreamView) -> ReadOutcomeView {
    if m.ended {
        ReadOutcomeView::StreamEnded
    } else if m.inbound.len() > 0 {
        ReadOutcomeView::Frame(m.inbound[0])
    } else {
        ReadOutcomeView::NoFrameWithinTimeout
    }
}

/// An arriving frame joins the pending queue while the subscription
/// lives, and is discarded once it is cancelled.
pub open spec fn deliver_spec(m: StreamView, msg: Seq<char>) -> StreamView {
    if m.ended {
        m
    } else {
        StreamView { inbound: m.inbound.push(msg), ..m }
    }
}

/// One live duplex connection for a transcription session, together
/// with the inbound subscription derived from it at construction.
#[derive(Debug)]
pub struct TranscribeStream {
    session_id: String,
    state: ConnState,
    outbound: Vec<Frame>,
    inbound: Vec<String>,
    ended: bool,
}

impl View for TranscribeStream {
    type V = StreamView;

    closed spec fn view(&self) -> StreamView {
        StreamView {
            session_id: self.session_id@,
            state: self.state,
            outbound: self.outbound@.map_values(|f: Frame| f@),
            inbound: self.inbound@.map_values(|s: String| s@),
            ended: self.ended,
        }
    }
}

impl TranscribeStream {
    /// Constructs the bridge in the idle state.  The subscription is
    /// derived here, synchronously, before any start: a frame arriving
    /// the moment the remote accepts has a queue to land in.  The only
    /// failure is a malformed (empty) session identifier.
    pub fn new(session_id: String) -> (r: Result<TranscribeStream, ApiError>)
        ensures
            r is Ok <==> valid_session_id(session_id@),
            r matches Ok(s) ==> {
                &&& s@.wf()
                &&& s@.session_id == session_id@
                &&& s@.state is Idle
                &&& s@.outbound.len() == 0
                &&& s@.inbound.len() == 0
                &&& !s@.ended
            },
            r matches Err(e) ==> e is Validation,
    {
        if session_id.as_str().is_empty() {
            Err(ApiError::Validation("session id must not be empty".to_owned()))
        } else {
            let s = TranscribeStream {
                session_id,
                state: ConnState::Idle,
                outbound: Vec::new(),
                inbound: Vec::new(),
                ended: false,
            };
            assert(s@.outbound =~= Seq::<FrameView>::empty());
            assert(s@.inbound =~= Seq::<Seq<char>>::empty());
            Ok(s)
        }
    }

    /// Decides what a start must do: connect from idle, nothing when
    /// already open, and refuse on every terminal state.  Success is
    /// owed exactly on idle or open connections.
    pub fn start(&mut self) -> (r: Result<StartAction, ApiError>)
        requires
            old(self)@.wf(),
        ensures
            final(self)@.wf(),
            final(self)@.session_id == old(self)@.session_id,
            final(self)@.outbound == old(self)@.outbound,
            final(self)@.inbound == old(self)@.inbound,
            final(self)@.ended == old(self)@.ended,
            r is Ok <==> (old(self)@.state is Idle || old(self)@.state is Open),
            old(self)@.state is Idle ==> r == Ok::<StartAction, ApiError>(StartAction::Connect)
                && final(self)@.state is Starting,
            old(self)@.state is Open ==> r == Ok::<StartAction, ApiError>(StartAction::AlreadyOpen),
            r is Err ==> final(self)@ == old(self)@ && r->Err_0 is Transport,
    {
        match self.state {
            ConnState::Idle => {
                self.state = ConnState::Starting;
                Ok(StartAction::Connect)
            },
            ConnState::Open => Ok(StartAction::AlreadyOpen),
            _ => Err(ApiError::Transport("connection is no longer startable".to_owned())),
        }
    }

    /// Applies the handshake outcome to a starting connection: open on
    /// acceptance, failed — with the rejection surfaced as a transport
    /// error — on rejection.  Only the start that holds the connection
    /// lock reaches this state.
    pub fn finish_start(&mut self, accepted: bool) -> (r: Result<(), ApiError>)
        requires
            old(self)@.wf(),
            old(self)@.state is Starting,
        ensures
            final(self)@.wf(),
            final(self)@.session_id == old(self)@.session_id,
            final(self)@.outbound == old(self)@.outbound,
            final(self)@.inbound == old(self)@.inbound,
            final(self)@.ended == old(self)@.ended,
            accepted ==> r is Ok && final(self)@.state is Open,
            !accepted ==> r is Err && r->Err_0 is Transport && final(self)@.state is Failed,
    {
        if accepted {
            self.state = ConnState::Open;
            Ok(())
        } else {
            self.state = ConnState::Failed;
            Err(ApiError::Transport("handshake rejected by the remote".to_owned()))
        }
    }

    /// Stops the bridge: the connection closes, the subscription is
    /// cancelled, and both stay so forever.  Always succeeds; repeat
    /// calls are no-ops.  The result says whether this call is the one
    /// that must release the socket handle — true exactly when the
    /// connection was still live, so the handle is released exactly
    /// once.
    pub fn stop(&mut self) -> (release: bool)
        requires
            old(self)@.wf(),
        ensures
            final(self)@.wf(),
            final(self)@ == stop_spec(old(self)@),
            release == stop_releases(old(self)@),
    {
        let release = self.state == ConnState::Starting || self.state == ConnState::Open;
        self.state = ConnState::Closed;
        self.ended = true;
        assert(self@ =~= stop_spec(old(self)@));
        release
    }

    /// Accepts a frame for the wire, or refuses it.  Acceptance is owed
    /// exactly while the connection is open or starting; an accepted
    /// frame is appended whole, after every frame granted before it.
    fn write(&mut self, frame: Frame) -> (r: Result<(), ApiError>)
        requires
            old(self)@.wf(),
        ensures
            final(self)@.wf(),
            r is Ok <==> writable(old(self)@),
            r is Ok ==> final(self)@ == write_spec(old(self)@, frame@),
            r is Err ==> final(self)@ == old(self)@ && r->Err_0 is Transport,
    {
        if self.state == ConnState::Open || self.state == ConnState::Starting {
            let ghost fv = frame@;
            self.outbound.push(frame);
            assert(self@.outbound =~= write_spec(old(self)@, fv).outbound);
            assert(self@ =~= write_spec(old(self)@, fv));
            Ok(())
        } else {
            Err(ApiError::Transport("connection is not open for writing".to_owned()))
        }
    }

    /// Writes one outbound text frame, under the write contract.
    pub fn send_text(&mut self, payload: String) -> (r: Result<(), ApiError>)
        requires
            old(self)@.wf(),
        ensures
            final(self)@.wf(),
            r is Ok <==> writable(old(self)@),
            r is Ok ==> final(self)@ == write_spec(old(self)@, FrameView::Text(payload@)),
            r is Err ==> final(self)@ == old(self)@ && r->Err_0 is Transport,
    {
        self.write(Frame::Text(payload))
    }

    /// Writes one outbound binary frame, under the write contract.
    pub fn send_bytes(&mut self, data: Vec<u8>) -> (r: Result<(), ApiError>)
        requires
            old(self)@.wf(),
        ensures
            final(self)@.wf(),
            r is Ok <==> writable(old(self)@),
            r is Ok ==> final(self)@ == write_spec(old(self)@, FrameView::Binary(data@)),
            r is Err ==> final(self)@ == old(self)@ && r->Err_0 is Transport,
    {
        self.write(Frame::Binary(data))
    }

    /// Hands the transport the oldest approved outbound frame, in grant
    /// order, or nothing when the wire is drained.
    pub fn pop_outbound(&mut self) -> (r: Option<Frame>)
        requires
            old(self)@.wf(),
        ensures
            final(self)@.wf(),
            old(self)@.outbound.len() == 0 ==> r is None && final(self)@ == old(self)@,
            old(self)@.outbound.len() > 0 ==> {
                &&& r matches Some(f) && f@ == old(self)@.outbound[0]
                &&& final(self)@ == (StreamView {
                    outbound: old(self)@.outbound.drop_first(),
                    ..old(self)@
                })
            },
    {
        if self.outbound.len() == 0 {
            None
        } else {
            let f = self.outbound.remove(0);
            assert(self@.outbound =~= old(self)@.outbound.drop_first());
            assert(self@ =~= (StreamView { outbound: old(self)@.outbound.drop_first(), ..old(self)@ }));
            Some(f)
        }
    }

    /// Feeds one frame arriving from the remote into the subscription's
    /// pending queue.  Accepted while the subscription lives; discarded
    /// — and reported so — once it was cancelled.
    pub fn deliver(&mut self, message: String) -> (accepted: bool)
        requires
            old(self)@.wf(),
        ensures
            final(self)@.wf(),
            final(self)@ == deliver_spec(old(self)@, message@),
            accepted == !old(self)@.ended,
    {
        if self.ended {
            false
        } else {
            let ghost mv = message@;
            self.inbound.push(message);
            assert(self@.inbound =~= deliver_spec(old(self)@, mv).inbound);
            assert(self@ =~= deliver_spec(old(self)@, mv));
            true
        }
    }

    /// One poll of the subscription: stream ended once cancelled —
    /// immediately, whatever is pending; else the oldest pending frame,
    /// which this call alone consumes; else an elapsed wait, consuming
    /// nothing, so a frame arriving after a timed-out call is kept whole
    /// for the next one.
    pub fn read_next(&mut self) -> (r: ReadOutcome)
        requires
            old(self)@.wf(),
        ensures
            final(self)@.wf(),
            final(self)@ == read_spec(old(self)@),
            r@ == read_outcome_spec(old(self)@),
    {
        if self.ended {
            ReadOutcome::StreamEnded
        } else if self.inbound.len() > 0 {
            let s = self.inbound.remove(0);
            assert(self@.inbound =~= read_spec(old(self)@).inbound);
            assert(self@ =~= read_spec(old(self)@));
            ReadOutcome::Frame(s)
        } else {
            ReadOutcome::NoFrameWithinTimeout
        }
    }

    /// The connection state, for the transport's own dispatch.
    pub fn state(&self) -> (s: ConnState)
        ensures
            s == self@.state,
    {
        self.state
    }

    /// Whether the subscription has been cancelled.
    pub fn is_ended(&self) -> (r: bool)
        ensures
            r == self@.ended,
    {
        self.ended
    }

    /// The session this connection belongs to.
    pub fn session_id(&self) -> (r: &str)
        ensures
            r@ == self@.session_id,
    {
        self.session_id.as_str()
    }

    /// How many inbound frames are pending, unconsumed.
    pub fn pending_inbound(&self) -> (n: usize)
        ensures
            n == self@.inbound.len(),
    {
        self.inbound.len()
    }

    /// How many approved outbound frames the transport has not drained.
    pub fn pending_outbound(&self) -> (n: usize)
        ensures
            n == self@.outbound.len(),
    {
        self.outbound.len()
    }
}

/// Stopping is idempotent: a second stop finds the connection closed,
/// changes nothing observable, and releases nothing.
pub proof fn lemma_stop_idempotent(m: StreamView)
    ensures
        stop_spec(stop_spec(m)) == stop_spec(m),
        !stop_releases(stop_spec(m)),
{
    assert(stop_spec(stop_spec(m)) =~= stop_spec(m));
}

/// After a stop, every read observes the end of the stream immediately
/// and consumes nothing — however much data was pending.
pub proof fn lemma_read_after_stop(m: StreamView)
    ensures
        read_outcome_spec(stop_spec(m)) is StreamEnded,
        read_spec(stop_spec(m)) == stop_spec(m),
{
}

/// The effect of a sequence of granted writes, in grant order.
pub open spec fn write_all(m: StreamView, frames: Seq<FrameView>) -> StreamView
    decreases frames.len(),
{
    if frames.len() == 0 {
        m
    } else {
        write_all(write_spec(m, frames[0]), frames.drop_first())
    }
}

/// Writes whose grants arrive in some order put exactly those frames on
/// the wire: each appended whole, none interleaved with another, in the
/// order the grants were given, after everything already there — and
/// nothing else about the bridge moves.
pub proof fn lemma_writes_in_order(m: StreamView, frames: Seq<FrameView>)
    ensures
        write_all(m, frames).outbound == m.outbound + frames,
        write_all(m, frames).session_id == m.session_id,
        write_all(m, frames).state == m.state,
        write_all(m, frames).inbound == m.inbound,
        write_all(m, frames).ended == m.ended,
    decreases frames.len(),
{
    if frames.len() == 0 {
        assert(m.outbound + frames =~= m.outbound);
    } else {
        lemma_writes_in_order(write_spec(m, frames[0]), frames.drop_first());
        assert(m.outbound.push(frames[0]) + frames.drop_first() =~= m.outbound + frames);
    }
}

} // verus!
