//! One streaming request: the transcoder's output is read in chunks of a
//! fixed size and each full chunk is offered to the consumer. The session
//! decides what is done next; whoever drives it performs the action and
//! reports what happened.
use vstd::prelude::*;

verus! {

/// The size of a chunk, in bytes. Only full chunks are forwarded.
pub const CHUNK_SIZE: usize = 65536;

/// Where a session stands.
#[derive(Clone, Copy, Debug, PartialEq, Eq)]
pub enum Phase {
    /// The next chunk is being read from the process.
    Reading,
    /// A full chunk has been read and is being offered to the consumer.
    Forwarding,
    /// Nothing more is forwarded; the process is left to exit by itself.
    Draining,
    /// The process is being terminated.
    Killing,
    /// The process is gone and the output is closed.
    Finished,
}

/// What the driver reports to the session.
#[derive(Clone, Copy, Debug, PartialEq, Eq)]
pub enum StreamEvent {
    /// A read ended with this many bytes of a chunk filled.
    Read(usize),
    /// A read failed.
    ReadFailed,
    /// The consumer took the chunk that was offered.
    Accepted,
    /// The consumer is gone: the output refused a chunk or was found closed.
    Rejected,
    /// The process has ended, with its exit code if it has one.
    Exited(Option<i32>),
}

/// What the driver is to do next.
#[derive(Clone, Copy, Debug, PartialEq, Eq)]
pub enum StreamAction {
    /// Read the next chunk from the process.
    Read,
    /// Offer the chunk just read to the consumer.
    Forward,
    /// Wait for the process to exit.
    AwaitExit,
    /// Terminate the process, then wait for it.
    Kill,
    /// Close the output, which tells the consumer that the stream has ended.
    Close,
}

/// A session as a mathematical value.
pub struct SessionView {
    pub phase: Phase,
    /// The number of chunks that the consumer has taken.
    pub chunks: nat,
    /// Whether the process is still running.
    pub running: bool,
    /// The exit code that the process reported, if it reported one.
    pub code: Option<i32>,
    /// Whether the output has been closed.
    pub closed: bool,
    /// Whether the stream was cut short.
    pub truncated: bool,
}

impl SessionView {
    /// A session whose process has just been started.
    pub open spec fn started() -> SessionView {
        SessionView {
            phase: Phase::Reading,
            chunks: 0,
            running: true,
            code: None,
            closed: false,
            truncated: false,
        }
    }

    /// The output is closed exactly when the process is gone, and that is
    /// when the session is finished. While chunks are read and forwarded,
    /// there is room to count one more.
    pub open spec fn wf(self) -> bool {
        &&& self.closed <==> !self.running
        &&& self.closed <==> self.phase == Phase::Finished
        &&& self.chunks <= u64::MAX
        &&& self.phase == Phase::Reading || self.phase == Phase::Forwarding ==> self.chunks
            < u64::MAX
    }

    /// The number of bytes that the consumer has taken.
    pub open spec fn delivered(self) -> nat {
        self.chunks * CHUNK_SIZE as nat
    }

    /// The action that a session in this phase asks for.
    pub open spec fn action(self) -> StreamAction {
        match self.phase {
            Phase::Reading => StreamAction::Read,
            Phase::Forwarding => StreamAction::Forward,
            Phase::Draining => StreamAction::AwaitExit,
            Phase::Killing => StreamAction::Kill,
            Phase::Finished => StreamAction::Close,
        }
    }

    /// The session with its phase changed.
    pub open spec fn at(self, phase: Phase) -> SessionView {
        SessionView { phase, ..self }
    }

    /// The session once the process has ended with `code`.
    pub open spec fn ended(self, code: Option<i32>) -> SessionView {
        SessionView { phase: Phase::Finished, running: false, code, closed: true, ..self }
    }

    /// The session cut short, in `phase`.
    pub open spec fn cut(self, phase: Phase) -> SessionView {
        SessionView { phase, truncated: true, ..self }
    }

    /// The session with one more chunk taken by the consumer. The next chunk
    /// is read, unless the count has reached its limit: a stream of
    /// `u64::MAX` chunks is cut short there.
    pub open spec fn counted(self) -> SessionView {
        if self.chunks + 1 < u64::MAX {
            SessionView { phase: Phase::Reading, chunks: self.chunks + 1, ..self }
        } else {
            SessionView {
                phase: Phase::Killing,
                chunks: self.chunks + 1,
                truncated: true,
                ..self
            }
        }
    }

    /// The session after `event`. An event that has no meaning in the
    /// current phase changes nothing.
    pub open spec fn next(self, event: StreamEvent) -> SessionView {
        match (self.phase, event) {
            (Phase::Finished, _) => self,
            (_, StreamEvent::Exited(code)) => self.ended(code),
            (Phase::Killing, _) => self,
            (_, StreamEvent::Rejected) => self.cut(Phase::Killing),
            (Phase::Reading, StreamEvent::Read(n)) => if n >= CHUNK_SIZE {
                self.at(Phase::Forwarding)
            } else {
                self.at(Phase::Draining)
            },
            (Phase::Reading, StreamEvent::ReadFailed) => self.cut(Phase::Draining),
            (Phase::Forwarding, StreamEvent::Accepted) => if self.chunks < u64::MAX {
                self.counted()
            } else {
                self.cut(Phase::Killing)
            },
            _ => self,
        }
    }

    /// The session after the events of `events`, in order.
    pub open spec fn run(self, events: Seq<StreamEvent>) -> SessionView
        decreases events.len(),
    {
        if events.len() == 0 {
            self
        } else {
            self.run(events.drop_last()).next(events.last())
        }
    }

    /// The lengths of the chunks that the consumer takes during `events`,
    /// in order.
    pub open spec fn deliveries(self, events: Seq<StreamEvent>) -> Seq<nat>
        decreases events.len(),
    {
        if events.len() == 0 {
            Seq::empty()
        } else {
            let before = self.run(events.drop_last());
            let earlier = self.deliveries(events.drop_last());
            if before.phase == Phase::Forwarding && events.last() == StreamEvent::Accepted {
                earlier.push(CHUNK_SIZE as nat)
            } else {
                earlier
            }
        }
    }
}

/// The sum of `lengths`.
pub open spec fn total(lengths: Seq<nat>) -> nat
    decreases lengths.len(),
{
    if lengths.len() == 0 {
        0
    } else {
        total(lengths.drop_last()) + lengths.last()
    }
}

/// One streaming request in progress.
pub struct StreamSession {
    phase: Phase,
    chunks: u64,
    running: bool,
    code: Option<i32>,
    closed: bool,
    truncated: bool,
}

impl View for StreamSession {
    type V = SessionView;

    closed spec fn view(&self) -> SessionView {
        SessionView {
            phase: self.phase,
            chunks: self.chunks as nat,
            running: self.running,
            code: self.code,
            closed: self.closed,
            truncated: self.truncated,
        }
    }
}

impl StreamSession {
    /// The session of a process that has just been started. The first
    /// action is to read.
    pub fn start() -> (session: StreamSession)
        ensures
            session@ == SessionView::started(),
    {
        StreamSession {
            phase: Phase::Reading,
            chunks: 0,
            running: true,
            code: None,
            closed: false,
            truncated: false,
        }
    }

    /// Takes in what happened and says what to do next.
    pub fn step(&mut self, event: StreamEvent) -> (action: StreamAction)
        ensures
            final(self)@ == old(self)@.next(event),
            action == final(self)@.action(),
    {
        match self.phase {
            Phase::Finished => {},
            Phase::Killing => {
                if let StreamEvent::Exited(code) = event {
                    self.finish(code);
                }
            },
            Phase::Draining => {
                match event {
                    StreamEvent::Exited(code) => self.finish(code),
                    StreamEvent::Rejected => self.cut(Phase::Killing),
                    _ => {},
                }
            },
            Phase::Reading => {
                match event {
                    StreamEvent::Exited(code) => self.finish(code),
                    StreamEvent::Rejected => self.cut(Phase::Killing),
                    StreamEvent::Read(n) => {
                        if n >= CHUNK_SIZE {
                            self.phase = Phase::Forwarding;
                        } else {
                            self.phase = Phase::Draining;
                        }
                    },
                    StreamEvent::ReadFailed => self.cut(Phase::Draining),
                    StreamEvent::Accepted => {},
                }
            },
            Phase::Forwarding => {
                match event {
                    StreamEvent::Exited(code) => self.finish(code),
                    StreamEvent::Rejected => self.cut(Phase::Killing),
                    StreamEvent::Accepted => {
                        if self.chunks < u64::MAX {
                            self.chunks = self.chunks + 1;
                            if self.chunks < u64::MAX {
                                self.phase = Phase::Reading;
                            } else {
                                self.cut(Phase::Killing);
                            }
                        } else {
                            self.cut(Phase::Killing);
                        }
                    },
                    _ => {},
                }
            },
        }
        self.action()
    }

    /// The process has ended with `code`: the session is finished.
    fn finish(&mut self, code: Option<i32>)
        ensures
            final(self)@ == old(self)@.ended(code),
    {
        self.phase = Phase::Finished;
        self.running = false;
        self.code = code;
        self.closed = true;
    }

    /// The stream is cut short, and the session goes on in `phase`.
    fn cut(&mut self, phase: Phase)
        ensures
            final(self)@ == old(self)@.cut(phase),
    {
        self.phase = phase;
        self.truncated = true;
    }

    /// The action that the session is waiting for.
    pub fn action(&self) -> (action: StreamAction)
        ensures
            action == self@.action(),
    {
        match self.phase {
            Phase::Reading => StreamAction::Read,
            Phase::Forwarding => StreamAction::Forward,
            Phase::Draining => StreamAction::AwaitExit,
            Phase::Killing => StreamAction::Kill,
            Phase::Finished => StreamAction::Close,
        }
    }

    /// Where the session stands.
    pub fn phase(&self) -> (phase: Phase)
        ensures
            phase == self@.phase,
    {
        self.phase
    }

    /// The number of chunks that the consumer has taken.
    pub fn chunks(&self) -> (chunks: u64)
        ensures
            chunks == self@.chunks,
    {
        self.chunks
    }

    /// The number of bytes that the consumer has taken.
    pub fn delivered(&self) -> (bytes: u128)
        ensures
            bytes == self@.delivered(),
    {
        assert(self.chunks as nat * CHUNK_SIZE as nat <= u64::MAX as nat * 65536) by (nonlinear_arith)
            requires
                self.chunks <= u64::MAX,
                CHUNK_SIZE == 65536,
        ;
        self.chunks as u128 * CHUNK_SIZE as u128
    }

    /// Whether the process is still running.
    pub fn is_running(&self) -> (running: bool)
        ensures
            running == self@.running,
    {
        self.running
    }

    /// Whether the output has been closed.
    pub fn is_closed(&self) -> (closed: bool)
        ensures
            closed == self@.closed,
    {
        self.closed
    }

    /// Whether the stream was cut short: by a failed read, or because the
    /// consumer left.
    pub fn is_truncated(&self) -> (truncated: bool)
        ensures
            truncated == self@.truncated,
    {
        self.truncated
    }

    /// The exit code of the process, once it has reported one.
    pub fn exit_code(&self) -> (code: Option<i32>)
        ensures
            code == self@.code,
    {
        self.code
    }

    /// Whether the process has ended and reported success.
    pub fn exited_cleanly(&self) -> (clean: bool)
        ensures
            clean == (!self@.running && self@.code == Some(0i32)),
    {
        !self.running && match self.code {
            Some(c) => c == 0,
            None => false,
        }
    }
}

/// Whatever happens to a session after its process was started, its output
/// is closed exactly when the process is gone, and `Close` is asked for
/// exactly then.
pub proof fn law_closed_iff_process_gone(events: Seq<StreamEvent>)
    ensures
        SessionView::started().run(events).wf(),
        SessionView::started().run(events).closed <==> !SessionView::started().run(
            events,
        ).running,
        SessionView::started().run(events).action() == StreamAction::Close
            <==> SessionView::started().run(events).closed,
    decreases events.len(),
{
    if events.len() > 0 {
        law_closed_iff_process_gone(events.drop_last());
    }
}

/// The number of bytes delivered is the sum of the lengths of the chunks
/// that the consumer took, whatever the events were.
pub proof fn law_delivered_is_sum_of_chunks(events: Seq<StreamEvent>)
    ensures
        SessionView::started().run(events).delivered() == total(
            SessionView::started().deliveries(events),
        ),
    decreases events.len(),
{
    let start = SessionView::started();
    if events.len() > 0 {
        let earlier = events.drop_last();
        law_delivered_is_sum_of_chunks(earlier);
        law_closed_iff_process_gone(earlier);
        let before = start.run(earlier);
        let lengths = start.deliveries(earlier);
        if before.phase == Phase::Forwarding && events.last() == StreamEvent::Accepted {
            assert(lengths.push(CHUNK_SIZE as nat).drop_last() =~= lengths);
            assert((before.chunks + 1) * CHUNK_SIZE as nat == before.chunks * CHUNK_SIZE as nat
                + CHUNK_SIZE as nat) by (nonlinear_arith);
        }
    }
}

/// A session that runs to its end on a source that can be read closes its
/// output: once the process has exited, the session is finished, and the
/// code that the process reported is kept.
pub proof fn law_exit_ends_stream(events: Seq<StreamEvent>, code: Option<i32>)
    requires
        SessionView::started().run(events).phase != Phase::Finished,
    ensures
        SessionView::started().run(events.push(StreamEvent::Exited(code))).phase
            == Phase::Finished,
        SessionView::started().run(events.push(StreamEvent::Exited(code))).closed,
        SessionView::started().run(events.push(StreamEvent::Exited(code))).code == code,
        SessionView::started().run(events.push(StreamEvent::Exited(code))).delivered()
            == SessionView::started().run(events).delivered(),
{
    assert(events.push(StreamEvent::Exited(code)).drop_last() =~= events);
}

/// Once the consumer is gone, nothing is read or forwarded any more: the
/// session asks for the process to be terminated until the process is gone,
/// no further byte is delivered, and the stream counts as cut short.
pub proof fn law_abandoned_stream_is_killed(events: Seq<StreamEvent>, i: int)
    requires
        0 <= i < events.len(),
        events[i] == StreamEvent::Rejected,
    ensures
        SessionView::started().run(events).phase == Phase::Killing || SessionView::started().run(
            events,
        ).phase == Phase::Finished,
        SessionView::started().run(events).action() == StreamAction::Kill
            || !SessionView::started().run(events).running,
        SessionView::started().run(events).delivered() == SessionView::started().run(
            events.take(i),
        ).delivered(),
    decreases events.len(),
{
    let start = SessionView::started();
    let earlier = events.drop_last();
    law_closed_iff_process_gone(earlier);
    if i == events.len() - 1 {
        assert(events.take(i) =~= earlier);
    } else {
        law_abandoned_stream_is_killed(earlier, i);
        assert(earlier.take(i) =~= events.take(i));
    }
}

/// After the consumer has gone, the first report that the process has ended
/// finishes the session: no process is left running when it is over.
pub proof fn law_abandoned_stream_ends(events: Seq<StreamEvent>, i: int, code: Option<i32>)
    requires
        0 <= i < events.len(),
        events[i] == StreamEvent::Rejected,
    ensures
        SessionView::started().run(events.push(StreamEvent::Exited(code))).phase
            == Phase::Finished,
        !SessionView::started().run(events.push(StreamEvent::Exited(code))).running,
{
    law_abandoned_stream_is_killed(events, i);
    law_closed_iff_process_gone(events);
    assert(events.push(StreamEvent::Exited(code)).drop_last() =~= events);
}

} // verus!
