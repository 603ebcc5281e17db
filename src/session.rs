use vstd::prelude::*;

use crate::text::{first_line, handshake_line, handshake_text, is_line_safe};
use crate::worker::{shutdown_step, Worker, WorkerState};

verus! {

/// Where a client session stands.
#[derive(PartialEq, Eq, Structural, Clone, Copy, Debug)]
pub enum SessionPhase {
    /// The handshake line is still to be written.
    Greeting,
    /// Reading until the client goes away.
    Listening,
    /// The client is gone, or could not be told the id: the worker is to be shut down.
    Closing,
    /// The worker's shutdown has begun.
    Closed,
}

/// What the session is to do next.
#[derive(PartialEq, Eq, Structural, Clone, Copy, Debug)]
pub enum SessionAction {
    /// Read from the client once more.
    Read,
    /// Shut the worker down.
    Shutdown,
}

/// The result of one read from the client: `Some(n)` bytes, or `None` on a
/// read error.
pub open spec fn is_disconnect(outcome: Option<usize>) -> bool {
    match outcome {
        Some(n) => n == 0,
        None => true,
    }
}

/// Phase and action after writing the handshake: a failed write skips reading.
pub open spec fn after_write_spec(written: bool) -> (SessionPhase, SessionAction) {
    if written {
        (SessionPhase::Listening, SessionAction::Read)
    } else {
        (SessionPhase::Closing, SessionAction::Shutdown)
    }
}

/// Phase and action after one read: data is discarded and reading goes on;
/// an empty read or a read error means the client is gone.
pub open spec fn after_read_spec(outcome: Option<usize>) -> (SessionPhase, SessionAction) {
    if is_disconnect(outcome) {
        (SessionPhase::Closing, SessionAction::Shutdown)
    } else {
        (SessionPhase::Listening, SessionAction::Read)
    }
}

/// One client connection and the worker assigned to it.
pub struct Session<P> {
    worker: Worker<P>,
    phase: SessionPhase,
}

impl<P> Session<P> {
    pub closed spec fn worker(&self) -> Worker<P> {
        self.worker
    }

    pub closed spec fn phase(&self) -> SessionPhase {
        self.phase
    }

    /// The worker's id, which stays the same over the whole session.
    pub open spec fn id(&self) -> Seq<char> {
        self.worker().id()
    }

    /// Until it is shut down, the worker still owns its process.
    pub open spec fn wf(&self) -> bool {
        &&& self.worker().wf()
        &&& (self.phase() == SessionPhase::Closed <==> !self.worker().can_shut_down())
    }

    /// A session for a worker that is ready or already assigned.
    pub fn new(worker: Worker<P>) -> (r: Self)
        requires
            worker.wf(),
            worker.state() == WorkerState::Ready || worker.state() == WorkerState::Assigned,
        ensures
            r.wf(),
            r.worker() == worker,
            r.phase() == SessionPhase::Greeting,
    {
        Session { worker, phase: SessionPhase::Greeting }
    }

    pub fn current_phase(&self) -> (r: SessionPhase)
        ensures
            r == self.phase(),
    {
        self.phase
    }

    pub fn worker_name(&self) -> (r: &str)
        ensures
            r@ == self.id(),
    {
        self.worker.name()
    }

    /// The whole handshake: the worker id and one newline.
    pub fn handshake(&self) -> (r: String)
        ensures
            r@ == handshake_text(self.id()),
    {
        handshake_line(self.worker.name())
    }

    /// Records whether the handshake was written.
    pub fn after_write(&mut self, written: bool) -> (act: SessionAction)
        requires
            old(self).wf(),
            old(self).phase() == SessionPhase::Greeting,
        ensures
            final(self).wf(),
            final(self).worker() == old(self).worker(),
            (final(self).phase(), act) == after_write_spec(written),
    {
        if written {
            self.phase = SessionPhase::Listening;
            SessionAction::Read
        } else {
            self.phase = SessionPhase::Closing;
            SessionAction::Shutdown
        }
    }

    /// Records the outcome of one read from the client.
    pub fn after_read(&mut self, outcome: Option<usize>) -> (act: SessionAction)
        requires
            old(self).wf(),
            old(self).phase() == SessionPhase::Listening,
        ensures
            final(self).wf(),
            final(self).worker() == old(self).worker(),
            (final(self).phase(), act) == after_read_spec(outcome),
    {
        let gone = match outcome {
            Some(n) => n == 0,
            None => true,
        };
        if gone {
            self.phase = SessionPhase::Closing;
            SessionAction::Shutdown
        } else {
            SessionAction::Read
        }
    }

    /// Begins the worker's shutdown and hands out its process handle to be
    /// killed and reaped. Only a closing session does this, and only once.
    pub fn shut_down(&mut self) -> (r: P)
        requires
            old(self).wf(),
            old(self).phase() == SessionPhase::Closing,
        ensures
            final(self).wf(),
            final(self).phase() == SessionPhase::Closed,
            shutdown_step(old(self).worker(), final(self).worker()),
            old(self).worker().process() == Some(r),
    {
        self.phase = SessionPhase::Closed;
        self.worker.shutdown()
    }

    /// The worker's process has been reaped.
    pub fn reaped(&mut self)
        requires
            old(self).wf(),
            old(self).phase() == SessionPhase::Closed,
            old(self).worker().state() == WorkerState::ShuttingDown,
        ensures
            final(self).wf(),
            final(self).phase() == SessionPhase::Closed,
            final(self).id() == old(self).id(),
            final(self).worker().state() == WorkerState::Terminated,
    {
        self.worker.mark_terminated();
    }
}

/// Once a listening session sees the client go away (an empty read or a read
/// error), its next action is the worker's shutdown; that shutdown leaves the
/// session closed with a worker that can never be shut down again.
pub proof fn lemma_disconnect_shuts_down_once<P>(
    outcome: Option<usize>,
    before: Session<P>,
    after: Session<P>,
    later: Worker<P>,
)
    requires
        is_disconnect(outcome),
        before.phase() == after_read_spec(outcome).0,
        after.phase() == SessionPhase::Closed,
        shutdown_step(before.worker(), after.worker()),
    ensures
        after_read_spec(outcome) == (SessionPhase::Closing, SessionAction::Shutdown),
        before.phase() == SessionPhase::Closing,
        after.phase() != SessionPhase::Closing,
        !shutdown_step(after.worker(), later),
{
}

/// The line a client reads for a session names the worker that the session
/// later shuts down.
pub proof fn lemma_handshake_names_shut_down_worker<P>(s: Session<P>, t: Session<P>)
    requires
        is_line_safe(s.id()),
        shutdown_step(s.worker(), t.worker()),
    ensures
        first_line(handshake_text(s.id())) == t.worker().id(),
{
    crate::text::lemma_handshake_round_trip(s.id());
}

} // verus!
