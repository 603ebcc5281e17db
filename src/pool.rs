use vstd::prelude::*;

use crate::worker::{Worker, WorkerState};

verus! {

/// What the pool manager knows: the ready workers (the last one is served
/// next), the target size, the warm-ups in flight, whether connections are
/// served yet, and whether shutdown has begun.
pub struct PoolView<P> {
    pub ready: Seq<Worker<P>>,
    pub target: nat,
    pub warming: nat,
    pub accepting: bool,
    pub stopped: bool,
}

/// What the event loop observed.
pub enum PoolEvent<P> {
    /// A client connected.
    Connection,
    /// The warm-up in flight produced a ready worker.
    WorkerReady(Worker<P>),
    /// A termination signal arrived.
    Terminate,
}

/// What the event loop is to do next.
pub enum PoolAction<P> {
    /// Serve the connection with this worker.
    Serve(Worker<P>),
    /// The pool is empty: warm up a fresh worker for this connection.
    ServeFresh,
    /// The worker went into the pool.
    Stored,
    /// Shut down every one of these workers, then exit.
    Drain(Vec<Worker<P>>),
}

/// `b` is `a` handed to a connection.
pub open spec fn assigned_from<P>(a: Worker<P>, b: Worker<P>) -> bool {
    &&& b.wf()
    &&& b.state() == WorkerState::Assigned
    &&& b.id() == a.id()
    &&& b.process() == a.process()
}

impl<P> PoolView<P> {
    /// The state right after `Pool::new(target)`: every startup warm-up in flight.
    pub open spec fn initial(target: nat) -> Self {
        PoolView { ready: Seq::empty(), target, warming: target, accepting: target == 0, stopped: false }
    }

    pub open spec fn permits(self, ev: &PoolEvent<P>) -> bool {
        !self.stopped && match ev {
            PoolEvent::Connection => self.accepting,
            PoolEvent::WorkerReady(w) => self.warming > 0 && w.wf() && w.state() == WorkerState::Ready,
            PoolEvent::Terminate => true,
        }
    }

    /// The worker that the next connection gets: the one stored last.
    pub open spec fn next_served(self) -> Option<Worker<P>> {
        if self.ready.len() > 0 {
            Some(self.ready.last())
        } else {
            None
        }
    }

    pub open spec fn on_connection(self) -> Self {
        PoolView {
            ready: if self.ready.len() > 0 { self.ready.drop_last() } else { self.ready },
            ..self
        }
    }

    /// A warm-up finished; once the startup warm-ups are all in, connections are served.
    pub open spec fn on_ready(self, w: Worker<P>) -> Self {
        PoolView {
            ready: self.ready.push(w),
            warming: (self.warming - 1) as nat,
            accepting: self.accepting || self.warming == 1,
            ..self
        }
    }

    pub open spec fn on_terminate(self) -> Self {
        PoolView { ready: Seq::empty(), warming: 0, stopped: true, ..self }
    }

    /// One warm-up is started while serving and short of the target, and
    /// only when none is in flight.
    pub open spec fn wants_warmup(self) -> bool {
        self.accepting && !self.stopped && self.warming == 0 && self.ready.len() < self.target
    }

    /// The state after the warm-ups in flight deliver `ws`, in that order.
    pub open spec fn after_readies(self, ws: Seq<Worker<P>>) -> Self
        decreases ws.len(),
    {
        if ws.len() == 0 {
            self
        } else {
            self.on_ready(ws[0]).after_readies(ws.drop_first())
        }
    }
}

/// The pool of ready workers and the decisions of the event loop that owns it.
pub struct Pool<P> {
    ready: Vec<Worker<P>>,
    target: usize,
    warming: usize,
    accepting: bool,
    stopped: bool,
}

impl<P> View for Pool<P> {
    type V = PoolView<P>;

    closed spec fn view(&self) -> PoolView<P> {
        PoolView {
            ready: self.ready@,
            target: self.target as nat,
            warming: self.warming as nat,
            accepting: self.accepting,
            stopped: self.stopped,
        }
    }
}

impl<P> Pool<P> {
    /// Every pooled worker is `Ready` and owns its process; the pool never
    /// holds more than the target less the warm-ups in flight; during startup
    /// the warm-ups in flight make up the rest of the target; once serving,
    /// at most one warm-up is in flight; after shutdown the pool is empty.
    pub open spec fn wf(&self) -> bool {
        let v = self@;
        &&& forall|i: int| 0 <= i < v.ready.len() ==> (#[trigger] v.ready[i]).wf() && v.ready[i].state() == WorkerState::Ready
        &&& v.ready.len() + v.warming <= v.target
        &&& !v.accepting && !v.stopped ==> v.ready.len() + v.warming == v.target
        &&& v.accepting ==> v.warming <= 1
        &&& v.stopped ==> v.ready.len() == 0 && v.warming == 0
    }

    /// A pool of target size `target`; the caller launches `target` warm-ups
    /// and reports each as it completes.
    pub fn new(target: usize) -> (r: Self)
        ensures
            r.wf(),
            r@ == PoolView::<P>::initial(target as nat),
    {
        Pool { ready: Vec::new(), target, warming: target, accepting: target == 0, stopped: false }
    }

    pub fn len(&self) -> (r: usize)
        ensures
            r == self@.ready.len(),
    {
        self.ready.len()
    }

    pub fn target(&self) -> (r: usize)
        ensures
            r == self@.target,
    {
        self.target
    }

    pub fn is_accepting(&self) -> (r: bool)
        ensures
            r == self@.accepting,
    {
        self.accepting
    }

    pub fn is_stopped(&self) -> (r: bool)
        ensures
            r == self@.stopped,
    {
        self.stopped
    }

    /// Starts a warm-up when one is wanted; tells whether it did.
    pub fn start_warmup(&mut self) -> (r: bool)
        requires
            old(self).wf(),
        ensures
            final(self).wf(),
            r == old(self)@.wants_warmup(),
            final(self)@ == (if r { PoolView { warming: 1, ..old(self)@ } } else { old(self)@ }),
    {
        if self.accepting && !self.stopped && self.warming == 0 && self.ready.len() < self.target {
            self.warming = 1;
            true
        } else {
            false
        }
    }

    /// Decides what to do on one event of the loop.
    pub fn handle(&mut self, ev: PoolEvent<P>) -> (act: PoolAction<P>)
        requires
            old(self).wf(),
            old(self)@.permits(&ev),
        ensures
            final(self).wf(),
            match ev {
                PoolEvent::Connection => {
                    &&& final(self)@ == old(self)@.on_connection()
                    &&& match old(self)@.next_served() {
                        Some(w) => act is Serve && assigned_from(w, act->Serve_0),
                        None => act is ServeFresh,
                    }
                },
                PoolEvent::WorkerReady(w) => final(self)@ == old(self)@.on_ready(w) && act is Stored,
                PoolEvent::Terminate => {
                    &&& final(self)@ == old(self)@.on_terminate()
                    &&& act is Drain
                    &&& act->Drain_0@ == old(self)@.ready
                },
            },
    {
        match ev {
            PoolEvent::Connection => {
                match self.ready.pop() {
                    Some(w) => {
                        let mut w = w;
                        w.assign();
                        PoolAction::Serve(w)
                    },
                    None => PoolAction::ServeFresh,
                }
            },
            PoolEvent::WorkerReady(w) => {
                self.ready.push(w);
                self.warming = self.warming - 1;
                if self.warming == 0 {
                    self.accepting = true;
                }
                PoolAction::Stored
            },
            PoolEvent::Terminate => {
                let mut drained: Vec<Worker<P>> = Vec::new();
                std::mem::swap(&mut drained, &mut self.ready);
                self.warming = 0;
                self.stopped = true;
                PoolAction::Drain(drained)
            },
        }
    }
}

proof fn lemma_startup_general<P>(s: PoolView<P>, ws: Seq<Worker<P>>)
    requires
        s.warming == ws.len(),
    ensures
        s.after_readies(ws).ready == s.ready + ws,
        s.after_readies(ws).warming == 0,
        s.after_readies(ws).accepting == (s.accepting || ws.len() > 0),
        s.after_readies(ws).target == s.target,
    decreases ws.len(),
{
    if ws.len() > 0 {
        let t = s.on_ready(ws[0]);
        lemma_startup_general(t, ws.drop_first());
        assert(t.ready + ws.drop_first() =~= s.ready + ws);
    } else {
        assert(s.ready + ws =~= s.ready);
    }
}

proof fn lemma_startup_partial<P>(s: PoolView<P>, ws: Seq<Worker<P>>)
    requires
        s.warming > ws.len(),
        !s.accepting,
    ensures
        s.after_readies(ws).ready == s.ready + ws,
        !s.after_readies(ws).accepting,
    decreases ws.len(),
{
    if ws.len() > 0 {
        let t = s.on_ready(ws[0]);
        lemma_startup_partial(t, ws.drop_first());
        assert(t.ready + ws.drop_first() =~= s.ready + ws);
    } else {
        assert(s.ready + ws =~= s.ready);
    }
}

/// Startup with target `n`: when the `n` warm-ups have delivered, the pool
/// holds exactly those `n` workers and serves connections; before that it
/// serves none.
pub proof fn lemma_startup_fills_pool<P>(n: nat, ws: Seq<Worker<P>>)
    ensures
        ws.len() == n ==> {
            let s = PoolView::<P>::initial(n).after_readies(ws);
            &&& s.ready == ws
            &&& s.ready.len() == n
            &&& s.accepting
            &&& s.warming == 0
        },
        ws.len() < n ==> !PoolView::<P>::initial(n).after_readies(ws).accepting,
{
    let s0 = PoolView::<P>::initial(n);
    if ws.len() == n {
        lemma_startup_general(s0, ws);
        assert(s0.ready + ws =~= ws);
    } else if ws.len() < n {
        lemma_startup_partial(s0, ws);
    }
}

/// In every state that the pool's operations keep, each pooled worker is
/// `Ready` and still owns its process.
pub proof fn lemma_pooled_workers_ready<P>(p: &Pool<P>, i: int)
    requires
        p.wf(),
        0 <= i < p@.ready.len(),
    ensures
        p@.ready[i].state() == WorkerState::Ready,
        p@.ready[i].can_shut_down(),
{
    assert(p@.ready[i].wf());
}

/// The worker a connection gets is the one that became ready last.
pub proof fn lemma_served_last_in<P>(s: PoolView<P>, w: Worker<P>)
    ensures
        s.on_ready(w).next_served() == Some(w),
{
}

} // verus!
