use rand::Rng;
use vstd::prelude::*;

use crate::text::{contains, decimal, digit_char, is_line_safe, push_decimal, text_contains};

verus! {

/// Where a worker stands in its life.
#[derive(PartialEq, Eq, Structural, Clone, Copy, Debug)]
pub enum WorkerState {
    Starting,
    Ready,
    Assigned,
    ShuttingDown,
    Terminated,
}

/// One running worker process. `P` is the handle through which the process
/// is stopped and reaped; the worker owns it until shutdown hands it out.
pub struct Worker<P> {
    name: String,
    process: Option<P>,
    state: WorkerState,
}

/// The id of a worker drawn from the number `n`.
pub open spec fn worker_name_text(n: u32) -> Seq<char> {
    "pool-"@ + decimal(n as nat)
}

/// A step of `shutdown`: it is allowed only on a live worker, and the worker
/// is never live again afterwards.
pub open spec fn shutdown_step<P>(before: Worker<P>, after: Worker<P>) -> bool {
    &&& before.can_shut_down()
    &&& !after.can_shut_down()
    &&& after.id() == before.id()
    &&& after.state() == WorkerState::ShuttingDown
}

/// The substring whose appearance on a worker's diagnostic stream tells that
/// it has started.
pub fn ready_marker() -> (r: &'static str)
    ensures
        r@ == "Starting Emacs daemon."@,
{
    "Starting Emacs daemon."
}

/// Milliseconds to wait after the readiness marker before a worker is used.
pub const SETTLE_DELAY_MS: u64 = 500;

/// Whether a line read from a worker's diagnostic stream shows `marker`;
/// the end of the stream (`None`) reads as an empty line.
pub fn shows_marker(line: &Option<String>, marker: &str) -> (r: bool)
    ensures
        r == match line {
            Some(l) => contains(l@, marker@),
            None => contains(Seq::<char>::empty(), marker@),
        },
{
    match line {
        Some(l) => text_contains(l.as_str(), marker),
        None => {
            proof {
                reveal_strlit("");
                assert(""@ =~= Seq::<char>::empty());
            }
            text_contains("", marker)
        },
    }
}

/// Relies on `rand::thread_rng().gen::<u32>()`: any `u32` may come back.
#[verifier::external_body]
fn random_u32() -> (r: u32) {
    rand::thread_rng().gen::<u32>()
}

/// The worker id for the number `n`: `pool-` and `n` in decimal.
pub fn worker_name(n: u32) -> (r: String)
    ensures
        r@ == worker_name_text(n),
{
    let mut s = String::from_str("pool-");
    push_decimal(&mut s, n);
    s
}

proof fn lemma_decimal_no_line_break(n: nat)
    ensures
        forall|k: int| 0 <= k < decimal(n).len() ==> decimal(n)[k] != '\n' && decimal(n)[k] != '\r',
    decreases n,
{
    let s = decimal(n);
    if n >= 10 {
        lemma_decimal_no_line_break(n / 10);
        let p = decimal(n / 10);
        assert(s == p.push(digit_char(n % 10)));
        assert forall|k: int| 0 <= k < s.len() implies s[k] != '\n' && s[k] != '\r' by {
            if k < p.len() {
                assert(s[k] == p[k]);
            }
        };
    } else {
        assert(s == seq![digit_char(n)]);
    }
}

/// Every worker id travels as a single line.
pub proof fn lemma_worker_name_line_safe(n: u32)
    ensures
        is_line_safe(worker_name_text(n)),
{
    reveal_strlit("pool-");
    lemma_decimal_no_line_break(n as nat);
    let s = worker_name_text(n);
    assert forall|k: int| 0 <= k < s.len() implies s[k] != '\n' && s[k] != '\r' by {
        if k >= 5 {
            assert(s[k] == decimal(n as nat)[k - 5]);
        }
    };
}

/// A fresh worker id from a random number. Ids are not checked against
/// those already in use.
pub fn new_worker_name() -> (r: String)
    ensures
        exists|n: u32| r@ == worker_name_text(n),
        is_line_safe(r@),
{
    let n = random_u32();
    proof {
        lemma_worker_name_line_safe(n);
    }
    worker_name(n)
}

impl<P> Worker<P> {
    pub closed spec fn id(&self) -> Seq<char> {
        self.name@
    }

    pub closed spec fn state(&self) -> WorkerState {
        self.state
    }

    /// The process handle, while the worker still owns it.
    pub closed spec fn process(&self) -> Option<P> {
        self.process
    }

    /// Shutdown has not begun: the worker still owns its process.
    pub open spec fn can_shut_down(&self) -> bool {
        self.process() is Some
    }

    /// The handle is held exactly in the states before shutdown.
    pub open spec fn wf(&self) -> bool {
        self.can_shut_down() <==> (self.state() == WorkerState::Starting || self.state()
            == WorkerState::Ready || self.state() == WorkerState::Assigned)
    }

    /// A worker whose process was just launched under `name`.
    pub fn new(name: String, process: P) -> (r: Self)
        ensures
            r.wf(),
            r.id() == name@,
            r.state() == WorkerState::Starting,
            r.process() == Some(process),
    {
        Worker { name, process: Some(process), state: WorkerState::Starting }
    }

    pub fn name(&self) -> (r: &str)
        ensures
            r@ == self.id(),
    {
        self.name.as_str()
    }

    pub fn current_state(&self) -> (r: WorkerState)
        ensures
            r == self.state(),
    {
        self.state
    }

    /// The readiness marker was seen and the settle delay is over.
    pub fn mark_ready(&mut self)
        requires
            old(self).wf(),
            old(self).state() == WorkerState::Starting,
        ensures
            final(self).wf(),
            final(self).state() == WorkerState::Ready,
            final(self).id() == old(self).id(),
            final(self).process() == old(self).process(),
    {
        self.state = WorkerState::Ready;
    }

    /// The worker is handed to a connection.
    pub fn assign(&mut self)
        requires
            old(self).wf(),
            old(self).state() == WorkerState::Ready,
        ensures
            final(self).wf(),
            final(self).state() == WorkerState::Assigned,
            final(self).id() == old(self).id(),
            final(self).process() == old(self).process(),
    {
        self.state = WorkerState::Assigned;
    }

    /// Begins shutdown: hands out the process handle so that the process can
    /// be killed and reaped. Allowed once in the worker's life.
    pub fn shutdown(&mut self) -> (r: P)
        requires
            old(self).wf(),
            old(self).can_shut_down(),
        ensures
            final(self).wf(),
            shutdown_step(*old(self), *final(self)),
            old(self).process() == Some(r),
    {
        self.state = WorkerState::ShuttingDown;
        self.process.take().unwrap()
    }

    /// The process has been killed and reaped.
    pub fn mark_terminated(&mut self)
        requires
            old(self).wf(),
            old(self).state() == WorkerState::ShuttingDown,
        ensures
            final(self).wf(),
            final(self).state() == WorkerState::Terminated,
            final(self).id() == old(self).id(),
            !final(self).can_shut_down(),
    {
        self.state = WorkerState::Terminated;
    }
}

/// `shutdown` runs at most once on a worker: after one step, no second step
/// can start from the state it left.
pub proof fn lemma_shutdown_at_most_once<P>(a: Worker<P>, b: Worker<P>, c: Worker<P>)
    requires
        shutdown_step(a, b),
    ensures
        !shutdown_step(b, c),
{
}

} // verus!
