//! The dispatcher: an unbounded first-in-first-out queue of jobs with one
//! sending side that can be closed. Workers take jobs from the front; once the
//! queue is closed and empty, every take reports that it is closed.
use vstd::prelude::*;

verus! {

/// What the queue holds, as a mathematical value.
pub struct QueueView<J> {
    /// The jobs waiting to be taken, oldest first.
    pub pending: Seq<J>,
    /// Whether submissions are still accepted.
    pub open: bool,
}

impl<J> QueueView<J> {
    /// The queue after a submission of `job`: appended when open, unchanged
    /// when closed.
    pub open spec fn after_submit(self, job: J) -> QueueView<J> {
        if self.open {
            QueueView { pending: self.pending.push(job), open: true }
        } else {
            self
        }
    }

    /// The queue after one take: the oldest job leaves, if there is one.
    pub open spec fn after_take(self) -> QueueView<J> {
        if self.pending.len() > 0 {
            QueueView { pending: self.pending.drop_first(), open: self.open }
        } else {
            self
        }
    }

    /// The queue after it is closed: the pending jobs stay.
    pub open spec fn after_close(self) -> QueueView<J> {
        QueueView { pending: self.pending, open: false }
    }
}

/// The result of one take from the queue.
pub enum Delivery<J> {
    /// The oldest pending job, now owned by the taker.
    Job(J),
    /// Nothing is pending but the queue is open: the taker waits.
    Empty,
    /// Nothing is pending and the queue is closed: the taker stops.
    Closed,
}

/// What a take from a queue in state `q` delivers.
pub open spec fn delivery_of<J>(q: QueueView<J>) -> Delivery<J> {
    if q.pending.len() > 0 {
        Delivery::Job(q.pending[0])
    } else if q.open {
        Delivery::Empty
    } else {
        Delivery::Closed
    }
}

/// One operation on the queue, as a step of a run.
pub enum QueueOp<J> {
    Submit(J),
    Take,
    Close,
}

/// The queue after one operation.
pub open spec fn step<J>(q: QueueView<J>, op: QueueOp<J>) -> QueueView<J> {
    match op {
        QueueOp::Submit(job) => q.after_submit(job),
        QueueOp::Take => q.after_take(),
        QueueOp::Close => q.after_close(),
    }
}

/// The queue after the operations `ops`, applied in order from `q`.
pub open spec fn run<J>(q: QueueView<J>, ops: Seq<QueueOp<J>>) -> QueueView<J>
    decreases ops.len(),
{
    if ops.len() == 0 {
        q
    } else {
        step(run(q, ops.drop_last()), ops.last())
    }
}

/// The jobs whose submission the queue accepted during `ops`, in order.
pub open spec fn accepted<J>(q: QueueView<J>, ops: Seq<QueueOp<J>>) -> Seq<J>
    decreases ops.len(),
{
    if ops.len() == 0 {
        Seq::empty()
    } else {
        let before = accepted(q, ops.drop_last());
        match ops.last() {
            QueueOp::Submit(job) => if run(q, ops.drop_last()).open {
                before.push(job)
            } else {
                before
            },
            _ => before,
        }
    }
}

/// The jobs that takes delivered during `ops`, in order.
pub open spec fn delivered<J>(q: QueueView<J>, ops: Seq<QueueOp<J>>) -> Seq<J>
    decreases ops.len(),
{
    if ops.len() == 0 {
        Seq::empty()
    } else {
        let before = delivered(q, ops.drop_last());
        match ops.last() {
            QueueOp::Take => match delivery_of(run(q, ops.drop_last())) {
                Delivery::Job(job) => before.push(job),
                _ => before,
            },
            _ => before,
        }
    }
}

/// No job is lost, duplicated or reordered: what was delivered, followed by
/// what is still pending, is exactly what was pending at the start followed
/// by every accepted submission, in order.
pub proof fn lemma_jobs_conserved<J>(q: QueueView<J>, ops: Seq<QueueOp<J>>)
    ensures
        delivered(q, ops) + run(q, ops).pending == q.pending + accepted(q, ops),
    decreases ops.len(),
{
    if ops.len() > 0 {
        let prev = ops.drop_last();
        lemma_jobs_conserved(q, prev);
        let r = run(q, prev);
        match ops.last() {
            QueueOp::Submit(job) => {
                if r.open {
                    assert(delivered(q, prev) + r.pending.push(job) =~= (delivered(q, prev)
                        + r.pending).push(job));
                    assert(q.pending + accepted(q, prev).push(job) =~= (q.pending + accepted(
                        q,
                        prev,
                    )).push(job));
                }
            },
            QueueOp::Take => {
                if r.pending.len() > 0 {
                    assert(delivered(q, prev).push(r.pending[0]) + r.pending.drop_first()
                        =~= delivered(q, prev) + r.pending);
                }
            },
            QueueOp::Close => {},
        }
    }
}

/// Jobs are delivered in the order in which they were submitted: what the
/// takes delivered is a prefix of the jobs pending at the start followed by
/// the accepted submissions.
pub proof fn lemma_fifo_order<J>(q: QueueView<J>, ops: Seq<QueueOp<J>>)
    ensures
        delivered(q, ops).len() <= q.pending.len() + accepted(q, ops).len(),
        delivered(q, ops) == (q.pending + accepted(q, ops)).take(delivered(q, ops).len() as int),
{
    lemma_jobs_conserved(q, ops);
    let d = delivered(q, ops);
    assert((d + run(q, ops).pending).len() == d.len() + run(q, ops).pending.len());
    assert((d + run(q, ops).pending).take(d.len() as int) =~= d);
}

/// Once the queue is closed, it stays closed and accepts no submission: any
/// further operations add nothing to what was accepted.
pub proof fn lemma_closed_rejects<J>(q: QueueView<J>, ops: Seq<QueueOp<J>>, more: Seq<QueueOp<J>>)
    requires
        !run(q, ops).open,
    ensures
        !run(q, ops + more).open,
        accepted(q, ops + more) == accepted(q, ops),
    decreases more.len(),
{
    if more.len() == 0 {
        assert(ops + more =~= ops);
    } else {
        lemma_closed_rejects(q, ops, more.drop_last());
        assert((ops + more).drop_last() =~= ops + more.drop_last());
    }
}

/// Closing loses nothing: from a closed queue, as many takes as there are
/// pending jobs deliver all of them in order, and the next take reports the
/// queue closed.
pub proof fn lemma_close_drains<J>(q: QueueView<J>, n: nat)
    requires
        !q.open,
        n == q.pending.len(),
    ensures
        delivered(q, Seq::new(n, |i: int| QueueOp::Take)) == q.pending,
        run(q, Seq::new(n, |i: int| QueueOp::Take)).pending.len() == 0,
        delivery_of(run(q, Seq::new(n, |i: int| QueueOp::Take))) == Delivery::<J>::Closed,
{
    lemma_takes_deliver(q, n);
}

/// Before any job is submitted, a new pool's workers all wait: any number of
/// takes from an open, empty queue deliver nothing, leave it as it is, and
/// the next take still finds it empty.
pub proof fn lemma_fresh_queue_waits<J>(q: QueueView<J>, k: nat)
    requires
        q.open,
        q.pending.len() == 0,
    ensures
        delivered(q, Seq::new(k, |i: int| QueueOp::Take)).len() == 0,
        run(q, Seq::new(k, |i: int| QueueOp::Take)) == q,
        delivery_of(run(q, Seq::new(k, |i: int| QueueOp::Take))) == Delivery::<J>::Empty,
    decreases k,
{
    if k > 0 {
        lemma_fresh_queue_waits(q, (k - 1) as nat);
        assert(Seq::new(k, |i: int| QueueOp::<J>::Take).drop_last() =~= Seq::new(
            (k - 1) as nat,
            |i: int| QueueOp::<J>::Take,
        ));
    }
}

/// `k` takes deliver the first `k` pending jobs and leave the rest.
proof fn lemma_takes_deliver<J>(q: QueueView<J>, k: nat)
    requires
        k <= q.pending.len(),
    ensures
        delivered(q, Seq::new(k, |i: int| QueueOp::Take)) == q.pending.take(k as int),
        run(q, Seq::new(k, |i: int| QueueOp::Take)) == (QueueView {
            pending: q.pending.skip(k as int),
            open: q.open,
        }),
    decreases k,
{
    let ops = Seq::new(k, |i: int| QueueOp::<J>::Take);
    if k == 0 {
        assert(q.pending.take(0) =~= Seq::<J>::empty());
        assert(q.pending.skip(0) =~= q.pending);
    } else {
        lemma_takes_deliver(q, (k - 1) as nat);
        assert(ops.drop_last() =~= Seq::new((k - 1) as nat, |i: int| QueueOp::<J>::Take));
        let r = run(q, ops.drop_last());
        assert(r.pending[0] == q.pending[k - 1]);
        assert(q.pending.take(k - 1).push(q.pending[k - 1]) =~= q.pending.take(k as int));
        assert(r.pending.drop_first() =~= q.pending.skip(k as int));
    }
}

/// An unbounded job queue with a closable sending side.
pub struct JobQueue<J> {
    jobs: std::collections::VecDeque<J>,
    open: bool,
}

impl<J> View for JobQueue<J> {
    type V = QueueView<J>;

    closed spec fn view(&self) -> QueueView<J> {
        QueueView { pending: self.jobs@, open: self.open }
    }
}

impl<J> JobQueue<J> {
    /// An open queue with nothing pending.
    pub fn new() -> (r: Self)
        ensures
            r@.pending.len() == 0,
            r@.open,
    {
        JobQueue { jobs: std::collections::VecDeque::new(), open: true }
    }

    /// Whether submissions are still accepted.
    pub fn is_open(&self) -> (r: bool)
        ensures
            r == self@.open,
    {
        self.open
    }

    /// The number of jobs waiting to be taken.
    pub fn len(&self) -> (r: usize)
        ensures
            r == self@.pending.len(),
    {
        self.jobs.len()
    }

    /// Enqueues `job` at the back while the queue is open; never blocks. Once
    /// the queue is closed the job is handed back in `Err`.
    pub fn submit(&mut self, job: J) -> (r: Result<(), J>)
        ensures
            final(self)@ == old(self)@.after_submit(job),
            r is Ok <==> old(self)@.open,
            r matches Err(j) ==> j == job,
    {
        if self.open {
            self.jobs.push_back(job);
            Ok(())
        } else {
            Err(job)
        }
    }

    /// Takes the oldest pending job. With nothing pending, reports whether the
    /// taker should wait (open) or stop (closed).
    pub fn take(&mut self) -> (r: Delivery<J>)
        ensures
            r == delivery_of(old(self)@),
            final(self)@ == old(self)@.after_take(),
    {
        match self.jobs.pop_front() {
            Some(job) => Delivery::Job(job),
            None => {
                if self.open {
                    Delivery::Empty
                } else {
                    Delivery::Closed
                }
            },
        }
    }

    /// Closes the sending side. Pending jobs stay and are still delivered.
    pub fn close(&mut self)
        ensures
            final(self)@ == old(self)@.after_close(),
    {
        self.open = false;
    }
}

} // verus!
