//! The pool's lifecycle: Ready while it accepts jobs, Draining once teardown
//! has begun, Closed once every worker has been joined. The worker count is
//! fixed when the pool is made.
use vstd::prelude::*;

verus! {

/// The phase of a pool's lifecycle.
#[derive(PartialEq, Eq, Structural, Clone, Copy, Debug)]
pub enum Phase {
    /// Accepting submissions.
    Ready,
    /// The sending side is closed; workers finish what is queued and exit.
    Draining,
    /// Every worker has exited and has been joined.
    Closed,
}

/// A lifecycle as a mathematical value.
pub struct LifecycleView {
    pub phase: Phase,
    /// The number of workers, fixed at construction.
    pub size: nat,
    /// How many workers have been joined since teardown began.
    pub joined: nat,
}

impl LifecycleView {
    /// The lifecycle's invariant: a fixed positive worker count, no joins
    /// before teardown, and Closed exactly when every worker was joined.
    pub open spec fn wf(self) -> bool {
        &&& self.size > 0
        &&& self.joined <= self.size
        &&& self.phase == Phase::Ready ==> self.joined == 0
        &&& self.phase == Phase::Closed <==> self.joined == self.size
    }

    /// The lifecycle of a pool just made with `size` workers.
    pub open spec fn initial(size: nat) -> LifecycleView {
        LifecycleView { phase: Phase::Ready, size, joined: 0 }
    }

    /// The lifecycle once teardown has begun.
    pub open spec fn after_teardown(self) -> LifecycleView {
        LifecycleView { phase: Phase::Draining, size: self.size, joined: 0 }
    }

    /// The lifecycle once one more worker has been joined.
    pub open spec fn after_join(self) -> LifecycleView {
        let joined = self.joined + 1;
        LifecycleView {
            phase: if joined == self.size {
                Phase::Closed
            } else {
                Phase::Draining
            },
            size: self.size,
            joined,
        }
    }

    /// The lifecycle after `k` joins.
    pub open spec fn after_joins(self, k: nat) -> LifecycleView
        decreases k,
    {
        if k == 0 {
            self
        } else {
            self.after_joins((k - 1) as nat).after_join()
        }
    }
}

/// The lifecycle state of one pool.
pub struct Lifecycle {
    phase: Phase,
    size: usize,
    joined: usize,
}

impl View for Lifecycle {
    type V = LifecycleView;

    closed spec fn view(&self) -> LifecycleView {
        LifecycleView { phase: self.phase, size: self.size as nat, joined: self.joined as nat }
    }
}

impl Lifecycle {
    /// The lifecycle of a pool with `size` workers, in phase Ready. A pool
    /// without workers is a programming error.
    pub fn new(size: usize) -> (r: Self)
        requires
            size > 0,
        ensures
            r@ == LifecycleView::initial(size as nat),
            r@.wf(),
    {
        Lifecycle { phase: Phase::Ready, size, joined: 0 }
    }

    /// The current phase.
    pub fn phase(&self) -> (r: Phase)
        ensures
            r == self@.phase,
    {
        self.phase
    }

    /// The number of workers.
    pub fn size(&self) -> (r: usize)
        ensures
            r == self@.size,
    {
        self.size
    }

    /// Whether the pool still takes submissions.
    pub fn accepts_jobs(&self) -> (r: bool)
        ensures
            r <==> self@.phase == Phase::Ready,
    {
        self.phase == Phase::Ready
    }

    /// Whether teardown is complete: every worker has been joined.
    pub fn is_closed(&self) -> (r: bool)
        requires
            self@.wf(),
        ensures
            r <==> self@.phase == Phase::Closed,
            r <==> self@.joined == self@.size,
    {
        self.phase == Phase::Closed
    }

    /// Begins teardown, once: the pool moves from Ready to Draining.
    pub fn begin_teardown(&mut self)
        requires
            old(self)@.wf(),
            old(self)@.phase == Phase::Ready,
        ensures
            final(self)@ == old(self)@.after_teardown(),
            final(self)@.wf(),
    {
        self.phase = Phase::Draining;
    }

    /// Records that one more worker has exited and been joined; the last one
    /// closes the pool.
    pub fn record_join(&mut self)
        requires
            old(self)@.wf(),
            old(self)@.phase == Phase::Draining,
        ensures
            final(self)@ == old(self)@.after_join(),
            final(self)@.wf(),
    {
        self.joined = self.joined + 1;
        if self.joined == self.size {
            self.phase = Phase::Closed;
        }
    }
}

/// The identifiers of a pool's workers: one for each worker, numbered from
/// one in the order in which they are started.
pub fn worker_ids(size: usize) -> (r: Vec<u32>)
    requires
        size <= u32::MAX,
    ensures
        r@.len() == size,
        forall|i: int| 0 <= i < size ==> r@[i] == i + 1,
{
    let mut ids: Vec<u32> = Vec::with_capacity(size);
    let mut i: usize = 0;
    while i < size
        invariant
            i <= size <= u32::MAX,
            ids@.len() == i,
            forall|k: int| 0 <= k < i ==> ids@[k] == k + 1,
        decreases size - i,
    {
        ids.push((i + 1) as u32);
        i = i + 1;
    }
    ids
}

/// Teardown is complete only once every worker has been joined: after
/// teardown begins, `k` joins close the pool exactly when `k` is the worker
/// count, and the invariant holds throughout.
pub proof fn lemma_closed_after_all_joins(size: nat, k: nat)
    requires
        size > 0,
        k <= size,
    ensures
        LifecycleView::initial(size).after_teardown().after_joins(k).wf(),
        LifecycleView::initial(size).after_teardown().after_joins(k).size == size,
        LifecycleView::initial(size).after_teardown().after_joins(k).joined == k,
        LifecycleView::initial(size).after_teardown().after_joins(k).phase == Phase::Closed
            <==> k == size,
    decreases k,
{
    if k > 0 {
        lemma_closed_after_all_joins(size, (k - 1) as nat);
    }
}

} // verus!
