use crate::queue::{close_spec, enqueue_spec, JobQueue};
use crate::worker::{Worker, WorkerPhase};
use vstd::prelude::*;

verus! {

/// The error of asking for a pool without any worker.
#[derive(Clone, Copy, Debug, PartialEq, Eq, Structural)]
pub struct PoolCreationError;

/// The stages of a pool's life, in the only order they can come.
#[derive(Clone, Copy, Debug, PartialEq, Eq, Structural)]
pub enum PoolState {
    /// Jobs are accepted and every worker runs.
    Active,
    /// The queue is closed; the workers are being joined one by one.
    ShuttingDown,
    /// Every worker has been joined.
    Terminated,
}

/// A pool's lifecycle as a value: how many workers it has, its stage, and how
/// many of the workers (those with the lowest ids) have been joined.
pub struct PoolModel {
    pub size: usize,
    pub state: PoolState,
    pub joined: usize,
}

/// One step of the shutdown: join the worker with the lowest id not joined
/// yet, or, when all are, end in `Terminated`.
pub open spec fn join_step(p: PoolModel) -> (PoolModel, Option<usize>) {
    if p.joined < p.size {
        (
            PoolModel { state: PoolState::ShuttingDown, joined: (p.joined + 1) as usize, ..p },
            Some(p.joined),
        )
    } else {
        (PoolModel { state: PoolState::Terminated, ..p }, None)
    }
}

/// `k` steps of the shutdown, with the ids joined, in order.
pub open spec fn join_steps(p: PoolModel, k: nat) -> (PoolModel, Seq<usize>)
    decreases k,
{
    if k == 0 {
        (p, Seq::empty())
    } else {
        let (p1, joined) = join_step(p);
        let (p2, ids) = join_steps(p1, (k - 1) as nat);
        match joined {
            Some(id) => (p2, seq![id] + ids),
            None => (p2, ids),
        }
    }
}

/// Shutdown joins each worker exactly once, in ascending id order, and only
/// then reaches `Terminated`: from a pool that has begun shutting down, with
/// `joined` workers joined so far, enough steps join the remaining ids in
/// order and end with every worker joined.
pub proof fn lemma_shutdown_joins_in_id_order(p: PoolModel, k: nat)
    requires
        p.state != PoolState::Active,
        p.joined <= p.size,
        k > p.size - p.joined,
    ensures
        join_steps(p, k) == (
        PoolModel { state: PoolState::Terminated, joined: p.size, ..p },
        Seq::new((p.size - p.joined) as nat, |i: int| (p.joined + i) as usize),
        ),
    decreases k,
{
    let (p1, joined) = join_step(p);
    if p.joined < p.size {
        lemma_shutdown_joins_in_id_order(p1, (k - 1) as nat);
        let ids = Seq::new((p1.size - p1.joined) as nat, |i: int| (p1.joined + i) as usize);
        assert(seq![p.joined] + ids =~= Seq::new(
            (p.size - p.joined) as nat,
            |i: int| (p.joined + i) as usize,
        ));
    } else if k > 1 {
        lemma_shutdown_joins_in_id_order(p1, (k - 1) as nat);
        assert(Seq::new((p.size - p.joined) as nat, |i: int| (p.joined + i) as usize)
            =~= Seq::<usize>::empty());
    } else {
        assert(join_steps(p1, 0) == (p1, Seq::<usize>::empty()));
        assert(Seq::new((p.size - p.joined) as nat, |i: int| (p.joined + i) as usize)
            =~= Seq::<usize>::empty());
    }
}

/// The control side of a pool: its size and lifecycle. The pool's threads and
/// the lock round its queue are held by the embedding code, which asks this
/// value what to do.
pub struct PoolControl {
    size: usize,
    state: PoolState,
    joined: usize,
}

impl View for PoolControl {
    type V = PoolModel;

    closed spec fn view(&self) -> PoolModel {
        PoolModel { size: self.size, state: self.state, joined: self.joined }
    }
}

impl PoolControl {
    /// A pool has at least one worker; while active none has been joined, and
    /// once terminated all have.
    pub open spec fn wf(&self) -> bool {
        &&& self@.size > 0
        &&& self@.joined <= self@.size
        &&& self@.state == PoolState::Active ==> self@.joined == 0
        &&& self@.state == PoolState::Terminated ==> self@.joined == self@.size
    }

    /// An active pool of `size` workers, or `PoolCreationError` exactly when
    /// `size` is zero.
    pub fn build(size: usize) -> (r: Result<PoolControl, PoolCreationError>)
        ensures
            r is Ok <==> size > 0,
            r matches Ok(p) ==> p.wf() && p@ == (PoolModel {
                size,
                state: PoolState::Active,
                joined: 0,
            }),
    {
        if size == 0 {
            Err(PoolCreationError)
        } else {
            Ok(PoolControl { size, state: PoolState::Active, joined: 0 })
        }
    }

    /// An active pool of `size` workers. A pool of no worker cannot be made.
    pub fn new(size: usize) -> (r: PoolControl)
        requires
            size > 0,
        ensures
            r.wf(),
            r@ == (PoolModel { size, state: PoolState::Active, joined: 0 }),
    {
        PoolControl { size, state: PoolState::Active, joined: 0 }
    }

    pub fn size(&self) -> (r: usize)
        ensures
            r == self@.size,
    {
        self.size
    }

    pub fn state(&self) -> (r: PoolState)
        ensures
            r == self@.state,
    {
        self.state
    }

    /// The pool's workers, with ids `0` to `size - 1` in order, each about to
    /// poll the queue.
    pub fn workers(&self) -> (r: Vec<Worker>)
        requires
            self.wf(),
        ensures
            r@.len() == self@.size,
            forall|i: int|
                0 <= i < r@.len() ==> r@[i].spec_id() == i && r@[i].spec_phase()
                    == WorkerPhase::WaitingForJob,
    {
        let mut workers: Vec<Worker> = Vec::with_capacity(self.size);
        let mut id: usize = 0;
        while id < self.size
            invariant
                id <= self@.size,
                workers@.len() == id,
                forall|i: int|
                    0 <= i < id ==> workers@[i].spec_id() == i && workers@[i].spec_phase()
                        == WorkerPhase::WaitingForJob,
            decreases self@.size - id,
        {
            workers.push(Worker::new(id));
            id = id + 1;
        }
        workers
    }

    /// Submits a job to the queue of an active pool. The job is handed back
    /// in `Err` only if the queue was already closed.
    pub fn execute<J>(&self, queue: &mut JobQueue<J>, job: J) -> (r: Result<(), J>)
        requires
            self@.state == PoolState::Active,
        ensures
            final(queue)@ == enqueue_spec(old(queue)@, job),
            r is Ok <==> !old(queue)@.closed,
            r matches Err(j) ==> j == job,
    {
        queue.enqueue(job)
    }

    /// Starts the shutdown: closes the queue, so that no job is accepted any
    /// more while those pending stay to be drained.
    pub fn begin_shutdown<J>(&mut self, queue: &mut JobQueue<J>)
        requires
            old(self).wf(),
            old(self)@.state == PoolState::Active,
        ensures
            final(self).wf(),
            final(self)@ == (PoolModel { state: PoolState::ShuttingDown, ..old(self)@ }),
            final(queue)@ == close_spec(old(queue)@),
    {
        self.state = PoolState::ShuttingDown;
        queue.close();
    }

    /// The id of the next worker to join, lowest first, each once; `None`
    /// when all have been joined, which ends the pool's life.
    pub fn next_join(&mut self) -> (r: Option<usize>)
        requires
            old(self).wf(),
            old(self)@.state != PoolState::Active,
        ensures
            final(self).wf(),
            (final(self)@, r) == join_step(old(self)@),
    {
        if self.joined < self.size {
            let id = self.joined;
            self.joined = self.joined + 1;
            self.state = PoolState::ShuttingDown;
            Some(id)
        } else {
            self.state = PoolState::Terminated;
            None
        }
    }
}

} // verus!
