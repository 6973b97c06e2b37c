use crate::queue::{dequeue_spec, Dequeued, JobQueue};
use vstd::prelude::*;

verus! {

/// Where a worker stands in its loop.
#[derive(Clone, Copy, Debug, PartialEq, Eq, Structural)]
pub enum WorkerPhase {
    /// Polling the shared queue for the next job.
    WaitingForJob,
    /// Running a job it took; the queue is free for the others meanwhile.
    Executing,
    /// The queue was closed and drained: the worker's loop has ended for good.
    Terminated,
}

/// What a worker's execution unit must do after one poll of the queue.
pub enum WorkerAction<J> {
    /// Run this job to completion, then report back with `finish_job`.
    Run(J),
    /// Nothing is pending yet: release the queue, wait for a signal, poll again.
    Wait,
    /// Leave the loop: no job will ever come.
    Exit,
}

/// One worker of the pool: its id and where it stands in its loop.
pub struct Worker {
    id: usize,
    phase: WorkerPhase,
}

impl Worker {
    pub closed spec fn spec_id(&self) -> usize {
        self.id
    }

    pub closed spec fn spec_phase(&self) -> WorkerPhase {
        self.phase
    }

    /// A worker with the given id, about to poll the queue.
    pub fn new(id: usize) -> (r: Worker)
        ensures
            r.spec_id() == id,
            r.spec_phase() == WorkerPhase::WaitingForJob,
    {
        Worker { id, phase: WorkerPhase::WaitingForJob }
    }

    pub fn id(&self) -> (r: usize)
        ensures
            r == self.spec_id(),
    {
        self.id
    }

    pub fn phase(&self) -> (r: WorkerPhase)
        ensures
            r == self.spec_phase(),
    {
        self.phase
    }

    /// One poll of the shared queue, made while holding its lock: takes the
    /// head job if there is one, and decides what the worker does next. The
    /// worker leaves its loop exactly when the queue is closed and drained.
    pub fn poll<J>(&mut self, queue: &mut JobQueue<J>) -> (r: WorkerAction<J>)
        requires
            old(self).spec_phase() == WorkerPhase::WaitingForJob,
        ensures
            final(queue)@ == dequeue_spec(old(queue)@).0,
            final(self).spec_id() == old(self).spec_id(),
            match dequeue_spec(old(queue)@).1 {
                Dequeued::Job(job) => r == WorkerAction::Run(job) && final(self).spec_phase()
                    == WorkerPhase::Executing,
                Dequeued::Closed => r is Exit && final(self).spec_phase()
                    == WorkerPhase::Terminated,
                Dequeued::Empty => r is Wait && final(self).spec_phase()
                    == WorkerPhase::WaitingForJob,
            },
            r is Exit <==> (old(queue)@.closed && old(queue)@.pending.len() == 0),
    {
        match queue.dequeue() {
            Dequeued::Job(job) => {
                self.phase = WorkerPhase::Executing;
                WorkerAction::Run(job)
            },
            Dequeued::Closed => {
                self.phase = WorkerPhase::Terminated;
                WorkerAction::Exit
            },
            Dequeued::Empty => WorkerAction::Wait,
        }
    }

    /// The job handed out by the last poll has run to completion: the worker
    /// goes back to polling.
    pub fn finish_job(&mut self)
        requires
            old(self).spec_phase() == WorkerPhase::Executing,
        ensures
            final(self).spec_id() == old(self).spec_id(),
            final(self).spec_phase() == WorkerPhase::WaitingForJob,
    {
        self.phase = WorkerPhase::WaitingForJob;
    }
}

} // verus!
