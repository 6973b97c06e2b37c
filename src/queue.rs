use std::collections::VecDeque;
use vstd::prelude::*;

verus! {

/// What a queue holds, as a mathematical value: the pending jobs from head to
/// tail, and whether the sending side has been closed.
pub struct QueueModel<J> {
    pub pending: Seq<J>,
    pub closed: bool,
}

/// The outcome of one attempt to take a job from the queue.
pub enum Dequeued<J> {
    /// The job at the head, now removed from the queue.
    Job(J),
    /// The queue is closed and holds nothing more: no job will ever come.
    Closed,
    /// Nothing is pending yet, but the queue is still open: wait and retry.
    Empty,
}

/// The model of a freshly created queue: open and empty.
pub open spec fn empty_model<J>() -> QueueModel<J> {
    QueueModel { pending: Seq::empty(), closed: false }
}

/// Appending a job at the tail. A closed queue accepts nothing.
pub open spec fn enqueue_spec<J>(m: QueueModel<J>, job: J) -> QueueModel<J> {
    if m.closed {
        m
    } else {
        QueueModel { pending: m.pending.push(job), ..m }
    }
}

/// Closing the sending side; jobs already pending stay retrievable.
pub open spec fn close_spec<J>(m: QueueModel<J>) -> QueueModel<J> {
    QueueModel { closed: true, ..m }
}

/// Taking the head job, if any; otherwise reporting closure or emptiness.
pub open spec fn dequeue_spec<J>(m: QueueModel<J>) -> (QueueModel<J>, Dequeued<J>) {
    if m.pending.len() > 0 {
        (QueueModel { pending: m.pending.drop_first(), ..m }, Dequeued::Job(m.pending[0]))
    } else if m.closed {
        (m, Dequeued::Closed)
    } else {
        (m, Dequeued::Empty)
    }
}

/// One operation on the queue, as the pool and its workers perform them.
pub enum QueueOp<J> {
    /// The pool submits a job.
    Submit(J),
    /// A worker tries to take a job.
    Take,
    /// The pool closes the sending side.
    Close,
}

/// The effect of one operation: the new model, the jobs it accepted and the
/// jobs it handed out.
pub open spec fn step_spec<J>(m: QueueModel<J>, op: QueueOp<J>) -> (QueueModel<J>, Seq<J>, Seq<J>) {
    match op {
        QueueOp::Submit(job) => if m.closed {
            (m, Seq::empty(), Seq::empty())
        } else {
            (enqueue_spec(m, job), seq![job], Seq::empty())
        },
        QueueOp::Take => match dequeue_spec(m).1 {
            Dequeued::Job(job) => (dequeue_spec(m).0, Seq::empty(), seq![job]),
            _ => (m, Seq::empty(), Seq::empty()),
        },
        QueueOp::Close => (close_spec(m), Seq::empty(), Seq::empty()),
    }
}

/// The effect of a sequence of operations, in order: the final model, every
/// job accepted (in submission order) and every job handed out (in the order
/// it left the queue).
pub open spec fn run_spec<J>(m: QueueModel<J>, ops: Seq<QueueOp<J>>) -> (
    QueueModel<J>,
    Seq<J>,
    Seq<J>,
)
    decreases ops.len(),
{
    if ops.len() == 0 {
        (m, Seq::empty(), Seq::empty())
    } else {
        let (m1, acc1, out1) = step_spec(m, ops[0]);
        let (m2, acc2, out2) = run_spec(m1, ops.drop_first());
        (m2, acc1 + acc2, out1 + out2)
    }
}

/// `n` attempts in a row to take a job.
pub open spec fn takes<J>(n: nat) -> Seq<QueueOp<J>> {
    Seq::new(n, |i: int| QueueOp::Take)
}

/// Running two sequences of operations one after the other is running their
/// concatenation.
pub proof fn lemma_run_concat<J>(m: QueueModel<J>, a: Seq<QueueOp<J>>, b: Seq<QueueOp<J>>)
    ensures
        ({
            let (ma, acc_a, out_a) = run_spec(m, a);
            let (mb, acc_b, out_b) = run_spec(ma, b);
            run_spec(m, a + b) == (mb, acc_a + acc_b, out_a + out_b)
        }),
    decreases a.len(),
{
    if a.len() == 0 {
        assert(a + b =~= b);
        let (mb, acc_b, out_b) = run_spec(m, b);
        assert(Seq::<J>::empty() + acc_b =~= acc_b);
        assert(Seq::<J>::empty() + out_b =~= out_b);
    } else {
        assert((a + b).drop_first() =~= a.drop_first() + b);
        assert((a + b)[0] == a[0]);
        lemma_run_concat(step_spec(m, a[0]).0, a.drop_first(), b);
        let (m1, acc1, out1) = step_spec(m, a[0]);
        let (ma, acc_a, out_a) = run_spec(m1, a.drop_first());
        let (mb, acc_b, out_b) = run_spec(ma, b);
        assert(acc1 + (acc_a + acc_b) =~= (acc1 + acc_a) + acc_b);
        assert(out1 + (out_a + out_b) =~= (out1 + out_a) + out_b);
    }
}

/// No job is lost or duplicated, whatever the interleaving of submissions,
/// takes and closing: the jobs handed out, in the order they left, followed by
/// those still pending, are the jobs that were pending at the start followed by
/// those accepted, in submission order.
pub proof fn lemma_jobs_conserved<J>(m: QueueModel<J>, ops: Seq<QueueOp<J>>)
    ensures
        ({
            let (f, accepted, handed_out) = run_spec(m, ops);
            m.pending + accepted == handed_out + f.pending
        }),
    decreases ops.len(),
{
    if ops.len() > 0 {
        lemma_jobs_conserved(step_spec(m, ops[0]).0, ops.drop_first());
        let (m1, acc1, out1) = step_spec(m, ops[0]);
        let (f, acc2, out2) = run_spec(m1, ops.drop_first());
        if let QueueOp::Take = ops[0] {
            if m.pending.len() > 0 {
                assert(m.pending =~= seq![m.pending[0]] + m.pending.drop_first());
            }
        }
        assert(m.pending + acc1 =~= out1 + m1.pending);
        assert(m.pending + (acc1 + acc2) =~= (m.pending + acc1) + acc2);
        assert(out1 + m1.pending + acc2 =~= out1 + (m1.pending + acc2));
        assert(out1 + (out2 + f.pending) =~= (out1 + out2) + f.pending);
    } else {
        assert(m.pending + Seq::<J>::empty() =~= m.pending);
        assert(Seq::<J>::empty() + m.pending =~= m.pending);
    }
}

/// A closed queue stays closed, and workers taking from it at least as many
/// times as it holds jobs receive exactly those jobs, head first, and leave
/// it empty; it then reports closure.
pub proof fn lemma_closed_queue_drains<J>(m: QueueModel<J>, n: nat)
    requires
        m.closed,
        n >= m.pending.len(),
    ensures
        run_spec(m, takes(n)) == (
        QueueModel { pending: Seq::<J>::empty(), closed: true },
        Seq::<J>::empty(),
        m.pending,
        ),
        dequeue_spec(run_spec(m, takes::<J>(n)).0).1 is Closed,
    decreases n,
{
    if n == 0 {
        assert(m.pending =~= Seq::<J>::empty());
    } else {
        assert(takes::<J>(n).drop_first() =~= takes::<J>((n - 1) as nat));
        let m1 = dequeue_spec(m).0;
        lemma_closed_queue_drains(m1, (n - 1) as nat);
        if m.pending.len() > 0 {
            assert(m.pending =~= seq![m.pending[0]] + m.pending.drop_first());
        } else {
            assert(m.pending =~= Seq::<J>::empty());
        }
        assert(Seq::<J>::empty() + Seq::<J>::empty() =~= Seq::<J>::empty());
    }
}

/// Every job submitted before shutdown is handed out exactly once: starting
/// from a new queue, after any interleaving of submissions and takes, closing
/// the queue and letting the workers take until it reports closure hands out
/// exactly the accepted jobs, in submission order.
pub proof fn lemma_shutdown_delivers_each_job_once<J>(ops: Seq<QueueOp<J>>, n: nat)
    requires
        n >= run_spec(empty_model::<J>(), ops).0.pending.len(),
    ensures
        ({
            let (f, accepted, handed_out) = run_spec(
                empty_model::<J>(),
                ops + seq![QueueOp::Close] + takes(n),
            );
            &&& handed_out == accepted
            &&& f.pending.len() == 0
            &&& dequeue_spec(f).1 is Closed
        }),
{
    let e = empty_model::<J>();
    let closing = seq![QueueOp::<J>::Close];
    lemma_run_concat(e, ops, closing);
    lemma_run_concat(e, ops + closing, takes(n));
    lemma_jobs_conserved(e, ops);
    let (m1, acc1, out1) = run_spec(e, ops);
    assert(closing.len() == 1 && closing[0] is Close);
    assert(closing.drop_first() =~= Seq::<QueueOp<J>>::empty());
    assert(Seq::<J>::empty() + Seq::<J>::empty() =~= Seq::<J>::empty());
    assert(run_spec(close_spec(m1), Seq::<QueueOp<J>>::empty()) == (
    close_spec(m1),
    Seq::<J>::empty(),
    Seq::<J>::empty(),
    ));
    let (m2, acc2, out2) = run_spec(m1, closing);
    assert(acc2 =~= Seq::<J>::empty());
    assert(out2 =~= Seq::<J>::empty());
    lemma_closed_queue_drains(m2, n);
    assert(e.pending + acc1 =~= acc1);
    assert(acc1 + acc2 + Seq::<J>::empty() =~= acc1);
    assert(out1 + out2 + m1.pending =~= out1 + m1.pending);
}

/// The FIFO queue shared between the pool (which submits and closes) and its
/// workers (which take jobs one at a time).
pub struct JobQueue<J> {
    pending: VecDeque<J>,
    closed: bool,
}

impl<J> View for JobQueue<J> {
    type V = QueueModel<J>;

    closed spec fn view(&self) -> QueueModel<J> {
        QueueModel { pending: self.pending@, closed: self.closed }
    }
}

impl<J> JobQueue<J> {
    /// An open queue with no pending job.
    pub fn new() -> (r: Self)
        ensures
            r@ == empty_model::<J>(),
    {
        JobQueue { pending: VecDeque::new(), closed: false }
    }

    /// Appends `job` at the tail. On a closed queue the job is handed back
    /// untouched in `Err` and the queue does not change.
    pub fn enqueue(&mut self, job: J) -> (r: Result<(), J>)
        ensures
            final(self)@ == enqueue_spec(old(self)@, job),
            r is Ok <==> !old(self)@.closed,
            r matches Err(j) ==> j == job,
    {
        if self.closed {
            Err(job)
        } else {
            self.pending.push_back(job);
            Ok(())
        }
    }

    /// Closes the sending side. This cannot be undone.
    pub fn close(&mut self)
        ensures
            final(self)@ == close_spec(old(self)@),
    {
        self.closed = true;
    }

    /// Takes the job at the head, or says why there is none.
    pub fn dequeue(&mut self) -> (r: Dequeued<J>)
        ensures
            (final(self)@, r) == dequeue_spec(old(self)@),
    {
        match self.pending.pop_front() {
            Some(job) => Dequeued::Job(job),
            None => {
                if self.closed {
                    Dequeued::Closed
                } else {
                    Dequeued::Empty
                }
            },
        }
    }

    /// The number of jobs waiting to be taken.
    pub fn len(&self) -> (r: usize)
        ensures
            r == self@.pending.len(),
    {
        self.pending.len()
    }

    /// Whether the sending side has been closed.
    pub fn is_closed(&self) -> (r: bool)
        ensures
            r == self@.closed,
    {
        self.closed
    }
}

} // verus!
