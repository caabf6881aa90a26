use vstd::prelude::*;
use std::collections::VecDeque;

verus! {

/// An order sent to the manager's worker.
#[derive(Debug, Clone, Copy, PartialEq, Eq, Structural)]
pub enum Task {
    /// Process everything still waiting, then stop taking new work.
    PoliteKill,
    /// Stop at once.
    ForceKill,
    /// Process up to this many of the waiting items.
    Resume(usize),
}

/// Whether the worker has ever been woken.
#[derive(Debug, Clone, Copy, PartialEq, Eq, Structural)]
pub enum Status {
    Idle,
    Processing,
}

impl Status {
    /// Whether the status is `Idle`.
    pub fn is_idle(&self) -> (r: bool)
        ensures
            r <==> *self == Status::Idle,
    {
        if let Status::Idle = self {
            true
        } else {
            false
        }
    }

    /// Whether the status is `Processing`.
    pub fn is_processing(&self) -> (r: bool)
        ensures
            r <==> *self == Status::Processing,
    {
        if let Status::Processing = self {
            true
        } else {
            false
        }
    }
}

/// What the worker does after it has taken an order.
#[derive(Debug)]
pub enum WorkerAction<I> {
    /// Run the process on these items, all at once, and send the results
    /// in [`results_in_send_order`].
    Process(Vec<I>),
    /// Leave the loop.
    Stop,
    /// Nothing to do; wait for the next order.
    Wait,
}

/// The state a manager shares between its users and its worker: the
/// items waiting to be processed, in the order they were pushed, and the
/// worker's status.
pub struct Manager<I> {
    pool: VecDeque<I>,
    status: Status,
}

/// The smaller of two numbers.
pub open spec fn min_usize(a: usize, b: usize) -> usize {
    if a <= b {
        a
    } else {
        b
    }
}

/// The state after the worker took `task` in a state with `pool` waiting,
/// and what it does then.
pub open spec fn handle_task_spec<I>(pool: Seq<I>, task: Task) -> (Seq<I>, WorkerActionView<I>) {
    match task {
        Task::Resume(n) => {
            let k = min_usize(n, pool.len() as usize) as int;
            (pool.subrange(k, pool.len() as int), WorkerActionView::Process(pool.subrange(0, k)))
        },
        Task::PoliteKill => (Seq::empty(), WorkerActionView::Process(pool)),
        Task::ForceKill => (pool, WorkerActionView::Stop),
    }
}

/// A [`WorkerAction`] as mathematics.
pub enum WorkerActionView<I> {
    Process(Seq<I>),
    Stop,
    Wait,
}

impl<I> View for WorkerAction<I> {
    type V = WorkerActionView<I>;

    open spec fn view(&self) -> WorkerActionView<I> {
        match self {
            WorkerAction::Process(items) => WorkerActionView::Process(items@),
            WorkerAction::Stop => WorkerActionView::Stop,
            WorkerAction::Wait => WorkerActionView::Wait,
        }
    }
}

impl<I> Manager<I> {
    /// The size of the results channel when none is given.
    pub const STANDARD_BUFFER: usize = 100;

    /// How long [`Manager`]'s users wait between two checks of a
    /// condition, in milliseconds.
    pub const STANDARD_POLL_DELAY_MS: u64 = 400;

    /// The items waiting, oldest first.
    pub closed spec fn pool(&self) -> Seq<I> {
        self.pool@
    }

    /// The worker's status.
    pub closed spec fn status(&self) -> Status {
        self.status
    }

    /// A manager with nothing waiting, whose worker is idle.
    pub fn new() -> (m: Self)
        ensures
            m.pool() == Seq::<I>::empty(),
            m.status() == Status::Idle,
    {
        Manager { pool: VecDeque::new(), status: Status::Idle }
    }

    /// The number of items waiting.
    pub fn len(&self) -> (r: usize)
        ensures
            r == self.pool().len(),
    {
        self.pool.len()
    }

    /// The worker's status.
    pub fn process_status(&self) -> (r: Status)
        ensures
            r == self.status(),
    {
        self.status
    }

    /// Puts an item at the back of the queue.
    pub fn push(&mut self, to_push: I)
        ensures
            final(self).pool() == old(self).pool().push(to_push),
            final(self).status() == old(self).status(),
    {
        self.pool.push_back(to_push);
    }

    /// Puts the items at the back of the queue, in their order.
    pub fn push_many(&mut self, to_push: Vec<I>)
        ensures
            final(self).pool() == old(self).pool() + to_push@,
            final(self).status() == old(self).status(),
    {
        let mut to_push = to_push;
        let ghost all = to_push@;
        let ghost start = self.pool@;
        let mut rest: VecDeque<I> = VecDeque::new();
        // move the items into a queue so that they can be taken from the front
        while to_push.len() > 0
            invariant
                all == to_push@ + rest@.reverse(),
            decreases to_push.len(),
        {
            let item = to_push.pop().unwrap();
            rest.push_back(item);
            proof {
                assert(all =~= to_push@ + rest@.reverse());
            }
        }
        proof {
            assert(rest@.reverse() =~= all);
        }
        while rest.len() > 0
            invariant
                self.pool@ + rest@.reverse() == start + all,
                self.status == old(self).status,
            decreases rest.len(),
        {
            let item = rest.pop_back().unwrap();
            self.pool.push_back(item);
            proof {
                assert(self.pool@ + rest@.reverse() =~= start + all);
            }
        }
        proof {
            assert(self.pool@ =~= start + all);
        }
    }

    /// Asks the worker to process up to `to_resume` items: the order to
    /// send, and how many items it will process if nothing is pushed
    /// before it takes the order.
    pub fn resume(&self, to_resume: usize) -> (r: (Task, usize))
        ensures
            r.0 == Task::Resume(to_resume),
            r.1 == min_usize(to_resume, self.pool().len() as usize),
    {
        let len = self.pool.len();
        (Task::Resume(to_resume), if to_resume <= len { to_resume } else { len })
    }

    /// Asks the worker to process every item waiting: the order to send,
    /// and how many items are waiting.
    pub fn resume_all(&self) -> (r: (Task, usize))
        ensures
            r.0 == Task::Resume(self.pool().len() as usize),
            r.1 == self.pool().len(),
    {
        let len = self.pool.len();
        (Task::Resume(len), len)
    }

    /// Takes the `n` oldest waiting items out of the queue.
    fn take_front(&mut self, n: usize) -> (batch: Vec<I>)
        requires
            n <= old(self).pool().len(),
        ensures
            batch@ == old(self).pool().subrange(0, n as int),
            final(self).pool() == old(self).pool().subrange(n as int, old(self).pool().len() as int),
            final(self).status() == old(self).status(),
    {
        let mut batch: Vec<I> = Vec::new();
        let ghost start = self.pool@;
        let mut i: usize = 0;
        while i < n
            invariant
                i <= n,
                n <= start.len(),
                batch@ == start.subrange(0, i as int),
                self.pool@ == start.subrange(i as int, start.len() as int),
                self.status == old(self).status,
            decreases n - i,
        {
            let item = self.pool.pop_front().unwrap();
            batch.push(item);
            i = i + 1;
            proof {
                assert(batch@ =~= start.subrange(0, i as int));
                assert(self.pool@ =~= start.subrange(i as int, start.len() as int));
            }
        }
        batch
    }

    /// The worker takes an order: it marks itself as processing, and then
    /// takes out of the queue the oldest `n` items for `Resume(n)` (all of
    /// them where fewer wait), every item for `PoliteKill`, and nothing for
    /// `ForceKill`, which stops it.
    pub fn handle_task(&mut self, task: Task) -> (action: WorkerAction<I>)
        ensures
            (final(self).pool(), action@) == handle_task_spec(old(self).pool(), task),
            final(self).status() == Status::Processing,
    {
        self.status = Status::Processing;
        match task {
            Task::Resume(advance_of) => {
                let len = self.pool.len();
                let k = if advance_of <= len { advance_of } else { len };
                let batch = self.take_front(k);
                WorkerAction::Process(batch)
            },
            Task::PoliteKill => {
                let len = self.pool.len();
                let batch = self.take_front(len);
                proof {
                    assert(self.pool@ =~= Seq::<I>::empty());
                    assert(batch@ =~= old(self).pool());
                }
                WorkerAction::Process(batch)
            },
            Task::ForceKill => WorkerAction::Stop,
        }
    }

    /// The worker finds the order channel closed: it marks itself as
    /// processing and waits again.
    pub fn handle_closed_channel(&mut self) -> (action: WorkerAction<I>)
        ensures
            final(self).pool() == old(self).pool(),
            final(self).status() == Status::Processing,
            action is Wait,
    {
        self.status = Status::Processing;
        WorkerAction::Wait
    }
}

/// The order in which the worker sends the results of a batch: the order
/// of the batch's inputs, which is the order they were pushed in.
pub fn results_in_send_order<O>(joined: Vec<O>) -> (r: Vec<O>)
    ensures
        r@ == joined@,
{
    joined
}

/// What happens to a manager's queue: an item is pushed, or the worker
/// takes an order.
pub enum ManagerEvent<I> {
    Push(I),
    Take(Task),
}

/// The queue after a run of `events` from an empty queue, and the items
/// the worker took out to process, in the order it took them.
pub open spec fn run_manager<I>(events: Seq<ManagerEvent<I>>) -> (Seq<I>, Seq<I>)
    decreases events.len(),
{
    if events.len() == 0 {
        (Seq::empty(), Seq::empty())
    } else {
        let (pool, processed) = run_manager(events.drop_last());
        match events.last() {
            ManagerEvent::Push(item) => (pool.push(item), processed),
            ManagerEvent::Take(task) => {
                let (next_pool, action) = handle_task_spec(pool, task);
                match action {
                    WorkerActionView::Process(batch) => (next_pool, processed + batch),
                    _ => (next_pool, processed),
                }
            },
        }
    }
}

/// The items pushed in a run, in the order they were pushed.
pub open spec fn pushed_items<I>(events: Seq<ManagerEvent<I>>) -> Seq<I>
    decreases events.len(),
{
    if events.len() == 0 {
        Seq::empty()
    } else {
        match events.last() {
            ManagerEvent::Push(item) => pushed_items(events.drop_last()).push(item),
            ManagerEvent::Take(_) => pushed_items(events.drop_last()),
        }
    }
}

/// Over any run of pushes and orders, the worker processes the pushed items
/// in the order they were pushed, each at most once, and loses none: the
/// items it took out, followed by those still waiting, are exactly the
/// items pushed.
pub proof fn lemma_run_keeps_push_order<I>(events: Seq<ManagerEvent<I>>)
    ensures
        run_manager(events).1 + run_manager(events).0 == pushed_items(events),
    decreases events.len(),
{
    if events.len() > 0 {
        let rest = events.drop_last();
        lemma_run_keeps_push_order(rest);
        let (pool, processed) = run_manager(rest);
        match events.last() {
            ManagerEvent::Push(item) => {
                assert(processed + pool.push(item) =~= (processed + pool).push(item));
            },
            ManagerEvent::Take(task) => {
                lemma_handle_task_keeps_items(pool, task);
                match handle_task_spec(pool, task).1 {
                    WorkerActionView::Process(batch) => {
                        let next_pool = handle_task_spec(pool, task).0;
                        assert((processed + batch) + next_pool =~= processed + (batch + next_pool));
                    },
                    _ => {},
                }
            },
        }
    }
}

/// Nothing is lost or duplicated when the worker takes an order: the
/// items it processes followed by those still waiting are the items that
/// waited before, in the same order; and once it has stopped for
/// `ForceKill`, the queue is as it was.
pub proof fn lemma_handle_task_keeps_items<I>(pool: Seq<I>, task: Task)
    ensures
        match handle_task_spec(pool, task).1 {
            WorkerActionView::Process(batch) => batch + handle_task_spec(pool, task).0 == pool,
            WorkerActionView::Stop => handle_task_spec(pool, task).0 == pool,
            WorkerActionView::Wait => false,
        },
{
    match task {
        Task::Resume(n) => {
            let k = min_usize(n, pool.len() as usize) as int;
            assert(pool.subrange(0, k) + pool.subrange(k, pool.len() as int) =~= pool);
        },
        Task::PoliteKill => {
            assert(pool + Seq::<I>::empty() =~= pool);
        },
        Task::ForceKill => {},
    }
}

/// A polite kill drains the queue: the worker processes every item that
/// waits, in the order they were pushed, and none is left behind.
pub proof fn lemma_polite_kill_processes_everything<I>(pool: Seq<I>)
    ensures
        handle_task_spec(pool, Task::PoliteKill).0.len() == 0,
        match handle_task_spec(pool, Task::PoliteKill).1 {
            WorkerActionView::Process(batch) => batch == pool,
            _ => false,
        },
{
}

/// A forced kill processes nothing: the worker stops and every item stays
/// in the queue, in order.
pub proof fn lemma_force_kill_processes_nothing<I>(pool: Seq<I>)
    ensures
        handle_task_spec(pool, Task::ForceKill).0 == pool,
        handle_task_spec(pool, Task::ForceKill).1 is Stop,
{
}

/// The count [`Manager::resume`] returns is the number of items the
/// worker processes when it takes the order with nothing pushed between.
pub proof fn lemma_resume_count_is_batch_size<I>(pool: Seq<I>, n: usize)
    requires
        pool.len() <= usize::MAX,
    ensures
        match handle_task_spec(pool, Task::Resume(n)).1 {
            WorkerActionView::Process(batch) => batch.len() == min_usize(n, pool.len() as usize),
            _ => false,
        },
{
}

} // verus!
