//! The bookkeeping of the shared sleep timer: one worker serves all pending
//! sleeps, waking each once its deadline has passed and stopping when none
//! is left. Deadlines are instants on the caller's monotonic clock, in
//! nanoseconds.
use vstd::prelude::*;

verus! {

/// A pending sleep: its deadline and the handle through which it is woken.
pub struct SleepTask<T> {
    pub deadline: u64,
    pub task: T,
}

/// The pending sleeps, in the order they were requested, and whether a
/// worker is serving them.
pub struct SleepSchedule<T> {
    tasks: Vec<SleepTask<T>>,
    thread_running: bool,
}

/// What the worker does after a round.
#[derive(Clone, Copy, Debug, PartialEq, Eq, Structural)]
pub enum WorkerStep {
    /// No sleep is pending: the worker ends.
    Exit,
    /// Wait until this deadline (or until woken), then run another round.
    WaitUntil(u64),
}

/// The tasks whose deadline is after `now`, in order.
pub open spec fn pending_after<T>(tasks: Seq<SleepTask<T>>, now: u64) -> Seq<SleepTask<T>> {
    tasks.filter(|t: SleepTask<T>| t.deadline > now)
}

/// The tasks whose deadline is at or before `now`, in order.
pub open spec fn due_at<T>(tasks: Seq<SleepTask<T>>, now: u64) -> Seq<SleepTask<T>> {
    tasks.filter(|t: SleepTask<T>| t.deadline <= now)
}

/// `d` is the earliest of the deadlines of `tasks`.
pub open spec fn is_earliest<T>(tasks: Seq<SleepTask<T>>, d: u64) -> bool {
    &&& exists|i: int| 0 <= i < tasks.len() && tasks[i].deadline == d
    &&& forall|i: int| 0 <= i < tasks.len() ==> d <= #[trigger] tasks[i].deadline
}

impl<T> SleepSchedule<T> {
    /// The pending sleeps.
    pub closed spec fn tasks(&self) -> Seq<SleepTask<T>> {
        self.tasks@
    }

    /// Whether a worker is serving the pending sleeps.
    pub closed spec fn thread_running(&self) -> bool {
        self.thread_running
    }

    /// A worker is running whenever a sleep is pending.
    pub open spec fn wf(&self) -> bool {
        self.tasks().len() > 0 ==> self.thread_running()
    }

    /// No pending sleep and no worker.
    pub fn new() -> (s: Self)
        ensures
            s.tasks() == Seq::<SleepTask<T>>::empty(),
            !s.thread_running(),
            s.wf(),
    {
        SleepSchedule { tasks: Vec::new(), thread_running: false }
    }

    /// Adds a sleep. Returns `true` when no worker was running, so the caller
    /// starts one (it is now marked running); `false` when one runs already,
    /// so the caller wakes it to take the new deadline into account.
    pub fn push(&mut self, deadline: u64, task: T) -> (start_worker: bool)
        requires
            old(self).wf(),
        ensures
            final(self).wf(),
            final(self).tasks() == old(self).tasks().push(SleepTask { deadline, task }),
            final(self).thread_running(),
            start_worker == !old(self).thread_running(),
    {
        self.tasks.push(SleepTask { deadline, task });
        if !self.thread_running {
            self.thread_running = true;
            true
        } else {
            false
        }
    }

    /// One round of the worker at time `now`: removes and returns the sleeps
    /// that are due, in order, keeping the others in order; then ends the
    /// worker if nothing is pending, or else waits for the earliest deadline.
    pub fn worker_round(&mut self, now: u64) -> (r: (Vec<SleepTask<T>>, WorkerStep))
        requires
            old(self).thread_running(),
        ensures
            final(self).wf(),
            r.0@ == due_at(old(self).tasks(), now),
            final(self).tasks() == pending_after(old(self).tasks(), now),
            final(self).tasks().len() == 0 ==> r.1 == WorkerStep::Exit
                && !final(self).thread_running(),
            final(self).tasks().len() > 0 ==> final(self).thread_running() && (r.1 matches WorkerStep::WaitUntil(d)
                && is_earliest(final(self).tasks(), d)),
    {
        let ghost old_tasks = self.tasks@;
        let mut tasks = Vec::new();
        std::mem::swap(&mut tasks, &mut self.tasks);
        let mut due: Vec<SleepTask<T>> = Vec::new();
        let mut kept: Vec<SleepTask<T>> = Vec::new();
        let n = tasks.len();
        let mut i: usize = 0;
        while i < n
            invariant
                n == old_tasks.len(),
                i <= n,
                tasks@ == old_tasks.skip(i as int),
                due@ == due_at(old_tasks.take(i as int), now),
                kept@ == pending_after(old_tasks.take(i as int), now),
            decreases n - i,
        {
            let t = tasks.remove(0);
            proof {
                assert(t == old_tasks[i as int]);
                assert(tasks@ =~= old_tasks.skip(i as int + 1));
                assert(old_tasks.take(i as int + 1).drop_last() =~= old_tasks.take(i as int));
                reveal_with_fuel(Seq::filter, 1);
            }
            if t.deadline <= now {
                due.push(t);
            } else {
                kept.push(t);
            }
            i = i + 1;
        }
        proof {
            assert(old_tasks.take(n as int) =~= old_tasks);
        }
        self.tasks = kept;
        if self.tasks.len() == 0 {
            self.thread_running = false;
            return (due, WorkerStep::Exit);
        }
        let next = self.earliest_deadline();
        (due, WorkerStep::WaitUntil(next))
    }

    /// The earliest deadline of the pending sleeps.
    fn earliest_deadline(&self) -> (d: u64)
        requires
            self.tasks().len() > 0,
        ensures
            is_earliest(self.tasks(), d),
    {
        let mut best = self.tasks[0].deadline;
        let mut best_index: usize = 0;
        let n = self.tasks.len();
        let mut i: usize = 1;
        while i < n
            invariant
                n == self.tasks@.len(),
                1 <= i <= n,
                best_index < i,
                self.tasks@[best_index as int].deadline == best,
                forall|j: int| 0 <= j < i ==> best <= #[trigger] self.tasks@[j].deadline,
            decreases n - i,
        {
            if self.tasks[i].deadline < best {
                best = self.tasks[i].deadline;
                best_index = i;
            }
            i = i + 1;
        }
        best
    }
}

/// How long the worker waits, at time `now`, for the deadline `next`:
/// nothing when it has passed.
pub fn wait_time(next: u64, now: u64) -> (r: Option<u64>)
    ensures
        r == if now < next {
            Some((next - now) as u64)
        } else {
            None::<u64>
        },
{
    if now < next {
        Some(next - now)
    } else {
        None
    }
}

/// The state shared by a sleep and the worker: whether it is over, and the
/// waker of the task awaiting it.
pub struct SharedTaskState<W> {
    completed: bool,
    waker: Option<W>,
}

impl<W> SharedTaskState<W> {
    /// Whether the sleep is over.
    pub closed spec fn completed(&self) -> bool {
        self.completed
    }

    /// The waker to call when the sleep ends.
    pub closed spec fn waker(&self) -> Option<W> {
        self.waker
    }

    /// A sleep that is not over, with no waker.
    pub fn new() -> (s: Self)
        ensures
            !s.completed(),
            s.waker() is None,
    {
        SharedTaskState { completed: false, waker: None }
    }

    /// Polls the sleep: ready when it is over; otherwise `waker` is kept to
    /// be called when it ends.
    pub fn poll(&mut self, waker: W) -> (ready: bool)
        ensures
            ready == old(self).completed(),
            final(self).completed() == old(self).completed(),
            ready ==> final(self).waker() == old(self).waker(),
            !ready ==> final(self).waker() == Some(waker),
    {
        if self.completed {
            true
        } else {
            self.waker = Some(waker);
            false
        }
    }

    /// Ends the sleep, and hands back the waker to call, if any.
    pub fn complete(&mut self) -> (w: Option<W>)
        ensures
            final(self).completed(),
            final(self).waker() is None,
            w == old(self).waker(),
    {
        self.completed = true;
        self.waker.take()
    }
}

} // verus!
