//! A batch of runnable entities, run in the order in which they were queued.

use vstd::prelude::*;
use std::collections::VecDeque;
use crate::error::CallableError;
use crate::task::RunError;
use crate::Run;

verus! {

/// What a job does when one of its tasks fails.
#[derive(Debug, Clone, Copy, PartialEq, Eq, Structural)]
pub enum DrainPolicy {
    /// The job stops after the task that failed and leaves the tasks behind
    /// it in the queue.
    StopOnFirstError,
    /// The job runs every task and collects the failures.
    ContinueCollectingErrors,
}

/// A queue of tasks that can be run; as `Job`, of tasks of any kind. Tasks
/// leave the queue at the head, in the order in which they entered it at the
/// tail.
pub struct Job<T: Run + ?Sized = dyn Run> {
    tasks: VecDeque<Box<T>>,
}

impl<T: Run + ?Sized> View for Job<T> {
    type V = Seq<Box<T>>;

    closed spec fn view(&self) -> Seq<Box<T>> {
        self.tasks@
    }
}

/// The verdict that a list of failures holds for the task at a position:
/// the error recorded for that position, and `Ok` where none is recorded.
pub open spec fn verdict_at(errors: Seq<RunError>, position: int) -> Result<(), CallableError>
    decreases errors.len(),
{
    if errors.len() == 0 {
        Ok(())
    } else if errors.last().position == position {
        Err(errors.last().error)
    } else {
        verdict_at(errors.drop_last(), position)
    }
}

/// The failures are listed in the order of the tasks, and each of them
/// belongs to one of the first `count` tasks.
pub open spec fn in_order(errors: Seq<RunError>, count: int) -> bool {
    &&& forall|k: int| 0 <= k < errors.len() ==> 0 <= (#[trigger] errors[k]).position < count
    &&& forall|j: int, k: int|
        0 <= j < k < errors.len() ==> (#[trigger] errors[j]).position < (
        #[trigger] errors[k]).position
}

/// The number of tasks that a drain has run: under `StopOnFirstError` those
/// up to the one that failed, else all of them.
pub open spec fn executed(queued: int, policy: DrainPolicy, errors: Seq<RunError>) -> int {
    if policy == DrainPolicy::StopOnFirstError && errors.len() > 0 {
        errors[0].position + 1
    } else {
        queued
    }
}

/// No failure is recorded for a position that lies behind all failures.
pub proof fn lemma_no_error_beyond(errors: Seq<RunError>, count: int, position: int)
    requires
        in_order(errors, count),
        count <= position,
    ensures
        verdict_at(errors, position) == Ok::<(), CallableError>(()),
    decreases errors.len(),
{
    if errors.len() > 0 {
        assert(errors[errors.len() - 1].position < count);
        assert forall|k: int| 0 <= k < errors.drop_last().len() implies 0 <= (
        #[trigger] errors.drop_last()[k]).position < count by {
            assert(errors.drop_last()[k] == errors[k]);
        }
        assert forall|j: int, k: int| 0 <= j < k < errors.drop_last().len() implies (
        #[trigger] errors.drop_last()[j]).position < (#[trigger] errors.drop_last()[k]).position by {
            assert(errors.drop_last()[j] == errors[j]);
            assert(errors.drop_last()[k] == errors[k]);
        }
        lemma_no_error_beyond(errors.drop_last(), count, position);
    }
}

impl<T: Run + ?Sized> Job<T> {
    /// A job without tasks.
    pub fn new() -> (job: Self)
        ensures
            job@ == Seq::<Box<T>>::empty(),
            job@.len() == 0,
    {
        Job { tasks: VecDeque::new() }
    }

    /// A job with the given tasks, the first of them at the head.
    pub fn with_tasks(tasks: Vec<Box<T>>) -> (job: Self)
        ensures
            job@ == tasks@,
            job@.len() == tasks@.len(),
    {
        let mut tasks = tasks;
        let ghost all = tasks@;
        let mut queue: VecDeque<Box<T>> = VecDeque::new();
        while tasks.len() > 0
            invariant
                tasks@ + queue@ == all,
            decreases tasks.len(),
        {
            let ghost before = tasks@;
            let ghost behind = queue@;
            let task = tasks.pop();
            match task {
                Some(task) => {
                    let ghost last = task;
                    queue.push_front(task);
                    proof {
                        assert(before == tasks@.push(last));
                        assert(tasks@ + queue@ == before + behind);
                    }
                },
                None => {},
            }
        }
        proof {
            assert(tasks@ + queue@ == queue@);
        }
        Job { tasks: queue }
    }

    /// The number of tasks in the queue.
    pub fn len(&self) -> (len: usize)
        ensures
            len == self@.len(),
    {
        self.tasks.len()
    }

    /// Appends a task to the tail of the queue.
    pub fn enqueue(&mut self, runnable: Box<T>)
        ensures
            final(self)@ == old(self)@.push(runnable),
            final(self)@.len() == old(self)@.len() + 1,
    {
        self.tasks.push_back(runnable);
    }

    /// Runs the tasks from the head of the queue to its tail and returns
    /// the failures, each with the position of its task.
    ///
    /// Under `StopOnFirstError` the job stops after the first task that
    /// fails; the tasks behind it stay in the queue. Under
    /// `ContinueCollectingErrors` every task is run.
    pub fn drain(&mut self, policy: DrainPolicy) -> (errors: Vec<RunError>)
        ensures
            0 <= executed(old(self)@.len() as int, policy, errors@) <= old(self)@.len(),
            final(self)@ == old(self)@.skip(executed(old(self)@.len() as int, policy, errors@)),
            final(self)@.len() == old(self)@.len() - executed(
                old(self)@.len() as int,
                policy,
                errors@,
            ),
            in_order(errors@, executed(old(self)@.len() as int, policy, errors@)),
            forall|i: int|
                0 <= i < executed(old(self)@.len() as int, policy, errors@) ==> (
                #[trigger] old(self)@[i]).yields(verdict_at(errors@, i)),
            policy == DrainPolicy::StopOnFirstError ==> errors@.len() <= 1,
    {
        let ghost queued = self@;
        let mut errors: Vec<RunError> = Vec::new();
        let total = self.tasks.len();
        let mut position: usize = 0;
        let mut stopped = false;
        while !stopped && self.tasks.len() > 0
            invariant
                queued == old(self)@,
                queued.len() == total,
                position <= total,
                self.tasks@ == queued.skip(position as int),
                in_order(errors@, position as int),
                forall|i: int|
                    0 <= i < position ==> (#[trigger] queued[i]).yields(verdict_at(errors@, i)),
                stopped ==> policy == DrainPolicy::StopOnFirstError && errors@.len() == 1
                    && errors@[0].position + 1 == position,
                !stopped && policy == DrainPolicy::StopOnFirstError ==> errors@.len() == 0,
            decreases queued.len() - position,
        {
            let ghost before = errors@;
            match self.tasks.pop_front() {
                Some(task) => {
                    let mut task = task;
                    proof {
                        assert(task == queued.skip(position as int)[0]);
                        assert(self.tasks@ == queued.skip(position + 1));
                        lemma_no_error_beyond(before, position as int, position as int);
                    }
                    let verdict = task.run();
                    match verdict {
                        Ok(done) => {
                            proof {
                                assert(done == ());
                            }
                        },
                        Err(error) => {
                            errors.push(RunError { position, error });
                            proof {
                                assert(errors@.drop_last() == before);
                                assert forall|i: int| 0 <= i < position implies verdict_at(
                                    errors@,
                                    i,
                                ) == verdict_at(before, i) by {}
                            }
                            if let DrainPolicy::StopOnFirstError = policy {
                                stopped = true;
                            }
                        },
                    }
                    position = position + 1;
                },
                None => {},
            }
        }
        errors
    }
}

} // verus!
