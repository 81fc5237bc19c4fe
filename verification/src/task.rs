//! Task numbers, and what a failed task leaves behind.

use vstd::prelude::*;
use crate::error::CallableError;

verus! {

/// The source of task numbers: a counter that starts at zero and goes up by
/// one with each number it hands out. It is never reset.
#[derive(Debug)]
pub struct TaskIdGenerator {
    next: usize,
}

impl TaskIdGenerator {
    /// The number that the generator hands out next.
    pub closed spec fn upcoming(&self) -> usize {
        self.next
    }

    /// The generator after it has handed out one number. After `usize::MAX`
    /// it starts again at zero.
    pub closed spec fn advanced(&self) -> Self {
        TaskIdGenerator {
            next: if self.next < usize::MAX {
                (self.next + 1) as usize
            } else {
                0
            },
        }
    }

    /// The number that the generator hands out after `count` others.
    pub open spec fn issued(&self, count: nat) -> usize
        decreases count,
    {
        if count == 0 {
            self.upcoming()
        } else {
            self.advanced().issued((count - 1) as nat)
        }
    }

    /// A generator whose first number is zero.
    pub fn new() -> (generator: Self)
        ensures
            generator.upcoming() == 0,
    {
        TaskIdGenerator { next: 0 }
    }

    /// The generator hands out consecutive numbers for as long as they fit:
    /// the number after `count` others is the first one plus `count`.
    pub proof fn lemma_issued_counts_up(&self, count: nat)
        requires
            self.upcoming() + count <= usize::MAX,
        ensures
            self.issued(count) == self.upcoming() + count,
        decreases count,
    {
        if count > 0 {
            self.advanced().lemma_issued_counts_up((count - 1) as nat);
        }
    }

    /// Task numbers are unique and strictly increasing: of two numbers that
    /// one generator hands out, the later is the larger, for as long as the
    /// numbers fit in a `usize`.
    pub proof fn lemma_task_ids_increase(&self, earlier: nat, later: nat)
        requires
            earlier < later,
            self.upcoming() + later <= usize::MAX,
        ensures
            self.issued(earlier) < self.issued(later),
    {
        self.lemma_issued_counts_up(earlier);
        self.lemma_issued_counts_up(later);
    }
}

/// Hands out the next task number.
pub fn generate_task_id(generator: &mut TaskIdGenerator) -> (task_id: usize)
    ensures
        task_id == old(generator).upcoming(),
        task_id == old(generator).issued(0),
        *final(generator) == old(generator).advanced(),
        old(generator).upcoming() < usize::MAX ==> final(generator).upcoming() == task_id + 1,
{
    let task_id = generator.next;
    generator.next = if task_id < usize::MAX {
        task_id + 1
    } else {
        0
    };
    task_id
}

/// The failure of one task of a job: where the task stood in the queue, and
/// why its run did not go through.
#[derive(Debug, Clone, Copy, PartialEq, Eq, Structural)]
pub struct RunError {
    pub position: usize,
    pub error: CallableError,
}

} // verus!
