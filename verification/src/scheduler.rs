//! One-shot delayed task requests.
//!
//! Tasks that re-arm themselves (button polling, LED blinking) or fire once
//! later (the reset-pulse release) are modelled as explicit one-shot timer
//! requests, each carrying a task identifier and a fire time, dispatched by
//! a central timer loop. At most one request per task is ever pending:
//! scheduling a task whose prior instance is still pending is refused, and
//! the caller decides whether that refusal is harmless (a duplicate
//! reset-release) or fatal (the keep-alive poll).

use vstd::prelude::*;

verus! {

/// The fixed task set.
#[derive(Copy, Clone, PartialEq, Eq, Structural, Debug)]
pub enum TaskId {
    /// The periodic button poll.
    ButtonPoll,
    /// The LED blink task, armed while powered off.
    LedBlink,
    /// The delayed release of a reset pulse.
    ExitReset,
}

/// One pending request: run `task` once `fire_at` has passed.
#[derive(Copy, Clone, PartialEq, Eq, Structural, Debug)]
pub struct OneShot {
    /// Which task to run.
    pub task: TaskId,
    /// The time (in milliseconds) at which it becomes due.
    pub fire_at: u64,
}

/// The pending one-shot requests, in the order they were scheduled.
pub struct Scheduler {
    /// The pending requests; never two for the same task.
    pub pending: Vec<OneShot>,
}

impl Scheduler {
    /// No task has more than one pending request.
    pub open spec fn wf(self) -> bool {
        forall|i: int, j: int|
            0 <= i < j < self.pending@.len() ==> self.pending@[i].task != self.pending@[j].task
    }

    /// Whether a request for the given task is pending.
    pub open spec fn is_pending(self, task: TaskId) -> bool {
        exists|i: int| 0 <= i < self.pending@.len() && self.pending@[i].task == task
    }

    /// An empty timer: nothing pending.
    pub fn new() -> (s: Scheduler)
        ensures
            s.wf(),
            s.pending@ == Seq::<OneShot>::empty(),
    {
        Scheduler { pending: Vec::new() }
    }

    /// Request one run of `task` after `delay_ms`. Refused — leaving the
    /// pending set unchanged — exactly when a prior request for the same
    /// task is still pending.
    pub fn schedule(&mut self, task: TaskId, now_ms: u64, delay_ms: u64) -> (accepted: bool)
        requires
            old(self).wf(),
            now_ms + delay_ms <= u64::MAX,
        ensures
            final(self).wf(),
            accepted == !old(self).is_pending(task),
            accepted ==> final(self).pending@ == old(self).pending@.push(
                OneShot { task, fire_at: (now_ms + delay_ms) as u64 },
            ),
            !accepted ==> final(self).pending@ == old(self).pending@,
    {
        let mut i: usize = 0;
        while i < self.pending.len()
            invariant
                i <= self.pending@.len(),
                self.pending@ == old(self).pending@,
                self.wf(),
                forall|j: int| 0 <= j < i ==> self.pending@[j].task != task,
            decreases self.pending@.len() - i,
        {
            if self.pending[i].task == task {
                return false;
            }
            i += 1;
        }
        self.pending.push(OneShot { task, fire_at: now_ms + delay_ms });
        true
    }

    /// Hand out the first pending request whose fire time has passed,
    /// removing it; `None` when nothing is due yet.
    pub fn pop_due(&mut self, now_ms: u64) -> (due: Option<TaskId>)
        requires
            old(self).wf(),
        ensures
            final(self).wf(),
            due is None ==> final(self).pending@ == old(self).pending@ && (forall|i: int|
                0 <= i < old(self).pending@.len() ==> old(self).pending@[i].fire_at > now_ms),
            due matches Some(task) ==> (exists|i: int|
                {
                    &&& 0 <= i < old(self).pending@.len()
                    &&& old(self).pending@[i].task == task
                    &&& old(self).pending@[i].fire_at <= now_ms
                    &&& (forall|j: int| 0 <= j < i ==> old(self).pending@[j].fire_at > now_ms)
                    &&& final(self).pending@ == old(self).pending@.remove(i)
                }),
    {
        let mut i: usize = 0;
        while i < self.pending.len()
            invariant
                i <= self.pending@.len(),
                self.pending@ == old(self).pending@,
                self.wf(),
                forall|j: int| 0 <= j < i ==> self.pending@[j].fire_at > now_ms,
            decreases self.pending@.len() - i,
        {
            if self.pending[i].fire_at <= now_ms {
                let task = self.pending[i].task;
                self.pending.remove(i);
                proof {
                    old(self).pending@.remove_ensures(i as int);
                    assert forall|a: int, b: int|
                        0 <= a < b < self.pending@.len() implies self.pending@[a].task
                        != self.pending@[b].task by {
                        if a < i {
                            assert(self.pending@[a] == old(self).pending@[a]);
                        } else {
                            assert(self.pending@[a] == old(self).pending@[a + 1]);
                        }
                        if b < i {
                            assert(self.pending@[b] == old(self).pending@[b]);
                        } else {
                            assert(self.pending@[b] == old(self).pending@[b + 1]);
                        }
                    }
                }
                return Some(task);
            }
            i += 1;
        }
        None
    }

    /// How many requests are pending.
    pub fn pending_count(&self) -> (n: usize)
        ensures
            n == self.pending@.len(),
    {
        self.pending.len()
    }
}

/// Exactly-once pending law: under the scheduler's invariant a task never
/// has two pending requests, so a request accepted for a task — such as the
/// release of a reset pulse — is the only one pending for it, and a
/// duplicate request is refused without changing the pending set.
pub proof fn lemma_pending_at_most_once(s: Scheduler, task: TaskId, i: int, j: int)
    requires
        s.wf(),
        0 <= i < s.pending@.len(),
        0 <= j < s.pending@.len(),
        s.pending@[i].task == task,
        s.pending@[j].task == task,
    ensures
        i == j,
{
}

} // verus!
