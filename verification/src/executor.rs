//! The round executor's coordination protocol: nine controller tasks per
//! round, each claimed and run by exactly one worker, with a barrier when
//! all are finished. The thread pool and condition variable live outside;
//! this module holds the shared status table's transitions and the proof
//! that a completed round ran every controller exactly once.

use vstd::prelude::*;

verus! {

/// Number of controllers dispatched each round.
pub open spec fn spec_controller_count() -> int {
    9
}

/// A controller task's state within the current round.
#[derive(Clone, Copy, PartialEq, Eq, Structural, Debug)]
pub enum TaskStatus {
    Finished,
    Pending,
    Running,
}

/// The shared coordination state a worker pool operates on.
pub struct ThreadStatus {
    pub exited: bool,
    pub task_status: Vec<TaskStatus>,
    pub errors: Vec<String>,
}

impl ThreadStatus {
    pub open spec fn wf(&self) -> bool {
        self.task_status.len() == spec_controller_count()
    }

    pub open spec fn spec_all_finished(&self) -> bool {
        forall|i: int|
            0 <= i < spec_controller_count() ==> self.task_status[i] == TaskStatus::Finished
    }

    pub fn new() -> (r: ThreadStatus)
        ensures
            r.wf(),
            !r.exited,
            r.spec_all_finished(),
            r.errors@.len() == 0,
    {
        let mut task_status: Vec<TaskStatus> = Vec::new();
        let mut i: usize = 0;
        while i < 9
            invariant
                i <= 9,
                task_status.len() == i,
                forall|j: int| 0 <= j < i ==> task_status[j] == TaskStatus::Finished,
            decreases 9 - i,
        {
            task_status.push(TaskStatus::Finished);
            i += 1;
        }
        ThreadStatus { exited: false, task_status, errors: Vec::new() }
    }

    /// The main thread opens a round: every task becomes pending. The
    /// previous round must have completed.
    pub fn begin_round(&mut self)
        requires
            old(self).wf(),
            old(self).spec_all_finished(),
        ensures
            final(self).wf(),
            final(self).exited == old(self).exited,
            final(self).errors == old(self).errors,
            forall|i: int|
                0 <= i < spec_controller_count() ==> final(self).task_status[i]
                    == TaskStatus::Pending,
    {
        let mut i: usize = 0;
        while i < 9
            invariant
                i <= 9,
                self.wf(),
                self.exited == old(self).exited,
                self.errors == old(self).errors,
                forall|j: int| 0 <= j < i ==> self.task_status[j] == TaskStatus::Pending,
            decreases 9 - i,
        {
            self.task_status.set(i, TaskStatus::Pending);
            i += 1;
        }
    }

    /// A worker tries to claim a task: only a pending task can be claimed,
    /// and claiming moves it to running so no other worker can claim it
    /// again.
    pub fn try_claim(&mut self, controller_index: usize) -> (claimed: bool)
        requires
            old(self).wf(),
            controller_index < spec_controller_count(),
        ensures
            final(self).wf(),
            final(self).exited == old(self).exited,
            final(self).errors == old(self).errors,
            claimed == (old(self).task_status[controller_index as int] == TaskStatus::Pending),
            claimed ==> final(self).task_status@ == old(self).task_status@.update(
                controller_index as int,
                TaskStatus::Running,
            ),
            !claimed ==> *final(self) == *old(self),
    {
        if matches!(self.task_status[controller_index], TaskStatus::Pending) {
            self.task_status.set(controller_index, TaskStatus::Running);
            true
        } else {
            false
        }
    }

    /// The worker that claimed a task reports it finished, appending the
    /// controller's error if its run produced one.
    pub fn finish_task(&mut self, controller_index: usize, error: Option<String>)
        requires
            old(self).wf(),
            controller_index < spec_controller_count(),
            old(self).task_status[controller_index as int] == TaskStatus::Running,
        ensures
            final(self).wf(),
            final(self).exited == old(self).exited,
            final(self).task_status@ == old(self).task_status@.update(
                controller_index as int,
                TaskStatus::Finished,
            ),
            error is Some ==> final(self).errors@ == old(self).errors@.push(error->0),
            error is None ==> final(self).errors == old(self).errors,
    {
        self.task_status.set(controller_index, TaskStatus::Finished);
        match error {
            Some(e) => {
                self.errors.push(e);
            },
            None => {},
        }
    }

    /// The barrier test the main thread waits on.
    pub fn all_finished(&self) -> (r: bool)
        requires
            self.wf(),
        ensures
            r == self.spec_all_finished(),
    {
        let mut i: usize = 0;
        while i < 9
            invariant
                i <= 9,
                self.wf(),
                forall|j: int| 0 <= j < i ==> self.task_status[j] == TaskStatus::Finished,
            decreases 9 - i,
        {
            if !matches!(self.task_status[i], TaskStatus::Finished) {
                return false;
            }
            i += 1;
        }
        true
    }

    /// The main thread tells the workers to exit.
    pub fn request_exit(&mut self)
        ensures
            final(self).exited,
            final(self).task_status == old(self).task_status,
            final(self).errors == old(self).errors,
    {
        self.exited = true;
    }
}

/// One coordination event of a round, as `try_claim` and `finish_task`
/// perform them.
pub enum RoundEvent {
    Claim(usize),
    Finish(usize),
}

/// The status-table transition an event takes, or nothing if the event is
/// not enabled: a claim needs a pending task, a finish a running one.
pub open spec fn spec_apply_event(statuses: Seq<TaskStatus>, event: RoundEvent) -> Option<
    Seq<TaskStatus>,
> {
    match event {
        RoundEvent::Claim(i) => {
            if 0 <= i < statuses.len() && statuses[i as int] == TaskStatus::Pending {
                Some(statuses.update(i as int, TaskStatus::Running))
            } else {
                None
            }
        },
        RoundEvent::Finish(i) => {
            if 0 <= i < statuses.len() && statuses[i as int] == TaskStatus::Running {
                Some(statuses.update(i as int, TaskStatus::Finished))
            } else {
                None
            }
        },
    }
}

/// Runs a whole trace of events, failing if any event is not enabled.
pub open spec fn spec_run_trace(statuses: Seq<TaskStatus>, trace: Seq<RoundEvent>) -> Option<
    Seq<TaskStatus>,
>
    decreases trace.len(),
{
    if trace.len() == 0 {
        Some(statuses)
    } else {
        match spec_apply_event(statuses, trace[0]) {
            Some(next) => spec_run_trace(next, trace.drop_first()),
            None => None,
        }
    }
}

/// How many claims of controller `i` a trace holds.
pub open spec fn spec_count_claims(trace: Seq<RoundEvent>, i: int) -> int
    decreases trace.len(),
{
    if trace.len() == 0 {
        0
    } else {
        (match trace[0] {
            RoundEvent::Claim(j) => if j == i {
                1int
            } else {
                0int
            },
            RoundEvent::Finish(_) => 0int,
        }) + spec_count_claims(trace.drop_first(), i)
    }
}

/// One when a task has been claimed this round (running or finished),
/// zero while it is still pending.
pub open spec fn spec_claim_progress(status: TaskStatus) -> int {
    match status {
        TaskStatus::Pending => 0,
        TaskStatus::Running => 1,
        TaskStatus::Finished => 1,
    }
}

/// Each valid trace claims a controller exactly as often as the
/// controller's status advanced past pending.
proof fn lemma_trace_claim_accounting(
    statuses: Seq<TaskStatus>,
    trace: Seq<RoundEvent>,
    ending: Seq<TaskStatus>,
    i: int,
)
    requires
        0 <= i < statuses.len(),
        spec_run_trace(statuses, trace) == Some(ending),
    ensures
        ending.len() == statuses.len(),
        spec_count_claims(trace, i) == spec_claim_progress(ending[i]) - spec_claim_progress(
            statuses[i],
        ),
    decreases trace.len(),
{
    if trace.len() == 0 {
        assert(ending == statuses);
    } else {
        let next = spec_apply_event(statuses, trace[0]);
        match next {
            Some(mid) => {
                lemma_trace_claim_accounting(mid, trace.drop_first(), ending, i);
            },
            None => {},
        }
    }
}

/// Round barrier accounting: when a round that starts with every task
/// pending runs any valid interleaving of worker claims and finishes that
/// ends with every task finished, every controller was claimed — and so
/// run — exactly once, whatever the number of workers.
pub proof fn lemma_round_runs_each_controller_once(
    start: Seq<TaskStatus>,
    trace: Seq<RoundEvent>,
    ending: Seq<TaskStatus>,
    i: int,
)
    requires
        start.len() == spec_controller_count(),
        0 <= i < spec_controller_count(),
        forall|j: int| 0 <= j < start.len() ==> start[j] == TaskStatus::Pending,
        spec_run_trace(start, trace) == Some(ending),
        forall|j: int| 0 <= j < ending.len() ==> ending[j] == TaskStatus::Finished,
    ensures
        spec_count_claims(trace, i) == 1,
{
    lemma_trace_claim_accounting(start, trace, ending, i);
}

} // verus!
