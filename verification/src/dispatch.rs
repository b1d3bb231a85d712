//! The dispatcher's decisions: how many workers to run, which task each
//! record becomes, how per-task outcomes turn into reports, and the
//! completion barrier that gates deletion of the originals.
use vstd::prelude::*;

use crate::discovery::FileRecord;
use crate::task::ConversionTask;
use crate::task::ConvertError;
use crate::task::report_line;
use crate::task::report_line_text;
use crate::task::task_for;
use crate::task::task_for_record;

verus! {

/// The pool size for one run: a request of `0` takes all the available
/// parallelism, any other request is honoured up to that parallelism.
pub open spec fn effective_worker_count(requested: int, available: int) -> int {
    if requested < 1 {
        available
    } else if requested < available {
        requested
    } else {
        available
    }
}

/// Worker cap monotonicity: for a request at or above the available
/// parallelism the pool size is the parallelism; for a positive request
/// below it, the request itself; for no preference, the parallelism again.
/// The pool is never empty and never oversubscribes the host.
pub proof fn lemma_worker_cap(requested: int, available: int)
    requires
        available >= 1,
    ensures
        requested >= available ==> effective_worker_count(requested, available) == available,
        1 <= requested < available ==> effective_worker_count(requested, available) == requested,
        requested == 0 ==> effective_worker_count(requested, available) == available,
        1 <= effective_worker_count(requested, available) <= available,
{
}

/// Resolves the worker count for one run.
///
/// `requested` is the count asked for on the command line, where `0` means
/// "no preference"; `available` is the host's available parallelism (the
/// caller substitutes `1` when it cannot be determined). The pool never
/// oversubscribes the host and never has fewer than one worker.
pub fn effective_workers(requested: usize, available: usize) -> (n: usize)
    requires
        available >= 1,
    ensures
        n == effective_worker_count(requested as int, available as int),
        1 <= n <= available,
{
    if requested < 1 {
        available
    } else if requested < available {
        requested
    } else {
        available
    }
}

/// Plans the batch: one conversion task per discovered record, in the work
/// set's order, and nothing else. The work set is fixed before dispatch
/// begins, so the plan is the whole batch.
pub fn plan_tasks(records: &Vec<FileRecord>) -> (tasks: Vec<ConversionTask>)
    ensures
        tasks@.len() == records@.len(),
        forall|i: int| 0 <= i < tasks@.len() ==> task_for(#[trigger] tasks@[i], records@[i]),
{
    let mut tasks: Vec<ConversionTask> = Vec::new();
    let mut i: usize = 0;
    while i < records.len()
        invariant
            i <= records.len(),
            tasks@.len() == i,
            forall|j: int| 0 <= j < i as int ==> task_for(#[trigger] tasks@[j], records@[j]),
        decreases records.len() - i,
    {
        let t = task_for_record(&records[i]);
        tasks.push(t);
        i = i + 1;
    }
    tasks
}

/// How one task ended: converted, or failed in its decode or its encode
/// step with the codec's reason.
pub enum TaskOutcome {
    Converted,
    DecodeFailed(ConvertError),
    EncodeFailed(ConvertError),
}

/// The report a task emits for its outcome: nothing on success, one line
/// naming the offending path and the failure otherwise. A decode failure is
/// charged to the source path, an encode failure to the output path.
pub open spec fn report_of(task: ConversionTask, outcome: TaskOutcome) -> Option<Seq<char>> {
    match outcome {
        TaskOutcome::Converted => None,
        TaskOutcome::DecodeFailed(e) => Some(report_line_text(task.source@, e)),
        TaskOutcome::EncodeFailed(e) => Some(report_line_text(task.output@, e)),
    }
}

/// The view of an optional report line.
pub open spec fn opt_view(r: Option<String>) -> Option<Seq<char>> {
    match r {
        Some(s) => Some(s@),
        None => None,
    }
}

/// Renders the report for one finished task.
pub fn task_report(task: &ConversionTask, outcome: &TaskOutcome) -> (r: Option<String>)
    ensures
        opt_view(r) == report_of(*task, *outcome),
{
    match outcome {
        TaskOutcome::Converted => None,
        TaskOutcome::DecodeFailed(e) => Some(report_line(task.source.as_str(), e)),
        TaskOutcome::EncodeFailed(e) => Some(report_line(task.output.as_str(), e)),
    }
}

/// The reports of a whole batch, one entry per task, in the batch's order.
pub open spec fn batch_report_seq(tasks: Seq<ConversionTask>, outcomes: Seq<TaskOutcome>) -> Seq<
    Option<Seq<char>>,
> {
    Seq::new(tasks.len(), |i: int| report_of(tasks[i], outcomes[i]))
}

/// Renders every task's report. Each entry is determined by that task and
/// its own outcome alone, so no failure affects a sibling's entry.
pub fn batch_reports(tasks: &Vec<ConversionTask>, outcomes: &Vec<TaskOutcome>) -> (rs: Vec<
    Option<String>,
>)
    requires
        tasks@.len() == outcomes@.len(),
    ensures
        rs@.len() == tasks@.len(),
        forall|i: int|
            0 <= i < rs@.len() ==> opt_view(#[trigger] rs@[i]) == batch_report_seq(
                tasks@,
                outcomes@,
            )[i],
{
    let mut rs: Vec<Option<String>> = Vec::new();
    let mut i: usize = 0;
    while i < tasks.len()
        invariant
            i <= tasks.len(),
            tasks@.len() == outcomes@.len(),
            rs@.len() == i,
            forall|j: int|
                0 <= j < i as int ==> opt_view(#[trigger] rs@[j]) == report_of(
                    tasks@[j],
                    outcomes@[j],
                ),
        decreases tasks.len() - i,
    {
        let r = task_report(&tasks[i], &outcomes[i]);
        rs.push(r);
        i = i + 1;
    }
    rs
}

/// Failure isolation: one task's report is a function of that task and its
/// own outcome alone. Two batches over the same plan whose outcomes agree at
/// a position agree on that position's report, however every other task
/// fared — a corrupt file changes nothing for its siblings.
pub proof fn lemma_failure_isolation(
    tasks: Seq<ConversionTask>,
    outcomes_a: Seq<TaskOutcome>,
    outcomes_b: Seq<TaskOutcome>,
    i: int,
)
    requires
        0 <= i < tasks.len(),
        outcomes_a.len() == tasks.len(),
        outcomes_b.len() == tasks.len(),
        outcomes_a[i] == outcomes_b[i],
    ensures
        batch_report_seq(tasks, outcomes_a)[i] == batch_report_seq(tasks, outcomes_b)[i],
        batch_report_seq(tasks, outcomes_a)[i] is None <==> outcomes_a[i] is Converted,
{
}

/// The progress of one dispatched batch towards its completion barrier:
/// how many of its fixed set of tasks have finished, successfully or with
/// an isolated failure.
pub struct BatchRun {
    total: usize,
    finished: usize,
}

impl BatchRun {
    /// The number of tasks the batch was dispatched with.
    pub closed spec fn total_spec(&self) -> int {
        self.total as int
    }

    /// The number of tasks that have finished so far.
    pub closed spec fn finished_spec(&self) -> int {
        self.finished as int
    }

    /// Finished tasks never outnumber the batch.
    pub open spec fn wf(&self) -> bool {
        0 <= self.finished_spec() <= self.total_spec()
    }

    /// The completion barrier: every task of the batch has finished.
    pub open spec fn complete(&self) -> bool {
        self.finished_spec() == self.total_spec()
    }

    /// Starts the barrier for a batch of `total` tasks, none finished yet.
    pub fn start(total: usize) -> (b: BatchRun)
        ensures
            b.wf(),
            b.total_spec() == total,
            b.finished_spec() == 0,
    {
        BatchRun { total, finished: 0 }
    }

    /// Records that one more task has finished running.
    pub fn task_finished(&mut self)
        requires
            old(self).wf(),
            !old(self).complete(),
        ensures
            final(self).wf(),
            final(self).total_spec() == old(self).total_spec(),
            final(self).finished_spec() == old(self).finished_spec() + 1,
    {
        self.finished = self.finished + 1;
    }

    /// Whether the whole batch has finished.
    pub fn all_finished(&self) -> (r: bool)
        ensures
            r == self.complete(),
    {
        self.finished == self.total
    }

    /// The paths the optional cleanup step removes: every source path of the
    /// work set, whether or not its own conversion succeeded. Only a batch
    /// that has passed the completion barrier yields them.
    pub fn deletion_targets(&self, records: &Vec<FileRecord>) -> (ps: Vec<String>)
        requires
            self.wf(),
            self.complete(),
            records@.len() == self.total_spec(),
        ensures
            ps@.len() == records@.len(),
            forall|i: int| 0 <= i < ps@.len() ==> (#[trigger] ps@[i])@ == records@[i].path@,
    {
        let mut ps: Vec<String> = Vec::new();
        let mut i: usize = 0;
        while i < records.len()
            invariant
                i <= records.len(),
                ps@.len() == i,
                forall|j: int| 0 <= j < i as int ==> (#[trigger] ps@[j])@ == records@[j].path@,
            decreases records.len() - i,
        {
            ps.push(records[i].path.clone());
            i = i + 1;
        }
        ps
    }
}

/// Barrier correctness: while any task is still running, the batch is not
/// complete, so the deletion step — whose precondition is completion — has
/// no targets to act on; no original can be removed before every conversion
/// has finished.
pub proof fn lemma_barrier(b: BatchRun)
    requires
        b.wf(),
    ensures
        !b.complete() ==> b.finished_spec() < b.total_spec(),
        b.complete() ==> b.finished_spec() == b.total_spec(),
{
}

} // verus!
