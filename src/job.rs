//! The decisions of a worker running one repository's steps: the worker
//! performs each step and hands back what happened; the job state says
//! whether to go on and what to report when the job ends.

use vstd::prelude::*;
use crate::operations::{
    error_message, failed_report, failed_report_of, failure_report, judge, judged_status,
    success_report, success_report_of, Operation, Step, StepView, Verdict,
};
use crate::progress::RepoStatus;

verus! {

/// What happened when a worker performed a step.
pub enum StepOutcome {
    /// A report was posted or a directory was made.
    Completed,
    /// Git ran: what it printed, and whether it exited successfully.
    Ran(String, bool),
    /// The step could not be performed, for this reason.
    Broke(String),
}

/// How far a worker has come through a job's steps.
pub struct JobState {
    /// The index of the next step to perform.
    pub pos: usize,
    /// Whether the job has ended.
    pub done: bool,
}

/// Whether step `pos` of `steps` is a run of git that is judged.
pub open spec fn is_decisive(steps: Seq<Step>, pos: int) -> bool {
    0 <= pos < steps.len() && steps[pos]@ matches StepView::Git(_, _, true)
}

/// Whether `outcome` of step `pos` is a judged run of git that failed.
pub open spec fn judged_failed(
    steps: Seq<Step>,
    pos: int,
    verdict: Verdict,
    outcome: StepOutcome,
) -> bool {
    outcome is Ran && is_decisive(steps, pos) && judged_status(
        verdict,
        outcome->Ran_0@,
        outcome->Ran_1,
    ) == RepoStatus::Failed
}

impl JobState {
    /// The state before the first step.
    pub fn start() -> (r: JobState)
        ensures
            r.pos == 0,
            !r.done,
    {
        JobState { pos: 0, done: false }
    }

    /// Takes in what happened at step `pos`. A step that could not be
    /// performed ends the job as failed with its reason, and so does a
    /// judged run of git that `verdict` finds failed: the steps after it are
    /// skipped. Otherwise the job moves on, and after its last step ends as
    /// a success. Returns the report to post when the job ends.
    pub fn advance(
        &mut self,
        steps: &Vec<Step>,
        op: Operation,
        verdict: Verdict,
        outcome: StepOutcome,
    ) -> (post: Option<Step>)
        requires
            !old(self).done,
            old(self).pos < steps@.len(),
        ensures
            outcome matches StepOutcome::Broke(reason) ==> {
                &&& final(self).done
                &&& final(self).pos == old(self).pos
                &&& post matches Some(p) && p@ == StepView::Report(
                    RepoStatus::Failed,
                    error_message(reason@),
                    100,
                )
            },
            judged_failed(steps@, old(self).pos as int, verdict, outcome) ==> {
                &&& final(self).done
                &&& final(self).pos == old(self).pos
                &&& post matches Some(p) && p@ == failed_report_of()
            },
            !(outcome is Broke) && !judged_failed(steps@, old(self).pos as int, verdict, outcome)
                ==> {
                &&& final(self).pos == old(self).pos + 1
                &&& final(self).done == (final(self).pos == steps@.len())
                &&& final(self).done ==> (post matches Some(p) && p@ == success_report_of(op))
                &&& !final(self).done ==> post is None
            },
    {
        match outcome {
            StepOutcome::Broke(reason) => {
                self.done = true;
                Some(failure_report(reason.as_str()))
            },
            StepOutcome::Completed => self.step_on(steps, op),
            StepOutcome::Ran(text, exit_ok) => {
                let decisive = match &steps[self.pos] {
                    Step::Git(g) => g.decisive,
                    _ => false,
                };
                if decisive && judge(verdict, text.as_str(), exit_ok) == RepoStatus::Failed {
                    self.done = true;
                    Some(failed_report())
                } else {
                    self.step_on(steps, op)
                }
            },
        }
    }

    fn step_on(&mut self, steps: &Vec<Step>, op: Operation) -> (post: Option<Step>)
        requires
            old(self).pos < steps.len(),
        ensures
            final(self).pos == old(self).pos + 1,
            final(self).done == (final(self).pos == steps@.len()),
            final(self).done ==> (post matches Some(p) && p@ == success_report_of(op)),
            !final(self).done ==> post is None,
    {
        self.pos = self.pos + 1;
        if self.pos == steps.len() {
            self.done = true;
            Some(success_report(op))
        } else {
            self.done = false;
            None
        }
    }
}

} // verus!
