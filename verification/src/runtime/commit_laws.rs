//! What committing a reducer step records about the run.
use vstd::prelude::*;

use crate::runtime::driver::spec_commit;
use crate::runtime::driver::DriveOutcome;
use crate::runtime::driver::RunEvent;
use crate::runtime::driver::StepResult;
use crate::runtime::records::WorkflowRunStatus;

verus! {

/// The run has ended: it succeeded or failed.
pub open spec fn spec_run_ended(s: WorkflowRunStatus) -> bool {
    s == WorkflowRunStatus::Succeeded || s == WorkflowRunStatus::Failed
}

/// A committed step keeps the run's status, its event and the reported
/// outcome in agreement: running and continued, waiting and waiting,
/// succeeded and completed, failed and failed; only a run that goes on
/// stores the step's checkpoint. Different step results commit different
/// statuses: a step that continues keeps driving, one that waits stops the
/// drive without ending the run, and completing or failing ends it so.
pub proof fn law_commit_agrees_with_step(step: StepResult, other: StepResult)
    ensures
        ({
            let c = spec_commit(step);
            &&& (c.outcome == DriveOutcome::Continued <==> c.status == WorkflowRunStatus::Running)
            &&& (c.outcome == DriveOutcome::Waiting <==> c.status == WorkflowRunStatus::Waiting)
            &&& (c.outcome == DriveOutcome::Completed <==> c.status == WorkflowRunStatus::Succeeded)
            &&& (c.outcome == DriveOutcome::Failed <==> c.status == WorkflowRunStatus::Failed)
            &&& (c.event == RunEvent::Continued <==> c.status == WorkflowRunStatus::Running)
            &&& (c.event == RunEvent::Waiting <==> c.status == WorkflowRunStatus::Waiting)
            &&& (c.event == RunEvent::Succeeded <==> c.status == WorkflowRunStatus::Succeeded)
            &&& (c.event == RunEvent::Failed <==> c.status == WorkflowRunStatus::Failed)
            &&& (c.stores_checkpoint <==> !spec_run_ended(c.status))
            &&& (step == StepResult::Continue ==> c.outcome == DriveOutcome::Continued)
            &&& (step == StepResult::Wait ==> c.outcome != DriveOutcome::Continued && !spec_run_ended(c.status))
            &&& (step == StepResult::Complete ==> c.status == WorkflowRunStatus::Succeeded)
            &&& (step == StepResult::Failed ==> c.status == WorkflowRunStatus::Failed)
        }),
        step != other ==> spec_commit(step).status != spec_commit(other).status,
{
}

} // verus!
