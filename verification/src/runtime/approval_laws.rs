//! What the decision rows of an approval make of it, stated over the rows.
use vstd::prelude::*;

use crate::integrations::lark::identity::spec_prefixed_id;
use crate::runtime::approval::spec_approvers;
use crate::runtime::approval::spec_derived;
use crate::runtime::approval::spec_first_fault;
use crate::runtime::approval::ApprovalOutcome;
use crate::runtime::approval::WorkflowApprovalDecisionRecord;
use crate::runtime::approval::WorkflowApprovalError;

verus! {

/// A well-formed row: an open-id sender and one of the three decisions.
pub open spec fn spec_valid_row(r: WorkflowApprovalDecisionRecord) -> bool {
    &&& spec_prefixed_id(r.sender_id@, "ou_"@)
    &&& (r.decision@ == "approve"@ || r.decision@ == "changes_requested"@ || r.decision@ == "revoke"@)
}

/// Some row carries the decision `name`.
pub open spec fn spec_has_row(records: Seq<WorkflowApprovalDecisionRecord>, name: Seq<char>) -> bool {
    exists|i: int| 0 <= i < records.len() && (#[trigger] records[i]).decision@ == name
}

proof fn lemma_valid_rows(records: Seq<WorkflowApprovalDecisionRecord>)
    requires
        forall|i: int| 0 <= i < records.len() ==> spec_valid_row(#[trigger] records[i]),
    ensures
        spec_first_fault(records) is None,
    decreases records.len(),
{
    reveal_strlit("approve");
    reveal_strlit("changes_requested");
    reveal_strlit("revoke");
    if records.len() > 0 {
        let rest = records.drop_first();
        assert forall|i: int| 0 <= i < rest.len() implies spec_valid_row(#[trigger] rest[i]) by {
            assert(rest[i] == records[i + 1]);
        }
        assert(spec_valid_row(records[0]));
        lemma_valid_rows(rest);
    }
}

/// The number of approving rows.
pub open spec fn spec_approve_rows(records: Seq<WorkflowApprovalDecisionRecord>) -> nat
    decreases records.len(),
{
    if records.len() == 0 {
        0
    } else {
        spec_approve_rows(records.drop_last()) + if records.last().decision@ == "approve"@ {
            1nat
        } else {
            0nat
        }
    }
}

proof fn lemma_approvers(records: Seq<WorkflowApprovalDecisionRecord>)
    ensures
        spec_approvers(records).len() <= spec_approve_rows(records) <= records.len(),
        spec_has_row(records, "approve"@) ==> spec_approvers(records).len() >= 1,
    decreases records.len(),
{
    if records.len() > 0 {
        let d = records.drop_last();
        lemma_approvers(d);
        let a = spec_approvers(d);
        if records.last().decision@ == "approve"@ {
            if a.contains(records.last().sender_id@) {
                assert(a.len() >= 1);
            }
        } else if spec_has_row(records, "approve"@) {
            let i = choose|i: int| 0 <= i < records.len() && (#[trigger] records[i]).decision@ == "approve"@;
            assert(i < records.len() - 1);
            assert(d[i] == records[i]);
            assert(spec_has_row(d, "approve"@));
        }
    }
}

/// The outcome that well-formed decision rows make of an approval: a
/// revocation ends it as revoked; else a change request ends it as changes
/// requested, whatever the quorum and the deadline; with neither, one
/// approval meets a quorum of one, and with fewer approving rows than the
/// quorum it times out after the deadline and keeps waiting before it.
pub proof fn law_decisions_decide_approval(
    approval_id: Seq<char>,
    quorum: u32,
    deadline_ms: i64,
    now_ms: i64,
    decisions: Seq<WorkflowApprovalDecisionRecord>,
    r: Result<Option<ApprovalOutcome>, WorkflowApprovalError>,
)
    requires
        forall|i: int| 0 <= i < decisions.len() ==> spec_valid_row(#[trigger] decisions[i]),
        spec_derived(approval_id, quorum, deadline_ms, now_ms, decisions, r),
    ensures
        spec_has_row(decisions, "revoke"@) ==> (r matches Ok(Some(ApprovalOutcome::Revoked { approval_id: id, decisions: ev }))
            && id@ == approval_id && ev@.len() == decisions.len()),
        !spec_has_row(decisions, "revoke"@) && spec_has_row(decisions, "changes_requested"@) ==> (r matches Ok(
            Some(ApprovalOutcome::ChangesRequested { approval_id: id, decisions: ev }),
        ) && id@ == approval_id && ev@.len() == decisions.len()),
        !spec_has_row(decisions, "revoke"@) && !spec_has_row(decisions, "changes_requested"@) && spec_has_row(
            decisions,
            "approve"@,
        ) && quorum <= 1 ==> (r matches Ok(Some(ApprovalOutcome::Approved { approval_id: id, decisions: ev }))
            && id@ == approval_id && ev@.len() == decisions.len()),
        !spec_has_row(decisions, "revoke"@) && !spec_has_row(decisions, "changes_requested"@)
            && spec_approve_rows(decisions) < quorum && now_ms > deadline_ms ==> (r matches Ok(Some(ApprovalOutcome::TimedOut { approval_id: id }))
            && id@ == approval_id),
        !spec_has_row(decisions, "revoke"@) && !spec_has_row(decisions, "changes_requested"@)
            && spec_approve_rows(decisions) < quorum && now_ms <= deadline_ms ==> r == Ok::<Option<ApprovalOutcome>, WorkflowApprovalError>(None),
{
    lemma_valid_rows(decisions);
    lemma_approvers(decisions);
}

} // verus!
