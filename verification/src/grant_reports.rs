use crate::access::outcome;
use crate::ai_analysis::AccountData;
use crate::error::IndrasError;
use crate::grant::{Grant, GrantDisbursementType, GrantStatus};
use crate::keys::{key_eq, Key};
use crate::mesh_group::MeshGroup;
use crate::text::{byte_len, is_empty_text, utf8_len};
use vstd::prelude::*;

verus! {

/// The review state of a grant report.
#[derive(Clone, Copy, Debug, PartialEq, Eq, Structural)]
pub enum GrantReportStatus {
    Draft,
    Submitted,
    Approved,
    Rejected,
}

/// A final report on the use of a grant.
#[derive(Debug)]
pub struct GrantReport {
    pub grant_id: u64,
    pub mesh_group: Key,
    pub status: GrantReportStatus,
    pub report_content: String,
    pub attachments_hash: Option<String>,
    pub submitted_at: Option<i64>,
    pub approved_at: Option<i64>,
    pub approved_by: Option<Key>,
    pub rejection_reason: Option<String>,
    pub bump: u8,
}

impl GrantDisbursementType {
    /// Standard and escrow grants need a final report; urgent ones do not.
    pub open spec fn needs_report(self) -> bool {
        self != GrantDisbursementType::Urgent
    }

    /// Whether grants paid this way need a final report.
    pub fn requires_report(&self) -> (b: bool)
        ensures
            b == self.needs_report(),
    {
        match self {
            GrantDisbursementType::Urgent => false,
            _ => true,
        }
    }

    /// Only escrow grants hold their funds in escrow.
    pub fn requires_escrow(&self) -> (b: bool)
        ensures
            b == (*self == GrantDisbursementType::Escrow),
    {
        match self {
            GrantDisbursementType::Escrow => true,
            _ => false,
        }
    }

    /// Only urgent grants may be closed without a final report.
    pub fn can_close_without_report(&self) -> (b: bool)
        ensures
            b == !self.needs_report(),
    {
        match self {
            GrantDisbursementType::Urgent => true,
            _ => false,
        }
    }
}

/// The first failing check of `submit_grant_report_handler`. `mesh_group`
/// is the decoded group account (`None` when it could not be decoded).
pub open spec fn submit_report_error(
    grant: Grant,
    mesh_group_account: AccountData,
    mesh_group: Option<&MeshGroup>,
    authority: Key,
    submitter: Key,
    grant_id: u64,
    content: Seq<char>,
    attachments_hash: Option<String>,
) -> Option<IndrasError> {
    if grant.id != grant_id {
        Some(IndrasError::InvalidInput)
    } else if !grant.disbursement_type.needs_report() {
        Some(IndrasError::InvalidState)
    } else if grant.status != GrantStatus::Active && grant.status != GrantStatus::Completed {
        Some(IndrasError::InvalidState)
    } else if mesh_group_account.data@.len() == 0 {
        Some(IndrasError::InvalidInput)
    } else if mesh_group is None {
        Some(IndrasError::AccountDidNotDeserialize)
    } else if mesh_group_account.key != grant.mesh_group {
        Some(IndrasError::InvalidInput)
    } else if !mesh_group->0.has_member(submitter) && authority != submitter {
        Some(IndrasError::Unauthorized)
    } else if grant.final_report_submitted {
        Some(IndrasError::InvalidState)
    } else if content.len() == 0 {
        Some(IndrasError::InvalidInput)
    } else if utf8_len(content) > 2000 {
        Some(IndrasError::StringTooLong)
    } else if attachments_hash is Some && utf8_len(attachments_hash->0@) > 500 {
        Some(IndrasError::StringTooLong)
    } else {
        None
    }
}

/// Submits the final report of an Active or Completed grant that needs one,
/// by a member of its group or the DAO authority: the grant records the
/// submission and the Submitted report is returned.
pub fn submit_grant_report_handler(
    grant: &mut Grant,
    mesh_group_account: &AccountData,
    mesh_group: Option<&MeshGroup>,
    dao_authority: &Key,
    submitter: &Key,
    now: i64,
    bump: u8,
    grant_id: u64,
    report_content: String,
    attachments_hash: Option<String>,
) -> (r: Result<GrantReport, IndrasError>)
    ensures
        ({
            let err = submit_report_error(
                *old(grant),
                *mesh_group_account,
                mesh_group,
                *dao_authority,
                *submitter,
                grant_id,
                report_content@,
                attachments_hash,
            );
            &&& r is Err <==> err is Some
            &&& r is Err ==> r->Err_0 == err->0 && *final(grant) == *old(grant)
        }),
        r matches Ok(report) ==> report == (GrantReport {
            grant_id: grant_id,
            mesh_group: old(grant).mesh_group,
            status: GrantReportStatus::Submitted,
            report_content: report_content,
            attachments_hash: attachments_hash,
            submitted_at: Some(now),
            approved_at: None,
            approved_by: None,
            rejection_reason: None,
            bump: bump,
        }) && *final(grant) == (Grant {
            final_report_submitted: true,
            final_report_submitted_at: Some(now),
            ..*old(grant)
        }),
{
    if grant.id != grant_id {
        return Err(IndrasError::InvalidInput);
    }
    if !grant.disbursement_type.requires_report() {
        return Err(IndrasError::InvalidState);
    }
    if grant.status != GrantStatus::Active && grant.status != GrantStatus::Completed {
        return Err(IndrasError::InvalidState);
    }
    if mesh_group_account.data.len() == 0 {
        return Err(IndrasError::InvalidInput);
    }
    let g = match mesh_group {
        Some(g) => g,
        None => {
            return Err(IndrasError::AccountDidNotDeserialize);
        },
    };
    if !key_eq(&mesh_group_account.key, &grant.mesh_group) {
        return Err(IndrasError::InvalidInput);
    }
    if !g.is_member(submitter) && !key_eq(dao_authority, submitter) {
        return Err(IndrasError::Unauthorized);
    }
    if grant.final_report_submitted {
        return Err(IndrasError::InvalidState);
    }
    if is_empty_text(&report_content) {
        return Err(IndrasError::InvalidInput);
    }
    if byte_len(&report_content) > 2000 {
        return Err(IndrasError::StringTooLong);
    }
    if let Some(h) = &attachments_hash {
        if byte_len(h) > 500 {
            return Err(IndrasError::StringTooLong);
        }
    }
    grant.final_report_submitted = true;
    grant.final_report_submitted_at = Some(now);
    Ok(
        GrantReport {
            grant_id: grant_id,
            mesh_group: grant.mesh_group,
            status: GrantReportStatus::Submitted,
            report_content: report_content,
            attachments_hash: attachments_hash,
            submitted_at: Some(now),
            approved_at: None,
            approved_by: None,
            rejection_reason: None,
            bump: bump,
        },
    )
}

/// The checks shared by approving and rejecting a report.
pub open spec fn review_error(grant: Grant, report: GrantReport, reviewer: Key, authority: Key, grant_id: u64) -> Option<
    IndrasError,
> {
    if grant.id != grant_id || report.grant_id != grant_id {
        Some(IndrasError::InvalidInput)
    } else if reviewer != authority {
        Some(IndrasError::Unauthorized)
    } else if report.status != GrantReportStatus::Submitted {
        Some(IndrasError::InvalidState)
    } else {
        None
    }
}

fn check_review(grant: &Grant, report: &GrantReport, reviewer: &Key, authority: &Key, grant_id: u64) -> (r: Result<
    (),
    IndrasError,
>)
    ensures
        r == outcome(review_error(*grant, *report, *reviewer, *authority, grant_id)),
{
    if grant.id != grant_id || report.grant_id != grant_id {
        return Err(IndrasError::InvalidInput);
    }
    if !key_eq(reviewer, authority) {
        return Err(IndrasError::Unauthorized);
    }
    if report.status != GrantReportStatus::Submitted {
        return Err(IndrasError::InvalidState);
    }
    Ok(())
}

/// The DAO authority approves a Submitted report.
pub fn approve_grant_report_handler(
    grant: &mut Grant,
    report: &mut GrantReport,
    approver: &Key,
    dao_authority: &Key,
    now: i64,
    grant_id: u64,
) -> (r: Result<(), IndrasError>)
    ensures
        r == outcome(review_error(*old(grant), *old(report), *approver, *dao_authority, grant_id)),
        r is Err ==> *final(grant) == *old(grant) && *final(report) == *old(report),
        r is Ok ==> *final(grant) == (Grant {
            final_report_approved: true,
            final_report_approved_at: Some(now),
            ..*old(grant)
        }) && *final(report) == (GrantReport {
            status: GrantReportStatus::Approved,
            approved_at: Some(now),
            approved_by: Some(*approver),
            ..*old(report)
        }),
{
    check_review(grant, report, approver, dao_authority, grant_id)?;
    grant.final_report_approved = true;
    grant.final_report_approved_at = Some(now);
    report.status = GrantReportStatus::Approved;
    report.approved_at = Some(now);
    report.approved_by = Some(*approver);
    Ok(())
}

/// The DAO authority rejects a Submitted report with a reason of 1 to 500
/// bytes; the grant may then submit a report again.
pub fn reject_grant_report_handler(
    grant: &mut Grant,
    report: &mut GrantReport,
    rejector: &Key,
    dao_authority: &Key,
    grant_id: u64,
    reason: String,
) -> (r: Result<(), IndrasError>)
    ensures
        r == outcome(
            if review_error(*old(grant), *old(report), *rejector, *dao_authority, grant_id) is Some {
                review_error(*old(grant), *old(report), *rejector, *dao_authority, grant_id)
            } else if reason@.len() == 0 {
                Some(IndrasError::InvalidInput)
            } else if utf8_len(reason@) > 500 {
                Some(IndrasError::StringTooLong)
            } else {
                None
            },
        ),
        r is Err ==> *final(grant) == *old(grant) && *final(report) == *old(report),
        r is Ok ==> *final(grant) == (Grant {
            final_report_submitted: false,
            final_report_submitted_at: None,
            ..*old(grant)
        }) && *final(report) == (GrantReport {
            status: GrantReportStatus::Rejected,
            rejection_reason: Some(reason),
            ..*old(report)
        }),
{
    check_review(grant, report, rejector, dao_authority, grant_id)?;
    if is_empty_text(&reason) {
        return Err(IndrasError::InvalidInput);
    }
    if byte_len(&reason) > 500 {
        return Err(IndrasError::StringTooLong);
    }
    grant.final_report_submitted = false;
    grant.final_report_submitted_at = None;
    report.status = GrantReportStatus::Rejected;
    report.rejection_reason = Some(reason);
    Ok(())
}

} // verus!
