use crate::access::outcome;
use crate::error::IndrasError;
use crate::keys::Key;
use crate::mesh_group::{contains_id, MeshGroup};
use vstd::prelude::*;

verus! {

/// The life-cycle state of a grant.
#[derive(Clone, Copy, Debug, PartialEq, Eq, Structural)]
pub enum GrantStatus {
    Pending,
    Approved,
    Active,
    Suspended,
    Completed,
    Cancelled,
    Rejected,
    Expired,
    Archived,
}

/// What a grant funds.
#[derive(Clone, Copy, Debug, PartialEq, Eq, Structural)]
pub enum GrantCategory {
    Research,
    Development,
    Community,
}

/// The development stage a grant belongs to.
#[derive(Clone, Copy, Debug, PartialEq, Eq, Structural)]
pub enum GrantType {
    Initial,
    Core,
    Final,
}

/// How a grant's funds are paid out.
#[derive(Clone, Copy, Debug, PartialEq, Eq, Structural)]
pub enum GrantDisbursementType {
    Standard,
    Escrow,
    Urgent,
}

/// Who may vote on a grant.
#[derive(Clone, Copy, Debug, PartialEq, Eq, Structural)]
pub enum VotingLayer {
    AuthorOnly,
    AuthorAndExpert,
    AllLayers,
}

/// In which capacity a vote on a grant is cast.
#[derive(Clone, Copy, Debug, PartialEq, Eq, Structural)]
pub enum VoterType {
    MeshGroupMember,
    IdeaAuthor,
    Expert,
    DaoMember,
}

/// Whether a grant's use of funds was verified.
#[derive(Clone, Copy, Debug, PartialEq, Eq, Structural)]
pub enum VerificationStatus {
    Pending,
    Verified,
    Rejected,
}

/// A vote's choice.
#[derive(Clone, Copy, Debug, PartialEq, Eq, Structural)]
pub enum VoteType {
    Yes,
    No,
    Abstain,
}

/// A grant request and its state. `semantic_distance` holds the bits of the
/// `f32` distance supplied at creation.
#[derive(Debug)]
pub struct Grant {
    pub id: u64,
    pub idea_id: u64,
    pub mesh_group: Key,
    pub category: GrantCategory,
    pub grant_type: GrantType,
    pub disbursement_type: GrantDisbursementType,
    pub milestone_id: Option<u64>,
    pub status: GrantStatus,
    pub base_amount: u64,
    pub reputation_bonus: u64,
    pub total_amount: u64,
    pub disbursed_amount: u64,
    pub verification_status: VerificationStatus,
    pub commercialization_right_transferred: bool,
    pub created_at: i64,
    pub approved_at: Option<i64>,
    pub completed_at: Option<i64>,
    pub voting_end: i64,
    pub voting_layer: VotingLayer,
    pub grant_level: u8,
    pub total_votes: u64,
    pub total_yes_weight: u64,
    pub total_no_weight: u64,
    pub total_abstain_weight: u64,
    pub quorum_reached: bool,
    pub semantic_domain: Option<String>,
    pub semantic_domain_account: Option<Key>,
    pub semantic_distance: Option<u32>,
    pub phenomenon_membership: Option<Key>,
    pub final_report_submitted: bool,
    pub final_report_approved: bool,
    pub final_report_submitted_at: Option<i64>,
    pub final_report_approved_at: Option<i64>,
    pub escrow_account: Option<Key>,
    pub bump: u8,
}

/// One vote on a grant.
#[derive(Clone, Copy, Debug)]
pub struct GrantVote {
    pub grant_id: u64,
    pub voter: Key,
    pub vote_type: VoteType,
    pub weight: u64,
    pub voter_type: VoterType,
    pub cast_at: i64,
    pub bump: u8,
}

/// The DAO treasury from which grants are paid.
#[derive(Clone, Copy, Debug)]
pub struct Treasury {
    pub balance: u64,
    pub bump: u8,
}

/// A semantic domain with its signed embedding.
#[derive(Debug)]
pub struct SemanticDomain {
    pub domain_id: u64,
    pub name: String,
    pub embedding_hash: [u8; 32],
    pub embedding_signature: [u8; 64],
    pub provider: String,
    pub created_at: i64,
}

/// The life-cycle state of a phenomenon.
#[derive(Clone, Copy, Debug, PartialEq, Eq, Structural)]
pub enum PhenomenonStatus {
    Proposed,
    Active,
    Archived,
}

/// What a grant request reads of a phenomenon account: its owner, the length
/// of its data, its status and the ideas it relates.
#[derive(Debug)]
pub struct PhenomenonAccount {
    pub owner: Key,
    pub data_len: usize,
    pub status: PhenomenonStatus,
    pub related_ideas: Vec<Key>,
}

// ---------------------------------------------------------------- life cycle

impl Grant {
    /// A grant moves to any later status only from the one before it:
    /// Pending to Approved.
    pub fn approve(&mut self) -> (r: Result<(), IndrasError>)
        ensures
            r is Ok <==> old(self).status == GrantStatus::Pending,
            r is Err ==> r == Err::<(), IndrasError>(IndrasError::InvalidState) && *final(self) == *old(self),
            r is Ok ==> *final(self) == (Grant { status: GrantStatus::Approved, ..*old(self) }),
    {
        if self.status != GrantStatus::Pending {
            return Err(IndrasError::InvalidState);
        }
        self.status = GrantStatus::Approved;
        Ok(())
    }

    /// Approved to Active.
    pub fn activate(&mut self) -> (r: Result<(), IndrasError>)
        ensures
            r is Ok <==> old(self).status == GrantStatus::Approved,
            r is Err ==> r == Err::<(), IndrasError>(IndrasError::InvalidState) && *final(self) == *old(self),
            r is Ok ==> *final(self) == (Grant { status: GrantStatus::Active, ..*old(self) }),
    {
        if self.status != GrantStatus::Approved {
            return Err(IndrasError::InvalidState);
        }
        self.status = GrantStatus::Active;
        Ok(())
    }

    /// Pays out `amount` of an Active grant; the grant is Completed once all
    /// of it is paid.
    pub fn disburse(&mut self, amount: u64) -> (r: Result<(), IndrasError>)
        ensures
            r == outcome(disburse_error(*old(self), amount)),
            r is Err ==> *final(self) == *old(self),
            r is Ok ==> *final(self) == disbursed(*old(self), amount),
    {
        if self.status != GrantStatus::Active {
            return Err(IndrasError::InvalidState);
        }
        if amount == 0 {
            return Err(IndrasError::InvalidInput);
        }
        if amount > self.total_amount || self.disbursed_amount > self.total_amount - amount {
            return Err(IndrasError::AmountTooLarge);
        }
        self.disbursed_amount = self.disbursed_amount + amount;
        if self.disbursed_amount == self.total_amount {
            self.status = GrantStatus::Completed;
        }
        Ok(())
    }
}

/// The first failing check of `Grant::disburse`.
pub open spec fn disburse_error(g: Grant, amount: u64) -> Option<IndrasError> {
    if g.status != GrantStatus::Active {
        Some(IndrasError::InvalidState)
    } else if amount == 0 {
        Some(IndrasError::InvalidInput)
    } else if g.disbursed_amount + amount > g.total_amount {
        Some(IndrasError::AmountTooLarge)
    } else {
        None
    }
}

/// The grant after `amount` was paid out.
pub open spec fn disbursed(g: Grant, amount: u64) -> Grant {
    let paid = (g.disbursed_amount + amount) as u64;
    Grant {
        disbursed_amount: paid,
        status: if paid == g.total_amount {
            GrantStatus::Completed
        } else {
            g.status
        },
        ..g
    }
}

/// Approves a Pending grant: the author's commercialization right passes to
/// the association, and the grant is recorded in its mesh group.
pub fn approve_grant_handler(grant: &mut Grant, mesh_group: &mut MeshGroup) -> (r: Result<(), IndrasError>)
    ensures
        r == outcome(
            if old(grant).status != GrantStatus::Pending {
                Some(IndrasError::InvalidState)
            } else if old(mesh_group).grants@.contains(old(grant).id) {
                Some(IndrasError::InvalidInput)
            } else {
                None
            },
        ),
        r is Ok ==> *final(grant) == (Grant {
            status: GrantStatus::Approved,
            commercialization_right_transferred: true,
            ..*old(grant)
        }) && final(mesh_group).grants@ == old(mesh_group).grants@.push(old(grant).id)
            && crate::mesh_group_ideas::with_grants(*old(mesh_group), *final(mesh_group)),
        r is Err ==> *final(mesh_group) == *old(mesh_group) && *final(grant) == *old(grant),
        old(mesh_group).wf() ==> final(mesh_group).wf(),
{
    if grant.status != GrantStatus::Pending {
        return Err(IndrasError::InvalidState);
    }
    if contains_id(&mesh_group.grants, grant.id) {
        return Err(IndrasError::InvalidInput);
    }
    grant.approve()?;
    grant.commercialization_right_transferred = true;
    mesh_group.add_grant(grant.id)
}

/// Activates an Approved grant.
pub fn activate_grant_handler(grant: &mut Grant) -> (r: Result<(), IndrasError>)
    ensures
        r is Ok <==> old(grant).status == GrantStatus::Approved,
        r is Err ==> r == Err::<(), IndrasError>(IndrasError::InvalidState) && *final(grant) == *old(grant),
        r is Ok ==> *final(grant) == (Grant { status: GrantStatus::Active, ..*old(grant) }),
{
    grant.activate()
}

/// Marks an Active grant Completed at `now`; a grant in any other status is
/// refused and left as it is (Completed is reached only from Active).
pub fn complete_grant_handler(grant: &mut Grant, now: i64) -> (r: Result<(), IndrasError>)
    ensures
        r is Ok <==> old(grant).status == GrantStatus::Active,
        r is Err ==> r == Err::<(), IndrasError>(IndrasError::InvalidState) && *final(grant) == *old(grant),
        r is Ok ==> *final(grant) == (Grant { status: GrantStatus::Completed, completed_at: Some(now), ..*old(grant) }),
{
    if grant.status != GrantStatus::Active {
        return Err(IndrasError::InvalidState);
    }
    grant.status = GrantStatus::Completed;
    grant.completed_at = Some(now);
    Ok(())
}

/// The first failing check of `disburse_grant_handler`.
pub open spec fn disburse_grant_error(g: Grant, treasury: Treasury, amount: u64) -> Option<IndrasError> {
    if g.status != GrantStatus::Active {
        Some(IndrasError::InvalidState)
    } else if amount == 0 {
        Some(IndrasError::InvalidInput)
    } else if treasury.balance < amount {
        Some(IndrasError::InsufficientFunds)
    } else if g.disbursed_amount + amount > u64::MAX {
        Some(IndrasError::Overflow)
    } else if g.disbursed_amount + amount > g.total_amount {
        Some(IndrasError::AmountTooLarge)
    } else {
        None
    }
}

/// Pays `amount` of an Active grant from the treasury: the treasury must
/// hold it and the grant's paid total may not exceed its total amount. The
/// transfer of lamports itself is made by the caller once this succeeds.
pub fn disburse_grant_handler(grant: &mut Grant, treasury: &mut Treasury, amount: u64) -> (r: Result<
    (),
    IndrasError,
>)
    ensures
        r == outcome(disburse_grant_error(*old(grant), *old(treasury), amount)),
        r is Err ==> *final(grant) == *old(grant) && *final(treasury) == *old(treasury),
        r is Ok ==> *final(grant) == disbursed(*old(grant), amount) && final(treasury).balance
            == old(treasury).balance - amount && final(treasury).bump == old(treasury).bump,
{
    if grant.status != GrantStatus::Active {
        return Err(IndrasError::InvalidState);
    }
    if amount == 0 {
        return Err(IndrasError::InvalidInput);
    }
    if treasury.balance < amount {
        return Err(IndrasError::InsufficientFunds);
    }
    let new_disbursed = match grant.disbursed_amount.checked_add(amount) {
        Some(n) => n,
        None => {
            return Err(IndrasError::Overflow);
        },
    };
    if new_disbursed > grant.total_amount {
        return Err(IndrasError::AmountTooLarge);
    }
    grant.disburse(amount)?;
    treasury.balance = treasury.balance - amount;
    Ok(())
}

/// Every payment keeps a grant's paid total within its total amount.
pub proof fn disbursement_stays_within_total(g: Grant, amount: u64)
    requires
        g.disbursed_amount <= g.total_amount,
        disburse_error(g, amount) is None,
    ensures
        disbursed(g, amount).disbursed_amount <= disbursed(g, amount).total_amount,
        disbursed(g, amount).disbursed_amount == g.disbursed_amount + amount,
        disbursed(g, amount).status == GrantStatus::Completed <==> g.disbursed_amount + amount
            == g.total_amount,
{
}

} // verus!
