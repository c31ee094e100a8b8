use vstd::prelude::*;

verus! {

/// What a governance analytics record measures.
#[derive(Clone, Copy, Debug, PartialEq, Eq, Structural)]
pub enum GovernanceAnalyticsType {
    Participation,
    Voting,
    Proposals,
    Treasury,
}

/// What a governance participation record tracks.
#[derive(Clone, Copy, Debug, PartialEq, Eq, Structural)]
pub enum GovernanceParticipationType {
    Voting,
    Proposing,
    Delegating,
}

/// What a governance voting record holds.
#[derive(Clone, Copy, Debug, PartialEq, Eq, Structural)]
pub enum GovernanceVotingType {
    Simple,
    Weighted,
    Quadratic,
}

/// An analytics record for a governance body.
#[derive(Clone, Copy, Debug)]
pub struct GovernanceAnalytics {
    pub analytics_id: u64,
    pub governance_id: u64,
    pub analytics_type: GovernanceAnalyticsType,
    pub analytics_config_hash: [u8; 32],
    pub created_at: i64,
    pub updated_at: i64,
    pub bump: u8,
}

/// A member's participation record.
#[derive(Clone, Copy, Debug)]
pub struct GovernanceParticipation {
    pub participation_id: u64,
    pub member_id: u64,
    pub participation_type: GovernanceParticipationType,
    pub participation_config_hash: [u8; 32],
    pub created_at: i64,
    pub updated_at: i64,
    pub bump: u8,
}

/// A voting record for a proposal.
#[derive(Clone, Copy, Debug)]
pub struct GovernanceVoting {
    pub voting_id: u64,
    pub proposal_id: u64,
    pub voting_type: GovernanceVotingType,
    pub voting_data_hash: [u8; 32],
    pub created_at: i64,
    pub updated_at: i64,
    pub bump: u8,
}

/// Starts an analytics record at `now`.
pub fn initialize_governance_analytics_handler(
    now: i64,
    bump: u8,
    analytics_id: u64,
    governance_id: u64,
    analytics_type: GovernanceAnalyticsType,
    analytics_config_hash: [u8; 32],
) -> (r: GovernanceAnalytics)
    ensures
        r == (GovernanceAnalytics {
            analytics_id: analytics_id,
            governance_id: governance_id,
            analytics_type: analytics_type,
            analytics_config_hash: analytics_config_hash,
            created_at: now,
            updated_at: now,
            bump: bump,
        }),
{
    GovernanceAnalytics {
        analytics_id: analytics_id,
        governance_id: governance_id,
        analytics_type: analytics_type,
        analytics_config_hash: analytics_config_hash,
        created_at: now,
        updated_at: now,
        bump: bump,
    }
}

/// Starts a participation record at `now`.
pub fn initialize_governance_participation_handler(
    now: i64,
    bump: u8,
    participation_id: u64,
    member_id: u64,
    participation_type: GovernanceParticipationType,
    participation_config_hash: [u8; 32],
) -> (r: GovernanceParticipation)
    ensures
        r == (GovernanceParticipation {
            participation_id: participation_id,
            member_id: member_id,
            participation_type: participation_type,
            participation_config_hash: participation_config_hash,
            created_at: now,
            updated_at: now,
            bump: bump,
        }),
{
    GovernanceParticipation {
        participation_id: participation_id,
        member_id: member_id,
        participation_type: participation_type,
        participation_config_hash: participation_config_hash,
        created_at: now,
        updated_at: now,
        bump: bump,
    }
}

/// Starts a voting record at `now`.
pub fn initialize_governance_voting_handler(
    now: i64,
    bump: u8,
    voting_id: u64,
    proposal_id: u64,
    voting_type: GovernanceVotingType,
    voting_data_hash: [u8; 32],
) -> (r: GovernanceVoting)
    ensures
        r == (GovernanceVoting {
            voting_id: voting_id,
            proposal_id: proposal_id,
            voting_type: voting_type,
            voting_data_hash: voting_data_hash,
            created_at: now,
            updated_at: now,
            bump: bump,
        }),
{
    GovernanceVoting {
        voting_id: voting_id,
        proposal_id: proposal_id,
        voting_type: voting_type,
        voting_data_hash: voting_data_hash,
        created_at: now,
        updated_at: now,
        bump: bump,
    }
}

} // verus!
