use crate::access::outcome;
use crate::error::IndrasError;
use crate::expert_registry::ExpertEntry;
use crate::grant::{Grant, GrantStatus, GrantVote, VoteType, VoterType, VotingLayer};
use crate::grant_voting::{count_vote, total_weight, vote_overflows, with_vote};
use crate::idea::Idea;
use crate::keys::{key_eq, Key};
use crate::mesh_group::MeshGroup;
use vstd::prelude::*;

verus! {

/// The base weight of a vote by voter type: 2 for a member of the author's
/// group or an expert, 1 for the idea's author or another DAO member.
pub open spec fn base_weight(t: VoterType) -> u64 {
    match t {
        VoterType::MeshGroupMember => 2,
        VoterType::Expert => 2,
        VoterType::IdeaAuthor => 1,
        VoterType::DaoMember => 1,
    }
}

/// A weight scaled by a multiplier given in hundredths (100 = 1.0x); the
/// product saturates at `u64::MAX` before the division.
pub open spec fn scaled_weight(weight: u64, multiplier: u64) -> u64 {
    let p = weight * multiplier;
    (if p > u64::MAX { u64::MAX as int } else { p }) as u64 / 100
}

/// The weight of a vote: the base weight, scaled by the competency
/// multiplier and then by the semantic multiplier, where given.
pub open spec fn vote_weight(t: VoterType, competency: Option<u64>, semantic: Option<u64>) -> u64 {
    let w = match competency {
        Some(c) => scaled_weight(base_weight(t), c),
        None => base_weight(t),
    };
    match semantic {
        Some(s) => scaled_weight(w, s),
        None => w,
    }
}

/// How a vote's weight is made, multiplier by multiplier: members of the
/// group and experts start at 2, the idea's author and other DAO members
/// at 1; a competency multiplier scales that base, and a semantic
/// multiplier scales whatever weight the vote has before it, with or
/// without a competency multiplier. Scaling by `m` hundredths gives the
/// whole part of `weight * m / 100` (the product saturating at `u64::MAX`).
pub proof fn vote_weight_applies_each_multiplier(t: VoterType, competency: Option<u64>, s: u64)
    ensures
        base_weight(t) == (if t == VoterType::MeshGroupMember || t == VoterType::Expert {
            2u64
        } else {
            1u64
        }),
        vote_weight(t, None, None) == base_weight(t),
        ({
            let before = vote_weight(t, competency, None);
            let after = vote_weight(t, competency, Some(s));
            &&& before * s <= u64::MAX ==> 100 * after <= before * s < 100 * (after + 1)
            &&& before * s > u64::MAX ==> after == u64::MAX / 100
        }),
        competency matches Some(c) ==> {
            let w = vote_weight(t, competency, None);
            &&& base_weight(t) * c <= u64::MAX ==> 100 * w <= base_weight(t) * c < 100 * (w + 1)
            &&& base_weight(t) * c > u64::MAX ==> w == u64::MAX / 100
        },
{
}

impl GrantVote {
    /// The base weight of a voter type.
    pub fn calculate_base_weight(voter_type: VoterType) -> (w: u64)
        ensures
            w == base_weight(voter_type),
    {
        match voter_type {
            VoterType::MeshGroupMember => 2,
            VoterType::Expert => 2,
            VoterType::IdeaAuthor => 1,
            VoterType::DaoMember => 1,
        }
    }

    /// Scales a weight by a multiplier in hundredths.
    pub fn calculate_final_weight(base_weight: u64, multiplier: u64) -> (w: u64)
        ensures
            w == scaled_weight(base_weight, multiplier),
    {
        let product = match base_weight.checked_mul(multiplier) {
            Some(p) => p,
            None => u64::MAX,
        };
        product / 100
    }
}

/// The checks on an expert voter. `expert_entry` is `None` when no entry
/// was supplied, `Some(None)` when one was supplied but could not be read.
pub open spec fn expert_voter_error(expert_entry: Option<Option<&ExpertEntry>>, grant: Grant, voter: Key) -> Option<
    IndrasError,
> {
    match expert_entry {
        Some(Some(e)) => if e.expert != voter {
            Some(IndrasError::InvalidInput)
        } else if !e.valid() {
            Some(IndrasError::InvalidState)
        } else {
            match grant.semantic_domain {
                Some(d) => if e.domain_id@ != d@ {
                    Some(IndrasError::InvalidSemanticDomain)
                } else {
                    None
                },
                None => Some(IndrasError::InvalidInput),
            }
        },
        Some(None) => Some(IndrasError::InvalidInput),
        None => if grant.semantic_domain is None {
            Some(IndrasError::InvalidInput)
        } else {
            None
        },
    }
}

/// Checks an expert voter against the grant's semantic domain.
pub fn validate_expert_voter(expert_entry: Option<Option<&ExpertEntry>>, grant: &Grant, voter: &Key) -> (r: Result<
    (),
    IndrasError,
>)
    ensures
        r == outcome(expert_voter_error(expert_entry, *grant, *voter)),
{
    match expert_entry {
        Some(Some(e)) => {
            if !key_eq(&e.expert, voter) {
                return Err(IndrasError::InvalidInput);
            }
            if !e.is_valid_expert() {
                return Err(IndrasError::InvalidState);
            }
            match &grant.semantic_domain {
                Some(d) => {
                    if e.domain_id != *d {
                        Err(IndrasError::InvalidSemanticDomain)
                    } else {
                        Ok(())
                    }
                },
                None => Err(IndrasError::InvalidInput),
            }
        },
        Some(None) => Err(IndrasError::InvalidInput),
        None => {
            if grant.semantic_domain.is_none() {
                Err(IndrasError::InvalidInput)
            } else {
                Ok(())
            }
        },
    }
}

/// Who may vote at the grant's voting layer, in the capacity claimed.
pub open spec fn eligibility_error(
    grant: Grant,
    g: MeshGroup,
    idea: Idea,
    voter: Key,
    voter_type: VoterType,
    expert_entry: Option<Option<&ExpertEntry>>,
) -> Option<IndrasError> {
    let member = g.has_member(voter);
    match grant.voting_layer {
        VotingLayer::AuthorOnly => if !member {
            Some(IndrasError::Unauthorized)
        } else if voter_type != VoterType::MeshGroupMember {
            Some(IndrasError::InvalidInput)
        } else {
            None
        },
        VotingLayer::AuthorAndExpert => if !member && voter_type != VoterType::Expert {
            Some(IndrasError::Unauthorized)
        } else if member && voter_type != VoterType::MeshGroupMember {
            Some(IndrasError::InvalidInput)
        } else if voter_type == VoterType::Expert {
            expert_voter_error(expert_entry, grant, voter)
        } else {
            None
        },
        VotingLayer::AllLayers => match voter_type {
            VoterType::MeshGroupMember => if !member {
                Some(IndrasError::Unauthorized)
            } else {
                None
            },
            VoterType::IdeaAuthor => if idea.author != voter {
                Some(IndrasError::Unauthorized)
            } else {
                None
            },
            VoterType::Expert => expert_voter_error(expert_entry, grant, voter),
            VoterType::DaoMember => None,
        },
    }
}

fn check_eligibility(
    grant: &Grant,
    g: &MeshGroup,
    idea: &Idea,
    voter: &Key,
    voter_type: VoterType,
    expert_entry: Option<Option<&ExpertEntry>>,
) -> (r: Result<(), IndrasError>)
    ensures
        r == outcome(eligibility_error(*grant, *g, *idea, *voter, voter_type, expert_entry)),
{
    let member = g.is_member(voter);
    match grant.voting_layer {
        VotingLayer::AuthorOnly => {
            if !member {
                return Err(IndrasError::Unauthorized);
            }
            if voter_type != VoterType::MeshGroupMember {
                return Err(IndrasError::InvalidInput);
            }
            Ok(())
        },
        VotingLayer::AuthorAndExpert => {
            let is_expert = voter_type == VoterType::Expert;
            if !member && !is_expert {
                return Err(IndrasError::Unauthorized);
            }
            if member && voter_type != VoterType::MeshGroupMember {
                return Err(IndrasError::InvalidInput);
            }
            if is_expert {
                return validate_expert_voter(expert_entry, grant, voter);
            }
            Ok(())
        },
        VotingLayer::AllLayers => match voter_type {
            VoterType::MeshGroupMember => {
                if !member {
                    Err(IndrasError::Unauthorized)
                } else {
                    Ok(())
                }
            },
            VoterType::IdeaAuthor => {
                if !key_eq(&idea.author, voter) {
                    Err(IndrasError::Unauthorized)
                } else {
                    Ok(())
                }
            },
            VoterType::Expert => validate_expert_voter(expert_entry, grant, voter),
            VoterType::DaoMember => Ok(()),
        },
    }
}

/// The first failing check of `cast_grant_vote_handler`. `mesh_group` and
/// `idea` are the decoded accounts (`None` when they could not be decoded).
pub open spec fn cast_vote_error(
    grant: Grant,
    mesh_group_key: Key,
    mesh_group: Option<&MeshGroup>,
    idea: Option<&Idea>,
    expert_entry: Option<Option<&ExpertEntry>>,
    voter: Key,
    now: i64,
    grant_id: u64,
    choice: VoteType,
    voter_type: VoterType,
    competency: Option<u64>,
    semantic: Option<u64>,
) -> Option<IndrasError> {
    if mesh_group is None || idea is None {
        Some(IndrasError::AccountDidNotDeserialize)
    } else if grant.id != grant_id {
        Some(IndrasError::InvalidInput)
    } else if grant.status != GrantStatus::Pending {
        Some(IndrasError::InvalidState)
    } else if now > grant.voting_end {
        Some(IndrasError::InvalidState)
    } else if grant.idea_id != idea->0.id {
        Some(IndrasError::InvalidInput)
    } else if grant.mesh_group != mesh_group_key {
        Some(IndrasError::InvalidInput)
    } else if eligibility_error(grant, *mesh_group->0, *idea->0, voter, voter_type, expert_entry) is Some {
        eligibility_error(grant, *mesh_group->0, *idea->0, voter, voter_type, expert_entry)
    } else if vote_overflows(grant, choice, vote_weight(voter_type, competency, semantic)) {
        Some(IndrasError::Overflow)
    } else {
        None
    }
}

/// Casts a vote on a Pending grant during its voting period, by a voter
/// the grant's voting layer admits in the capacity claimed; the vote's
/// weight is the base weight of that capacity scaled by the competency
/// multiplier and by `semantic_multiplier` (the multiplier of the grant's
/// semantic distance, in hundredths), where given. Returns the vote record.
pub fn cast_grant_vote_handler(
    grant: &mut Grant,
    mesh_group_key: &Key,
    mesh_group: Option<&MeshGroup>,
    idea: Option<&Idea>,
    expert_entry: Option<Option<&ExpertEntry>>,
    voter: &Key,
    now: i64,
    bump: u8,
    semantic_multiplier: Option<u64>,
    grant_id: u64,
    vote_choice: VoteType,
    voter_type: VoterType,
    competency_multiplier: Option<u64>,
) -> (r: Result<GrantVote, IndrasError>)
    ensures
        ({
            let err = cast_vote_error(
                *old(grant),
                *mesh_group_key,
                mesh_group,
                idea,
                expert_entry,
                *voter,
                now,
                grant_id,
                vote_choice,
                voter_type,
                competency_multiplier,
                semantic_multiplier,
            );
            &&& r is Err <==> err is Some
            &&& r is Err ==> r->Err_0 == err->0 && *final(grant) == *old(grant)
        }),
        r matches Ok(v) ==> {
            let w = vote_weight(voter_type, competency_multiplier, semantic_multiplier);
            &&& v == (GrantVote {
                grant_id: grant_id,
                voter: *voter,
                vote_type: vote_choice,
                weight: w,
                voter_type: voter_type,
                cast_at: now,
                bump: bump,
            })
            &&& *final(grant) == with_vote(*old(grant), vote_choice, w)
        },
{
    let (g, i) = match (mesh_group, idea) {
        (Some(g), Some(i)) => (g, i),
        _ => {
            return Err(IndrasError::AccountDidNotDeserialize);
        },
    };
    if grant.id != grant_id {
        return Err(IndrasError::InvalidInput);
    }
    if grant.status != GrantStatus::Pending {
        return Err(IndrasError::InvalidState);
    }
    if now > grant.voting_end {
        return Err(IndrasError::InvalidState);
    }
    if grant.idea_id != i.id {
        return Err(IndrasError::InvalidInput);
    }
    if !key_eq(&grant.mesh_group, mesh_group_key) {
        return Err(IndrasError::InvalidInput);
    }
    check_eligibility(grant, g, i, voter, voter_type, expert_entry)?;
    let base = GrantVote::calculate_base_weight(voter_type);
    let with_competency = match competency_multiplier {
        Some(c) => GrantVote::calculate_final_weight(base, c),
        None => base,
    };
    let weight = match semantic_multiplier {
        Some(s) => GrantVote::calculate_final_weight(with_competency, s),
        None => with_competency,
    };
    count_vote(grant, vote_choice, weight)?;
    Ok(
        GrantVote {
            grant_id: grant_id,
            voter: *voter,
            vote_type: vote_choice,
            weight: weight,
            voter_type: voter_type,
            cast_at: now,
            bump: bump,
        },
    )
}

/// The yes share of the weight cast, in whole percent (0 when nothing was cast).
pub open spec fn approval_percentage(g: Grant) -> int {
    if total_weight(g) > 0 {
        (g.total_yes_weight * 100) / total_weight(g)
    } else {
        0
    }
}

/// The votes needed: 60% of the group (rounded down), or 1 for an empty group.
pub open spec fn min_quorum(size: u64) -> int {
    if size > 0 {
        (size * 60) / 100
    } else {
        1
    }
}

/// The grant quorum is 60% of the group, rounded down (one vote for an empty
/// group): the largest count of votes that is at most 60% of the members.
pub proof fn grant_quorum_is_sixty_percent(size: u64)
    ensures
        size == 0 ==> min_quorum(size) == 1,
        size > 0 ==> 100 * min_quorum(size) <= 60 * size < 100 * (min_quorum(size) + 1),
{
}

/// Votes reach the grant quorum exactly when one more vote would exceed 60%
/// of the group (for an empty group: when at least one vote was cast), so a
/// tally with fewer votes than 60% of the group, rounded down, never
/// records the quorum and never approves the grant.
pub proof fn grant_quorum_reached_iff(votes: u64, size: u64)
    ensures
        (votes >= min_quorum(size)) <==> (if size == 0 {
            votes >= 1
        } else {
            100 * (votes + 1) > 60 * size
        }),
{
}

/// A grant's yes share reaches 60% exactly when some weight was cast and
/// its yes weight is at least 60% of all weight cast.
pub proof fn approval_share_reaches_sixty_percent(g: Grant)
    ensures
        (approval_percentage(g) >= 60) <==> (total_weight(g) > 0 && 100 * g.total_yes_weight >= 60 * total_weight(g)),
{
    if total_weight(g) > 0 {
        let t = total_weight(g);
        let y = g.total_yes_weight as int;
        let q = (y * 100) / t;
        assert(y * 100 == q * t + (y * 100) % t && 0 <= (y * 100) % t < t) by (nonlinear_arith)
            requires
                0 < t,
                q == (y * 100) / t,
        ;
        if q >= 60 {
            assert(q * t >= 60 * t) by (nonlinear_arith)
                requires
                    q >= 60,
                    0 < t,
            ;
        } else {
            assert(q * t + t <= 60 * t) by (nonlinear_arith)
                requires
                    q + 1 <= 60,
                    0 < t,
            ;
        }
    }
}

/// The share of yes weight every grant level needs.
pub const GRANT_APPROVAL_THRESHOLD: u64 = 60;

/// The first failing check of `tally_grant_votes_handler`.
pub open spec fn tally_error(grant: Grant, now: i64, grant_id: u64) -> Option<IndrasError> {
    if grant.id != grant_id {
        Some(IndrasError::InvalidInput)
    } else if grant.status != GrantStatus::Pending {
        Some(IndrasError::InvalidState)
    } else if now < grant.voting_end {
        Some(IndrasError::InvalidState)
    } else if total_weight(grant) > u64::MAX {
        Some(IndrasError::Overflow)
    } else {
        None
    }
}

/// Tallies a Pending grant once its voting period has ended: it is Approved
/// (at `now`) when the yes share reaches 60% and the quorum is met,
/// otherwise Rejected; whether the quorum is met is recorded.
pub fn tally_grant_votes_handler(grant: &mut Grant, mesh_group: &MeshGroup, now: i64, grant_id: u64) -> (r: Result<
    (),
    IndrasError,
>)
    requires
        mesh_group.members@.len() <= 0x0100_0000_0000_0000,
        tally_error(*old(grant), now, grant_id) is None && total_weight(*old(grant)) > 0
            ==> old(grant).total_yes_weight * 100 <= u64::MAX,
    ensures
        r == outcome(tally_error(*old(grant), now, grant_id)),
        r is Err ==> *final(grant) == *old(grant),
        r is Ok ==> {
            let reached = old(grant).total_votes >= min_quorum(mesh_group.members@.len() as u64);
            let approved = approval_percentage(*old(grant)) >= GRANT_APPROVAL_THRESHOLD && reached;
            *final(grant) == (Grant {
                quorum_reached: reached,
                status: if approved {
                    GrantStatus::Approved
                } else {
                    GrantStatus::Rejected
                },
                approved_at: if approved {
                    Some(now)
                } else {
                    old(grant).approved_at
                },
                ..*old(grant)
            })
        },
{
    if grant.id != grant_id {
        return Err(IndrasError::InvalidInput);
    }
    if grant.status != GrantStatus::Pending {
        return Err(IndrasError::InvalidState);
    }
    if now < grant.voting_end {
        return Err(IndrasError::InvalidState);
    }
    let total = match grant.total_yes_weight.checked_add(grant.total_no_weight) {
        Some(s) => match s.checked_add(grant.total_abstain_weight) {
            Some(t) => t,
            None => {
                return Err(IndrasError::Overflow);
            },
        },
        None => {
            return Err(IndrasError::Overflow);
        },
    };
    let percentage = if total > 0 {
        (grant.total_yes_weight * 100) / total
    } else {
        0
    };
    let size = mesh_group.members.len() as u64;
    let quorum = if size > 0 {
        (size * 60) / 100
    } else {
        1
    };
    grant.quorum_reached = grant.total_votes >= quorum;
    let approved = percentage >= GRANT_APPROVAL_THRESHOLD && grant.quorum_reached;
    if approved {
        grant.status = GrantStatus::Approved;
        grant.approved_at = Some(now);
    } else {
        grant.status = GrantStatus::Rejected;
    }
    Ok(())
}

} // verus!
