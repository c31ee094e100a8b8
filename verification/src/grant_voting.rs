use crate::access::outcome;
use crate::error::IndrasError;
use crate::grant::{Grant, GrantStatus, GrantVote, VoteType, VoterType};
use crate::idea::Idea;
use crate::keys::{key_eq, Key};
use crate::mesh_group::{contains_id, MeshGroup};
use vstd::prelude::*;

verus! {

/// The grant's weight tally for one choice.
pub open spec fn choice_weight(g: Grant, choice: VoteType) -> u64 {
    match choice {
        VoteType::Yes => g.total_yes_weight,
        VoteType::No => g.total_no_weight,
        VoteType::Abstain => g.total_abstain_weight,
    }
}

/// The grant after a vote of `weight` for `choice` was counted.
pub open spec fn with_vote(g: Grant, choice: VoteType, weight: u64) -> Grant {
    let w = (choice_weight(g, choice) + weight) as u64;
    Grant {
        total_yes_weight: if choice == VoteType::Yes { w } else { g.total_yes_weight },
        total_no_weight: if choice == VoteType::No { w } else { g.total_no_weight },
        total_abstain_weight: if choice == VoteType::Abstain { w } else { g.total_abstain_weight },
        total_votes: (g.total_votes + 1) as u64,
        ..g
    }
}

/// Whether counting the vote would overflow a counter.
pub open spec fn vote_overflows(g: Grant, choice: VoteType, weight: u64) -> bool {
    choice_weight(g, choice) + weight > u64::MAX || g.total_votes + 1 > u64::MAX
}

/// Counts a vote on the grant, refusing it (and changing nothing) when a
/// counter would overflow.
pub fn count_vote(g: &mut Grant, choice: VoteType, weight: u64) -> (r: Result<(), IndrasError>)
    ensures
        r == outcome(
            if vote_overflows(*old(g), choice, weight) {
                Some(IndrasError::Overflow)
            } else {
                None
            },
        ),
        r is Ok ==> *final(g) == with_vote(*old(g), choice, weight),
        r is Err ==> *final(g) == *old(g),
{
    let current = match choice {
        VoteType::Yes => g.total_yes_weight,
        VoteType::No => g.total_no_weight,
        VoteType::Abstain => g.total_abstain_weight,
    };
    let w = match current.checked_add(weight) {
        Some(w) => w,
        None => {
            return Err(IndrasError::Overflow);
        },
    };
    let votes = match g.total_votes.checked_add(1) {
        Some(v) => v,
        None => {
            return Err(IndrasError::Overflow);
        },
    };
    match choice {
        VoteType::Yes => {
            g.total_yes_weight = w;
        },
        VoteType::No => {
            g.total_no_weight = w;
        },
        VoteType::Abstain => {
            g.total_abstain_weight = w;
        },
    }
    g.total_votes = votes;
    Ok(())
}

/// The voter's standing: a member of the group votes with weight 2, the
/// idea's author and any other DAO member with weight 1.
pub open spec fn voter_standing(g: MeshGroup, idea: Idea, voter: Key) -> (VoterType, u64) {
    if g.has_member(voter) {
        (VoterType::MeshGroupMember, 2)
    } else if voter == idea.author {
        (VoterType::IdeaAuthor, 1)
    } else {
        (VoterType::DaoMember, 1)
    }
}

/// The first failing check of `cast_grant_vote_handler`.
pub open spec fn cast_vote_error(
    grant: Grant,
    g: MeshGroup,
    idea: Idea,
    voter: Key,
    now: i64,
    grant_id: u64,
    choice: VoteType,
) -> Option<IndrasError> {
    if grant.id != grant_id {
        Some(IndrasError::InvalidInput)
    } else if grant.status != GrantStatus::Pending {
        Some(IndrasError::InvalidState)
    } else if now > grant.voting_end {
        Some(IndrasError::InvalidState)
    } else if !g.ideas@.contains(grant.idea_id) {
        Some(IndrasError::InvalidInput)
    } else if vote_overflows(grant, choice, voter_standing(g, idea, voter).1) {
        Some(IndrasError::Overflow)
    } else {
        None
    }
}

/// Casts a vote on a Pending grant during its voting period: the vote is
/// weighted by the voter's standing and counted; returns the vote record.
pub fn cast_grant_vote_handler(
    grant: &mut Grant,
    mesh_group: &MeshGroup,
    idea: &Idea,
    voter: &Key,
    now: i64,
    bump: u8,
    grant_id: u64,
    vote_choice: VoteType,
) -> (r: Result<GrantVote, IndrasError>)
    ensures
        r is Err <==> cast_vote_error(*old(grant), *mesh_group, *idea, *voter, now, grant_id, vote_choice) is Some,
        r matches Err(e) ==> Some(e) == cast_vote_error(*old(grant), *mesh_group, *idea, *voter, now, grant_id, vote_choice)
            && *final(grant) == *old(grant),
        r matches Ok(v) ==> {
            let (t, w) = voter_standing(*mesh_group, *idea, *voter);
            &&& v == (GrantVote {
                grant_id: grant_id,
                voter: *voter,
                vote_type: vote_choice,
                weight: w,
                voter_type: t,
                cast_at: now,
                bump: bump,
            })
            &&& *final(grant) == with_vote(*old(grant), vote_choice, w)
        },
{
    if grant.id != grant_id {
        return Err(IndrasError::InvalidInput);
    }
    if grant.status != GrantStatus::Pending {
        return Err(IndrasError::InvalidState);
    }
    if now > grant.voting_end {
        return Err(IndrasError::InvalidState);
    }
    if !contains_id(&mesh_group.ideas, grant.idea_id) {
        return Err(IndrasError::InvalidInput);
    }
    let (voter_type, weight) = if mesh_group.is_member(voter) {
        (VoterType::MeshGroupMember, 2u64)
    } else if key_eq(voter, &idea.author) {
        (VoterType::IdeaAuthor, 1u64)
    } else {
        (VoterType::DaoMember, 1u64)
    };
    count_vote(grant, vote_choice, weight)?;
    Ok(
        GrantVote {
            grant_id: grant_id,
            voter: *voter,
            vote_type: vote_choice,
            weight: weight,
            voter_type: voter_type,
            cast_at: now,
            bump: bump,
        },
    )
}

/// The quorum for a group of `size` members: all of a group of up to 3
/// (plus 2 DAO members), half of up to 6 rounded up (plus 3), 40% of a
/// larger one rounded up (plus 5).
pub open spec fn quorum_required(size: u64) -> u64 {
    if size <= 3 {
        (size + 2) as u64
    } else if size <= 6 {
        ((size + 1) / 2 + 3) as u64
    } else {
        ((size * 2 + 4) / 5 + 5) as u64
    }
}

/// Computes the quorum and whether the votes reach it (with some weight cast).
pub fn calculate_quorum(mesh_group_size: u64, total_votes: u64, total_weight: u64) -> (r: (u64, bool))
    requires
        mesh_group_size <= (u64::MAX - 4) / 2,
    ensures
        r.0 == quorum_required(mesh_group_size),
        r.1 == (total_votes >= quorum_required(mesh_group_size) && total_weight > 0),
{
    let mesh_quorum = if mesh_group_size <= 3 {
        mesh_group_size
    } else if mesh_group_size <= 6 {
        (mesh_group_size + 1) / 2
    } else {
        (mesh_group_size * 2 + 4) / 5
    };
    let min_dao_members: u64 = if mesh_group_size <= 3 {
        2
    } else if mesh_group_size <= 6 {
        3
    } else {
        5
    };
    let required = mesh_quorum + min_dao_members;
    (required, total_votes >= required && total_weight > 0)
}

/// The share of yes weight a grant needs, by its amount in lamports: 51%
/// below 0.1 SOL, 60% below 0.5 SOL, 67% from 0.5 SOL on. (Comparing the
/// lamports with 10^8 and 5 * 10^8 decides exactly as comparing
/// `amount as f64 / 1e9` with 0.1 and 0.5: the rounded quotient is
/// monotonic, and 10^8 / 10^9 and 5 * 10^8 / 10^9 round to 0.1 and 0.5.)
pub open spec fn approval_threshold(amount: u64) -> u64 {
    if amount < 100_000_000 {
        51
    } else if amount < 500_000_000 {
        60
    } else {
        67
    }
}

/// Computes the approval threshold of a grant amount.
pub fn calculate_approval_threshold(amount: u64) -> (t: u64)
    ensures
        t == approval_threshold(amount),
{
    if amount < 100_000_000 {
        51
    } else if amount < 500_000_000 {
        60
    } else {
        67
    }
}

/// The total weight cast on the grant.
pub open spec fn total_weight(g: Grant) -> int {
    g.total_yes_weight + g.total_no_weight + g.total_abstain_weight
}

/// What a tally decides.
#[derive(Clone, Copy, Debug, PartialEq, Eq, Structural)]
pub enum TallyOutcome {
    Approved,
    Rejected,
    StillVoting,
}

/// The decision of a tally at `now` for a group of `size` members.
pub open spec fn tally_decision(g: Grant, size: u64, now: i64) -> TallyOutcome {
    let reached = g.total_votes >= quorum_required(size) && total_weight(g) > 0;
    if !reached && now > g.voting_end {
        TallyOutcome::Rejected
    } else if reached {
        if (g.total_yes_weight * 100) / total_weight(g) >= approval_threshold(g.total_amount) as int {
            TallyOutcome::Approved
        } else {
            TallyOutcome::Rejected
        }
    } else {
        TallyOutcome::StillVoting
    }
}

/// The first failing check of `tally_grant_votes_handler`.
pub open spec fn tally_error(grant: Grant, g: MeshGroup, now: i64, grant_id: u64) -> Option<IndrasError> {
    if grant.id != grant_id {
        Some(IndrasError::InvalidInput)
    } else if grant.status != GrantStatus::Pending {
        Some(IndrasError::InvalidState)
    } else if total_weight(grant) > u64::MAX {
        Some(IndrasError::Overflow)
    } else if tally_decision(grant, g.members@.len() as u64, now) == TallyOutcome::Approved
        && g.grants@.contains(grant.id) {
        Some(IndrasError::InvalidInput)
    } else {
        None
    }
}

/// Tallies the votes on a Pending grant: once the quorum is reached the
/// grant is approved (and recorded in its group, its author's
/// commercialization right passing to the association) if the yes share
/// meets the threshold of its amount, else rejected; a grant whose voting
/// period ended without quorum is rejected; otherwise it stays Pending.
/// Whether the quorum is reached is recorded either way.
pub fn tally_grant_votes_handler(grant: &mut Grant, mesh_group: &mut MeshGroup, now: i64, grant_id: u64) -> (r:
    Result<(), IndrasError>)
    requires
        old(mesh_group).members@.len() <= 0x1000_0000_0000_0000,
        old(grant).id == grant_id && old(grant).status == GrantStatus::Pending && total_weight(*old(grant))
            <= u64::MAX && old(grant).total_votes >= quorum_required(old(mesh_group).members@.len() as u64)
            && total_weight(*old(grant)) > 0 ==> old(grant).total_yes_weight * 100 <= u64::MAX,
    ensures
        r == outcome(tally_error(*old(grant), *old(mesh_group), now, grant_id)),
        r is Err ==> *final(grant) == *old(grant) && *final(mesh_group) == *old(mesh_group),
        r is Ok ==> {
            let size = old(mesh_group).members@.len() as u64;
            let reached = old(grant).total_votes >= quorum_required(size) && total_weight(*old(grant)) > 0;
            let d = tally_decision(*old(grant), size, now);
            &&& d == TallyOutcome::Approved ==> *final(grant) == (Grant {
                status: GrantStatus::Approved,
                commercialization_right_transferred: true,
                quorum_reached: reached,
                ..*old(grant)
            }) && final(mesh_group).grants@ == old(mesh_group).grants@.push(old(grant).id)
                && crate::mesh_group_ideas::with_grants(*old(mesh_group), *final(mesh_group))
            &&& d == TallyOutcome::Rejected ==> *final(grant) == (Grant {
                status: GrantStatus::Rejected,
                quorum_reached: reached,
                ..*old(grant)
            }) && *final(mesh_group) == *old(mesh_group)
            &&& d == TallyOutcome::StillVoting ==> *final(grant) == (Grant {
                quorum_reached: reached,
                ..*old(grant)
            }) && *final(mesh_group) == *old(mesh_group)
        },
        old(mesh_group).wf() ==> final(mesh_group).wf(),
{
    if grant.id != grant_id {
        return Err(IndrasError::InvalidInput);
    }
    if grant.status != GrantStatus::Pending {
        return Err(IndrasError::InvalidState);
    }
    let total = match grant.total_yes_weight.checked_add(grant.total_no_weight) {
        Some(s) => match s.checked_add(grant.total_abstain_weight) {
            Some(t) => t,
            None => {
                return Err(IndrasError::Overflow);
            },
        },
        None => {
            return Err(IndrasError::Overflow);
        },
    };
    let size = mesh_group.members.len() as u64;
    let (_required, reached) = calculate_quorum(size, grant.total_votes, total);
    if !reached && now > grant.voting_end {
        grant.quorum_reached = reached;
        grant.status = GrantStatus::Rejected;
        return Ok(());
    }
    if reached && total > 0 {
        let threshold = calculate_approval_threshold(grant.total_amount);
        let percentage = (grant.total_yes_weight * 100) / total;
        if percentage >= threshold {
            if contains_id(&mesh_group.grants, grant.id) {
                return Err(IndrasError::InvalidInput);
            }
            grant.quorum_reached = reached;
            grant.status = GrantStatus::Approved;
            grant.commercialization_right_transferred = true;
            mesh_group.add_grant(grant.id)?;
        } else {
            grant.quorum_reached = reached;
            grant.status = GrantStatus::Rejected;
        }
    } else {
        grant.quorum_reached = reached;
    }
    Ok(())
}

/// A larger group never needs a smaller quorum, and more votes or weight
/// never lose a quorum that fewer reached.
pub proof fn quorum_grows_with_group_and_votes(s1: u64, s2: u64, v1: u64, v2: u64, w1: u64, w2: u64)
    requires
        s1 <= s2 <= (u64::MAX - 4) / 2,
        v1 <= v2,
        w1 <= w2,
    ensures
        quorum_required(s1) <= quorum_required(s2),
        (v1 >= quorum_required(s1) && w1 > 0) ==> (v2 >= quorum_required(s1) && w2 > 0),
{
    if s1 > 6 {
        assert((s1 * 2 + 4) / 5 <= (s2 * 2 + 4) / 5) by (nonlinear_arith)
            requires
                s1 <= s2,
        ;
    } else if s2 > 6 {
        assert((s2 * 2 + 4) / 5 >= 3) by (nonlinear_arith)
            requires
                s2 >= 7,
        ;
    } else if s1 > 3 {
        assert((s1 + 1) / 2 <= (s2 + 1) / 2) by (nonlinear_arith)
            requires
                s1 <= s2,
        ;
    } else if s2 > 3 {
        assert((s2 + 1) / 2 >= 2) by (nonlinear_arith)
            requires
                s2 >= 4,
        ;
    }
}

/// The yes share a grant needs: a simple majority (51%) below 0.1 SOL, 60%
/// from 0.1 SOL, two thirds (67%) from 0.5 SOL.
pub proof fn approval_threshold_by_amount(amount: u64)
    ensures
        amount < 100_000_000 ==> approval_threshold(amount) == 51,
        100_000_000 <= amount < 500_000_000 ==> approval_threshold(amount) == 60,
        500_000_000 <= amount ==> approval_threshold(amount) == 67,
{
}

/// The quorum of a group of `size` members: every member of a group of up
/// to 3 and 2 more voters; the smallest half (rounded up) of a group of 4
/// to 6 and 3 more; the smallest 40% (rounded up) of a larger group and 5
/// more.
pub proof fn quorum_required_by_group_size(size: u64)
    requires
        size <= (u64::MAX - 4) / 2,
    ensures
        size <= 3 ==> quorum_required(size) == size + 2,
        4 <= size <= 6 ==> {
            let m = quorum_required(size) - 3;
            2 * m >= size && 2 * (m - 1) < size
        },
        7 <= size ==> {
            let m = quorum_required(size) - 5;
            5 * m >= 2 * size && 5 * (m - 1) < 2 * size
        },
{
}

/// `floor(100 * yes / total)` reaches a whole-percent threshold exactly when
/// `100 * yes` reaches that share of the total.
proof fn lemma_share_reaches(yes: int, total: int, threshold: int)
    requires
        0 <= yes,
        0 < total,
        0 <= threshold,
    ensures
        ((yes * 100) / total >= threshold) <==> (yes * 100 >= threshold * total),
{
    let q = (yes * 100) / total;
    let r = (yes * 100) % total;
    assert(yes * 100 == q * total + r && 0 <= r < total) by (nonlinear_arith)
        requires
            0 < total,
            q == (yes * 100) / total,
            r == (yes * 100) % total,
    ;
    if q >= threshold {
        assert(q * total >= threshold * total) by (nonlinear_arith)
            requires
                q >= threshold,
                0 < total,
        ;
    } else {
        assert(q * total + total <= threshold * total) by (nonlinear_arith)
            requires
                q + 1 <= threshold,
                0 < total,
        ;
    }
}

/// A tally approves a grant exactly when the quorum is reached (enough
/// votes, some weight cast) and the yes weight is at least the amount's
/// threshold share of all weight cast; it rejects it when the quorum is
/// reached with a smaller yes share, or when voting has ended without a
/// quorum; otherwise voting goes on.
pub proof fn tally_decides_by_quorum_and_share(g: Grant, size: u64, now: i64)
    ensures
        ({
            let reached = g.total_votes >= quorum_required(size) && total_weight(g) > 0;
            let share_met = g.total_yes_weight * 100 >= approval_threshold(g.total_amount) * total_weight(g);
            &&& (tally_decision(g, size, now) == TallyOutcome::Approved) <==> (reached && share_met)
            &&& (tally_decision(g, size, now) == TallyOutcome::Rejected) <==> ((reached && !share_met) || (!reached
                && now > g.voting_end))
            &&& (tally_decision(g, size, now) == TallyOutcome::StillVoting) <==> (!reached && now <= g.voting_end)
        }),
{
    if total_weight(g) > 0 {
        lemma_share_reaches(g.total_yes_weight as int, total_weight(g), approval_threshold(g.total_amount) as int);
    }
}

/// Larger grants never need a smaller yes share.
pub proof fn approval_threshold_grows_with_amount(a: u64, b: u64)
    requires
        a <= b,
    ensures
        approval_threshold(a) <= approval_threshold(b),
        approval_threshold(a) == 51 || approval_threshold(a) == 60 || approval_threshold(a) == 67,
{
}

/// Counting a vote adds its weight to its choice and to nothing else, and
/// counts one more vote.
pub proof fn counted_vote_adds_its_weight(g: Grant, choice: VoteType, weight: u64)
    requires
        !vote_overflows(g, choice, weight),
    ensures
        total_weight(with_vote(g, choice, weight)) == total_weight(g) + weight,
        with_vote(g, choice, weight).total_votes == g.total_votes + 1,
        choice_weight(with_vote(g, choice, weight), choice) == choice_weight(g, choice) + weight,
{
}

} // verus!
