use crate::access::{outcome, DaoConfig};
use crate::error::IndrasError;
use crate::governance::GovernanceParams;
use crate::grant::{PhenomenonAccount, VoteType};
use crate::idea::{AnchorRecord, Idea, IdeaStatus};
use crate::keys::{address_bytes, contains_key, derived_address, find_program_address, is_address, key_eq, seeds_view, Key};
use crate::mesh_group::{contains_id, MeshGroup};
use crate::render::{append_str, decimal_text, u64_text};
use crate::text::{copied_vec, string_from_chars};
use vstd::prelude::*;

verus! {

/// A vote on an idea.
#[derive(Clone, Copy, Debug)]
pub struct IdeaVote {
    pub idea_id: u64,
    pub voter: Key,
    pub vote_type: VoteType,
    pub weight: u64,
    pub cast_at: i64,
    pub bump: u8,
}

/// A vote account handed to a tally: its address, owner and data length,
/// and the vote it holds (`None` when the data does not decode as a vote).
#[derive(Clone, Copy, Debug)]
pub struct VoteAccount {
    pub key: Key,
    pub owner: Key,
    pub data_len: usize,
    pub vote: Option<IdeaVote>,
}

/// Largest weight of a vote on an idea.
pub const MAX_IDEA_VOTE_WEIGHT: u64 = 1_000_000;

/// The first failing check of `cast_idea_vote_handler`.
pub open spec fn cast_idea_vote_error(idea: Idea, g: MeshGroup, idea_id: u64, weight: u64) -> Option<IndrasError> {
    if idea.id != idea_id {
        Some(IndrasError::InvalidInput)
    } else if idea.status != IdeaStatus::Voting {
        Some(IndrasError::InvalidState)
    } else if !g.ideas@.contains(idea_id) {
        Some(IndrasError::IdeaNotInMeshGroup)
    } else if g.phenomena@.len() == 0 {
        Some(IndrasError::NotInPhenomenon)
    } else if weight == 0 {
        Some(IndrasError::InvalidInput)
    } else if weight > MAX_IDEA_VOTE_WEIGHT {
        Some(IndrasError::AmountTooLarge)
    } else {
        None
    }
}

/// Casts a vote on an idea that is being voted on, inside a mesh group that
/// belongs to a phenomenon; returns the vote record.
pub fn cast_idea_vote_handler(
    idea: &Idea,
    mesh_group: &MeshGroup,
    voter: &Key,
    now: i64,
    bump: u8,
    idea_id: u64,
    vote_type: VoteType,
    weight: u64,
) -> (r: Result<IdeaVote, IndrasError>)
    ensures
        r is Err <==> cast_idea_vote_error(*idea, *mesh_group, idea_id, weight) is Some,
        r matches Err(e) ==> Some(e) == cast_idea_vote_error(*idea, *mesh_group, idea_id, weight),
        r matches Ok(v) ==> v == (IdeaVote {
            idea_id: idea_id,
            voter: *voter,
            vote_type: vote_type,
            weight: weight,
            cast_at: now,
            bump: bump,
        }),
{
    if idea.id != idea_id {
        return Err(IndrasError::InvalidInput);
    }
    if idea.status != IdeaStatus::Voting {
        return Err(IndrasError::InvalidState);
    }
    if !contains_id(&mesh_group.ideas, idea_id) {
        return Err(IndrasError::IdeaNotInMeshGroup);
    }
    if mesh_group.phenomena.len() == 0 {
        return Err(IndrasError::NotInPhenomenon);
    }
    if weight == 0 {
        return Err(IndrasError::InvalidInput);
    }
    if weight > MAX_IDEA_VOTE_WEIGHT {
        return Err(IndrasError::AmountTooLarge);
    }
    Ok(IdeaVote { idea_id: idea_id, voter: *voter, vote_type: vote_type, weight: weight, cast_at: now, bump: bump })
}

/// The seed `b"idea_vote"`.
pub open spec fn idea_vote_seed() -> Seq<u8> {
    seq![105u8, 100, 101, 97, 95, 118, 111, 116, 101]
}

/// The address of a voter's vote on an idea.
pub open spec fn idea_vote_address(idea_key: Key, voter: Key, program_id: Key) -> Option<Seq<u8>> {
    derived_address(seq![idea_vote_seed(), idea_key.bytes@, voter.bytes@], program_id.bytes@)
}

/// Running totals of a tally: yes, no and abstain weight, total weight, and
/// the vote accounts counted so far.
pub type Totals = (int, int, int, int, Seq<Key>);

/// The totals after one more vote account is looked at: an empty account is
/// skipped; any other must belong to the program, be new to the tally, hold
/// a vote on this idea at the voter's derived address, and fit the counters.
pub open spec fn tally_step(
    acc: Result<Totals, IndrasError>,
    a: VoteAccount,
    idea_key: Key,
    idea_id: u64,
    program_id: Key,
) -> Result<Totals, IndrasError> {
    match acc {
        Err(e) => Err(e),
        Ok((yes, no, abstain, total, seen)) => {
            if a.data_len == 0 {
                Ok((yes, no, abstain, total, seen))
            } else if a.owner != program_id {
                Err(IndrasError::InvalidProgram)
            } else if seen.contains(a.key) {
                Err(IndrasError::InvalidInput)
            } else if a.vote is None {
                Err(IndrasError::InvalidInput)
            } else {
                let v = a.vote->0;
                let w = v.weight as int;
                if Some(a.key.bytes@) != idea_vote_address(idea_key, v.voter, program_id) {
                    Err(IndrasError::InvalidInput)
                } else if v.idea_id != idea_id {
                    Err(IndrasError::InvalidInput)
                } else {
                    match v.vote_type {
                        VoteType::Yes => if yes + w > u64::MAX || total + w > u64::MAX {
                            Err(IndrasError::Overflow)
                        } else {
                            Ok((yes + w, no, abstain, total + w, seen.push(a.key)))
                        },
                        VoteType::No => if no + w > u64::MAX || total + w > u64::MAX {
                            Err(IndrasError::Overflow)
                        } else {
                            Ok((yes, no + w, abstain, total + w, seen.push(a.key)))
                        },
                        VoteType::Abstain => if abstain + w > u64::MAX || total + w > u64::MAX {
                            Err(IndrasError::Overflow)
                        } else {
                            Ok((yes, no, abstain + w, total + w, seen.push(a.key)))
                        },
                    }
                }
            }
        },
    }
}

/// The totals over a sequence of vote accounts, in order.
pub open spec fn tally_totals(accounts: Seq<VoteAccount>, idea_key: Key, idea_id: u64, program_id: Key) -> Result<
    Totals,
    IndrasError,
>
    decreases accounts.len(),
{
    if accounts.len() == 0 {
        Ok((0, 0, 0, 0, Seq::empty()))
    } else {
        tally_step(
            tally_totals(accounts.drop_last(), idea_key, idea_id, program_id),
            accounts.last(),
            idea_key,
            idea_id,
            program_id,
        )
    }
}

/// Most vote accounts one tally looks at.
pub const MAX_VOTES_TO_PROCESS: usize = 100;

/// The vote accounts a tally looks at: the first 100.
pub open spec fn processed(accounts: Seq<VoteAccount>) -> Seq<VoteAccount> {
    if accounts.len() > MAX_VOTES_TO_PROCESS {
        accounts.take(MAX_VOTES_TO_PROCESS as int)
    } else {
        accounts
    }
}

/// The quorum share a tally uses: the governance parameters' when the
/// account holds data, else 20 percent. `params` is `None` when the account
/// is empty and `Some(None)` when its data does not decode.
pub open spec fn quorum_share(params: Option<Option<GovernanceParams>>) -> Result<int, IndrasError> {
    match params {
        None => Ok(20),
        Some(None) => Err(IndrasError::InvalidInput),
        Some(Some(p)) => Ok(p.quorum_percentage as int),
    }
}

/// How a tally ends: rejected when the participation misses the quorum
/// share of the total weight, passed (InProgress) when yes outweighs no,
/// rejected otherwise (ties included).
pub open spec fn tally_status(yes: int, no: int, abstain: int, total: int, share: int) -> IdeaStatus {
    let required = ((total * share) / 100) as u64;
    if yes + no + abstain < required {
        IdeaStatus::Rejected
    } else if yes > no {
        IdeaStatus::InProgress
    } else {
        IdeaStatus::Rejected
    }
}

/// The first failing check of `tally_idea_votes_handler`.
pub open spec fn tally_idea_error(
    idea: Idea,
    idea_key: Key,
    dao_config: &DaoConfig,
    tallyer: Key,
    program_id: Key,
    params: Option<Option<GovernanceParams>>,
    accounts: Seq<VoteAccount>,
    idea_id: u64,
) -> Option<IndrasError> {
    if idea.id != idea_id {
        Some(IndrasError::InvalidInput)
    } else if idea.status != IdeaStatus::Voting {
        Some(IndrasError::InvalidState)
    } else if tallyer != dao_config.authority {
        Some(IndrasError::Unauthorized)
    } else if quorum_share(params) is Err {
        Some(quorum_share(params)->Err_0)
    } else if tally_totals(processed(accounts), idea_key, idea_id, program_id) is Err {
        Some(tally_totals(processed(accounts), idea_key, idea_id, program_id)->Err_0)
    } else {
        None
    }
}

/// The text of the anchor record of an idea that passed its vote.
pub open spec fn passed_text(idea_id: u64, yes: int, no: int) -> Seq<char> {
    "Idea "@ + decimal_text(idea_id as int) + " approved for grant via voting (yes: "@ + decimal_text(yes)
        + ", no: "@ + decimal_text(no) + ")"@
}

fn passed_description(idea_id: u64, yes: u64, no: u64) -> (s: String)
    ensures
        s@ == passed_text(idea_id, yes as int, no as int),
{
    let mut v: Vec<char> = Vec::new();
    append_str(&mut v, "Idea ");
    append_str(&mut v, u64_text(idea_id).as_str());
    append_str(&mut v, " approved for grant via voting (yes: ");
    append_str(&mut v, u64_text(yes).as_str());
    append_str(&mut v, ", no: ");
    append_str(&mut v, u64_text(no).as_str());
    append_str(&mut v, ")");
    string_from_chars(&v)
}

fn find_vote_address(idea_key: &Key, voter: &Key, program_id: &Key) -> (k: Option<Key>)
    ensures
        address_bytes(k) == idea_vote_address(*idea_key, *voter, *program_id),
{
    let mut seeds: Vec<Vec<u8>> = Vec::new();
    seeds.push(vec![105u8, 100, 101, 97, 95, 118, 111, 116, 101]);
    seeds.push(copied_vec(&idea_key.bytes));
    seeds.push(copied_vec(&voter.bytes));
    proof {
        assert(seeds_view(seeds@) =~= seq![idea_vote_seed(), idea_key.bytes@, voter.bytes@]);
    }
    find_program_address(&seeds, program_id)
}

/// Adds up the vote accounts a tally looks at.
pub fn count_idea_votes(accounts: &Vec<VoteAccount>, idea_key: &Key, idea_id: u64, program_id: &Key) -> (r: Result<
    (u64, u64, u64, u64),
    IndrasError,
>)
    ensures
        match tally_totals(processed(accounts@), *idea_key, idea_id, *program_id) {
            Ok((yes, no, abstain, total, _)) => r == Ok::<(u64, u64, u64, u64), IndrasError>(
                (yes as u64, no as u64, abstain as u64, total as u64),
            ) && yes + no + abstain == total && 0 <= yes && 0 <= no && 0 <= abstain && total <= u64::MAX,
            Err(e) => r == Err::<(u64, u64, u64, u64), IndrasError>(e),
        },
{
    let n = if accounts.len() > MAX_VOTES_TO_PROCESS {
        MAX_VOTES_TO_PROCESS
    } else {
        accounts.len()
    };
    let ghost todo = processed(accounts@);
    assert(todo.len() == n);
    let mut yes: u64 = 0;
    let mut no: u64 = 0;
    let mut abstain: u64 = 0;
    let mut total: u64 = 0;
    let mut seen: Vec<Key> = Vec::new();
    let mut i: usize = 0;
    while i < n
        invariant
            n <= accounts@.len(),
            todo == processed(accounts@),
            todo.len() == n,
            forall|j: int| 0 <= j < n ==> todo[j] == accounts@[j],
            i <= n,
            tally_totals(todo.take(i as int), *idea_key, idea_id, *program_id) == Ok::<Totals, IndrasError>(
                (yes as int, no as int, abstain as int, total as int, seen@),
            ),
            yes + no + abstain == total,
        decreases n - i,
    {
        let a = &accounts[i];
        let ghost prefix = todo.take(i as int);
        proof {
            assert(todo.take(i + 1).drop_last() =~= prefix);
            assert(todo.take(i + 1).last() == *a);
        }
        if a.data_len == 0 {
            i = i + 1;
            continue;
        }
        if !key_eq(&a.owner, program_id) {
            proof {
                lemma_tally_error_sticks(todo, i as int + 1, *idea_key, idea_id, *program_id);
            }
            return Err(IndrasError::InvalidProgram);
        }
        if contains_key(&seen, &a.key) {
            proof {
                lemma_tally_error_sticks(todo, i as int + 1, *idea_key, idea_id, *program_id);
            }
            return Err(IndrasError::InvalidInput);
        }
        let v = match a.vote {
            Some(v) => v,
            None => {
                proof {
                    lemma_tally_error_sticks(todo, i as int + 1, *idea_key, idea_id, *program_id);
                }
                return Err(IndrasError::InvalidInput);
            },
        };
        let expected = find_vote_address(idea_key, &v.voter, program_id);
        let same = is_address(&a.key, &expected);
        if !same {
            proof {
                lemma_tally_error_sticks(todo, i as int + 1, *idea_key, idea_id, *program_id);
            }
            return Err(IndrasError::InvalidInput);
        }
        if v.idea_id != idea_id {
            proof {
                lemma_tally_error_sticks(todo, i as int + 1, *idea_key, idea_id, *program_id);
            }
            return Err(IndrasError::InvalidInput);
        }
        let current = match v.vote_type {
            VoteType::Yes => yes,
            VoteType::No => no,
            VoteType::Abstain => abstain,
        };
        let updated = match current.checked_add(v.weight) {
            Some(x) => x,
            None => {
                proof {
                    lemma_tally_error_sticks(todo, i as int + 1, *idea_key, idea_id, *program_id);
                }
                return Err(IndrasError::Overflow);
            },
        };
        let new_total = match total.checked_add(v.weight) {
            Some(x) => x,
            None => {
                proof {
                    lemma_tally_error_sticks(todo, i as int + 1, *idea_key, idea_id, *program_id);
                }
                return Err(IndrasError::Overflow);
            },
        };
        match v.vote_type {
            VoteType::Yes => {
                yes = updated;
            },
            VoteType::No => {
                no = updated;
            },
            VoteType::Abstain => {
                abstain = updated;
            },
        }
        total = new_total;
        seen.push(a.key);
        i = i + 1;
    }
    proof {
        assert(todo.take(n as int) =~= todo);
    }
    Ok((yes, no, abstain, total))
}

proof fn lemma_tally_error_sticks(s: Seq<VoteAccount>, k: int, idea_key: Key, idea_id: u64, program_id: Key)
    requires
        0 <= k <= s.len(),
        tally_totals(s.take(k), idea_key, idea_id, program_id) is Err,
    ensures
        tally_totals(s, idea_key, idea_id, program_id) == tally_totals(s.take(k), idea_key, idea_id, program_id),
    decreases s.len() - k,
{
    if k < s.len() {
        assert(s.take(k + 1).drop_last() =~= s.take(k));
        lemma_tally_error_sticks(s, k + 1, idea_key, idea_id, program_id);
    } else {
        assert(s.take(k) =~= s);
    }
}

/// Tallies the votes on an idea (the DAO authority tallies): the first 100
/// vote accounts are checked and added up, and the idea passes to
/// InProgress or is Rejected; a passing idea gets its anchor record unless
/// it already has one.
pub fn tally_idea_votes_handler(
    idea: &mut Idea,
    idea_key: &Key,
    anchor_record: &mut AnchorRecord,
    dao_config: &DaoConfig,
    tallyer: &Key,
    program_id: &Key,
    governance_params: Option<Option<GovernanceParams>>,
    vote_accounts: &Vec<VoteAccount>,
    now: i64,
    anchor_bump: u8,
    idea_id: u64,
) -> (r: Result<(), IndrasError>)
    ensures
        r == outcome(
            tally_idea_error(
                *old(idea),
                *idea_key,
                dao_config,
                *tallyer,
                *program_id,
                governance_params,
                vote_accounts@,
                idea_id,
            ),
        ),
        r is Err ==> *final(idea) == *old(idea) && *final(anchor_record) == *old(anchor_record),
        r is Ok ==> match tally_totals(processed(vote_accounts@), *idea_key, idea_id, *program_id) {
            Ok((yes, no, abstain, total, _)) => {
                let status = tally_status(yes, no, abstain, total, quorum_share(governance_params)->Ok_0);
                &&& *final(idea) == (Idea { status: status, ..*old(idea) })
                &&& if status == IdeaStatus::InProgress && old(anchor_record).idea_id == 0 {
                    &&& final(anchor_record).idea_id == idea_id
                    &&& final(anchor_record).anchor_data@ == passed_text(idea_id, yes, no)
                    &&& final(anchor_record).anchored_at == now
                    &&& final(anchor_record).anchorer == *tallyer
                    &&& final(anchor_record).bump == anchor_bump
                } else {
                    *final(anchor_record) == *old(anchor_record)
                }
            },
            Err(_) => false,
        },
{
    if idea.id != idea_id {
        return Err(IndrasError::InvalidInput);
    }
    if idea.status != IdeaStatus::Voting {
        return Err(IndrasError::InvalidState);
    }
    if !key_eq(tallyer, &dao_config.authority) {
        return Err(IndrasError::Unauthorized);
    }
    let share: u32 = match governance_params {
        None => 20,
        Some(None) => {
            return Err(IndrasError::InvalidInput);
        },
        Some(Some(p)) => p.quorum_percentage as u32,
    };
    let (yes, no, abstain, total) = count_idea_votes(vote_accounts, idea_key, idea_id, program_id)?;
    assert(share <= 255);
    assert((total as int) * (share as int) <= 0xFFFF_FFFF_FFFF_FFFFint * 255) by (nonlinear_arith)
        requires
            share <= 255,
            total <= u64::MAX,
    ;
    let required = #[verifier::truncate] (((total as u128) * (share as u128) / 100) as u64);
    let participation = yes + no + abstain;
    if participation < required {
        idea.status = IdeaStatus::Rejected;
    } else if yes > no {
        idea.status = IdeaStatus::InProgress;
        if anchor_record.idea_id == 0 {
            anchor_record.idea_id = idea_id;
            anchor_record.anchor_data = passed_description(idea_id, yes, no);
            anchor_record.anchored_at = now;
            anchor_record.anchorer = *tallyer;
            anchor_record.bump = anchor_bump;
        }
    } else {
        idea.status = IdeaStatus::Rejected;
    }
    Ok(())
}

/// The checks on the phenomenon account handed to `start_idea_voting_handler`:
/// `None` when none is given, `Some(None)` when its data does not decode.
pub open spec fn start_phenomenon_error(phenomenon: Option<Option<&PhenomenonAccount>>) -> Option<IndrasError> {
    match phenomenon {
        None => None,
        Some(None) => Some(IndrasError::InvalidInput),
        Some(Some(p)) => if p.data_len != 0 && p.related_ideas@.len() == 0 {
            Some(IndrasError::IdeaNotInPhenomenon)
        } else {
            None
        },
    }
}

/// The first failing check of `start_idea_voting_handler`.
pub open spec fn start_voting_error(
    idea: Idea,
    g: MeshGroup,
    phenomenon: Option<Option<&PhenomenonAccount>>,
    idea_id: u64,
) -> Option<IndrasError> {
    if idea.id != idea_id {
        Some(IndrasError::InvalidInput)
    } else if idea.status != IdeaStatus::Approved {
        Some(IndrasError::InvalidState)
    } else if !g.ideas@.contains(idea_id) {
        Some(IndrasError::IdeaNotInMeshGroup)
    } else if g.phenomena@.len() == 0 {
        Some(IndrasError::NotInPhenomenon)
    } else {
        start_phenomenon_error(phenomenon)
    }
}

/// Opens the vote on an Approved idea of a mesh group that belongs to a
/// phenomenon (a given phenomenon must relate at least one idea).
pub fn start_idea_voting_handler(
    idea: &mut Idea,
    mesh_group: &MeshGroup,
    phenomenon: Option<Option<&PhenomenonAccount>>,
    idea_id: u64,
) -> (r: Result<(), IndrasError>)
    ensures
        r == outcome(start_voting_error(*old(idea), *mesh_group, phenomenon, idea_id)),
        r is Err ==> *final(idea) == *old(idea),
        r is Ok ==> *final(idea) == (Idea { status: IdeaStatus::Voting, ..*old(idea) }),
{
    if idea.id != idea_id {
        return Err(IndrasError::InvalidInput);
    }
    if idea.status != IdeaStatus::Approved {
        return Err(IndrasError::InvalidState);
    }
    if !contains_id(&mesh_group.ideas, idea_id) {
        return Err(IndrasError::IdeaNotInMeshGroup);
    }
    if mesh_group.phenomena.len() == 0 {
        return Err(IndrasError::NotInPhenomenon);
    }
    match phenomenon {
        None => {},
        Some(None) => {
            return Err(IndrasError::InvalidInput);
        },
        Some(Some(p)) => {
            if p.data_len != 0 && p.related_ideas.len() == 0 {
                return Err(IndrasError::IdeaNotInPhenomenon);
            }
        },
    }
    idea.status = IdeaStatus::Voting;
    Ok(())
}

/// The weight of the votes of one kind among the accounts: each non-empty
/// account holding a vote of that kind adds that vote's weight.
pub open spec fn kind_weight(accounts: Seq<VoteAccount>, kind: VoteType) -> int
    decreases accounts.len(),
{
    if accounts.len() == 0 {
        0
    } else {
        let a = accounts.last();
        kind_weight(accounts.drop_last(), kind) + if a.data_len != 0 && a.vote is Some && a.vote->0.vote_type
            == kind {
            a.vote->0.weight as int
        } else {
            0
        }
    }
}

/// A tally that goes through adds up each kind on its own: its yes total is
/// the weight of the Yes votes, its no total the weight of the No votes and
/// its abstain total the weight of the Abstain votes, and the total is their
/// sum. So an Abstain vote never moves the yes or no totals.
pub proof fn tally_sums_each_kind(accounts: Seq<VoteAccount>, idea_key: Key, idea_id: u64, program_id: Key)
    ensures
        tally_totals(accounts, idea_key, idea_id, program_id) matches Ok((yes, no, abstain, total, _)) ==> {
            &&& yes == kind_weight(accounts, VoteType::Yes)
            &&& no == kind_weight(accounts, VoteType::No)
            &&& abstain == kind_weight(accounts, VoteType::Abstain)
            &&& total == yes + no + abstain
        },
    decreases accounts.len(),
{
    if accounts.len() > 0 {
        tally_sums_each_kind(accounts.drop_last(), idea_key, idea_id, program_id);
    }
}

/// With a quorum share of at most 100 percent every counted vote takes part
/// in the quorum, so the quorum is met and an idea passes exactly when its
/// yes weight exceeds its no weight (a tie rejects it).
pub proof fn tally_passes_iff_yes_outweighs_no(yes: int, no: int, abstain: int, total: int, share: int)
    requires
        0 <= yes,
        0 <= no,
        0 <= abstain,
        yes + no + abstain == total,
        total <= u64::MAX,
        0 <= share <= 100,
    ensures
        tally_status(yes, no, abstain, total, share) == (if yes > no {
            IdeaStatus::InProgress
        } else {
            IdeaStatus::Rejected
        }),
{
    assert((total * share) / 100 <= total) by (nonlinear_arith)
        requires
            0 <= total,
            0 <= share <= 100,
    ;
    assert(0 <= (total * share) / 100) by (nonlinear_arith)
        requires
            0 <= total,
            0 <= share,
    ;
}

} // verus!
