use crate::access::{outcome, DaoConfig, MemberRole};
use crate::role_permissions::{CAN_PROPOSE};
use crate::error::IndrasError;
use crate::idea::Idea;
use crate::keys::{key_eq, Key};
use crate::render::{append_str, decimal_text, u64_text};
use crate::text::{byte_len, byte_prefix, byte_prefix_of, chars_of, is_char_cut, is_empty_text, string_from_chars, utf8_len};
use vstd::prelude::*;

verus! {

/// The life-cycle state of a proposal.
#[derive(Clone, Copy, Debug, PartialEq, Eq, Structural)]
pub enum ProposalStatus {
    Draft,
    Active,
    Passed,
    Rejected,
    Cancelled,
    Executed,
    Expired,
    Archived,
}

/// A governance proposal.
#[derive(Debug)]
pub struct Proposal {
    pub id: u64,
    pub title: String,
    pub description: String,
    pub proposal_type: String,
    pub author: Key,
    pub created_at: i64,
    pub updated_at: Option<i64>,
    pub submitted_at: Option<i64>,
    pub cancelled_at: Option<i64>,
    pub executed_at: Option<i64>,
    pub archived_at: Option<i64>,
    pub voting_duration: i64,
    pub status: ProposalStatus,
    pub bump: u8,
    pub yes_votes: u64,
    pub no_votes: u64,
    pub total_votes: u64,
    pub last_tallied_at: Option<i64>,
    pub cancellation_reason: Option<String>,
    pub execution_data: Option<String>,
    pub expires_at: Option<i64>,
    pub idea_id: Option<u64>,
    pub treasury_operation: Option<u64>,
}

/// An amendment to a Draft proposal.
#[derive(Debug)]
pub struct ProposalAmendment {
    pub amendment_id: u64,
    pub proposal_id: u64,
    pub author: Key,
    pub content: String,
    pub created_at: i64,
    pub bump: u8,
}

/// Voting period of a proposal unless one is given: 7 days.
pub const DEFAULT_VOTING_DURATION: i64 = 604800;

/// Whether a proposal may move from one status to another: a Draft is
/// activated or cancelled, an Active proposal passes, is rejected or is
/// cancelled, a finished one is archived. Nothing leaves Archived.
pub open spec fn allowed_transition(from: ProposalStatus, to: ProposalStatus) -> bool {
    match from {
        ProposalStatus::Draft => to == ProposalStatus::Active || to == ProposalStatus::Cancelled,
        ProposalStatus::Active => to == ProposalStatus::Passed || to == ProposalStatus::Rejected || to
            == ProposalStatus::Cancelled,
        ProposalStatus::Archived => false,
        _ => to == ProposalStatus::Archived,
    }
}

/// A proposal whose outcome is settled and may be archived.
pub open spec fn finished(s: ProposalStatus) -> bool {
    s == ProposalStatus::Passed || s == ProposalStatus::Rejected || s == ProposalStatus::Cancelled || s
        == ProposalStatus::Executed || s == ProposalStatus::Expired
}

fn is_finished(s: ProposalStatus) -> (b: bool)
    ensures
        b == finished(s),
{
    s == ProposalStatus::Passed || s == ProposalStatus::Rejected || s == ProposalStatus::Cancelled || s
        == ProposalStatus::Executed || s == ProposalStatus::Expired
}

/// Archived is final: no transition leaves it, and every status that may
/// be archived is one a proposal reaches only after Draft and Active.
pub proof fn archived_is_final(to: ProposalStatus)
    ensures
        !allowed_transition(ProposalStatus::Archived, to),
        allowed_transition(ProposalStatus::Draft, to) ==> to != ProposalStatus::Archived,
{
}

impl Proposal {
    /// Draft to Active, with a quorum of 1 to `total_members`.
    pub fn activate(&mut self, min_quorum: u64, total_members: u64, now: i64) -> (r: Result<(), IndrasError>)
        ensures
            r == outcome(
                if old(self).status != ProposalStatus::Draft {
                    Some(IndrasError::InvalidState)
                } else if min_quorum == 0 || min_quorum > total_members {
                    Some(IndrasError::InvalidInput)
                } else {
                    None
                },
            ),
            r is Err ==> *final(self) == *old(self),
            r is Ok ==> *final(self) == (Proposal {
                status: ProposalStatus::Active,
                submitted_at: Some(now),
                updated_at: Some(now),
                ..*old(self)
            }),
    {
        if self.status != ProposalStatus::Draft {
            return Err(IndrasError::InvalidState);
        }
        if min_quorum == 0 || min_quorum > total_members {
            return Err(IndrasError::InvalidInput);
        }
        self.status = ProposalStatus::Active;
        self.submitted_at = Some(now);
        self.updated_at = Some(now);
        Ok(())
    }

    /// Active to Passed.
    pub fn pass(&mut self, now: i64) -> (r: Result<(), IndrasError>)
        ensures
            r == outcome(if old(self).status != ProposalStatus::Active { Some(IndrasError::InvalidState) } else { None }),
            r is Err ==> *final(self) == *old(self),
            r is Ok ==> *final(self) == (Proposal { status: ProposalStatus::Passed, updated_at: Some(now), ..*old(self) }),
    {
        if self.status != ProposalStatus::Active {
            return Err(IndrasError::InvalidState);
        }
        self.status = ProposalStatus::Passed;
        self.updated_at = Some(now);
        Ok(())
    }

    /// Active to Rejected.
    pub fn reject(&mut self, now: i64) -> (r: Result<(), IndrasError>)
        ensures
            r == outcome(if old(self).status != ProposalStatus::Active { Some(IndrasError::InvalidState) } else { None }),
            r is Err ==> *final(self) == *old(self),
            r is Ok ==> *final(self) == (Proposal { status: ProposalStatus::Rejected, updated_at: Some(now), ..*old(self) }),
    {
        if self.status != ProposalStatus::Active {
            return Err(IndrasError::InvalidState);
        }
        self.status = ProposalStatus::Rejected;
        self.updated_at = Some(now);
        Ok(())
    }

    /// A Draft or Active proposal is cancelled, with a reason of 1 to 500 bytes.
    pub fn cancel(&mut self, reason: String, now: i64) -> (r: Result<(), IndrasError>)
        ensures
            r == outcome(cancel_error(*old(self), reason@)),
            r is Err ==> *final(self) == *old(self),
            r is Ok ==> *final(self) == (Proposal {
                status: ProposalStatus::Cancelled,
                cancelled_at: Some(now),
                updated_at: Some(now),
                cancellation_reason: Some(reason),
                ..*old(self)
            }),
    {
        if self.status != ProposalStatus::Draft && self.status != ProposalStatus::Active {
            return Err(IndrasError::InvalidState);
        }
        if is_empty_text(&reason) {
            return Err(IndrasError::InvalidInput);
        }
        if byte_len(&reason) > 500 {
            return Err(IndrasError::StringTooLong);
        }
        self.status = ProposalStatus::Cancelled;
        self.cancelled_at = Some(now);
        self.updated_at = Some(now);
        self.cancellation_reason = Some(reason);
        Ok(())
    }

    /// A finished proposal is archived.
    pub fn archive(&mut self, now: i64) -> (r: Result<(), IndrasError>)
        ensures
            r == outcome(if !finished(old(self).status) { Some(IndrasError::InvalidState) } else { None }),
            r is Err ==> *final(self) == *old(self),
            r is Ok ==> *final(self) == (Proposal { status: ProposalStatus::Archived, archived_at: Some(now), ..*old(self) }),
    {
        if !is_finished(self.status) {
            return Err(IndrasError::InvalidState);
        }
        self.status = ProposalStatus::Archived;
        self.archived_at = Some(now);
        Ok(())
    }

    /// Sets (or clears) the expiry of a Draft or Active proposal; an expiry
    /// must lie after `now`.
    pub fn set_expiration(&mut self, expires_at: Option<i64>, now: i64) -> (r: Result<(), IndrasError>)
        ensures
            r == outcome(
                if old(self).status != ProposalStatus::Draft && old(self).status != ProposalStatus::Active {
                    Some(IndrasError::InvalidState)
                } else if expires_at is Some && expires_at->0 <= now {
                    Some(IndrasError::InvalidInput)
                } else {
                    None
                },
            ),
            r is Err ==> *final(self) == *old(self),
            r is Ok ==> *final(self) == (Proposal { expires_at: expires_at, updated_at: Some(now), ..*old(self) }),
    {
        if self.status != ProposalStatus::Draft && self.status != ProposalStatus::Active {
            return Err(IndrasError::InvalidState);
        }
        if let Some(t) = expires_at {
            if t <= now {
                return Err(IndrasError::InvalidInput);
            }
        }
        self.expires_at = expires_at;
        self.updated_at = Some(now);
        Ok(())
    }

    /// Archives a finished proposal whose expiry has come; says whether it did.
    pub fn check_and_auto_archive(&mut self, now: i64) -> (archived: bool)
        ensures
            archived == (old(self).expires_at is Some && now >= old(self).expires_at->0 && finished(old(self).status)),
            archived ==> *final(self) == (Proposal { status: ProposalStatus::Archived, archived_at: Some(now), ..*old(self) }),
            !archived ==> *final(self) == *old(self),
    {
        match self.expires_at {
            Some(t) => {
                if now >= t && is_finished(self.status) {
                    self.status = ProposalStatus::Archived;
                    self.archived_at = Some(now);
                    true
                } else {
                    false
                }
            },
            None => false,
        }
    }

    /// Settles an Active proposal once its voting period is over: Passed
    /// when yes outweighs no, else Rejected; says whether it did.
    pub fn auto_transition_after_voting(&mut self, now: i64) -> (moved: bool)
        ensures
            moved == voting_over(*old(self), now),
            moved ==> *final(self) == (Proposal {
                status: if old(self).yes_votes > old(self).no_votes {
                    ProposalStatus::Passed
                } else {
                    ProposalStatus::Rejected
                },
                last_tallied_at: Some(now),
                updated_at: Some(now),
                ..*old(self)
            }),
            !moved ==> *final(self) == *old(self),
    {
        if self.status != ProposalStatus::Active {
            return false;
        }
        let start = match self.submitted_at {
            Some(s) => s,
            None => {
                return false;
            },
        };
        let end = match start.checked_add(self.voting_duration) {
            Some(e) => e,
            None => {
                return false;
            },
        };
        if now < end {
            return false;
        }
        self.status = if self.yes_votes > self.no_votes {
            ProposalStatus::Passed
        } else {
            ProposalStatus::Rejected
        };
        self.last_tallied_at = Some(now);
        self.updated_at = Some(now);
        true
    }
}

/// The first failing check of `Proposal::cancel`.
pub open spec fn cancel_error(p: Proposal, reason: Seq<char>) -> Option<IndrasError> {
    if p.status != ProposalStatus::Draft && p.status != ProposalStatus::Active {
        Some(IndrasError::InvalidState)
    } else if reason.len() == 0 {
        Some(IndrasError::InvalidInput)
    } else if utf8_len(reason) > 500 {
        Some(IndrasError::StringTooLong)
    } else {
        None
    }
}

/// The voting period of an Active proposal is over at `now`.
pub open spec fn voting_over(p: Proposal, now: i64) -> bool {
    &&& p.status == ProposalStatus::Active
    &&& p.submitted_at is Some
    &&& i64::MIN <= p.submitted_at->0 + p.voting_duration <= i64::MAX
    &&& now >= p.submitted_at->0 + p.voting_duration
}

/// A role, where one is supplied, must grant the permission to propose.
pub open spec fn role_may_propose(role: Option<MemberRole>) -> bool {
    match role {
        Some(r) => r.grants(CAN_PROPOSE),
        None => true,
    }
}

/// The checks on a proposal's texts: a title of 1 to 200 bytes, a
/// description of 1 to 2000, a type of 1 to 50.
pub open spec fn proposal_text_error(title: Seq<char>, description: Seq<char>, proposal_type: Seq<char>) -> Option<IndrasError> {
    if title.len() == 0 || utf8_len(title) > 200 || description.len() == 0 || utf8_len(description) > 2000
        || proposal_type.len() == 0 || utf8_len(proposal_type) > 50 {
        Some(IndrasError::InvalidInput)
    } else {
        None
    }
}

/// What a new Draft proposal holds.
pub open spec fn drafted(
    p: Proposal,
    id: u64,
    title: String,
    description: String,
    author: Key,
    now: i64,
    voting_duration: Option<i64>,
    idea_id: Option<u64>,
    bump: u8,
) -> bool {
    &&& p.id == id && p.title == title && p.description == description && p.author == author
    &&& p.created_at == now && p.updated_at is None && p.submitted_at is None && p.cancelled_at is None
    &&& p.executed_at is None && p.archived_at is None
    &&& p.voting_duration == match voting_duration {
        Some(d) => d,
        None => DEFAULT_VOTING_DURATION,
    }
    &&& p.status == ProposalStatus::Draft && p.bump == bump
    &&& p.yes_votes == 0 && p.no_votes == 0 && p.total_votes == 0 && p.last_tallied_at is None
    &&& p.cancellation_reason is None && p.execution_data is None && p.expires_at is None
    &&& p.idea_id == idea_id && p.treasury_operation is None
}

/// Creates a Draft proposal (a supplied role must grant the permission to propose).
pub fn create_proposal_handler(
    author: &Key,
    author_role: &Option<MemberRole>,
    now: i64,
    bump: u8,
    proposal_id: u64,
    title: String,
    description: String,
    proposal_type: String,
    voting_duration: Option<i64>,
) -> (r: Result<Proposal, IndrasError>)
    ensures
        r is Err <==> !role_may_propose(*author_role) || proposal_text_error(title@, description@, proposal_type@) is Some,
        r matches Err(e) ==> e == (if !role_may_propose(*author_role) {
            IndrasError::Unauthorized
        } else {
            IndrasError::InvalidInput
        }),
        r matches Ok(p) ==> drafted(p, proposal_id, title, description, *author, now, voting_duration, None, bump)
            && p.proposal_type == proposal_type,
{
    if let Some(role) = author_role {
        if !role.has_permission(CAN_PROPOSE) {
            return Err(IndrasError::Unauthorized);
        }
    }
    if is_empty_text(&title) || byte_len(&title) > 200 || is_empty_text(&description) || byte_len(&description)
        > 2000 || is_empty_text(&proposal_type) || byte_len(&proposal_type) > 50 {
        return Err(IndrasError::InvalidInput);
    }
    let duration = match voting_duration {
        Some(d) => d,
        None => DEFAULT_VOTING_DURATION,
    };
    Ok(
        Proposal {
            id: proposal_id,
            title: title,
            description: description,
            proposal_type: proposal_type,
            author: *author,
            created_at: now,
            updated_at: None,
            submitted_at: None,
            cancelled_at: None,
            executed_at: None,
            archived_at: None,
            voting_duration: duration,
            status: ProposalStatus::Draft,
            bump: bump,
            yes_votes: 0,
            no_votes: 0,
            total_votes: 0,
            last_tallied_at: None,
            cancellation_reason: None,
            execution_data: None,
            expires_at: None,
            idea_id: None,
            treasury_operation: None,
        },
    )
}

/// Activates a Draft proposal.
pub fn activate_proposal_handler(
    proposal: &mut Proposal,
    now: i64,
    proposal_id: u64,
    min_quorum: u64,
    total_members: u64,
) -> (r: Result<(), IndrasError>)
    ensures
        r == outcome(
            if old(proposal).id != proposal_id {
                Some(IndrasError::InvalidInput)
            } else if old(proposal).status != ProposalStatus::Draft {
                Some(IndrasError::InvalidState)
            } else if min_quorum == 0 || min_quorum > total_members {
                Some(IndrasError::InvalidInput)
            } else {
                None
            },
        ),
        r is Err ==> *final(proposal) == *old(proposal),
        r is Ok ==> *final(proposal) == (Proposal {
            status: ProposalStatus::Active,
            submitted_at: Some(now),
            updated_at: Some(now),
            ..*old(proposal)
        }) && allowed_transition(old(proposal).status, final(proposal).status),
{
    if proposal.id != proposal_id {
        return Err(IndrasError::InvalidInput);
    }
    proposal.activate(min_quorum, total_members, now)
}

/// Passes an Active proposal.
pub fn pass_proposal_handler(proposal: &mut Proposal, now: i64, proposal_id: u64) -> (r: Result<(), IndrasError>)
    ensures
        r == outcome(
            if old(proposal).id != proposal_id {
                Some(IndrasError::InvalidInput)
            } else if old(proposal).status != ProposalStatus::Active {
                Some(IndrasError::InvalidState)
            } else {
                None
            },
        ),
        r is Err ==> *final(proposal) == *old(proposal),
        r is Ok ==> *final(proposal) == (Proposal { status: ProposalStatus::Passed, updated_at: Some(now), ..*old(proposal) })
            && allowed_transition(old(proposal).status, final(proposal).status),
{
    if proposal.id != proposal_id {
        return Err(IndrasError::InvalidInput);
    }
    proposal.pass(now)
}

/// Rejects an Active proposal.
pub fn reject_proposal_handler(proposal: &mut Proposal, now: i64, proposal_id: u64) -> (r: Result<(), IndrasError>)
    ensures
        r == outcome(
            if old(proposal).id != proposal_id {
                Some(IndrasError::InvalidInput)
            } else if old(proposal).status != ProposalStatus::Active {
                Some(IndrasError::InvalidState)
            } else {
                None
            },
        ),
        r is Err ==> *final(proposal) == *old(proposal),
        r is Ok ==> *final(proposal) == (Proposal { status: ProposalStatus::Rejected, updated_at: Some(now), ..*old(proposal) })
            && allowed_transition(old(proposal).status, final(proposal).status),
{
    if proposal.id != proposal_id {
        return Err(IndrasError::InvalidInput);
    }
    proposal.reject(now)
}

/// Cancels a Draft or Active proposal.
pub fn cancel_proposal_handler(proposal: &mut Proposal, now: i64, proposal_id: u64, reason: String) -> (r: Result<
    (),
    IndrasError,
>)
    ensures
        r == outcome(
            if old(proposal).id != proposal_id {
                Some(IndrasError::InvalidInput)
            } else {
                cancel_error(*old(proposal), reason@)
            },
        ),
        r is Err ==> *final(proposal) == *old(proposal),
        r is Ok ==> *final(proposal) == (Proposal {
            status: ProposalStatus::Cancelled,
            cancelled_at: Some(now),
            updated_at: Some(now),
            cancellation_reason: Some(reason),
            ..*old(proposal)
        }) && allowed_transition(old(proposal).status, final(proposal).status),
{
    if proposal.id != proposal_id {
        return Err(IndrasError::InvalidInput);
    }
    proposal.cancel(reason, now)
}

/// Archives a finished proposal.
pub fn archive_proposal_handler(proposal: &mut Proposal, now: i64, proposal_id: u64) -> (r: Result<(), IndrasError>)
    ensures
        r == outcome(
            if old(proposal).id != proposal_id {
                Some(IndrasError::InvalidInput)
            } else if !finished(old(proposal).status) {
                Some(IndrasError::InvalidState)
            } else {
                None
            },
        ),
        r is Err ==> *final(proposal) == *old(proposal),
        r is Ok ==> *final(proposal) == (Proposal { status: ProposalStatus::Archived, archived_at: Some(now), ..*old(proposal) })
            && allowed_transition(old(proposal).status, final(proposal).status),
{
    if proposal.id != proposal_id {
        return Err(IndrasError::InvalidInput);
    }
    proposal.archive(now)
}

/// The author or the DAO authority sets a proposal's expiry.
pub fn set_proposal_expiration_handler(
    proposal: &mut Proposal,
    caller: &Key,
    dao_config: &DaoConfig,
    now: i64,
    proposal_id: u64,
    expires_at: Option<i64>,
) -> (r: Result<(), IndrasError>)
    ensures
        r == outcome(
            if old(proposal).id != proposal_id {
                Some(IndrasError::InvalidInput)
            } else if *caller != old(proposal).author && *caller != dao_config.authority {
                Some(IndrasError::Unauthorized)
            } else if old(proposal).status != ProposalStatus::Draft && old(proposal).status != ProposalStatus::Active {
                Some(IndrasError::InvalidState)
            } else if expires_at is Some && expires_at->0 <= now {
                Some(IndrasError::InvalidInput)
            } else {
                None
            },
        ),
        r is Err ==> *final(proposal) == *old(proposal),
        r is Ok ==> *final(proposal) == (Proposal { expires_at: expires_at, updated_at: Some(now), ..*old(proposal) }),
{
    if proposal.id != proposal_id {
        return Err(IndrasError::InvalidInput);
    }
    if !key_eq(caller, &proposal.author) && !key_eq(caller, &dao_config.authority) {
        return Err(IndrasError::Unauthorized);
    }
    proposal.set_expiration(expires_at, now)
}

/// Archives a finished proposal whose expiry has come; returns whether it did.
pub fn check_and_auto_archive_proposal_handler(proposal: &mut Proposal, now: i64, proposal_id: u64) -> (r: Result<
    bool,
    IndrasError,
>)
    ensures
        r is Err <==> old(proposal).id != proposal_id,
        r is Err ==> r == Err::<bool, IndrasError>(IndrasError::InvalidInput) && *final(proposal) == *old(proposal),
        r matches Ok(archived) ==> archived == (old(proposal).expires_at is Some && now >= old(proposal).expires_at->0
            && finished(old(proposal).status)) && (archived ==> *final(proposal) == (Proposal {
            status: ProposalStatus::Archived,
            archived_at: Some(now),
            ..*old(proposal)
        }) && allowed_transition(old(proposal).status, final(proposal).status)) && (!archived ==> *final(proposal)
            == *old(proposal)),
{
    if proposal.id != proposal_id {
        return Err(IndrasError::InvalidInput);
    }
    Ok(proposal.check_and_auto_archive(now))
}

/// Settles an Active proposal whose voting period is over; returns whether it did.
pub fn auto_transition_proposal_handler(proposal: &mut Proposal, now: i64, proposal_id: u64) -> (r: Result<
    bool,
    IndrasError,
>)
    ensures
        r is Err <==> old(proposal).id != proposal_id,
        r is Err ==> r == Err::<bool, IndrasError>(IndrasError::InvalidInput) && *final(proposal) == *old(proposal),
        r matches Ok(moved) ==> moved == voting_over(*old(proposal), now) && (moved ==> *final(proposal) == (Proposal {
            status: if old(proposal).yes_votes > old(proposal).no_votes {
                ProposalStatus::Passed
            } else {
                ProposalStatus::Rejected
            },
            last_tallied_at: Some(now),
            updated_at: Some(now),
            ..*old(proposal)
        }) && allowed_transition(old(proposal).status, final(proposal).status)) && (!moved ==> *final(proposal)
            == *old(proposal)),
{
    if proposal.id != proposal_id {
        return Err(IndrasError::InvalidInput);
    }
    Ok(proposal.auto_transition_after_voting(now))
}

impl ProposalAmendment {
    /// An amendment with content of 1 to 2000 bytes.
    pub fn new_with_time(
        amendment_id: u64,
        proposal_id: u64,
        author: Key,
        content: String,
        bump: u8,
        now: i64,
    ) -> (r: Result<ProposalAmendment, IndrasError>)
        ensures
            r is Err <==> content@.len() == 0 || utf8_len(content@) > 2000,
            r is Err ==> r == Err::<ProposalAmendment, IndrasError>(IndrasError::InvalidInput),
            r matches Ok(a) ==> a == (ProposalAmendment {
                amendment_id: amendment_id,
                proposal_id: proposal_id,
                author: author,
                content: content,
                created_at: now,
                bump: bump,
            }),
    {
        if is_empty_text(&content) || byte_len(&content) > 2000 {
            return Err(IndrasError::InvalidInput);
        }
        Ok(
            ProposalAmendment {
                amendment_id: amendment_id,
                proposal_id: proposal_id,
                author: author,
                content: content,
                created_at: now,
                bump: bump,
            },
        )
    }
}

/// The author of a Draft proposal amends it.
pub fn amend_proposal_handler(
    proposal: &Proposal,
    author: &Key,
    now: i64,
    bump: u8,
    proposal_id: u64,
    amendment_id: u64,
    content: String,
) -> (r: Result<ProposalAmendment, IndrasError>)
    ensures
        r is Err <==> proposal.id != proposal_id || proposal.status != ProposalStatus::Draft || *author
            != proposal.author || content@.len() == 0 || utf8_len(content@) > 2000,
        r matches Err(e) ==> e == (if proposal.id != proposal_id {
            IndrasError::InvalidInput
        } else if proposal.status != ProposalStatus::Draft {
            IndrasError::InvalidState
        } else if *author != proposal.author {
            IndrasError::Unauthorized
        } else {
            IndrasError::InvalidInput
        }),
        r matches Ok(a) ==> a == (ProposalAmendment {
            amendment_id: amendment_id,
            proposal_id: proposal_id,
            author: *author,
            content: content,
            created_at: now,
            bump: bump,
        }),
{
    if proposal.id != proposal_id {
        return Err(IndrasError::InvalidInput);
    }
    if proposal.status != ProposalStatus::Draft {
        return Err(IndrasError::InvalidState);
    }
    if !key_eq(author, &proposal.author) {
        return Err(IndrasError::Unauthorized);
    }
    ProposalAmendment::new_with_time(amendment_id, proposal_id, *author, content, bump, now)
}

/// The title of a proposal made from an idea: the given one, else the
/// idea's title when it has at most 200 bytes, else its first 197 bytes
/// followed by `...`.
pub open spec fn title_from_idea(given: Option<String>, t: Seq<char>) -> Seq<char> {
    match given {
        Some(g) => g@,
        None => if utf8_len(t) <= 200 {
            t
        } else {
            byte_prefix_of(t, 197) + "..."@
        },
    }
}

/// The description of a proposal made from an idea: the given one, else
/// the idea's description when it has at most 2000 bytes, else its first
/// 1990 bytes, `...`, a blank line and a note naming the idea.
pub open spec fn description_from_idea(given: Option<String>, d: Seq<char>, idea_id: u64) -> Seq<char> {
    match given {
        Some(g) => g@,
        None => if utf8_len(d) <= 2000 {
            d
        } else {
            byte_prefix_of(d, 1990) + "...\n\n(Converted from Idea "@ + decimal_text(idea_id as int) + ")"@
        },
    }
}

/// The checks on the texts of a proposal made from an idea: a title of 1 to
/// 200 bytes and a description of 1 to 2000.
pub open spec fn conversion_text_error(title: Seq<char>, description: Seq<char>) -> Option<IndrasError> {
    if title.len() == 0 || utf8_len(title) > 200 || description.len() == 0 || utf8_len(description) > 2000 {
        Some(IndrasError::InvalidInput)
    } else {
        None
    }
}

/// The checks of `convert_idea_to_proposal_handler` before the texts are chosen.
pub open spec fn convert_access_error(idea: Idea, author: Key, role: Option<MemberRole>, authority: Key, idea_id: u64) -> Option<IndrasError> {
    if idea.id != idea_id {
        Some(IndrasError::InvalidInput)
    } else if !role_may_propose(role) {
        Some(IndrasError::Unauthorized)
    } else if author != idea.author && author != authority {
        Some(IndrasError::Unauthorized)
    } else {
        None
    }
}

fn shortened(text: &String, keep: usize, tail: &str) -> (r: String)
    requires
        is_char_cut(text@, keep as int),
    ensures
        r@ == byte_prefix_of(text@, keep as int) + tail@,
{
    let chars = chars_of(text.as_str());
    match byte_prefix(&chars, keep) {
        Some(p) => {
            let mut v = p;
            append_str(&mut v, tail);
            string_from_chars(&v)
        },
        None => {
            proof {
                assert(false);
            }
            String::new()
        },
    }
}

/// Turns an idea into a Draft proposal of type `idea_conversion`, by its
/// author or the DAO authority (a supplied role must grant the permission
/// to propose). Titles and descriptions not given are taken from the idea.
pub fn convert_idea_to_proposal_handler(
    idea: &Idea,
    author: &Key,
    author_role: &Option<MemberRole>,
    dao_config: &DaoConfig,
    now: i64,
    bump: u8,
    idea_id: u64,
    proposal_id: u64,
    title: Option<String>,
    description: Option<String>,
    voting_duration: Option<i64>,
) -> (r: Result<Proposal, IndrasError>)
    requires
        convert_access_error(*idea, *author, *author_role, dao_config.authority, idea_id) is None ==> {
            &&& title is None && utf8_len(idea.title@) > 200 ==> is_char_cut(idea.title@, 197)
            &&& description is None && utf8_len(idea.description@) > 2000 ==> is_char_cut(idea.description@, 1990)
        },
    ensures
        ({
            let access = convert_access_error(*idea, *author, *author_role, dao_config.authority, idea_id);
            let t = title_from_idea(title, idea.title@);
            let d = description_from_idea(description, idea.description@, idea_id);
            let texts = conversion_text_error(t, d);
            &&& r is Err <==> access is Some || texts is Some
            &&& r is Err ==> r->Err_0 == (if access is Some { access->0 } else { texts->0 })
            &&& r matches Ok(p) ==> p.title@ == t && p.description@ == d && p.proposal_type@ == "idea_conversion"@
                && drafted(p, proposal_id, p.title, p.description, *author, now, voting_duration, Some(idea_id), bump)
        }),
{
    if idea.id != idea_id {
        return Err(IndrasError::InvalidInput);
    }
    if let Some(role) = author_role {
        if !role.has_permission(CAN_PROPOSE) {
            return Err(IndrasError::Unauthorized);
        }
    }
    if !key_eq(author, &idea.author) && !key_eq(author, &dao_config.authority) {
        return Err(IndrasError::Unauthorized);
    }
    let proposal_title = match title {
        Some(t) => t,
        None => {
            if byte_len(&idea.title) <= 200 {
                idea.title.clone()
            } else {
                shortened(&idea.title, 197, "...")
            }
        },
    };
    let proposal_description = match description {
        Some(d) => d,
        None => {
            if byte_len(&idea.description) <= 2000 {
                idea.description.clone()
            } else {
                let mut tail: Vec<char> = Vec::new();
                append_str(&mut tail, "...\n\n(Converted from Idea ");
                append_str(&mut tail, u64_text(idea_id).as_str());
                append_str(&mut tail, ")");
                let note = string_from_chars(&tail);
                shortened(&idea.description, 1990, note.as_str())
            }
        },
    };
    assert(proposal_title@ == title_from_idea(title, idea.title@));
    assert(proposal_description@ == description_from_idea(description, idea.description@, idea_id));
    if is_empty_text(&proposal_title) || byte_len(&proposal_title) > 200 || is_empty_text(&proposal_description)
        || byte_len(&proposal_description) > 2000 {
        return Err(IndrasError::InvalidInput);
    }
    let kind = "idea_conversion".to_owned();
    let duration = match voting_duration {
        Some(d) => d,
        None => DEFAULT_VOTING_DURATION,
    };
    Ok(
        Proposal {
            id: proposal_id,
            title: proposal_title,
            description: proposal_description,
            proposal_type: kind,
            author: *author,
            created_at: now,
            updated_at: None,
            submitted_at: None,
            cancelled_at: None,
            executed_at: None,
            archived_at: None,
            voting_duration: duration,
            status: ProposalStatus::Draft,
            bump: bump,
            yes_votes: 0,
            no_votes: 0,
            total_votes: 0,
            last_tallied_at: None,
            cancellation_reason: None,
            execution_data: None,
            expires_at: None,
            idea_id: Some(idea_id),
            treasury_operation: None,
        },
    )
}

} // verus!
