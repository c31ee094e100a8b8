use crate::access::{outcome, MemberRole};
use crate::role_permissions::{CAN_MANAGE_MESH_GROUPS};
use crate::error::IndrasError;
use crate::keys::{key_eq, Key};
use crate::member::Member;
use vstd::prelude::*;

verus! {

/// The life-cycle state of a mesh group.
#[derive(Clone, Copy, Debug, PartialEq, Eq, Structural)]
pub enum GroupStatus {
    Forming,
    Active,
    Paused,
    Completed,
    Disbanded,
}

/// What a mesh group works on.
#[derive(Clone, Copy, Debug, PartialEq, Eq, Structural)]
pub enum GroupType {
    Research,
    Development,
    Community,
}

/// A member's role inside a mesh group.
#[derive(Clone, Copy, Debug, PartialEq, Eq, Structural)]
pub enum GroupRole {
    Leader,
    Member,
}

/// How far a mesh group's work has come.
#[derive(Clone, Copy, Debug, PartialEq, Eq, Structural)]
pub enum DevelopmentStage {
    Planning,
    InitialDevelopment,
    CoreDevelopment,
    Finalization,
    Completed,
}

/// How often a mesh group meets.
#[derive(Clone, Copy, Debug, PartialEq, Eq, Structural)]
pub enum MeetingFrequency {
    Daily,
    Weekly,
    BiWeekly,
    Monthly,
}

/// Actions inside a mesh group that need the leader.
#[derive(Clone, Copy, Debug, PartialEq, Eq, Structural)]
pub enum MeshGroupPermission {
    AddMember,
    RemoveMember,
}

/// How a mesh group operates.
#[derive(Clone, Copy, Debug, PartialEq, Eq, Structural)]
pub struct OperatingProtocol {
    pub meeting_frequency: MeetingFrequency,
    pub decision_quorum: u8,
    pub contribution_threshold: u32,
    pub inactivity_timeout_days: u16,
}

impl OperatingProtocol {
    pub open spec fn spec_default() -> OperatingProtocol {
        OperatingProtocol {
            meeting_frequency: MeetingFrequency::Weekly,
            decision_quorum: 51,
            contribution_threshold: 1,
            inactivity_timeout_days: 30,
        }
    }

    /// The protocol of a new group: weekly meetings, 51% quorum, one
    /// contribution, 30 days of inactivity allowed.
    pub fn new_default() -> (p: OperatingProtocol)
        ensures
            p == OperatingProtocol::spec_default(),
    {
        OperatingProtocol {
            meeting_frequency: MeetingFrequency::Weekly,
            decision_quorum: 51,
            contribution_threshold: 1,
            inactivity_timeout_days: 30,
        }
    }
}

/// One member of a mesh group.
#[derive(Clone, Copy, Debug)]
pub struct GroupMember {
    pub pubkey: Key,
    pub role: GroupRole,
    pub joined_at: i64,
    pub contributions: u64,
    pub reputation: u64,
    pub is_active: bool,
}

/// A mesh group: up to seven people working on ideas.
#[derive(Debug)]
pub struct MeshGroup {
    pub id: u64,
    pub name: String,
    pub description: String,
    pub group_type: GroupType,
    pub status: GroupStatus,
    pub leader: Key,
    pub created_by: Key,
    pub created_at: i64,
    pub members: Vec<GroupMember>,
    pub ideas: Vec<u64>,
    pub grants: Vec<u64>,
    pub phenomena: Vec<Key>,
    pub max_members: u8,
    pub min_members: u8,
    pub parent_group: Option<Key>,
    pub supporting_groups: Vec<Key>,
    pub stage_deadline: Option<i64>,
    pub current_stage: DevelopmentStage,
    pub started_at: Option<i64>,
    pub completed_at: Option<i64>,
    pub total_contributions: u64,
    pub total_reputation: u64,
    pub bump: u8,
    pub protocol: OperatingProtocol,
    pub last_meeting_at: Option<i64>,
    pub last_contribution_at: i64,
    pub last_member_added_at: Option<i64>,
    pub last_group_created_at: Option<i64>,
    pub member_reputation_required: u64,
    pub member_cooldown_days: u16,
    pub is_in_critical_moment: bool,
    pub critical_moment_until: Option<i64>,
    pub embedding_hash: Option<[u8; 32]>,
    pub embedding_signature: Option<[u8; 64]>,
    pub embedding_provider: Option<String>,
    pub embedding_model: Option<String>,
    pub embedding_model_version: Option<String>,
    pub embedding_created_at: Option<i64>,
    pub embedding_updated_at: Option<i64>,
    pub embedding_update_count: u32,
}

/// The first position of a member with this key, or -1.
pub open spec fn member_index(s: Seq<GroupMember>, k: Key) -> int
    decreases s.len(),
{
    if s.len() == 0 {
        -1
    } else {
        let p = member_index(s.drop_last(), k);
        if p >= 0 {
            p
        } else if s.last().pubkey == k {
            s.len() - 1
        } else {
            -1
        }
    }
}

pub proof fn lemma_member_index(s: Seq<GroupMember>, k: Key)
    ensures
        -1 <= member_index(s, k) < s.len(),
        member_index(s, k) >= 0 ==> s[member_index(s, k)].pubkey == k,
        member_index(s, k) >= 0 ==> forall|j: int| 0 <= j < member_index(s, k) ==> s[j].pubkey != k,
        member_index(s, k) == -1 <==> (forall|j: int| 0 <= j < s.len() ==> s[j].pubkey != k),
    decreases s.len(),
{
    if s.len() > 0 {
        lemma_member_index(s.drop_last(), k);
        let p = member_index(s.drop_last(), k);
        assert forall|j: int| 0 <= j < s.len() - 1 implies s.drop_last()[j] == s[j] by {}
        if p == -1 && s.last().pubkey != k {
            assert forall|j: int| 0 <= j < s.len() implies s[j].pubkey != k by {
                if j < s.len() - 1 {
                    assert(s.drop_last()[j] == s[j]);
                }
            }
        }
    }
}

proof fn lemma_member_index_prefix(s: Seq<GroupMember>, k: Key, n: int)
    requires
        0 <= n <= s.len(),
        member_index(s.take(n), k) >= 0,
    ensures
        member_index(s, k) == member_index(s.take(n), k),
    decreases s.len() - n,
{
    if n < s.len() {
        assert(s.take(n + 1).drop_last() =~= s.take(n));
        lemma_member_index_prefix(s, k, n + 1);
    } else {
        assert(s.take(n) =~= s);
    }
}

/// Finds the position of the first member with this key.
pub fn find_member(members: &Vec<GroupMember>, k: &Key) -> (r: Option<usize>)
    ensures
        match r {
            Some(i) => i as int == member_index(members@, *k),
            None => member_index(members@, *k) == -1,
        },
{
    let mut i: usize = 0;
    while i < members.len()
        invariant
            i <= members@.len(),
            member_index(members@.take(i as int), *k) == -1,
        decreases members@.len() - i,
    {
        proof {
            assert(members@.take(i + 1).drop_last() =~= members@.take(i as int));
        }
        if key_eq(&members[i].pubkey, k) {
            proof {
                lemma_member_index_prefix(members@, *k, i as int + 1);
            }
            return Some(i);
        }
        i = i + 1;
    }
    proof {
        assert(members@.take(i as int) =~= members@);
    }
    None
}

/// Whether the sequence of ids holds `id`.
pub fn contains_id(ids: &Vec<u64>, id: u64) -> (b: bool)
    ensures
        b == ids@.contains(id),
{
    let mut i: usize = 0;
    while i < ids.len()
        invariant
            i <= ids@.len(),
            forall|j: int| 0 <= j < i ==> ids@[j] != id,
        decreases ids@.len() - i,
    {
        if ids[i] == id {
            assert(ids@[i as int] == id);
            return true;
        }
        i = i + 1;
    }
    false
}

/// The first position of `id`, if present.
pub fn index_of_id(ids: &Vec<u64>, id: u64) -> (r: Option<usize>)
    ensures
        match r {
            Some(i) => i < ids@.len() && ids@[i as int] == id && forall|j: int|
                0 <= j < i ==> ids@[j] != id,
            None => !ids@.contains(id),
        },
{
    let mut i: usize = 0;
    while i < ids.len()
        invariant
            i <= ids@.len(),
            forall|j: int| 0 <= j < i ==> ids@[j] != id,
        decreases ids@.len() - i,
    {
        if ids[i] == id {
            return Some(i);
        }
        i = i + 1;
    }
    None
}

/// The position of the first occurrence of `id` in `s`.
pub open spec fn id_index(s: Seq<u64>, id: u64) -> int {
    choose|i: int| 0 <= i < s.len() && s[i] == id && forall|j: int| 0 <= j < i ==> s[j] != id
}

pub proof fn lemma_id_index(s: Seq<u64>, id: u64, i: int)
    requires
        0 <= i < s.len(),
        s[i] == id,
        forall|j: int| 0 <= j < i ==> s[j] != id,
    ensures
        id_index(s, id) == i,
{
    let k = id_index(s, id);
    assert(0 <= k < s.len() && s[k] == id && forall|j: int| 0 <= j < k ==> s[j] != id);
    if k < i {
        assert(s[k] != id);
    }
    if i < k {
        assert(s[i] != id);
    }
}

/// No value occurs twice.
pub open spec fn distinct_ids(s: Seq<u64>) -> bool {
    forall|i: int, j: int| 0 <= i < j < s.len() ==> s[i] != s[j]
}

/// No key occurs twice among the members.
pub open spec fn distinct_members(s: Seq<GroupMember>) -> bool {
    forall|i: int, j: int| 0 <= i < j < s.len() ==> s[i].pubkey != s[j].pubkey
}

impl MeshGroup {
    /// The key belongs to a member.
    pub open spec fn has_member(self, k: Key) -> bool {
        exists|j: int| 0 <= j < self.members@.len() && #[trigger] self.members@[j].pubkey == k
    }

    /// What every mesh group keeps: no more members than its capacity, no
    /// member twice, the leader among the members, no idea twice and no grant twice.
    pub open spec fn wf(self) -> bool {
        &&& self.members@.len() <= self.max_members as int
        &&& distinct_members(self.members@)
        &&& self.has_member(self.leader)
        &&& distinct_ids(self.ideas@)
        &&& distinct_ids(self.grants@)
    }

    /// Whether the key belongs to a member.
    pub fn is_member(&self, k: &Key) -> (b: bool)
        ensures
            b == self.has_member(*k),
    {
        let r = find_member(&self.members, k);
        proof {
            lemma_member_index(self.members@, *k);
        }
        r.is_some()
    }

    /// Whether the group is Active.
    pub fn is_active(&self) -> (b: bool)
        ensures
            b == (self.status == GroupStatus::Active),
    {
        self.status == GroupStatus::Active
    }

    /// Only the leader holds the member-management permissions.
    pub fn has_permission(&self, caller: &Key, _permission: MeshGroupPermission) -> (b: bool)
        ensures
            b == (*caller == self.leader),
    {
        key_eq(caller, &self.leader)
    }
}

proof fn lemma_wf_frame(a: MeshGroup, b: MeshGroup)
    requires
        a.wf(),
        b.members@ == a.members@,
        b.max_members == a.max_members,
        b.leader == a.leader,
        b.ideas@ == a.ideas@,
        b.grants@ == a.grants@,
    ensures
        b.wf(),
{
    assert(b.has_member(b.leader)) by {
        let j = choose|j: int| 0 <= j < a.members@.len() && #[trigger] a.members@[j].pubkey == a.leader;
        assert(b.members@[j].pubkey == b.leader);
    }
}

// ---------------------------------------------------------------- simple transitions

/// The group with a new status and nothing else changed.
pub open spec fn with_group_status(g: MeshGroup, status: GroupStatus) -> MeshGroup {
    MeshGroup { status: status, ..g }
}

/// Whether the caller may manage the group: its leader, its creator, the DAO
/// authority, or a holder of a role that grants mesh-group management.
pub open spec fn may_manage(g: MeshGroup, manager: Key, authority: Key, role: Option<MemberRole>) -> bool {
    manager == g.leader || manager == g.created_by || manager == authority || (role is Some
        && role->0.grants(CAN_MANAGE_MESH_GROUPS))
}

/// Checks that the caller may manage the group.
pub fn check_manager(g: &MeshGroup, manager: &Key, authority: &Key, role: &Option<MemberRole>) -> (r: Result<
    (),
    IndrasError,
>)
    ensures
        r is Ok <==> may_manage(*g, *manager, *authority, *role),
        r is Err ==> r == Err::<(), IndrasError>(IndrasError::Unauthorized),
{
    if key_eq(manager, &g.leader) || key_eq(manager, &g.created_by) || key_eq(manager, authority) {
        return Ok(());
    }
    match role {
        Some(rl) => {
            if rl.has_permission(CAN_MANAGE_MESH_GROUPS) {
                Ok(())
            } else {
                Err(IndrasError::Unauthorized)
            }
        },
        None => Err(IndrasError::Unauthorized),
    }
}

/// The first failing check when moving the group from one state to another
/// by a manager.
pub open spec fn lifecycle_error(
    g: MeshGroup,
    manager: Key,
    authority: Key,
    role: Option<MemberRole>,
    from: GroupStatus,
) -> Option<IndrasError> {
    if !may_manage(g, manager, authority, role) {
        Some(IndrasError::Unauthorized)
    } else if g.status != from {
        Some(IndrasError::InvalidState)
    } else {
        None
    }
}

/// Starts a Forming group that has its minimum number of members.
pub fn start_mesh_group_handler(
    g: &mut MeshGroup,
    manager: &Key,
    dao_authority: &Key,
    manager_role: &Option<MemberRole>,
) -> (r: Result<(), IndrasError>)
    ensures
        r == outcome(
            if lifecycle_error(*old(g), *manager, *dao_authority, *manager_role, GroupStatus::Forming) is Some {
                lifecycle_error(*old(g), *manager, *dao_authority, *manager_role, GroupStatus::Forming)
            } else if old(g).members@.len() < old(g).min_members as int {
                Some(IndrasError::InsufficientMembers)
            } else {
                None
            },
        ),
        r is Ok ==> *final(g) == with_group_status(*old(g), GroupStatus::Active),
        r is Err ==> *final(g) == *old(g),
        old(g).wf() ==> final(g).wf(),
{
    check_manager(g, manager, dao_authority, manager_role)?;
    if g.status != GroupStatus::Forming {
        return Err(IndrasError::InvalidState);
    }
    if g.members.len() < g.min_members as usize {
        return Err(IndrasError::InsufficientMembers);
    }
    let ghost before = *g;
    g.status = GroupStatus::Active;
    proof {
        if before.wf() {
            lemma_wf_frame(before, *g);
        }
    }
    Ok(())
}

/// Pauses an Active group.
pub fn pause_mesh_group_handler(
    g: &mut MeshGroup,
    manager: &Key,
    dao_authority: &Key,
    manager_role: &Option<MemberRole>,
) -> (r: Result<(), IndrasError>)
    ensures
        r == outcome(lifecycle_error(*old(g), *manager, *dao_authority, *manager_role, GroupStatus::Active)),
        r is Ok ==> *final(g) == with_group_status(*old(g), GroupStatus::Paused),
        r is Err ==> *final(g) == *old(g),
        old(g).wf() ==> final(g).wf(),
{
    check_manager(g, manager, dao_authority, manager_role)?;
    if g.status != GroupStatus::Active {
        return Err(IndrasError::InvalidState);
    }
    let ghost before = *g;
    g.status = GroupStatus::Paused;
    proof {
        if before.wf() {
            lemma_wf_frame(before, *g);
        }
    }
    Ok(())
}

/// Resumes a Paused group.
pub fn resume_mesh_group_handler(
    g: &mut MeshGroup,
    manager: &Key,
    dao_authority: &Key,
    manager_role: &Option<MemberRole>,
) -> (r: Result<(), IndrasError>)
    ensures
        r == outcome(lifecycle_error(*old(g), *manager, *dao_authority, *manager_role, GroupStatus::Paused)),
        r is Ok ==> *final(g) == with_group_status(*old(g), GroupStatus::Active),
        r is Err ==> *final(g) == *old(g),
        old(g).wf() ==> final(g).wf(),
{
    check_manager(g, manager, dao_authority, manager_role)?;
    if g.status != GroupStatus::Paused {
        return Err(IndrasError::InvalidState);
    }
    let ghost before = *g;
    g.status = GroupStatus::Active;
    proof {
        if before.wf() {
            lemma_wf_frame(before, *g);
        }
    }
    Ok(())
}

/// Completes an Active group (its ideas are completed separately).
pub fn complete_mesh_group_handler(
    g: &mut MeshGroup,
    manager: &Key,
    dao_authority: &Key,
    manager_role: &Option<MemberRole>,
) -> (r: Result<(), IndrasError>)
    ensures
        r == outcome(lifecycle_error(*old(g), *manager, *dao_authority, *manager_role, GroupStatus::Active)),
        r is Ok ==> *final(g) == with_group_status(*old(g), GroupStatus::Completed),
        r is Err ==> *final(g) == *old(g),
        old(g).wf() ==> final(g).wf(),
{
    check_manager(g, manager, dao_authority, manager_role)?;
    if g.status != GroupStatus::Active {
        return Err(IndrasError::InvalidState);
    }
    let ghost before = *g;
    g.status = GroupStatus::Completed;
    proof {
        if before.wf() {
            lemma_wf_frame(before, *g);
        }
    }
    Ok(())
}

/// Disbands a group, whatever its state.
pub fn disband_mesh_group_handler(
    g: &mut MeshGroup,
    manager: &Key,
    dao_authority: &Key,
    manager_role: &Option<MemberRole>,
) -> (r: Result<(), IndrasError>)
    ensures
        r is Ok <==> may_manage(*old(g), *manager, *dao_authority, *manager_role),
        r is Err ==> r == Err::<(), IndrasError>(IndrasError::Unauthorized) && *final(g) == *old(g),
        r is Ok ==> *final(g) == with_group_status(*old(g), GroupStatus::Disbanded),
        old(g).wf() ==> final(g).wf(),
{
    check_manager(g, manager, dao_authority, manager_role)?;
    let ghost before = *g;
    g.status = GroupStatus::Disbanded;
    proof {
        if before.wf() {
            lemma_wf_frame(before, *g);
        }
    }
    Ok(())
}

/// Closes an Active or Completed group (it becomes Disbanded).
pub fn close_mesh_group_handler(
    g: &mut MeshGroup,
    closer: &Key,
    dao_authority: &Key,
    closer_role: &Option<MemberRole>,
) -> (r: Result<(), IndrasError>)
    ensures
        r == outcome(
            if !may_manage(*old(g), *closer, *dao_authority, *closer_role) {
                Some(IndrasError::Unauthorized)
            } else if old(g).status != GroupStatus::Active && old(g).status != GroupStatus::Completed {
                Some(IndrasError::InvalidState)
            } else {
                None
            },
        ),
        r is Ok ==> *final(g) == with_group_status(*old(g), GroupStatus::Disbanded),
        r is Err ==> *final(g) == *old(g),
        old(g).wf() ==> final(g).wf(),
{
    check_manager(g, closer, dao_authority, closer_role)?;
    if g.status != GroupStatus::Active && g.status != GroupStatus::Completed {
        return Err(IndrasError::InvalidState);
    }
    let ghost before = *g;
    g.status = GroupStatus::Disbanded;
    proof {
        if before.wf() {
            lemma_wf_frame(before, *g);
        }
    }
    Ok(())
}

/// Decides whether a group's account may be closed: the id must match and
/// the closer must be its leader, its creator or the DAO authority.
pub fn close_mesh_group_account_handler(
    g: &MeshGroup,
    closer: &Key,
    dao_authority: &Key,
    mesh_group_id: u64,
) -> (r: Result<(), IndrasError>)
    ensures
        r == outcome(
            if g.id != mesh_group_id {
                Some(IndrasError::InvalidInput)
            } else if g.leader != *closer && g.created_by != *closer && *dao_authority != *closer {
                Some(IndrasError::Unauthorized)
            } else {
                None
            },
        ),
{
    if g.id != mesh_group_id {
        return Err(IndrasError::InvalidInput);
    }
    if !key_eq(&g.leader, closer) && !key_eq(&g.created_by, closer) && !key_eq(dao_authority, closer) {
        return Err(IndrasError::Unauthorized);
    }
    Ok(())
}

/// Sets the development stage of an Active group; the caller must be allowed
/// to manage the group (its leader, its creator, the DAO authority, or a
/// holder of the manage-mesh-groups permission).
pub fn update_mesh_group_stage_handler(
    g: &mut MeshGroup,
    manager: &Key,
    dao_authority: &Key,
    manager_role: &Option<MemberRole>,
    new_stage: DevelopmentStage,
) -> (r: Result<(), IndrasError>)
    ensures
        r == outcome(
            if !may_manage(*old(g), *manager, *dao_authority, *manager_role) {
                Some(IndrasError::Unauthorized)
            } else if old(g).status != GroupStatus::Active {
                Some(IndrasError::InvalidState)
            } else {
                None
            },
        ),
        r is Ok ==> *final(g) == (MeshGroup { current_stage: new_stage, ..*old(g) }),
        r is Err ==> *final(g) == *old(g),
        old(g).wf() ==> final(g).wf(),
{
    check_manager(g, manager, dao_authority, manager_role)?;
    if g.status != GroupStatus::Active {
        return Err(IndrasError::InvalidState);
    }
    let ghost before = *g;
    g.current_stage = new_stage;
    proof {
        if before.wf() {
            lemma_wf_frame(before, *g);
        }
    }
    Ok(())
}

// ---------------------------------------------------------------- members

/// A fresh member record.
pub open spec fn new_member(k: Key, role: GroupRole, now: i64) -> GroupMember {
    GroupMember { pubkey: k, role: role, joined_at: now, contributions: 0, reputation: 0, is_active: true }
}

/// The group after `member` was added at `now`.
pub open spec fn member_added(old: MeshGroup, new: MeshGroup, member: GroupMember, now: i64) -> bool {
    &&& new.members@ == old.members@.push(member)
    &&& new == (MeshGroup {
        members: new.members,
        last_contribution_at: now,
        last_member_added_at: Some(now),
        ..old
    })
}

/// The first failing check of `MeshGroup::add_member`.
pub open spec fn add_member_error(g: MeshGroup, k: Key) -> Option<IndrasError> {
    if g.has_member(k) {
        Some(IndrasError::AlreadyMember)
    } else if g.members@.len() >= g.max_members as int {
        Some(IndrasError::GroupFull)
    } else {
        None
    }
}

/// The group after the member with key `k` was removed at `now`.
pub open spec fn member_removed(old: MeshGroup, new: MeshGroup, k: Key, now: i64) -> bool {
    &&& new.members@ == old.members@.remove(member_index(old.members@, k))
    &&& new == (MeshGroup { members: new.members, last_contribution_at: now, ..old })
}

/// The first failing check of `MeshGroup::remove_member`.
pub open spec fn remove_member_error(g: MeshGroup, k: Key) -> Option<IndrasError> {
    if k == g.leader {
        Some(IndrasError::CannotRemoveLeader)
    } else if !g.has_member(k) {
        Some(IndrasError::MemberNotFound)
    } else {
        None
    }
}

impl MeshGroup {
    /// Adds a member that is not yet in the group, if there is room.
    pub fn add_member(&mut self, member: GroupMember, now: i64) -> (r: Result<(), IndrasError>)
        ensures
            r == outcome(add_member_error(*old(self), member.pubkey)),
            r is Ok ==> member_added(*old(self), *final(self), member, now),
            r is Err ==> *final(self) == *old(self),
            old(self).wf() ==> final(self).wf(),
    {
        if self.is_member(&member.pubkey) {
            return Err(IndrasError::AlreadyMember);
        }
        if self.members.len() >= self.max_members as usize {
            return Err(IndrasError::GroupFull);
        }
        let ghost before = *self;
        self.members.push(member);
        self.last_contribution_at = now;
        self.last_member_added_at = Some(now);
        proof {
            if before.wf() {
                assert(self.members@.len() == before.members@.len() + 1);
                assert forall|i: int, j: int|
                    0 <= i < j < self.members@.len() implies self.members@[i].pubkey
                    != self.members@[j].pubkey by {
                    if j == self.members@.len() - 1 {
                        assert(self.members@[i] == before.members@[i]);
                    } else {
                        assert(self.members@[i] == before.members@[i]);
                        assert(self.members@[j] == before.members@[j]);
                    }
                }
                let l = choose|l: int|
                    0 <= l < before.members@.len() && #[trigger] before.members@[l].pubkey
                        == before.leader;
                assert(self.members@[l].pubkey == self.leader);
            }
        }
        Ok(())
    }

    /// Removes a member other than the leader.
    pub fn remove_member(&mut self, k: &Key, now: i64) -> (r: Result<(), IndrasError>)
        ensures
            r == outcome(remove_member_error(*old(self), *k)),
            r is Ok ==> member_removed(*old(self), *final(self), *k, now),
            r is Err ==> *final(self) == *old(self),
            old(self).wf() ==> final(self).wf(),
    {
        if key_eq(k, &self.leader) {
            return Err(IndrasError::CannotRemoveLeader);
        }
        proof {
            lemma_member_index(self.members@, *k);
        }
        let idx = match find_member(&self.members, k) {
            Some(i) => i,
            None => {
                return Err(IndrasError::MemberNotFound);
            },
        };
        let ghost before = *self;
        let _removed = self.members.remove(idx);
        self.last_contribution_at = now;
        proof {
            if before.wf() {
                let old_m = before.members@;
                let new_m = self.members@;
                assert(new_m =~= old_m.remove(idx as int));
                assert forall|i: int, j: int|
                    0 <= i < j < new_m.len() implies new_m[i].pubkey != new_m[j].pubkey by {
                    let oi = if i < idx { i } else { i + 1 };
                    let oj = if j < idx { j } else { j + 1 };
                    assert(new_m[i] == old_m[oi]);
                    assert(new_m[j] == old_m[oj]);
                }
                let l = choose|l: int|
                    0 <= l < old_m.len() && #[trigger] old_m[l].pubkey == before.leader;
                assert(l != idx);
                let nl = if l < idx { l } else { l - 1 };
                assert(new_m[nl] == old_m[l]);
                assert(self.has_member(self.leader));
            }
        }
        Ok(())
    }
}

/// The group after a join: the member is added and a Forming group that now
/// has its minimum becomes Active (with its start time set if unset).
pub open spec fn joined(old: MeshGroup, new: MeshGroup, member: GroupMember, now: i64) -> bool {
    let activates = old.status == GroupStatus::Forming && old.members@.len() + 1
        >= old.min_members as int;
    &&& new.members@ == old.members@.push(member)
    &&& new == (MeshGroup {
        members: new.members,
        last_contribution_at: now,
        last_member_added_at: Some(now),
        status: if activates {
            GroupStatus::Active
        } else {
            old.status
        },
        started_at: if activates && old.started_at is None {
            Some(now)
        } else {
            old.started_at
        },
        ..old
    })
}

/// A user joins the group in the given role.
pub fn join_mesh_group_handler(g: &mut MeshGroup, member: &Key, role: GroupRole, now: i64) -> (r:
    Result<(), IndrasError>)
    ensures
        r == outcome(add_member_error(*old(g), *member)),
        r is Ok ==> joined(*old(g), *final(g), new_member(*member, role, now), now),
        r is Err ==> *final(g) == *old(g),
        old(g).wf() ==> final(g).wf(),
{
    if g.is_member(member) {
        return Err(IndrasError::AlreadyMember);
    }
    if g.members.len() >= g.max_members as usize {
        return Err(IndrasError::GroupFull);
    }
    let m = GroupMember {
        pubkey: *member,
        role: role,
        joined_at: now,
        contributions: 0,
        reputation: 0,
        is_active: true,
    };
    g.add_member(m, now)?;
    let ghost mid = *g;
    if g.status == GroupStatus::Forming && g.members.len() >= g.min_members as usize {
        g.status = GroupStatus::Active;
        if g.started_at.is_none() {
            g.started_at = Some(now);
        }
    }
    proof {
        if mid.wf() {
            lemma_wf_frame(mid, *g);
        }
    }
    Ok(())
}

/// The first failing check of `remove_mesh_group_member_handler`.
pub open spec fn remove_group_member_error(
    g: MeshGroup,
    member: Key,
    remover: Key,
    authority: Key,
    role: Option<MemberRole>,
) -> Option<IndrasError> {
    if member == g.leader {
        Some(IndrasError::CannotRemoveLeader)
    } else if !g.has_member(member) {
        Some(IndrasError::NotFound)
    } else if !may_manage(g, remover, authority, role) {
        Some(IndrasError::Unauthorized)
    } else {
        None
    }
}

/// Removes a member (never the leader); an Active group that falls below its
/// minimum goes back to Forming.
pub fn remove_mesh_group_member_handler(
    g: &mut MeshGroup,
    member_to_remove: &Key,
    remover: &Key,
    dao_authority: &Key,
    remover_role: &Option<MemberRole>,
    now: i64,
) -> (r: Result<(), IndrasError>)
    ensures
        r == outcome(remove_group_member_error(*old(g), *member_to_remove, *remover, *dao_authority, *remover_role)),
        r is Err ==> *final(g) == *old(g),
        r is Ok ==> {
            let fewer = old(g).members@.len() - 1 < old(g).min_members as int;
            &&& final(g).members@ == old(g).members@.remove(member_index(old(g).members@, *member_to_remove))
            &&& *final(g) == (MeshGroup {
                members: final(g).members,
                last_contribution_at: now,
                status: if fewer && old(g).status == GroupStatus::Active {
                    GroupStatus::Forming
                } else {
                    old(g).status
                },
                ..*old(g)
            })
        },
        old(g).wf() ==> final(g).wf(),
{
    if key_eq(member_to_remove, &g.leader) {
        return Err(IndrasError::CannotRemoveLeader);
    }
    if !g.is_member(member_to_remove) {
        return Err(IndrasError::NotFound);
    }
    check_manager(g, remover, dao_authority, remover_role)?;
    proof {
        lemma_member_index(g.members@, *member_to_remove);
    }
    g.remove_member(member_to_remove, now)?;
    let ghost mid = *g;
    if g.members.len() < g.min_members as usize && g.status == GroupStatus::Active {
        g.status = GroupStatus::Forming;
    }
    proof {
        if mid.wf() {
            lemma_wf_frame(mid, *g);
        }
    }
    Ok(())
}

/// Records a contribution by a member: its counters and the group's totals
/// grow by one, and the group's last activity becomes `now`.
pub fn add_contribution_handler(g: &mut MeshGroup, contributor: &Key, now: i64) -> (r: Result<
    (),
    IndrasError,
>)
    ensures
        ({
            let i = member_index(old(g).members@, *contributor);
            let m = old(g).members@[i];
            r == outcome(
                if !old(g).has_member(*contributor) {
                    Some(IndrasError::NotFound)
                } else if m.contributions == u64::MAX || m.reputation == u64::MAX
                    || old(g).total_contributions == u64::MAX || old(g).total_reputation
                    == u64::MAX {
                    Some(IndrasError::Overflow)
                } else {
                    None
                },
            )
        }),
        r is Err ==> *final(g) == *old(g),
        r is Ok ==> {
            let i = member_index(old(g).members@, *contributor);
            let m = old(g).members@[i];
            &&& final(g).members@ == old(g).members@.update(
                i,
                GroupMember {
                    contributions: (m.contributions + 1) as u64,
                    reputation: (m.reputation + 1) as u64,
                    ..m
                },
            )
            &&& *final(g) == (MeshGroup {
                members: final(g).members,
                total_contributions: (old(g).total_contributions + 1) as u64,
                total_reputation: (old(g).total_reputation + 1) as u64,
                last_contribution_at: now,
                ..*old(g)
            })
        },
        old(g).wf() ==> final(g).wf(),
{
    proof {
        lemma_member_index(g.members@, *contributor);
    }
    let i = match find_member(&g.members, contributor) {
        Some(i) => i,
        None => {
            return Err(IndrasError::NotFound);
        },
    };
    let m = g.members[i];
    if m.contributions == u64::MAX || m.reputation == u64::MAX || g.total_contributions == u64::MAX
        || g.total_reputation == u64::MAX {
        return Err(IndrasError::Overflow);
    }
    let ghost before = *g;
    let updated = GroupMember {
        contributions: m.contributions + 1,
        reputation: m.reputation + 1,
        ..m
    };
    g.members.set(i, updated);
    g.total_contributions = g.total_contributions + 1;
    g.total_reputation = g.total_reputation + 1;
    g.last_contribution_at = now;
    proof {
        if before.wf() {
            let nm = g.members@;
            assert forall|a: int, b: int| 0 <= a < b < nm.len() implies nm[a].pubkey != nm[b].pubkey by {
                assert(nm[a].pubkey == before.members@[a].pubkey);
                assert(nm[b].pubkey == before.members@[b].pubkey);
            }
            let l = choose|l: int|
                0 <= l < before.members@.len() && #[trigger] before.members@[l].pubkey == before.leader;
            assert(nm[l].pubkey == g.leader);
        }
    }
    Ok(())
}

// ---------------------------------------------------------------- governance

/// Why a member left a group.
#[derive(Clone, Copy, Debug, PartialEq, Eq, Structural)]
pub enum MemberLeaveReason {
    Removed,
    Left,
}

/// One departure from a group.
#[derive(Clone, Copy, Debug)]
pub struct MemberExit {
    pub member: Key,
    pub left_at: i64,
    pub reason: MemberLeaveReason,
}

/// The departures from a group, kept to enforce a cooldown before rejoining.
#[derive(Debug)]
pub struct GroupMemberHistory {
    pub exits: Vec<MemberExit>,
}

/// Seconds in a day.
pub const SECONDS_PER_DAY: i64 = 86400;

impl GroupMemberHistory {
    /// The member left less than `days` days before `now`.
    pub open spec fn in_cooldown(self, k: Key, now: i64, days: u16) -> bool {
        exists|j: int|
            0 <= j < self.exits@.len() && #[trigger] self.exits@[j].member == k && now
                - self.exits@[j].left_at < days * SECONDS_PER_DAY
    }

    /// Refuses a former member whose cooldown has not run out.
    pub fn check_cooldown(&self, k: &Key, now: i64, days: u16) -> (r: Result<(), IndrasError>)
        ensures
            r == outcome(
                if self.in_cooldown(*k, now, days) {
                    Some(IndrasError::CooldownActive)
                } else {
                    None
                },
            ),
    {
        let mut i: usize = 0;
        while i < self.exits.len()
            invariant
                i <= self.exits@.len(),
                forall|j: int|
                    0 <= j < i ==> !(#[trigger] self.exits@[j].member == *k && now
                        - self.exits@[j].left_at < days * SECONDS_PER_DAY),
            decreases self.exits@.len() - i,
        {
            let e = self.exits[i];
            if key_eq(&e.member, k) && (now as i128) - (e.left_at as i128) < (days as i128) * 86400 {
                return Err(IndrasError::CooldownActive);
            }
            i = i + 1;
        }
        Ok(())
    }

    /// Records a departure.
    pub fn add_member_exit(&mut self, k: Key, now: i64, reason: MemberLeaveReason)
        ensures
            final(self).exits@ == old(self).exits@.push(
                MemberExit { member: k, left_at: now, reason: reason },
            ),
    {
        self.exits.push(MemberExit { member: k, left_at: now, reason: reason });
    }
}

/// The reputation used for a new member: that of the supplied member
/// account, or zero without one.
pub open spec fn offered_reputation(account: Option<Member>) -> u64 {
    match account {
        Some(m) => m.reputation,
        None => 0,
    }
}

/// The first failing check of `add_member_to_mesh_group_handler`.
pub open spec fn add_group_member_error(
    g: MeshGroup,
    caller: Key,
    member: Key,
    account: Option<Member>,
    history: Option<&GroupMemberHistory>,
    now: i64,
) -> Option<IndrasError> {
    if caller != g.leader {
        Some(IndrasError::Unauthorized)
    } else if g.status != GroupStatus::Active {
        Some(IndrasError::InvalidState)
    } else if g.is_in_critical_moment {
        Some(IndrasError::CriticalMomentActive)
    } else if g.last_member_added_at is Some && now - g.last_member_added_at->0 < SECONDS_PER_DAY {
        Some(IndrasError::RateLimitExceeded)
    } else if account is Some && account->0.pubkey != member {
        Some(IndrasError::InvalidInput)
    } else if g.member_reputation_required > 0 && offered_reputation(account)
        < g.member_reputation_required {
        Some(IndrasError::InsufficientReputation)
    } else if history is Some && history->0.in_cooldown(member, now, g.member_cooldown_days) {
        Some(IndrasError::CooldownActive)
    } else {
        add_member_error(g, member)
    }
}

/// The leader adds a member to an Active group: not during a critical
/// moment, at most one new member per day, with enough reputation and past
/// any cooldown from an earlier departure.
pub fn add_member_to_mesh_group_handler(
    g: &mut MeshGroup,
    caller: &Key,
    member_pubkey: &Key,
    role: GroupRole,
    member_account: Option<Member>,
    member_history: Option<&GroupMemberHistory>,
    now: i64,
) -> (r: Result<(), IndrasError>)
    ensures
        r == outcome(add_group_member_error(*old(g), *caller, *member_pubkey, member_account, member_history, now)),
        r is Err ==> *final(g) == *old(g),
        r is Ok ==> member_added(
            *old(g),
            *final(g),
            GroupMember {
                pubkey: *member_pubkey,
                role: role,
                joined_at: now,
                contributions: 0,
                reputation: offered_reputation(member_account),
                is_active: true,
            },
            now,
        ),
        old(g).wf() ==> final(g).wf(),
{
    if !g.has_permission(caller, MeshGroupPermission::AddMember) {
        return Err(IndrasError::Unauthorized);
    }
    if !g.is_active() {
        return Err(IndrasError::InvalidState);
    }
    if g.is_in_critical_moment {
        return Err(IndrasError::CriticalMomentActive);
    }
    if let Some(last) = g.last_member_added_at {
        if (now as i128) - (last as i128) < 86400 {
            return Err(IndrasError::RateLimitExceeded);
        }
    }
    let reputation = match &member_account {
        Some(acct) => {
            if !key_eq(&acct.pubkey, member_pubkey) {
                return Err(IndrasError::InvalidInput);
            }
            acct.reputation
        },
        None => 0,
    };
    if g.member_reputation_required > 0 && reputation < g.member_reputation_required {
        return Err(IndrasError::InsufficientReputation);
    }
    if let Some(h) = member_history {
        h.check_cooldown(member_pubkey, now, g.member_cooldown_days)?;
    }
    let m = GroupMember {
        pubkey: *member_pubkey,
        role: role,
        joined_at: now,
        contributions: 0,
        reputation: reputation,
        is_active: true,
    };
    g.add_member(m, now)
}

/// The leader removes a member from an Active group; the departure is
/// recorded in the history when one is supplied.
pub fn remove_member_from_mesh_group_handler(
    g: &mut MeshGroup,
    caller: &Key,
    member_pubkey: &Key,
    member_history: &mut Option<GroupMemberHistory>,
    now: i64,
) -> (r: Result<(), IndrasError>)
    ensures
        r == outcome(
            if *caller != old(g).leader {
                Some(IndrasError::Unauthorized)
            } else if old(g).status != GroupStatus::Active {
                Some(IndrasError::InvalidState)
            } else {
                remove_member_error(*old(g), *member_pubkey)
            },
        ),
        r is Err ==> *final(g) == *old(g) && *final(member_history) == *old(member_history),
        r is Ok ==> member_removed(*old(g), *final(g), *member_pubkey, now) && match *old(member_history) {
            None => (*final(member_history)) is None,
            Some(h) => (*final(member_history)) is Some && (*final(member_history))->0.exits@ == h.exits@.push(
                MemberExit { member: *member_pubkey, left_at: now, reason: MemberLeaveReason::Removed },
            ),
        },
        old(g).wf() ==> final(g).wf(),
{
    if !g.has_permission(caller, MeshGroupPermission::RemoveMember) {
        return Err(IndrasError::Unauthorized);
    }
    if !g.is_active() {
        return Err(IndrasError::InvalidState);
    }
    g.remove_member(member_pubkey, now)?;
    match member_history {
        Some(h) => {
            h.add_member_exit(*member_pubkey, now, MemberLeaveReason::Removed);
        },
        None => {},
    }
    Ok(())
}

/// The leader hands leadership to another member.
pub fn transfer_leadership_handler(g: &mut MeshGroup, caller: &Key, new_leader: &Key) -> (r: Result<
    (),
    IndrasError,
>)
    ensures
        r == outcome(
            if old(g).leader != *caller {
                Some(IndrasError::Unauthorized)
            } else if !old(g).has_member(*new_leader) {
                Some(IndrasError::MemberNotFound)
            } else if old(g).leader == *new_leader {
                Some(IndrasError::InvalidInput)
            } else {
                None
            },
        ),
        r is Err ==> *final(g) == *old(g),
        r is Ok ==> *final(g) == (MeshGroup { leader: *new_leader, ..*old(g) }),
        old(g).wf() ==> final(g).wf(),
{
    if !key_eq(&g.leader, caller) {
        return Err(IndrasError::Unauthorized);
    }
    if !g.is_member(new_leader) {
        return Err(IndrasError::MemberNotFound);
    }
    if key_eq(&g.leader, new_leader) {
        return Err(IndrasError::InvalidInput);
    }
    g.leader = *new_leader;
    Ok(())
}

/// The leader sets the operating protocol: quorum 50..=100, contribution
/// threshold 1..=100, inactivity timeout 1..=365 days.
pub fn update_mesh_group_protocol_handler(
    g: &mut MeshGroup,
    caller: &Key,
    meeting_frequency: MeetingFrequency,
    decision_quorum: u8,
    contribution_threshold: u32,
    inactivity_timeout_days: u16,
) -> (r: Result<(), IndrasError>)
    ensures
        r == outcome(
            if old(g).leader != *caller {
                Some(IndrasError::Unauthorized)
            } else if !(50 <= decision_quorum <= 100) || !(0 < contribution_threshold <= 100) || !(0
                < inactivity_timeout_days <= 365) {
                Some(IndrasError::InvalidInput)
            } else {
                None
            },
        ),
        r is Err ==> *final(g) == *old(g),
        r is Ok ==> *final(g) == (MeshGroup {
            protocol: OperatingProtocol {
                meeting_frequency,
                decision_quorum,
                contribution_threshold,
                inactivity_timeout_days,
            },
            ..*old(g)
        }),
        old(g).wf() ==> final(g).wf(),
{
    if !key_eq(&g.leader, caller) {
        return Err(IndrasError::Unauthorized);
    }
    if !(50 <= decision_quorum && decision_quorum <= 100) {
        return Err(IndrasError::InvalidInput);
    }
    if !(contribution_threshold > 0 && contribution_threshold <= 100) {
        return Err(IndrasError::InvalidInput);
    }
    if !(inactivity_timeout_days > 0 && inactivity_timeout_days <= 365) {
        return Err(IndrasError::InvalidInput);
    }
    let ghost before = *g;
    g.protocol = OperatingProtocol {
        meeting_frequency,
        decision_quorum,
        contribution_threshold,
        inactivity_timeout_days,
    };
    proof {
        if before.wf() {
            lemma_wf_frame(before, *g);
        }
    }
    Ok(())
}

/// An Active group whose last activity is at least the protocol's timeout
/// ago is inactive.
pub open spec fn inactive(g: MeshGroup, now: i64) -> bool {
    g.status == GroupStatus::Active && now - g.last_contribution_at
        >= g.protocol.inactivity_timeout_days * SECONDS_PER_DAY
}

/// Pauses an inactive group; says whether it did.
pub fn check_mesh_group_inactivity_handler(g: &mut MeshGroup, now: i64) -> (paused: bool)
    ensures
        paused == inactive(*old(g), now),
        paused ==> *final(g) == with_group_status(*old(g), GroupStatus::Paused),
        !paused ==> *final(g) == *old(g),
        old(g).wf() ==> final(g).wf(),
{
    if g.status == GroupStatus::Active && (now as i128) - (g.last_contribution_at as i128) >= (
    g.protocol.inactivity_timeout_days as i128) * 86400 {
        let ghost before = *g;
        g.status = GroupStatus::Paused;
        proof {
            if before.wf() {
                lemma_wf_frame(before, *g);
            }
        }
        true
    } else {
        false
    }
}

/// A member who left is refused again until the cooldown has run out: right
/// after a departure at `left_at`, a rejoin at `now` less than `days` days
/// later is in cooldown, whatever was recorded before.
pub proof fn departure_starts_cooldown(
    h: GroupMemberHistory,
    after: GroupMemberHistory,
    k: Key,
    left_at: i64,
    reason: MemberLeaveReason,
    now: i64,
    days: u16,
)
    requires
        after.exits@ == h.exits@.push(MemberExit { member: k, left_at: left_at, reason: reason }),
        now - left_at < days * SECONDS_PER_DAY,
    ensures
        after.in_cooldown(k, now, days),
{
    let j = h.exits@.len() as int;
    assert(after.exits@[j].member == k);
}

} // verus!
