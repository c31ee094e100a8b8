use crate::access::{assert_role, outcome, prepared_op_type, rate_limit_error, rate_limit_step, role_allows, tracker_after, DaoConfig, MemberRole, RateLimitTracker};
use crate::role_permissions::{CAN_MANAGE_MESH_GROUPS};
use crate::ai_analysis::{verify_ai_analysis, verify_ai_analysis_error, AIAnalysisRecord, AccountData};
use crate::embedding::{check_signed_embedding, signed_embedding_error, AIServiceRegistry};
use crate::error::IndrasError;
use crate::idea::{full_submission, Idea, IdeaStatus};
use crate::keys::{key_eq, Key};
use crate::mesh_group::{
    new_member, DevelopmentStage, GroupMember, GroupRole, GroupStatus, GroupType, MeetingFrequency,
    MeshGroup, OperatingProtocol,
};
use crate::text::{byte_len, copied_vec, is_empty_text, utf8_len};
use vstd::prelude::*;

verus! {

/// Rate-limit window for creating mesh groups: one per week.
pub const MESH_GROUP_RATE_LIMIT_WINDOW: i64 = 604800;

/// Most members a mesh group takes.
pub const MESH_GROUP_MAX_MEMBERS: u8 = 7;

/// Most supporting groups a main group can have.
pub const MAX_SUPPORTING_GROUPS: usize = 10;

/// The checks on a group's name and description: at most 100 and 500 bytes,
/// and a name that is not empty.
pub open spec fn group_text_error(name: Seq<char>, description: Seq<char>) -> Option<IndrasError> {
    if utf8_len(name) > 100 || utf8_len(description) > 500 {
        Some(IndrasError::StringTooLong)
    } else if name.len() == 0 {
        Some(IndrasError::InvalidInput)
    } else {
        None
    }
}

fn check_group_text(name: &String, description: &String) -> (r: Result<(), IndrasError>)
    ensures
        r == outcome(group_text_error(name@, description@)),
{
    if byte_len(name) > 100 || byte_len(description) > 500 {
        return Err(IndrasError::StringTooLong);
    }
    if is_empty_text(name) {
        return Err(IndrasError::InvalidInput);
    }
    Ok(())
}

/// The checks on the idea a new group is founded on, if any: it must be
/// Approved, and its AI analysis must be supplied and approve it.
pub open spec fn founding_idea_error(
    idea: Option<(&Idea, Key)>,
    analysis: Option<&AccountData>,
    record: Option<&AIAnalysisRecord>,
    ai_program: Key,
) -> Option<IndrasError> {
    match idea {
        None => None,
        Some((i, k)) => if i.status != IdeaStatus::Approved {
            Some(IndrasError::InvalidState)
        } else {
            match (analysis, record) {
                (Some(a), Some(rec)) => verify_ai_analysis_error(*a, i.id, k, *rec, ai_program),
                _ => Some(IndrasError::InvalidInput),
            }
        },
    }
}

fn check_founding_idea(
    idea: Option<(&Idea, Key)>,
    analysis: Option<&AccountData>,
    record: Option<&AIAnalysisRecord>,
    ai_program: &Key,
) -> (r: Result<(), IndrasError>)
    ensures
        r == outcome(founding_idea_error(idea, analysis, record, *ai_program)),
{
    match idea {
        None => Ok(()),
        Some((i, k)) => {
            if i.status != IdeaStatus::Approved {
                return Err(IndrasError::InvalidState);
            }
            match (analysis, record) {
                (Some(a), Some(rec)) => verify_ai_analysis(a, i.id, &k, rec, ai_program),
                _ => Err(IndrasError::InvalidInput),
            }
        },
    }
}

/// The first failing check of `create_mesh_group_handler`.
pub open spec fn create_group_error(
    creator: Key,
    dao_config: &DaoConfig,
    creator_role: Option<MemberRole>,
    name: Seq<char>,
    description: Seq<char>,
    idea: Option<(&Idea, Key)>,
    analysis: Option<&AccountData>,
    record: Option<&AIAnalysisRecord>,
    ai_program: Key,
    registry: Option<&AIServiceRegistry>,
    signature_check: Result<(), IndrasError>,
    tracker: Option<&RateLimitTracker>,
    now: i64,
    hash: Option<[u8; 32]>,
    signature: Option<[u8; 64]>,
    provider: Option<String>,
    model: Option<String>,
    model_version: Option<String>,
    provider_key: Option<Key>,
) -> Option<IndrasError> {
    if creator != dao_config.authority && !role_allows(creator_role, creator, CAN_MANAGE_MESH_GROUPS) {
        Some(IndrasError::Unauthorized)
    } else if group_text_error(name, description) is Some {
        group_text_error(name, description)
    } else if founding_idea_error(idea, analysis, record, ai_program) is Some {
        founding_idea_error(idea, analysis, record, ai_program)
    } else if full_submission(hash, signature, provider, provider_key) && signed_embedding_error(
        hash->0,
        signature->0,
        provider->0@,
        model,
        model_version,
        provider_key->0,
        signature_check,
        registry,
        dao_config.authority,
    ) is Some {
        signed_embedding_error(
            hash->0,
            signature->0,
            provider->0@,
            model,
            model_version,
            provider_key->0,
            signature_check,
            registry,
            dao_config.authority,
        )
    } else {
        rate_limit_error(tracker, dao_config.dev_mode, creator, now, MESH_GROUP_RATE_LIMIT_WINDOW)
    }
}

/// The protocol of an account that was never written (every field zero).
pub open spec fn zero_protocol() -> OperatingProtocol {
    OperatingProtocol {
        meeting_frequency: MeetingFrequency::Daily,
        decision_quorum: 0,
        contribution_threshold: 0,
        inactivity_timeout_days: 0,
    }
}

/// What a group created by `create_mesh_group_handler` holds: the creator
/// leads it as its only member, it is Active from `now`, capacity 7,
/// default protocol, and the embedding metadata of a complete submission.
pub open spec fn created_group(
    g: MeshGroup,
    id: u64,
    name: String,
    description: String,
    group_type: GroupType,
    creator: Key,
    now: i64,
    bump: u8,
    hash: Option<[u8; 32]>,
    signature: Option<[u8; 64]>,
    provider: Option<String>,
    model: Option<String>,
    model_version: Option<String>,
    provider_key: Option<Key>,
) -> bool {
    let full = full_submission(hash, signature, provider, provider_key);
    &&& g.members@ == seq![new_member(creator, GroupRole::Leader, now)]
    &&& g.ideas@ == Seq::<u64>::empty()
    &&& g.grants@ == Seq::<u64>::empty()
    &&& g.phenomena@ == Seq::<Key>::empty()
    &&& g.supporting_groups@ == Seq::<Key>::empty()
    &&& g == (MeshGroup {
        id: id,
        name: name,
        description: description,
        group_type: group_type,
        status: GroupStatus::Active,
        leader: creator,
        created_by: creator,
        created_at: now,
        members: g.members,
        ideas: g.ideas,
        grants: g.grants,
        phenomena: g.phenomena,
        max_members: 7,
        min_members: 1,
        parent_group: None,
        supporting_groups: g.supporting_groups,
        stage_deadline: None,
        current_stage: DevelopmentStage::Planning,
        started_at: Some(now),
        completed_at: None,
        total_contributions: 0,
        total_reputation: 0,
        bump: bump,
        protocol: OperatingProtocol::spec_default(),
        last_meeting_at: None,
        last_contribution_at: now,
        last_member_added_at: None,
        last_group_created_at: Some(now),
        member_reputation_required: 10,
        member_cooldown_days: 30,
        is_in_critical_moment: false,
        critical_moment_until: None,
        embedding_hash: if full { hash } else { None },
        embedding_signature: if full { signature } else { None },
        embedding_provider: if full { provider } else { None },
        embedding_model: if full { model } else { None },
        embedding_model_version: if full { model_version } else { None },
        embedding_created_at: if full { Some(now) } else { None },
        embedding_updated_at: if full { Some(now) } else { None },
        embedding_update_count: if full { 1 } else { 0 },
    })
}

proof fn lemma_single_member_wf(g: MeshGroup)
    requires
        g.members@.len() == 1,
        g.members@[0].pubkey == g.leader,
        g.max_members >= 1,
        g.ideas@.len() == 0,
        g.grants@.len() == 0,
    ensures
        g.wf(),
{
    assert(g.members@[0].pubkey == g.leader);
}

/// Creates a mesh group led by its creator. The creator is the DAO authority
/// or holds the mesh-group management permission; the name has 1 to 100
/// bytes and the description at most 500; a founding idea must be Approved
/// with an approving AI analysis; a complete signed embedding must pass the
/// embedding checks; the creator passes the weekly rate limit (or the DAO is
/// in dev mode without a tracker). `signature_check` is the verdict of the
/// ed25519 check of the embedding signature. Returns the group and the
/// rate-limit tracker as it stands afterwards.
pub fn create_mesh_group_handler(
    creator: &Key,
    dao_config: &DaoConfig,
    creator_role: &Option<MemberRole>,
    idea: Option<(&Idea, Key)>,
    analysis: Option<&AccountData>,
    record: Option<&AIAnalysisRecord>,
    ai_program: &Key,
    registry: Option<&AIServiceRegistry>,
    signature_check: Result<(), IndrasError>,
    rate_limit_tracker: Option<&RateLimitTracker>,
    now: i64,
    bump: u8,
    mesh_group_id: u64,
    name: String,
    description: String,
    group_type: GroupType,
    embedding_hash: Option<[u8; 32]>,
    embedding_signature: Option<[u8; 64]>,
    embedding_provider: Option<String>,
    embedding_model: Option<String>,
    embedding_model_version: Option<String>,
    embedding_provider_pubkey: Option<Key>,
) -> (r: Result<(MeshGroup, Option<RateLimitTracker>), IndrasError>)
    ensures
        ({
            let err = create_group_error(
                *creator,
                dao_config,
                *creator_role,
                name@,
                description@,
                idea,
                analysis,
                record,
                *ai_program,
                registry,
                signature_check,
                rate_limit_tracker,
                now,
                embedding_hash,
                embedding_signature,
                embedding_provider,
                embedding_model,
                embedding_model_version,
                embedding_provider_pubkey,
            );
            &&& r is Err <==> err is Some
            &&& r is Err ==> r->Err_0 == err->0
        }),
        r matches Ok((g, tracker)) ==> g.wf() && created_group(
            g,
            mesh_group_id,
            name,
            description,
            group_type,
            *creator,
            now,
            bump,
            embedding_hash,
            embedding_signature,
            embedding_provider,
            embedding_model,
            embedding_model_version,
            embedding_provider_pubkey,
        ) && match rate_limit_tracker {
            None => tracker is None,
            Some(t) => tracker is Some && {
                let a = tracker_after(*t, *creator, now);
                let b = tracker->0;
                &&& b.user == a.user
                &&& b.last_operation_at == a.last_operation_at
                &&& b.operation_count == a.operation_count
                &&& b.window_start == a.window_start
                &&& b.bump == a.bump
                &&& b.operation_type@ == prepared_op_type(*t, "create_mesh_group"@)
            },
        },
{
    if !key_eq(creator, &dao_config.authority) {
        assert_role(creator_role, creator, CAN_MANAGE_MESH_GROUPS)?;
    }
    check_group_text(&name, &description)?;
    check_founding_idea(idea, analysis, record, ai_program)?;
    let full = embedding_hash.is_some() && embedding_signature.is_some() && embedding_provider.is_some()
        && embedding_provider_pubkey.is_some();
    if let (Some(h), Some(s), Some(p), Some(pk)) = (
        &embedding_hash,
        &embedding_signature,
        &embedding_provider,
        &embedding_provider_pubkey,
    ) {
        check_signed_embedding(
            h,
            s,
            p,
            &embedding_model,
            &embedding_model_version,
            pk,
            signature_check,
            registry,
            &dao_config.authority,
        )?;
    }
    let tracker = rate_limit_step(
        rate_limit_tracker,
        dao_config.dev_mode,
        creator,
        "create_mesh_group",
        now,
        MESH_GROUP_RATE_LIMIT_WINDOW,
    )?;
    let mut members: Vec<GroupMember> = Vec::new();
    members.push(
        GroupMember {
            pubkey: *creator,
            role: GroupRole::Leader,
            joined_at: now,
            contributions: 0,
            reputation: 0,
            is_active: true,
        },
    );
    let (e_hash, e_sig, e_provider, e_model, e_version, e_created, e_count) = if full {
        (embedding_hash, embedding_signature, embedding_provider, embedding_model, embedding_model_version, Some(now), 1u32)
    } else {
        (None, None, None, None, None, None, 0u32)
    };
    let g = MeshGroup {
        id: mesh_group_id,
        name: name,
        description: description,
        group_type: group_type,
        status: GroupStatus::Active,
        leader: *creator,
        created_by: *creator,
        created_at: now,
        members: members,
        ideas: Vec::new(),
        grants: Vec::new(),
        phenomena: Vec::new(),
        max_members: MESH_GROUP_MAX_MEMBERS,
        min_members: 1,
        parent_group: None,
        supporting_groups: Vec::new(),
        stage_deadline: None,
        current_stage: DevelopmentStage::Planning,
        started_at: Some(now),
        completed_at: None,
        total_contributions: 0,
        total_reputation: 0,
        bump: bump,
        protocol: OperatingProtocol::new_default(),
        last_meeting_at: None,
        last_contribution_at: now,
        last_member_added_at: None,
        last_group_created_at: Some(now),
        member_reputation_required: 10,
        member_cooldown_days: 30,
        is_in_critical_moment: false,
        critical_moment_until: None,
        embedding_hash: e_hash,
        embedding_signature: e_sig,
        embedding_provider: e_provider,
        embedding_model: e_model,
        embedding_model_version: e_version,
        embedding_created_at: e_created,
        embedding_updated_at: e_created,
        embedding_update_count: e_count,
    };
    proof {
        lemma_single_member_wf(g);
    }
    Ok((g, tracker))
}

/// The first failing check of `create_supporting_mesh_group_handler`.
pub open spec fn supporting_group_error(main: MeshGroup, name: Seq<char>, description: Seq<char>) -> Option<
    IndrasError,
> {
    if main.members@.len() < main.max_members as int {
        Some(IndrasError::InvalidState)
    } else if main.supporting_groups@.len() >= 10 {
        Some(IndrasError::TooManySupportingGroups)
    } else {
        group_text_error(name, description)
    }
}

/// What a supporting group holds: the creator leads it as its only member,
/// it is Active from `now`, it works on the main group's ideas, its parent is
/// the main group; the fields the creation does not set keep the zero values
/// of a fresh account.
pub open spec fn created_supporting_group(
    s: MeshGroup,
    main: MeshGroup,
    main_key: Key,
    id: u64,
    name: String,
    description: String,
    creator: Key,
    now: i64,
    bump: u8,
) -> bool {
    &&& s.members@ == seq![new_member(creator, GroupRole::Leader, now)]
    &&& s.ideas@ == main.ideas@
    &&& s.grants@ == Seq::<u64>::empty()
    &&& s.phenomena@ == Seq::<Key>::empty()
    &&& s.supporting_groups@ == Seq::<Key>::empty()
    &&& s == (MeshGroup {
        id: id,
        name: name,
        description: description,
        group_type: main.group_type,
        status: GroupStatus::Active,
        leader: creator,
        created_by: creator,
        created_at: now,
        members: s.members,
        ideas: s.ideas,
        grants: s.grants,
        phenomena: s.phenomena,
        max_members: 7,
        min_members: 1,
        parent_group: Some(main_key),
        supporting_groups: s.supporting_groups,
        stage_deadline: None,
        current_stage: DevelopmentStage::Planning,
        started_at: Some(now),
        completed_at: None,
        total_contributions: 0,
        total_reputation: 0,
        bump: bump,
        protocol: zero_protocol(),
        last_meeting_at: None,
        last_contribution_at: 0,
        last_member_added_at: None,
        last_group_created_at: None,
        member_reputation_required: 0,
        member_cooldown_days: 0,
        is_in_critical_moment: false,
        critical_moment_until: None,
        embedding_hash: None,
        embedding_signature: None,
        embedding_provider: None,
        embedding_model: None,
        embedding_model_version: None,
        embedding_created_at: None,
        embedding_updated_at: None,
        embedding_update_count: 0,
    })
}

/// Creates a supporting group for a full main group (at most 10 per main
/// group) and records it in the main group.
pub fn create_supporting_mesh_group_handler(
    main_group: &mut MeshGroup,
    main_group_key: &Key,
    supporting_group_key: &Key,
    creator: &Key,
    now: i64,
    bump: u8,
    supporting_group_id: u64,
    name: String,
    description: String,
) -> (r: Result<MeshGroup, IndrasError>)
    ensures
        r is Err <==> supporting_group_error(*old(main_group), name@, description@) is Some,
        r matches Err(e) ==> Some(e) == supporting_group_error(*old(main_group), name@, description@),
        r is Err ==> *final(main_group) == *old(main_group),
        r matches Ok(s) ==> (old(main_group).wf() ==> s.wf()) && created_supporting_group(
            s,
            *old(main_group),
            *main_group_key,
            supporting_group_id,
            name,
            description,
            *creator,
            now,
            bump,
        ) && final(main_group).supporting_groups@ == old(main_group).supporting_groups@.push(*supporting_group_key)
            && *final(main_group) == (MeshGroup { supporting_groups: final(main_group).supporting_groups, ..*old(main_group) }),
        old(main_group).wf() ==> final(main_group).wf(),
{
    if main_group.members.len() < main_group.max_members as usize {
        return Err(IndrasError::InvalidState);
    }
    if main_group.supporting_groups.len() >= MAX_SUPPORTING_GROUPS {
        return Err(IndrasError::TooManySupportingGroups);
    }
    check_group_text(&name, &description)?;
    let mut members: Vec<GroupMember> = Vec::new();
    members.push(
        GroupMember {
            pubkey: *creator,
            role: GroupRole::Leader,
            joined_at: now,
            contributions: 0,
            reputation: 0,
            is_active: true,
        },
    );
    let s = MeshGroup {
        id: supporting_group_id,
        name: name,
        description: description,
        group_type: main_group.group_type,
        status: GroupStatus::Active,
        leader: *creator,
        created_by: *creator,
        created_at: now,
        members: members,
        ideas: copied_vec(main_group.ideas.as_slice()),
        grants: Vec::new(),
        phenomena: Vec::new(),
        max_members: MESH_GROUP_MAX_MEMBERS,
        min_members: 1,
        parent_group: Some(*main_group_key),
        supporting_groups: Vec::new(),
        stage_deadline: None,
        current_stage: DevelopmentStage::Planning,
        started_at: Some(now),
        completed_at: None,
        total_contributions: 0,
        total_reputation: 0,
        bump: bump,
        protocol: OperatingProtocol {
            meeting_frequency: MeetingFrequency::Daily,
            decision_quorum: 0,
            contribution_threshold: 0,
            inactivity_timeout_days: 0,
        },
        last_meeting_at: None,
        last_contribution_at: 0,
        last_member_added_at: None,
        last_group_created_at: None,
        member_reputation_required: 0,
        member_cooldown_days: 0,
        is_in_critical_moment: false,
        critical_moment_until: None,
        embedding_hash: None,
        embedding_signature: None,
        embedding_provider: None,
        embedding_model: None,
        embedding_model_version: None,
        embedding_created_at: None,
        embedding_updated_at: None,
        embedding_update_count: 0,
    };
    let ghost before = *main_group;
    main_group.supporting_groups.push(*supporting_group_key);
    proof {
        assert(s.members@.len() == 1);
        assert(main_group.members@ == before.members@);
        if before.wf() {
            let l = choose|l: int| 0 <= l < before.members@.len() && #[trigger] before.members@[l].pubkey == before.leader;
            assert(main_group.members@[l].pubkey == main_group.leader);
        }
        assert(s.has_member(s.leader)) by {
            assert(s.members@[0].pubkey == s.leader);
        }
    }
    Ok(s)
}

/// The first failing check of `update_mesh_group_embedding_handler`.
pub open spec fn update_group_embedding_error(
    g: MeshGroup,
    authority: Key,
    registry: Option<&AIServiceRegistry>,
    signature_check: Result<(), IndrasError>,
    mesh_group_id: u64,
    hash: [u8; 32],
    signature: [u8; 64],
    provider: Seq<char>,
    model: Option<String>,
    model_version: Option<String>,
    provider_key: Key,
) -> Option<IndrasError> {
    if g.id != mesh_group_id {
        Some(IndrasError::InvalidInput)
    } else {
        signed_embedding_error(
            hash,
            signature,
            provider,
            model,
            model_version,
            provider_key,
            signature_check,
            registry,
            authority,
        )
    }
}

/// The group after a signed embedding was stored at `now`.
pub open spec fn group_with_embedding(
    g: MeshGroup,
    hash: [u8; 32],
    signature: [u8; 64],
    provider: String,
    model: Option<String>,
    model_version: Option<String>,
    now: i64,
) -> MeshGroup {
    MeshGroup {
        embedding_hash: Some(hash),
        embedding_signature: Some(signature),
        embedding_provider: Some(provider),
        embedding_model: model,
        embedding_model_version: model_version,
        embedding_created_at: if g.embedding_created_at is None {
            Some(now)
        } else {
            g.embedding_created_at
        },
        embedding_updated_at: Some(now),
        embedding_update_count: crate::idea::bumped(g.embedding_update_count),
        ..g
    }
}

/// Replaces a group's embedding metadata with a signed submission.
/// `signature_check` is the verdict of the ed25519 check of the provider's
/// signature over the canonical embedding message.
pub fn update_mesh_group_embedding_handler(
    g: &mut MeshGroup,
    dao_authority: &Key,
    registry: Option<&AIServiceRegistry>,
    signature_check: Result<(), IndrasError>,
    now: i64,
    mesh_group_id: u64,
    embedding_hash: [u8; 32],
    embedding_signature: [u8; 64],
    embedding_provider: String,
    embedding_model: Option<String>,
    embedding_model_version: Option<String>,
    embedding_provider_pubkey: Key,
) -> (r: Result<(), IndrasError>)
    ensures
        r == outcome(
            update_group_embedding_error(
                *old(g),
                *dao_authority,
                registry,
                signature_check,
                mesh_group_id,
                embedding_hash,
                embedding_signature,
                embedding_provider@,
                embedding_model,
                embedding_model_version,
                embedding_provider_pubkey,
            ),
        ),
        r is Err ==> *final(g) == *old(g),
        r is Ok ==> *final(g) == group_with_embedding(
            *old(g),
            embedding_hash,
            embedding_signature,
            embedding_provider,
            embedding_model,
            embedding_model_version,
            now,
        ),
        old(g).wf() ==> final(g).wf(),
{
    if g.id != mesh_group_id {
        return Err(IndrasError::InvalidInput);
    }
    check_signed_embedding(
        &embedding_hash,
        &embedding_signature,
        &embedding_provider,
        &embedding_model,
        &embedding_model_version,
        &embedding_provider_pubkey,
        signature_check,
        registry,
        dao_authority,
    )?;
    let ghost before = *g;
    g.embedding_hash = Some(embedding_hash);
    g.embedding_signature = Some(embedding_signature);
    g.embedding_provider = Some(embedding_provider);
    if g.embedding_created_at.is_none() {
        g.embedding_created_at = Some(now);
    }
    g.embedding_updated_at = Some(now);
    g.embedding_update_count = g.embedding_update_count.saturating_add(1);
    g.embedding_model = embedding_model;
    g.embedding_model_version = embedding_model_version;
    proof {
        assert(g.members@ == before.members@);
        if before.wf() {
            let l = choose|l: int| 0 <= l < before.members@.len() && #[trigger] before.members@[l].pubkey == before.leader;
            assert(g.members@[l].pubkey == g.leader);
        }
    }
    Ok(())
}

} // verus!
