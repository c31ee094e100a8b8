use anchor_lang::prelude::Pubkey;
use sha2::Digest;
use indrasnet_dao_core::access::{DaoConfig, MemberRole};
use indrasnet_dao_core::ai_analysis::{AIAnalysisRecord, AccountData};
use indrasnet_dao_core::embedding::{AIService, AIServiceRegistry};
use indrasnet_dao_core::error::IndrasError;
use indrasnet_dao_core::grant::{
    activate_grant_handler, approve_grant_handler, complete_grant_handler, disburse_grant_handler, Grant,
    GrantCategory, GrantDisbursementType, GrantStatus, GrantType, SemanticDomain, Treasury, VoteType, VoterType,
    VotingLayer,
};
use indrasnet_dao_core::grant_create::{create_grant_handler, semantic_message_hash, semantic_signer};
use indrasnet_dao_core::grant_reports::{
    approve_grant_report_handler, reject_grant_report_handler, submit_grant_report_handler, GrantReportStatus,
};
use indrasnet_dao_core::grant_voting::{calculate_approval_threshold, calculate_quorum};
use indrasnet_dao_core::idea::{Idea, IdeaStatus};
use indrasnet_dao_core::keys::Key;
use indrasnet_dao_core::mesh_group::{
    DevelopmentStage, GroupMember, GroupRole, GroupStatus, GroupType, MeetingFrequency, MeshGroup, OperatingProtocol,
};
use indrasnet_dao_core::role_permissions::CAN_CREATE_GRANT;
use indrasnet_dao_core::{grant_voting, grants_voting};

fn key_of(p: Pubkey) -> Key {
    Key { bytes: p.to_bytes() }
}

fn dao(authority: Key) -> DaoConfig {
    DaoConfig {
        schema_version: 2,
        authority,
        name: "DAO".to_string(),
        description: "d".to_string(),
        is_active: true,
        dev_mode: true,
        is_paused: false,
        last_operation_timestamp: None,
        operation_count: 0,
        execution_delay_seconds: 86400,
        adaptive_security_enabled: true,
        progressive_unlock_enabled: true,
        behavioral_analysis_enabled: true,
        created_at: 0,
        updated_at: None,
        deactivated_at: None,
        reactivated_at: None,
        authority_transferred_at: None,
        security_enhancement_count: 0,
        bump: 0,
    }
}

fn idea(id: u64, author: Key, status: IdeaStatus) -> Idea {
    Idea {
        id,
        author,
        title: "Idea".to_string(),
        description: "An idea".to_string(),
        status,
        rights_transferred_to_ev: None,
        idea_hash: None,
        embedding_hash: None,
        embedding_signature: None,
        embedding_provider: None,
        embedding_model: None,
        embedding_model_version: None,
        embedding_created_at: None,
        embedding_updated_at: None,
        embedding_update_count: 0,
        bump: 0,
    }
}

fn member(k: Key) -> GroupMember {
    GroupMember { pubkey: k, role: GroupRole::Member, joined_at: 0, contributions: 0, reputation: 0, is_active: true }
}

fn group(id: u64, leader: Key, members: Vec<Key>, ideas: Vec<u64>, stage: DevelopmentStage, contributions: u64) -> MeshGroup {
    MeshGroup {
        id,
        name: "G".to_string(),
        description: "g".to_string(),
        group_type: GroupType::Development,
        status: GroupStatus::Active,
        leader,
        created_by: leader,
        created_at: 0,
        members: members.into_iter().map(member).collect(),
        ideas,
        grants: Vec::new(),
        phenomena: Vec::new(),
        max_members: 7,
        min_members: 1,
        parent_group: None,
        supporting_groups: Vec::new(),
        stage_deadline: None,
        current_stage: stage,
        started_at: Some(0),
        completed_at: None,
        total_contributions: contributions,
        total_reputation: 0,
        bump: 0,
        protocol: OperatingProtocol {
            meeting_frequency: MeetingFrequency::Weekly,
            decision_quorum: 51,
            contribution_threshold: 1,
            inactivity_timeout_days: 30,
        },
        last_meeting_at: None,
        last_contribution_at: 0,
        last_member_added_at: None,
        last_group_created_at: None,
        member_reputation_required: 10,
        member_cooldown_days: 30,
        is_in_critical_moment: false,
        critical_moment_until: None,
        embedding_hash: None,
        embedding_signature: None,
        embedding_provider: None,
        embedding_model: None,
        embedding_model_version: None,
        embedding_created_at: None,
        embedding_updated_at: None,
        embedding_update_count: 0,
    }
}

struct Setup {
    program: Pubkey,
    ai_program: Pubkey,
    creator: Key,
    idea_account: AccountData,
    idea: Idea,
    group_account: AccountData,
    group: MeshGroup,
    analysis: AccountData,
    record: AIAnalysisRecord,
}

fn setup() -> Setup {
    let program = Pubkey::new_unique();
    let ai_program = Pubkey::new_unique();
    let creator = key_of(Pubkey::new_unique());
    let idea_id = 3u64;
    let (idea_pda, _) = Pubkey::find_program_address(&[b"idea", &idea_id.to_le_bytes()], &program);
    let (group_pda, _) = Pubkey::find_program_address(&[b"mesh_group", &9u64.to_le_bytes()], &program);
    let (analysis_pda, _) = Pubkey::find_program_address(&[b"ai_analysis", idea_pda.as_ref()], &ai_program);
    let mut data = vec![0u8; 121];
    data[8..16].copy_from_slice(&idea_id.to_le_bytes());
    data[51] = 50;
    data[52] = 50;
    data[54] = 70;
    data[56] = 70;
    data[120] = 1;
    Setup {
        program,
        ai_program,
        creator,
        idea_account: AccountData { key: key_of(idea_pda), owner: key_of(program), data: vec![0u8; 16] },
        idea: idea(idea_id, creator, IdeaStatus::Approved),
        group_account: AccountData { key: key_of(group_pda), owner: key_of(program), data: vec![0u8; 16] },
        group: group(9, creator, vec![creator], vec![idea_id], DevelopmentStage::CoreDevelopment, 3),
        analysis: AccountData { key: key_of(analysis_pda), owner: key_of(ai_program), data },
        record: AIAnalysisRecord {
            idea_id,
            analysis: key_of(analysis_pda),
            ai_program: key_of(ai_program),
            registered_at: 0,
            bump: 0,
        },
    }
}

fn request(s: &Setup, base: u64, bonus: u64, grant_type: GrantType, distance: Option<u32>) -> Result<Grant, IndrasError> {
    let role = Some(MemberRole { member: s.creator, role_mask: CAN_CREATE_GRANT });
    create_grant_handler(
        &s.creator,
        &dao(key_of(Pubkey::new_unique())),
        &role,
        &key_of(s.program),
        &key_of(s.ai_program),
        &s.idea_account,
        Some(&s.idea),
        &s.group_account,
        Some(&s.group),
        &s.analysis,
        &s.record,
        None,
        None,
        None,
        Ok(()),
        None,
        500,
        2,
        44,
        3,
        GrantCategory::Research,
        grant_type,
        GrantDisbursementType::Standard,
        base,
        bonus,
        None,
        None,
        distance,
        None,
    )
}

#[test]
fn grant_request_is_pending_with_total() {
    let s = setup();
    let g = request(&s, 1000, 500, GrantType::Core, None).unwrap();
    assert_eq!(g.status, GrantStatus::Pending);
    assert_eq!(g.total_amount, 1500);
    assert_eq!(g.disbursed_amount, 0);
    assert_eq!(g.mesh_group, s.group_account.key);
    assert_eq!(g.voting_layer, VotingLayer::AuthorOnly);
    assert_eq!(g.grant_level, 1);
    assert!(!g.commercialization_right_transferred);
}

#[test]
fn grant_request_refusals() {
    let s = setup();
    assert_eq!(request(&s, 0, 0, GrantType::Core, None).unwrap_err(), IndrasError::InvalidInput);
    assert_eq!(request(&s, 1_000_000_001, 0, GrantType::Core, None).unwrap_err(), IndrasError::AmountTooLarge);
    assert_eq!(request(&s, 1000, 501, GrantType::Core, None).unwrap_err(), IndrasError::AmountTooLarge);
    assert_eq!(request(&s, 1000, 0, GrantType::Initial, None).unwrap_err(), IndrasError::InvalidState);
    assert!(request(&s, 1_000_000_000, 500_000_000, GrantType::Core, None).is_ok());
    let mut low = setup();
    low.group.total_contributions = 2;
    assert_eq!(request(&low, 1000, 0, GrantType::Core, None).unwrap_err(), IndrasError::InsufficientProgress);
    let mut planning = setup();
    planning.group.current_stage = DevelopmentStage::Planning;
    assert_eq!(request(&planning, 1000, 0, GrantType::Core, None).unwrap_err(), IndrasError::InvalidState);
    let mut rejected = setup();
    rejected.analysis.data[48] = 1;
    assert_eq!(request(&rejected, 1000, 0, GrantType::Core, None).unwrap_err(), IndrasError::InvalidState);
    let mut wrong_pda = setup();
    wrong_pda.idea_account.key = key_of(Pubkey::new_unique());
    assert_eq!(request(&wrong_pda, 1000, 0, GrantType::Core, None).unwrap_err(), IndrasError::InvalidInput);
    let mut foreign = setup();
    foreign.group_account.owner = key_of(Pubkey::new_unique());
    assert_eq!(request(&foreign, 1000, 0, GrantType::Core, None).unwrap_err(), IndrasError::InvalidProgram);
    let mut in_progress = setup();
    in_progress.idea.status = IdeaStatus::InProgress;
    assert!(request(&in_progress, 1000, 0, GrantType::Core, None).is_ok());
    let mut draft = setup();
    draft.idea.status = IdeaStatus::Draft;
    assert_eq!(request(&draft, 1000, 0, GrantType::Core, None).unwrap_err(), IndrasError::InvalidState);
}

#[test]
fn semantic_distance_only_checked_with_a_domain() {
    let s = setup();
    let nan = f32::NAN.to_bits();
    assert!(request(&s, 1000, 0, GrantType::Core, Some(nan)).is_ok());
}

#[test]
fn semantic_signer_prefers_a_serving_service() {
    let a = key_of(Pubkey::new_unique());
    let b = key_of(Pubkey::new_unique());
    let c = key_of(Pubkey::new_unique());
    let svc = |k: Key, models: Vec<&str>, active: bool| AIService {
        pubkey: k,
        model_ids: models.into_iter().map(|m| m.to_string()).collect(),
        is_active: active,
        is_suspended: false,
        stake_amount: 0,
        registered_at: 0,
    };
    let registry = AIServiceRegistry {
        authority: a,
        services: vec![svc(a, vec!["x"], false), svc(b, vec!["other"], true), svc(c, vec!["x"], true)],
        bump: 0,
    };
    assert_eq!(semantic_signer(&registry, &"x".to_string()), Some(c));
    assert_eq!(semantic_signer(&registry, &"none".to_string()), Some(b));
    let empty = AIServiceRegistry { authority: a, services: vec![], bump: 0 };
    assert_eq!(semantic_signer(&empty, &"x".to_string()), None);
}

#[test]
fn semantic_message_is_sha256_of_fields() {
    let d = SemanticDomain {
        domain_id: 12,
        name: "d".to_string(),
        embedding_hash: [5u8; 32],
        embedding_signature: [1u8; 64],
        provider: "p".to_string(),
        created_at: -3,
    };
    let mut hasher = sha2::Sha256::new();
    hasher.update([5u8; 32]);
    hasher.update(12u64.to_le_bytes());
    hasher.update((-3i64).to_le_bytes());
    let expected: [u8; 32] = hasher.finalize().into();
    assert_eq!(semantic_message_hash(&d), expected);
}

#[test]
fn grant_life_cycle_and_disbursement() {
    let s = setup();
    let mut g = request(&s, 1000, 0, GrantType::Core, None).unwrap();
    let mut mg = s.group;
    assert_eq!(complete_grant_handler(&mut g, 5), Err(IndrasError::InvalidState));
    assert_eq!(g.status, GrantStatus::Pending);
    assert_eq!(g.completed_at, None);
    assert_eq!(activate_grant_handler(&mut g), Err(IndrasError::InvalidState));
    approve_grant_handler(&mut g, &mut mg).unwrap();
    assert_eq!(g.status, GrantStatus::Approved);
    assert!(g.commercialization_right_transferred);
    assert_eq!(mg.grants, vec![44]);
    assert_eq!(approve_grant_handler(&mut g, &mut mg), Err(IndrasError::InvalidState));
    let mut t = Treasury { balance: 800, bump: 1 };
    assert_eq!(disburse_grant_handler(&mut g, &mut t, 100), Err(IndrasError::InvalidState));
    activate_grant_handler(&mut g).unwrap();
    assert_eq!(disburse_grant_handler(&mut g, &mut t, 0), Err(IndrasError::InvalidInput));
    assert_eq!(disburse_grant_handler(&mut g, &mut t, 900), Err(IndrasError::InsufficientFunds));
    disburse_grant_handler(&mut g, &mut t, 600).unwrap();
    assert_eq!(g.disbursed_amount, 600);
    assert_eq!(t.balance, 200);
    t.balance = 1000;
    assert_eq!(disburse_grant_handler(&mut g, &mut t, 401), Err(IndrasError::AmountTooLarge));
    disburse_grant_handler(&mut g, &mut t, 400).unwrap();
    assert_eq!(g.disbursed_amount, 1000);
    assert_eq!(g.status, GrantStatus::Completed);
    let paid_off = g.completed_at;
    assert_eq!(complete_grant_handler(&mut g, 99), Err(IndrasError::InvalidState));
    assert_eq!(g.completed_at, paid_off);
    let mut active = request(&setup(), 1000, 0, GrantType::Core, None).unwrap();
    active.status = GrantStatus::Active;
    complete_grant_handler(&mut active, 99).unwrap();
    assert_eq!(active.status, GrantStatus::Completed);
    assert_eq!(active.completed_at, Some(99));
}

#[test]
fn final_report_cycle() {
    let s = setup();
    let mut g = request(&s, 1000, 0, GrantType::Core, None).unwrap();
    let authority = key_of(Pubkey::new_unique());
    let submit = |g: &mut Grant, who: &Key, text: &str| {
        submit_grant_report_handler(g, &s.group_account, Some(&s.group), &authority, who, 7, 1, 44, text.to_string(), None)
    };
    assert_eq!(submit(&mut g, &s.creator, "r").map(|_| ()), Err(IndrasError::InvalidState));
    g.status = GrantStatus::Active;
    let outsider = key_of(Pubkey::new_unique());
    assert_eq!(submit(&mut g, &outsider, "r").map(|_| ()), Err(IndrasError::Unauthorized));
    assert_eq!(submit(&mut g, &s.creator, "").map(|_| ()), Err(IndrasError::InvalidInput));
    assert_eq!(submit(&mut g, &s.creator, &"r".repeat(2001)).map(|_| ()), Err(IndrasError::StringTooLong));
    let mut report = submit(&mut g, &s.creator, "done").unwrap();
    assert!(g.final_report_submitted);
    assert_eq!(report.status, GrantReportStatus::Submitted);
    assert_eq!(submit(&mut g, &authority, "again").map(|_| ()), Err(IndrasError::InvalidState));
    assert_eq!(
        reject_grant_report_handler(&mut g, &mut report, &outsider, &authority, 44, "no".to_string()),
        Err(IndrasError::Unauthorized)
    );
    reject_grant_report_handler(&mut g, &mut report, &authority, &authority, 44, "no".to_string()).unwrap();
    assert!(!g.final_report_submitted);
    assert_eq!(report.status, GrantReportStatus::Rejected);
    let mut report = submit(&mut g, &s.creator, "done 2").unwrap();
    approve_grant_report_handler(&mut g, &mut report, &authority, &authority, 8, 44).unwrap();
    assert!(g.final_report_approved);
    assert_eq!(report.approved_by, Some(authority));
    let mut urgent = request(&s, 10, 0, GrantType::Core, None).unwrap();
    urgent.disbursement_type = GrantDisbursementType::Urgent;
    urgent.status = GrantStatus::Active;
    assert_eq!(submit(&mut urgent, &s.creator, "r").map(|_| ()), Err(IndrasError::InvalidState));
}

#[test]
fn quorum_and_threshold_values() {
    assert_eq!(calculate_quorum(1, 3, 10), (3, true));
    assert_eq!(calculate_quorum(3, 4, 10), (5, false));
    assert_eq!(calculate_quorum(4, 5, 10), (5, true));
    assert_eq!(calculate_quorum(6, 6, 0), (6, false));
    assert_eq!(calculate_quorum(7, 8, 1), (8, true));
    let largest = (u64::MAX - 4) / 2;
    assert_eq!(calculate_quorum(largest, 0, 1).0, (largest * 2 + 4) / 5 + 5);
    let mut last = 0;
    for size in 0..40u64 {
        let (q, _) = calculate_quorum(size, 0, 0);
        assert!(q >= last);
        last = q;
    }
    assert_eq!(calculate_approval_threshold(0), 51);
    assert_eq!(calculate_approval_threshold(50_000_000), 51);
    assert_eq!(calculate_approval_threshold(99_999_999), 51);
    assert_eq!(calculate_approval_threshold(100_000_000), 60);
    assert_eq!(calculate_approval_threshold(499_999_999), 60);
    assert_eq!(calculate_approval_threshold(500_000_000), 67);
    assert_eq!(calculate_approval_threshold(1_000_000_000), 67);
    for amount in [0u64, 99_999_999, 100_000_000, 100_000_001, 499_999_999, 500_000_000, 1_000_000_000] {
        let sol = amount as f64 / 1_000_000_000.0;
        let float_threshold = if sol < 0.1 { 51 } else if sol < 0.5 { 60 } else { 67 };
        assert_eq!(calculate_approval_threshold(amount), float_threshold);
    }
}

#[test]
fn member_votes_weigh_double_and_tally_approves() {
    let s = setup();
    let mut g = request(&s, 1000, 0, GrantType::Core, None).unwrap();
    g.voting_end = 100;
    let mut mg = s.group;
    let outsider = key_of(Pubkey::new_unique());
    let v = grant_voting::cast_grant_vote_handler(&mut g, &mg, &s.idea, &s.creator, 10, 0, 44, VoteType::Yes).unwrap();
    assert_eq!(v.weight, 2);
    assert_eq!(v.voter_type, VoterType::MeshGroupMember);
    let v = grant_voting::cast_grant_vote_handler(&mut g, &mg, &s.idea, &outsider, 10, 0, 44, VoteType::Yes).unwrap();
    assert_eq!(v.weight, 1);
    assert_eq!(v.voter_type, VoterType::DaoMember);
    assert_eq!(g.total_yes_weight, 3);
    assert_eq!(g.total_no_weight, 0);
    assert_eq!(g.total_votes, 2);
    assert_eq!(
        grant_voting::cast_grant_vote_handler(&mut g, &mg, &s.idea, &outsider, 101, 0, 44, VoteType::No).map(|_| ()),
        Err(IndrasError::InvalidState)
    );
    grant_voting::tally_grant_votes_handler(&mut g, &mut mg, 50, 44).unwrap();
    assert_eq!(g.status, GrantStatus::Pending);
    assert!(!g.quorum_reached);
    grant_voting::cast_grant_vote_handler(&mut g, &mg, &s.idea, &outsider, 11, 0, 44, VoteType::Abstain).unwrap();
    grant_voting::tally_grant_votes_handler(&mut g, &mut mg, 50, 44).unwrap();
    assert!(g.quorum_reached);
    assert_eq!(g.status, GrantStatus::Approved);
    assert_eq!(mg.grants, vec![44]);
}

#[test]
fn tally_rejects_without_quorum_after_deadline() {
    let s = setup();
    let mut g = request(&s, 1000, 0, GrantType::Core, None).unwrap();
    g.voting_end = 100;
    let mut mg = s.group;
    grant_voting::tally_grant_votes_handler(&mut g, &mut mg, 101, 44).unwrap();
    assert_eq!(g.status, GrantStatus::Rejected);
}

#[test]
fn layered_votes_and_tally() {
    let s = setup();
    let mut g = request(&s, 1000, 0, GrantType::Core, None).unwrap();
    g.voting_end = 100;
    let outsider = key_of(Pubkey::new_unique());
    let cast = |g: &mut Grant, who: &Key, t: VoterType, comp: Option<u64>, sem: Option<u64>| {
        grants_voting::cast_grant_vote_handler(
            g,
            &s.group_account.key,
            Some(&s.group),
            Some(&s.idea),
            None,
            who,
            10,
            0,
            sem,
            44,
            VoteType::Yes,
            t,
            comp,
        )
    };
    assert_eq!(cast(&mut g, &outsider, VoterType::DaoMember, None, None).map(|_| ()), Err(IndrasError::Unauthorized));
    assert_eq!(cast(&mut g, &s.creator, VoterType::Expert, None, None).map(|_| ()), Err(IndrasError::InvalidInput));
    let v = cast(&mut g, &s.creator, VoterType::MeshGroupMember, Some(150), Some(50)).unwrap();
    assert_eq!(v.weight, 1);
    g.voting_layer = VotingLayer::AllLayers;
    let v = cast(&mut g, &outsider, VoterType::DaoMember, Some(150), None).unwrap();
    assert_eq!(v.weight, 1);
    assert_eq!(cast(&mut g, &outsider, VoterType::IdeaAuthor, None, None).map(|_| ()), Err(IndrasError::Unauthorized));
    assert_eq!(cast(&mut g, &outsider, VoterType::Expert, None, None).map(|_| ()), Err(IndrasError::InvalidInput));
    assert_eq!(g.total_yes_weight, 2);
    assert_eq!(grants_voting::tally_grant_votes_handler(&mut g, &s.group, 99, 44), Err(IndrasError::InvalidState));
    grants_voting::tally_grant_votes_handler(&mut g, &s.group, 100, 44).unwrap();
    assert_eq!(g.status, GrantStatus::Approved);
    assert_eq!(g.approved_at, Some(100));
}
