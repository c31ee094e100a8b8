use anchor_lang::prelude::Pubkey;
use indrasnet_dao_core::access::{DaoConfig, MemberRole, RateLimitTracker};
use indrasnet_dao_core::error::IndrasError;
use indrasnet_dao_core::governance::GovernanceParams;
use indrasnet_dao_core::grant::VoteType;
use indrasnet_dao_core::idea::{
    complete_idea_handler, create_idea_handler, execute_idea_handler, resubmit_idea_handler,
    transfer_rights_to_ev_handler, AnchorRecord, Idea, IdeaStatus, RightsSelection,
};
use indrasnet_dao_core::idea_voting::{
    cast_idea_vote_handler, start_idea_voting_handler, tally_idea_votes_handler, IdeaVote, VoteAccount,
};
use indrasnet_dao_core::keys::Key;
use indrasnet_dao_core::mesh_group::{
    GroupMember, GroupRole, GroupStatus, GroupType, DevelopmentStage, MeetingFrequency, MeshGroup, OperatingProtocol,
};
use indrasnet_dao_core::role_permissions::CAN_CREATE_IDEA;
use indrasnet_dao_core::text::compute_idea_hash;

fn key_of(p: Pubkey) -> Key {
    Key { bytes: p.to_bytes() }
}

fn dao(authority: Key, dev_mode: bool) -> DaoConfig {
    DaoConfig {
        schema_version: 2,
        authority,
        name: "DAO".to_string(),
        description: "d".to_string(),
        is_active: true,
        dev_mode,
        is_paused: false,
        last_operation_timestamp: None,
        operation_count: 0,
        execution_delay_seconds: 86400,
        adaptive_security_enabled: true,
        progressive_unlock_enabled: true,
        behavioral_analysis_enabled: true,
        created_at: 0,
        updated_at: None,
        deactivated_at: None,
        reactivated_at: None,
        authority_transferred_at: None,
        security_enhancement_count: 0,
        bump: 0,
    }
}

fn create(author: &Key, cfg: &DaoConfig, tracker: Option<&RateLimitTracker>, now: i64, title: &str, desc: &str) -> Result<(Idea, Option<RateLimitTracker>), IndrasError> {
    let role = Some(MemberRole { member: *author, role_mask: CAN_CREATE_IDEA });
    create_idea_handler(
        author,
        cfg,
        tracker,
        &role,
        &key_of(Pubkey::new_unique()),
        &key_of(Pubkey::new_unique()),
        None,
        None,
        Ok(()),
        now,
        1,
        1,
        title.to_string(),
        desc.to_string(),
        None,
        None,
        None,
        None,
        None,
        None,
    )
}

fn group_with(ideas: Vec<u64>, phenomena: Vec<Key>) -> MeshGroup {
    let leader = key_of(Pubkey::new_unique());
    MeshGroup {
        id: 1,
        name: "G".to_string(),
        description: "g".to_string(),
        group_type: GroupType::Research,
        status: GroupStatus::Active,
        leader,
        created_by: leader,
        created_at: 0,
        members: vec![GroupMember {
            pubkey: leader,
            role: GroupRole::Leader,
            joined_at: 0,
            contributions: 0,
            reputation: 0,
            is_active: true,
        }],
        ideas,
        grants: Vec::new(),
        phenomena,
        max_members: 7,
        min_members: 1,
        parent_group: None,
        supporting_groups: Vec::new(),
        stage_deadline: None,
        current_stage: DevelopmentStage::Planning,
        started_at: None,
        completed_at: None,
        total_contributions: 0,
        total_reputation: 0,
        bump: 0,
        protocol: OperatingProtocol {
            meeting_frequency: MeetingFrequency::Weekly,
            decision_quorum: 51,
            contribution_threshold: 1,
            inactivity_timeout_days: 30,
        },
        last_meeting_at: None,
        last_contribution_at: 0,
        last_member_added_at: None,
        last_group_created_at: None,
        member_reputation_required: 10,
        member_cooldown_days: 30,
        is_in_critical_moment: false,
        critical_moment_until: None,
        embedding_hash: None,
        embedding_signature: None,
        embedding_provider: None,
        embedding_model: None,
        embedding_model_version: None,
        embedding_created_at: None,
        embedding_updated_at: None,
        embedding_update_count: 0,
    }
}

#[test]
fn created_idea_is_a_hashed_draft() {
    let author = key_of(Pubkey::new_unique());
    let (idea, tracker) = create(&author, &dao(author, true), None, 10, "  My idea ", "line\r\nmore").unwrap();
    assert!(tracker.is_none());
    assert_eq!(idea.status, IdeaStatus::Draft);
    assert_eq!(idea.author, author);
    assert_eq!(idea.idea_hash, Some(compute_idea_hash("My idea\nline\nmore")));
    assert_eq!(idea.embedding_update_count, 0);
}

#[test]
fn idea_creation_refusals() {
    let author = key_of(Pubkey::new_unique());
    let cfg = dao(key_of(Pubkey::new_unique()), true);
    assert_eq!(create(&author, &cfg, None, 1, "", "d").map(|_| ()), Err(IndrasError::InvalidInput));
    assert_eq!(create(&author, &cfg, None, 1, &"t".repeat(101), "d").map(|_| ()), Err(IndrasError::InvalidInput));
    assert_eq!(create(&author, &cfg, None, 1, "t", &"d".repeat(501)).map(|_| ()), Err(IndrasError::InvalidInput));
    assert!(create(&author, &cfg, None, 1, &"t".repeat(100), &"d".repeat(500)).is_ok());
    assert_eq!(
        create(&author, &dao(key_of(Pubkey::new_unique()), false), None, 1, "t", "d").map(|_| ()),
        Err(IndrasError::AccountNotFound)
    );
    let stranger = key_of(Pubkey::new_unique());
    let r = create_idea_handler(
        &stranger, &cfg, None, &None, &author, &author, None, None, Ok(()), 1, 1, 1, "t".to_string(), "d".to_string(),
        None, None, None, None, None, None,
    );
    assert_eq!(r.map(|_| ()), Err(IndrasError::Unauthorized));
}

#[test]
fn one_idea_per_day() {
    let author = key_of(Pubkey::new_unique());
    let cfg = dao(author, false);
    let fresh = RateLimitTracker {
        user: Key { bytes: [0u8; 32] },
        operation_type: String::new(),
        last_operation_at: 0,
        operation_count: 0,
        window_start: 0,
        bump: 1,
    };
    let (_, t) = create(&author, &cfg, Some(&fresh), 100_000, "t", "d").unwrap();
    let t = t.unwrap();
    assert_eq!(t.operation_type, "create_idea");
    assert_eq!(create(&author, &cfg, Some(&t), 100_000 + 86_399, "t", "d").map(|_| ()), Err(IndrasError::RateLimitExceeded));
    assert!(create(&author, &cfg, Some(&t), 100_000 + 86_400, "t", "d").is_ok());
}

#[test]
fn idea_life_cycle() {
    let author = key_of(Pubkey::new_unique());
    let authority = key_of(Pubkey::new_unique());
    let (mut idea, _) = create(&author, &dao(author, true), None, 1, "t", "d").unwrap();
    let report = "report".to_string();
    assert_eq!(complete_idea_handler(&mut idea, &author, &authority, 1, &report), Err(IndrasError::InvalidState));
    idea.status = IdeaStatus::InProgress;
    let stranger = key_of(Pubkey::new_unique());
    assert_eq!(complete_idea_handler(&mut idea, &stranger, &authority, 1, &report), Err(IndrasError::Unauthorized));
    assert_eq!(complete_idea_handler(&mut idea, &author, &authority, 1, &"r".repeat(2001)), Err(IndrasError::DataTooLarge));
    complete_idea_handler(&mut idea, &author, &authority, 1, &report).unwrap();
    assert_eq!(idea.status, IdeaStatus::Completed);
    let exec = execute_idea_handler(&mut idea, &authority, &authority, 1, "ran it".to_string(), 5, 2).unwrap();
    assert_eq!(exec.idea_id, 1);
    assert_eq!(idea.status, IdeaStatus::Executed);
    let mut rejected = idea;
    rejected.status = IdeaStatus::Rejected;
    assert_eq!(
        resubmit_idea_handler(&mut rejected, 1, Some(String::new()), None),
        Err(IndrasError::InvalidInput)
    );
    resubmit_idea_handler(&mut rejected, 1, Some("new".to_string()), None).unwrap();
    assert_eq!(rejected.title, "new");
}

#[test]
fn rights_transfer_needs_the_authors_anchor() {
    let author = key_of(Pubkey::new_unique());
    let (mut idea, _) = create(&author, &dao(author, true), None, 1, "t", "d").unwrap();
    let anchor = AnchorRecord { idea_id: 1, anchor_data: String::new(), anchored_at: 0, anchorer: author, bump: 0 };
    let none = RightsSelection {
        can_modify: false,
        can_distribute: false,
        can_reproduce: false,
        can_develop: false,
        can_sublicense: false,
        can_gift: false,
        can_bequeath: false,
    };
    assert_eq!(transfer_rights_to_ev_handler(&mut idea, &author, &anchor, none, 3), Err(IndrasError::InvalidInput));
    let some = RightsSelection { can_develop: true, ..none };
    let other = AnchorRecord { anchorer: key_of(Pubkey::new_unique()), anchor_data: String::new(), ..anchor };
    assert_eq!(transfer_rights_to_ev_handler(&mut idea, &author, &other, some, 3), Err(IndrasError::Unauthorized));
    transfer_rights_to_ev_handler(&mut idea, &author, &anchor, some, 3).unwrap();
    let rights = idea.rights_transferred_to_ev.unwrap();
    assert!(rights.can_develop && !rights.can_modify);
    assert_eq!(rights.transferred_at, 3);
}

fn vote_account(program: &Pubkey, idea_key: &Pubkey, voter: &Pubkey, idea_id: u64, choice: VoteType, weight: u64) -> VoteAccount {
    let (addr, _) = Pubkey::find_program_address(&[b"idea_vote", idea_key.as_ref(), voter.as_ref()], program);
    VoteAccount {
        key: key_of(addr),
        owner: key_of(*program),
        data_len: 64,
        vote: Some(IdeaVote { idea_id, voter: key_of(*voter), vote_type: choice, weight, cast_at: 0, bump: 0 }),
    }
}

#[test]
fn idea_vote_and_tally() {
    let program = Pubkey::new_unique();
    let idea_pk = Pubkey::new_unique();
    let authority = key_of(Pubkey::new_unique());
    let author = key_of(Pubkey::new_unique());
    let (mut idea, _) = create(&author, &dao(author, true), None, 1, "t", "d").unwrap();
    let g = group_with(vec![1], vec![key_of(Pubkey::new_unique())]);
    assert_eq!(start_idea_voting_handler(&mut idea, &g, None, 1), Err(IndrasError::InvalidState));
    idea.status = IdeaStatus::Approved;
    let lonely = group_with(vec![1], vec![]);
    assert_eq!(start_idea_voting_handler(&mut idea, &lonely, None, 1), Err(IndrasError::NotInPhenomenon));
    start_idea_voting_handler(&mut idea, &g, None, 1).unwrap();
    assert_eq!(idea.status, IdeaStatus::Voting);
    let voter = key_of(Pubkey::new_unique());
    assert_eq!(cast_idea_vote_handler(&idea, &g, &voter, 5, 0, 1, VoteType::Yes, 0).map(|_| ()), Err(IndrasError::InvalidInput));
    assert_eq!(
        cast_idea_vote_handler(&idea, &g, &voter, 5, 0, 1, VoteType::Yes, 1_000_001).map(|_| ()),
        Err(IndrasError::AmountTooLarge)
    );
    let v = cast_idea_vote_handler(&idea, &g, &voter, 5, 0, 1, VoteType::Yes, 10).unwrap();
    assert_eq!(v.weight, 10);

    let v1 = Pubkey::new_unique();
    let v2 = Pubkey::new_unique();
    let accounts = vec![
        vote_account(&program, &idea_pk, &v1, 1, VoteType::Yes, 7),
        VoteAccount { key: key_of(Pubkey::new_unique()), owner: key_of(program), data_len: 0, vote: None },
        vote_account(&program, &idea_pk, &v2, 1, VoteType::No, 5),
    ];
    let mut anchor = AnchorRecord { idea_id: 0, anchor_data: String::new(), anchored_at: 0, anchorer: authority, bump: 0 };
    let cfg = dao(authority, true);
    let stranger = key_of(Pubkey::new_unique());
    assert_eq!(
        tally_idea_votes_handler(&mut idea, &key_of(idea_pk), &mut anchor, &cfg, &stranger, &key_of(program), None, &accounts, 9, 2, 1),
        Err(IndrasError::Unauthorized)
    );
    tally_idea_votes_handler(&mut idea, &key_of(idea_pk), &mut anchor, &cfg, &authority, &key_of(program), None, &accounts, 9, 2, 1)
        .unwrap();
    assert_eq!(idea.status, IdeaStatus::InProgress);
    assert_eq!(anchor.idea_id, 1);
    assert_eq!(anchor.anchor_data, "Idea 1 approved for grant via voting (yes: 7, no: 5)");
    assert_eq!(anchor.anchored_at, 9);
}

#[test]
fn tally_refuses_bad_vote_accounts() {
    let program = Pubkey::new_unique();
    let idea_pk = Pubkey::new_unique();
    let authority = key_of(Pubkey::new_unique());
    let author = key_of(Pubkey::new_unique());
    let (mut idea, _) = create(&author, &dao(author, true), None, 1, "t", "d").unwrap();
    idea.status = IdeaStatus::Voting;
    let cfg = dao(authority, true);
    let v1 = Pubkey::new_unique();
    let good = vote_account(&program, &idea_pk, &v1, 1, VoteType::Yes, 7);
    let run = |accounts: Vec<VoteAccount>, params: Option<Option<GovernanceParams>>| {
        let mut i = Idea { title: idea.title.clone(), description: idea.description.clone(), ..idea_copy(&idea) };
        let mut anchor = AnchorRecord { idea_id: 0, anchor_data: String::new(), anchored_at: 0, anchorer: authority, bump: 0 };
        let r = tally_idea_votes_handler(&mut i, &key_of(idea_pk), &mut anchor, &cfg, &authority, &key_of(program), params, &accounts, 9, 2, 1);
        (r, i.status)
    };
    assert_eq!(run(vec![good, good], None).0, Err(IndrasError::InvalidInput));
    let foreign = VoteAccount { owner: key_of(Pubkey::new_unique()), ..good };
    assert_eq!(run(vec![foreign], None).0, Err(IndrasError::InvalidProgram));
    let misplaced = VoteAccount { key: key_of(Pubkey::new_unique()), ..good };
    assert_eq!(run(vec![misplaced], None).0, Err(IndrasError::InvalidInput));
    let wrong_idea = vote_account(&program, &idea_pk, &v1, 2, VoteType::Yes, 7);
    assert_eq!(run(vec![wrong_idea], None).0, Err(IndrasError::InvalidInput));
    assert_eq!(run(vec![], Some(None)).0, Err(IndrasError::InvalidInput));
    assert_eq!(run(vec![], None), (Ok(()), IdeaStatus::Rejected));
    let tie = vec![
        vote_account(&program, &idea_pk, &Pubkey::new_unique(), 1, VoteType::Yes, 3),
        vote_account(&program, &idea_pk, &Pubkey::new_unique(), 1, VoteType::No, 3),
    ];
    assert_eq!(run(tie, None), (Ok(()), IdeaStatus::Rejected));
    let params = GovernanceParams {
        quorum_percentage: 100,
        vote_duration_hours: 24,
        delegate_weight_percentage: 0,
        early_quorum_enabled: false,
        update_timestamp: 0,
        bump: 0,
    };
    assert_eq!(run(vec![good], Some(Some(params))), (Ok(()), IdeaStatus::InProgress));
    let mut many = Vec::new();
    for _ in 0..100 {
        many.push(vote_account(&program, &idea_pk, &Pubkey::new_unique(), 1, VoteType::No, 1));
    }
    many.push(VoteAccount { owner: key_of(Pubkey::new_unique()), ..good });
    assert_eq!(run(many, None), (Ok(()), IdeaStatus::Rejected));
}

fn idea_copy(i: &Idea) -> Idea {
    Idea {
        id: i.id,
        author: i.author,
        title: i.title.clone(),
        description: i.description.clone(),
        status: i.status,
        rights_transferred_to_ev: None,
        idea_hash: i.idea_hash,
        embedding_hash: None,
        embedding_signature: None,
        embedding_provider: None,
        embedding_model: None,
        embedding_model_version: None,
        embedding_created_at: None,
        embedding_updated_at: None,
        embedding_update_count: 0,
        bump: 0,
    }
}

#[test]
fn submitted_embedding_is_checked_before_it_is_stored() {
    let author = key_of(Pubkey::new_unique());
    let cfg = dao(author, true);
    let submit = |hash: [u8; 32], sig: [u8; 64], provider: &str, pk: Option<Key>| {
        create_idea_handler(
            &author, &cfg, None, &None, &key_of(Pubkey::new_unique()), &key_of(Pubkey::new_unique()), None, None, Ok(()),
            5, 1, 1, "t".to_string(), "d".to_string(), Some(hash), Some(sig), Some(provider.to_string()), None, None, pk,
        )
    };
    assert_eq!(submit([0u8; 32], [1u8; 64], "p", None).map(|_| ()), Err(IndrasError::EmbeddingHashMismatch));
    assert_eq!(submit([1u8; 32], [0u8; 64], "p", None).map(|_| ()), Err(IndrasError::EmbeddingSignatureInvalid));
    assert_eq!(submit([1u8; 32], [1u8; 64], "", None).map(|_| ()), Err(IndrasError::InvalidEmbeddingProvider));
    assert_eq!(submit([1u8; 32], [1u8; 64], "p", None).map(|_| ()), Err(IndrasError::InvalidEmbeddingProvider));
    assert_eq!(submit([0u8; 32], [1u8; 64], "p", Some(author)).map(|_| ()), Err(IndrasError::EmbeddingHashMismatch));
    let (idea, _) = submit([1u8; 32], [1u8; 64], "p", Some(author)).unwrap();
    assert_eq!(idea.embedding_hash, Some([1u8; 32]));
    assert_eq!(idea.embedding_provider, Some("p".to_string()));
    assert_eq!(idea.embedding_created_at, Some(5));
    assert_eq!(idea.embedding_update_count, 1);
}
