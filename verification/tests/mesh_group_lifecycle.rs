use anchor_lang::prelude::Pubkey;
use indrasnet_dao_core::access::{DaoConfig, MemberRole};
use indrasnet_dao_core::error::IndrasError;
use indrasnet_dao_core::keys::Key;
use indrasnet_dao_core::mesh_group::{
    check_mesh_group_inactivity_handler, close_mesh_group_account_handler, close_mesh_group_handler,
    complete_mesh_group_handler, disband_mesh_group_handler, join_mesh_group_handler, pause_mesh_group_handler,
    remove_member_from_mesh_group_handler, resume_mesh_group_handler, transfer_leadership_handler,
    update_mesh_group_protocol_handler, GroupMemberHistory, GroupRole, GroupStatus, GroupType, MeetingFrequency,
    MeshGroup, MemberLeaveReason,
};
use indrasnet_dao_core::mesh_group_create::create_mesh_group_handler;
use indrasnet_dao_core::role_permissions::CAN_MANAGE_MESH_GROUPS;

fn key_of(p: Pubkey) -> Key {
    Key { bytes: p.to_bytes() }
}

fn dao(authority: Key, dev_mode: bool) -> DaoConfig {
    DaoConfig {
        schema_version: 2,
        authority,
        name: "DAO".to_string(),
        description: "d".to_string(),
        is_active: true,
        dev_mode,
        is_paused: false,
        last_operation_timestamp: None,
        operation_count: 0,
        execution_delay_seconds: 86400,
        adaptive_security_enabled: true,
        progressive_unlock_enabled: true,
        behavioral_analysis_enabled: true,
        created_at: 0,
        updated_at: None,
        deactivated_at: None,
        reactivated_at: None,
        authority_transferred_at: None,
        security_enhancement_count: 0,
        bump: 0,
    }
}

fn new_group(creator: Key, authority: Key) -> MeshGroup {
    let (g, tracker) = create_mesh_group_handler(
        &creator,
        &dao(authority, true),
        &Some(MemberRole { member: creator, role_mask: CAN_MANAGE_MESH_GROUPS }),
        None,
        None,
        None,
        &authority,
        None,
        Ok(()),
        None,
        1000,
        1,
        7,
        "Group".to_string(),
        "A group".to_string(),
        GroupType::Research,
        None,
        None,
        None,
        None,
        None,
        None,
    )
    .unwrap();
    assert!(tracker.is_none());
    g
}


#[test]
fn pause_resume_complete_close_cycle() {
    let creator = key_of(Pubkey::new_unique());
    let authority = key_of(Pubkey::new_unique());
    let stranger = key_of(Pubkey::new_unique());
    let mut g = new_group(creator, authority);
    assert_eq!(pause_mesh_group_handler(&mut g, &stranger, &authority, &None), Err(IndrasError::Unauthorized));
    assert_eq!(g.status, GroupStatus::Active);
    assert_eq!(resume_mesh_group_handler(&mut g, &creator, &authority, &None), Err(IndrasError::InvalidState));
    pause_mesh_group_handler(&mut g, &creator, &authority, &None).unwrap();
    assert_eq!(g.status, GroupStatus::Paused);
    assert_eq!(complete_mesh_group_handler(&mut g, &creator, &authority, &None), Err(IndrasError::InvalidState));
    assert_eq!(close_mesh_group_handler(&mut g, &creator, &authority, &None), Err(IndrasError::InvalidState));
    resume_mesh_group_handler(&mut g, &authority, &authority, &None).unwrap();
    assert_eq!(g.status, GroupStatus::Active);
    let manager = MemberRole { member: stranger, role_mask: CAN_MANAGE_MESH_GROUPS };
    complete_mesh_group_handler(&mut g, &stranger, &authority, &Some(manager)).unwrap();
    assert_eq!(g.status, GroupStatus::Completed);
    close_mesh_group_handler(&mut g, &creator, &authority, &None).unwrap();
    assert_eq!(g.status, GroupStatus::Disbanded);
}

#[test]
fn disband_needs_only_a_manager() {
    let creator = key_of(Pubkey::new_unique());
    let authority = key_of(Pubkey::new_unique());
    let mut g = new_group(creator, authority);
    pause_mesh_group_handler(&mut g, &creator, &authority, &None).unwrap();
    let stranger = key_of(Pubkey::new_unique());
    let no_rights = MemberRole { member: stranger, role_mask: 0 };
    assert_eq!(
        disband_mesh_group_handler(&mut g, &stranger, &authority, &Some(no_rights)),
        Err(IndrasError::Unauthorized)
    );
    assert_eq!(g.status, GroupStatus::Paused);
    disband_mesh_group_handler(&mut g, &creator, &authority, &None).unwrap();
    assert_eq!(g.status, GroupStatus::Disbanded);
}

#[test]
fn account_close_checks_id_then_closer() {
    let creator = key_of(Pubkey::new_unique());
    let authority = key_of(Pubkey::new_unique());
    let g = new_group(creator, authority);
    let stranger = key_of(Pubkey::new_unique());
    assert_eq!(close_mesh_group_account_handler(&g, &creator, &authority, g.id + 1), Err(IndrasError::InvalidInput));
    assert_eq!(close_mesh_group_account_handler(&g, &stranger, &authority, g.id), Err(IndrasError::Unauthorized));
    assert_eq!(close_mesh_group_account_handler(&g, &creator, &authority, g.id), Ok(()));
    assert_eq!(close_mesh_group_account_handler(&g, &authority, &authority, g.id), Ok(()));
}

#[test]
fn leader_removes_member_and_history_records_it() {
    let creator = key_of(Pubkey::new_unique());
    let authority = key_of(Pubkey::new_unique());
    let mut g = new_group(creator, authority);
    let m = key_of(Pubkey::new_unique());
    join_mesh_group_handler(&mut g, &m, GroupRole::Member, 2000).unwrap();
    let mut history = Some(GroupMemberHistory { exits: vec![] });
    assert_eq!(
        remove_member_from_mesh_group_handler(&mut g, &m, &creator, &mut history, 2100),
        Err(IndrasError::Unauthorized)
    );
    assert_eq!(history.as_ref().unwrap().exits.len(), 0);
    remove_member_from_mesh_group_handler(&mut g, &creator, &m, &mut history, 2100).unwrap();
    assert_eq!(g.members.len(), 1);
    let exits = &history.as_ref().unwrap().exits;
    assert_eq!(exits.len(), 1);
    assert_eq!(exits[0].member, m);
    assert_eq!(exits[0].left_at, 2100);
    assert_eq!(exits[0].reason, MemberLeaveReason::Removed);
    assert_eq!(history.as_ref().unwrap().check_cooldown(&m, 2100 + 86400, 30), Err(IndrasError::CooldownActive));
    assert_eq!(history.as_ref().unwrap().check_cooldown(&m, 2100 + 30 * 86400, 30), Ok(()));
    let mut none: Option<GroupMemberHistory> = None;
    assert_eq!(
        remove_member_from_mesh_group_handler(&mut g, &creator, &m, &mut none, 2200),
        Err(IndrasError::MemberNotFound)
    );
    pause_mesh_group_handler(&mut g, &creator, &authority, &None).unwrap();
    assert_eq!(
        remove_member_from_mesh_group_handler(&mut g, &creator, &creator, &mut none, 2300),
        Err(IndrasError::InvalidState)
    );
}

#[test]
fn leadership_moves_only_to_another_member() {
    let creator = key_of(Pubkey::new_unique());
    let authority = key_of(Pubkey::new_unique());
    let mut g = new_group(creator, authority);
    let m = key_of(Pubkey::new_unique());
    let outsider = key_of(Pubkey::new_unique());
    join_mesh_group_handler(&mut g, &m, GroupRole::Member, 2000).unwrap();
    assert_eq!(transfer_leadership_handler(&mut g, &m, &m), Err(IndrasError::Unauthorized));
    assert_eq!(transfer_leadership_handler(&mut g, &creator, &outsider), Err(IndrasError::MemberNotFound));
    assert_eq!(transfer_leadership_handler(&mut g, &creator, &creator), Err(IndrasError::InvalidInput));
    transfer_leadership_handler(&mut g, &creator, &m).unwrap();
    assert_eq!(g.leader, m);
    assert_eq!(transfer_leadership_handler(&mut g, &creator, &creator), Err(IndrasError::Unauthorized));
}

#[test]
fn protocol_bounds_and_inactivity_pause() {
    let creator = key_of(Pubkey::new_unique());
    let authority = key_of(Pubkey::new_unique());
    let mut g = new_group(creator, authority);
    let other = key_of(Pubkey::new_unique());
    assert_eq!(
        update_mesh_group_protocol_handler(&mut g, &other, MeetingFrequency::Daily, 60, 5, 10),
        Err(IndrasError::Unauthorized)
    );
    assert_eq!(
        update_mesh_group_protocol_handler(&mut g, &creator, MeetingFrequency::Daily, 49, 5, 10),
        Err(IndrasError::InvalidInput)
    );
    assert_eq!(
        update_mesh_group_protocol_handler(&mut g, &creator, MeetingFrequency::Daily, 60, 0, 10),
        Err(IndrasError::InvalidInput)
    );
    assert_eq!(
        update_mesh_group_protocol_handler(&mut g, &creator, MeetingFrequency::Daily, 60, 5, 366),
        Err(IndrasError::InvalidInput)
    );
    assert_eq!(g.protocol.decision_quorum, 51);
    update_mesh_group_protocol_handler(&mut g, &creator, MeetingFrequency::Monthly, 100, 100, 1).unwrap();
    assert_eq!(g.protocol.meeting_frequency, MeetingFrequency::Monthly);
    assert_eq!(g.protocol.decision_quorum, 100);
    assert_eq!(g.protocol.contribution_threshold, 100);
    assert_eq!(g.protocol.inactivity_timeout_days, 1);
    let last = g.last_contribution_at;
    assert!(!check_mesh_group_inactivity_handler(&mut g, last + 86399));
    assert_eq!(g.status, GroupStatus::Active);
    assert!(check_mesh_group_inactivity_handler(&mut g, last + 86400));
    assert_eq!(g.status, GroupStatus::Paused);
    assert!(!check_mesh_group_inactivity_handler(&mut g, last + 10 * 86400));
    assert_eq!(g.status, GroupStatus::Paused);
}
