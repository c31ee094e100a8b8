#![allow(unused_imports, unused_variables)]



#[test]
fn test_initialize_dao_validation_empty_name() {
    // Test: empty name should fail
    let name = String::new();
    
    // Validation logic: require!(!name.is_empty(), IndrasError::InvalidInput)
    assert!(name.is_empty(), "Empty name should be detected");
}

#[test]
fn test_initialize_dao_validation_name_too_long() {
    // Test: name.len() > 100 should fail
    let name = "a".repeat(101);
    
    // Validation logic: require!(name.len() <= 100, IndrasError::InvalidInput)
    assert!(name.len() > 100, "Name too long should be detected");
}

#[test]
fn test_initialize_dao_validation_empty_description() {
    // Test: empty description should fail
    let description = String::new();
    
    // Validation logic: require!(!description.is_empty(), IndrasError::InvalidInput)
    assert!(description.is_empty(), "Empty description should be detected");
}

#[test]
fn test_initialize_dao_validation_description_too_long() {
    // Test: description.len() > 500 should fail
    let description = "a".repeat(501);
    
    // Validation logic: require!(description.len() <= 500, IndrasError::InvalidInput)
    assert!(description.len() > 500, "Description too long should be detected");
}

#[test]
fn test_initialize_dao_validation_valid_inputs() {
    // Test: valid inputs should pass
    let name = "Valid DAO Name".to_string();
    let description = "Valid description".to_string();
    
    // All validations should pass
    assert!(!name.is_empty() && name.len() <= 100, "Name should be valid");
    assert!(!description.is_empty() && description.len() <= 500, "Description should be valid");
}

#[test]
fn test_manage_quorum_validation_quorum_threshold_too_large() {
    // Test: quorum_threshold > 100 should fail
    let quorum_threshold = 101u64;
    
    // Validation logic: require!(quorum_threshold <= 100, IndrasError::InvalidInput)
    assert!(quorum_threshold > 100, "Quorum threshold too large should be detected");
}

#[test]
fn test_manage_quorum_validation_quorum_threshold_valid() {
    // Test: quorum_threshold <= 100 should pass
    let quorum_threshold = 50u64;
    
    // Validation logic: require!(quorum_threshold <= 100, IndrasError::InvalidInput)
    assert!(quorum_threshold <= 100, "Valid quorum threshold should pass");
}

#[test]
fn test_manage_quorum_validation_required_votes_too_large() {
    // Test: required_votes > MAX_REQUIRED_VOTES should fail
    let required_votes = 1_000_000_001u64;
    const MAX_REQUIRED_VOTES: u64 = 1_000_000_000;
    
    // Validation logic: require!(required_votes <= MAX_REQUIRED_VOTES, IndrasError::AmountTooLarge)
    assert!(required_votes > MAX_REQUIRED_VOTES, "Required votes too large should be detected");
}

#[test]
fn test_manage_quorum_validation_required_votes_valid() {
    // Test: required_votes <= MAX_REQUIRED_VOTES should pass
    let required_votes = 1_000_000_000u64;
    const MAX_REQUIRED_VOTES: u64 = 1_000_000_000;
    
    // Validation logic: require!(required_votes <= MAX_REQUIRED_VOTES, IndrasError::AmountTooLarge)
    assert!(required_votes <= MAX_REQUIRED_VOTES, "Valid required votes should pass");
}

#[test]
fn test_manage_quorum_validation_valid_inputs() {
    // Test: valid inputs should pass
    let quorum_threshold = 50u64;
    let required_votes = 1000u64;
    
    // All validations should pass
    assert!(quorum_threshold <= 100, "Quorum threshold should be valid");
    assert!(required_votes <= 1_000_000_000, "Required votes should be valid");
}

#[test]
fn test_initialize_dao_validation_name_exact_max_length() {
    // Test: name.len() == 100 should pass
    let name = "a".repeat(100);
    assert_eq!(name.len(), 100, "Name at max length should be valid");
}

#[test]
fn test_initialize_dao_validation_description_exact_max_length() {
    // Test: description.len() == 500 should pass
    let description = "a".repeat(500);
    assert_eq!(description.len(), 500, "Description at max length should be valid");
}

#[test]
fn test_manage_quorum_validation_quorum_threshold_zero() {
    // Test: quorum_threshold == 0 should pass
    let quorum_threshold = 0u64;
    assert!(quorum_threshold <= 100, "Zero quorum threshold should be valid");
}

#[test]
fn test_manage_quorum_validation_quorum_threshold_exact_max() {
    // Test: quorum_threshold == 100 should pass
    let quorum_threshold = 100u64;
    assert_eq!(quorum_threshold, 100, "Quorum threshold at max should be valid");
}

#[test]
fn test_manage_quorum_validation_required_votes_zero() {
    // Test: required_votes == 0 should pass
    let required_votes = 0u64;
    assert!(required_votes <= 1_000_000_000, "Zero required votes should be valid");
}

#[test]
fn test_manage_quorum_validation_required_votes_exact_max() {
    // Test: required_votes == MAX_REQUIRED_VOTES should pass
    let required_votes = 1_000_000_000u64;
    assert_eq!(required_votes, 1_000_000_000, "Required votes at max should be valid");
}

#[test]
fn test_initialize_governance_params_validation_quorum_percentage_exact_max() {
    // Test: quorum_percentage == 100 should pass
    let quorum_percentage = 100u8;
    assert!(quorum_percentage <= 100, "Quorum percentage at max should be valid");
}

#[test]
fn test_initialize_governance_params_validation_quorum_percentage_zero() {
    // Test: quorum_percentage == 0 should pass
    let quorum_percentage = 0u8;
    assert!(quorum_percentage <= 100, "Zero quorum percentage should be valid");
}

#[test]
fn test_initialize_governance_params_validation_vote_duration_hours_exact_min() {
    // Test: vote_duration_hours == 24 should pass
    let vote_duration_hours = 24u64;
    assert!((24..=720).contains(&vote_duration_hours), "Vote duration at min should be valid");
}

#[test]
fn test_initialize_governance_params_validation_vote_duration_hours_exact_max() {
    // Test: vote_duration_hours == 720 should pass
    let vote_duration_hours = 720u64;
    assert!((24..=720).contains(&vote_duration_hours), "Vote duration at max should be valid");
}

#[test]
fn test_initialize_governance_params_validation_vote_duration_hours_too_low() {
    // Test: vote_duration_hours < 24 should fail
    let vote_duration_hours = 23u64;
    assert!(!(24..=720).contains(&vote_duration_hours), "Vote duration too low should be detected");
}

#[test]
fn test_initialize_governance_params_validation_vote_duration_hours_too_high() {
    // Test: vote_duration_hours > 720 should fail
    let vote_duration_hours = 721u64;
    assert!(!(24..=720).contains(&vote_duration_hours), "Vote duration too high should be detected");
}

#[test]
fn test_initialize_governance_params_validation_delegate_weight_percentage_exact_max() {
    // Test: delegate_weight_percentage == 100 should pass
    let delegate_weight_percentage = 100u8;
    assert!(delegate_weight_percentage <= 100, "Delegate weight percentage at max should be valid");
}

#[test]
fn test_initialize_governance_params_validation_delegate_weight_percentage_zero() {
    // Test: delegate_weight_percentage == 0 should pass
    let delegate_weight_percentage = 0u8;
    assert!(delegate_weight_percentage <= 100, "Zero delegate weight percentage should be valid");
}

#[test]
fn test_initialize_governance_params_validation_quorum_percentage_too_large() {
    // Test: quorum_percentage > 100 should fail
    let quorum_percentage = 101u8;
    assert!(quorum_percentage > 100, "Quorum percentage too large should be detected");
}

#[test]
fn test_initialize_governance_params_validation_delegate_weight_percentage_too_large() {
    // Test: delegate_weight_percentage > 100 should fail
    let delegate_weight_percentage = 101u8;
    assert!(delegate_weight_percentage > 100, "Delegate weight percentage too large should be detected");
}

#[test]
fn test_initialize_governance_params_validation_early_quorum_enabled_true() {
    // Test: early_quorum_enabled == true should pass
    let early_quorum_enabled = true;
    assert!(early_quorum_enabled || !early_quorum_enabled, "Early quorum enabled should be valid");
}

#[test]
fn test_initialize_governance_params_validation_early_quorum_enabled_false() {
    // Test: early_quorum_enabled == false should pass
    let early_quorum_enabled = false;
    assert!(early_quorum_enabled || !early_quorum_enabled, "Early quorum disabled should be valid");
}

#[test]
fn test_initialize_governance_params_validation_valid_inputs() {
    // Test: valid inputs should pass
    let quorum_percentage = 50u8;
    let vote_duration_hours = 168u64; // 7 days
    let delegate_weight_percentage = 10u8;
    let early_quorum_enabled = true;
    
    assert!(quorum_percentage <= 100, "Quorum percentage should be valid");
    assert!((24..=720).contains(&vote_duration_hours), "Vote duration should be valid");
    assert!(delegate_weight_percentage <= 100, "Delegate weight percentage should be valid");
    assert!(early_quorum_enabled || !early_quorum_enabled, "Early quorum flag should be valid");
}

#[test]
fn test_update_governance_params_validation_all_none() {
    // Test: all parameters None should pass (no update)
    let quorum_percentage: Option<u8> = None;
    let vote_duration_hours: Option<u64> = None;
    let delegate_weight_percentage: Option<u8> = None;
    let early_quorum_enabled: Option<bool> = None;
    
    // All None is valid - no update will occur
    assert!(quorum_percentage.is_none() && 
            vote_duration_hours.is_none() && 
            delegate_weight_percentage.is_none() && 
            early_quorum_enabled.is_none(), 
            "All parameters None should be valid (no update)");
}

#[test]
fn test_update_governance_params_validation_partial_update() {
    // Test: partial update should pass
    let quorum_percentage = Some(60u8);
    let vote_duration_hours: Option<u64> = None;
    let delegate_weight_percentage: Option<u8> = None;
    let early_quorum_enabled: Option<bool> = None;
    
    if let Some(qp) = quorum_percentage {
        assert!(qp <= 100, "Quorum percentage should be valid");
    }
    assert!(vote_duration_hours.is_none(), "Vote duration None should be valid");
    assert!(delegate_weight_percentage.is_none(), "Delegate weight None should be valid");
    assert!(early_quorum_enabled.is_none(), "Early quorum None should be valid");
}

