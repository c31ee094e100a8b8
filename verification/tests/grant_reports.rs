#![allow(unused_imports, unused_variables)]

use indrasnet_dao_core::grant::GrantDisbursementType;
use anchor_lang::prelude::Pubkey;

#[test]
fn test_grant_disbursement_type_requires_report() {
    assert!(!GrantDisbursementType::Urgent.requires_report());
    assert!(GrantDisbursementType::Escrow.requires_report());
    assert!(GrantDisbursementType::Standard.requires_report());
}

#[test]
fn test_grant_disbursement_type_requires_escrow() {
    assert!(!GrantDisbursementType::Urgent.requires_escrow());
    assert!(GrantDisbursementType::Escrow.requires_escrow());
    assert!(!GrantDisbursementType::Standard.requires_escrow());
}

#[test]
fn test_grant_disbursement_type_can_close_without_report() {
    assert!(GrantDisbursementType::Urgent.can_close_without_report());
    assert!(!GrantDisbursementType::Escrow.can_close_without_report());
    assert!(!GrantDisbursementType::Standard.can_close_without_report());
}

