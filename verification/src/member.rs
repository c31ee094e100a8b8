use crate::access::outcome;
use crate::error::IndrasError;
use crate::keys::{key_eq, Key};
use vstd::prelude::*;

verus! {

/// A DAO member's standing.
#[derive(Clone, Copy, Debug, PartialEq, Eq, Structural)]
pub enum MemberStatus {
    Active,
    Inactive,
    Suspended,
}

/// A DAO member.
#[derive(Clone, Copy, Debug)]
pub struct Member {
    pub pubkey: Key,
    pub reputation: u64,
    pub status: MemberStatus,
}

/// Decides whether a member may leave the DAO (closing the member account):
/// the member must be Active and the signer must be that member.
pub fn leave_dao_handler(member: &Member, member_pubkey: &Key) -> (r: Result<(), IndrasError>)
    ensures
        r == outcome(
            if member.status != MemberStatus::Active {
                Some(IndrasError::InvalidState)
            } else if member.pubkey != *member_pubkey {
                Some(IndrasError::Unauthorized)
            } else {
                None
            },
        ),
{
    if member.status != MemberStatus::Active {
        return Err(IndrasError::InvalidState);
    }
    if !key_eq(&member.pubkey, member_pubkey) {
        return Err(IndrasError::Unauthorized);
    }
    Ok(())
}

} // verus!
