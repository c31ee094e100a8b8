use vstd::prelude::*;

verus! {

/// Permission bit: may create ideas.
pub const CAN_CREATE_IDEA: u64 = 1;
/// Permission bit: may submit proposals.
pub const CAN_PROPOSE: u64 = 2;
/// Permission bit: may manage mesh groups.
pub const CAN_MANAGE_MESH_GROUPS: u64 = 4;
/// Permission bit: may request grants.
pub const CAN_CREATE_GRANT: u64 = 8;
/// Permission bit: may manage the expert registry.
pub const CAN_MANAGE_EXPERTS: u64 = 16;

} // verus!
