//! Verified core of the IndrasNet DAO program: ideas, mesh groups, grants,
//! proposals and the governance records around them, written as plain state
//! transitions whose contracts say exactly which request is refused and how.

pub mod access;
pub mod ai_analysis;
pub mod commercial_enterprise;
pub mod embedding;
pub mod error;
pub mod expert_registry;
pub mod governance;
pub mod governance_analytics;
pub mod grant;
pub mod grant_create;
pub mod grant_reports;
pub mod grant_voting;
pub mod grants_voting;
pub mod idea;
pub mod idea_voting;
pub mod keys;
pub mod member;
pub mod mesh_group;
pub mod mesh_group_create;
pub mod mesh_group_ideas;
pub mod proposal;
pub mod proposal_template;
pub mod render;
pub mod role_permissions;
pub mod text;
