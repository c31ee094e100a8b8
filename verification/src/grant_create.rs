use crate::access::{assert_role, outcome, role_allows, DaoConfig, MemberRole};
use crate::role_permissions::{CAN_CREATE_GRANT};
use crate::ai_analysis::{
    analysis_account_error, analysis_scores_error, check_analysis_account, check_analysis_scores,
    le_bytes, u64_le_vec, AIAnalysisRecord, AccountData,
};
use crate::embedding::{AIService, AIServiceRegistry};
use crate::error::IndrasError;
use crate::grant::{
    Grant, GrantCategory, GrantDisbursementType, GrantStatus, GrantType, PhenomenonAccount,
    PhenomenonStatus, SemanticDomain, VerificationStatus, VotingLayer,
};
use crate::idea::{Idea, IdeaStatus};
use crate::keys::{address_bytes, all_zero, contains_key, derived_address, find_program_address, is_address, key_eq, seeds_view, Key};
use crate::mesh_group::{contains_id, DevelopmentStage, GroupStatus, MeshGroup};
use crate::text::{append_copies, copied_vec, sha256, sha256_digest};
use vstd::prelude::*;

verus! {

/// Largest base amount of a grant: 1 SOL in lamports.
pub const MAX_GRANT_BASE_AMOUNT: u64 = 1000000000;

/// Contributions a group needs before it may request a grant.
pub const MIN_GRANT_CONTRIBUTIONS: u64 = 3;

/// The seed `b"idea"`.
pub open spec fn idea_seed() -> Seq<u8> {
    seq![105u8, 100, 101, 97]
}

/// The seed `b"mesh_group"`.
pub open spec fn mesh_group_seed() -> Seq<u8> {
    seq![109u8, 101, 115, 104, 95, 103, 114, 111, 117, 112]
}

/// The address of the idea account with this id.
pub open spec fn idea_address(idea_id: u64, program_id: Key) -> Option<Seq<u8>> {
    derived_address(seq![idea_seed(), le_bytes(idea_id)], program_id.bytes@)
}

/// The address of the mesh group account with this id.
pub open spec fn mesh_group_address(id: u64, program_id: Key) -> Option<Seq<u8>> {
    derived_address(seq![mesh_group_seed(), le_bytes(id)], program_id.bytes@)
}

/// Derives the address of an account keyed by a seed and a `u64` id.
fn find_id_address(seed: Vec<u8>, id: u64, program_id: &Key) -> (k: Option<Key>)
    ensures
        address_bytes(k) == derived_address(seq![seed@, le_bytes(id)], program_id.bytes@),
{
    let mut seeds: Vec<Vec<u8>> = Vec::new();
    let ghost s = seed@;
    seeds.push(seed);
    seeds.push(u64_le_vec(id));
    proof {
        assert(seeds_view(seeds@) =~= seq![s, le_bytes(id)]);
    }
    find_program_address(&seeds, program_id)
}

/// The checks on the requester and on the idea and mesh group accounts.
pub open spec fn grant_accounts_error(
    creator: Key,
    dao_config: &DaoConfig,
    creator_role: Option<MemberRole>,
    program_id: Key,
    idea_account: &AccountData,
    idea: Option<&Idea>,
    mesh_group_account: &AccountData,
    mesh_group: Option<&MeshGroup>,
    idea_id: u64,
) -> Option<IndrasError> {
    if creator != dao_config.authority && !role_allows(creator_role, creator, CAN_CREATE_GRANT) {
        Some(IndrasError::Unauthorized)
    } else if idea_account.owner != program_id {
        Some(IndrasError::InvalidProgram)
    } else if Some(idea_account.key.bytes@) != idea_address(idea_id, program_id) {
        Some(IndrasError::InvalidInput)
    } else if mesh_group_account.owner != program_id {
        Some(IndrasError::InvalidProgram)
    } else if idea is None || mesh_group is None {
        Some(IndrasError::AccountDidNotDeserialize)
    } else if Some(mesh_group_account.key.bytes@) != mesh_group_address(mesh_group->0.id, program_id) {
        Some(IndrasError::InvalidInput)
    } else {
        None
    }
}

fn check_grant_accounts(
    creator: &Key,
    dao_config: &DaoConfig,
    creator_role: &Option<MemberRole>,
    program_id: &Key,
    idea_account: &AccountData,
    idea: Option<&Idea>,
    mesh_group_account: &AccountData,
    mesh_group: Option<&MeshGroup>,
    idea_id: u64,
) -> (r: Result<(), IndrasError>)
    ensures
        r == outcome(
            grant_accounts_error(
                *creator,
                dao_config,
                *creator_role,
                *program_id,
                idea_account,
                idea,
                mesh_group_account,
                mesh_group,
                idea_id,
            ),
        ),
{
    if !key_eq(creator, &dao_config.authority) {
        assert_role(creator_role, creator, CAN_CREATE_GRANT)?;
    }
    if !key_eq(&idea_account.owner, program_id) {
        return Err(IndrasError::InvalidProgram);
    }
    let expected_idea = find_id_address(vec![105u8, 100, 101, 97], idea_id, program_id);
    if !is_address(&idea_account.key, &expected_idea) {
        return Err(IndrasError::InvalidInput);
    }
    if !key_eq(&mesh_group_account.owner, program_id) {
        return Err(IndrasError::InvalidProgram);
    }
    let g = match (idea, mesh_group) {
        (Some(_), Some(g)) => g,
        _ => {
            return Err(IndrasError::AccountDidNotDeserialize);
        },
    };
    let expected_group = find_id_address(
        vec![109u8, 101, 115, 104, 95, 103, 114, 111, 117, 112],
        g.id,
        program_id,
    );
    if !is_address(&mesh_group_account.key, &expected_group) {
        return Err(IndrasError::InvalidInput);
    }
    Ok(())
}

/// The development stage a grant type is requested in.
pub open spec fn stage_for(t: GrantType) -> DevelopmentStage {
    match t {
        GrantType::Initial => DevelopmentStage::InitialDevelopment,
        GrantType::Core => DevelopmentStage::CoreDevelopment,
        GrantType::Final => DevelopmentStage::Finalization,
    }
}

/// The checks on the amounts and on what the idea and group have reached:
/// a base amount of 1 lamport to 1 SOL, a bonus of at most half of it, the
/// right idea, an idea in progress or approved, an Active group holding the
/// idea, at the stage of the grant type, with at least 3 contributions.
pub open spec fn grant_criteria_error(
    idea: Idea,
    g: MeshGroup,
    idea_id: u64,
    grant_type: GrantType,
    base_amount: u64,
    reputation_bonus: u64,
) -> Option<IndrasError> {
    if base_amount == 0 {
        Some(IndrasError::InvalidInput)
    } else if base_amount > MAX_GRANT_BASE_AMOUNT {
        Some(IndrasError::AmountTooLarge)
    } else if reputation_bonus > base_amount / 2 {
        Some(IndrasError::AmountTooLarge)
    } else if idea.id != idea_id {
        Some(IndrasError::InvalidInput)
    } else if idea.status != IdeaStatus::InProgress && idea.status != IdeaStatus::Approved {
        Some(IndrasError::InvalidState)
    } else if g.status != GroupStatus::Active {
        Some(IndrasError::InvalidState)
    } else if !g.ideas@.contains(idea_id) {
        Some(IndrasError::InvalidInput)
    } else if g.current_stage == DevelopmentStage::Planning {
        Some(IndrasError::InvalidState)
    } else if g.current_stage != stage_for(grant_type) {
        Some(IndrasError::InvalidState)
    } else if g.total_contributions < MIN_GRANT_CONTRIBUTIONS {
        Some(IndrasError::InsufficientProgress)
    } else {
        None
    }
}

/// Each grant type belongs to one development stage: for an otherwise
/// eligible request (amounts in range, the right idea in progress or
/// approved, an Active group holding it, at least 3 contributions) the
/// criteria pass exactly when an Initial grant meets a group in Initial
/// Development, a Core grant one in Core Development, or a Final grant one
/// in Finalization; any other pairing is refused with `InvalidState`.
pub proof fn grant_type_matches_group_stage(
    idea: Idea,
    g: MeshGroup,
    idea_id: u64,
    grant_type: GrantType,
    base_amount: u64,
    reputation_bonus: u64,
)
    requires
        0 < base_amount <= 1_000_000_000,
        2 * reputation_bonus <= base_amount,
        idea.id == idea_id,
        idea.status == IdeaStatus::InProgress || idea.status == IdeaStatus::Approved,
        g.status == GroupStatus::Active,
        g.ideas@.contains(idea_id),
        g.total_contributions >= 3,
    ensures
        grant_criteria_error(idea, g, idea_id, grant_type, base_amount, reputation_bonus) == if (grant_type
            == GrantType::Initial && g.current_stage == DevelopmentStage::InitialDevelopment) || (grant_type
            == GrantType::Core && g.current_stage == DevelopmentStage::CoreDevelopment) || (grant_type
            == GrantType::Final && g.current_stage == DevelopmentStage::Finalization) {
            None
        } else {
            Some(IndrasError::InvalidState)
        },
{
}

fn check_grant_criteria(
    idea: &Idea,
    g: &MeshGroup,
    idea_id: u64,
    grant_type: GrantType,
    base_amount: u64,
    reputation_bonus: u64,
) -> (r: Result<(), IndrasError>)
    ensures
        r == outcome(grant_criteria_error(*idea, *g, idea_id, grant_type, base_amount, reputation_bonus)),
{
    if base_amount == 0 {
        return Err(IndrasError::InvalidInput);
    }
    if base_amount > MAX_GRANT_BASE_AMOUNT {
        return Err(IndrasError::AmountTooLarge);
    }
    if reputation_bonus > base_amount / 2 {
        return Err(IndrasError::AmountTooLarge);
    }
    if idea.id != idea_id {
        return Err(IndrasError::InvalidInput);
    }
    if idea.status != IdeaStatus::InProgress && idea.status != IdeaStatus::Approved {
        return Err(IndrasError::InvalidState);
    }
    if g.status != GroupStatus::Active {
        return Err(IndrasError::InvalidState);
    }
    if !contains_id(&g.ideas, idea_id) {
        return Err(IndrasError::InvalidInput);
    }
    if g.current_stage == DevelopmentStage::Planning {
        return Err(IndrasError::InvalidState);
    }
    let stage = match grant_type {
        GrantType::Initial => DevelopmentStage::InitialDevelopment,
        GrantType::Core => DevelopmentStage::CoreDevelopment,
        GrantType::Final => DevelopmentStage::Finalization,
    };
    if g.current_stage != stage {
        return Err(IndrasError::InvalidState);
    }
    if g.total_contributions < MIN_GRANT_CONTRIBUTIONS {
        return Err(IndrasError::InsufficientProgress);
    }
    Ok(())
}

/// The checks on the idea's AI analysis for a grant: the account checks,
/// an Approve decision (byte 48 zero), then the scores.
pub open spec fn grant_analysis_error(
    analysis: AccountData,
    idea_id: u64,
    idea_key: Key,
    record: AIAnalysisRecord,
    ai_program: Key,
) -> Option<IndrasError> {
    if analysis_account_error(analysis, idea_id, idea_key, record, ai_program) is Some {
        analysis_account_error(analysis, idea_id, idea_key, record, ai_program)
    } else if analysis.data@[48] != 0 {
        Some(IndrasError::InvalidState)
    } else {
        analysis_scores_error(analysis.data@)
    }
}

fn check_grant_analysis(
    analysis: &AccountData,
    idea_id: u64,
    idea_key: &Key,
    record: &AIAnalysisRecord,
    ai_program: &Key,
) -> (r: Result<(), IndrasError>)
    ensures
        r == outcome(grant_analysis_error(*analysis, idea_id, *idea_key, *record, *ai_program)),
{
    check_analysis_account(analysis, idea_id, idea_key, record, ai_program)?;
    if analysis.data[48] != 0 {
        return Err(IndrasError::InvalidState);
    }
    check_analysis_scores(&analysis.data)
}

/// The service is active and not suspended.
pub open spec fn available(s: AIService) -> bool {
    s.is_active && !s.is_suspended
}

/// The service is available and lists the provider name among its models.
pub open spec fn serves(s: AIService, provider: Seq<char>) -> bool {
    available(s) && exists|m: int| 0 <= m < s.model_ids@.len() && #[trigger] s.model_ids@[m]@ == provider
}

/// The position of the first service that serves the provider, or -1.
pub open spec fn first_serving(s: Seq<AIService>, provider: Seq<char>) -> int {
    if exists|i: int| 0 <= i < s.len() && serves(#[trigger] s[i], provider) {
        choose|i: int|
            0 <= i < s.len() && serves(s[i], provider) && forall|j: int|
                0 <= j < i ==> !serves(#[trigger] s[j], provider)
    } else {
        -1
    }
}

/// The position of the first available service, or -1.
pub open spec fn first_available(s: Seq<AIService>) -> int {
    if exists|i: int| 0 <= i < s.len() && available(#[trigger] s[i]) {
        choose|i: int|
            0 <= i < s.len() && available(s[i]) && forall|j: int| 0 <= j < i ==> !available(#[trigger] s[j])
    } else {
        -1
    }
}

/// The key whose signature a semantic domain must carry: the first
/// available service that lists the domain's provider name, else the first
/// available service at all.
pub open spec fn semantic_signer_key(registry: AIServiceRegistry, provider: Seq<char>) -> Option<Key> {
    let s = registry.services@;
    if first_serving(s, provider) >= 0 {
        Some(s[first_serving(s, provider)].pubkey)
    } else if first_available(s) >= 0 {
        Some(s[first_available(s)].pubkey)
    } else {
        None
    }
}

fn service_serves(s: &AIService, provider: &String) -> (b: bool)
    ensures
        b == serves(*s, provider@),
{
    if !(s.is_active && !s.is_suspended) {
        return false;
    }
    let mut m: usize = 0;
    while m < s.model_ids.len()
        invariant
            available(*s),
            m <= s.model_ids@.len(),
            forall|k: int| 0 <= k < m ==> #[trigger] s.model_ids@[k]@ != provider@,
        decreases s.model_ids@.len() - m,
    {
        if s.model_ids[m] == *provider {
            assert(s.model_ids@[m as int]@ == provider@);
            return true;
        }
        m = m + 1;
    }
    false
}

/// Selects the key whose signature a semantic domain must carry.
pub fn semantic_signer(registry: &AIServiceRegistry, provider: &String) -> (r: Option<Key>)
    ensures
        r == semantic_signer_key(*registry, provider@),
{
    let ghost s = registry.services@;
    let mut i: usize = 0;
    while i < registry.services.len()
        invariant
            s == registry.services@,
            i <= s.len(),
            forall|j: int| 0 <= j < i ==> !serves(#[trigger] s[j], provider@),
        decreases s.len() - i,
    {
        if service_serves(&registry.services[i], provider) {
            proof {
                let k = first_serving(s, provider@);
                assert(0 <= k < s.len() && serves(s[k], provider@) && forall|j: int|
                    0 <= j < k ==> !serves(#[trigger] s[j], provider@));
                if k < i {
                    assert(!serves(s[k], provider@));
                }
                if i < k {
                    assert(!serves(s[i as int], provider@));
                }
            }
            return Some(registry.services[i].pubkey);
        }
        i = i + 1;
    }
    assert(first_serving(s, provider@) == -1);
    let mut i: usize = 0;
    while i < registry.services.len()
        invariant
            s == registry.services@,
            i <= s.len(),
            first_serving(s, provider@) == -1,
            forall|j: int| 0 <= j < i ==> !available(#[trigger] s[j]),
        decreases s.len() - i,
    {
        if registry.services[i].is_active && !registry.services[i].is_suspended {
            proof {
                let k = first_available(s);
                assert(0 <= k < s.len() && available(s[k]) && forall|j: int| 0 <= j < k ==> !available(#[trigger] s[j]));
                if k < i {
                    assert(!available(s[k]));
                }
                if i < k {
                    assert(!available(s[i as int]));
                }
            }
            return Some(registry.services[i].pubkey);
        }
        i = i + 1;
    }
    assert(first_available(s) == -1);
    None
}

/// The message a semantic domain's embedding signature covers: SHA-256 of
/// the embedding hash, then the domain id and creation time in little-endian order.
pub open spec fn semantic_message(d: SemanticDomain) -> Seq<u8> {
    sha256(d.embedding_hash@ + le_bytes(d.domain_id) + le_bytes(d.created_at as u64))
}

/// Computes the message a semantic domain's embedding signature covers.
pub fn semantic_message_hash(d: &SemanticDomain) -> (h: [u8; 32])
    ensures
        h@ == semantic_message(*d),
{
    let mut bytes: Vec<u8> = copied_vec(d.embedding_hash.as_slice());
    let id_bytes = u64_le_vec(d.domain_id);
    let time_bytes = u64_le_vec(d.created_at as u64);
    append_copies(&mut bytes, id_bytes.as_slice());
    append_copies(&mut bytes, time_bytes.as_slice());
    sha256_digest(bytes.as_slice())
}

/// Whether the `f32` with these bits lies in `[0.0, 1.0]`, as
/// `(0.0..=1.0).contains` decides it: the bit patterns of `+0.0` up to
/// `1.0`, and `-0.0`; never a NaN.
pub open spec fn in_unit_interval(bits: u32) -> bool {
    bits <= 0x3F80_0000 || bits == 0x8000_0000
}

/// The minimum length of a semantic domain account's data.
pub const SEMANTIC_DOMAIN_MIN_LEN: usize = 220;

/// The checks on the semantic domain named in a grant request. `signature_check`
/// is the verdict of the ed25519 check of the domain's embedding signature,
/// over `semantic_message`, by the key `semantic_signer` selects.
pub open spec fn semantic_domain_error(
    requested: Option<Key>,
    account: Option<&AccountData>,
    domain: Option<&SemanticDomain>,
    program_id: Key,
    registry: Option<&AIServiceRegistry>,
    signature_check: Result<(), IndrasError>,
    distance: Option<u32>,
) -> Option<IndrasError> {
    if requested is None {
        None
    } else if account is None || account->0.data@.len() == 0 {
        Some(IndrasError::InvalidSemanticDomain)
    } else if account->0.owner != program_id {
        Some(IndrasError::InvalidSemanticDomain)
    } else if account->0.data@.len() <= SEMANTIC_DOMAIN_MIN_LEN {
        Some(IndrasError::InvalidSemanticDomain)
    } else if domain is None {
        Some(IndrasError::AccountDidNotDeserialize)
    } else if forall|j: int| 0 <= j < 32 ==> domain->0.embedding_hash@[j] == 0u8 {
        Some(IndrasError::EmbeddingHashMismatch)
    } else if forall|j: int| 0 <= j < 64 ==> domain->0.embedding_signature@[j] == 0u8 {
        Some(IndrasError::EmbeddingSignatureInvalid)
    } else if registry is Some && semantic_signer_key(*registry->0, domain->0.provider@) is None {
        Some(IndrasError::InvalidEmbeddingProvider)
    } else if registry is Some && signature_check is Err {
        Some(signature_check->Err_0)
    } else if distance is Some && !in_unit_interval(distance->0) {
        Some(IndrasError::InvalidScore)
    } else {
        None
    }
}

fn check_semantic_domain(
    requested: Option<Key>,
    account: Option<&AccountData>,
    domain: Option<&SemanticDomain>,
    program_id: &Key,
    registry: Option<&AIServiceRegistry>,
    signature_check: Result<(), IndrasError>,
    distance: Option<u32>,
) -> (r: Result<(), IndrasError>)
    ensures
        r == outcome(
            semantic_domain_error(requested, account, domain, *program_id, registry, signature_check, distance),
        ),
{
    if requested.is_none() {
        return Ok(());
    }
    let a = match account {
        Some(a) => a,
        None => {
            return Err(IndrasError::InvalidSemanticDomain);
        },
    };
    if a.data.len() == 0 {
        return Err(IndrasError::InvalidSemanticDomain);
    }
    if !key_eq(&a.owner, program_id) {
        return Err(IndrasError::InvalidSemanticDomain);
    }
    if a.data.len() <= SEMANTIC_DOMAIN_MIN_LEN {
        return Err(IndrasError::InvalidSemanticDomain);
    }
    let d = match domain {
        Some(d) => d,
        None => {
            return Err(IndrasError::AccountDidNotDeserialize);
        },
    };
    if all_zero(&d.embedding_hash) {
        return Err(IndrasError::EmbeddingHashMismatch);
    }
    if all_zero(&d.embedding_signature) {
        return Err(IndrasError::EmbeddingSignatureInvalid);
    }
    if let Some(reg) = registry {
        if semantic_signer(reg, &d.provider).is_none() {
            return Err(IndrasError::InvalidEmbeddingProvider);
        }
        signature_check?;
    }
    if let Some(bits) = distance {
        if !(bits <= 0x3F80_0000 || bits == 0x8000_0000) {
            return Err(IndrasError::InvalidScore);
        }
    }
    Ok(())
}

/// The least data length of a phenomenon account whose membership is read.
pub const PHENOMENON_MIN_LEN: usize = 48;

/// The checks on the phenomenon named in a grant request: present, owned by
/// the program, long enough, Active, and listing the idea.
pub open spec fn phenomenon_error(
    requested: Option<Key>,
    account: Option<&PhenomenonAccount>,
    program_id: Key,
    idea_key: Key,
) -> Option<IndrasError> {
    if requested is None {
        None
    } else if account is Some && account->0.data_len != 0 && account->0.owner == program_id
        && account->0.data_len >= PHENOMENON_MIN_LEN && account->0.status == PhenomenonStatus::Active
        && account->0.related_ideas@.contains(idea_key) {
        None
    } else {
        Some(IndrasError::IdeaNotInPhenomenon)
    }
}

fn check_phenomenon(
    requested: Option<Key>,
    account: Option<&PhenomenonAccount>,
    program_id: &Key,
    idea_key: &Key,
) -> (r: Result<(), IndrasError>)
    ensures
        r == outcome(phenomenon_error(requested, account, *program_id, *idea_key)),
{
    if requested.is_none() {
        return Ok(());
    }
    match account {
        Some(p) => {
            if p.data_len != 0 && key_eq(&p.owner, program_id) && p.data_len >= PHENOMENON_MIN_LEN
                && p.status == PhenomenonStatus::Active && contains_key(&p.related_ideas, idea_key) {
                Ok(())
            } else {
                Err(IndrasError::IdeaNotInPhenomenon)
            }
        },
        None => Err(IndrasError::IdeaNotInPhenomenon),
    }
}

/// The first failing check of `create_grant_handler`.
pub open spec fn create_grant_error(
    creator: Key,
    dao_config: &DaoConfig,
    creator_role: Option<MemberRole>,
    program_id: Key,
    ai_program: Key,
    idea_account: &AccountData,
    idea: Option<&Idea>,
    mesh_group_account: &AccountData,
    mesh_group: Option<&MeshGroup>,
    analysis: &AccountData,
    analysis_record: &AIAnalysisRecord,
    semantic_domain: Option<&AccountData>,
    semantic_domain_data: Option<&SemanticDomain>,
    registry: Option<&AIServiceRegistry>,
    signature_check: Result<(), IndrasError>,
    phenomenon: Option<&PhenomenonAccount>,
    idea_id: u64,
    grant_type: GrantType,
    base_amount: u64,
    reputation_bonus: u64,
    semantic_domain_account: Option<Key>,
    semantic_distance: Option<u32>,
    phenomenon_membership: Option<Key>,
) -> Option<IndrasError> {
    let accounts = grant_accounts_error(
        creator,
        dao_config,
        creator_role,
        program_id,
        idea_account,
        idea,
        mesh_group_account,
        mesh_group,
        idea_id,
    );
    if accounts is Some {
        accounts
    } else if grant_criteria_error(*idea->0, *mesh_group->0, idea_id, grant_type, base_amount, reputation_bonus) is Some {
        grant_criteria_error(*idea->0, *mesh_group->0, idea_id, grant_type, base_amount, reputation_bonus)
    } else if grant_analysis_error(*analysis, idea_id, idea_account.key, *analysis_record, ai_program) is Some {
        grant_analysis_error(*analysis, idea_id, idea_account.key, *analysis_record, ai_program)
    } else if semantic_domain_error(
        semantic_domain_account,
        semantic_domain,
        semantic_domain_data,
        program_id,
        registry,
        signature_check,
        semantic_distance,
    ) is Some {
        semantic_domain_error(
            semantic_domain_account,
            semantic_domain,
            semantic_domain_data,
            program_id,
            registry,
            signature_check,
            semantic_distance,
        )
    } else {
        phenomenon_error(phenomenon_membership, phenomenon, program_id, idea_account.key)
    }
}

/// The Pending grant request that `create_grant_handler` writes.
pub open spec fn requested_grant(
    grant_id: u64,
    idea_id: u64,
    mesh_group: Key,
    category: GrantCategory,
    grant_type: GrantType,
    disbursement_type: GrantDisbursementType,
    base_amount: u64,
    reputation_bonus: u64,
    milestone_id: Option<u64>,
    semantic_domain_account: Option<Key>,
    semantic_distance: Option<u32>,
    phenomenon_membership: Option<Key>,
    now: i64,
    bump: u8,
) -> Grant {
    Grant {
        id: grant_id,
        idea_id: idea_id,
        mesh_group: mesh_group,
        category: category,
        grant_type: grant_type,
        disbursement_type: disbursement_type,
        milestone_id: milestone_id,
        status: GrantStatus::Pending,
        base_amount: base_amount,
        reputation_bonus: reputation_bonus,
        total_amount: (base_amount + reputation_bonus) as u64,
        disbursed_amount: 0,
        verification_status: VerificationStatus::Pending,
        commercialization_right_transferred: false,
        created_at: now,
        approved_at: None,
        completed_at: None,
        voting_end: 0,
        voting_layer: VotingLayer::AuthorOnly,
        grant_level: 1,
        total_votes: 0,
        total_yes_weight: 0,
        total_no_weight: 0,
        total_abstain_weight: 0,
        quorum_reached: false,
        semantic_domain: None,
        semantic_domain_account: semantic_domain_account,
        semantic_distance: semantic_distance,
        phenomenon_membership: phenomenon_membership,
        final_report_submitted: false,
        final_report_approved: false,
        final_report_submitted_at: None,
        final_report_approved_at: None,
        escrow_account: None,
        bump: bump,
    }
}

/// Requests a grant for a mesh group working on an idea. The request is
/// refused unless the requester may create grants, the idea and group
/// accounts are the program's own at their derived addresses, the amounts
/// and the group's progress meet the criteria, the idea's AI analysis
/// approves it, a named semantic domain is valid and signed, and a named
/// phenomenon lists the idea. `idea` and `mesh_group` are the decoded
/// accounts (`None` when their data could not be decoded); `signature_check`
/// is the verdict of the semantic domain's signature check (see
/// `semantic_domain_error`); `semantic_distance` holds the bits of the `f32`.
pub fn create_grant_handler(
    creator: &Key,
    dao_config: &DaoConfig,
    creator_role: &Option<MemberRole>,
    program_id: &Key,
    ai_program: &Key,
    idea_account: &AccountData,
    idea: Option<&Idea>,
    mesh_group_account: &AccountData,
    mesh_group: Option<&MeshGroup>,
    analysis: &AccountData,
    analysis_record: &AIAnalysisRecord,
    semantic_domain: Option<&AccountData>,
    semantic_domain_data: Option<&SemanticDomain>,
    registry: Option<&AIServiceRegistry>,
    signature_check: Result<(), IndrasError>,
    phenomenon: Option<&PhenomenonAccount>,
    now: i64,
    bump: u8,
    grant_id: u64,
    idea_id: u64,
    category: GrantCategory,
    grant_type: GrantType,
    disbursement_type: GrantDisbursementType,
    base_amount: u64,
    reputation_bonus: u64,
    milestone_id: Option<u64>,
    semantic_domain_account: Option<Key>,
    semantic_distance: Option<u32>,
    phenomenon_membership: Option<Key>,
) -> (r: Result<Grant, IndrasError>)
    ensures
        ({
            let err = create_grant_error(
                *creator,
                dao_config,
                *creator_role,
                *program_id,
                *ai_program,
                idea_account,
                idea,
                mesh_group_account,
                mesh_group,
                analysis,
                analysis_record,
                semantic_domain,
                semantic_domain_data,
                registry,
                signature_check,
                phenomenon,
                idea_id,
                grant_type,
                base_amount,
                reputation_bonus,
                semantic_domain_account,
                semantic_distance,
                phenomenon_membership,
            );
            &&& r is Err <==> err is Some
            &&& r is Err ==> r->Err_0 == err->0
        }),
        r matches Ok(g) ==> g == requested_grant(
            grant_id,
            idea_id,
            mesh_group_account.key,
            category,
            grant_type,
            disbursement_type,
            base_amount,
            reputation_bonus,
            milestone_id,
            semantic_domain_account,
            semantic_distance,
            phenomenon_membership,
            now,
            bump,
        ) && g.total_amount == base_amount + reputation_bonus && g.total_amount <= 1500000000,
{
    check_grant_accounts(
        creator,
        dao_config,
        creator_role,
        program_id,
        idea_account,
        idea,
        mesh_group_account,
        mesh_group,
        idea_id,
    )?;
    let (i, g) = match (idea, mesh_group) {
        (Some(i), Some(g)) => (i, g),
        _ => {
            return Err(IndrasError::AccountDidNotDeserialize);
        },
    };
    check_grant_criteria(i, g, idea_id, grant_type, base_amount, reputation_bonus)?;
    check_grant_analysis(analysis, idea_id, &idea_account.key, analysis_record, ai_program)?;
    check_semantic_domain(
        semantic_domain_account,
        semantic_domain,
        semantic_domain_data,
        program_id,
        registry,
        signature_check,
        semantic_distance,
    )?;
    check_phenomenon(phenomenon_membership, phenomenon, program_id, &idea_account.key)?;
    let total_amount = base_amount + reputation_bonus;
    Ok(
        Grant {
            id: grant_id,
            idea_id: idea_id,
            mesh_group: mesh_group_account.key,
            category: category,
            grant_type: grant_type,
            disbursement_type: disbursement_type,
            milestone_id: milestone_id,
            status: GrantStatus::Pending,
            base_amount: base_amount,
            reputation_bonus: reputation_bonus,
            total_amount: total_amount,
            disbursed_amount: 0,
            verification_status: VerificationStatus::Pending,
            commercialization_right_transferred: false,
            created_at: now,
            approved_at: None,
            completed_at: None,
            voting_end: 0,
            voting_layer: VotingLayer::AuthorOnly,
            grant_level: 1,
            total_votes: 0,
            total_yes_weight: 0,
            total_no_weight: 0,
            total_abstain_weight: 0,
            quorum_reached: false,
            semantic_domain: None,
            semantic_domain_account: semantic_domain_account,
            semantic_distance: semantic_distance,
            phenomenon_membership: phenomenon_membership,
            final_report_submitted: false,
            final_report_approved: false,
            final_report_submitted_at: None,
            final_report_approved_at: None,
            escrow_account: None,
            bump: bump,
        },
    )
}

} // verus!
