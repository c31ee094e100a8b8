use crate::access::{outcome, MemberRole};
use crate::role_permissions::{CAN_MANAGE_EXPERTS};
use crate::error::IndrasError;
use crate::keys::{contains_key, key_eq, Key};
use crate::member::Member;
use crate::text::{byte_len, utf8_len};
use vstd::prelude::*;

verus! {

/// How competent a member is in a semantic domain (the registry knows
/// one level only).
#[derive(Clone, Copy, Debug, PartialEq, Eq, Structural)]
pub enum CompetencyLevel {
    Expert,
}

/// Where a competency assessment came from.
#[derive(Clone, Copy, Debug, PartialEq, Eq, Structural)]
pub enum CompetencySource {
    ManualAssignment,
    AIAssessment,
    PeerReview,
}

/// Counters of the expert registry.
#[derive(Clone, Copy, Debug)]
pub struct ExpertRegistry {
    pub total_experts: u64,
    pub total_domains: u64,
    pub created_at: i64,
    pub updated_at: i64,
    pub bump: u8,
}

/// One expert's standing in one semantic domain.
#[derive(Debug)]
pub struct ExpertEntry {
    pub expert: Key,
    pub domain_id: String,
    pub competency_level: CompetencyLevel,
    pub confidence: u8,
    pub source: CompetencySource,
    pub reputation_score: u64,
    pub created_at: i64,
    pub updated_at: i64,
    pub is_active: bool,
    pub verified_by: Key,
    pub bump: u8,
}

/// The experts of one semantic domain.
#[derive(Debug)]
pub struct DomainIndex {
    pub domain_id: String,
    pub experts: Vec<Key>,
    pub expert_count: u64,
    pub created_at: i64,
    pub updated_at: i64,
    pub bump: u8,
}

/// Least confidence an expert entry may carry.
pub const MIN_CONFIDENCE: u8 = 70;

/// Least reputation a member needs to be an expert.
pub const MIN_EXPERT_REPUTATION: u64 = 100;

impl ExpertEntry {
    /// An entry counts when it is active, at Expert level, with enough
    /// confidence and reputation.
    pub open spec fn valid(self) -> bool {
        self.is_active && self.competency_level == CompetencyLevel::Expert && self.confidence
            >= MIN_CONFIDENCE && self.reputation_score >= MIN_EXPERT_REPUTATION
    }

    /// Whether the entry counts.
    pub fn is_valid_expert(&self) -> (b: bool)
        ensures
            b == self.valid(),
    {
        self.is_active && self.competency_level == CompetencyLevel::Expert && self.confidence
            >= MIN_CONFIDENCE && self.reputation_score >= MIN_EXPERT_REPUTATION
    }
}

/// No key occurs twice.
pub open spec fn distinct_keys(s: Seq<Key>) -> bool {
    forall|i: int, j: int| 0 <= i < j < s.len() ==> s[i] != s[j]
}

impl DomainIndex {
    /// The index lists each expert once and counts them.
    pub open spec fn wf(self) -> bool {
        distinct_keys(self.experts@) && self.expert_count == self.experts@.len()
    }

    /// The first failing check of `add_expert`.
    pub open spec fn add_error(self, k: Key) -> Option<IndrasError> {
        if self.experts@.contains(k) {
            Some(IndrasError::AlreadyMember)
        } else if self.expert_count == u64::MAX {
            Some(IndrasError::Overflow)
        } else {
            None
        }
    }

    /// Lists an expert who is not listed yet.
    pub fn add_expert(&mut self, k: Key) -> (r: Result<(), IndrasError>)
        ensures
            r == outcome(old(self).add_error(k)),
            r is Err ==> *final(self) == *old(self),
            r is Ok ==> final(self).experts@ == old(self).experts@.push(k) && *final(self) == (DomainIndex {
                experts: final(self).experts,
                expert_count: (old(self).expert_count + 1) as u64,
                ..*old(self)
            }),
            old(self).wf() ==> final(self).wf(),
    {
        if contains_key(&self.experts, &k) {
            return Err(IndrasError::AlreadyMember);
        }
        if self.expert_count == u64::MAX {
            return Err(IndrasError::Overflow);
        }
        let ghost before = self.experts@;
        self.experts.push(k);
        self.expert_count = self.expert_count + 1;
        proof {
            if old(self).wf() {
                assert forall|i: int, j: int| 0 <= i < j < self.experts@.len() implies self.experts@[i]
                    != self.experts@[j] by {
                    if j == before.len() {
                        assert(self.experts@[i] == before[i]);
                    } else {
                        assert(self.experts@[i] == before[i] && self.experts@[j] == before[j]);
                    }
                }
            }
        }
        Ok(())
    }

    /// The first failing check of `remove_expert`.
    pub open spec fn remove_error(self, k: Key) -> Option<IndrasError> {
        if !self.experts@.contains(k) {
            Some(IndrasError::NotFound)
        } else if self.expert_count == 0 {
            Some(IndrasError::Underflow)
        } else {
            None
        }
    }

    /// Unlists an expert (the first listing of the key).
    pub fn remove_expert(&mut self, k: Key) -> (r: Result<(), IndrasError>)
        ensures
            r == outcome(old(self).remove_error(k)),
            r is Err ==> *final(self) == *old(self),
            r is Ok ==> final(self).experts@ == old(self).experts@.remove(key_index(old(self).experts@, k))
                && *final(self) == (DomainIndex {
                experts: final(self).experts,
                expert_count: (old(self).expert_count - 1) as u64,
                ..*old(self)
            }),
            old(self).wf() ==> final(self).wf() && !final(self).experts@.contains(k),
    {
        let i = match key_position(&self.experts, &k) {
            Some(i) => i,
            None => {
                return Err(IndrasError::NotFound);
            },
        };
        if self.expert_count == 0 {
            return Err(IndrasError::Underflow);
        }
        let ghost before = self.experts@;
        proof {
            lemma_key_index(before, k, i as int);
        }
        self.experts.remove(i);
        self.expert_count = self.expert_count - 1;
        proof {
            if old(self).wf() {
                let t = self.experts@;
                assert forall|a: int, b: int| 0 <= a < b < t.len() implies t[a] != t[b] by {
                    let oa = if a < i { a } else { a + 1 };
                    let ob = if b < i { b } else { b + 1 };
                    assert(t[a] == before[oa] && t[b] == before[ob]);
                }
                if t.contains(k) {
                    let a = choose|a: int| 0 <= a < t.len() && t[a] == k;
                    let oa = if a < i { a } else { a + 1 };
                    assert(t[a] == before[oa]);
                }
            }
        }
        Ok(())
    }
}

/// The position of the first occurrence of `k` in `s`.
pub open spec fn key_index(s: Seq<Key>, k: Key) -> int {
    choose|i: int| 0 <= i < s.len() && s[i] == k && forall|j: int| 0 <= j < i ==> s[j] != k
}

proof fn lemma_key_index(s: Seq<Key>, k: Key, i: int)
    requires
        0 <= i < s.len(),
        s[i] == k,
        forall|j: int| 0 <= j < i ==> s[j] != k,
    ensures
        key_index(s, k) == i,
{
    let m = key_index(s, k);
    assert(0 <= m < s.len() && s[m] == k && forall|j: int| 0 <= j < m ==> s[j] != k);
    if m < i {
        assert(s[m] != k);
    }
    if i < m {
        assert(s[i] != k);
    }
}

/// The first position of `k`, if present.
fn key_position(keys: &Vec<Key>, k: &Key) -> (r: Option<usize>)
    ensures
        match r {
            Some(i) => i < keys@.len() && keys@[i as int] == *k && forall|j: int| 0 <= j < i ==> keys@[j] != *k,
            None => !keys@.contains(*k),
        },
{
    let mut i: usize = 0;
    while i < keys.len()
        invariant
            i <= keys@.len(),
            forall|j: int| 0 <= j < i ==> keys@[j] != *k,
        decreases keys@.len() - i,
    {
        if key_eq(&keys[i], k) {
            return Some(i);
        }
        i = i + 1;
    }
    None
}

/// Creates the expert registry with no experts and no domains.
pub fn initialize_expert_registry_handler(now: i64, bump: u8) -> (r: ExpertRegistry)
    ensures
        r == (ExpertRegistry { total_experts: 0, total_domains: 0, created_at: now, updated_at: now, bump: bump }),
{
    ExpertRegistry { total_experts: 0, total_domains: 0, created_at: now, updated_at: now, bump: bump }
}

/// The first failing check of `add_expert_handler`.
pub open spec fn add_expert_error(
    registry: ExpertRegistry,
    index: DomainIndex,
    member: Member,
    authority_role: MemberRole,
    expert: Key,
    domain_id: Seq<char>,
    competency_level: CompetencyLevel,
    confidence: u8,
) -> Option<IndrasError> {
    let fresh = index.expert_count == 0;
    if utf8_len(domain_id) > 50 {
        Some(IndrasError::StringTooLong)
    } else if competency_level != CompetencyLevel::Expert {
        Some(IndrasError::InvalidCompetencyLevel)
    } else if confidence < MIN_CONFIDENCE {
        Some(IndrasError::InvalidScore)
    } else if member.reputation < MIN_EXPERT_REPUTATION {
        Some(IndrasError::InsufficientReputationForExpert)
    } else if !authority_role.grants(CAN_MANAGE_EXPERTS) {
        Some(IndrasError::Unauthorized)
    } else if fresh && registry.total_domains == u64::MAX {
        Some(IndrasError::Overflow)
    } else if !fresh && index.add_error(expert) is Some {
        index.add_error(expert)
    } else if registry.total_experts == u64::MAX {
        Some(IndrasError::Overflow)
    } else {
        None
    }
}

/// Registers a member with enough reputation as an expert of a domain (the
/// caller holds the expert-management permission): returns the expert
/// entry; the domain index lists the expert (a domain without experts is
/// first set up anew) and the registry counts it.
pub fn add_expert_handler(
    registry: &mut ExpertRegistry,
    domain_index: &mut DomainIndex,
    member: &Member,
    authority_role: &MemberRole,
    authority: &Key,
    expert: &Key,
    now: i64,
    entry_bump: u8,
    index_bump: u8,
    domain_id: String,
    competency_level: CompetencyLevel,
    confidence: u8,
    source: CompetencySource,
) -> (r: Result<ExpertEntry, IndrasError>)
    ensures
        r is Err <==> add_expert_error(*old(registry), *old(domain_index), *member, *authority_role, *expert, domain_id@, competency_level, confidence) is Some,
        r matches Err(e) ==> Some(e) == add_expert_error(*old(registry), *old(domain_index), *member, *authority_role, *expert, domain_id@, competency_level, confidence)
            && *final(registry) == *old(registry) && *final(domain_index) == *old(domain_index),
        r matches Ok(entry) ==> {
            let fresh = old(domain_index).expert_count == 0;
            &&& entry.expert == *expert && entry.domain_id@ == domain_id@ && entry.competency_level == competency_level
            &&& entry.confidence == confidence && entry.source == source && entry.reputation_score == member.reputation
            &&& entry.created_at == now && entry.updated_at == now && entry.is_active && entry.verified_by == *authority
            &&& entry.bump == entry_bump
            &&& final(domain_index).experts@ == (if fresh { seq![*expert] } else { old(domain_index).experts@.push(*expert) })
            &&& final(domain_index).expert_count == old(domain_index).expert_count + 1
            &&& final(domain_index).updated_at == now
            &&& fresh ==> final(domain_index).domain_id@ == domain_id@ && final(domain_index).created_at == now
                && final(domain_index).bump == index_bump
            &&& !fresh ==> final(domain_index).domain_id == old(domain_index).domain_id
                && final(domain_index).created_at == old(domain_index).created_at
                && final(domain_index).bump == old(domain_index).bump
            &&& *final(registry) == (ExpertRegistry {
                total_experts: (old(registry).total_experts + 1) as u64,
                total_domains: if fresh { (old(registry).total_domains + 1) as u64 } else { old(registry).total_domains },
                updated_at: now,
                ..*old(registry)
            })
        },
        old(domain_index).wf() ==> final(domain_index).wf(),
{
    if byte_len(&domain_id) > 50 {
        return Err(IndrasError::StringTooLong);
    }
    if competency_level != CompetencyLevel::Expert {
        return Err(IndrasError::InvalidCompetencyLevel);
    }
    if confidence < MIN_CONFIDENCE {
        return Err(IndrasError::InvalidScore);
    }
    if member.reputation < MIN_EXPERT_REPUTATION {
        return Err(IndrasError::InsufficientReputationForExpert);
    }
    if !authority_role.has_permission(CAN_MANAGE_EXPERTS) {
        return Err(IndrasError::Unauthorized);
    }
    let fresh = domain_index.expert_count == 0;
    if fresh && registry.total_domains == u64::MAX {
        return Err(IndrasError::Overflow);
    }
    if !fresh {
        if contains_key(&domain_index.experts, expert) {
            return Err(IndrasError::AlreadyMember);
        }
        if domain_index.expert_count == u64::MAX {
            return Err(IndrasError::Overflow);
        }
    }
    if registry.total_experts == u64::MAX {
        return Err(IndrasError::Overflow);
    }
    if fresh {
        domain_index.domain_id = domain_id.clone();
        domain_index.experts = Vec::new();
        domain_index.created_at = now;
        domain_index.bump = index_bump;
        registry.total_domains = registry.total_domains + 1;
    }
    let added = domain_index.add_expert(*expert);
    match added {
        Ok(()) => {},
        Err(e) => {
            return Err(e);
        },
    }
    domain_index.updated_at = now;
    registry.total_experts = registry.total_experts + 1;
    registry.updated_at = now;
    Ok(
        ExpertEntry {
            expert: *expert,
            domain_id: domain_id,
            competency_level: competency_level,
            confidence: confidence,
            source: source,
            reputation_score: member.reputation,
            created_at: now,
            updated_at: now,
            is_active: true,
            verified_by: *authority,
            bump: entry_bump,
        },
    )
}

/// The first failing check of `remove_expert_handler`.
pub open spec fn remove_expert_error(
    registry: ExpertRegistry,
    index: DomainIndex,
    entry: ExpertEntry,
    authority_role: MemberRole,
    expert: Key,
    domain_id: Seq<char>,
) -> Option<IndrasError> {
    if !authority_role.grants(CAN_MANAGE_EXPERTS) {
        Some(IndrasError::Unauthorized)
    } else if entry.domain_id@ != domain_id {
        Some(IndrasError::InvalidInput)
    } else if !entry.is_active {
        Some(IndrasError::InvalidState)
    } else if index.remove_error(expert) is Some {
        index.remove_error(expert)
    } else if registry.total_experts == 0 {
        Some(IndrasError::Underflow)
    } else {
        None
    }
}

/// Deactivates an expert's entry for a domain and unlists the expert (the
/// caller holds the expert-management permission).
pub fn remove_expert_handler(
    registry: &mut ExpertRegistry,
    domain_index: &mut DomainIndex,
    expert_entry: &mut ExpertEntry,
    authority_role: &MemberRole,
    expert: &Key,
    now: i64,
    domain_id: String,
) -> (r: Result<(), IndrasError>)
    ensures
        r == outcome(remove_expert_error(*old(registry), *old(domain_index), *old(expert_entry), *authority_role, *expert, domain_id@)),
        r is Err ==> *final(registry) == *old(registry) && *final(domain_index) == *old(domain_index)
            && *final(expert_entry) == *old(expert_entry),
        r is Ok ==> {
            &&& *final(expert_entry) == (ExpertEntry { is_active: false, updated_at: now, ..*old(expert_entry) })
            &&& final(domain_index).experts@ == old(domain_index).experts@.remove(key_index(old(domain_index).experts@, *expert))
            &&& *final(domain_index) == (DomainIndex {
                experts: final(domain_index).experts,
                expert_count: (old(domain_index).expert_count - 1) as u64,
                updated_at: now,
                ..*old(domain_index)
            })
            &&& *final(registry) == (ExpertRegistry {
                total_experts: (old(registry).total_experts - 1) as u64,
                updated_at: now,
                ..*old(registry)
            })
        },
        old(domain_index).wf() ==> final(domain_index).wf(),
{
    if !authority_role.has_permission(CAN_MANAGE_EXPERTS) {
        return Err(IndrasError::Unauthorized);
    }
    if expert_entry.domain_id != domain_id {
        return Err(IndrasError::InvalidInput);
    }
    if !expert_entry.is_active {
        return Err(IndrasError::InvalidState);
    }
    if !contains_key(&domain_index.experts, expert) {
        return Err(IndrasError::NotFound);
    }
    if domain_index.expert_count == 0 {
        return Err(IndrasError::Underflow);
    }
    if registry.total_experts == 0 {
        return Err(IndrasError::Underflow);
    }
    expert_entry.is_active = false;
    expert_entry.updated_at = now;
    let removed = domain_index.remove_expert(*expert);
    match removed {
        Ok(()) => {},
        Err(e) => {
            return Err(e);
        },
    }
    domain_index.updated_at = now;
    registry.total_experts = registry.total_experts - 1;
    registry.updated_at = now;
    Ok(())
}

/// The first failing check of `update_expert_handler`.
pub open spec fn update_expert_error(
    entry: ExpertEntry,
    authority_role: MemberRole,
    new_confidence: Option<u8>,
    new_competency_level: Option<CompetencyLevel>,
) -> Option<IndrasError> {
    if !authority_role.grants(CAN_MANAGE_EXPERTS) {
        Some(IndrasError::Unauthorized)
    } else if !entry.is_active {
        Some(IndrasError::InvalidState)
    } else if new_confidence is Some && new_confidence->0 < MIN_CONFIDENCE {
        Some(IndrasError::InvalidScore)
    } else if new_competency_level is Some && new_competency_level->0 != CompetencyLevel::Expert {
        Some(IndrasError::InvalidCompetencyLevel)
    } else {
        None
    }
}

/// Updates an active expert entry's confidence and competency level.
pub fn update_expert_handler(
    expert_entry: &mut ExpertEntry,
    authority_role: &MemberRole,
    now: i64,
    new_confidence: Option<u8>,
    new_competency_level: Option<CompetencyLevel>,
) -> (r: Result<(), IndrasError>)
    ensures
        r == outcome(update_expert_error(*old(expert_entry), *authority_role, new_confidence, new_competency_level)),
        r is Err ==> *final(expert_entry) == *old(expert_entry),
        r is Ok ==> *final(expert_entry) == (ExpertEntry {
            confidence: match new_confidence {
                Some(c) => c,
                None => old(expert_entry).confidence,
            },
            competency_level: match new_competency_level {
                Some(l) => l,
                None => old(expert_entry).competency_level,
            },
            updated_at: now,
            ..*old(expert_entry)
        }),
{
    if !authority_role.has_permission(CAN_MANAGE_EXPERTS) {
        return Err(IndrasError::Unauthorized);
    }
    if !expert_entry.is_active {
        return Err(IndrasError::InvalidState);
    }
    if let Some(c) = new_confidence {
        if c < MIN_CONFIDENCE {
            return Err(IndrasError::InvalidScore);
        }
    }
    if let Some(l) = new_competency_level {
        if l != CompetencyLevel::Expert {
            return Err(IndrasError::InvalidCompetencyLevel);
        }
    }
    if let Some(c) = new_confidence {
        expert_entry.confidence = c;
    }
    if let Some(l) = new_competency_level {
        expert_entry.competency_level = l;
    }
    expert_entry.updated_at = now;
    Ok(())
}

} // verus!
