use crate::access::outcome;
use crate::ai_analysis::{verify_ai_analysis, verify_ai_analysis_error, AIAnalysisRecord, AccountData};
use crate::error::IndrasError;
use crate::idea::{AnchorRecord, Idea, IdeaStatus};
use crate::keys::Key;
use crate::mesh_group::{contains_id, distinct_ids, index_of_id, id_index, GroupStatus, MeshGroup};
use crate::render::{append_str, base58_text, decimal_text, hex_encode, hex_lower, i64_text, key_text};
use crate::text::string_from_chars;
use vstd::prelude::*;

verus! {

/// The group with `ideas` as its idea list and nothing else changed.
pub open spec fn with_ideas(old: MeshGroup, new: MeshGroup) -> bool {
    new == (MeshGroup { ideas: new.ideas, ..old })
}

/// The group with `grants` as its grant list and nothing else changed.
pub open spec fn with_grants(old: MeshGroup, new: MeshGroup) -> bool {
    new == (MeshGroup { grants: new.grants, ..old })
}

proof fn lemma_push_distinct(s: Seq<u64>, x: u64)
    requires
        distinct_ids(s),
        !s.contains(x),
    ensures
        distinct_ids(s.push(x)),
{
    let t = s.push(x);
    assert forall|i: int, j: int| 0 <= i < j < t.len() implies t[i] != t[j] by {
        if j == s.len() {
            assert(t[i] == s[i]);
        } else {
            assert(t[i] == s[i] && t[j] == s[j]);
        }
    }
}

proof fn lemma_remove_distinct(s: Seq<u64>, k: int)
    requires
        distinct_ids(s),
        0 <= k < s.len(),
    ensures
        distinct_ids(s.remove(k)),
        !s.remove(k).contains(s[k]),
{
    let t = s.remove(k);
    assert forall|i: int, j: int| 0 <= i < j < t.len() implies t[i] != t[j] by {
        let oi = if i < k { i } else { i + 1 };
        let oj = if j < k { j } else { j + 1 };
        assert(t[i] == s[oi] && t[j] == s[oj]);
    }
    if t.contains(s[k]) {
        let i = choose|i: int| 0 <= i < t.len() && t[i] == s[k];
        let oi = if i < k { i } else { i + 1 };
        assert(t[i] == s[oi]);
    }
}

impl MeshGroup {
    /// Adds an idea that the group does not hold yet.
    pub fn add_idea(&mut self, idea_id: u64) -> (r: Result<(), IndrasError>)
        ensures
            r == outcome(
                if old(self).ideas@.contains(idea_id) {
                    Some(IndrasError::IdeaAlreadyInMeshGroup)
                } else {
                    None
                },
            ),
            r is Ok ==> final(self).ideas@ == old(self).ideas@.push(idea_id) && with_ideas(*old(self), *final(self)),
            r is Err ==> *final(self) == *old(self),
            old(self).wf() ==> final(self).wf(),
    {
        if contains_id(&self.ideas, idea_id) {
            return Err(IndrasError::IdeaAlreadyInMeshGroup);
        }
        let ghost before = *self;
        self.ideas.push(idea_id);
        proof {
            assert(self.members@ == before.members@);
            if before.wf() {
                lemma_push_distinct(before.ideas@, idea_id);
                let l = choose|l: int| 0 <= l < before.members@.len() && #[trigger] before.members@[l].pubkey == before.leader;
                assert(self.members@[l].pubkey == self.leader);
            }
        }
        Ok(())
    }

    /// Removes an idea the group holds (its first occurrence).
    pub fn remove_idea(&mut self, idea_id: u64) -> (r: Result<(), IndrasError>)
        ensures
            r == outcome(
                if !old(self).ideas@.contains(idea_id) {
                    Some(IndrasError::IdeaNotInMeshGroup)
                } else {
                    None
                },
            ),
            r is Ok ==> final(self).ideas@ == old(self).ideas@.remove(id_index(old(self).ideas@, idea_id)) && with_ideas(*old(self), *final(self)),
            r is Err ==> *final(self) == *old(self),
            old(self).wf() ==> final(self).wf() && !final(self).ideas@.contains(idea_id),
    {
        let idx = match index_of_id(&self.ideas, idea_id) {
            Some(i) => i,
            None => {
                return Err(IndrasError::IdeaNotInMeshGroup);
            },
        };
        let ghost before = *self;
        self.ideas.remove(idx);
        proof {
            crate::mesh_group::lemma_id_index(before.ideas@, idea_id, idx as int);
            assert(self.members@ == before.members@);
            if before.wf() {
                lemma_remove_distinct(before.ideas@, idx as int);
                let l = choose|l: int| 0 <= l < before.members@.len() && #[trigger] before.members@[l].pubkey == before.leader;
                assert(self.members@[l].pubkey == self.leader);
            }
        }
        Ok(())
    }

    /// Records a grant that the group does not hold yet.
    pub fn add_grant(&mut self, grant_id: u64) -> (r: Result<(), IndrasError>)
        ensures
            r == outcome(
                if old(self).grants@.contains(grant_id) {
                    Some(IndrasError::InvalidInput)
                } else {
                    None
                },
            ),
            r is Ok ==> final(self).grants@ == old(self).grants@.push(grant_id) && with_grants(*old(self), *final(self)),
            r is Err ==> *final(self) == *old(self),
            old(self).wf() ==> final(self).wf(),
    {
        if contains_id(&self.grants, grant_id) {
            return Err(IndrasError::InvalidInput);
        }
        let ghost before = *self;
        self.grants.push(grant_id);
        proof {
            assert(self.members@ == before.members@);
            if before.wf() {
                lemma_push_distinct(before.grants@, grant_id);
                let l = choose|l: int| 0 <= l < before.members@.len() && #[trigger] before.members@[l].pubkey == before.leader;
                assert(self.members@[l].pubkey == self.leader);
            }
        }
        Ok(())
    }
}

/// The first failing check of `add_idea_to_mesh_group_handler`.
pub open spec fn add_idea_to_group_error(
    g: MeshGroup,
    idea: Idea,
    idea_key: Key,
    idea_id: u64,
    analysis: Option<AccountData>,
    record: Option<AIAnalysisRecord>,
    ai_program: Key,
) -> Option<IndrasError> {
    if idea.id != idea_id {
        Some(IndrasError::InvalidInput)
    } else if idea.status != IdeaStatus::Approved {
        Some(IndrasError::InvalidState)
    } else {
        match (analysis, record) {
            (Some(a), Some(rec)) => {
                if verify_ai_analysis_error(a, idea_id, idea_key, rec, ai_program) is Some {
                    verify_ai_analysis_error(a, idea_id, idea_key, rec, ai_program)
                } else if g.ideas@.contains(idea_id) {
                    Some(IndrasError::IdeaAlreadyInMeshGroup)
                } else {
                    None
                }
            },
            _ => Some(IndrasError::InvalidInput),
        }
    }
}

/// Adds an Approved idea to the group, once its AI analysis shows that it
/// may enter a mesh group.
pub fn add_idea_to_mesh_group_handler(
    g: &mut MeshGroup,
    idea: &Idea,
    idea_key: &Key,
    idea_id: u64,
    analysis: &Option<AccountData>,
    record: &Option<AIAnalysisRecord>,
    ai_program: &Key,
) -> (r: Result<(), IndrasError>)
    ensures
        r == outcome(add_idea_to_group_error(*old(g), *idea, *idea_key, idea_id, *analysis, *record, *ai_program)),
        r is Ok ==> final(g).ideas@ == old(g).ideas@.push(idea_id) && with_ideas(*old(g), *final(g)),
        r is Err ==> *final(g) == *old(g),
        old(g).wf() ==> final(g).wf(),
{
    if idea.id != idea_id {
        return Err(IndrasError::InvalidInput);
    }
    if idea.status != IdeaStatus::Approved {
        return Err(IndrasError::InvalidState);
    }
    let a = match analysis {
        Some(a) => a,
        None => {
            return Err(IndrasError::InvalidInput);
        },
    };
    let rec = match record {
        Some(rec) => rec,
        None => {
            return Err(IndrasError::InvalidInput);
        },
    };
    verify_ai_analysis(a, idea_id, idea_key, rec, ai_program)?;
    g.add_idea(idea_id)
}

/// Removes an idea from the group.
pub fn remove_idea_from_mesh_group_handler(g: &mut MeshGroup, idea_id: u64) -> (r: Result<(), IndrasError>)
    ensures
        r == outcome(
            if !old(g).ideas@.contains(idea_id) {
                Some(IndrasError::IdeaNotInMeshGroup)
            } else {
                None
            },
        ),
        r is Ok ==> final(g).ideas@ == old(g).ideas@.remove(id_index(old(g).ideas@, idea_id)) && with_ideas(*old(g), *final(g)),
        r is Err ==> *final(g) == *old(g),
        old(g).wf() ==> final(g).wf() && !final(g).ideas@.contains(idea_id),
{
    g.remove_idea(idea_id)
}

/// The text stored with an anchor record.
pub open spec fn anchor_text(
    group_name: Seq<char>,
    now: i64,
    content_hash: [u8; 32],
    anchorer: Key,
    author: Key,
) -> Seq<char> {
    "Idea anchored in mesh group "@ + group_name + " at "@ + decimal_text(now as int)
        + ". Content hash: "@ + hex_lower(content_hash@) + ", Anchorer: "@ + base58_text(
        anchorer.bytes@,
    ) + ", Author: "@ + base58_text(author.bytes@)
}

/// Writes the anchor text.
pub fn anchor_description(
    group_name: &String,
    now: i64,
    content_hash: &[u8; 32],
    anchorer: &Key,
    author: &Key,
) -> (s: String)
    ensures
        s@ == anchor_text(group_name@, now, *content_hash, *anchorer, *author),
{
    let mut v: Vec<char> = Vec::new();
    append_str(&mut v, "Idea anchored in mesh group ");
    append_str(&mut v, group_name.as_str());
    append_str(&mut v, " at ");
    append_str(&mut v, i64_text(now).as_str());
    append_str(&mut v, ". Content hash: ");
    append_str(&mut v, hex_encode(content_hash).as_str());
    append_str(&mut v, ", Anchorer: ");
    append_str(&mut v, key_text(anchorer).as_str());
    append_str(&mut v, ", Author: ");
    append_str(&mut v, key_text(author).as_str());
    string_from_chars(&v)
}

/// The first failing check of `anchor_idea_in_mesh_group_handler`.
pub open spec fn anchor_idea_error(g: MeshGroup, idea: Idea, idea_id: u64) -> Option<IndrasError> {
    if idea.id != idea_id {
        Some(IndrasError::InvalidInput)
    } else if !g.ideas@.contains(idea_id) {
        Some(IndrasError::IdeaNotInMeshGroup)
    } else if idea.status != IdeaStatus::Approved {
        Some(IndrasError::InvalidState)
    } else if g.status != GroupStatus::Active {
        Some(IndrasError::InvalidState)
    } else {
        None
    }
}

/// Anchors an Approved idea of an Active group on chain: returns the anchor
/// record (the idea itself is left as it is).
pub fn anchor_idea_in_mesh_group_handler(
    g: &MeshGroup,
    idea: &Idea,
    idea_id: u64,
    content_hash: [u8; 32],
    anchorer: &Key,
    now: i64,
    bump: u8,
) -> (r: Result<AnchorRecord, IndrasError>)
    ensures
        r is Err <==> anchor_idea_error(*g, *idea, idea_id) is Some,
        r matches Err(e) ==> Some(e) == anchor_idea_error(*g, *idea, idea_id),
        r matches Ok(rec) ==> rec.idea_id == idea_id && rec.anchored_at == now && rec.anchorer == *anchorer
            && rec.bump == bump && rec.anchor_data@ == anchor_text(g.name@, now, content_hash, *anchorer, idea.author),
{
    if idea.id != idea_id {
        return Err(IndrasError::InvalidInput);
    }
    if !contains_id(&g.ideas, idea_id) {
        return Err(IndrasError::IdeaNotInMeshGroup);
    }
    if idea.status != IdeaStatus::Approved {
        return Err(IndrasError::InvalidState);
    }
    if g.status != GroupStatus::Active {
        return Err(IndrasError::InvalidState);
    }
    let data = anchor_description(&g.name, now, &content_hash, anchorer, &idea.author);
    Ok(AnchorRecord { idea_id: idea_id, anchor_data: data, anchored_at: now, anchorer: *anchorer, bump: bump })
}

} // verus!
