use crate::access::{assert_role, outcome, rate_limit_error, rate_limit_step, role_allows, tracker_after, prepared_op_type, DaoConfig, MemberRole, RateLimitTracker};
use crate::role_permissions::{CAN_CREATE_IDEA};
use crate::embedding::{
    check_signed_embedding, signed_embedding_error, check_deduplication, check_embedding_fields, dedup_error,
    dedup_seeds, embedding_fields_error,
    version_fits_seed, version_text, AIServiceRegistry,
    EmbeddingDeduplication,
};
use crate::error::IndrasError;
use crate::keys::{derived_address, key_eq, Key};
use crate::text::{byte_len, hash_idea_text, idea_text, is_empty_text, normalized_text, sha256, utf8_len};
use vstd::prelude::*;

verus! {

/// The life-cycle state of an idea.
#[derive(Clone, Copy, Debug, PartialEq, Eq, Structural)]
pub enum IdeaStatus {
    Draft,
    UnderReview,
    Approved,
    Rejected,
    InProgress,
    Paused,
    Completed,
    Executed,
    Commercialization,
    Archived,
    Resubmitted,
    Voting,
    Expired,
}

/// The rights an author hands to the association (e.V.) for an idea.
#[derive(Clone, Copy, Debug)]
pub struct TransferredRights {
    pub can_modify: bool,
    pub can_distribute: bool,
    pub can_reproduce: bool,
    pub can_develop: bool,
    pub can_sublicense: bool,
    pub can_gift: bool,
    pub can_bequeath: bool,
    pub transferred_at: i64,
    pub transferred_by: Key,
}

/// An idea and its embedding metadata.
#[derive(Debug)]
pub struct Idea {
    pub id: u64,
    pub author: Key,
    pub title: String,
    pub description: String,
    pub status: IdeaStatus,
    pub rights_transferred_to_ev: Option<TransferredRights>,
    pub idea_hash: Option<[u8; 32]>,
    pub embedding_hash: Option<[u8; 32]>,
    pub embedding_signature: Option<[u8; 64]>,
    pub embedding_provider: Option<String>,
    pub embedding_model: Option<String>,
    pub embedding_model_version: Option<String>,
    pub embedding_created_at: Option<i64>,
    pub embedding_updated_at: Option<i64>,
    pub embedding_update_count: u32,
    pub bump: u8,
}

/// The record that fixes an idea's authorship on chain.
#[derive(Debug)]
pub struct AnchorRecord {
    pub idea_id: u64,
    pub anchor_data: String,
    pub anchored_at: i64,
    pub anchorer: Key,
    pub bump: u8,
}

/// The state of an execution record.
#[derive(Clone, Copy, Debug, PartialEq, Eq, Structural)]
pub enum ExecutionStatus {
    Pending,
    Completed,
    Failed,
}

/// The record written when an idea is executed.
#[derive(Debug)]
pub struct IdeaExecution {
    pub id: u64,
    pub idea_id: u64,
    pub executor: Key,
    pub execution_data: String,
    pub status: ExecutionStatus,
    pub executed_at: i64,
    pub bump: u8,
}

/// `saturating_add(1)` on the embedding update counter.
pub open spec fn bumped(c: u32) -> u32 {
    if c == u32::MAX {
        c
    } else {
        (c + 1) as u32
    }
}

/// The idea after a valid embedding was stored at `now`.
pub open spec fn with_embedding(
    idea: Idea,
    hash: [u8; 32],
    signature: [u8; 64],
    provider: String,
    model: Option<String>,
    model_version: Option<String>,
    now: i64,
) -> Idea {
    Idea {
        embedding_hash: Some(hash),
        embedding_signature: Some(signature),
        embedding_provider: Some(provider),
        embedding_model: model,
        embedding_model_version: model_version,
        embedding_created_at: if idea.embedding_created_at is None {
            Some(now)
        } else {
            idea.embedding_created_at
        },
        embedding_updated_at: Some(now),
        embedding_update_count: bumped(idea.embedding_update_count),
        ..idea
    }
}

/// The idea with a new status and nothing else changed.
pub open spec fn with_status(idea: Idea, status: IdeaStatus) -> Idea {
    Idea { status: status, ..idea }
}

// ---------------------------------------------------------------- complete

/// The first failing check of `complete_idea_handler`.
pub open spec fn complete_idea_error(
    idea: Idea,
    completer: Key,
    authority: Key,
    idea_id: u64,
    report: Seq<char>,
) -> Option<IndrasError> {
    if utf8_len(report) > 2000 {
        Some(IndrasError::DataTooLarge)
    } else if idea.id != idea_id {
        Some(IndrasError::InvalidInput)
    } else if idea.status != IdeaStatus::InProgress {
        Some(IndrasError::InvalidState)
    } else if report.len() == 0 {
        Some(IndrasError::InvalidInput)
    } else if completer != authority && completer != idea.author {
        Some(IndrasError::Unauthorized)
    } else {
        None
    }
}

/// Completes an idea's work: InProgress becomes Completed. The DAO authority
/// or the author may do it, with a report of 1 to 2000 bytes.
pub fn complete_idea_handler(
    idea: &mut Idea,
    completer: &Key,
    dao_authority: &Key,
    idea_id: u64,
    completion_report: &String,
) -> (r: Result<(), IndrasError>)
    ensures
        r == outcome(complete_idea_error(*old(idea), *completer, *dao_authority, idea_id, completion_report@)),
        r is Ok ==> *final(idea) == with_status(*old(idea), IdeaStatus::Completed),
        r is Err ==> *final(idea) == *old(idea),
{
    if byte_len(completion_report) > 2000 {
        return Err(IndrasError::DataTooLarge);
    }
    if idea.id != idea_id {
        return Err(IndrasError::InvalidInput);
    }
    if idea.status != IdeaStatus::InProgress {
        return Err(IndrasError::InvalidState);
    }
    if is_empty_text(completion_report) {
        return Err(IndrasError::InvalidInput);
    }
    if !key_eq(completer, dao_authority) && !key_eq(completer, &idea.author) {
        return Err(IndrasError::Unauthorized);
    }
    idea.status = IdeaStatus::Completed;
    Ok(())
}

// ---------------------------------------------------------------- archive

/// Whether an idea in this state may be archived.
pub open spec fn archivable(s: IdeaStatus) -> bool {
    s == IdeaStatus::Completed || s == IdeaStatus::Executed || s == IdeaStatus::Rejected
}

/// The first failing check of `archive_idea_handler`.
pub open spec fn archive_idea_error(idea: Idea, idea_id: u64, reason: Seq<char>) -> Option<IndrasError> {
    if idea.id != idea_id {
        Some(IndrasError::InvalidInput)
    } else if !archivable(idea.status) {
        Some(IndrasError::InvalidState)
    } else if reason.len() == 0 {
        Some(IndrasError::InvalidInput)
    } else if utf8_len(reason) > 500 {
        Some(IndrasError::StringTooLong)
    } else {
        None
    }
}

/// Archives a Completed, Executed or Rejected idea, with a reason of 1 to 500 bytes.
pub fn archive_idea_handler(idea: &mut Idea, idea_id: u64, reason: &String) -> (r: Result<
    (),
    IndrasError,
>)
    ensures
        r == outcome(archive_idea_error(*old(idea), idea_id, reason@)),
        r is Ok ==> *final(idea) == with_status(*old(idea), IdeaStatus::Archived),
        r is Err ==> *final(idea) == *old(idea),
{
    if idea.id != idea_id {
        return Err(IndrasError::InvalidInput);
    }
    if !(idea.status == IdeaStatus::Completed || idea.status == IdeaStatus::Executed
        || idea.status == IdeaStatus::Rejected) {
        return Err(IndrasError::InvalidState);
    }
    if is_empty_text(reason) {
        return Err(IndrasError::InvalidInput);
    }
    if byte_len(reason) > 500 {
        return Err(IndrasError::StringTooLong);
    }
    idea.status = IdeaStatus::Archived;
    Ok(())
}

// ---------------------------------------------------------------- resubmit

/// The first failing check of `resubmit_idea_handler`.
pub open spec fn resubmit_idea_error(
    idea: Idea,
    idea_id: u64,
    title: Option<String>,
    description: Option<String>,
) -> Option<IndrasError> {
    if idea.id != idea_id {
        Some(IndrasError::InvalidInput)
    } else if idea.status != IdeaStatus::Rejected {
        Some(IndrasError::InvalidState)
    } else if title is Some && title->0@.len() == 0 {
        Some(IndrasError::InvalidInput)
    } else if title is Some && utf8_len(title->0@) > 100 {
        Some(IndrasError::StringTooLong)
    } else if description is Some && description->0@.len() == 0 {
        Some(IndrasError::InvalidInput)
    } else if description is Some && utf8_len(description->0@) > 500 {
        Some(IndrasError::StringTooLong)
    } else {
        None
    }
}

/// The idea after a successful resubmission.
pub open spec fn resubmitted(idea: Idea, title: Option<String>, description: Option<String>) -> Idea {
    Idea {
        title: match title {
            Some(t) => t,
            None => idea.title,
        },
        description: match description {
            Some(d) => d,
            None => idea.description,
        },
        status: IdeaStatus::Resubmitted,
        ..idea
    }
}

/// Resubmits a Rejected idea for a new review, optionally with a new title
/// (1 to 100 bytes) and description (1 to 500 bytes).
pub fn resubmit_idea_handler(
    idea: &mut Idea,
    idea_id: u64,
    updated_title: Option<String>,
    updated_description: Option<String>,
) -> (r: Result<(), IndrasError>)
    ensures
        r == outcome(resubmit_idea_error(*old(idea), idea_id, updated_title, updated_description)),
        r is Ok ==> *final(idea) == resubmitted(*old(idea), updated_title, updated_description),
        r is Err ==> *final(idea) == *old(idea),
{
    if idea.id != idea_id {
        return Err(IndrasError::InvalidInput);
    }
    if idea.status != IdeaStatus::Rejected {
        return Err(IndrasError::InvalidState);
    }
    if let Some(t) = &updated_title {
        if is_empty_text(t) {
            return Err(IndrasError::InvalidInput);
        }
        if byte_len(t) > 100 {
            return Err(IndrasError::StringTooLong);
        }
    }
    if let Some(d) = &updated_description {
        if is_empty_text(d) {
            return Err(IndrasError::InvalidInput);
        }
        if byte_len(d) > 500 {
            return Err(IndrasError::StringTooLong);
        }
    }
    if let Some(t) = updated_title {
        idea.title = t;
    }
    if let Some(d) = updated_description {
        idea.description = d;
    }
    idea.status = IdeaStatus::Resubmitted;
    Ok(())
}

// ---------------------------------------------------------------- execute

/// The first failing check of `execute_idea_handler`.
pub open spec fn execute_idea_error(
    idea: Idea,
    executor: Key,
    authority: Key,
    idea_id: u64,
    data: Seq<char>,
) -> Option<IndrasError> {
    if idea.id != idea_id {
        Some(IndrasError::InvalidInput)
    } else if executor != authority && executor != idea.author {
        Some(IndrasError::Unauthorized)
    } else if idea.status != IdeaStatus::Completed {
        Some(IndrasError::InvalidState)
    } else if data.len() == 0 {
        Some(IndrasError::InvalidInput)
    } else if utf8_len(data) > 1000 {
        Some(IndrasError::StringTooLong)
    } else {
        None
    }
}

/// Executes a Completed idea (it becomes Executed) and returns the execution
/// record. The DAO authority or the author may do it.
pub fn execute_idea_handler(
    idea: &mut Idea,
    executor: &Key,
    dao_authority: &Key,
    idea_id: u64,
    execution_data: String,
    now: i64,
    bump: u8,
) -> (r: Result<IdeaExecution, IndrasError>)
    ensures
        r is Err <==> execute_idea_error(*old(idea), *executor, *dao_authority, idea_id, execution_data@) is Some,
        r matches Err(e) ==> Some(e) == execute_idea_error(*old(idea), *executor, *dao_authority, idea_id, execution_data@)
            && *final(idea) == *old(idea),
        r matches Ok(x) ==> *final(idea) == with_status(*old(idea), IdeaStatus::Executed)
            && x == (IdeaExecution {
                id: idea_id,
                idea_id: idea_id,
                executor: *executor,
                execution_data: execution_data,
                status: ExecutionStatus::Completed,
                executed_at: now,
                bump: bump,
            }),
{
    if idea.id != idea_id {
        return Err(IndrasError::InvalidInput);
    }
    if !key_eq(executor, dao_authority) && !key_eq(executor, &idea.author) {
        return Err(IndrasError::Unauthorized);
    }
    if idea.status != IdeaStatus::Completed {
        return Err(IndrasError::InvalidState);
    }
    if is_empty_text(&execution_data) {
        return Err(IndrasError::InvalidInput);
    }
    if byte_len(&execution_data) > 1000 {
        return Err(IndrasError::StringTooLong);
    }
    idea.status = IdeaStatus::Executed;
    Ok(
        IdeaExecution {
            id: idea_id,
            idea_id: idea_id,
            executor: *executor,
            execution_data: execution_data,
            status: ExecutionStatus::Completed,
            executed_at: now,
            bump: bump,
        },
    )
}

// ---------------------------------------------------------------- close

/// The first failing check of `close_idea_handler`.
pub open spec fn close_idea_error(idea: Idea, closer: Key, authority: Key, idea_id: u64) -> Option<IndrasError> {
    if idea.id != idea_id {
        Some(IndrasError::InvalidInput)
    } else if idea.author != closer && authority != closer {
        Some(IndrasError::Unauthorized)
    } else {
        None
    }
}

/// Decides whether an idea account may be closed: by its author or the DAO authority.
pub fn close_idea_handler(idea: &Idea, closer: &Key, dao_authority: &Key, idea_id: u64) -> (r: Result<
    (),
    IndrasError,
>)
    ensures
        r == outcome(close_idea_error(*idea, *closer, *dao_authority, idea_id)),
{
    if idea.id != idea_id {
        return Err(IndrasError::InvalidInput);
    }
    if !key_eq(&idea.author, closer) && !key_eq(dao_authority, closer) {
        return Err(IndrasError::Unauthorized);
    }
    Ok(())
}

// ---------------------------------------------------------------- rights

/// The seven rights an author can hand over.
#[derive(Clone, Copy, Debug)]
pub struct RightsSelection {
    pub can_modify: bool,
    pub can_distribute: bool,
    pub can_reproduce: bool,
    pub can_develop: bool,
    pub can_sublicense: bool,
    pub can_gift: bool,
    pub can_bequeath: bool,
}

impl RightsSelection {
    pub open spec fn any(self) -> bool {
        self.can_modify || self.can_distribute || self.can_reproduce || self.can_develop
            || self.can_sublicense || self.can_gift || self.can_bequeath
    }
}

/// The first failing check of `transfer_rights_to_ev_handler`.
pub open spec fn transfer_rights_error(
    idea: Idea,
    author: Key,
    anchor: AnchorRecord,
    rights: RightsSelection,
) -> Option<IndrasError> {
    if author != idea.author {
        Some(IndrasError::Unauthorized)
    } else if anchor.idea_id != idea.id {
        Some(IndrasError::InvalidInput)
    } else if anchor.anchorer != idea.author {
        Some(IndrasError::Unauthorized)
    } else if !rights.any() {
        Some(IndrasError::InvalidInput)
    } else {
        None
    }
}

/// Hands a selection of rights for an anchored idea to the association. Only
/// the author may do it, and at least one right must be selected.
pub fn transfer_rights_to_ev_handler(
    idea: &mut Idea,
    author: &Key,
    anchor_record: &AnchorRecord,
    rights: RightsSelection,
    now: i64,
) -> (r: Result<(), IndrasError>)
    ensures
        r == outcome(transfer_rights_error(*old(idea), *author, *anchor_record, rights)),
        r is Err ==> *final(idea) == *old(idea),
        r is Ok ==> *final(idea) == (Idea {
            rights_transferred_to_ev: Some(
                TransferredRights {
                    can_modify: rights.can_modify,
                    can_distribute: rights.can_distribute,
                    can_reproduce: rights.can_reproduce,
                    can_develop: rights.can_develop,
                    can_sublicense: rights.can_sublicense,
                    can_gift: rights.can_gift,
                    can_bequeath: rights.can_bequeath,
                    transferred_at: now,
                    transferred_by: old(idea).author,
                },
            ),
            ..*old(idea)
        }),
{
    if !key_eq(author, &idea.author) {
        return Err(IndrasError::Unauthorized);
    }
    if anchor_record.idea_id != idea.id {
        return Err(IndrasError::InvalidInput);
    }
    if !key_eq(&anchor_record.anchorer, &idea.author) {
        return Err(IndrasError::Unauthorized);
    }
    if !(rights.can_modify || rights.can_distribute || rights.can_reproduce || rights.can_develop
        || rights.can_sublicense || rights.can_gift || rights.can_bequeath) {
        return Err(IndrasError::InvalidInput);
    }
    idea.rights_transferred_to_ev = Some(
        TransferredRights {
            can_modify: rights.can_modify,
            can_distribute: rights.can_distribute,
            can_reproduce: rights.can_reproduce,
            can_develop: rights.can_develop,
            can_sublicense: rights.can_sublicense,
            can_gift: rights.can_gift,
            can_bequeath: rights.can_bequeath,
            transferred_at: now,
            transferred_by: idea.author,
        },
    );
    Ok(())
}

// ---------------------------------------------------------------- embedding

/// The first failing check of `update_idea_embedding_handler`.
pub open spec fn update_idea_embedding_error(
    idea: Idea,
    idea_key: Key,
    program_id: Key,
    authority: Key,
    registry: Option<&AIServiceRegistry>,
    dedup: Option<(Key, &EmbeddingDeduplication)>,
    signature_check: Result<(), IndrasError>,
    idea_id: u64,
    hash: [u8; 32],
    signature: [u8; 64],
    provider: Seq<char>,
    model: Option<String>,
    model_version: Option<String>,
    provider_key: Key,
) -> Option<IndrasError> {
    let signed = signed_embedding_error(
        hash,
        signature,
        provider,
        model,
        model_version,
        provider_key,
        signature_check,
        registry,
        authority,
    );
    let dup = dedup_error(
        dedup,
        derived_address(dedup_seeds(idea_key, hash, version_text(model_version)), program_id.bytes@),
        idea_id,
        hash,
        version_text(model_version),
    );
    if signed is Some {
        signed
    } else if dup is Some {
        dup
    } else if idea.id != idea_id {
        Some(IndrasError::InvalidInput)
    } else {
        None
    }
}

/// Replaces an idea's embedding metadata with a signed submission.
/// `signature_check` is the verdict of the ed25519 check of the provider's
/// signature; `dedup` is the deduplication record, if one was supplied.
pub fn update_idea_embedding_handler(
    idea: &mut Idea,
    idea_key: &Key,
    program_id: &Key,
    dao_authority: &Key,
    registry: Option<&AIServiceRegistry>,
    dedup: Option<(Key, &EmbeddingDeduplication)>,
    signature_check: Result<(), IndrasError>,
    now: i64,
    idea_id: u64,
    embedding_hash: [u8; 32],
    embedding_signature: [u8; 64],
    embedding_provider: String,
    embedding_model: Option<String>,
    embedding_model_version: Option<String>,
    embedding_provider_pubkey: Key,
) -> (r: Result<(), IndrasError>)
    requires
        signed_embedding_error(
            embedding_hash,
            embedding_signature,
            embedding_provider@,
            embedding_model,
            embedding_model_version,
            embedding_provider_pubkey,
            signature_check,
            registry,
            *dao_authority,
        ) is None ==> version_fits_seed(embedding_model_version),
    ensures
        r == outcome(
            update_idea_embedding_error(
                *old(idea),
                *idea_key,
                *program_id,
                *dao_authority,
                registry,
                dedup,
                signature_check,
                idea_id,
                embedding_hash,
                embedding_signature,
                embedding_provider@,
                embedding_model,
                embedding_model_version,
                embedding_provider_pubkey,
            ),
        ),
        r is Err ==> *final(idea) == *old(idea),
        r is Ok ==> *final(idea) == with_embedding(
            *old(idea),
            embedding_hash,
            embedding_signature,
            embedding_provider,
            embedding_model,
            embedding_model_version,
            now,
        ),
{
    check_signed_embedding(
        &embedding_hash,
        &embedding_signature,
        &embedding_provider,
        &embedding_model,
        &embedding_model_version,
        &embedding_provider_pubkey,
        signature_check,
        registry,
        dao_authority,
    )?;
    check_deduplication(dedup, idea_key, idea_id, &embedding_hash, &embedding_model_version, program_id)?;
    if idea.id != idea_id {
        return Err(IndrasError::InvalidInput);
    }
    idea.embedding_hash = Some(embedding_hash);
    idea.embedding_signature = Some(embedding_signature);
    idea.embedding_provider = Some(embedding_provider);
    if idea.embedding_created_at.is_none() {
        idea.embedding_created_at = Some(now);
    }
    idea.embedding_updated_at = Some(now);
    idea.embedding_update_count = idea.embedding_update_count.saturating_add(1);
    idea.embedding_model = embedding_model;
    idea.embedding_model_version = embedding_model_version;
    Ok(())
}

// ---------------------------------------------------------------- create

/// Rate-limit window for creating ideas: one per day.
pub const IDEA_RATE_LIMIT_WINDOW: i64 = 86400;

/// Whether the optional embedding arguments form a complete signed submission.
pub open spec fn full_submission(
    hash: Option<[u8; 32]>,
    signature: Option<[u8; 64]>,
    provider: Option<String>,
    provider_key: Option<Key>,
) -> bool {
    hash is Some && signature is Some && provider is Some && provider_key is Some
}

/// The first failing check of `create_idea_handler`.
pub open spec fn create_idea_error(
    author: Key,
    dao_config: &DaoConfig,
    tracker: Option<&RateLimitTracker>,
    author_role: Option<MemberRole>,
    idea_key: Key,
    program_id: Key,
    registry: Option<&AIServiceRegistry>,
    dedup: Option<(Key, &EmbeddingDeduplication)>,
    signature_check: Result<(), IndrasError>,
    now: i64,
    idea_id: u64,
    title: Seq<char>,
    description: Seq<char>,
    hash: Option<[u8; 32]>,
    signature: Option<[u8; 64]>,
    provider: Option<String>,
    model: Option<String>,
    model_version: Option<String>,
    provider_key: Option<Key>,
) -> Option<IndrasError> {
    let rate = rate_limit_error(tracker, dao_config.dev_mode, author, now, IDEA_RATE_LIMIT_WINDOW);
    if rate is Some {
        rate
    } else if author != dao_config.authority && !role_allows(author_role, author, CAN_CREATE_IDEA) {
        Some(IndrasError::Unauthorized)
    } else if title.len() == 0 || description.len() == 0 || utf8_len(title) > 100 || utf8_len(
        description,
    ) > 500 {
        Some(IndrasError::InvalidInput)
    } else if hash is Some && signature is Some && provider is Some && provider_key is None {
        let fields = embedding_fields_error(hash->0, signature->0, provider->0@, model, model_version);
        if fields is Some {
            fields
        } else {
            Some(IndrasError::InvalidEmbeddingProvider)
        }
    } else if full_submission(hash, signature, provider, provider_key) {
        let signed = signed_embedding_error(
            hash->0,
            signature->0,
            provider->0@,
            model,
            model_version,
            provider_key->0,
            signature_check,
            registry,
            dao_config.authority,
        );
        if signed is Some {
            signed
        } else {
            dedup_error(
                dedup,
                derived_address(
                    dedup_seeds(idea_key, hash->0, version_text(model_version)),
                    program_id.bytes@,
                ),
                idea_id,
                hash->0,
                version_text(model_version),
            )
        }
    } else {
        None
    }
}

/// What a newly created idea holds.
pub open spec fn created_idea(
    idea: Idea,
    author: Key,
    idea_id: u64,
    title: String,
    description: String,
    hash: Option<[u8; 32]>,
    signature: Option<[u8; 64]>,
    provider: Option<String>,
    model: Option<String>,
    model_version: Option<String>,
    now: i64,
    bump: u8,
) -> bool {
    &&& idea.id == idea_id
    &&& idea.author == author
    &&& idea.title == title
    &&& idea.description == description
    &&& idea.status == IdeaStatus::Draft
    &&& idea.rights_transferred_to_ev is None
    &&& idea.idea_hash is Some
    &&& idea.idea_hash->0@ == sha256(
        vstd::utf8::encode_utf8(normalized_text(idea_text(title@, description@))),
    )
    &&& idea.bump == bump
    &&& if hash is Some && signature is Some && provider is Some {
        &&& idea.embedding_hash == hash
        &&& idea.embedding_signature == signature
        &&& idea.embedding_provider == provider
        &&& idea.embedding_model == model
        &&& idea.embedding_model_version == model_version
        &&& idea.embedding_created_at == Some(now)
        &&& idea.embedding_updated_at == Some(now)
        &&& idea.embedding_update_count == 1
    } else {
        &&& idea.embedding_hash is None
        &&& idea.embedding_signature is None
        &&& idea.embedding_provider is None
        &&& idea.embedding_model is None
        &&& idea.embedding_model_version is None
        &&& idea.embedding_created_at is None
        &&& idea.embedding_updated_at is None
        &&& idea.embedding_update_count == 0
    }
}

/// Creates a Draft idea. The author passes the daily rate limit (or the DAO
/// is in dev mode without a tracker), is the DAO authority or holds the
/// create-idea permission, gives a title of 1 to 100 bytes and a description
/// of 1 to 500 bytes, and, when an embedding (hash, signature and provider)
/// is submitted, it comes with the provider's key and passes the embedding
/// checks; only an embedding that passed them is stored. Returns the idea and the rate-limit tracker
/// as it stands afterwards.
pub fn create_idea_handler(
    author: &Key,
    dao_config: &DaoConfig,
    rate_limit_tracker: Option<&RateLimitTracker>,
    author_role: &Option<MemberRole>,
    idea_key: &Key,
    program_id: &Key,
    registry: Option<&AIServiceRegistry>,
    dedup: Option<(Key, &EmbeddingDeduplication)>,
    signature_check: Result<(), IndrasError>,
    now: i64,
    bump: u8,
    idea_id: u64,
    title: String,
    description: String,
    embedding_hash: Option<[u8; 32]>,
    embedding_signature: Option<[u8; 64]>,
    embedding_provider: Option<String>,
    embedding_model: Option<String>,
    embedding_model_version: Option<String>,
    embedding_provider_pubkey: Option<Key>,
) -> (r: Result<(Idea, Option<RateLimitTracker>), IndrasError>)
    requires
        full_submission(embedding_hash, embedding_signature, embedding_provider, embedding_provider_pubkey)
            && signed_embedding_error(
            embedding_hash->0,
            embedding_signature->0,
            embedding_provider->0@,
            embedding_model,
            embedding_model_version,
            embedding_provider_pubkey->0,
            signature_check,
            registry,
            dao_config.authority,
        ) is None ==> version_fits_seed(embedding_model_version),
    ensures
        ({
            let err = create_idea_error(
                *author,
                dao_config,
                rate_limit_tracker,
                *author_role,
                *idea_key,
                *program_id,
                registry,
                dedup,
                signature_check,
                now,
                idea_id,
                title@,
                description@,
                embedding_hash,
                embedding_signature,
                embedding_provider,
                embedding_model,
                embedding_model_version,
                embedding_provider_pubkey,
            );
            &&& r is Err <==> err is Some
            &&& r is Err ==> r->Err_0 == err->0
        }),
        r is Ok && embedding_hash is Some && embedding_signature is Some && embedding_provider is Some
            ==> embedding_provider_pubkey is Some && signed_embedding_error(
            embedding_hash->0,
            embedding_signature->0,
            embedding_provider->0@,
            embedding_model,
            embedding_model_version,
            embedding_provider_pubkey->0,
            signature_check,
            registry,
            dao_config.authority,
        ) is None,
        r matches Ok((idea, tracker)) ==> created_idea(
            idea,
            *author,
            idea_id,
            title,
            description,
            embedding_hash,
            embedding_signature,
            embedding_provider,
            embedding_model,
            embedding_model_version,
            now,
            bump,
        ) && match rate_limit_tracker {
            None => tracker is None,
            Some(t) => tracker is Some && {
                let a = tracker_after(*t, *author, now);
                let b = tracker->0;
                &&& b.user == a.user
                &&& b.last_operation_at == a.last_operation_at
                &&& b.operation_count == a.operation_count
                &&& b.window_start == a.window_start
                &&& b.operation_type@ == prepared_op_type(*t, "create_idea"@)
            },
        },
{
    let tracker = rate_limit_step(
        rate_limit_tracker,
        dao_config.dev_mode,
        author,
        "create_idea",
        now,
        IDEA_RATE_LIMIT_WINDOW,
    )?;
    if !key_eq(author, &dao_config.authority) {
        assert_role(author_role, author, CAN_CREATE_IDEA)?;
    }
    if is_empty_text(&title) || is_empty_text(&description) || byte_len(&title) > 100 || byte_len(
        &description,
    ) > 500 {
        return Err(IndrasError::InvalidInput);
    }
    if let (Some(h), Some(s), Some(p)) = (&embedding_hash, &embedding_signature, &embedding_provider) {
        match &embedding_provider_pubkey {
            Some(pk) => {
                check_signed_embedding(
                    h,
                    s,
                    p,
                    &embedding_model,
                    &embedding_model_version,
                    pk,
                    signature_check,
                    registry,
                    &dao_config.authority,
                )?;
                check_deduplication(dedup, idea_key, idea_id, h, &embedding_model_version, program_id)?;
            },
            None => {
                check_embedding_fields(h, s, p, &embedding_model, &embedding_model_version)?;
                return Err(IndrasError::InvalidEmbeddingProvider);
            },
        }
    }
    let idea_hash = hash_idea_text(&title, &description);
    let stored = embedding_hash.is_some() && embedding_signature.is_some()
        && embedding_provider.is_some();
    let idea = if stored {
        Idea {
            id: idea_id,
            author: *author,
            title: title,
            description: description,
            status: IdeaStatus::Draft,
            rights_transferred_to_ev: None,
            idea_hash: Some(idea_hash),
            embedding_hash: embedding_hash,
            embedding_signature: embedding_signature,
            embedding_provider: embedding_provider,
            embedding_model: embedding_model,
            embedding_model_version: embedding_model_version,
            embedding_created_at: Some(now),
            embedding_updated_at: Some(now),
            embedding_update_count: 1,
            bump: bump,
        }
    } else {
        Idea {
            id: idea_id,
            author: *author,
            title: title,
            description: description,
            status: IdeaStatus::Draft,
            rights_transferred_to_ev: None,
            idea_hash: Some(idea_hash),
            embedding_hash: None,
            embedding_signature: None,
            embedding_provider: None,
            embedding_model: None,
            embedding_model_version: None,
            embedding_created_at: None,
            embedding_updated_at: None,
            embedding_update_count: 0,
            bump: bump,
        }
    };
    Ok((idea, tracker))
}

} // verus!
