use crate::access::DaoConfig;
use crate::ai_analysis::AccountData;
use crate::error::IndrasError;
use crate::keys::{derived_address, find_program_address, is_address, key_eq, seeds_view, Key};
use crate::text::{byte_len, is_empty_text, utf8_len};
use vstd::prelude::*;

verus! {

/// The current layout version of the DAO configuration.
pub const DAO_CONFIG_SCHEMA_VERSION: u8 = 2;

/// Bytes of a DAO configuration in the current layout (without the 8-byte
/// account discriminator).
pub const DAO_CONFIG_SPACE: usize = 725;

/// Execution delay of a new DAO: 24 hours.
pub const DEFAULT_EXECUTION_DELAY_SECONDS: i64 = 86400;

/// The DAO configuration in its first layout (no schema version, no dev mode).
#[derive(Debug)]
pub struct DaoConfigV1 {
    pub authority: Key,
    pub name: String,
    pub description: String,
    pub is_active: bool,
    pub is_paused: bool,
    pub last_operation_timestamp: Option<i64>,
    pub operation_count: u64,
    pub execution_delay_seconds: i64,
    pub adaptive_security_enabled: bool,
    pub progressive_unlock_enabled: bool,
    pub behavioral_analysis_enabled: bool,
    pub created_at: i64,
    pub updated_at: Option<i64>,
    pub deactivated_at: Option<i64>,
    pub reactivated_at: Option<i64>,
    pub authority_transferred_at: Option<i64>,
    pub security_enhancement_count: u64,
    pub bump: u8,
}

/// The DAO's voting parameters.
#[derive(Clone, Copy, Debug)]
pub struct GovernanceParams {
    pub quorum_percentage: u8,
    pub vote_duration_hours: u64,
    pub delegate_weight_percentage: u8,
    pub early_quorum_enabled: bool,
    pub update_timestamp: i64,
    pub bump: u8,
}

/// A quorum rule.
#[derive(Clone, Copy, Debug)]
pub struct Quorum {
    pub id: u64,
    pub required_votes: u64,
    pub quorum_threshold: u64,
    pub update_timestamp: i64,
    pub bump: u8,
}

/// The checks on a DAO's name and description: both present, at most 100
/// and 500 bytes.
pub open spec fn dao_text_error(name: Seq<char>, description: Seq<char>) -> Option<IndrasError> {
    if name.len() == 0 || utf8_len(name) > 100 || description.len() == 0 || utf8_len(description) > 500 {
        Some(IndrasError::InvalidInput)
    } else {
        None
    }
}

/// The configuration of a newly initialized DAO: active, not paused, not in
/// dev mode, current layout, a 24-hour execution delay, every security
/// feature enabled.
pub open spec fn initial_config(c: DaoConfig, authority: Key, name: String, description: String, now: i64, bump: u8) -> bool {
    c == (DaoConfig {
        schema_version: DAO_CONFIG_SCHEMA_VERSION,
        authority: authority,
        name: name,
        description: description,
        is_active: true,
        dev_mode: false,
        is_paused: false,
        last_operation_timestamp: None,
        operation_count: 0,
        execution_delay_seconds: DEFAULT_EXECUTION_DELAY_SECONDS,
        adaptive_security_enabled: true,
        progressive_unlock_enabled: true,
        behavioral_analysis_enabled: true,
        created_at: now,
        updated_at: None,
        deactivated_at: None,
        reactivated_at: None,
        authority_transferred_at: None,
        security_enhancement_count: 0,
        bump: bump,
    })
}

/// Initializes the DAO with its authority, name and description.
pub fn initialize_dao_handler(authority: &Key, now: i64, bump: u8, name: String, description: String) -> (r:
    Result<DaoConfig, IndrasError>)
    ensures
        r is Err <==> dao_text_error(name@, description@) is Some,
        r matches Err(e) ==> Some(e) == dao_text_error(name@, description@),
        r matches Ok(c) ==> initial_config(c, *authority, name, description, now, bump),
{
    if is_empty_text(&name) || byte_len(&name) > 100 || is_empty_text(&description) || byte_len(&description) > 500 {
        return Err(IndrasError::InvalidInput);
    }
    Ok(
        DaoConfig {
            schema_version: DAO_CONFIG_SCHEMA_VERSION,
            authority: *authority,
            name: name,
            description: description,
            is_active: true,
            dev_mode: false,
            is_paused: false,
            last_operation_timestamp: None,
            operation_count: 0,
            execution_delay_seconds: DEFAULT_EXECUTION_DELAY_SECONDS,
            adaptive_security_enabled: true,
            progressive_unlock_enabled: true,
            behavioral_analysis_enabled: true,
            created_at: now,
            updated_at: None,
            deactivated_at: None,
            reactivated_at: None,
            authority_transferred_at: None,
            security_enhancement_count: 0,
            bump: bump,
        },
    )
}

/// The seed `b"dao_config"`.
pub open spec fn dao_config_seed() -> Seq<u8> {
    seq![100u8, 97, 111, 95, 99, 111, 110, 102, 105, 103]
}

/// The address of the DAO configuration account.
pub open spec fn dao_config_address(program_id: Key) -> Option<Seq<u8>> {
    derived_address(seq![dao_config_seed()], program_id.bytes@)
}

/// The first failing check of `migrate_dao_config_v1_to_v2_handler`.
/// `current` is the account decoded in the current layout and `v1` in the
/// first layout (`None` when the data does not decode that way).
pub open spec fn migrate_error(
    account: AccountData,
    program_id: Key,
    current: Option<&DaoConfig>,
    v1: Option<DaoConfigV1>,
    signer: Key,
) -> Option<IndrasError> {
    let len = account.data@.len();
    if account.owner != program_id {
        Some(IndrasError::InvalidProgram)
    } else if Some(account.key.bytes@) != dao_config_address(program_id) {
        Some(IndrasError::InvalidProgram)
    } else if len < 8 {
        Some(IndrasError::InvalidInput)
    } else if len >= 8 + DAO_CONFIG_SPACE && current is Some && current->0.schema_version
        >= DAO_CONFIG_SCHEMA_VERSION {
        Some(IndrasError::InvalidState)
    } else if v1 is None {
        Some(IndrasError::InvalidInput)
    } else if signer != v1->0.authority {
        Some(IndrasError::Unauthorized)
    } else {
        None
    }
}

/// A first-layout configuration carried into the current layout (dev mode off).
pub open spec fn migrated(c: DaoConfig, v1: DaoConfigV1) -> bool {
    c == (DaoConfig {
        schema_version: DAO_CONFIG_SCHEMA_VERSION,
        authority: v1.authority,
        name: v1.name,
        description: v1.description,
        is_active: v1.is_active,
        dev_mode: false,
        is_paused: v1.is_paused,
        last_operation_timestamp: v1.last_operation_timestamp,
        operation_count: v1.operation_count,
        execution_delay_seconds: v1.execution_delay_seconds,
        adaptive_security_enabled: v1.adaptive_security_enabled,
        progressive_unlock_enabled: v1.progressive_unlock_enabled,
        behavioral_analysis_enabled: v1.behavioral_analysis_enabled,
        created_at: v1.created_at,
        updated_at: v1.updated_at,
        deactivated_at: v1.deactivated_at,
        reactivated_at: v1.reactivated_at,
        authority_transferred_at: v1.authority_transferred_at,
        security_enhancement_count: v1.security_enhancement_count,
        bump: v1.bump,
    })
}

/// Decides the migration of the DAO configuration from its first layout,
/// signed by its authority: returns the configuration in the current
/// layout and the account size it needs, or `None` for the size when the
/// account is already large enough. (Funding and resizing the account and
/// writing the bytes are left to the caller.)
pub fn migrate_dao_config_v1_to_v2_handler(
    account: &AccountData,
    program_id: &Key,
    current: Option<&DaoConfig>,
    v1: Option<DaoConfigV1>,
    signer: &Key,
) -> (r: Result<(DaoConfig, Option<usize>), IndrasError>)
    ensures
        r is Err <==> migrate_error(*account, *program_id, current, v1, *signer) is Some,
        r matches Err(e) ==> Some(e) == migrate_error(*account, *program_id, current, v1, *signer),
        r matches Ok((c, size)) ==> migrated(c, v1->0) && size == (if account.data@.len() < 8 + DAO_CONFIG_SPACE {
            Some((8 + DAO_CONFIG_SPACE) as usize)
        } else {
            None::<usize>
        }),
{
    if !key_eq(&account.owner, program_id) {
        return Err(IndrasError::InvalidProgram);
    }
    let mut seeds: Vec<Vec<u8>> = Vec::new();
    seeds.push(vec![100u8, 97, 111, 95, 99, 111, 110, 102, 105, 103]);
    proof {
        assert(seeds_view(seeds@) =~= seq![dao_config_seed()]);
    }
    let expected = find_program_address(&seeds, program_id);
    if !is_address(&account.key, &expected) {
        return Err(IndrasError::InvalidProgram);
    }
    let len = account.data.len();
    if len < 8 {
        return Err(IndrasError::InvalidInput);
    }
    if len >= 8 + DAO_CONFIG_SPACE {
        if let Some(c) = current {
            if c.schema_version >= DAO_CONFIG_SCHEMA_VERSION {
                return Err(IndrasError::InvalidState);
            }
        }
    }
    let old = match v1 {
        Some(o) => o,
        None => {
            return Err(IndrasError::InvalidInput);
        },
    };
    if !key_eq(signer, &old.authority) {
        return Err(IndrasError::Unauthorized);
    }
    let size = if len < 8 + DAO_CONFIG_SPACE {
        Some(8 + DAO_CONFIG_SPACE)
    } else {
        None
    };
    Ok(
        (
            DaoConfig {
                schema_version: DAO_CONFIG_SCHEMA_VERSION,
                authority: old.authority,
                name: old.name,
                description: old.description,
                is_active: old.is_active,
                dev_mode: false,
                is_paused: old.is_paused,
                last_operation_timestamp: old.last_operation_timestamp,
                operation_count: old.operation_count,
                execution_delay_seconds: old.execution_delay_seconds,
                adaptive_security_enabled: old.adaptive_security_enabled,
                progressive_unlock_enabled: old.progressive_unlock_enabled,
                behavioral_analysis_enabled: old.behavioral_analysis_enabled,
                created_at: old.created_at,
                updated_at: old.updated_at,
                deactivated_at: old.deactivated_at,
                reactivated_at: old.reactivated_at,
                authority_transferred_at: old.authority_transferred_at,
                security_enhancement_count: old.security_enhancement_count,
                bump: old.bump,
            },
            size,
        ),
    )
}

/// Migration happens once: after an accepted migration, once the caller has
/// sized the account as returned and written the new configuration into it,
/// every further migration of that account is refused with `InvalidState`.
pub proof fn migration_is_one_shot(
    account: AccountData,
    program_id: Key,
    current: Option<&DaoConfig>,
    v1: Option<DaoConfigV1>,
    signer: Key,
    c: DaoConfig,
    written: AccountData,
    v1_again: Option<DaoConfigV1>,
    signer_again: Key,
)
    requires
        migrate_error(account, program_id, current, v1, signer) is None,
        migrated(c, v1->0),
        written.key == account.key,
        written.owner == account.owner,
        written.data@.len() >= 8 + DAO_CONFIG_SPACE,
    ensures
        migrate_error(written, program_id, Some(&c), v1_again, signer_again) == Some(IndrasError::InvalidState),
{
}

/// Most votes a quorum rule may require.
pub const MAX_REQUIRED_VOTES: u64 = 1_000_000_000;

/// Sets a quorum rule: a threshold of at most 100 percent and at most
/// 10^9 required votes.
pub fn manage_quorum_handler(now: i64, bump: u8, quorum_id: u64, required_votes: u64, quorum_threshold: u64) -> (r:
    Result<Quorum, IndrasError>)
    ensures
        r is Err <==> quorum_threshold > 100 || required_votes > MAX_REQUIRED_VOTES,
        r matches Err(e) ==> e == (if quorum_threshold > 100 {
            IndrasError::InvalidInput
        } else {
            IndrasError::AmountTooLarge
        }),
        r matches Ok(q) ==> q == (Quorum {
            id: quorum_id,
            required_votes: required_votes,
            quorum_threshold: quorum_threshold,
            update_timestamp: now,
            bump: bump,
        }),
{
    if quorum_threshold > 100 {
        return Err(IndrasError::InvalidInput);
    }
    if required_votes > MAX_REQUIRED_VOTES {
        return Err(IndrasError::AmountTooLarge);
    }
    Ok(
        Quorum {
            id: quorum_id,
            required_votes: required_votes,
            quorum_threshold: quorum_threshold,
            update_timestamp: now,
            bump: bump,
        },
    )
}

/// Valid governance parameters: a quorum and a delegate weight of at most
/// 100 percent, a vote lasting 24 to 720 hours.
pub open spec fn params_valid(quorum_percentage: u8, vote_duration_hours: u64, delegate_weight_percentage: u8) -> bool {
    quorum_percentage <= 100 && 24 <= vote_duration_hours <= 720 && delegate_weight_percentage <= 100
}

impl GovernanceParams {
    /// Builds parameters stamped with `now`, refusing invalid values.
    pub fn new_with_time(
        quorum_percentage: u8,
        vote_duration_hours: u64,
        delegate_weight_percentage: u8,
        early_quorum_enabled: bool,
        now: i64,
        bump: u8,
    ) -> (r: Result<GovernanceParams, IndrasError>)
        ensures
            r is Ok <==> params_valid(quorum_percentage, vote_duration_hours, delegate_weight_percentage),
            r is Err ==> r == Err::<GovernanceParams, IndrasError>(IndrasError::InvalidInput),
            r matches Ok(p) ==> p == (GovernanceParams {
                quorum_percentage: quorum_percentage,
                vote_duration_hours: vote_duration_hours,
                delegate_weight_percentage: delegate_weight_percentage,
                early_quorum_enabled: early_quorum_enabled,
                update_timestamp: now,
                bump: bump,
            }),
    {
        if quorum_percentage > 100 || vote_duration_hours < 24 || vote_duration_hours > 720
            || delegate_weight_percentage > 100 {
            return Err(IndrasError::InvalidInput);
        }
        Ok(
            GovernanceParams {
                quorum_percentage: quorum_percentage,
                vote_duration_hours: vote_duration_hours,
                delegate_weight_percentage: delegate_weight_percentage,
                early_quorum_enabled: early_quorum_enabled,
                update_timestamp: now,
                bump: bump,
            },
        )
    }

    /// Changes the given parameters (each must be valid) and stamps the
    /// change with `now`.
    pub fn update(
        &mut self,
        quorum_percentage: Option<u8>,
        vote_duration_hours: Option<u64>,
        delegate_weight_percentage: Option<u8>,
        early_quorum_enabled: Option<bool>,
        now: i64,
    ) -> (r: Result<(), IndrasError>)
        ensures
            r is Err <==> update_invalid(quorum_percentage, vote_duration_hours, delegate_weight_percentage),
            r is Err ==> r == Err::<(), IndrasError>(IndrasError::InvalidInput) && *final(self) == *old(self),
            r is Ok ==> *final(self) == updated_params(
                *old(self),
                quorum_percentage,
                vote_duration_hours,
                delegate_weight_percentage,
                early_quorum_enabled,
                now,
            ),
    {
        if let Some(q) = quorum_percentage {
            if q > 100 {
                return Err(IndrasError::InvalidInput);
            }
        }
        if let Some(d) = vote_duration_hours {
            if d < 24 || d > 720 {
                return Err(IndrasError::InvalidInput);
            }
        }
        if let Some(w) = delegate_weight_percentage {
            if w > 100 {
                return Err(IndrasError::InvalidInput);
            }
        }
        if let Some(q) = quorum_percentage {
            self.quorum_percentage = q;
        }
        if let Some(d) = vote_duration_hours {
            self.vote_duration_hours = d;
        }
        if let Some(w) = delegate_weight_percentage {
            self.delegate_weight_percentage = w;
        }
        if let Some(e) = early_quorum_enabled {
            self.early_quorum_enabled = e;
        }
        self.update_timestamp = now;
        Ok(())
    }
}

/// Whether a requested change holds an invalid value.
pub open spec fn update_invalid(quorum_percentage: Option<u8>, vote_duration_hours: Option<u64>, delegate_weight_percentage: Option<u8>) -> bool {
    (quorum_percentage is Some && quorum_percentage->0 > 100) || (vote_duration_hours is Some && !(24
        <= vote_duration_hours->0 <= 720)) || (delegate_weight_percentage is Some && delegate_weight_percentage->0
        > 100)
}

/// The parameters after a valid change at `now`.
pub open spec fn updated_params(
    p: GovernanceParams,
    quorum_percentage: Option<u8>,
    vote_duration_hours: Option<u64>,
    delegate_weight_percentage: Option<u8>,
    early_quorum_enabled: Option<bool>,
    now: i64,
) -> GovernanceParams {
    GovernanceParams {
        quorum_percentage: match quorum_percentage {
            Some(q) => q,
            None => p.quorum_percentage,
        },
        vote_duration_hours: match vote_duration_hours {
            Some(d) => d,
            None => p.vote_duration_hours,
        },
        delegate_weight_percentage: match delegate_weight_percentage {
            Some(w) => w,
            None => p.delegate_weight_percentage,
        },
        early_quorum_enabled: match early_quorum_enabled {
            Some(e) => e,
            None => p.early_quorum_enabled,
        },
        update_timestamp: now,
        ..p
    }
}

/// Initializes the governance parameters.
pub fn initialize_governance_params_handler(
    now: i64,
    bump: u8,
    quorum_percentage: u8,
    vote_duration_hours: u64,
    delegate_weight_percentage: u8,
    early_quorum_enabled: bool,
) -> (r: Result<GovernanceParams, IndrasError>)
    ensures
        r is Ok <==> params_valid(quorum_percentage, vote_duration_hours, delegate_weight_percentage),
        r is Err ==> r == Err::<GovernanceParams, IndrasError>(IndrasError::InvalidInput),
        r matches Ok(p) ==> p == (GovernanceParams {
            quorum_percentage: quorum_percentage,
            vote_duration_hours: vote_duration_hours,
            delegate_weight_percentage: delegate_weight_percentage,
            early_quorum_enabled: early_quorum_enabled,
            update_timestamp: now,
            bump: bump,
        }),
{
    GovernanceParams::new_with_time(
        quorum_percentage,
        vote_duration_hours,
        delegate_weight_percentage,
        early_quorum_enabled,
        now,
        bump,
    )
}

/// Updates the governance parameters.
pub fn update_governance_params_handler(
    params: &mut GovernanceParams,
    now: i64,
    quorum_percentage: Option<u8>,
    vote_duration_hours: Option<u64>,
    delegate_weight_percentage: Option<u8>,
    early_quorum_enabled: Option<bool>,
) -> (r: Result<(), IndrasError>)
    ensures
        r is Err <==> update_invalid(quorum_percentage, vote_duration_hours, delegate_weight_percentage),
        r is Err ==> r == Err::<(), IndrasError>(IndrasError::InvalidInput) && *final(params) == *old(params),
        r is Ok ==> *final(params) == updated_params(
            *old(params),
            quorum_percentage,
            vote_duration_hours,
            delegate_weight_percentage,
            early_quorum_enabled,
            now,
        ),
{
    params.update(quorum_percentage, vote_duration_hours, delegate_weight_percentage, early_quorum_enabled, now)
}

/// An accepted update sets every parameter it is given to the given value,
/// keeps every parameter it is not given, stamps the update time and keeps
/// the bump.
pub proof fn update_sets_given_parameters(
    p: GovernanceParams,
    quorum_percentage: Option<u8>,
    vote_duration_hours: Option<u64>,
    delegate_weight_percentage: Option<u8>,
    early_quorum_enabled: Option<bool>,
    now: i64,
)
    ensures
        ({
            let q = updated_params(p, quorum_percentage, vote_duration_hours, delegate_weight_percentage, early_quorum_enabled, now);
            &&& quorum_percentage matches Some(x) ==> q.quorum_percentage == x
            &&& quorum_percentage is None ==> q.quorum_percentage == p.quorum_percentage
            &&& vote_duration_hours matches Some(x) ==> q.vote_duration_hours == x
            &&& vote_duration_hours is None ==> q.vote_duration_hours == p.vote_duration_hours
            &&& delegate_weight_percentage matches Some(x) ==> q.delegate_weight_percentage == x
            &&& delegate_weight_percentage is None ==> q.delegate_weight_percentage == p.delegate_weight_percentage
            &&& early_quorum_enabled matches Some(x) ==> q.early_quorum_enabled == x
            &&& early_quorum_enabled is None ==> q.early_quorum_enabled == p.early_quorum_enabled
            &&& q.update_timestamp == now
            &&& q.bump == p.bump
        }),
{
}

/// Valid parameters stay valid under every accepted change.
pub proof fn accepted_updates_keep_params_valid(
    p: GovernanceParams,
    quorum_percentage: Option<u8>,
    vote_duration_hours: Option<u64>,
    delegate_weight_percentage: Option<u8>,
    early_quorum_enabled: Option<bool>,
    now: i64,
)
    requires
        params_valid(p.quorum_percentage, p.vote_duration_hours, p.delegate_weight_percentage),
        !update_invalid(quorum_percentage, vote_duration_hours, delegate_weight_percentage),
    ensures
        ({
            let q = updated_params(p, quorum_percentage, vote_duration_hours, delegate_weight_percentage, early_quorum_enabled, now);
            params_valid(q.quorum_percentage, q.vote_duration_hours, q.delegate_weight_percentage)
        }),
{
}

} // verus!
