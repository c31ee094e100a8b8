use crate::access::outcome;
use crate::error::IndrasError;
use crate::keys::{all_zero, derived_address, find_program_address, is_address, key_eq, seeds_view, Key};
use crate::text::{byte_len, copied_vec, is_empty_text, utf8_len};
use vstd::prelude::*;
use vstd::string::StringSliceAdditionalSpecFns;

verus! {

/// One AI service provider known to the registry.
#[derive(Debug)]
pub struct AIService {
    pub pubkey: Key,
    pub model_ids: Vec<String>,
    pub is_active: bool,
    pub is_suspended: bool,
    pub stake_amount: u64,
    pub registered_at: i64,
}

/// The registry of AI service providers that may sign embeddings.
#[derive(Debug)]
pub struct AIServiceRegistry {
    pub authority: Key,
    pub services: Vec<AIService>,
    pub bump: u8,
}

/// The first position of a service with this key in `s`, or -1.
pub open spec fn service_index(s: Seq<AIService>, pk: Key) -> int
    decreases s.len(),
{
    if s.len() == 0 {
        -1
    } else {
        let p = service_index(s.drop_last(), pk);
        if p >= 0 {
            p
        } else if s.last().pubkey == pk {
            s.len() - 1
        } else {
            -1
        }
    }
}

proof fn lemma_service_index_bounds(s: Seq<AIService>, pk: Key)
    ensures
        -1 <= service_index(s, pk) < s.len(),
        service_index(s, pk) >= 0 ==> s[service_index(s, pk)].pubkey == pk,
        service_index(s, pk) == -1 <==> (forall|j: int| 0 <= j < s.len() ==> s[j].pubkey != pk),
    decreases s.len(),
{
    if s.len() > 0 {
        lemma_service_index_bounds(s.drop_last(), pk);
        if service_index(s.drop_last(), pk) == -1 && s.last().pubkey != pk {
            assert forall|j: int| 0 <= j < s.len() implies s[j].pubkey != pk by {
                if j < s.len() - 1 {
                    assert(s.drop_last()[j] == s[j]);
                }
            }
        }
        if service_index(s.drop_last(), pk) >= 0 {
            assert(s.drop_last()[service_index(s.drop_last(), pk)] == s[service_index(s, pk)]);
        }
    }
}

impl AIServiceRegistry {
    /// The key belongs to a service that is active and not suspended.
    pub open spec fn authorizes(self, pk: Key) -> bool {
        exists|j: int|
            0 <= j < self.services@.len() && #[trigger] self.services@[j].pubkey == pk
                && self.services@[j].is_active && !self.services@[j].is_suspended
    }

    /// The registry lists a service with this key.
    pub open spec fn knows(self, pk: Key) -> bool {
        service_index(self.services@, pk) >= 0
    }

    /// The first service with this key lists the model.
    pub open spec fn supports(self, pk: Key, model: Seq<char>) -> bool {
        let i = service_index(self.services@, pk);
        i >= 0 && exists|m: int|
            0 <= m < self.services@[i].model_ids@.len()
                && #[trigger] self.services@[i].model_ids@[m]@ == model
    }

    /// Whether an active, unsuspended service has this key.
    pub fn is_service_authorized(&self, pk: &Key) -> (b: bool)
        ensures
            b == self.authorizes(*pk),
    {
        let mut i: usize = 0;
        while i < self.services.len()
            invariant
                i <= self.services@.len(),
                forall|j: int|
                    0 <= j < i ==> !(#[trigger] self.services@[j].pubkey == *pk
                        && self.services@[j].is_active && !self.services@[j].is_suspended),
            decreases self.services@.len() - i,
        {
            let s = &self.services[i];
            if key_eq(&s.pubkey, pk) && s.is_active && !s.is_suspended {
                return true;
            }
            i = i + 1;
        }
        false
    }

    /// The position of the first service with this key.
    pub fn get_service(&self, pk: &Key) -> (r: Option<usize>)
        ensures
            match r {
                Some(i) => i as int == service_index(self.services@, *pk),
                None => service_index(self.services@, *pk) == -1,
            },
    {
        let mut i: usize = 0;
        while i < self.services.len()
            invariant
                i <= self.services@.len(),
                service_index(self.services@.take(i as int), *pk) == -1,
            decreases self.services@.len() - i,
        {
            proof {
                assert(self.services@.take(i + 1).drop_last() =~= self.services@.take(i as int));
            }
            if key_eq(&self.services[i].pubkey, pk) {
                proof {
                    lemma_service_index_prefix(self.services@, *pk, i as int + 1);
                }
                return Some(i);
            }
            i = i + 1;
        }
        proof {
            assert(self.services@.take(i as int) =~= self.services@);
        }
        None
    }

    /// Whether the first service with this key lists the model.
    pub fn supports_model(&self, pk: &Key, model: &String) -> (b: bool)
        ensures
            b == self.supports(*pk, model@),
    {
        match self.get_service(pk) {
            None => false,
            Some(i) => {
                proof {
                    lemma_service_index_bounds(self.services@, *pk);
                }
                let ids = &self.services[i].model_ids;
                let mut m: usize = 0;
                while m < ids.len()
                    invariant
                        m <= ids@.len(),
                        i as int == service_index(self.services@, *pk),
                        0 <= i < self.services@.len(),
                        *ids == self.services@[i as int].model_ids,
                        forall|k: int| 0 <= k < m ==> #[trigger] ids@[k]@ != model@,
                    decreases ids@.len() - m,
                {
                    if ids[m] == *model {
                        return true;
                    }
                    m = m + 1;
                }
                false
            },
        }
    }
}

proof fn lemma_service_index_prefix(s: Seq<AIService>, pk: Key, n: int)
    requires
        0 <= n <= s.len(),
        service_index(s.take(n), pk) >= 0,
    ensures
        service_index(s, pk) == service_index(s.take(n), pk),
    decreases s.len() - n,
{
    if n < s.len() {
        assert(s.take(n + 1).drop_last() =~= s.take(n));
        lemma_service_index_prefix(s, pk, n + 1);
    } else {
        assert(s.take(n) =~= s);
    }
}

/// The first failing check on submitted embedding metadata, if any.
pub open spec fn embedding_fields_error(
    hash: [u8; 32],
    signature: [u8; 64],
    provider: Seq<char>,
    model: Option<String>,
    model_version: Option<String>,
) -> Option<IndrasError> {
    if forall|j: int| 0 <= j < 32 ==> hash@[j] == 0u8 {
        Some(IndrasError::EmbeddingHashMismatch)
    } else if forall|j: int| 0 <= j < 64 ==> signature@[j] == 0u8 {
        Some(IndrasError::EmbeddingSignatureInvalid)
    } else if provider.len() == 0 {
        Some(IndrasError::InvalidEmbeddingProvider)
    } else if utf8_len(provider) > 50 {
        Some(IndrasError::StringTooLong)
    } else if model is Some && utf8_len(model->0@) > 100 {
        Some(IndrasError::StringTooLong)
    } else if model_version is Some && utf8_len(model_version->0@) > 50 {
        Some(IndrasError::StringTooLong)
    } else {
        None
    }
}

/// Checks submitted embedding metadata.
pub fn check_embedding_fields(
    hash: &[u8; 32],
    signature: &[u8; 64],
    provider: &String,
    model: &Option<String>,
    model_version: &Option<String>,
) -> (r: Result<(), IndrasError>)
    ensures
        r == outcome(embedding_fields_error(*hash, *signature, provider@, *model, *model_version)),
{
    if all_zero(hash) {
        return Err(IndrasError::EmbeddingHashMismatch);
    }
    if all_zero(signature) {
        return Err(IndrasError::EmbeddingSignatureInvalid);
    }
    if is_empty_text(provider) {
        return Err(IndrasError::InvalidEmbeddingProvider);
    }
    if byte_len(provider) > 50 {
        return Err(IndrasError::StringTooLong);
    }
    if let Some(m) = model {
        if byte_len(m) > 100 {
            return Err(IndrasError::StringTooLong);
        }
    }
    if let Some(v) = model_version {
        if byte_len(v) > 50 {
            return Err(IndrasError::StringTooLong);
        }
    }
    Ok(())
}

/// Whether the signer of an embedding may submit it: with a registry, an
/// authorized service or the DAO authority (and a service that does not list
/// the named model only as the DAO authority); without one, only the DAO
/// authority.
pub open spec fn provider_error(
    registry: Option<&AIServiceRegistry>,
    pk: Key,
    model: Option<String>,
    authority: Key,
) -> Option<IndrasError> {
    match registry {
        Some(reg) => {
            if !(reg.authorizes(pk) || pk == authority) {
                Some(IndrasError::InvalidEmbeddingProvider)
            } else if model is Some && reg.knows(pk) && !reg.supports(pk, model->0@) && pk
                != authority {
                Some(IndrasError::InvalidEmbeddingProvider)
            } else {
                None
            }
        },
        None => {
            if pk != authority {
                Some(IndrasError::InvalidEmbeddingProvider)
            } else {
                None
            }
        },
    }
}

/// Checks that the embedding's signer may submit it.
pub fn check_provider(
    registry: Option<&AIServiceRegistry>,
    pk: &Key,
    model: &Option<String>,
    authority: &Key,
) -> (r: Result<(), IndrasError>)
    ensures
        r == outcome(provider_error(registry, *pk, *model, *authority)),
{
    match registry {
        Some(reg) => {
            let is_authority = key_eq(pk, authority);
            if !(reg.is_service_authorized(pk) || is_authority) {
                return Err(IndrasError::InvalidEmbeddingProvider);
            }
            if let Some(m) = model {
                if reg.get_service(pk).is_some() {
                    if !reg.supports_model(pk, m) {
                        if !is_authority {
                            return Err(IndrasError::InvalidEmbeddingProvider);
                        }
                    }
                }
            }
            Ok(())
        },
        None => {
            if !key_eq(pk, authority) {
                return Err(IndrasError::InvalidEmbeddingProvider);
            }
            Ok(())
        },
    }
}

/// A record of an embedding already stored for an entity under a model version.
#[derive(Debug)]
pub struct EmbeddingDeduplication {
    pub entity_id: u64,
    pub embedding_hash: [u8; 32],
    pub model_version: String,
}

impl EmbeddingDeduplication {
    pub open spec fn duplicates(self, entity_id: u64, hash: [u8; 32], version: Seq<char>) -> bool {
        self.entity_id == entity_id && self.embedding_hash@ == hash@ && self.model_version@
            == version
    }

    /// Whether this record already holds the embedding for the entity.
    pub fn is_duplicate(&self, entity_id: u64, hash: &[u8; 32], version: &String) -> (b: bool)
        ensures
            b == self.duplicates(entity_id, *hash, version@),
    {
        if self.entity_id != entity_id {
            return false;
        }
        let mut i: usize = 0;
        while i < 32
            invariant
                i <= 32,
                forall|j: int| 0 <= j < i ==> self.embedding_hash@[j] == hash@[j],
            decreases 32 - i,
        {
            if self.embedding_hash[i] != hash[i] {
                return false;
            }
            i = i + 1;
        }
        assert(self.embedding_hash@ =~= hash@);
        self.model_version == *version
    }
}

/// The seed prefix `b"embedding_dedup"`.
pub open spec fn dedup_seed() -> Seq<u8> {
    seq![101u8, 109, 98, 101, 100, 100, 105, 110, 103, 95, 100, 101, 100, 117, 112]
}

/// The model version as used in seeds: the given one, or the empty text.
pub open spec fn version_text(model_version: Option<String>) -> Seq<char> {
    match model_version {
        Some(v) => v@,
        None => Seq::empty(),
    }
}

/// The seeds of the deduplication record.
pub open spec fn dedup_seeds(entity: Key, hash: [u8; 32], version: Seq<char>) -> Seq<Seq<u8>> {
    seq![dedup_seed(), entity.bytes@, hash@, vstd::utf8::encode_utf8(version)]
}

/// Whether the model version is short enough to be a seed (32 bytes).
pub open spec fn version_fits_seed(model_version: Option<String>) -> bool {
    vstd::utf8::encode_utf8(version_text(model_version)).len() <= 32
}

/// The result of the deduplication check: the supplied record must sit at the
/// derived address and must not already hold this embedding.
pub open spec fn dedup_error(
    dedup: Option<(Key, &EmbeddingDeduplication)>,
    expected: Option<Seq<u8>>,
    entity_id: u64,
    hash: [u8; 32],
    version: Seq<char>,
) -> Option<IndrasError> {
    match dedup {
        None => None,
        Some((k, d)) => {
            if Some(k.bytes@) != expected {
                Some(IndrasError::InvalidInput)
            } else if d.duplicates(entity_id, hash, version) {
                Some(IndrasError::InvalidInput)
            } else {
                None
            }
        },
    }
}

/// Derives the deduplication address and checks the supplied record.
pub fn check_deduplication(
    dedup: Option<(Key, &EmbeddingDeduplication)>,
    entity: &Key,
    entity_id: u64,
    hash: &[u8; 32],
    model_version: &Option<String>,
    program_id: &Key,
) -> (r: Result<(), IndrasError>)
    requires
        version_fits_seed(*model_version),
    ensures
        r == outcome(
            dedup_error(
                dedup,
                derived_address(
                    dedup_seeds(*entity, *hash, version_text(*model_version)),
                    program_id.bytes@,
                ),
                entity_id,
                *hash,
                version_text(*model_version),
            ),
        ),
{
    let version: String = match model_version {
        Some(v) => v.clone(),
        None => String::new(),
    };
    let mut seeds: Vec<Vec<u8>> = Vec::new();
    seeds.push(vec![101u8, 109, 98, 101, 100, 100, 105, 110, 103, 95, 100, 101, 100, 117, 112]);
    seeds.push(copied_vec(&entity.bytes));
    seeds.push(copied_vec(hash));
    seeds.push(copied_vec(version.as_str().as_bytes()));
    proof {
        assert(seeds@[0]@ =~= dedup_seed());
        assert(seeds_view(seeds@) =~= dedup_seeds(*entity, *hash, version@));
    }
    let expected = find_program_address(&seeds, program_id);
    match dedup {
        None => Ok(()),
        Some((k, d)) => {
            if !is_address(&k, &expected) {
                return Err(IndrasError::InvalidInput);
            }
            if d.is_duplicate(entity_id, hash, &version) {
                return Err(IndrasError::InvalidInput);
            }
            Ok(())
        },
    }
}

/// The first failing check on a signed embedding submission: its fields,
/// then the signature verdict, then the signer's standing.
pub open spec fn signed_embedding_error(
    hash: [u8; 32],
    signature: [u8; 64],
    provider: Seq<char>,
    model: Option<String>,
    model_version: Option<String>,
    provider_key: Key,
    signature_check: Result<(), IndrasError>,
    registry: Option<&AIServiceRegistry>,
    authority: Key,
) -> Option<IndrasError> {
    if embedding_fields_error(hash, signature, provider, model, model_version) is Some {
        embedding_fields_error(hash, signature, provider, model, model_version)
    } else if signature_check is Err {
        Some(signature_check->Err_0)
    } else {
        provider_error(registry, provider_key, model, authority)
    }
}

/// Checks a signed embedding submission. `signature_check` is the verdict of
/// the ed25519 verification of the provider's signature over the canonical
/// embedding message.
pub fn check_signed_embedding(
    hash: &[u8; 32],
    signature: &[u8; 64],
    provider: &String,
    model: &Option<String>,
    model_version: &Option<String>,
    provider_key: &Key,
    signature_check: Result<(), IndrasError>,
    registry: Option<&AIServiceRegistry>,
    authority: &Key,
) -> (r: Result<(), IndrasError>)
    ensures
        r == outcome(
            signed_embedding_error(
                *hash,
                *signature,
                provider@,
                *model,
                *model_version,
                *provider_key,
                signature_check,
                registry,
                *authority,
            ),
        ),
{
    check_embedding_fields(hash, signature, provider, model, model_version)?;
    signature_check?;
    check_provider(registry, provider_key, model, authority)
}

/// Creates an empty registry kept by `authority`.
pub fn initialize_ai_service_registry_handler(authority: &Key, bump: u8) -> (r: AIServiceRegistry)
    ensures
        r.authority == *authority && r.services@.len() == 0 && r.bump == bump,
{
    AIServiceRegistry { authority: *authority, services: Vec::new(), bump: bump }
}

/// Most services the registry holds.
pub const MAX_SERVICES: usize = 50;

/// The first failing check of `add_ai_service_handler`.
pub open spec fn add_service_error(registry: AIServiceRegistry, pk: Key) -> Option<IndrasError> {
    if registry.knows(pk) {
        Some(IndrasError::ServiceAlreadyExists)
    } else if registry.services@.len() >= MAX_SERVICES {
        Some(IndrasError::RegistryFull)
    } else {
        None
    }
}

/// Registers a new active, unsuspended service with no stake (at most 50).
pub fn add_ai_service_handler(
    registry: &mut AIServiceRegistry,
    now: i64,
    service_pubkey: Key,
    model_ids: Vec<String>,
) -> (r: Result<(), IndrasError>)
    ensures
        r == outcome(add_service_error(*old(registry), service_pubkey)),
        r is Err ==> *final(registry) == *old(registry),
        r is Ok ==> final(registry).authority == old(registry).authority && final(registry).bump == old(registry).bump
            && final(registry).services@ == old(registry).services@.push(
            AIService {
                pubkey: service_pubkey,
                model_ids: model_ids,
                is_active: true,
                is_suspended: false,
                stake_amount: 0,
                registered_at: now,
            },
        ),
        r is Ok ==> final(registry).authorizes(service_pubkey),
{
    if registry.get_service(&service_pubkey).is_some() {
        return Err(IndrasError::ServiceAlreadyExists);
    }
    if registry.services.len() >= MAX_SERVICES {
        return Err(IndrasError::RegistryFull);
    }
    registry.services.push(
        AIService {
            pubkey: service_pubkey,
            model_ids: model_ids,
            is_active: true,
            is_suspended: false,
            stake_amount: 0,
            registered_at: now,
        },
    );
    proof {
        let n = registry.services@.len() - 1;
        assert(registry.services@[n].pubkey == service_pubkey);
    }
    Ok(())
}

} // verus!
