use vstd::prelude::*;

verus! {

/// Every way in which a request to the DAO program can be refused.
#[derive(Clone, Copy, Debug, PartialEq, Eq, Structural)]
pub enum IndrasError {
    InvalidInput,
    InvalidState,
    Unauthorized,
    StringTooLong,
    DataTooLarge,
    EmbeddingHashMismatch,
    EmbeddingSignatureInvalid,
    InvalidEmbeddingProvider,
    AccountNotFound,
    InvalidProgram,
    AlreadyMember,
    GroupFull,
    CannotRemoveLeader,
    NotFound,
    MemberNotFound,
    TooManySupportingGroups,
    IdeaNotInMeshGroup,
    IdeaAlreadyInMeshGroup,
    NotInPhenomenon,
    IdeaNotInPhenomenon,
    AmountTooLarge,
    Overflow,
    Underflow,
    DivisionByZero,
    InsufficientProgress,
    InsufficientFunds,
    InsufficientMembers,
    InvalidSemanticDomain,
    InvalidScore,
    ServiceAlreadyExists,
    RegistryFull,
    InvalidCompetencyLevel,
    InsufficientReputationForExpert,
    InsufficientReputation,
    CriticalMomentActive,
    RateLimitExceeded,
    CooldownActive,
    AccountDidNotDeserialize,
}

} // verus!
