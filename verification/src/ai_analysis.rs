use crate::access::outcome;
use crate::error::IndrasError;
use crate::keys::{address_bytes, derived_address, find_program_address, is_address, key_eq, seeds_view, Key};
use crate::text::copied_vec;
use vstd::prelude::*;

verus! {

/// An account as the program sees it: its address, its owner and its data.
#[derive(Debug)]
pub struct AccountData {
    pub key: Key,
    pub owner: Key,
    pub data: Vec<u8>,
}

/// The core program's record that an AI analysis was registered for an idea.
#[derive(Clone, Copy, Debug)]
pub struct AIAnalysisRecord {
    pub idea_id: u64,
    pub analysis: Key,
    pub ai_program: Key,
    pub registered_at: i64,
    pub bump: u8,
}

/// The seed `b"ai_analysis"`.
pub open spec fn ai_analysis_seed() -> Seq<u8> {
    seq![97u8, 105, 95, 97, 110, 97, 108, 121, 115, 105, 115]
}

/// The seed `b"ai_cpi_authority"`.
pub open spec fn ai_cpi_authority_seed() -> Seq<u8> {
    seq![97u8, 105, 95, 99, 112, 105, 95, 97, 117, 116, 104, 111, 114, 105, 116, 121]
}

/// The address of the AI program's analysis of an idea.
pub open spec fn analysis_address(idea: Key, ai_program: Key) -> Option<Seq<u8>> {
    derived_address(seq![ai_analysis_seed(), idea.bytes@], ai_program.bytes@)
}

/// The address of the AI program's CPI authority.
pub open spec fn cpi_authority_address(ai_program: Key) -> Option<Seq<u8>> {
    derived_address(seq![ai_cpi_authority_seed()], ai_program.bytes@)
}

/// Derives the address of the AI program's analysis of an idea.
pub fn find_analysis_address(idea: &Key, ai_program: &Key) -> (k: Option<Key>)
    ensures
        address_bytes(k) == analysis_address(*idea, *ai_program),
{
    let mut seeds: Vec<Vec<u8>> = Vec::new();
    seeds.push(vec![97u8, 105, 95, 97, 110, 97, 108, 121, 115, 105, 115]);
    seeds.push(copied_vec(&idea.bytes));
    proof {
        assert(seeds_view(seeds@) =~= seq![ai_analysis_seed(), idea.bytes@]);
    }
    find_program_address(&seeds, ai_program)
}

/// Derives the address of the AI program's CPI authority.
pub fn find_cpi_authority_address(ai_program: &Key) -> (k: Option<Key>)
    ensures
        address_bytes(k) == cpi_authority_address(*ai_program),
{
    let mut seeds: Vec<Vec<u8>> = Vec::new();
    seeds.push(vec![97u8, 105, 95, 99, 112, 105, 95, 97, 117, 116, 104, 111, 114, 105, 116, 121]);
    proof {
        assert(seeds_view(seeds@) =~= seq![ai_cpi_authority_seed()]);
    }
    find_program_address(&seeds, ai_program)
}

/// The 8 little-endian bytes of a `u64` (what `u64::from_le_bytes` reads back).
pub open spec fn le_bytes(x: u64) -> Seq<u8> {
    Seq::new(8, |j: int| ((x >> (8 * j) as u64) & 0xff) as u8)
}

/// `x.to_le_bytes()` as a vector.
pub fn u64_le_vec(x: u64) -> (v: Vec<u8>)
    ensures
        v@ == le_bytes(x),
{
    let mut v: Vec<u8> = Vec::new();
    let mut j: usize = 0;
    while j < 8
        invariant
            j <= 8,
            v@ == le_bytes(x).take(j as int),
        decreases 8 - j,
    {
        let b = #[verifier::truncate] (((x >> (8 * j) as u64) & 0xff) as u8);
        assert(b == le_bytes(x)[j as int]);
        v.push(b);
        assert(le_bytes(x).take(j + 1) =~= le_bytes(x).take(j as int).push(b));
        j = j + 1;
    }
    assert(le_bytes(x).take(8) =~= le_bytes(x));
    v
}

/// Whether `data[at..at + 8]` holds `x` in little-endian order.
pub fn holds_le_u64(data: &Vec<u8>, at: usize, x: u64) -> (b: bool)
    requires
        at + 8 <= data@.len(),
    ensures
        b == (data@.subrange(at as int, at + 8) == le_bytes(x)),
{
    let n = data.len();
    let mut j: usize = 0;
    while j < 8
        invariant
            j <= 8,
            n == data@.len(),
            at + 8 <= n,
            forall|k: int| 0 <= k < j ==> data@[at + k] == le_bytes(x)[k],
        decreases 8 - j,
    {
        let expected = #[verifier::truncate] (((x >> (8 * j) as u64) & 0xff) as u8);
        assert(expected == le_bytes(x)[j as int]);
        if data[at + j] != expected {
            assert(data@.subrange(at as int, at + 8)[j as int] != le_bytes(x)[j as int]);
            return false;
        }
        j = j + 1;
    }
    assert(data@.subrange(at as int, at + 8) =~= le_bytes(x));
    true
}

/// The score checks an analysis must pass for its idea to enter a mesh group
/// or request a grant (ethics and legal at least 50, uniqueness and
/// feasibility at least 70, artifacts verified), applied as far as the data reaches.
pub open spec fn analysis_scores_error(d: Seq<u8>) -> Option<IndrasError> {
    if d.len() >= 57 && (d[51] < 50 || d[52] < 50 || d[54] < 70 || d[56] < 70) {
        Some(IndrasError::InvalidState)
    } else if d.len() >= 121 && d[120] == 0 {
        Some(IndrasError::InvalidState)
    } else {
        None
    }
}

/// Checks the analysis scores.
pub fn check_analysis_scores(data: &Vec<u8>) -> (r: Result<(), IndrasError>)
    ensures
        r == outcome(analysis_scores_error(data@)),
{
    if data.len() >= 57 {
        if data[51] < 50 || data[52] < 50 || data[54] < 70 || data[56] < 70 {
            return Err(IndrasError::InvalidState);
        }
        if data.len() >= 121 && data[120] == 0 {
            return Err(IndrasError::InvalidState);
        }
    }
    Ok(())
}

/// The first failing check on the account and registration record shared by
/// every consumer of an AI analysis.
pub open spec fn analysis_account_error(
    analysis: AccountData,
    idea_id: u64,
    idea: Key,
    record: AIAnalysisRecord,
    ai_program: Key,
) -> Option<IndrasError> {
    if analysis.data@.len() == 0 {
        Some(IndrasError::InvalidInput)
    } else if analysis.owner != ai_program {
        Some(IndrasError::InvalidProgram)
    } else if Some(analysis.key.bytes@) != analysis_address(idea, ai_program) {
        Some(IndrasError::InvalidProgram)
    } else if record.analysis != analysis.key {
        Some(IndrasError::InvalidInput)
    } else if record.idea_id != idea_id {
        Some(IndrasError::InvalidInput)
    } else if record.ai_program != ai_program {
        Some(IndrasError::InvalidProgram)
    } else if analysis.data@.len() <= 48 {
        Some(IndrasError::InvalidInput)
    } else if analysis.data@.subrange(8, 16) != le_bytes(idea_id) {
        Some(IndrasError::InvalidInput)
    } else {
        None
    }
}

/// Checks the analysis account and its registration record.
pub fn check_analysis_account(
    analysis: &AccountData,
    idea_id: u64,
    idea: &Key,
    record: &AIAnalysisRecord,
    ai_program: &Key,
) -> (r: Result<(), IndrasError>)
    ensures
        r == outcome(analysis_account_error(*analysis, idea_id, *idea, *record, *ai_program)),
{
    if analysis.data.len() == 0 {
        return Err(IndrasError::InvalidInput);
    }
    if !key_eq(&analysis.owner, ai_program) {
        return Err(IndrasError::InvalidProgram);
    }
    let expected = find_analysis_address(idea, ai_program);
    if !is_address(&analysis.key, &expected) {
        return Err(IndrasError::InvalidProgram);
    }
    if !key_eq(&record.analysis, &analysis.key) {
        return Err(IndrasError::InvalidInput);
    }
    if record.idea_id != idea_id {
        return Err(IndrasError::InvalidInput);
    }
    if !key_eq(&record.ai_program, ai_program) {
        return Err(IndrasError::InvalidProgram);
    }
    if analysis.data.len() <= 48 {
        return Err(IndrasError::InvalidInput);
    }
    if !holds_le_u64(&analysis.data, 8, idea_id) {
        return Err(IndrasError::InvalidInput);
    }
    Ok(())
}

/// The first failing check of `verify_ai_analysis`: the account checks, then
/// a decision must be recorded (byte 40 is 1) and be Approve (byte 41 is 0),
/// then the scores.
pub open spec fn verify_ai_analysis_error(
    analysis: AccountData,
    idea_id: u64,
    idea: Key,
    record: AIAnalysisRecord,
    ai_program: Key,
) -> Option<IndrasError> {
    let d = analysis.data@;
    if analysis_account_error(analysis, idea_id, idea, record, ai_program) is Some {
        analysis_account_error(analysis, idea_id, idea, record, ai_program)
    } else if d[40] != 1 || d[41] != 0 {
        Some(IndrasError::InvalidState)
    } else {
        analysis_scores_error(d)
    }
}

/// Checks that an AI analysis exists for the idea, belongs to the AI program,
/// was registered with the core program, and approves the idea for a mesh group.
pub fn verify_ai_analysis(
    analysis: &AccountData,
    idea_id: u64,
    idea: &Key,
    record: &AIAnalysisRecord,
    ai_program: &Key,
) -> (r: Result<(), IndrasError>)
    ensures
        r == outcome(verify_ai_analysis_error(*analysis, idea_id, *idea, *record, *ai_program)),
{
    check_analysis_account(analysis, idea_id, idea, record, ai_program)?;
    if analysis.data[40] != 1 || analysis.data[41] != 0 {
        return Err(IndrasError::InvalidState);
    }
    check_analysis_scores(&analysis.data)
}

/// The first failing check of `register_ai_analysis_handler`.
pub open spec fn register_ai_analysis_error(
    ai_program: Key,
    expected_ai_program: Key,
    cpi_authority: Key,
    cpi_authority_signed: bool,
    idea: Key,
    analysis: Key,
    analysis_owner: Key,
) -> Option<IndrasError> {
    if ai_program != expected_ai_program {
        Some(IndrasError::InvalidProgram)
    } else if Some(cpi_authority.bytes@) != cpi_authority_address(ai_program) {
        Some(IndrasError::InvalidProgram)
    } else if !cpi_authority_signed {
        Some(IndrasError::Unauthorized)
    } else if Some(analysis.bytes@) != analysis_address(idea, ai_program) {
        Some(IndrasError::InvalidProgram)
    } else if analysis_owner != ai_program {
        Some(IndrasError::InvalidProgram)
    } else {
        None
    }
}

/// Registers an analysis made by the AI program (which signs through its
/// CPI authority) and returns the registration record.
pub fn register_ai_analysis_handler(
    ai_program: &Key,
    expected_ai_program: &Key,
    cpi_authority: &Key,
    cpi_authority_signed: bool,
    idea: &Key,
    analysis: &Key,
    analysis_owner: &Key,
    idea_id: u64,
    now: i64,
    bump: u8,
) -> (r: Result<AIAnalysisRecord, IndrasError>)
    ensures
        r is Err <==> register_ai_analysis_error(*ai_program, *expected_ai_program, *cpi_authority, cpi_authority_signed, *idea, *analysis, *analysis_owner) is Some,
        r matches Err(e) ==> Some(e) == register_ai_analysis_error(*ai_program, *expected_ai_program, *cpi_authority, cpi_authority_signed, *idea, *analysis, *analysis_owner),
        r matches Ok(rec) ==> rec == (AIAnalysisRecord {
            idea_id: idea_id,
            analysis: *analysis,
            ai_program: *ai_program,
            registered_at: now,
            bump: bump,
        }),
{
    if !key_eq(ai_program, expected_ai_program) {
        return Err(IndrasError::InvalidProgram);
    }
    let authority = find_cpi_authority_address(ai_program);
    if !is_address(cpi_authority, &authority) {
        return Err(IndrasError::InvalidProgram);
    }
    if !cpi_authority_signed {
        return Err(IndrasError::Unauthorized);
    }
    let expected = find_analysis_address(idea, ai_program);
    if !is_address(analysis, &expected) {
        return Err(IndrasError::InvalidProgram);
    }
    if !key_eq(analysis_owner, ai_program) {
        return Err(IndrasError::InvalidProgram);
    }
    Ok(
        AIAnalysisRecord {
            idea_id: idea_id,
            analysis: *analysis,
            ai_program: *ai_program,
            registered_at: now,
            bump: bump,
        },
    )
}

} // verus!
