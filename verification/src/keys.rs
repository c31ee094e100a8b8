use vstd::prelude::*;

verus! {

/// A 32-byte account address (the bytes of a Solana public key).
#[derive(Clone, Copy, Debug, PartialEq, Eq)]
pub struct Key {
    pub bytes: [u8; 32],
}

impl Key {
    /// The all-zero address (`Pubkey::default()`).
    pub fn zero() -> (k: Key)
        ensures
            k.bytes@ == Seq::new(32, |i: int| 0u8),
    {
        Key { bytes: [0u8; 32] }
    }
}

/// Whether two addresses are the same.
pub fn key_eq(a: &Key, b: &Key) -> (r: bool)
    ensures
        r == (*a == *b),
        r == (a.bytes@ == b.bytes@),
{
    let mut i: usize = 0;
    while i < 32
        invariant
            i <= 32,
            forall|j: int| 0 <= j < i ==> a.bytes@[j] == b.bytes@[j],
        decreases 32 - i,
    {
        if a.bytes[i] != b.bytes[i] {
            assert(a.bytes@[i as int] != b.bytes@[i as int]);
            assert(a.bytes@ != b.bytes@);
            return false;
        }
        i = i + 1;
    }
    proof {
        assert(a.bytes@ =~= b.bytes@);
        broadcast use vstd::array::axiom_array_ext_equal;
        assert(a.bytes =~= b.bytes);
    }
    true
}

/// Whether the address is in the list.
pub fn contains_key(keys: &Vec<Key>, k: &Key) -> (b: bool)
    ensures
        b == keys@.contains(*k),
{
    let mut i: usize = 0;
    while i < keys.len()
        invariant
            i <= keys@.len(),
            forall|j: int| 0 <= j < i ==> keys@[j] != *k,
        decreases keys@.len() - i,
    {
        if key_eq(&keys[i], k) {
            assert(keys@[i as int] == *k);
            return true;
        }
        i = i + 1;
    }
    false
}

/// Whether every byte of the array is zero.
pub fn all_zero<const N: usize>(a: &[u8; N]) -> (r: bool)
    ensures
        r == (forall|j: int| 0 <= j < N ==> a@[j] == 0u8),
{
    let mut i: usize = 0;
    while i < N
        invariant
            i <= N,
            a@.len() == N,
            forall|j: int| 0 <= j < i ==> a@[j] == 0u8,
        decreases N - i,
    {
        if a[i] != 0 {
            return false;
        }
        i = i + 1;
    }
    true
}

/// The program-derived address that `try_find_program_address` computes
/// from the seeds and the program id (`None` when no bump seed gives an
/// address off the curve).
pub uninterp spec fn derived_address(seeds: Seq<Seq<u8>>, program_id: Seq<u8>) -> Option<Seq<u8>>;

/// The byte contents of the seeds.
pub open spec fn seeds_view(seeds: Seq<Vec<u8>>) -> Seq<Seq<u8>> {
    seeds.map_values(|s: Vec<u8>| s@)
}

/// The bytes of an address, if there is one.
pub open spec fn address_bytes(k: Option<Key>) -> Option<Seq<u8>> {
    match k {
        Some(k) => Some(k.bytes@),
        None => None,
    }
}

/// Calls `Pubkey::try_find_program_address` of anchor_lang (solana-address)
/// and keeps the address, dropping the bump. Claims only that the result
/// (an address, or `None` when no bump seed works or the seeds break the
/// search's limits) is a function of the seeds and the program id alone:
/// `derived_address`. The call does not panic.
#[verifier::external_body]
pub(crate) fn find_program_address(seeds: &Vec<Vec<u8>>, program_id: &Key) -> (k: Option<Key>)
    ensures
        address_bytes(k) == derived_address(seeds_view(seeds@), program_id.bytes@),
{
    let slices: Vec<&[u8]> = seeds.iter().map(|s| s.as_slice()).collect();
    let program = anchor_lang::prelude::Pubkey::new_from_array(program_id.bytes);
    anchor_lang::prelude::Pubkey::try_find_program_address(&slices, &program)
        .map(|(address, _bump)| Key { bytes: address.to_bytes() })
}

/// Whether `k` is the derived address `expected` (never, when there is none).
pub fn is_address(k: &Key, expected: &Option<Key>) -> (b: bool)
    ensures
        b == (Some(k.bytes@) == address_bytes(*expected)),
{
    match expected {
        Some(e) => key_eq(k, e),
        None => false,
    }
}

} // verus!
