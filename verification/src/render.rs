use crate::keys::Key;
use crate::text::{append_copies, chars_of, string_from_chars};
use vstd::prelude::*;

verus! {

/// The lower-case hexadecimal digit of a value below 16.
pub open spec fn hex_digit(n: int) -> char {
    if n < 10 {
        (48 + n) as char
    } else {
        (87 + n) as char
    }
}

/// Each byte as two lower-case hexadecimal digits, high nibble first.
pub open spec fn hex_lower(b: Seq<u8>) -> Seq<char>
    decreases b.len(),
{
    if b.len() == 0 {
        Seq::empty()
    } else {
        seq![hex_digit((b[0] / 16) as int), hex_digit((b[0] % 16) as int)] + hex_lower(b.drop_first())
    }
}

/// The decimal digit of a value below 10.
pub open spec fn decimal_digit(n: int) -> char {
    (48 + n) as char
}

/// The decimal digits of a natural number, without leading zeros.
pub open spec fn decimal_nat(n: nat) -> Seq<char>
    decreases n,
{
    if n < 10 {
        seq![decimal_digit(n as int)]
    } else {
        decimal_nat(n / 10).push(decimal_digit((n % 10) as int))
    }
}

/// An integer as `Display` writes it: a minus sign for negative values,
/// then the decimal digits.
pub open spec fn decimal_text(x: int) -> Seq<char> {
    if x < 0 {
        seq!['-'] + decimal_nat((-x) as nat)
    } else {
        decimal_nat(x as nat)
    }
}

/// The base-58 text of a 32-byte address, as the address's `Display` writes it.
pub uninterp spec fn base58_text(bytes: Seq<u8>) -> Seq<char>;

/// Calls `hex::encode`. Claims what the hex crate's source shows: each byte
/// becomes two characters of `0123456789abcdef`, high nibble first.
#[verifier::external_body]
pub(crate) fn hex_encode(bytes: &[u8; 32]) -> (s: String)
    ensures
        s@ == hex_lower(bytes@),
{
    hex::encode(bytes)
}

/// Appends the decimal digits of `n` to `v`.
fn push_decimal(v: &mut Vec<char>, n: u64)
    ensures
        final(v)@ == old(v)@ + decimal_nat(n as nat),
    decreases n,
{
    if n >= 10 {
        push_decimal(v, n / 10);
    }
    let d: u8 = (n % 10) as u8;
    let c: char = (48u8 + d) as char;
    assert(c == decimal_digit((n % 10) as int));
    v.push(c);
    proof {
        if n >= 10 {
            assert(decimal_nat(n as nat) == decimal_nat((n / 10) as nat).push(decimal_digit((n % 10) as int)));
        } else {
            assert(decimal_nat(n as nat) == seq![decimal_digit(n as int)]);
        }
    }
}

/// An `i64` as its `Display` writes it: a minus sign for negative values,
/// then the decimal digits.
pub(crate) fn i64_text(x: i64) -> (s: String)
    ensures
        s@ == decimal_text(x as int),
{
    let mut v: Vec<char> = Vec::new();
    let magnitude: u64 = if x < 0 {
        v.push('-');
        (0i128 - x as i128) as u64
    } else {
        x as u64
    };
    push_decimal(&mut v, magnitude);
    string_from_chars(&v)
}

/// A `u64` as its `Display` writes it: its decimal digits.
pub(crate) fn u64_text(x: u64) -> (s: String)
    ensures
        s@ == decimal_text(x as int),
{
    let mut v: Vec<char> = Vec::new();
    push_decimal(&mut v, x);
    assert(v@ =~= decimal_nat(x as nat));
    string_from_chars(&v)
}

/// Calls `ToString::to_string` on the anchor_lang `Pubkey` with these bytes.
/// Claims only that the text is a function of the bytes (it is their base-58
/// encoding, which is not written out here).
#[verifier::external_body]
pub(crate) fn key_text(k: &Key) -> (s: String)
    ensures
        s@ == base58_text(k.bytes@),
{
    anchor_lang::prelude::Pubkey::new_from_array(k.bytes).to_string()
}

/// Appends the characters of a string to `v`.
pub fn append_str(v: &mut Vec<char>, s: &str)
    ensures
        final(v)@ == old(v)@ + s@,
{
    let cs = chars_of(s);
    append_copies(v, cs.as_slice());
}

} // verus!
