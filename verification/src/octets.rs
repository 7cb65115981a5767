//! Byte strings: comparison, 32-byte content hashes and big-endian integers.

use vstd::prelude::*;

verus! {

/// The length of a content hash in bytes.
pub const HASH_LEN: usize = 32;

/// Whether two byte strings hold the same bytes.
pub fn bytes_equal(a: &Vec<u8>, b: &Vec<u8>) -> (same: bool)
    ensures
        same == (a@ == b@),
{
    if a.len() != b.len() {
        return false;
    }
    let mut i: usize = 0;
    while i < a.len()
        invariant
            a@.len() == b@.len(),
            0 <= i <= a@.len(),
            forall|j: int| 0 <= j < i ==> a@[j] == b@[j],
        decreases a@.len() - i,
    {
        if a[i] != b[i] {
            return false;
        }
        i += 1;
    }
    assert(a@ =~= b@);
    true
}

/// Whether two content hashes hold the same bytes.
pub fn hash_equal(a: &[u8; 32], b: &[u8; 32]) -> (same: bool)
    ensures
        same == (a@ == b@),
{
    let mut i: usize = 0;
    while i < HASH_LEN
        invariant
            0 <= i <= 32,
            forall|j: int| 0 <= j < i ==> a@[j] == b@[j],
        decreases 32 - i,
    {
        if a[i] != b[i] {
            return false;
        }
        i += 1;
    }
    assert(a@ =~= b@);
    true
}

/// Reads a byte string as a content hash. A content hash has exactly 32 bytes:
/// any other length gives `None`.
pub fn hash_from_bytes(bytes: &Vec<u8>) -> (hash: Option<[u8; 32]>)
    ensures
        hash is Some <==> bytes@.len() == 32,
        hash is Some ==> hash->0@ == bytes@,
{
    if bytes.len() != HASH_LEN {
        return None;
    }
    let mut hash: [u8; 32] = [0u8; 32];
    let mut i: usize = 0;
    while i < HASH_LEN
        invariant
            0 <= i <= 32,
            bytes@.len() == 32,
            forall|j: int| 0 <= j < i ==> hash@[j] == bytes@[j],
        decreases 32 - i,
    {
        hash[i] = bytes[i];
        i += 1;
    }
    assert(hash@ =~= bytes@);
    Some(hash)
}

/// The eight bytes of `value`, most significant first.
pub open spec fn big_endian(value: u64) -> Seq<u8> {
    Seq::new(8, |i: int| ((value as int / pow256(7 - i)) % 256) as u8)
}

/// 256 to the power `exponent`.
pub open spec fn pow256(exponent: int) -> int
    decreases exponent,
{
    if exponent <= 0 {
        1
    } else {
        256 * pow256(exponent - 1)
    }
}

/// Appends the eight bytes of `value`, most significant first, to `out`.
pub fn push_big_endian(out: &mut Vec<u8>, value: u64)
    ensures
        final(out)@ == old(out)@ + big_endian(value),
{
    let ghost before = out@;
    let mut rest: u64 = value;
    let mut digits: [u8; 8] = [0u8; 8];
    let mut k: usize = 8;
    while k > 0
        invariant
            0 <= k <= 8,
            rest as int == value as int / pow256(8 - k),
            forall|j: int| k <= j < 8 ==> digits@[j] == big_endian(value)[j],
        decreases k,
    {
        k -= 1;
        let digit: u8 = (rest % 256) as u8;
        digits[k] = digit;
        proof {
            let p = pow256(7 - k);
            assert(pow256(8 - k) == 256 * p);
            lemma_pow256_positive(7 - k);
            assert((value as int / p) / 256 == value as int / (256 * p)) by (nonlinear_arith)
                requires
                    p > 0,
                    value as int >= 0,
            ;
        }
        rest = rest / 256;
    }
    let mut i: usize = 0;
    while i < 8
        invariant
            0 <= i <= 8,
            digits@ == big_endian(value),
            out@ == before + big_endian(value).subrange(0, i as int),
        decreases 8 - i,
    {
        out.push(digits[i]);
        assert(big_endian(value).subrange(0, i + 1) == big_endian(value).subrange(
            0,
            i as int,
        ).push(big_endian(value)[i as int]));
        i += 1;
    }
    assert(big_endian(value).subrange(0, 8) == big_endian(value));
}

/// Every power of 256 is positive.
proof fn lemma_pow256_positive(exponent: int)
    ensures
        pow256(exponent) > 0,
    decreases exponent,
{
    if exponent > 0 {
        lemma_pow256_positive(exponent - 1);
    }
}

} // verus!
