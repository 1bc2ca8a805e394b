//! Byte strings and account identifiers.
use vstd::prelude::*;

verus! {

/// A 32-byte account identifier (the layout of `AccountId32`).
pub type AccountId = [u8; 32];

/// Block numbers, as the runtime counts them.
pub type BlockNumber = u64;

/// Byte-wise equality of two byte strings.
pub fn bytes_eq(a: &[u8], b: &[u8]) -> (r: bool)
    ensures
        r == (a@ == b@),
{
    if a.len() != b.len() {
        return false;
    }
    let n = a.len();
    let mut i: usize = 0;
    while i < n
        invariant
            n == a@.len(),
            n == b@.len(),
            i <= n,
            forall|j: int| 0 <= j < i ==> a@[j] == b@[j],
        decreases n - i,
    {
        if a[i] != b[i] {
            return false;
        }
        i = i + 1;
    }
    assert(a@ =~= b@);
    true
}

/// Equality of two account identifiers.
pub fn account_eq(a: &AccountId, b: &AccountId) -> (r: bool)
    ensures
        r == (a@ == b@),
        r == (*a == *b),
{
    let r = bytes_eq(a.as_slice(), b.as_slice());
    proof {
        if a@ == b@ {
            assert(*a =~= *b);
        }
    }
    r
}

/// A fresh vector holding a copy of `s`.
pub fn to_vec(s: &[u8]) -> (r: Vec<u8>)
    ensures
        r@ == s@,
{
    let mut r: Vec<u8> = Vec::new();
    let n = s.len();
    let mut i: usize = 0;
    while i < n
        invariant
            n == s@.len(),
            i <= n,
            r@ == s@.subrange(0, i as int),
        decreases n - i,
    {
        r.push(s[i]);
        i = i + 1;
        assert(r@ =~= s@.subrange(0, i as int));
    }
    assert(s@.subrange(0, n as int) =~= s@);
    r
}

/// Appends a copy of `s` to `out`.
pub fn extend_bytes(out: &mut Vec<u8>, s: &[u8])
    ensures
        final(out)@ == old(out)@ + s@,
{
    let n = s.len();
    let mut i: usize = 0;
    let ghost start = old(out)@;
    while i < n
        invariant
            n == s@.len(),
            i <= n,
            out@ == start + s@.subrange(0, i as int),
        decreases n - i,
    {
        out.push(s[i]);
        i = i + 1;
        assert(out@ =~= start + s@.subrange(0, i as int));
    }
    assert(s@.subrange(0, n as int) =~= s@);
}

/// The storage key of an account: its 32 bytes.
pub fn account_key(a: &AccountId) -> (r: Vec<u8>)
    ensures
        r@ == a@,
{
    to_vec(a.as_slice())
}

/// The storage key of a pair of accounts: both identifiers, one after the other.
pub fn pair_key(a: &AccountId, b: &AccountId) -> (r: Vec<u8>)
    ensures
        r@ == a@ + b@,
{
    let mut r = to_vec(a.as_slice());
    extend_bytes(&mut r, b.as_slice());
    r
}

/// The storage key of an account and a byte string: the account, then the bytes.
pub fn account_bytes_key(a: &AccountId, b: &[u8]) -> (r: Vec<u8>)
    ensures
        r@ == a@ + b@,
{
    let mut r = to_vec(a.as_slice());
    extend_bytes(&mut r, b);
    r
}

} // verus!
