//! The chain specification of the node: development keys, the pre-funded
//! accounts, and the chain's sovereign account on the relay chain.
use vstd::prelude::*;
use crate::bytes::AccountId;
use crate::crypto::{encode_u32, u32_le_bytes};
use crate::keys::{
    dehexify, hex_chars, hex_char_of, hex_decode, hex_digit_value, hex_encode, hex_valid,
    is_ascii_text, sr25519_into_account, sr25519_public_from_slice, sr25519_public_from_suri,
    sr25519_public_of, ss58_of, strip_0x, to_ss58check_with_version,
};

verus! {

/// The extensions of the chain specification.
#[derive(Debug, Clone, PartialEq, Eq)]
pub struct Extensions {
    /// The relay chain of the parachain.
    pub relay_chain: String,
    /// The id of the parachain.
    pub para_id: u32,
}

/// The address format of generic Substrate accounts.
pub const SUBSTRATE_ACCOUNT_FORMAT: u16 = 42;

/// The bytes `para`, which start a parachain's sovereign account.
pub const PARA_PREFIX: [u8; 4] = [112, 97, 114, 97];

/// The id of a relay-chain parachain, as the relay chain encodes it.
#[derive(Debug, Clone, Copy, PartialEq, Eq)]
pub struct RococoId(pub u32);

/// `n` zero bytes.
pub open spec fn zero_bytes(n: nat) -> Seq<u8> {
    Seq::new(n, |i: int| 0u8)
}

/// The sovereign account of parachain `para_id` on the relay chain: `para`,
/// the id's four little-endian bytes, then zeros up to 32 bytes.
pub open spec fn sovereign_account_bytes(para_id: u32) -> Seq<u8> {
    PARA_PREFIX@ + u32_le_bytes(para_id) + zero_bytes(24)
}

proof fn lemma_hex_roundtrip(b: Seq<u8>)
    ensures
        hex_valid(hex_chars(b)),
        hex_decode(hex_chars(b)) == b,
        is_ascii_text(hex_chars(b)),
{
    let h = hex_chars(b);
    assert forall|i: int| 0 <= i < h.len() implies (#[trigger] hex_digit_value(h[i])) is Some
        && hex_digit_value(h[i])->Some_0 == (if i % 2 == 0 { b[i / 2] as int / 16 } else { b[i / 2] as int % 16 })
        && (h[i] as u32) < 128 by {
        let n = if i % 2 == 0 { b[i / 2] as int / 16 } else { b[i / 2] as int % 16 };
        assert(0 <= n < 16);
        assert(h[i] == hex_char_of(n));
    }
    assert forall|i: int| 0 <= i < b.len() implies #[trigger] hex_decode(h)[i] == b[i] by {
        assert(hex_digit_value(h[2 * i]) is Some);
        assert(hex_digit_value(h[2 * i + 1]) is Some);
        assert((2 * i) % 2 == 0);
        assert((2 * i + 1) % 2 == 1);
        assert((2 * i) / 2 == i);
        assert((2 * i + 1) / 2 == i);
    }
    assert(hex_decode(h) =~= b);
}

proof fn lemma_hex_concat(a: Seq<u8>, b: Seq<u8>)
    ensures
        hex_chars(a) + hex_chars(b) == hex_chars(a + b),
{
    let l = hex_chars(a) + hex_chars(b);
    let r = hex_chars(a + b);
    assert forall|i: int| 0 <= i < r.len() implies #[trigger] l[i] == r[i] by {
        if i >= 2 * a.len() {
            let j = i - 2 * a.len();
            assert(j % 2 == i % 2);
            assert(j / 2 + a.len() == i / 2);
        }
    }
    assert(l =~= r);
}

/// The sovereign account of parachain `para_id` on the relay chain, as an
/// SS58 text under the generic Substrate format.
pub fn calculate_sovereign_account(para_id: u32) -> (r: Result<String, ()>)
    ensures
        r is Ok,
        r->Ok_0@ == ss58_of(sovereign_account_bytes(para_id), SUBSTRATE_ACCOUNT_FORMAT),
{
    let id = RococoId(para_id);
    let encoded_id = hex_encode(encode_u32(id.0).as_slice());
    let prefix = hex_encode(PARA_PREFIX.as_slice());
    let mut encoded_key = String::new();
    encoded_key.append("0x");
    encoded_key.append(prefix.as_str());
    encoded_key.append(encoded_id.as_str());
    proof {
        reveal_strlit("0x");
        reveal_strlit("0");
        lemma_hex_concat(PARA_PREFIX@, u32_le_bytes(para_id));
    }
    let ghost body = hex_chars(PARA_PREFIX@ + u32_le_bytes(para_id));
    assert(encoded_key@ == seq!['0', 'x'] + body);
    let mut width: usize = 18;
    while width < 66
        invariant
            18 <= width <= 66,
            encoded_key@ == seq!['0', 'x'] + body + Seq::new((width - 18) as nat, |i: int| '0'),
        decreases 66 - width,
    {
        encoded_key.append("0");
        proof { reveal_strlit("0"); }
        width = width + 1;
        assert(encoded_key@ =~= seq!['0', 'x'] + body + Seq::new((width - 18) as nat, |i: int| '0'));
    }
    let ghost bytes = sovereign_account_bytes(para_id);
    proof {
        assert(hex_chars(zero_bytes(24)) =~= Seq::new(48, |i: int| '0'));
        lemma_hex_concat(PARA_PREFIX@ + u32_le_bytes(para_id), zero_bytes(24));
        assert(strip_0x(encoded_key@) =~= hex_chars(bytes));
        lemma_hex_roundtrip(bytes);
        assert(is_ascii_text(encoded_key@));
    }
    let public = match dehexify(encoded_key.as_str()) {
        Ok(p) => p,
        Err(_) => { return Err(()); }
    };
    let public_key = match sr25519_public_from_slice(public.as_slice()) {
        Some(k) => k,
        None => { return Err(()); }
    };
    Ok(to_ss58check_with_version(&public_key, SUBSTRATE_ACCOUNT_FORMAT))
}

/// The secret URI of a development seed: `//` and the seed.
pub open spec fn dev_suri(seed: Seq<char>) -> Seq<char> {
    seq!['/', '/'] + seed
}

/// The development key of `seed`, where its URI is valid.
pub open spec fn dev_public(seed: Seq<char>) -> Option<Seq<u8>> {
    sr25519_public_of(dev_suri(seed))
}

fn dev_suri_of(seed: &str) -> (r: String)
    ensures
        r@ == dev_suri(seed@),
{
    let mut suri = String::new();
    suri.append("//");
    suri.append(seed);
    proof {
        reveal_strlit("//");
        assert(suri@ =~= dev_suri(seed@));
    }
    suri
}

/// The sr25519 public key of the development seed `seed` (derived from `//`
/// and the seed); the seed's URI must be valid.
pub fn get_from_seed(seed: &str) -> (r: [u8; 32])
    requires
        dev_public(seed@) is Some,
    ensures
        dev_public(seed@) == Some(r@),
{
    let suri = dev_suri_of(seed);
    match sr25519_public_from_suri(suri.as_str()) {
        Some(k) => k,
        None => [0u8; 32],
    }
}

/// The sr25519 public key of the development seed `seed`, or `None` where its
/// URI is not valid.
pub fn try_get_from_seed(seed: &str) -> (r: Option<[u8; 32]>)
    ensures
        match r {
            Some(k) => dev_public(seed@) == Some(k@),
            None => dev_public(seed@) is None,
        },
{
    let suri = dev_suri_of(seed);
    match sr25519_public_from_suri(suri.as_str()) {
        Some(_) => Some(get_from_seed(seed)),
        None => None,
    }
}

/// The account of the development seed `seed`: the bytes of its sr25519 key.
pub fn get_account_id_from_seed(seed: &str) -> (r: AccountId)
    requires
        dev_public(seed@) is Some,
    ensures
        dev_public(seed@) == Some(r@),
{
    let public = get_from_seed(seed);
    sr25519_into_account(&public)
}

/// The account of the development seed `seed`, or `None` where its URI is
/// not valid.
pub fn try_get_account_id_from_seed(seed: &str) -> (r: Option<AccountId>)
    ensures
        match r {
            Some(k) => dev_public(seed@) == Some(k@),
            None => dev_public(seed@) is None,
        },
{
    match try_get_from_seed(seed) {
        Some(_) => Some(get_account_id_from_seed(seed)),
        None => None,
    }
}

/// The number of development seeds.
pub const DEV_SEED_COUNT: usize = 12;

/// The development seeds whose accounts are funded at genesis, in order.
pub open spec fn dev_seeds() -> Seq<Seq<char>> {
    seq![
        "Alice"@, "Bob"@, "Charlie"@, "Dave"@, "Eve"@, "Ferdie"@,
        "Alice//stash"@, "Bob//stash"@, "Charlie//stash"@, "Dave//stash"@, "Eve//stash"@,
        "Ferdie//stash"@,
    ]
}

/// Every development seed has a valid URI.
pub open spec fn dev_seeds_valid() -> bool {
    forall|i: int| 0 <= i < DEV_SEED_COUNT ==> (#[trigger] dev_public(dev_seeds()[i])) is Some
}

/// The `i`-th development seed.
pub fn dev_seed(i: usize) -> (r: &'static str)
    requires
        i < DEV_SEED_COUNT,
    ensures
        r@ == dev_seeds()[i as int],
{
    match i {
        0 => "Alice",
        1 => "Bob",
        2 => "Charlie",
        3 => "Dave",
        4 => "Eve",
        5 => "Ferdie",
        6 => "Alice//stash",
        7 => "Bob//stash",
        8 => "Charlie//stash",
        9 => "Dave//stash",
        10 => "Eve//stash",
        _ => "Ferdie//stash",
    }
}

/// The accounts funded at genesis: those of the development seeds, in order.
pub fn pre_funded_accounts() -> (r: Vec<AccountId>)
    requires
        dev_seeds_valid(),
    ensures
        r@.len() == DEV_SEED_COUNT,
        forall|i: int| 0 <= i < DEV_SEED_COUNT ==> dev_public(dev_seeds()[i]) == Some(#[trigger] r@[i]@),
{
    let mut r: Vec<AccountId> = Vec::new();
    let mut i: usize = 0;
    while i < DEV_SEED_COUNT
        invariant
            dev_seeds_valid(),
            i <= DEV_SEED_COUNT,
            r@.len() == i,
            forall|j: int| 0 <= j < i ==> dev_public(dev_seeds()[j]) == Some(#[trigger] r@[j]@),
        decreases DEV_SEED_COUNT - i,
    {
        let seed = dev_seed(i);
        assert(dev_public(dev_seeds()[i as int]) is Some);
        r.push(get_account_id_from_seed(seed));
        i = i + 1;
    }
    r
}

/// The accounts funded at genesis, or `None` where a development seed's URI is
/// not valid.
pub fn try_pre_funded_accounts() -> (r: Option<Vec<AccountId>>)
    ensures
        r is Some <==> dev_seeds_valid(),
        r matches Some(v) ==> v@.len() == DEV_SEED_COUNT
            && forall|i: int| 0 <= i < DEV_SEED_COUNT ==> dev_public(dev_seeds()[i]) == Some(#[trigger] v@[i]@),
{
    let mut i: usize = 0;
    while i < DEV_SEED_COUNT
        invariant
            i <= DEV_SEED_COUNT,
            forall|j: int| 0 <= j < i ==> (#[trigger] dev_public(dev_seeds()[j])) is Some,
        decreases DEV_SEED_COUNT - i,
    {
        let seed = dev_seed(i);
        if try_get_from_seed(seed).is_none() {
            return None;
        }
        i = i + 1;
    }
    Some(pre_funded_accounts())
}

/// `k` is the first position where `a` and `b` differ.
pub open spec fn first_diff(a: Seq<u8>, b: Seq<u8>, k: int) -> bool {
    &&& 0 <= k < a.len()
    &&& k < b.len()
    &&& a[k] != b[k]
    &&& forall|j: int| 0 <= j < k ==> a[j] == b[j]
}

/// `a` comes before `b` in lexicographic byte order (for byte strings of
/// the same length).
pub open spec fn lex_lt(a: Seq<u8>, b: Seq<u8>) -> bool {
    exists|k: int| #[trigger] first_diff(a, b, k) && a[k] < b[k]
}

proof fn lemma_lex_lt_transitive(a: Seq<u8>, b: Seq<u8>, c: Seq<u8>)
    requires
        a.len() == b.len(),
        b.len() == c.len(),
        lex_lt(a, b),
        lex_lt(b, c),
    ensures
        lex_lt(a, c),
{
    let k1 = choose|k: int| #[trigger] first_diff(a, b, k) && a[k] < b[k];
    let k2 = choose|k: int| #[trigger] first_diff(b, c, k) && b[k] < c[k];
    if k1 <= k2 {
        assert(first_diff(a, c, k1));
    } else {
        assert(first_diff(a, c, k2));
    }
}

proof fn lemma_lex_lt_irreflexive(a: Seq<u8>, b: Seq<u8>)
    requires
        lex_lt(a, b),
    ensures
        !lex_lt(b, a),
        a != b,
{
    let k1 = choose|k: int| #[trigger] first_diff(a, b, k) && a[k] < b[k];
    if lex_lt(b, a) {
        let k2 = choose|k: int| #[trigger] first_diff(b, a, k) && b[k] < a[k];
        if k1 < k2 {
            assert(b[k1] == a[k1]);
        } else if k2 < k1 {
            assert(a[k2] == b[k2]);
        }
    }
}

/// How two accounts compare in lexicographic byte order: negative, zero or
/// positive.
pub fn compare_accounts(a: &AccountId, b: &AccountId) -> (r: i8)
    ensures
        r == 0 <==> a@ == b@,
        r < 0 <==> lex_lt(a@, b@),
        r > 0 <==> lex_lt(b@, a@),
{
    let mut i: usize = 0;
    while i < 32
        invariant
            i <= 32,
            a@.len() == 32,
            b@.len() == 32,
            forall|j: int| 0 <= j < i ==> a@[j] == b@[j],
        decreases 32 - i,
    {
        if a[i] != b[i] {
            proof {
                assert(first_diff(a@, b@, i as int));
                assert(first_diff(b@, a@, i as int));
            }
            if a[i] < b[i] {
                proof { lemma_lex_lt_irreflexive(a@, b@); }
                return -1;
            } else {
                proof { lemma_lex_lt_irreflexive(b@, a@); }
                return 1;
            }
        }
        i = i + 1;
    }
    assert(a@ =~= b@);
    proof {
        if lex_lt(a@, b@) {
            lemma_lex_lt_irreflexive(a@, b@);
        }
    }
    0
}

/// The list is in strictly increasing lexicographic order.
pub open spec fn strictly_sorted(s: Seq<AccountId>) -> bool {
    forall|i: int, j: int| 0 <= i < j < s.len() ==> lex_lt(#[trigger] s[i]@, #[trigger] s[j]@)
}

/// The accounts of `v` in increasing lexicographic order, each once: what
/// sorting the list and dropping repeats gives.
pub fn sort_dedup_accounts(v: &Vec<AccountId>) -> (r: Vec<AccountId>)
    ensures
        strictly_sorted(r@),
        forall|x: AccountId| r@.contains(x) <==> v@.contains(x),
{
    let mut r: Vec<AccountId> = Vec::new();
    let n = v.len();
    let mut i: usize = 0;
    while i < n
        invariant
            n == v@.len(),
            i <= n,
            strictly_sorted(r@),
            forall|x: AccountId| r@.contains(x) <==> v@.subrange(0, i as int).contains(x),
        decreases n - i,
    {
        let x = v[i];
        let m = r.len();
        let mut p: usize = 0;
        let mut c: i8 = 1;
        while p < m
            invariant_except_break
                c == 1,
            invariant
                m == r@.len(),
                p <= m,
                forall|j: int| 0 <= j < p ==> lex_lt(r@[j]@, x@),
            ensures
                c == 0 || c == 1,
                p < m ==> (c == 0 <==> r@[p as int]@ == x@) && (c > 0 <==> lex_lt(x@, r@[p as int]@)),
                p < m ==> !lex_lt(r@[p as int]@, x@),
                forall|j: int| 0 <= j < p ==> lex_lt(r@[j]@, x@),
            decreases m - p,
        {
            let rel = compare_accounts(&r[p], &x);
            if rel >= 0 {
                c = if rel == 0 { 0 } else { 1 };
                proof {
                    if rel > 0 {
                        lemma_lex_lt_irreflexive(x@, r@[p as int]@);
                    }
                }
                break;
            }
            p = p + 1;
        }
        let ghost before = r@;
        if p < m && c == 0 {
            proof {
                assert(r@[p as int] =~= x);
                assert(v@.subrange(0, i + 1) =~= v@.subrange(0, i as int).push(x));
                assert forall|y: AccountId| r@.contains(y) <==> v@.subrange(0, i + 1).contains(y) by {
                    if y == x {
                        assert(r@[p as int] == y);
                    }
                }
            }
        } else {
            r.insert(p, x);
            proof {
                assert(r@ =~= before.insert(p as int, x));
                assert forall|a: int, b: int| 0 <= a < b < r@.len() implies lex_lt(#[trigger] r@[a]@, #[trigger] r@[b]@) by {
                    if b < p {
                    } else if a < p && b == p {
                    } else if a < p && b > p {
                        assert(lex_lt(before[a]@, before[b - 1]@));
                    } else if a == p {
                        assert(p < m);
                        if b - 1 > p as int {
                            assert(lex_lt(before[p as int]@, before[b - 1]@));
                            lemma_lex_lt_transitive(x@, before[p as int]@, before[b - 1]@);
                        }
                    } else {
                        assert(lex_lt(before[a - 1]@, before[b - 1]@));
                    }
                }
                let pre = v@.subrange(0, i as int);
                let post = v@.subrange(0, i + 1);
                assert(post =~= pre.push(x));
                assert forall|y: AccountId| r@.contains(y) implies post.contains(y) by {
                    let k = choose|k: int| 0 <= k < r@.len() && r@[k] == y;
                    if k < p {
                        assert(before[k] == y);
                        assert(before.contains(y));
                        let q = choose|q: int| 0 <= q < pre.len() && pre[q] == y;
                        assert(post[q] == y);
                    } else if k > p {
                        assert(before[k - 1] == y);
                        assert(before.contains(y));
                        let q = choose|q: int| 0 <= q < pre.len() && pre[q] == y;
                        assert(post[q] == y);
                    } else {
                        assert(post[i as int] == y);
                    }
                }
                assert forall|y: AccountId| post.contains(y) implies r@.contains(y) by {
                    let q = choose|q: int| 0 <= q < post.len() && post[q] == y;
                    if q < i {
                        assert(pre[q] == y);
                        assert(pre.contains(y));
                        assert(before.contains(y));
                        let k = choose|k: int| 0 <= k < before.len() && before[k] == y;
                        if k < p {
                            assert(r@[k] == y);
                        } else {
                            assert(r@[k + 1] == y);
                        }
                    } else {
                        assert(r@[p as int] == y);
                    }
                }
            }
        }
        i = i + 1;
    }
    assert(v@.subrange(0, n as int) =~= v@);
    r
}

/// Two lists of accounts in strictly increasing byte order that hold the
/// same accounts are the same list: sorting a list and dropping its repeats
/// has exactly one result.
pub proof fn law_sorted_accounts_unique(a: Seq<AccountId>, b: Seq<AccountId>)
    requires
        strictly_sorted(a),
        strictly_sorted(b),
        forall|x: AccountId| a.contains(x) <==> b.contains(x),
    ensures
        a == b,
    decreases a.len(),
{
    if a.len() == 0 {
        if b.len() > 0 {
            assert(b.contains(b[0]));
        }
        assert(a =~= b);
    } else {
        assert(a.contains(a[0]));
        assert(b.len() > 0);
        assert(b.contains(b[0]));
        let j = choose|j: int| 0 <= j < b.len() && b[j] == a[0];
        let i = choose|i: int| 0 <= i < a.len() && a[i] == b[0];
        if a[0] != b[0] {
            assert(j > 0 && i > 0);
            assert(lex_lt(b[0]@, b[j]@));
            assert(lex_lt(a[0]@, a[i]@));
            lemma_lex_lt_irreflexive(a[0]@, b[0]@);
        }
        let ta = a.drop_first();
        let tb = b.drop_first();
        assert forall|x: AccountId| ta.contains(x) <==> tb.contains(x) by {
            if ta.contains(x) {
                let k = choose|k: int| 0 <= k < ta.len() && ta[k] == x;
                assert(a[k + 1] == x);
                assert(a.contains(x));
                let q = choose|q: int| 0 <= q < b.len() && b[q] == x;
                if q == 0 {
                    lemma_lex_lt_irreflexive(a[0]@, a[k + 1]@);
                }
                assert(tb[q - 1] == x);
            }
            if tb.contains(x) {
                let k = choose|k: int| 0 <= k < tb.len() && tb[k] == x;
                assert(b[k + 1] == x);
                assert(b.contains(x));
                let q = choose|q: int| 0 <= q < a.len() && a[q] == x;
                if q == 0 {
                    lemma_lex_lt_irreflexive(b[0]@, b[k + 1]@);
                }
                assert(ta[q - 1] == x);
            }
        }
        assert(strictly_sorted(ta)) by {
            assert forall|p: int, q: int| 0 <= p < q < ta.len() implies lex_lt(#[trigger] ta[p]@, #[trigger] ta[q]@) by {
                assert(lex_lt(a[p + 1]@, a[q + 1]@));
            }
        }
        assert(strictly_sorted(tb)) by {
            assert forall|p: int, q: int| 0 <= p < q < tb.len() implies lex_lt(#[trigger] tb[p]@, #[trigger] tb[q]@) by {
                assert(lex_lt(b[p + 1]@, b[q + 1]@));
            }
        }
        law_sorted_accounts_unique(ta, tb);
        assert(a =~= b) by {
            assert forall|k: int| 0 <= k < a.len() implies a[k] == b[k] by {
                if k > 0 {
                    assert(ta[k - 1] == tb[k - 1]);
                }
            }
        }
    }
}

} // verus!
