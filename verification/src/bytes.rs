//! Big-endian interpretation of byte strings, and the small verified byte
//! utilities the derivation steps are built from.

use vstd::prelude::*;

verus! {

/// The natural number denoted by a byte string read big-endian.
pub open spec fn be_nat(s: Seq<u8>) -> nat
    decreases s.len(),
{
    if s.len() == 0 {
        0
    } else {
        be_nat(s.drop_last()) * 256 + s.last() as nat
    }
}

/// The `len`-byte big-endian encoding of `n` (truncated to `len` bytes).
pub open spec fn be_of(n: nat, len: nat) -> Seq<u8>
    decreases len,
{
    if len == 0 {
        Seq::empty()
    } else {
        be_of(n / 256, (len - 1) as nat).push((n % 256) as u8)
    }
}

/// 256 to the `k`-th power: the number of byte strings of length `k`.
pub open spec fn pow256(k: nat) -> nat
    decreases k,
{
    if k == 0 {
        1
    } else {
        256 * pow256((k - 1) as nat)
    }
}

/// A byte string of length `k` denotes a number below `pow256(k)`.
pub proof fn lemma_be_nat_bound(s: Seq<u8>)
    ensures
        be_nat(s) < pow256(s.len()),
    decreases s.len(),
{
    if s.len() > 0 {
        lemma_be_nat_bound(s.drop_last());
    }
}

/// A byte string of zeros denotes zero.
pub proof fn lemma_be_nat_all_zero(s: Seq<u8>)
    requires
        forall|i: int| 0 <= i < s.len() ==> s[i] == 0,
    ensures
        be_nat(s) == 0,
    decreases s.len(),
{
    if s.len() > 0 {
        lemma_be_nat_all_zero(s.drop_last());
    }
}

/// Byte strings of equal length compare numerically as they compare at the
/// first position where they differ.
pub proof fn lemma_be_nat_lt(a: Seq<u8>, b: Seq<u8>, i: int)
    requires
        a.len() == b.len(),
        0 <= i < a.len(),
        a.subrange(0, i) == b.subrange(0, i),
        a[i] < b[i],
    ensures
        be_nat(a) < be_nat(b),
    decreases a.len(),
{
    if i == a.len() - 1 {
        assert(a.drop_last() =~= b.drop_last());
    } else {
        assert(a.drop_last().subrange(0, i) =~= a.subrange(0, i));
        assert(b.drop_last().subrange(0, i) =~= b.subrange(0, i));
        lemma_be_nat_lt(a.drop_last(), b.drop_last(), i);
    }
}

/// Encoding length: `be_of` always produces exactly `len` bytes.
pub proof fn lemma_be_of_len(n: nat, len: nat)
    ensures
        be_of(n, len).len() == len,
    decreases len,
{
    if len > 0 {
        lemma_be_of_len(n / 256, (len - 1) as nat);
    }
}

/// Round trip: encoding a number below `pow256(len)` and reading it back
/// yields the same number.
pub proof fn lemma_be_nat_of_be_of(n: nat, len: nat)
    requires
        n < pow256(len),
    ensures
        be_nat(be_of(n, len)) == n,
    decreases len,
{
    if len > 0 {
        let q = n / 256;
        let r = n % 256;
        vstd::arithmetic::div_mod::lemma_fundamental_div_mod(n as int, 256);
        vstd::arithmetic::div_mod::lemma_mod_bound(n as int, 256);
        assert(q < pow256((len - 1) as nat)) by {
            if q >= pow256((len - 1) as nat) {
                assert(256 * q >= 256 * pow256((len - 1) as nat));
            }
        }
        lemma_be_nat_of_be_of(q, (len - 1) as nat);
        let tail = be_of(q, (len - 1) as nat);
        lemma_be_of_len(q, (len - 1) as nat);
        assert(tail.push((r) as u8).drop_last() =~= tail);
        assert(be_nat(be_of(n, len)) == be_nat(tail) * 256 + r);
    }
}

/// Copy of a vector of plain values.
pub fn clone_vec_copy<T: Copy>(v: &Vec<T>) -> (r: Vec<T>)
    ensures
        r@ == v@,
{
    let mut r: Vec<T> = Vec::new();
    let mut i: usize = 0;
    while i < v.len()
        invariant
            i <= v@.len(),
            r@ == v@.subrange(0, i as int),
        decreases v@.len() - i,
    {
        r.push(v[i]);
        assert(r@ =~= v@.subrange(0, i + 1));
        i = i + 1;
    }
    assert(r@ =~= v@);
    r
}

/// Appends every byte of `src` to `dst`.
pub fn push_all(dst: &mut Vec<u8>, src: &[u8])
    ensures
        final(dst)@ == old(dst)@ + src@,
{
    let mut i: usize = 0;
    while i < src.len()
        invariant
            i <= src@.len(),
            dst@ == old(dst)@ + src@.subrange(0, i as int),
        decreases src@.len() - i,
    {
        dst.push(src[i]);
        assert(dst@ =~= old(dst)@ + src@.subrange(0, i + 1));
        i = i + 1;
    }
    assert(dst@ =~= old(dst)@ + src@);
}

/// The bytes of `v` from `start` (inclusive) to `end` (exclusive).
pub fn sub_bytes(v: &[u8], start: usize, end: usize) -> (r: Vec<u8>)
    requires
        start <= end <= v@.len(),
    ensures
        r@ == v@.subrange(start as int, end as int),
{
    let mut r: Vec<u8> = Vec::new();
    let mut i: usize = start;
    while i < end
        invariant
            start <= i <= end <= v@.len(),
            r@ == v@.subrange(start as int, i as int),
        decreases end - i,
    {
        r.push(v[i]);
        assert(r@ =~= v@.subrange(start as int, i + 1));
        i = i + 1;
    }
    r
}

/// Numeric comparison of two equal-length byte strings.
pub fn bytes_lt(a: &Vec<u8>, b: &Vec<u8>) -> (r: bool)
    requires
        a@.len() == b@.len(),
    ensures
        r == (be_nat(a@) < be_nat(b@)),
{
    let n = a.len();
    let mut i: usize = 0;
    while i < n
        invariant
            i <= n == a@.len() == b@.len(),
            a@.subrange(0, i as int) == b@.subrange(0, i as int),
        decreases n - i,
    {
        if a[i] < b[i] {
            proof {
                lemma_be_nat_lt(a@, b@, i as int);
            }
            return true;
        }
        if a[i] > b[i] {
            proof {
                lemma_be_nat_lt(b@, a@, i as int);
            }
            return false;
        }
        assert(a@.subrange(0, i + 1) =~= b@.subrange(0, i + 1));
        i = i + 1;
    }
    assert(a@.subrange(0, n as int) =~= a@);
    assert(b@.subrange(0, n as int) =~= b@);
    false
}

/// Equality of two byte strings.
pub fn bytes_eq(a: &[u8], b: &[u8]) -> (r: bool)
    ensures
        r == (a@ == b@),
{
    if a.len() != b.len() {
        assert(a@ != b@);
        return false;
    }
    let n = a.len();
    let mut i: usize = 0;
    while i < n
        invariant
            i <= n == a@.len() == b@.len(),
            forall|j: int| 0 <= j < i ==> a@[j] == b@[j],
        decreases n - i,
    {
        if a[i] != b[i] {
            return false;
        }
        i = i + 1;
    }
    assert(a@ =~= b@);
    true
}

/// Whether the index selects hardened derivation: its high bit is set.
pub open spec fn is_hardened(index: u32) -> bool {
    index >= 0x8000_0000
}

/// The four big-endian bytes of a child index.
pub open spec fn be32(index: u32) -> Seq<u8> {
    seq![
        ((index >> 24) & 0xff) as u8,
        ((index >> 16) & 0xff) as u8,
        ((index >> 8) & 0xff) as u8,
        (index & 0xff) as u8,
    ]
}

/// The big-endian byte encoding of a child index.
pub fn index_bytes(index: u32) -> (r: Vec<u8>)
    ensures
        r@ == be32(index),
{
    assert((index >> 24) & 0xff < 256 && (index >> 16) & 0xff < 256 && (index >> 8) & 0xff < 256
        && index & 0xff < 256) by (bit_vector);
    let mut r: Vec<u8> = Vec::new();
    r.push(((index >> 24) & 0xff) as u8);
    r.push(((index >> 16) & 0xff) as u8);
    r.push(((index >> 8) & 0xff) as u8);
    r.push((index & 0xff) as u8);
    assert(r@ =~= be32(index));
    r
}

} // verus!
