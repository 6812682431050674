//! Derivation paths: the ordered sequence of child indices a key claims to
//! have been reached by, and the prefix/suffix queries over such claims.

use vstd::prelude::*;

use crate::bytes::clone_vec_copy;

verus! {

/// The purported derivation path of a key: the child indices applied, in
/// order, from some implicit root; the high bit of an index flags hardened
/// derivation. The empty path denotes the root itself.
#[derive(Debug)]
pub struct KeyDerivation {
    /// The child indices, in derivation order.
    pub path: Vec<u32>,
}

impl View for KeyDerivation {
    type V = Seq<u32>;

    open spec fn view(&self) -> Seq<u32> {
        self.path@
    }
}

/// The suffix of `full` that extends `prefix`, or `None` when `full` does
/// not have `prefix` as an index-wise prefix (hardened flags included).
pub open spec fn path_suffix(prefix: Seq<u32>, full: Seq<u32>) -> Option<Seq<u32>> {
    if prefix.len() <= full.len() && full.subrange(0, prefix.len() as int) == prefix {
        Some(full.skip(prefix.len() as int))
    } else {
        None
    }
}

impl KeyDerivation {
    /// A new empty path: the root's claim.
    pub fn new_root() -> (r: KeyDerivation)
        ensures
            r@ == Seq::<u32>::empty(),
    {
        let r = KeyDerivation { path: Vec::new() };
        assert(r@ =~= Seq::<u32>::empty());
        r
    }

    /// This path extended by one child index.
    pub fn extended(&self, index: u32) -> (r: KeyDerivation)
        ensures
            r@ == self@.push(index),
    {
        let mut path = clone_vec_copy(&self.path);
        path.push(index);
        KeyDerivation { path }
    }

    /// The relative path from this key's claim down to `other`'s, or `None`
    /// when `other`'s path does not extend this one.
    pub fn path_to_descendant(&self, other: &KeyDerivation) -> (r: Option<Vec<u32>>)
        ensures
            r is Some <==> path_suffix(self@, other@) is Some,
            r matches Some(s) ==> Some(s@) == path_suffix(self@, other@),
    {
        if self.path.len() > other.path.len() {
            return None;
        }
        let n = self.path.len();
        let mut i: usize = 0;
        while i < n
            invariant
                i <= n == self@.len() <= other@.len(),
                forall|j: int| 0 <= j < i ==> self@[j] == other@[j],
            decreases n - i,
        {
            if self.path[i] != other.path[i] {
                assert(other@.subrange(0, n as int)[i as int] != self@[i as int]);
                return None;
            }
            i = i + 1;
        }
        assert(other@.subrange(0, n as int) =~= self@);
        let suffix = sub_indices(&other.path, n);
        Some(suffix)
    }
}

/// The indices of `a` followed by those of `b`.
pub fn concat_indices(a: &Vec<u32>, b: &Vec<u32>) -> (r: Vec<u32>)
    ensures
        r@ == a@ + b@,
{
    let mut r = clone_vec_copy(a);
    let mut i: usize = 0;
    while i < b.len()
        invariant
            i <= b@.len(),
            r@ == a@ + b@.subrange(0, i as int),
        decreases b@.len() - i,
    {
        r.push(b[i]);
        assert(r@ =~= a@ + b@.subrange(0, i + 1));
        i = i + 1;
    }
    assert(r@ =~= a@ + b@);
    r
}

/// The indices of `v` from `start` on.
pub fn sub_indices(v: &Vec<u32>, start: usize) -> (r: Vec<u32>)
    requires
        start <= v@.len(),
    ensures
        r@ == v@.skip(start as int),
{
    let mut r: Vec<u32> = Vec::new();
    let mut i: usize = start;
    while i < v.len()
        invariant
            start <= i <= v@.len(),
            r@ == v@.subrange(start as int, i as int),
        decreases v@.len() - i,
    {
        r.push(v[i]);
        assert(r@ =~= v@.subrange(start as int, i + 1));
        i = i + 1;
    }
    assert(r@ =~= v@.skip(start as int));
    r
}

impl Clone for KeyDerivation {
    fn clone(&self) -> (r: Self)
        ensures
            r@ == self@,
    {
        KeyDerivation { path: clone_vec_copy(&self.path) }
    }
}

/// Extending a path twice appends exactly the two indices, in order.
pub proof fn lemma_extend_twice(path: Seq<u32>, i: u32, j: u32)
    ensures
        path.push(i).push(j) == path + seq![i, j],
{
    assert(path.push(i).push(j) =~= path + seq![i, j]);
}

/// A path is related to itself by the empty relative path.
pub proof fn lemma_path_to_self(path: Seq<u32>)
    ensures
        path_suffix(path, path) == Some(Seq::<u32>::empty()),
{
    assert(path.subrange(0, path.len() as int) =~= path);
    assert(path.skip(path.len() as int) =~= Seq::<u32>::empty());
}

} // verus!
