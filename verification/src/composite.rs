//! The composite case: a fixed-size array of participating elements
//! inherits both capability sets, element-wise, at any nesting depth.

use vstd::prelude::*;
use crate::vector_space::{ArrayVectorSpace, ArrayVectorSpaceMut, VectorScalar};
use vstd::array::spec_array_update;

verus! {

broadcast use vstd::array::group_array_axioms;

/// The leaves of a sequence of participating elements, concatenated in
/// index order.
pub open spec fn seq_leaves<T: VectorScalar, V: ArrayVectorSpace<T>>(s: Seq<V>) -> Seq<T>
    decreases s.len(),
{
    if s.len() == 0 {
        Seq::empty()
    } else {
        s[0].leaves() + seq_leaves(s.skip(1))
    }
}

/// The inner product of the first `n` element pairs, folded left to right
/// from the scalar zero.
pub open spec fn dot_prefix<T: VectorScalar, V: ArrayVectorSpace<T>>(
    a: Seq<V>,
    b: Seq<V>,
    n: int,
) -> T
    decreases n,
{
    if n <= 0 {
        T::spec_zero()
    } else {
        dot_prefix(a, b, n - 1).spec_leaf_add(a[n - 1].spec_dot(b[n - 1]))
    }
}

/// `a` with its first `n` elements replaced by `f` of the paired elements.
pub open spec fn map2_prefix<V, const N: usize>(
    a: [V; N],
    b: [V; N],
    f: spec_fn(V, V) -> V,
    n: int,
) -> [V; N]
    decreases n,
{
    if n <= 0 {
        a
    } else {
        spec_array_update(map2_prefix(a, b, f, n - 1), n - 1, f(a@[n - 1], b@[n - 1]))
    }
}

/// `a` with its first `n` elements replaced by `f` of the element.
pub open spec fn map1_prefix<V, const N: usize>(a: [V; N], f: spec_fn(V) -> V, n: int) -> [V; N]
    decreases n,
{
    if n <= 0 {
        a
    } else {
        spec_array_update(map1_prefix(a, f, n - 1), n - 1, f(a@[n - 1]))
    }
}

/// The pairwise sum, element by element.
pub open spec fn vsum_fn<T: VectorScalar, V: ArrayVectorSpace<T>>() -> spec_fn(V, V) -> V {
    |x: V, y: V| x.spec_sum(y)
}

/// The pairwise difference, element by element.
pub open spec fn vdiff_fn<T: VectorScalar, V: ArrayVectorSpace<T>>() -> spec_fn(V, V) -> V {
    |x: V, y: V| x.spec_diff(y)
}

/// The pairwise product, element by element.
pub open spec fn vprod_fn<T: VectorScalar, V: ArrayVectorSpace<T>>() -> spec_fn(V, V) -> V {
    |x: V, y: V| x.spec_prod(y)
}

/// The pairwise quotient, element by element.
pub open spec fn vquot_fn<T: VectorScalar, V: ArrayVectorSpace<T>>() -> spec_fn(V, V) -> V {
    |x: V, y: V| x.spec_quot(y)
}

/// Scaling of one element by `k`.
pub open spec fn vscal_fn<T: VectorScalar, V: ArrayVectorSpace<T>>(k: T) -> spec_fn(V) -> V {
    |x: V| x.spec_scal_mul(k)
}

/// Clamping of one element into `[min, max]`.
pub open spec fn vclamp_fn<T: VectorScalar, V: ArrayVectorSpace<T>>(
    min: T,
    max: T,
) -> spec_fn(V) -> V {
    |x: V| x.spec_clamp(min, max)
}

/// What `map2_prefix` holds at each index.
pub proof fn lemma_map2_prefix_view<V, const N: usize>(
    a: [V; N],
    b: [V; N],
    f: spec_fn(V, V) -> V,
    n: int,
)
    requires
        0 <= n <= N,
    ensures
        forall|i: int| 0 <= i < n ==> map2_prefix(a, b, f, n)@[i] == f(a@[i], b@[i]),
        forall|i: int| n <= i < N ==> map2_prefix(a, b, f, n)@[i] == a@[i],
    decreases n,
{
    if n > 0 {
        lemma_map2_prefix_view(a, b, f, n - 1);
    }
}

/// What `map1_prefix` holds at each index.
pub proof fn lemma_map1_prefix_view<V, const N: usize>(a: [V; N], f: spec_fn(V) -> V, n: int)
    requires
        0 <= n <= N,
    ensures
        forall|i: int| 0 <= i < n ==> map1_prefix(a, f, n)@[i] == f(a@[i]),
        forall|i: int| n <= i < N ==> map1_prefix(a, f, n)@[i] == a@[i],
    decreases n,
{
    if n > 0 {
        lemma_map1_prefix_view(a, f, n - 1);
    }
}

/// A pointwise map of every element's leaves is a pointwise map of the
/// concatenated leaves.
pub proof fn lemma_seq_leaves_map<T: VectorScalar, V: ArrayVectorSpace<T>>(
    s: Seq<V>,
    t: Seq<V>,
    g: spec_fn(T) -> T,
)
    requires
        t.len() == s.len(),
        forall|i: int| 0 <= i < s.len() ==> (#[trigger] t[i]).leaves().len() == s[i].leaves().len(),
        forall|i: int, j: int|
            0 <= i < s.len() && 0 <= j < s[i].leaves().len() ==> (#[trigger] t[i].leaves()[j])
                == g(s[i].leaves()[j]),
    ensures
        seq_leaves(t).len() == seq_leaves(s).len(),
        forall|j: int|
            0 <= j < seq_leaves(s).len() ==> (#[trigger] seq_leaves(t)[j]) == g(seq_leaves(s)[j]),
    decreases s.len(),
{
    if s.len() > 0 {
        lemma_seq_leaves_map(s.skip(1), t.skip(1), g);
        assert(seq_leaves(s) == s[0].leaves() + seq_leaves(s.skip(1)));
        assert(seq_leaves(t) == t[0].leaves() + seq_leaves(t.skip(1)));
        assert forall|j: int| 0 <= j < seq_leaves(s).len() implies (#[trigger] seq_leaves(t)[j])
            == g(seq_leaves(s)[j]) by {
            let h = s[0].leaves().len() as int;
            if j < h {
                assert(seq_leaves(t)[j] == t[0].leaves()[j]);
                assert(seq_leaves(s)[j] == s[0].leaves()[j]);
            } else {
                assert(seq_leaves(t)[j] == seq_leaves(t.skip(1))[j - h]);
                assert(seq_leaves(s)[j] == seq_leaves(s.skip(1))[j - h]);
            }
        }
    }
}

impl<T, V, const N: usize> ArrayVectorSpace<T> for [V; N] where
    T: VectorScalar,
    V: ArrayVectorSpace<T> + Copy,
 {
    open spec fn leaves(self) -> Seq<T> {
        seq_leaves(self@)
    }

    open spec fn spec_dot(self, rhs: [V; N]) -> T {
        dot_prefix(self@, rhs@, N as int)
    }

    open spec fn spec_sum(self, rhs: [V; N]) -> [V; N] {
        map2_prefix(self, rhs, vsum_fn(), N as int)
    }

    open spec fn spec_diff(self, rhs: [V; N]) -> [V; N] {
        map2_prefix(self, rhs, vdiff_fn(), N as int)
    }

    open spec fn spec_prod(self, rhs: [V; N]) -> [V; N] {
        map2_prefix(self, rhs, vprod_fn(), N as int)
    }

    open spec fn spec_quot(self, rhs: [V; N]) -> [V; N] {
        map2_prefix(self, rhs, vquot_fn(), N as int)
    }

    open spec fn spec_scal_mul(self, k: T) -> [V; N] {
        map1_prefix(self, vscal_fn(k), N as int)
    }

    open spec fn spec_clamp(self, min: T, max: T) -> [V; N] {
        map1_prefix(self, vclamp_fn(min, max), N as int)
    }

    open spec fn spec_normalized(self) -> [V; N] {
        self.spec_scal_mul(self.spec_dot(self).spec_sqrt().spec_recip())
    }

    fn dot(self, rhs: [V; N]) -> (r: T) {
        let mut acc: T = T::zero();
        for i in 0..N
            invariant
                acc == dot_prefix::<T, V>(self@, rhs@, i as int),
        {
            acc = acc.leaf_add(self[i].dot(rhs[i]));
        }
        acc
    }

    fn add(self, rhs: [V; N]) -> (r: [V; N]) {
        let mut out = self;
        for i in 0..N
            invariant
                out == map2_prefix(self, rhs, vsum_fn::<T, V>(), i as int),
        {
            out[i] = self[i].add(rhs[i]);
            proof {
                assert(out =~= map2_prefix(self, rhs, vsum_fn::<T, V>(), i + 1));
            }
        }
        out
    }

    fn sub(self, rhs: [V; N]) -> (r: [V; N]) {
        let mut out = self;
        for i in 0..N
            invariant
                out == map2_prefix(self, rhs, vdiff_fn::<T, V>(), i as int),
        {
            out[i] = self[i].sub(rhs[i]);
            proof {
                assert(out =~= map2_prefix(self, rhs, vdiff_fn::<T, V>(), i + 1));
            }
        }
        out
    }

    fn mul(self, rhs: [V; N]) -> (r: [V; N]) {
        let mut out = self;
        for i in 0..N
            invariant
                out == map2_prefix(self, rhs, vprod_fn::<T, V>(), i as int),
        {
            out[i] = self[i].mul(rhs[i]);
            proof {
                assert(out =~= map2_prefix(self, rhs, vprod_fn::<T, V>(), i + 1));
            }
        }
        out
    }

    fn div(self, rhs: [V; N]) -> (r: [V; N]) {
        let mut out = self;
        for i in 0..N
            invariant
                out == map2_prefix(self, rhs, vquot_fn::<T, V>(), i as int),
        {
            out[i] = self[i].div(rhs[i]);
            proof {
                assert(out =~= map2_prefix(self, rhs, vquot_fn::<T, V>(), i + 1));
            }
        }
        out
    }

    fn scal_mul(self, rhs: T) -> (r: [V; N]) {
        let mut out = self;
        for i in 0..N
            invariant
                out == map1_prefix(self, vscal_fn::<T, V>(rhs), i as int),
        {
            out[i] = self[i].scal_mul(rhs);
            proof {
                assert(out =~= map1_prefix(self, vscal_fn::<T, V>(rhs), i + 1));
            }
        }
        out
    }

    fn clamp(self, min: T, max: T) -> (r: [V; N]) {
        let mut out = self;
        for i in 0..N
            invariant
                min.spec_leaf_le(max),
                out == map1_prefix(self, vclamp_fn::<T, V>(min, max), i as int),
        {
            out[i] = self[i].clamp(min, max);
            proof {
                assert(out =~= map1_prefix(self, vclamp_fn::<T, V>(min, max), i + 1));
            }
        }
        out
    }

    fn normalized(self) -> (r: [V; N]) {
        let n = self.norm2();
        self.scal_mul(n.sqrt().recip())
    }

    proof fn lemma_scal_mul_leaves(self, k: T) {
        let r = self.spec_scal_mul(k);
        lemma_map1_prefix_view(self, vscal_fn::<T, V>(k), N as int);
        assert forall|i: int| 0 <= i < N implies (#[trigger] r@[i]).leaves().len()
            == self@[i].leaves().len() && forall|j: int|
            0 <= j < self@[i].leaves().len() ==> r@[i].leaves()[j] == self@[i].leaves()[j].spec_leaf_mul(
                k,
            ) by {
            V::lemma_scal_mul_leaves(self@[i], k);
        }
        lemma_seq_leaves_map(self@, r@, |l: T| l.spec_leaf_mul(k));
        assert(r.leaves() =~= self.leaves().map_values(|l: T| l.spec_leaf_mul(k)));
    }

    proof fn lemma_clamp_leaves(self, min: T, max: T) {
        let r = self.spec_clamp(min, max);
        lemma_map1_prefix_view(self, vclamp_fn::<T, V>(min, max), N as int);
        assert forall|i: int| 0 <= i < N implies (#[trigger] r@[i]).leaves().len()
            == self@[i].leaves().len() && forall|j: int|
            0 <= j < self@[i].leaves().len() ==> r@[i].leaves()[j] == self@[i].leaves()[j].spec_leaf_clamp(
                min,
                max,
            ) by {
            V::lemma_clamp_leaves(self@[i], min, max);
        }
        lemma_seq_leaves_map(self@, r@, |l: T| l.spec_leaf_clamp(min, max));
        assert(r.leaves() =~= self.leaves().map_values(|l: T| l.spec_leaf_clamp(min, max)));
    }
}

impl<T, V, const N: usize> ArrayVectorSpaceMut<T> for [V; N] where
    T: VectorScalar,
    V: ArrayVectorSpace<T> + ArrayVectorSpaceMut<T> + Copy,
 {
    fn mut_add(&mut self, rhs: &[V; N]) {
        for i in 0..N
            invariant
                *self == map2_prefix(*old(self), *rhs, vsum_fn::<T, V>(), i as int),
        {
            let mut v: V = self[i];
            v.mut_add(&rhs[i]);
            proof {
                lemma_map2_prefix_view(*old(self), *rhs, vsum_fn::<T, V>(), i as int);
            }
            self[i] = v;
            proof {
                assert(*self =~= map2_prefix(*old(self), *rhs, vsum_fn::<T, V>(), i + 1));
            }
        }
    }

    fn mut_sub(&mut self, rhs: &[V; N]) {
        for i in 0..N
            invariant
                *self == map2_prefix(*old(self), *rhs, vdiff_fn::<T, V>(), i as int),
        {
            let mut v: V = self[i];
            v.mut_sub(&rhs[i]);
            proof {
                lemma_map2_prefix_view(*old(self), *rhs, vdiff_fn::<T, V>(), i as int);
            }
            self[i] = v;
            proof {
                assert(*self =~= map2_prefix(*old(self), *rhs, vdiff_fn::<T, V>(), i + 1));
            }
        }
    }

    fn mut_mul(&mut self, rhs: &[V; N]) {
        for i in 0..N
            invariant
                *self == map2_prefix(*old(self), *rhs, vprod_fn::<T, V>(), i as int),
        {
            let mut v: V = self[i];
            v.mut_mul(&rhs[i]);
            proof {
                lemma_map2_prefix_view(*old(self), *rhs, vprod_fn::<T, V>(), i as int);
            }
            self[i] = v;
            proof {
                assert(*self =~= map2_prefix(*old(self), *rhs, vprod_fn::<T, V>(), i + 1));
            }
        }
    }

    fn mut_div(&mut self, rhs: &[V; N]) {
        for i in 0..N
            invariant
                *self == map2_prefix(*old(self), *rhs, vquot_fn::<T, V>(), i as int),
        {
            let mut v: V = self[i];
            v.mut_div(&rhs[i]);
            proof {
                lemma_map2_prefix_view(*old(self), *rhs, vquot_fn::<T, V>(), i as int);
            }
            self[i] = v;
            proof {
                assert(*self =~= map2_prefix(*old(self), *rhs, vquot_fn::<T, V>(), i + 1));
            }
        }
    }

    fn mut_scal_mul(&mut self, rhs: T) {
        for i in 0..N
            invariant
                *self == map1_prefix(*old(self), vscal_fn::<T, V>(rhs), i as int),
        {
            let mut v: V = self[i];
            v.mut_scal_mul(rhs);
            proof {
                lemma_map1_prefix_view(*old(self), vscal_fn::<T, V>(rhs), i as int);
            }
            self[i] = v;
            proof {
                assert(*self =~= map1_prefix(*old(self), vscal_fn::<T, V>(rhs), i + 1));
            }
        }
    }

    fn mut_clamp(&mut self, min: T, max: T) {
        for i in 0..N
            invariant
                min.spec_leaf_le(max),
                *self == map1_prefix(*old(self), vclamp_fn::<T, V>(min, max), i as int),
        {
            let mut v: V = self[i];
            v.mut_clamp(min, max);
            proof {
                lemma_map1_prefix_view(*old(self), vclamp_fn::<T, V>(min, max), i as int);
            }
            self[i] = v;
            proof {
                assert(*self =~= map1_prefix(*old(self), vclamp_fn::<T, V>(min, max), i + 1));
            }
        }
    }

    fn mut_normalized(&mut self) {
        let x: [V; N] = *self;
        let n = x.norm2();
        self.mut_scal_mul(n.sqrt().recip());
    }
}

} // verus!
