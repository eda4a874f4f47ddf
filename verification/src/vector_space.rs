//! The two capability sets: owning and in-place vector-space operations.

use vstd::prelude::*;

verus! {

/// The leaf-sequence model type, usable by scalar-leaf implementations that
/// live outside the verified world and have no model to give.
pub type LeafSeq<T> = Seq<T>;

/// A scalar leaf type: the native arithmetic every composite operation
/// bottoms out in, each piece with a specification-level counterpart.
pub trait VectorScalar: Sized + Copy {
    /// The additive identity, as a specification value.
    spec fn spec_zero() -> Self;

    /// The scalar order used by `clamp`.
    spec fn spec_leaf_le(self, rhs: Self) -> bool;

    /// Specification of the scalar sum.
    spec fn spec_leaf_add(self, rhs: Self) -> Self;

    /// Specification of the scalar product.
    spec fn spec_leaf_mul(self, rhs: Self) -> Self;

    /// Specification of the scalar clamp into `[min, max]`.
    spec fn spec_leaf_clamp(self, min: Self, max: Self) -> Self;

    /// Specification of the scalar square root.
    spec fn spec_sqrt(self) -> Self;

    /// Specification of the scalar reciprocal.
    spec fn spec_recip(self) -> Self;

    fn zero() -> (r: Self)
        ensures
            r == Self::spec_zero(),
    ;

    fn leaf_add(self, rhs: Self) -> (r: Self)
        ensures
            r == self.spec_leaf_add(rhs),
    ;

    fn sqrt(self) -> (r: Self)
        ensures
            r == self.spec_sqrt(),
    ;

    fn recip(self) -> (r: Self)
        ensures
            r == self.spec_recip(),
    ;
}

/// The owning capability set: every operation consumes its operands and
/// produces a new value. A participating type is either a scalar leaf or a
/// fixed-size array of participating elements, so `leaves` flattens a value
/// into its ordered sequence of scalar leaves, the mathematical model every
/// contract is stated over.
pub trait ArrayVectorSpace<T: VectorScalar>: Sized {
    /// The ordered sequence of scalar leaves of this value, in index order.
    spec fn leaves(self) -> Seq<T>;

    /// What `dot` returns: the leaf product for a scalar, and for an array
    /// the element-wise inner products folded left to right from zero.
    spec fn spec_dot(self, rhs: Self) -> T;

    /// What `add` returns.
    spec fn spec_sum(self, rhs: Self) -> Self;

    /// What `sub` returns.
    spec fn spec_diff(self, rhs: Self) -> Self;

    /// What `mul` returns.
    spec fn spec_prod(self, rhs: Self) -> Self;

    /// What `div` returns.
    spec fn spec_quot(self, rhs: Self) -> Self;

    /// What `scal_mul` returns.
    spec fn spec_scal_mul(self, k: T) -> Self;

    /// What `clamp` returns.
    spec fn spec_clamp(self, min: T, max: T) -> Self;

    /// What `normalized` returns: `1` for a scalar leaf, and for an array the
    /// value scaled by the reciprocal of the square root of its squared norm.
    spec fn spec_normalized(self) -> Self;

    /// Inner product of two same-shape values.
    fn dot(self, rhs: Self) -> (r: T)
        ensures
            r == self.spec_dot(rhs),
    ;

    /// Squared norm; it equals `self.dot(self)` exactly, for every leaf and
    /// every composite.
    fn norm2(self) -> (r: T) where Self: Sized + Copy
        ensures
            r == self.spec_dot(self),
    {
        self.dot(self)
    }

    /// Element-wise sum.
    fn add(self, rhs: Self) -> (r: Self)
        ensures
            r == self.spec_sum(rhs),
    ;

    /// Element-wise difference.
    fn sub(self, rhs: Self) -> (r: Self)
        ensures
            r == self.spec_diff(rhs),
    ;

    /// Element-wise product.
    fn mul(self, rhs: Self) -> (r: Self)
        ensures
            r == self.spec_prod(rhs),
    ;

    /// Element-wise quotient.
    fn div(self, rhs: Self) -> (r: Self)
        ensures
            r == self.spec_quot(rhs),
    ;

    /// Every leaf multiplied by the scalar `rhs`.
    fn scal_mul(self, rhs: T) -> (r: Self)
        ensures
            r == self.spec_scal_mul(rhs),
    ;

    /// Every leaf clamped into `[min, max]`.
    fn clamp(self, min: T, max: T) -> (r: Self)
        requires
            min.spec_leaf_le(max),
        ensures
            r == self.spec_clamp(min, max),
    ;

    /// Scaling by the reciprocal of the norm; on a scalar leaf this is the
    /// degenerate base case that always returns `1`.
    fn normalized(self) -> (r: Self)
        ensures
            r == self.spec_normalized(),
    ;

    /// Law: `scal_mul` multiplies every leaf by `k` independently, at any
    /// depth.
    proof fn lemma_scal_mul_leaves(self, k: T)
        ensures
            (self.spec_scal_mul(k).leaves() == self.leaves().map_values(
                |l: T| l.spec_leaf_mul(k),
            )),
    ;

    /// Law: `clamp` clamps every leaf independently, at any depth.
    proof fn lemma_clamp_leaves(self, min: T, max: T)
        ensures
            (self.spec_clamp(min, max).leaves() == self.leaves().map_values(
                |l: T| l.spec_leaf_clamp(min, max),
            )),
    ;
}

/// The in-place capability set: the same algebra, mutating the left operand
/// through an exclusive reference. Each operation leaves its receiver exactly
/// at the value the owning operation of [`ArrayVectorSpace`] would return, so
/// the two capability sets agree by construction.
pub trait ArrayVectorSpaceMut<T: VectorScalar> {
    /// In-place element-wise sum.
    fn mut_add(&mut self, rhs: &Self) where Self: ArrayVectorSpace<T>
        ensures
            *final(self) == (*old(self)).spec_sum(*rhs),
    ;

    /// In-place element-wise difference.
    fn mut_sub(&mut self, rhs: &Self) where Self: ArrayVectorSpace<T>
        ensures
            *final(self) == (*old(self)).spec_diff(*rhs),
    ;

    /// In-place element-wise product.
    fn mut_mul(&mut self, rhs: &Self) where Self: ArrayVectorSpace<T>
        ensures
            *final(self) == (*old(self)).spec_prod(*rhs),
    ;

    /// In-place element-wise quotient.
    fn mut_div(&mut self, rhs: &Self) where Self: ArrayVectorSpace<T>
        ensures
            *final(self) == (*old(self)).spec_quot(*rhs),
    ;

    /// In-place scaling of every leaf by `rhs`.
    fn mut_scal_mul(&mut self, rhs: T) where Self: ArrayVectorSpace<T>
        ensures
            *final(self) == (*old(self)).spec_scal_mul(rhs),
    ;

    /// In-place clamp of every leaf into `[min, max]`.
    fn mut_clamp(&mut self, min: T, max: T) where Self: ArrayVectorSpace<T>
        requires
            min.spec_leaf_le(max),
        ensures
            *final(self) == (*old(self)).spec_clamp(min, max),
    ;

    /// In-place normalization.
    fn mut_normalized(&mut self) where Self: ArrayVectorSpace<T>
        ensures
            *final(self) == (*old(self)).spec_normalized(),
    ;
}

} // verus!
