//! An affine transform: a matrix together with its inverse.
use vstd::prelude::*;
use crate::elimination::{can_invert, inverted};
use crate::grid::{can_multiply, identity_grid, product, transposed, Grid};
use crate::matrix44::Matrix44;
use crate::transformable::Transformable;
use crate::value::Value;
use crate::vector3::Vector3;

verus! {

/// The matrix that moves a point by `(dx, dy, dz)`.
pub open spec fn translation_grid<T: Value>(dx: T, dy: T, dz: T) -> Grid<T> {
    seq![
        seq![T::unit(), T::nil(), T::nil(), dx],
        seq![T::nil(), T::unit(), T::nil(), dy],
        seq![T::nil(), T::nil(), T::unit(), dz],
        seq![T::nil(), T::nil(), T::nil(), T::unit()],
    ]
}

/// The matrix that scales the three axes by `x`, `y` and `z`.
pub open spec fn scaling_grid<T: Value>(x: T, y: T, z: T) -> Grid<T> {
    seq![
        seq![x, T::nil(), T::nil(), T::nil()],
        seq![T::nil(), y, T::nil(), T::nil()],
        seq![T::nil(), T::nil(), z, T::nil()],
        seq![T::nil(), T::nil(), T::nil(), T::unit()],
    ]
}

/// The inverse that elimination finds for `m`, and the identity where it finds none.
pub open spec fn inverse_or_identity<T: Value>(m: Grid<T>) -> Grid<T> {
    match inverted(m) {
        Some(g) => g,
        None => identity_grid(),
    }
}

#[derive(Clone, Copy, Debug)]
pub struct Transform<T: Value> {
    pub m: Matrix44<T>,
    pub m_inv: Matrix44<T>,
}

impl<T: Value> Transform<T> {
    pub open spec fn compose_req(self, other: Self) -> bool {
        can_multiply(self.m@, other.m@) && can_multiply(other.m_inv@, self.m_inv@)
    }

    /// The transform that applies `other` and then `self`: its matrix is
    /// `self.m · other.m`, its inverse `other.m_inv · self.m_inv`.
    pub open spec fn compose(self, other: Self) -> Self {
        Transform {
            m: Matrix44::of(product(self.m@, other.m@)),
            m_inv: Matrix44::of(product(other.m_inv@, self.m_inv@)),
        }
    }

    /// The transform that changes nothing.
    pub fn new() -> (r: Self)
        ensures
            r.m@ == identity_grid::<T>(),
            r.m_inv@ == identity_grid::<T>(),
    {
        Self { m: Matrix44::identity(), m_inv: Matrix44::identity() }
    }

    /// The translation by `delta`, with the translation by its negation as inverse.
    pub fn translate(delta: Vector3<T>) -> (r: Self)
        requires
            delta.x.can_neg(),
            delta.y.can_neg(),
            delta.z.can_neg(),
        ensures
            r.m@ == translation_grid(delta.x, delta.y, delta.z),
            r.m_inv@ == translation_grid(
                delta.x.negated(),
                delta.y.negated(),
                delta.z.negated(),
            ),
    {
        let o = T::zero();
        let l = T::one();
        Self {
            m: Matrix44::new(l, o, o, delta.x, o, l, o, delta.y, o, o, l, delta.z, o, o, o, l),
            m_inv: Matrix44::new(
                l,
                o,
                o,
                delta.x.neg(),
                o,
                l,
                o,
                delta.y.neg(),
                o,
                o,
                l,
                delta.z.neg(),
                o,
                o,
                o,
                l,
            ),
        }
    }

    /// The scaling by `x`, `y` and `z`, with the scaling by their reciprocals as inverse.
    pub fn scale(x: T, y: T, z: T) -> (r: Self)
        requires
            T::unit().can_div(x),
            T::unit().can_div(y),
            T::unit().can_div(z),
        ensures
            r.m@ == scaling_grid(x, y, z),
            r.m_inv@ == scaling_grid(T::unit().over(x), T::unit().over(y), T::unit().over(z)),
    {
        let o = T::zero();
        let l = T::one();
        Self {
            m: Matrix44::new(x, o, o, o, o, y, o, o, o, o, z, o, o, o, o, l),
            m_inv: Matrix44::new(
                l.div(x),
                o,
                o,
                o,
                o,
                l.div(y),
                o,
                o,
                o,
                o,
                l.div(z),
                o,
                o,
                o,
                o,
                l,
            ),
        }
    }

    /// The transform of the matrix `m`; its inverse is computed here, and is
    /// the identity where `m` is singular.
    pub fn from_matrix(m: Matrix44<T>) -> (r: Self)
        requires
            can_invert(m@),
        ensures
            r.m == m,
            r.m_inv@ == inverse_or_identity(m@),
    {
        Self { m, m_inv: m.inverse() }
    }

    /// The transform of the matrix whose rows are the four arrays.
    pub fn from_array(array: [[T; 4]; 4]) -> (r: Self)
        requires
            can_invert(Seq::new(4, |i: int| array[i]@)),
        ensures
            r.m@ == Seq::new(4, |i: int| array[i]@),
            r.m_inv@ == inverse_or_identity(r.m@),
    {
        Self::from_matrix(Matrix44::new_from_array(array))
    }

    /// The transform with matrix and inverse exchanged.
    pub fn inverse(self) -> (r: Self)
        ensures
            r.m == self.m_inv,
            r.m_inv == self.m,
    {
        Self { m: self.m_inv, m_inv: self.m }
    }

    /// The transform whose two matrices are the transposes of those of `self`.
    pub fn transpose(self) -> (r: Self)
        ensures
            r.m@ == transposed(self.m@),
            r.m_inv@ == transposed(self.m_inv@),
    {
        Self { m: self.m.transpose(), m_inv: self.m_inv.transpose() }
    }

    /// `transformable` carried through this transform, by its own rule.
    pub fn transform<U: Transformable<T>>(self, transformable: U) -> (r: U)
        requires
            transformable.transform_req(self),
        ensures
            r == transformable.transform_spec(self),
    {
        transformable.transform(self)
    }
}

impl<T: Value> From<(Matrix44<T>, Matrix44<T>)> for Transform<T> {
    /// The transform of a matrix and the inverse that the caller vouches for.
    fn from(pair: (Matrix44<T>, Matrix44<T>)) -> (r: Self) {
        Self { m: pair.0, m_inv: pair.1 }
    }
}

impl<T: Value> vstd::std_specs::convert::FromSpecImpl<(Matrix44<T>, Matrix44<T>)> for Transform<T> {
    open spec fn obeys_from_spec() -> bool {
        true
    }

    open spec fn from_spec(pair: (Matrix44<T>, Matrix44<T>)) -> Self {
        Transform { m: pair.0, m_inv: pair.1 }
    }
}

impl<T: Value> std::ops::Mul for Transform<T> {
    type Output = Self;

    /// The transform that applies `other` and then `self`.
    fn mul(self, other: Self) -> (r: Self) {
        let m = self.m.mul(other.m);
        let m_inv = other.m_inv.mul(self.m_inv);
        proof {
            m.lemma_shape();
            m_inv.lemma_shape();
            Matrix44::<T>::lemma_of(m@);
            Matrix44::<T>::lemma_of(m_inv@);
            m.lemma_view_decides(Matrix44::of(m@));
            m_inv.lemma_view_decides(Matrix44::of(m_inv@));
        }
        Self { m, m_inv }
    }
}

impl<T: Value> vstd::std_specs::ops::MulSpecImpl for Transform<T> {
    open spec fn obeys_mul_spec() -> bool {
        true
    }

    open spec fn mul_req(self, other: Self) -> bool {
        self.compose_req(other)
    }

    open spec fn mul_spec(self, other: Self) -> Self {
        self.compose(other)
    }
}

} // verus!
