use vstd::prelude::*;

use crate::quantity::{
    Quantity, QuantityDiv, QuantityMul, add_quantities, div_quantities, in_range, mul_quantities,
    neg_quantity, rem_quantities, sub_quantities, trunc_div, trunc_rem, wide_product,
};

verus! {

/// A pair of quantities of one dimension: index 0 is `x`, index 1 is `y`.
#[derive(Clone, Copy, Debug, PartialEq, Eq, Structural)]
pub struct Vector2D<T> {
    pub x: T,
    pub y: T,
}

/// Whether both coordinates of a planar vector fit in a quantity's count.
pub open spec fn fits(v: (int, int)) -> bool {
    in_range(v.0) && in_range(v.1)
}

pub open spec fn planar_add(a: (int, int), b: (int, int)) -> (int, int) {
    (a.0 + b.0, a.1 + b.1)
}

pub open spec fn planar_sub(a: (int, int), b: (int, int)) -> (int, int) {
    (a.0 - b.0, a.1 - b.1)
}

pub open spec fn planar_neg(a: (int, int)) -> (int, int) {
    (-a.0, -a.1)
}

pub open spec fn planar_scale(a: (int, int), s: int) -> (int, int) {
    (a.0 * s, a.1 * s)
}

pub open spec fn planar_div(a: (int, int), s: int) -> (int, int) {
    (trunc_div(a.0, s), trunc_div(a.1, s))
}

pub open spec fn planar_rem(a: (int, int), s: int) -> (int, int) {
    (trunc_rem(a.0, s), trunc_rem(a.1, s))
}

pub open spec fn planar_dot(a: (int, int), b: (int, int)) -> int {
    a.0 * b.0 + a.1 * b.1
}

/// The scalar cross product of the plane, `x1 * y2 - y1 * x2`.
pub open spec fn planar_cross(a: (int, int), b: (int, int)) -> int {
    a.0 * b.1 - a.1 * b.0
}

/// The componentwise product.
pub open spec fn planar_hadamard(a: (int, int), b: (int, int)) -> (int, int) {
    (a.0 * b.0, a.1 * b.1)
}

/// The coordinate at an index of 0 or 1.
pub open spec fn planar_index(a: (int, int), i: int) -> int {
    if i == 0 {
        a.0
    } else {
        a.1
    }
}

impl<T: Quantity> View for Vector2D<T> {
    type V = (int, int);

    /// The counts of the two coordinates.
    open spec fn view(&self) -> (int, int) {
        (self.x.spec_count(), self.y.spec_count())
    }
}

impl<T> Vector2D<T> {
    pub fn new(x: T, y: T) -> (r: Self)
        ensures
            r.x == x,
            r.y == y,
    {
        Self { x, y }
    }
}

impl<T: Quantity> Vector2D<T> {
    pub fn add(self, rhs: Vector2D<T>) -> (r: Vector2D<T>)
        requires
            fits(planar_add(self@, rhs@)),
        ensures
            r@ == planar_add(self@, rhs@),
    {
        Vector2D { x: add_quantities(self.x, rhs.x), y: add_quantities(self.y, rhs.y) }
    }

    pub fn sub(self, rhs: Vector2D<T>) -> (r: Vector2D<T>)
        requires
            fits(planar_sub(self@, rhs@)),
        ensures
            r@ == planar_sub(self@, rhs@),
    {
        Vector2D { x: sub_quantities(self.x, rhs.x), y: sub_quantities(self.y, rhs.y) }
    }

    pub fn neg(self) -> (r: Vector2D<T>)
        requires
            fits(planar_neg(self@)),
        ensures
            r@ == planar_neg(self@),
    {
        Vector2D { x: neg_quantity(self.x), y: neg_quantity(self.y) }
    }

    /// Scales both coordinates by a quantity; the dimension becomes the product's.
    pub fn mul<S: Quantity>(self, rhs: S) -> (r: Vector2D<<T as QuantityMul<S>>::Output>) where
        T: QuantityMul<S>,
        requires
            fits(planar_scale(self@, rhs.spec_count())),
        ensures
            r@ == planar_scale(self@, rhs.spec_count()),
    {
        Vector2D { x: mul_quantities(self.x, rhs), y: mul_quantities(self.y, rhs) }
    }

    /// Divides both coordinates by a quantity, rounding toward zero; the
    /// dimension becomes the quotient's.
    pub fn div<S: Quantity>(self, rhs: S) -> (r: Vector2D<<T as QuantityDiv<S>>::Output>) where
        T: QuantityDiv<S>,
        requires
            rhs.spec_count() != 0,
            fits(planar_div(self@, rhs.spec_count())),
        ensures
            r@ == planar_div(self@, rhs.spec_count()),
    {
        Vector2D { x: div_quantities(self.x, rhs), y: div_quantities(self.y, rhs) }
    }

    /// The remainders of both coordinates by a quantity of their dimension.
    pub fn rem(self, rhs: T) -> (r: Vector2D<T>)
        requires
            rhs.spec_count() != 0,
        ensures
            r@ == planar_rem(self@, rhs.spec_count()),
    {
        Vector2D { x: rem_quantities(self.x, rhs), y: rem_quantities(self.y, rhs) }
    }

    /// The coordinate at `index`: `x` at 0, `y` at 1.
    pub fn index(&self, index: usize) -> (r: &T)
        requires
            index < 2,
        ensures
            index == 0 ==> *r == self.x,
            index == 1 ==> *r == self.y,
    {
        if index == 0 {
            &self.x
        } else {
            &self.y
        }
    }

    /// Replaces the coordinate at `index`: `x` at 0, `y` at 1.
    pub fn index_mut(&mut self, index: usize, value: T)
        requires
            index < 2,
        ensures
            index == 0 ==> *final(self) == (Vector2D { x: value, y: old(self).y }),
            index == 1 ==> *final(self) == (Vector2D { x: old(self).x, y: value }),
    {
        if index == 0 {
            self.x = value;
        } else {
            self.y = value;
        }
    }

    pub fn add_assign(&mut self, rhs: Vector2D<T>)
        requires
            fits(planar_add(old(self)@, rhs@)),
        ensures
            final(self)@ == planar_add(old(self)@, rhs@),
    {
        *self = self.add(rhs);
    }

    pub fn sub_assign(&mut self, rhs: Vector2D<T>)
        requires
            fits(planar_sub(old(self)@, rhs@)),
        ensures
            final(self)@ == planar_sub(old(self)@, rhs@),
    {
        *self = self.sub(rhs);
    }

    /// Scales in place by a quantity that keeps the dimension (a plain number).
    pub fn mul_assign<S: Quantity>(&mut self, rhs: S) where T: QuantityMul<S, Output = T>,
        requires
            fits(planar_scale(old(self)@, rhs.spec_count())),
        ensures
            final(self)@ == planar_scale(old(self)@, rhs.spec_count()),
    {
        *self = self.mul(rhs);
    }

    /// Divides in place by a quantity that keeps the dimension (a plain number).
    pub fn div_assign<S: Quantity>(&mut self, rhs: S) where T: QuantityDiv<S, Output = T>,
        requires
            rhs.spec_count() != 0,
            fits(planar_div(old(self)@, rhs.spec_count())),
        ensures
            final(self)@ == planar_div(old(self)@, rhs.spec_count()),
    {
        *self = self.div(rhs);
    }

    /// Replaces each coordinate by its remainder by the matching coordinate of `rhs`.
    pub fn rem_assign(&mut self, rhs: Vector2D<T>)
        requires
            rhs@.0 != 0,
            rhs@.1 != 0,
        ensures
            final(self)@ == (trunc_rem(old(self)@.0, rhs@.0), trunc_rem(old(self)@.1, rhs@.1)),
    {
        *self = Vector2D { x: rem_quantities(self.x, rhs.x), y: rem_quantities(self.y, rhs.y) };
    }
}

/// The products of two planar vectors.
pub trait Vector2DOperations<TRhs: Quantity>: Sized {
    /// The dimension of a product of a coordinate of `Self` by one of `TRhs`.
    type OutputCrossAndDot: Quantity;

    /// The counts of the two coordinates of `self`.
    spec fn planar(self) -> (int, int);

    fn dot(self, rhs: Vector2D<TRhs>) -> (r: Self::OutputCrossAndDot)
        requires
            in_range(planar_dot(self.planar(), rhs@)),
        ensures
            r.spec_count() == planar_dot(self.planar(), rhs@),
    ;

    fn cross(self, rhs: Vector2D<TRhs>) -> (r: Self::OutputCrossAndDot)
        requires
            in_range(planar_cross(self.planar(), rhs@)),
        ensures
            r.spec_count() == planar_cross(self.planar(), rhs@),
    ;

    fn hadamard(self, rhs: Vector2D<TRhs>) -> (r: Vector2D<Self::OutputCrossAndDot>)
        requires
            fits(planar_hadamard(self.planar(), rhs@)),
        ensures
            r@ == planar_hadamard(self.planar(), rhs@),
    ;
}

impl<TLhs: QuantityMul<TRhs>, TRhs: Quantity> Vector2DOperations<TRhs> for Vector2D<TLhs> {
    type OutputCrossAndDot = <TLhs as QuantityMul<TRhs>>::Output;

    open spec fn planar(self) -> (int, int) {
        self@
    }

    fn dot(self, rhs: Vector2D<TRhs>) -> (r: Self::OutputCrossAndDot) {
        let xx = wide_product(self.x.count(), rhs.x.count());
        let yy = wide_product(self.y.count(), rhs.y.count());
        Self::OutputCrossAndDot::from_count((xx + yy) as i64)
    }

    fn cross(self, rhs: Vector2D<TRhs>) -> (r: Self::OutputCrossAndDot) {
        let xy = wide_product(self.x.count(), rhs.y.count());
        let yx = wide_product(self.y.count(), rhs.x.count());
        Self::OutputCrossAndDot::from_count((xy - yx) as i64)
    }

    fn hadamard(self, rhs: Vector2D<TRhs>) -> (r: Vector2D<Self::OutputCrossAndDot>) {
        Vector2D { x: mul_quantities(self.x, rhs.x), y: mul_quantities(self.y, rhs.y) }
    }
}

/// The dot product does not depend on the order of its operands.
pub proof fn lemma_dot_commutes<T: Quantity, S: Quantity>(a: Vector2D<T>, b: Vector2D<S>)
    ensures
        planar_dot(a@, b@) == planar_dot(b@, a@),
{
    assert(a@.0 * b@.0 == b@.0 * a@.0) by (nonlinear_arith);
    assert(a@.1 * b@.1 == b@.1 * a@.1) by (nonlinear_arith);
}

/// The cross product of a vector with itself is zero.
pub proof fn lemma_cross_self_is_zero<T: Quantity>(a: Vector2D<T>)
    ensures
        planar_cross(a@, a@) == 0,
{
    assert(a@.0 * a@.1 == a@.1 * a@.0) by (nonlinear_arith);
}

/// The Hadamard product does not depend on the order of its operands.
pub proof fn lemma_hadamard_commutes<T: Quantity, S: Quantity>(a: Vector2D<T>, b: Vector2D<S>)
    ensures
        planar_hadamard(a@, b@) == planar_hadamard(b@, a@),
{
    assert(a@.0 * b@.0 == b@.0 * a@.0) by (nonlinear_arith);
    assert(a@.1 * b@.1 == b@.1 * a@.1) by (nonlinear_arith);
}

/// The Hadamard product distributes over vector addition:
/// `a ∘ (b + c) == a ∘ b + a ∘ c`.
pub proof fn lemma_hadamard_distributes_over_add<T: Quantity, S: Quantity>(
    a: Vector2D<T>,
    b: Vector2D<S>,
    c: Vector2D<S>,
)
    ensures
        planar_hadamard(a@, planar_add(b@, c@)) == planar_add(
            planar_hadamard(a@, b@),
            planar_hadamard(a@, c@),
        ),
{
    assert(a@.0 * (b@.0 + c@.0) == a@.0 * b@.0 + a@.0 * c@.0) by (nonlinear_arith);
    assert(a@.1 * (b@.1 + c@.1) == a@.1 * b@.1 + a@.1 * c@.1) by (nonlinear_arith);
}

} // verus!
