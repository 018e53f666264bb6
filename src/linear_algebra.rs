use vstd::prelude::*;

use crate::quantity::{
    Quantity, QuantityDiv, QuantityMul, add_quantities, div_quantities, in_range, mul_quantities,
    neg_quantity, rem_quantities, sub_quantities, trunc_div, trunc_rem, wide_product,
};

verus! {

/// The counts of a fixed-size array of quantities.
pub open spec fn counts_of<T: Quantity, const N: usize>(data: [T; N]) -> Seq<int> {
    data@.map_values(|q: T| q.spec_count())
}

/// The sum of the products of the first `n` pairs of coordinates.
pub open spec fn partial_dot(a: Seq<int>, b: Seq<int>, n: int) -> int
    decreases n,
{
    if n <= 0 {
        0
    } else {
        partial_dot(a, b, n - 1) + a[n - 1] * b[n - 1]
    }
}

/// A vector of `N` quantities of one dimension.
#[derive(Clone, Copy, Debug, PartialEq, Eq)]
pub struct VectorND<T, const N: usize> {
    pub data: [T; N],
}

impl<T: Quantity, const N: usize> View for VectorND<T, N> {
    type V = Seq<int>;

    /// The counts of the coordinates.
    open spec fn view(&self) -> Seq<int> {
        counts_of(self.data)
    }
}

impl<T, const N: usize> VectorND<T, N> {
    pub fn new(data: [T; N]) -> (r: Self)
        ensures
            r.data == data,
    {
        VectorND { data }
    }
}

/// The vector whose coordinates are all zero.
impl<T: Quantity, const N: usize> Default for VectorND<T, N> {
    fn default() -> (r: Self)
        ensures
            forall|i: int| 0 <= i < N ==> r@[i] == 0,
    {
        VectorND { data: vstd::array::array_fill_for_copy_types(T::from_count(0)) }
    }
}

impl<T: Quantity, const N: usize> VectorND<T, N> {
    pub fn add(self, rhs: VectorND<T, N>) -> (r: VectorND<T, N>)
        requires
            forall|i: int| 0 <= i < N ==> in_range(self@[i] + rhs@[i]),
        ensures
            forall|i: int| 0 <= i < N ==> r@[i] == self@[i] + rhs@[i],
    {
        let mut data = self.data;
        let mut i: usize = 0;
        while i < N
            invariant
                i <= N,
                forall|j: int| 0 <= j < N ==> in_range(self@[j] + rhs@[j]),
                forall|j: int| 0 <= j < i ==> data@[j].spec_count() == self@[j] + rhs@[j],
            decreases N - i,
        {
            assert(self@[i as int] == self.data@[i as int].spec_count());
            assert(rhs@[i as int] == rhs.data@[i as int].spec_count());
            data[i] = add_quantities(self.data[i], rhs.data[i]);
            i = i + 1;
        }
        VectorND { data }
    }

    pub fn sub(self, rhs: VectorND<T, N>) -> (r: VectorND<T, N>)
        requires
            forall|i: int| 0 <= i < N ==> in_range(self@[i] - rhs@[i]),
        ensures
            forall|i: int| 0 <= i < N ==> r@[i] == self@[i] - rhs@[i],
    {
        let mut data = self.data;
        let mut i: usize = 0;
        while i < N
            invariant
                i <= N,
                forall|j: int| 0 <= j < N ==> in_range(self@[j] - rhs@[j]),
                forall|j: int| 0 <= j < i ==> data@[j].spec_count() == self@[j] - rhs@[j],
            decreases N - i,
        {
            assert(self@[i as int] == self.data@[i as int].spec_count());
            assert(rhs@[i as int] == rhs.data@[i as int].spec_count());
            data[i] = sub_quantities(self.data[i], rhs.data[i]);
            i = i + 1;
        }
        VectorND { data }
    }

    pub fn neg(self) -> (r: VectorND<T, N>)
        requires
            forall|i: int| 0 <= i < N ==> in_range(-self@[i]),
        ensures
            forall|i: int| 0 <= i < N ==> r@[i] == -self@[i],
    {
        let mut data = self.data;
        let mut i: usize = 0;
        while i < N
            invariant
                i <= N,
                forall|j: int| 0 <= j < N ==> in_range(-self@[j]),
                forall|j: int| 0 <= j < i ==> data@[j].spec_count() == -self@[j],
            decreases N - i,
        {
            assert(self@[i as int] == self.data@[i as int].spec_count());
            data[i] = neg_quantity(self.data[i]);
            i = i + 1;
        }
        VectorND { data }
    }

    /// Scales every coordinate by a quantity; the dimension becomes the product's.
    pub fn mul<S: Quantity>(self, rhs: S) -> (r: VectorND<<T as QuantityMul<S>>::Output, N>) where
        T: QuantityMul<S>,
        requires
            forall|i: int| 0 <= i < N ==> in_range(self@[i] * rhs.spec_count()),
        ensures
            forall|i: int| 0 <= i < N ==> r@[i] == self@[i] * rhs.spec_count(),
    {
        let mut data = vstd::array::array_fill_for_copy_types(
            <T as QuantityMul<S>>::Output::from_count(0),
        );
        let mut i: usize = 0;
        while i < N
            invariant
                i <= N,
                forall|j: int| 0 <= j < N ==> in_range(self@[j] * rhs.spec_count()),
                forall|j: int| 0 <= j < i ==> data@[j].spec_count() == self@[j] * rhs.spec_count(),
            decreases N - i,
        {
            assert(self@[i as int] == self.data@[i as int].spec_count());
            data[i] = mul_quantities(self.data[i], rhs);
            i = i + 1;
        }
        VectorND { data }
    }

    /// Divides every coordinate by a quantity, rounding toward zero; the
    /// dimension becomes the quotient's.
    pub fn div<S: Quantity>(self, rhs: S) -> (r: VectorND<<T as QuantityDiv<S>>::Output, N>) where
        T: QuantityDiv<S>,
        requires
            rhs.spec_count() != 0,
            forall|i: int| 0 <= i < N ==> in_range(trunc_div(self@[i], rhs.spec_count())),
        ensures
            forall|i: int| 0 <= i < N ==> r@[i] == trunc_div(self@[i], rhs.spec_count()),
    {
        let mut data = vstd::array::array_fill_for_copy_types(
            <T as QuantityDiv<S>>::Output::from_count(0),
        );
        let mut i: usize = 0;
        while i < N
            invariant
                i <= N,
                rhs.spec_count() != 0,
                forall|j: int| 0 <= j < N ==> in_range(trunc_div(self@[j], rhs.spec_count())),
                forall|j: int|
                    0 <= j < i ==> data@[j].spec_count() == trunc_div(self@[j], rhs.spec_count()),
            decreases N - i,
        {
            assert(self@[i as int] == self.data@[i as int].spec_count());
            data[i] = div_quantities(self.data[i], rhs);
            i = i + 1;
        }
        VectorND { data }
    }

    /// The remainders of every coordinate by a quantity of their dimension.
    pub fn rem(self, rhs: T) -> (r: VectorND<T, N>)
        requires
            rhs.spec_count() != 0,
        ensures
            forall|i: int| 0 <= i < N ==> r@[i] == trunc_rem(self@[i], rhs.spec_count()),
    {
        let mut data = self.data;
        let mut i: usize = 0;
        while i < N
            invariant
                i <= N,
                rhs.spec_count() != 0,
                forall|j: int|
                    0 <= j < i ==> data@[j].spec_count() == trunc_rem(self@[j], rhs.spec_count()),
            decreases N - i,
        {
            assert(self@[i as int] == self.data@[i as int].spec_count());
            data[i] = rem_quantities(self.data[i], rhs);
            i = i + 1;
        }
        VectorND { data }
    }

    /// The coordinate at `index`.
    pub fn index(&self, index: usize) -> (r: &T)
        requires
            index < N,
        ensures
            *r == self.data@[index as int],
    {
        &self.data[index]
    }

    /// Replaces the coordinate at `index`.
    pub fn index_mut(&mut self, index: usize, value: T)
        requires
            index < N,
        ensures
            final(self).data@ == old(self).data@.update(index as int, value),
    {
        self.data[index] = value;
    }

    pub fn add_assign(&mut self, rhs: VectorND<T, N>)
        requires
            forall|i: int| 0 <= i < N ==> in_range(old(self)@[i] + rhs@[i]),
        ensures
            forall|i: int| 0 <= i < N ==> final(self)@[i] == old(self)@[i] + rhs@[i],
    {
        *self = self.add(rhs);
    }

    pub fn sub_assign(&mut self, rhs: VectorND<T, N>)
        requires
            forall|i: int| 0 <= i < N ==> in_range(old(self)@[i] - rhs@[i]),
        ensures
            forall|i: int| 0 <= i < N ==> final(self)@[i] == old(self)@[i] - rhs@[i],
    {
        *self = self.sub(rhs);
    }

    /// Scales in place by a quantity that keeps the dimension (a plain number).
    pub fn mul_assign<S: Quantity>(&mut self, rhs: S) where T: QuantityMul<S, Output = T>,
        requires
            forall|i: int| 0 <= i < N ==> in_range(old(self)@[i] * rhs.spec_count()),
        ensures
            forall|i: int| 0 <= i < N ==> final(self)@[i] == old(self)@[i] * rhs.spec_count(),
    {
        *self = self.mul(rhs);
    }

    /// Divides in place by a quantity that keeps the dimension (a plain number).
    pub fn div_assign<S: Quantity>(&mut self, rhs: S) where T: QuantityDiv<S, Output = T>,
        requires
            rhs.spec_count() != 0,
            forall|i: int| 0 <= i < N ==> in_range(trunc_div(old(self)@[i], rhs.spec_count())),
        ensures
            forall|i: int|
                0 <= i < N ==> final(self)@[i] == trunc_div(old(self)@[i], rhs.spec_count()),
    {
        *self = self.div(rhs);
    }

    pub fn rem_assign(&mut self, rhs: T)
        requires
            rhs.spec_count() != 0,
        ensures
            forall|i: int|
                0 <= i < N ==> final(self)@[i] == trunc_rem(old(self)@[i], rhs.spec_count()),
    {
        *self = self.rem(rhs);
    }

    /// The coordinatewise product with another vector.
    fn mul_pointwise<S: Quantity>(self, rhs: VectorND<S, N>) -> (r: VectorND<
        <T as QuantityMul<S>>::Output,
        N,
    >) where T: QuantityMul<S>,
        requires
            forall|i: int| 0 <= i < N ==> in_range(self@[i] * rhs@[i]),
        ensures
            forall|i: int| 0 <= i < N ==> r@[i] == self@[i] * rhs@[i],
    {
        let mut data = vstd::array::array_fill_for_copy_types(
            <T as QuantityMul<S>>::Output::from_count(0),
        );
        let mut i: usize = 0;
        while i < N
            invariant
                i <= N,
                forall|j: int| 0 <= j < N ==> in_range(self@[j] * rhs@[j]),
                forall|j: int| 0 <= j < i ==> data@[j].spec_count() == self@[j] * rhs@[j],
            decreases N - i,
        {
            assert(self@[i as int] == self.data@[i as int].spec_count());
            assert(rhs@[i as int] == rhs.data@[i as int].spec_count());
            data[i] = mul_quantities(self.data[i], rhs.data[i]);
            i = i + 1;
        }
        VectorND { data }
    }

    /// The coordinatewise quotient by another vector, rounded toward zero.
    fn div_pointwise<S: Quantity>(self, rhs: VectorND<S, N>) -> (r: VectorND<
        <T as QuantityDiv<S>>::Output,
        N,
    >) where T: QuantityDiv<S>,
        requires
            forall|i: int| 0 <= i < N ==> rhs@[i] != 0,
            forall|i: int| 0 <= i < N ==> in_range(trunc_div(self@[i], rhs@[i])),
        ensures
            forall|i: int| 0 <= i < N ==> r@[i] == trunc_div(self@[i], rhs@[i]),
    {
        let mut data = vstd::array::array_fill_for_copy_types(
            <T as QuantityDiv<S>>::Output::from_count(0),
        );
        let mut i: usize = 0;
        while i < N
            invariant
                i <= N,
                forall|j: int| 0 <= j < N ==> rhs@[j] != 0,
                forall|j: int| 0 <= j < N ==> in_range(trunc_div(self@[j], rhs@[j])),
                forall|j: int| 0 <= j < i ==> data@[j].spec_count() == trunc_div(self@[j], rhs@[j]),
            decreases N - i,
        {
            assert(self@[i as int] == self.data@[i as int].spec_count());
            assert(rhs@[i as int] == rhs.data@[i as int].spec_count());
            data[i] = div_quantities(self.data[i], rhs.data[i]);
            i = i + 1;
        }
        VectorND { data }
    }

    /// The coordinatewise remainders by another vector of the same dimension.
    fn rem_pointwise(self, rhs: VectorND<T, N>) -> (r: VectorND<T, N>)
        requires
            forall|i: int| 0 <= i < N ==> rhs@[i] != 0,
        ensures
            forall|i: int| 0 <= i < N ==> r@[i] == trunc_rem(self@[i], rhs@[i]),
    {
        let mut data = self.data;
        let mut i: usize = 0;
        while i < N
            invariant
                i <= N,
                forall|j: int| 0 <= j < N ==> rhs@[j] != 0,
                forall|j: int| 0 <= j < i ==> data@[j].spec_count() == trunc_rem(self@[j], rhs@[j]),
            decreases N - i,
        {
            assert(self@[i as int] == self.data@[i as int].spec_count());
            assert(rhs@[i as int] == rhs.data@[i as int].spec_count());
            data[i] = rem_quantities(self.data[i], rhs.data[i]);
            i = i + 1;
        }
        VectorND { data }
    }
}

/// The dot product of `N`-dimensional vectors.
pub trait DotProduct<TRhs: Quantity, const N: usize>: Sized {
    /// The dimension of a product of a coordinate of `Self` by one of `TRhs`.
    type OutputCrossAndDot: Quantity;

    /// The counts of the coordinates of `self`.
    spec fn coordinates(self) -> Seq<int>;

    fn dot(self, rhs: VectorND<TRhs, N>) -> (r: Self::OutputCrossAndDot)
        requires
            forall|k: int| 0 <= k <= N ==> in_range(partial_dot(self.coordinates(), rhs@, k)),
        ensures
            r.spec_count() == partial_dot(self.coordinates(), rhs@, N as int),
    ;
}

impl<TLhs: QuantityMul<TRhs>, TRhs: Quantity, const N: usize> DotProduct<TRhs, N> for VectorND<
    TLhs,
    N,
> {
    type OutputCrossAndDot = <TLhs as QuantityMul<TRhs>>::Output;

    open spec fn coordinates(self) -> Seq<int> {
        self@
    }

    fn dot(self, rhs: VectorND<TRhs, N>) -> (r: Self::OutputCrossAndDot) {
        let mut sum: i64 = 0;
        let mut i: usize = 0;
        while i < N
            invariant
                i <= N,
                forall|k: int| 0 <= k <= N ==> in_range(partial_dot(self.coordinates(), rhs@, k)),
                sum as int == partial_dot(self.coordinates(), rhs@, i as int),
            decreases N - i,
        {
            assert(self.coordinates()[i as int] == self.data@[i as int].spec_count());
            assert(rhs@[i as int] == rhs.data@[i as int].spec_count());
            let p = wide_product(self.data[i].count(), rhs.data[i].count());
            assert(in_range(partial_dot(self.coordinates(), rhs@, i + 1)));
            sum = (sum as i128 + p) as i64;
            i = i + 1;
        }
        Self::OutputCrossAndDot::from_count(sum)
    }
}

/// A matrix of `M` rows of `N` quantities of one dimension.
#[derive(Clone, Copy, Debug, PartialEq, Eq)]
pub struct MatrixNMD<T, const N: usize, const M: usize> {
    data: [[T; N]; M],
}

impl<T, const N: usize, const M: usize> MatrixNMD<T, N, M> {
    pub fn new(data: [[T; N]; M]) -> (r: Self)
        ensures
            r.rows() == data,
    {
        MatrixNMD { data }
    }

    /// The rows of the matrix.
    pub closed spec fn rows(self) -> [[T; N]; M] {
        self.data
    }
}

impl<T: Quantity, const N: usize, const M: usize> MatrixNMD<T, N, M> {
    /// The count of the entry at `row`, `column`.
    pub open spec fn entry(self, row: int, column: int) -> int {
        self.rows()@[row]@[column].spec_count()
    }

    /// The entry at `row`, `column`.
    pub fn get(&self, row: usize, column: usize) -> (r: T)
        requires
            row < M,
            column < N,
        ensures
            r.spec_count() == self.entry(row as int, column as int),
    {
        self.data[row][column]
    }

    /// The entrywise sum.
    pub fn add(self, rhs: MatrixNMD<T, N, M>) -> (r: MatrixNMD<T, N, M>)
        requires
            forall|i: int, j: int| 0 <= i < M && 0 <= j < N ==> in_range(self.entry(i, j) + rhs.entry(i, j)),
        ensures
            forall|i: int, j: int| 0 <= i < M && 0 <= j < N ==> r.entry(i, j) == self.entry(i, j) + rhs.entry(i, j),
    {
        let mut data = self.data;
        let mut row: usize = 0;
        while row < M
            invariant
                row <= M,
                forall|i: int, j: int| 0 <= i < M && 0 <= j < N ==> in_range(self.entry(i, j) + rhs.entry(i, j)),
                forall|i: int, j: int|
                    0 <= i < row && 0 <= j < N ==> data@[i]@[j].spec_count() == self.entry(i, j) + rhs.entry(i, j),
            decreases M - row,
        {
            let a = VectorND { data: self.data[row] };
            let b = VectorND { data: rhs.data[row] };
            assert forall|j: int| 0 <= j < N implies a@[j] == self.entry(row as int, j) && b@[j] == rhs.entry(row as int, j) && in_range(a@[j] + b@[j]) by {
                assert(in_range(self.entry(row as int, j) + rhs.entry(row as int, j)));
            }
            let out = a.add(b);
            data[row] = out.data;
            assert forall|j: int|
                0 <= j < N implies data@[row as int]@[j].spec_count() == self.entry(row as int, j) + rhs.entry(row as int, j) by {
                assert(out@[j] == out.data@[j].spec_count());
            }
            row = row + 1;
        }
        MatrixNMD { data }
    }

    /// The entrywise product; the dimension becomes the product's.
    pub fn mul<S: Quantity>(self, rhs: MatrixNMD<S, N, M>) -> (r: MatrixNMD<<T as QuantityMul<S>>::Output, N, M>) where T: QuantityMul<S>,
        requires
            forall|i: int, j: int| 0 <= i < M && 0 <= j < N ==> in_range(self.entry(i, j) * rhs.entry(i, j)),
        ensures
            forall|i: int, j: int| 0 <= i < M && 0 <= j < N ==> r.entry(i, j) == self.entry(i, j) * rhs.entry(i, j),
    {
        let mut data = vstd::array::array_fill_for_copy_types(
            vstd::array::array_fill_for_copy_types(<T as QuantityMul<S>>::Output::from_count(0)),
        );
        let mut row: usize = 0;
        while row < M
            invariant
                row <= M,
                forall|i: int, j: int| 0 <= i < M && 0 <= j < N ==> in_range(self.entry(i, j) * rhs.entry(i, j)),
                forall|i: int, j: int|
                    0 <= i < row && 0 <= j < N ==> data@[i]@[j].spec_count() == self.entry(i, j) * rhs.entry(i, j),
            decreases M - row,
        {
            let a = VectorND { data: self.data[row] };
            let b = VectorND { data: rhs.data[row] };
            assert forall|j: int| 0 <= j < N implies a@[j] == self.entry(row as int, j) && b@[j] == rhs.entry(row as int, j) && in_range(a@[j] * b@[j]) by {
                assert(in_range(self.entry(row as int, j) * rhs.entry(row as int, j)));
            }
            let out = a.mul_pointwise(b);
            data[row] = out.data;
            assert forall|j: int|
                0 <= j < N implies data@[row as int]@[j].spec_count() == self.entry(row as int, j) * rhs.entry(row as int, j) by {
                assert(out@[j] == out.data@[j].spec_count());
            }
            row = row + 1;
        }
        MatrixNMD { data }
    }

    /// The entrywise quotient, rounded toward zero; the dimension becomes the quotient's.
    pub fn div<S: Quantity>(self, rhs: MatrixNMD<S, N, M>) -> (r: MatrixNMD<<T as QuantityDiv<S>>::Output, N, M>) where T: QuantityDiv<S>,
        requires
            forall|i: int, j: int| 0 <= i < M && 0 <= j < N ==> rhs.entry(i, j) != 0 && in_range(trunc_div(self.entry(i, j), rhs.entry(i, j))),
        ensures
            forall|i: int, j: int| 0 <= i < M && 0 <= j < N ==> r.entry(i, j) == trunc_div(self.entry(i, j), rhs.entry(i, j)),
    {
        let mut data = vstd::array::array_fill_for_copy_types(
            vstd::array::array_fill_for_copy_types(<T as QuantityDiv<S>>::Output::from_count(0)),
        );
        let mut row: usize = 0;
        while row < M
            invariant
                row <= M,
                forall|i: int, j: int| 0 <= i < M && 0 <= j < N ==> rhs.entry(i, j) != 0 && in_range(trunc_div(self.entry(i, j), rhs.entry(i, j))),
                forall|i: int, j: int|
                    0 <= i < row && 0 <= j < N ==> data@[i]@[j].spec_count() == trunc_div(self.entry(i, j), rhs.entry(i, j)),
            decreases M - row,
        {
            let a = VectorND { data: self.data[row] };
            let b = VectorND { data: rhs.data[row] };
            assert forall|j: int| 0 <= j < N implies a@[j] == self.entry(row as int, j) && b@[j] == rhs.entry(row as int, j) && b@[j] != 0 && in_range(trunc_div(a@[j], b@[j])) by {
                assert(rhs.entry(row as int, j) != 0 && in_range(trunc_div(self.entry(row as int, j), rhs.entry(row as int, j))));
            }
            let out = a.div_pointwise(b);
            data[row] = out.data;
            assert forall|j: int|
                0 <= j < N implies data@[row as int]@[j].spec_count() == trunc_div(self.entry(row as int, j), rhs.entry(row as int, j)) by {
                assert(out@[j] == out.data@[j].spec_count());
            }
            row = row + 1;
        }
        MatrixNMD { data }
    }

    /// The entrywise remainders by a matrix of the same dimension.
    pub fn rem(self, rhs: MatrixNMD<T, N, M>) -> (r: MatrixNMD<T, N, M>)
        requires
            forall|i: int, j: int| 0 <= i < M && 0 <= j < N ==> rhs.entry(i, j) != 0,
        ensures
            forall|i: int, j: int| 0 <= i < M && 0 <= j < N ==> r.entry(i, j) == trunc_rem(self.entry(i, j), rhs.entry(i, j)),
    {
        let mut data = self.data;
        let mut row: usize = 0;
        while row < M
            invariant
                row <= M,
                forall|i: int, j: int| 0 <= i < M && 0 <= j < N ==> rhs.entry(i, j) != 0,
                forall|i: int, j: int|
                    0 <= i < row && 0 <= j < N ==> data@[i]@[j].spec_count() == trunc_rem(self.entry(i, j), rhs.entry(i, j)),
            decreases M - row,
        {
            let a = VectorND { data: self.data[row] };
            let b = VectorND { data: rhs.data[row] };
            assert forall|j: int| 0 <= j < N implies a@[j] == self.entry(row as int, j) && b@[j] == rhs.entry(row as int, j) && b@[j] != 0 by {
                assert(rhs.entry(row as int, j) != 0);
            }
            let out = a.rem_pointwise(b);
            data[row] = out.data;
            assert forall|j: int|
                0 <= j < N implies data@[row as int]@[j].spec_count() == trunc_rem(self.entry(row as int, j), rhs.entry(row as int, j)) by {
                assert(out@[j] == out.data@[j].spec_count());
            }
            row = row + 1;
        }
        MatrixNMD { data }
    }

    /// The entrywise opposite.
    pub fn neg(self) -> (r: MatrixNMD<T, N, M>)
        requires
            forall|i: int, j: int| 0 <= i < M && 0 <= j < N ==> in_range(-self.entry(i, j)),
        ensures
            forall|i: int, j: int| 0 <= i < M && 0 <= j < N ==> r.entry(i, j) == -self.entry(i, j),
    {
        let mut data = self.data;
        let mut row: usize = 0;
        while row < M
            invariant
                row <= M,
                forall|i: int, j: int| 0 <= i < M && 0 <= j < N ==> in_range(-self.entry(i, j)),
                forall|i: int, j: int|
                    0 <= i < row && 0 <= j < N ==> data@[i]@[j].spec_count() == -self.entry(i, j),
            decreases M - row,
        {
            let a = VectorND { data: self.data[row] };
            assert forall|j: int| 0 <= j < N implies a@[j] == self.entry(row as int, j) && in_range(
                -a@[j],
            ) by {
                assert(in_range(-self.entry(row as int, j)));
            }
            let out = a.neg();
            data[row] = out.data;
            assert forall|j: int|
                0 <= j < N implies data@[row as int]@[j].spec_count() == -self.entry(row as int, j) by {
                assert(out@[j] == out.data@[j].spec_count());
            }
            row = row + 1;
        }
        MatrixNMD { data }
    }

    pub fn add_assign(&mut self, rhs: MatrixNMD<T, N, M>)
        requires
            forall|i: int, j: int|
                0 <= i < M && 0 <= j < N ==> in_range(old(self).entry(i, j) + rhs.entry(i, j)),
        ensures
            forall|i: int, j: int|
                0 <= i < M && 0 <= j < N ==> final(self).entry(i, j) == old(self).entry(i, j)
                    + rhs.entry(i, j),
    {
        *self = self.add(rhs);
    }

    /// Multiplies entrywise in place by a matrix of plain numbers.
    pub fn mul_assign<S: Quantity>(&mut self, rhs: MatrixNMD<S, N, M>) where
        T: QuantityMul<S, Output = T>,
        requires
            forall|i: int, j: int|
                0 <= i < M && 0 <= j < N ==> in_range(old(self).entry(i, j) * rhs.entry(i, j)),
        ensures
            forall|i: int, j: int|
                0 <= i < M && 0 <= j < N ==> final(self).entry(i, j) == old(self).entry(i, j)
                    * rhs.entry(i, j),
    {
        *self = self.mul(rhs);
    }

    /// Divides entrywise in place by a matrix of plain numbers, rounding toward zero.
    pub fn div_assign<S: Quantity>(&mut self, rhs: MatrixNMD<S, N, M>) where
        T: QuantityDiv<S, Output = T>,
        requires
            forall|i: int, j: int|
                0 <= i < M && 0 <= j < N ==> rhs.entry(i, j) != 0 && in_range(
                    trunc_div(old(self).entry(i, j), rhs.entry(i, j)),
                ),
        ensures
            forall|i: int, j: int|
                0 <= i < M && 0 <= j < N ==> final(self).entry(i, j) == trunc_div(
                    old(self).entry(i, j),
                    rhs.entry(i, j),
                ),
    {
        *self = self.div(rhs);
    }

    pub fn rem_assign(&mut self, rhs: MatrixNMD<T, N, M>)
        requires
            forall|i: int, j: int| 0 <= i < M && 0 <= j < N ==> rhs.entry(i, j) != 0,
        ensures
            forall|i: int, j: int|
                0 <= i < M && 0 <= j < N ==> final(self).entry(i, j) == trunc_rem(
                    old(self).entry(i, j),
                    rhs.entry(i, j),
                ),
    {
        *self = self.rem(rhs);
    }
}

} // verus!
