//! A 4×4 matrix of scalars, stored row by row.
use vstd::prelude::*;
use crate::elimination::{
    backward_from, can_backward_from, can_forward_from, can_invert, can_pivot, forward_from,
    inverted, pivot_row, pivot_upto,
};
use crate::grid::{
    can_divide_row, can_lessen_row, can_multiply, can_product_entry, can_reduce_rows, column,
    divided_row, identity_grid, is_grid, lemma_transposed_twice, lessened_row, product,
    product_entry, quotients, reduce_rows, swap_rows, transposed, zero_grid, Grid,
};
use crate::value::Value;

verus! {

#[derive(Clone, Copy, Debug)]
pub struct Matrix44<T: Value> {
    m: [[T; 4]; 4],
}

impl<T: Value> View for Matrix44<T> {
    type V = Grid<T>;

    closed spec fn view(&self) -> Grid<T> {
        Seq::new(4, |i: int| self.m[i]@)
    }
}

impl<T: Value> Matrix44<T> {
    /// The matrix whose view is `g`.
    pub closed spec fn of(g: Grid<T>) -> Self {
        Matrix44 {
            m: [
                [g[0][0], g[0][1], g[0][2], g[0][3]],
                [g[1][0], g[1][1], g[1][2], g[1][3]],
                [g[2][0], g[2][1], g[2][2], g[2][3]],
                [g[3][0], g[3][1], g[3][2], g[3][3]],
            ],
        }
    }

    /// `of` is the inverse of the view.
    pub proof fn lemma_of(g: Grid<T>)
        requires
            is_grid(g),
        ensures
            Self::of(g)@ == g,
    {
        assert(Self::of(g)@ =~~= g);
    }

    /// The view of a matrix has four rows of four entries.
    pub proof fn lemma_shape(self)
        ensures
            is_grid(self@),
    {
    }

    /// Two matrices with the same view are the same matrix.
    pub proof fn lemma_view_decides(self, other: Self)
        requires
            self@ == other@,
        ensures
            self == other,
    {
        assert forall|i: int| 0 <= i < 4 implies self.m[i] == other.m[i] by {
            assert(self@[i] == other@[i]);
        }
        assert(self.m =~= other.m);
    }

    /// Transposing twice gives the matrix back: where `once` is the transpose
    /// of `self` and `twice` the transpose of `once`, `twice` is `self`.
    pub proof fn lemma_transpose_twice(self, once: Self, twice: Self)
        requires
            once@ == transposed(self@),
            twice@ == transposed(once@),
        ensures
            twice == self,
    {
        lemma_transposed_twice(self@);
        twice.lemma_view_decides(self);
    }

    /// The matrix with the given entries, row after row.
    pub fn new(
        t00: T,
        t01: T,
        t02: T,
        t03: T,
        t10: T,
        t11: T,
        t12: T,
        t13: T,
        t20: T,
        t21: T,
        t22: T,
        t23: T,
        t30: T,
        t31: T,
        t32: T,
        t33: T,
    ) -> (r: Self)
        ensures
            r@ == seq![
                seq![t00, t01, t02, t03],
                seq![t10, t11, t12, t13],
                seq![t20, t21, t22, t23],
                seq![t30, t31, t32, t33],
            ],
    {
        let r = Self {
            m: [[t00, t01, t02, t03], [t10, t11, t12, t13], [t20, t21, t22, t23], [t30, t31, t32, t33]],
        };
        assert(r@ =~~= seq![
            seq![t00, t01, t02, t03],
            seq![t10, t11, t12, t13],
            seq![t20, t21, t22, t23],
            seq![t30, t31, t32, t33],
        ]);
        r
    }

    /// The matrix whose rows are the four arrays.
    pub fn new_from_array(m: [[T; 4]; 4]) -> (r: Self)
        ensures
            r@ == Seq::new(4, |i: int| m[i]@),
    {
        Self { m }
    }

    /// The matrix of zeros.
    pub fn zero() -> (r: Self)
        ensures
            r@ == zero_grid::<T>(),
    {
        let o = T::zero();
        let r = Self::new(o, o, o, o, o, o, o, o, o, o, o, o, o, o, o, o);
        assert(r@ =~~= zero_grid::<T>());
        r
    }

    /// The identity matrix: ones on the diagonal, zeros elsewhere.
    pub fn identity() -> (r: Self)
        ensures
            r@ == identity_grid::<T>(),
    {
        let o = T::zero();
        let l = T::one();
        let r = Self::new(l, o, o, o, o, l, o, o, o, o, l, o, o, o, o, l);
        assert(r@ =~~= identity_grid::<T>());
        r
    }

    /// The matrix with rows and columns exchanged.
    pub fn transpose(self) -> (r: Self)
        ensures
            r@ == transposed(self@),
    {
        let r = Self::new(
            self.m[0][0],
            self.m[1][0],
            self.m[2][0],
            self.m[3][0],
            self.m[0][1],
            self.m[1][1],
            self.m[2][1],
            self.m[3][1],
            self.m[0][2],
            self.m[1][2],
            self.m[2][2],
            self.m[3][2],
            self.m[0][3],
            self.m[1][3],
            self.m[2][3],
            self.m[3][3],
        );
        assert(r@ =~~= transposed(self@));
        r
    }

    /// The matrix product `self · m`.
    pub fn mul(self, m: Self) -> (r: Self)
        requires
            can_multiply(self@, m@),
        ensures
            r@ == product(self@, m@),
    {
        let mut r = Self::zero();
        let mut i: usize = 0;
        while i < 4
            invariant
                i <= 4,
                can_multiply(self@, m@),
                is_grid(r@),
                forall|a: int, b: int|
                    0 <= a < i && 0 <= b < 4 ==> r@[a][b] == product_entry(self@, m@, a, b),
            decreases 4 - i,
        {
            let mut j: usize = 0;
            while j < 4
                invariant
                    i < 4,
                    j <= 4,
                    can_multiply(self@, m@),
                    is_grid(r@),
                    forall|a: int, b: int|
                        0 <= a < i && 0 <= b < 4 ==> r@[a][b] == product_entry(self@, m@, a, b),
                    forall|b: int|
                        0 <= b < j ==> r@[i as int][b] == product_entry(self@, m@, i as int, b),
                decreases 4 - j,
            {
                assert(can_product_entry(self@, m@, i as int, j as int));
                let p0 = self.at(i, 0).mul(m.at(0, j));
                let p1 = self.at(i, 1).mul(m.at(1, j));
                let p2 = self.at(i, 2).mul(m.at(2, j));
                let p3 = self.at(i, 3).mul(m.at(3, j));
                r.put(i, j, p0.add(p1).add(p2).add(p3));
                j += 1;
            }
            i += 1;
        }
        assert(r@ =~~= product(self@, m@));
        r
    }

    /// The entry in row `i` and column `j`.
    fn at(&self, i: usize, j: usize) -> (r: T)
        requires
            i < 4,
            j < 4,
        ensures
            r == self@[i as int][j as int],
    {
        self.m[i][j]
    }

    /// The entry in row `i` and column `j` set to `v`.
    fn put(&mut self, i: usize, j: usize, v: T)
        requires
            i < 4,
            j < 4,
        ensures
            final(self)@ == old(self)@.update(i as int, old(self)@[i as int].update(j as int, v)),
    {
        self.m[i][j] = v;
    }

    /// Rows `a` and `b` exchanged.
    fn swap_rows(&mut self, a: usize, b: usize)
        requires
            a < 4,
            b < 4,
        ensures
            final(self)@ == swap_rows(old(self)@, a as int, b as int),
    {
        let row = self.m[a];
        self.m[a] = self.m[b];
        self.m[b] = row;
    }

    /// Row `j` less `f` times row `i`.
    fn lessen_row(&mut self, j: usize, f: T, i: usize)
        requires
            j < 4,
            i < 4,
            j != i,
            can_lessen_row(old(self)@[j as int], f, old(self)@[i as int]),
        ensures
            final(self)@ == old(self)@.update(
                j as int,
                lessened_row(old(self)@[j as int], f, old(self)@[i as int]),
            ),
    {
        let mut k: usize = 0;
        while k < 4
            invariant
                k <= 4,
                j < 4,
                i < 4,
                j != i,
                can_lessen_row(old(self)@[j as int], f, old(self)@[i as int]),
                is_grid(self@),
                forall|a: int| 0 <= a < 4 && a != j ==> self@[a] == old(self)@[a],
                forall|b: int|
                    0 <= b < k ==> self@[j as int][b] == old(self)@[j as int][b].minus(
                        f.times(old(self)@[i as int][b]),
                    ),
                forall|b: int| k <= b < 4 ==> self@[j as int][b] == old(self)@[j as int][b],
            decreases 4 - k,
        {
            let d = f.mul(self.at(i, k));
            let v = self.at(j, k).sub(d);
            self.put(j, k, v);
            k += 1;
        }
        assert(self@ =~~= old(self)@.update(
            j as int,
            lessened_row(old(self)@[j as int], f, old(self)@[i as int]),
        ));
    }

    /// Row `i` with every entry divided by `f`.
    fn divide_row(&mut self, i: usize, f: T)
        requires
            i < 4,
            can_divide_row(old(self)@[i as int], f),
        ensures
            final(self)@ == old(self)@.update(i as int, divided_row(old(self)@[i as int], f)),
    {
        let mut k: usize = 0;
        while k < 4
            invariant
                k <= 4,
                i < 4,
                can_divide_row(old(self)@[i as int], f),
                is_grid(self@),
                forall|a: int| 0 <= a < 4 && a != i ==> self@[a] == old(self)@[a],
                forall|b: int| 0 <= b < k ==> self@[i as int][b] == old(self)@[i as int][b].over(f),
                forall|b: int| k <= b < 4 ==> self@[i as int][b] == old(self)@[i as int][b],
            decreases 4 - k,
        {
            let v = self.at(i, k).div(f);
            self.put(i, k, v);
            k += 1;
        }
        assert(self@ =~~= old(self)@.update(i as int, divided_row(old(self)@[i as int], f)));
    }

    /// The pivot row for column `i`: the first row from `i` down whose entry in
    /// that column is largest in magnitude.
    fn pivot_row(&self, i: usize) -> (p: usize)
        requires
            i < 4,
            can_pivot(self@, i as int),
        ensures
            p == pivot_row(self@, i as int),
            i <= p < 4,
    {
        let mut pivot = i;
        let mut pivot_size = self.at(i, i).abs();
        let mut j: usize = i + 1;
        while j < 4
            invariant
                i < j <= 4,
                i <= pivot < j,
                can_pivot(self@, i as int),
                pivot == pivot_upto(self@, i as int, j - 1),
                pivot_size == self@[pivot as int][i as int].magnitude(),
            decreases 4 - j,
        {
            let tmp = self.at(j, i).abs();
            if tmp.gt(pivot_size) {
                pivot = j;
                pivot_size = tmp;
            }
            j += 1;
        }
        pivot
    }

    /// The inverse by Gauss-Jordan elimination with partial pivoting, or `None`
    /// where the elimination meets a zero pivot: the matrix is singular.
    #[verifier::rlimit(30)]
    pub fn try_inverse(&self) -> (r: Option<Self>)
        requires
            can_invert(self@),
        ensures
            match r {
                Some(m) => inverted(self@) == Some(m@),
                None => inverted(self@) is None,
            },
    {
        let mut s = *self;
        let mut r = Self::identity();
        let zero = T::zero();

        let mut i: usize = 0;
        while i < 3
            invariant
                i <= 3,
                zero == T::nil(),
                can_forward_from(s@, r@, i as int),
                forward_from(s@, r@, i as int) == inverted(self@),
            decreases 3 - i,
        {
            let pivot = s.pivot_row(i);
            if s.at(pivot, i).abs().equals(zero) {
                // Cannot invert a singular matrix.
                return None;
            }
            s.swap_rows(i, pivot);
            r.swap_rows(i, pivot);
            let ghost s1 = s@;
            let ghost r1 = r@;
            let ghost q = quotients(s1, i as int);

            let mut j: usize = i + 1;
            while j < 4
                invariant
                    i < 3,
                    i < j <= 4,
                    q == quotients(s1, i as int),
                    is_grid(s1),
                    is_grid(r1),
                    forall|a: int| i < a < 4 ==> (#[trigger] s1[a][i as int]).can_div(s1[i as int][i as int]),
                    can_reduce_rows(s1, q, i as int, i + 1, 4),
                    can_reduce_rows(r1, q, i as int, i + 1, 4),
                    s@ == reduce_rows(s1, q, i as int, i + 1, j as int),
                    r@ == reduce_rows(r1, q, i as int, i + 1, j as int),
                decreases 4 - j,
            {
                let f = s.at(j, i).div(s.at(i, i));
                s.lessen_row(j, f, i);
                r.lessen_row(j, f, i);
                j += 1;
            }
            i += 1;
        }

        let mut n: usize = 4;
        while n > 0
            invariant
                n <= 4,
                zero == T::nil(),
                can_backward_from(s@, r@, n as int),
                backward_from(s@, r@, n as int) == inverted(self@),
            decreases n,
        {
            let i: usize = n - 1;
            let f = s.at(i, i);
            if f.equals(zero) {
                // Cannot invert a singular matrix.
                return None;
            }
            s.divide_row(i, f);
            r.divide_row(i, f);
            let ghost s1 = s@;
            let ghost r1 = r@;
            let ghost c = column(s1, i as int);

            let mut j: usize = 0;
            while j < i
                invariant
                    i < 4,
                    j <= i,
                    c == column(s1, i as int),
                    is_grid(s1),
                    is_grid(r1),
                    can_reduce_rows(s1, c, i as int, 0, i as int),
                    can_reduce_rows(r1, c, i as int, 0, i as int),
                    s@ == reduce_rows(s1, c, i as int, 0, j as int),
                    r@ == reduce_rows(r1, c, i as int, 0, j as int),
                decreases i - j,
            {
                let g = s.at(j, i);
                s.lessen_row(j, g, i);
                r.lessen_row(j, g, i);
                j += 1;
            }
            n = i;
        }
        Some(r)
    }

    /// The inverse by Gauss-Jordan elimination with partial pivoting. Where the
    /// matrix is singular, the result is the identity matrix.
    pub fn inverse(&self) -> (r: Self)
        requires
            can_invert(self@),
        ensures
            r@ == match inverted(self@) {
                Some(g) => g,
                None => identity_grid::<T>(),
            },
    {
        match self.try_inverse() {
            Some(m) => m,
            None => Self::identity(),
        }
    }

    /// Row `i`, open to change.
    pub fn index_mut(&mut self, i: usize) -> (r: &mut [T; 4])
        requires
            i <= 3,
        ensures
            r@ == old(self)@[i as int],
            final(self)@ == old(self)@.update(i as int, final(r)@),
    {
        &mut self.m[i]
    }
}

impl<T: Value> std::ops::Index<usize> for Matrix44<T> {
    type Output = [T; 4];

    /// Row `i`.
    fn index(&self, i: usize) -> (r: &[T; 4])
        ensures
            r@ == self@[i as int],
    {
        &self.m[i]
    }
}

impl<T: Value> vstd::std_specs::core::IndexSpecImpl<usize> for Matrix44<T> {
    open spec fn index_req(&self, i: &usize) -> bool {
        *i <= 3
    }
}

} // verus!
