//! What Gauss-Jordan elimination with partial pivoting computes, step by step.
//!
//! The run keeps two grids: `s`, which starts as the matrix and is reduced to
//! the identity, and `r`, which starts as the identity and receives the same
//! row operations. Three forward steps clear the columns 0, 1 and 2 below the
//! diagonal; four backward steps, from row 3 up to row 0, scale the diagonal to
//! one and clear the columns above it. A step that meets a zero pivot ends the
//! run without a result.
use vstd::prelude::*;
use crate::grid::{
    can_divide_row, can_reduce_rows, column, divided_row, identity_grid, quotients, reduce_rows,
    swap_rows, Grid,
};
use crate::value::Value;

verus! {

/// The row chosen among `i ..= j` for column `i`: the search starts at row `i`
/// and moves on to a later row only where its entry is strictly larger in
/// magnitude than that of the row held so far.
pub open spec fn pivot_upto<T: Value>(s: Grid<T>, i: int, j: int) -> int
    decreases j - i,
{
    if j <= i {
        i
    } else {
        let p = pivot_upto(s, i, j - 1);
        if s[p][i].magnitude().less(s[j][i].magnitude()) {
            j
        } else {
            p
        }
    }
}

/// The pivot row for column `i`, chosen among the rows `i .. 4`.
pub open spec fn pivot_row<T: Value>(s: Grid<T>, i: int) -> int {
    pivot_upto(s, i, 3)
}

/// Whether the magnitude of every candidate for the pivot of column `i` is defined.
pub open spec fn can_pivot<T: Value>(s: Grid<T>, i: int) -> bool {
    forall|j: int| i <= j < 4 ==> (#[trigger] s[j][i]).can_abs()
}

/// Whether forward step `i` finds no pivot: the largest magnitude in column `i`
/// from row `i` down is zero.
pub open spec fn forward_stuck<T: Value>(s: Grid<T>, i: int) -> bool {
    s[pivot_row(s, i)][i].magnitude().same(T::nil())
}

/// `s` after forward step `i`, where the step finds a pivot: the pivot row is
/// exchanged with row `i`, and each row below loses its multiple of row `i`.
pub open spec fn forward_s<T: Value>(s: Grid<T>, i: int) -> Grid<T> {
    let s1 = swap_rows(s, i, pivot_row(s, i));
    reduce_rows(s1, quotients(s1, i), i, i + 1, 4)
}

/// `r` after forward step `i`: the row operations of `forward_s`, with the same factors.
pub open spec fn forward_r<T: Value>(s: Grid<T>, r: Grid<T>, i: int) -> Grid<T> {
    let p = pivot_row(s, i);
    reduce_rows(swap_rows(r, i, p), quotients(swap_rows(s, i, p), i), i, i + 1, 4)
}

/// Whether every operation of forward step `i` is defined.
pub open spec fn can_forward<T: Value>(s: Grid<T>, r: Grid<T>, i: int) -> bool {
    let p = pivot_row(s, i);
    let s1 = swap_rows(s, i, p);
    let r1 = swap_rows(r, i, p);
    &&& can_pivot(s, i)
    &&& !forward_stuck(s, i) ==> {
        &&& forall|a: int| i < a < 4 ==> (#[trigger] s1[a][i]).can_div(s1[i][i])
        &&& can_reduce_rows(s1, quotients(s1, i), i, i + 1, 4)
        &&& can_reduce_rows(r1, quotients(s1, i), i, i + 1, 4)
    }
}

/// Whether backward step `i` finds no pivot: the diagonal entry is zero.
pub open spec fn backward_stuck<T: Value>(s: Grid<T>, i: int) -> bool {
    s[i][i].same(T::nil())
}

/// `s` after backward step `i`, where the diagonal entry is not zero: row `i` is
/// divided by it, and each row above loses its multiple of row `i`.
pub open spec fn backward_s<T: Value>(s: Grid<T>, i: int) -> Grid<T> {
    let s1 = s.update(i, divided_row(s[i], s[i][i]));
    reduce_rows(s1, column(s1, i), i, 0, i)
}

/// `r` after backward step `i`: the row operations of `backward_s`, with the same factors.
pub open spec fn backward_r<T: Value>(s: Grid<T>, r: Grid<T>, i: int) -> Grid<T> {
    let s1 = s.update(i, divided_row(s[i], s[i][i]));
    let r1 = r.update(i, divided_row(r[i], s[i][i]));
    reduce_rows(r1, column(s1, i), i, 0, i)
}

/// Whether every operation of backward step `i` is defined.
pub open spec fn can_backward<T: Value>(s: Grid<T>, r: Grid<T>, i: int) -> bool {
    let s1 = s.update(i, divided_row(s[i], s[i][i]));
    let r1 = r.update(i, divided_row(r[i], s[i][i]));
    !backward_stuck(s, i) ==> {
        &&& can_divide_row(s[i], s[i][i])
        &&& can_divide_row(r[i], s[i][i])
        &&& can_reduce_rows(s1, column(s1, i), i, 0, i)
        &&& can_reduce_rows(r1, column(s1, i), i, 0, i)
    }
}

/// The result of the backward steps for the rows `n - 1` down to 0.
pub open spec fn backward_from<T: Value>(s: Grid<T>, r: Grid<T>, n: int) -> Option<Grid<T>>
    decreases n,
{
    if n <= 0 {
        Some(r)
    } else if backward_stuck(s, n - 1) {
        None
    } else {
        backward_from(backward_s(s, n - 1), backward_r(s, r, n - 1), n - 1)
    }
}

/// Whether every operation of the backward steps for the rows `n - 1` down to
/// 0 is defined.
pub open spec fn can_backward_from<T: Value>(s: Grid<T>, r: Grid<T>, n: int) -> bool
    decreases n,
{
    if n <= 0 {
        true
    } else {
        &&& can_backward(s, r, n - 1)
        &&& !backward_stuck(s, n - 1) ==> can_backward_from(
            backward_s(s, n - 1),
            backward_r(s, r, n - 1),
            n - 1,
        )
    }
}

/// The result of the forward steps for the columns `i .. 3`, and then of all
/// the backward steps.
pub open spec fn forward_from<T: Value>(s: Grid<T>, r: Grid<T>, i: int) -> Option<Grid<T>>
    decreases 3 - i,
{
    if i >= 3 {
        backward_from(s, r, 4)
    } else if forward_stuck(s, i) {
        None
    } else {
        forward_from(forward_s(s, i), forward_r(s, r, i), i + 1)
    }
}

/// Whether every operation of the forward steps for the columns `i .. 3`, and
/// of the backward steps after them, is defined.
pub open spec fn can_forward_from<T: Value>(s: Grid<T>, r: Grid<T>, i: int) -> bool
    decreases 3 - i,
{
    if i >= 3 {
        can_backward_from(s, r, 4)
    } else {
        &&& can_forward(s, r, i)
        &&& !forward_stuck(s, i) ==> can_forward_from(forward_s(s, i), forward_r(s, r, i), i + 1)
    }
}

/// The inverse that elimination finds for `m`, or `None` where a step meets a
/// zero pivot, which marks `m` as singular.
pub open spec fn inverted<T: Value>(m: Grid<T>) -> Option<Grid<T>> {
    forward_from(m, identity_grid(), 0)
}

/// Whether every operation of the elimination on `m` is defined. For a scalar
/// whose arithmetic is total this always holds.
pub open spec fn can_invert<T: Value>(m: Grid<T>) -> bool {
    can_forward_from(m, identity_grid(), 0)
}

/// Whether sums, differences, products, quotients and magnitudes are defined
/// for all operands, as they are for a floating-point scalar.
pub open spec fn total_arithmetic<T: Value>() -> bool {
    &&& forall|a: T, b: T| #[trigger] a.can_add(b)
    &&& forall|a: T, b: T| #[trigger] a.can_sub(b)
    &&& forall|a: T, b: T| #[trigger] a.can_mul(b)
    &&& forall|a: T, b: T| #[trigger] a.can_div(b)
    &&& forall|a: T| #[trigger] a.can_abs()
}

proof fn lemma_total_can_backward_from<T: Value>(s: Grid<T>, r: Grid<T>, n: int)
    requires
        total_arithmetic::<T>(),
    ensures
        can_backward_from(s, r, n),
    decreases n,
{
    if n > 0 {
        lemma_total_can_backward_from(backward_s(s, n - 1), backward_r(s, r, n - 1), n - 1);
    }
}

proof fn lemma_total_can_forward_from<T: Value>(s: Grid<T>, r: Grid<T>, i: int)
    requires
        total_arithmetic::<T>(),
    ensures
        can_forward_from(s, r, i),
    decreases 3 - i,
{
    if i >= 3 {
        lemma_total_can_backward_from(s, r, 4);
    } else {
        lemma_total_can_forward_from(forward_s(s, i), forward_r(s, r, i), i + 1);
    }
}

/// Where the arithmetic of the scalar is total, every matrix can be handed to
/// the elimination.
pub proof fn lemma_total_can_invert<T: Value>(m: Grid<T>)
    requires
        total_arithmetic::<T>(),
    ensures
        can_invert(m),
{
    lemma_total_can_forward_from(m, identity_grid(), 0);
}

} // verus!
