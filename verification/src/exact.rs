//! What holds of matrices where the scalar is `i32`, whose arithmetic is exact
//! as long as it stays in range.
use vstd::prelude::*;
use crate::elimination::{
    backward_from, backward_r, backward_s, backward_stuck, can_backward, can_backward_from,
    can_forward, can_forward_from, can_invert, forward_from, forward_r, forward_s, forward_stuck,
    inverted, pivot_row, pivot_upto,
};
use crate::exact_inverse::{
    divides, exact_backward, exact_backward_from, exact_elimination, exact_forward,
    exact_forward_from,
};
use crate::grid::{
    can_divide_row, can_lessen_row, can_multiply, can_product_entry, column, divided_row,
    identity_grid, is_grid, lemma_identity_entries, lemma_product_entries, lessened_row, product,
    product_entry, quotients, reduce_rows, swap_rows, Grid,
};
use crate::matrix44::Matrix44;
use crate::transform::{translation_grid, Transform};
use crate::value::Value;
use crate::vector3::Vector3;

verus! {

/// The identity matrix is neutral on the left: `I · m` is defined and is `m`.
pub proof fn lemma_identity_times(m: Grid<i32>)
    requires
        is_grid(m),
    ensures
        can_multiply(identity_grid::<i32>(), m),
        product(identity_grid::<i32>(), m) == m,
{
    let e = identity_grid::<i32>();
    lemma_identity_entries::<i32>();
    assert forall|i: int, j: int| 0 <= i < 4 && 0 <= j < 4 implies #[trigger] can_product_entry(
        e,
        m,
        i,
        j,
    ) && product_entry(e, m, i, j) == m[i][j] by {
        assert(e[i][0] == (if i == 0 { 1i32 } else { 0i32 }));
        assert(e[i][1] == (if i == 1 { 1i32 } else { 0i32 }));
        assert(e[i][2] == (if i == 2 { 1i32 } else { 0i32 }));
        assert(e[i][3] == (if i == 3 { 1i32 } else { 0i32 }));
    }
    lemma_product_entries(e, m);
    assert forall|i: int, j: int| 0 <= i < 4 && 0 <= j < 4 implies #[trigger] product(e, m)[i][j]
        == m[i][j] by {
        assert(can_product_entry(e, m, i, j));
    }
    assert(product(e, m) =~~= m);
}

/// The identity matrix is neutral on the right: `m · I` is defined and is `m`.
pub proof fn lemma_times_identity(m: Grid<i32>)
    requires
        is_grid(m),
    ensures
        can_multiply(m, identity_grid::<i32>()),
        product(m, identity_grid::<i32>()) == m,
{
    let e = identity_grid::<i32>();
    lemma_identity_entries::<i32>();
    assert forall|i: int, j: int| 0 <= i < 4 && 0 <= j < 4 implies #[trigger] can_product_entry(
        m,
        e,
        i,
        j,
    ) && product_entry(m, e, i, j) == m[i][j] by {
        assert(e[0][j] == (if j == 0 { 1i32 } else { 0i32 }));
        assert(e[1][j] == (if j == 1 { 1i32 } else { 0i32 }));
        assert(e[2][j] == (if j == 2 { 1i32 } else { 0i32 }));
        assert(e[3][j] == (if j == 3 { 1i32 } else { 0i32 }));
    }
    lemma_product_entries(m, e);
    assert forall|i: int, j: int| 0 <= i < 4 && 0 <= j < 4 implies #[trigger] product(m, e)[i][j]
        == m[i][j] by {
        assert(can_product_entry(m, e, i, j));
    }
    assert(product(m, e) =~~= m);
}

/// Whether column `i` of `s` is as elimination leaves it below the diagonal:
/// one on the diagonal, zeros under it.
pub open spec fn cleared_below(s: Grid<i32>, i: int) -> bool {
    s[i][i] == 1 && forall|a: int| i < a < 4 ==> (#[trigger] s[a])[i] == 0
}

/// Whether column `i` of `s` is as elimination leaves it above the diagonal:
/// one on the diagonal, zeros over it.
pub open spec fn cleared_above(s: Grid<i32>, i: int) -> bool {
    s[i][i] == 1 && forall|a: int| 0 <= a < i ==> (#[trigger] s[a])[i] == 0
}

/// A forward step on a column that is cleared below the diagonal changes neither grid.
#[verifier::rlimit(30)]
proof fn lemma_forward_on_cleared(s: Grid<i32>, r: Grid<i32>, i: int)
    requires
        is_grid(s),
        is_grid(r),
        0 <= i < 3,
        cleared_below(s, i),
    ensures
        can_forward(s, r, i),
        !forward_stuck(s, i),
        forward_s(s, i) == s,
        forward_r(s, r, i) == r,
{
    reveal_with_fuel(pivot_upto, 4);
    assert(s[i][i] == 1);
    assert forall|a: int| i < a < 4 implies s[a][i] == 0 by {
        assert(s[a][i] == 0);
    }
    assert(pivot_row(s, i) == i);
    let s1 = swap_rows(s, i, i);
    let r1 = swap_rows(r, i, i);
    assert(s1 =~~= s);
    assert(r1 =~~= r);
    let q = quotients(s, i);
    assert forall|a: int| i < a < 4 implies q[a] == 0 && can_lessen_row(s[a], q[a], s[i])
        && lessened_row(s[a], q[a], s[i]) =~= s[a] && can_lessen_row(r[a], q[a], r[i])
        && lessened_row(r[a], q[a], r[i]) =~= r[a] by {
        assert(s[a][i] == 0);
    }
    assert(reduce_rows(s, q, i, i + 1, 4) =~~= s);
    assert(reduce_rows(r, q, i, i + 1, 4) =~~= r);
}

/// A backward step on a column that is cleared above the diagonal changes neither grid.
#[verifier::rlimit(30)]
proof fn lemma_backward_on_cleared(s: Grid<i32>, r: Grid<i32>, i: int)
    requires
        is_grid(s),
        is_grid(r),
        0 <= i < 4,
        cleared_above(s, i),
    ensures
        can_backward(s, r, i),
        !backward_stuck(s, i),
        backward_s(s, i) == s,
        backward_r(s, r, i) == r,
{
    lemma_divide_by_one(s[i]);
    lemma_divide_by_one(r[i]);
    let s1 = s.update(i, divided_row(s[i], s[i][i]));
    let r1 = r.update(i, divided_row(r[i], s[i][i]));
    assert(s1 =~~= s);
    assert(r1 =~~= r);
    let c = column(s, i);
    assert forall|a: int| 0 <= a < i implies c[a] == 0 && can_lessen_row(s[a], c[a], s[i])
        && lessened_row(s[a], c[a], s[i]) =~= s[a] && can_lessen_row(r[a], c[a], r[i])
        && lessened_row(r[a], c[a], r[i]) =~= r[a] by {
        assert(s[a][i] == 0);
    }
    assert(reduce_rows(s, c, i, 0, i) =~~= s);
    assert(reduce_rows(r, c, i, 0, i) =~~= r);
}

/// A row divided by one is the row.
proof fn lemma_divide_by_one(row: Seq<i32>)
    requires
        row.len() == 4,
    ensures
        can_divide_row(row, 1i32),
        divided_row(row, 1i32) == row,
{
    assert(divided_row(row, 1i32) =~= row);
}

/// The inverse of the identity matrix is defined and is the identity matrix.
#[verifier::rlimit(30)]
pub proof fn lemma_identity_inverted()
    ensures
        can_invert(identity_grid::<i32>()),
        inverted(identity_grid::<i32>()) == Some(identity_grid::<i32>()),
{
    let e = identity_grid::<i32>();
    lemma_identity_entries::<i32>();
    lemma_forward_on_cleared(e, e, 0);
    lemma_forward_on_cleared(e, e, 1);
    lemma_forward_on_cleared(e, e, 2);
    lemma_backward_on_cleared(e, e, 3);
    lemma_backward_on_cleared(e, e, 2);
    lemma_backward_on_cleared(e, e, 1);
    lemma_backward_on_cleared(e, e, 0);
    reveal_with_fuel(backward_from, 5);
    reveal_with_fuel(can_backward_from, 5);
    assert(backward_from(e, e, 4) == Some(e));
    assert(can_backward_from(e, e, 4));
    reveal_with_fuel(forward_from, 4);
    reveal_with_fuel(can_forward_from, 4);
}

/// The last backward step on a translation clears its fourth column, and
/// writes the negated offsets into the fourth column of the identity.
#[verifier::rlimit(30)]
proof fn lemma_backward_on_translation(dx: i32, dy: i32, dz: i32)
    requires
        dx != i32::MIN,
        dy != i32::MIN,
        dz != i32::MIN,
    ensures
        can_backward(translation_grid(dx, dy, dz), identity_grid::<i32>(), 3),
        !backward_stuck(translation_grid(dx, dy, dz), 3),
        backward_s(translation_grid(dx, dy, dz), 3) == identity_grid::<i32>(),
        backward_r(translation_grid(dx, dy, dz), identity_grid::<i32>(), 3) == translation_grid(
            (-dx) as i32,
            (-dy) as i32,
            (-dz) as i32,
        ),
{
    let s = translation_grid(dx, dy, dz);
    let e = identity_grid::<i32>();
    lemma_identity_entries::<i32>();
    lemma_divide_by_one(s[3]);
    lemma_divide_by_one(e[3]);
    let s1 = s.update(3, divided_row(s[3], s[3][3]));
    let r1 = e.update(3, divided_row(e[3], s[3][3]));
    assert(s1 =~~= s);
    assert(r1 =~~= e);
    let c = column(s, 3);
    assert(c[0] == dx && c[1] == dy && c[2] == dz);
    lemma_lessen_by_last_row(s[0], dx, s[3]);
    lemma_lessen_by_last_row(s[1], dy, s[3]);
    lemma_lessen_by_last_row(s[2], dz, s[3]);
    lemma_lessen_by_last_row(e[0], dx, e[3]);
    lemma_lessen_by_last_row(e[1], dy, e[3]);
    lemma_lessen_by_last_row(e[2], dz, e[3]);
    assert(reduce_rows(s, c, 3, 0, 3) =~~= e);
    assert(reduce_rows(e, c, 3, 0, 3) =~~= translation_grid(
        (-dx) as i32,
        (-dy) as i32,
        (-dz) as i32,
    ));
}

/// A row less a multiple of the row `(0, 0, 0, 1)` changes in its last entry only.
proof fn lemma_lessen_by_last_row(row: Seq<i32>, f: i32, last: Seq<i32>)
    requires
        row.len() == 4,
        last =~= seq![0i32, 0i32, 0i32, 1i32],
        i32::MIN <= row[3] - f <= i32::MAX,
    ensures
        can_lessen_row(row, f, last),
        lessened_row(row, f, last) == seq![row[0], row[1], row[2], (row[3] - f) as i32],
{
    assert forall|k: int| 0 <= k < 4 implies f.can_mul(#[trigger] last[k]) && row[k].can_sub(
        f.times(last[k]),
    ) && row[k].minus(f.times(last[k])) == (if k == 3 {
        (row[3] - f) as i32
    } else {
        row[k]
    }) by {
        if k == 3 {
            assert(last[k] == 1);
            assert(f * last[k] == f) by (nonlinear_arith)
                requires
                    last[k] == 1,
            ;
        } else {
            assert(last[k] == 0);
            assert(f * last[k] == 0) by (nonlinear_arith)
                requires
                    last[k] == 0,
            ;
        }
    }
    assert(lessened_row(row, f, last) =~= seq![row[0], row[1], row[2], (row[3] - f) as i32]);
}

/// Elimination inverts a translation exactly: the inverse of the translation
/// by an offset is the translation by the negated offset.
#[verifier::rlimit(30)]
pub proof fn lemma_translation_inverted(dx: i32, dy: i32, dz: i32)
    requires
        dx.can_neg(),
        dy.can_neg(),
        dz.can_neg(),
    ensures
        can_invert(translation_grid(dx, dy, dz)),
        inverted(translation_grid(dx, dy, dz)) == Some(
            translation_grid(dx.negated(), dy.negated(), dz.negated()),
        ),
{
    let s = translation_grid(dx, dy, dz);
    let e = identity_grid::<i32>();
    let r = translation_grid(dx.negated(), dy.negated(), dz.negated());
    lemma_identity_entries::<i32>();
    lemma_forward_on_cleared(s, e, 0);
    lemma_forward_on_cleared(s, e, 1);
    lemma_forward_on_cleared(s, e, 2);
    lemma_backward_on_translation(dx, dy, dz);
    lemma_backward_on_cleared(e, r, 2);
    lemma_backward_on_cleared(e, r, 1);
    lemma_backward_on_cleared(e, r, 0);
    reveal_with_fuel(backward_from, 5);
    reveal_with_fuel(can_backward_from, 5);
    assert(backward_from(s, e, 4) == Some(r));
    assert(can_backward_from(s, e, 4));
    reveal_with_fuel(forward_from, 4);
    reveal_with_fuel(can_forward_from, 4);
}

/// One divides every number without remainder.
proof fn lemma_one_divides(x: int)
    ensures
        divides(1, x),
{
}

/// The elimination on a translation divides without remainder throughout:
/// every pivot is one.
#[verifier::rlimit(30)]
pub proof fn lemma_translation_elimination_is_exact(dx: i32, dy: i32, dz: i32)
    requires
        dx.can_neg(),
        dy.can_neg(),
        dz.can_neg(),
    ensures
        exact_elimination(translation_grid(dx, dy, dz)),
{
    let s = translation_grid(dx, dy, dz);
    let e = identity_grid::<i32>();
    let r = translation_grid(dx.negated(), dy.negated(), dz.negated());
    lemma_identity_entries::<i32>();
    lemma_forward_on_cleared(s, e, 0);
    lemma_forward_on_cleared(s, e, 1);
    lemma_forward_on_cleared(s, e, 2);
    lemma_backward_on_translation(dx, dy, dz);
    lemma_backward_on_cleared(e, r, 2);
    lemma_backward_on_cleared(e, r, 1);
    lemma_backward_on_cleared(e, r, 0);
    assert forall|x: int| divides(1, x) by {
        lemma_one_divides(x);
    }
    reveal_with_fuel(pivot_upto, 4);
    assert(pivot_row(s, 0) == 0 && pivot_row(s, 1) == 1 && pivot_row(s, 2) == 2);
    assert(swap_rows(s, 0, 0) =~~= s);
    assert(swap_rows(s, 1, 1) =~~= s);
    assert(swap_rows(s, 2, 2) =~~= s);
    assert(exact_forward(s, 0));
    assert(exact_forward(s, 1));
    assert(exact_forward(s, 2));
    assert(exact_backward(s, e, 3));
    assert(exact_backward(e, r, 2));
    assert(exact_backward(e, r, 1));
    assert(exact_backward(e, r, 0));
    reveal_with_fuel(exact_backward_from, 5);
    assert(exact_backward_from(s, e, 4));
    reveal_with_fuel(exact_forward_from, 4);
}

/// Inverting a translation twice gives the translation back.
pub proof fn lemma_translation_inverted_twice(dx: i32, dy: i32, dz: i32)
    requires
        dx.can_neg(),
        dy.can_neg(),
        dz.can_neg(),
    ensures
        ({
            let m = translation_grid(dx, dy, dz);
            &&& can_invert(m)
            &&& inverted(m) matches Some(once) && can_invert(once) && inverted(once) == Some(m)
        }),
{
    lemma_translation_inverted(dx, dy, dz);
    lemma_translation_inverted(dx.negated(), dy.negated(), dz.negated());
}

/// A translation times the translation by the negated offset is the identity,
/// whichever of the two comes first.
#[verifier::rlimit(30)]
pub proof fn lemma_translation_times_its_inverse(dx: i32, dy: i32, dz: i32)
    requires
        dx.can_neg(),
        dy.can_neg(),
        dz.can_neg(),
    ensures
        ({
            let m = translation_grid(dx, dy, dz);
            let m_inv = translation_grid(dx.negated(), dy.negated(), dz.negated());
            &&& can_multiply(m, m_inv)
            &&& product(m, m_inv) == identity_grid::<i32>()
            &&& can_multiply(m_inv, m)
            &&& product(m_inv, m) == identity_grid::<i32>()
        }),
{
    let m = translation_grid(dx, dy, dz);
    let m_inv = translation_grid(dx.negated(), dy.negated(), dz.negated());
    let e = identity_grid::<i32>();
    lemma_identity_entries::<i32>();
    lemma_product_entries(m, m_inv);
    lemma_product_entries(m_inv, m);
    assert forall|i: int, j: int| 0 <= i < 4 && 0 <= j < 4 implies #[trigger] can_product_entry(
        m,
        m_inv,
        i,
        j,
    ) && product(m, m_inv)[i][j] == e[i][j] by {
        lemma_translation_rows(dx, dy, dz, i, j);
        lemma_translation_rows(dx.negated(), dy.negated(), dz.negated(), i, j);
    }
    assert forall|i: int, j: int| 0 <= i < 4 && 0 <= j < 4 implies #[trigger] can_product_entry(
        m_inv,
        m,
        i,
        j,
    ) && product(m_inv, m)[i][j] == e[i][j] by {
        lemma_translation_rows(dx, dy, dz, i, j);
        lemma_translation_rows(dx.negated(), dy.negated(), dz.negated(), i, j);
    }
    assert forall|i: int, j: int| 0 <= i < 4 && 0 <= j < 4 implies #[trigger] product(m, m_inv)[i][j]
        == e[i][j] by {
        assert(can_product_entry(m, m_inv, i, j));
    }
    assert forall|i: int, j: int| 0 <= i < 4 && 0 <= j < 4 implies #[trigger] product(m_inv, m)[i][j]
        == e[i][j] by {
        assert(can_product_entry(m_inv, m, i, j));
    }
    assert(product(m, m_inv) =~~= e);
    assert(product(m_inv, m) =~~= e);
}

/// The entries of a translation in row `i` and in column `j`.
proof fn lemma_translation_rows(dx: i32, dy: i32, dz: i32, i: int, j: int)
    requires
        0 <= i < 4,
        0 <= j < 4,
    ensures
        ({
            let m = translation_grid(dx, dy, dz);
            let d = if i == 0 { dx } else if i == 1 { dy } else if i == 2 { dz } else { 1i32 };
            &&& m[i][0] == (if i == 0 { 1i32 } else { 0i32 })
            &&& m[i][1] == (if i == 1 { 1i32 } else { 0i32 })
            &&& m[i][2] == (if i == 2 { 1i32 } else { 0i32 })
            &&& m[i][3] == d
            &&& m[0][j] == (if j == 0 { 1i32 } else if j == 3 { dx } else { 0i32 })
            &&& m[1][j] == (if j == 1 { 1i32 } else if j == 3 { dy } else { 0i32 })
            &&& m[2][j] == (if j == 2 { 1i32 } else if j == 3 { dz } else { 0i32 })
            &&& m[3][j] == (if j == 3 { 1i32 } else { 0i32 })
        }),
{
}

/// A transform that holds a translation and the translation by the negated
/// offset, composed with its own inverse, holds the identity twice.
pub proof fn lemma_translate_composed_with_inverse(t: Transform<i32>, d: Vector3<i32>)
    requires
        d.x.can_neg(),
        d.y.can_neg(),
        d.z.can_neg(),
        t.m@ == translation_grid(d.x, d.y, d.z),
        t.m_inv@ == translation_grid(d.x.negated(), d.y.negated(), d.z.negated()),
    ensures
        ({
            let back = Transform { m: t.m_inv, m_inv: t.m };
            &&& t.compose_req(back)
            &&& t.compose(back).m@ == identity_grid::<i32>()
            &&& t.compose(back).m_inv@ == identity_grid::<i32>()
        }),
{
    lemma_translation_times_its_inverse(d.x, d.y, d.z);
    lemma_identity_entries::<i32>();
    Matrix44::<i32>::lemma_of(identity_grid::<i32>());
}

/// The inverse that `translate` stores for an offset is the matrix that it
/// stores for the negated offset.
pub proof fn lemma_translate_inverse_is_translate_negated(d: Vector3<i32>)
    requires
        d.x.can_neg(),
        d.y.can_neg(),
        d.z.can_neg(),
    ensures
        d.opposite_req(),
        translation_grid(d.opposite().x, d.opposite().y, d.opposite().z) == translation_grid(
            d.x.negated(),
            d.y.negated(),
            d.z.negated(),
        ),
{
    lemma_minus_one_times(d.x);
    lemma_minus_one_times(d.y);
    lemma_minus_one_times(d.z);
}

/// Minus one times a number is its negation.
proof fn lemma_minus_one_times(x: i32)
    requires
        x.can_neg(),
    ensures
        1i32.negated().can_mul(x),
        1i32.negated().times(x) == x.negated(),
{
    let neg_one = 1i32.negated();
    assert(neg_one * x == -x) by (nonlinear_arith)
        requires
            neg_one == -1,
    ;
}

/// Whether `s` has a row of zeros at index `lo` or below it.
pub open spec fn has_zero_row_from(s: Grid<i32>, lo: int) -> bool {
    exists|z: int| lo <= z < 4 && is_zero_row(s, z)
}

pub open spec fn is_zero_row(s: Grid<i32>, z: int) -> bool {
    forall|k: int| 0 <= k < 4 ==> #[trigger] s[z][k] == 0
}

/// The pivot row holds the entry of largest magnitude in its column among the
/// rows from the diagonal down, and is the first row that does.
pub proof fn lemma_pivot_is_largest(s: Grid<i32>, i: int)
    requires
        0 <= i < 4,
    ensures
        i <= pivot_row(s, i) < 4,
        forall|j: int|
            i <= j < 4 ==> (#[trigger] s[j])[i].magnitude() <= s[pivot_row(s, i)][i].magnitude(),
        forall|j: int|
            i <= j < pivot_row(s, i) ==> (#[trigger] s[j])[i].magnitude() < s[pivot_row(
                s,
                i,
            )][i].magnitude(),
{
    lemma_pivot_upto_is_largest(s, i, 3);
}

proof fn lemma_pivot_upto_is_largest(s: Grid<i32>, i: int, n: int)
    requires
        i <= n,
    ensures
        i <= pivot_upto(s, i, n) <= n,
        forall|j: int|
            i <= j <= n ==> (#[trigger] s[j])[i].magnitude() <= s[pivot_upto(s, i, n)][i].magnitude(),
        forall|j: int|
            i <= j < pivot_upto(s, i, n) ==> (#[trigger] s[j])[i].magnitude() < s[pivot_upto(
                s,
                i,
                n,
            )][i].magnitude(),
    decreases n - i,
{
    if n > i {
        lemma_pivot_upto_is_largest(s, i, n - 1);
    }
}

/// A forward step that finds a pivot keeps the shape of `s`, and a row of
/// zeros at `i` or below it is afterwards found below `i`.
#[verifier::rlimit(30)]
proof fn lemma_forward_keeps_zero_row(s: Grid<i32>, i: int)
    requires
        is_grid(s),
        0 <= i < 3,
        has_zero_row_from(s, i),
        !forward_stuck(s, i),
    ensures
        is_grid(forward_s(s, i)),
        has_zero_row_from(forward_s(s, i), i + 1),
{
    let z = choose|z: int| i <= z < 4 && is_zero_row(s, z);
    let p = pivot_row(s, i);
    lemma_pivot_is_largest(s, i);
    assert(s[z][i] == 0);
    assert(p != z);
    let s1 = swap_rows(s, i, p);
    let z1 = if z == i {
        p
    } else {
        z
    };
    assert(i < z1 < 4);
    assert(s1[z1] == s[z]);
    let q = quotients(s1, i);
    let s2 = reduce_rows(s1, q, i, i + 1, 4);
    assert(s1[i] == s[p]);
    assert(s1[i][i] != 0);
    assert(s1[z1][i] == 0);
    assert(q[z1] == 0);
    assert forall|k: int| 0 <= k < 4 implies #[trigger] s2[z1][k] == 0 by {
        assert(s1[z1][k] == 0);
    }
    assert(is_zero_row(s2, z1));
    assert(is_grid(s2));
}

/// With a row of zeros at `i` or below it, the forward steps from column `i`
/// on and the backward steps after them end without a result.
proof fn lemma_zero_row_stops(s: Grid<i32>, r: Grid<i32>, i: int)
    requires
        is_grid(s),
        0 <= i <= 3,
        has_zero_row_from(s, i),
    ensures
        forward_from(s, r, i) is None,
    decreases 3 - i,
{
    if i >= 3 {
        let z = choose|z: int| i <= z < 4 && is_zero_row(s, z);
        assert(s[3][3] == 0);
        assert(backward_stuck(s, 3));
    } else if !forward_stuck(s, i) {
        lemma_forward_keeps_zero_row(s, i);
        lemma_zero_row_stops(forward_s(s, i), forward_r(s, r, i), i + 1);
    }
}

/// A matrix with a row of zeros is singular: elimination finds no inverse for
/// it, so that `inverse` yields the identity matrix.
pub proof fn lemma_zero_row_is_singular(m: Grid<i32>, z: int)
    requires
        is_grid(m),
        0 <= z < 4,
        is_zero_row(m, z),
    ensures
        inverted(m) is None,
{
    lemma_zero_row_stops(m, identity_grid::<i32>(), 0);
}

} // verus!
