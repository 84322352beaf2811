//! Where integer elimination stays in range and divides without remainder,
//! what it finds is an inverse: its product with the matrix is the identity.
//!
//! The proof keeps two facts through the run. The first is that `r · m = s`
//! over the integers: it holds at the start, where `r` is the identity and `s`
//! is `m`, and every row operation keeps it, because it is applied to both
//! grids. The second is the shape of `s`: the forward steps clear it below the
//! diagonal, the backward steps turn it into the identity.
use vstd::prelude::*;
use crate::elimination::{
    backward_from, backward_r, backward_s, backward_stuck, can_backward, can_backward_from,
    can_forward, can_forward_from, can_invert, forward_from, forward_r, forward_s, forward_stuck,
    inverted, pivot_row,
};
use crate::exact::lemma_pivot_is_largest;
use crate::grid::{
    can_divide_row, can_lessen_row, can_reduce_rows, column, divided_row, identity_grid, is_grid,
    lemma_identity_entries, lessened_row, quotients, reduce_rows, swap_rows, Grid,
};
use crate::value::{truncated_quotient, Value};

verus! {

/// `row · m` in column `k`, over the integers.
pub open spec fn row_times(row: Seq<i32>, m: Grid<i32>, k: int) -> int {
    row[0] * m[0][k] + row[1] * m[1][k] + row[2] * m[2][k] + row[3] * m[3][k]
}

/// Whether `r · m = s` over the integers.
pub open spec fn carries(r: Grid<i32>, m: Grid<i32>, s: Grid<i32>) -> bool {
    forall|j: int, k: int| 0 <= j < 4 && 0 <= k < 4 ==> #[trigger] row_times(r[j], m, k) == s[j][k]
}

/// Whether `r · m` is the identity over the integers.
pub open spec fn is_left_inverse(r: Grid<i32>, m: Grid<i32>) -> bool {
    forall|j: int, k: int|
        0 <= j < 4 && 0 <= k < 4 ==> #[trigger] row_times(r[j], m, k) == (if j == k {
            1int
        } else {
            0int
        })
}

/// Whether `f` divides `x` without remainder: the quotient times `f` is `x`.
pub open spec fn divides(f: int, x: int) -> bool {
    f != 0 && truncated_quotient(x, f) * f == x
}

/// Whether forward step `i` divides without remainder: the pivot divides
/// every entry under it.
pub open spec fn exact_forward(s: Grid<i32>, i: int) -> bool {
    let s1 = swap_rows(s, i, pivot_row(s, i));
    forall|a: int| i < a < 4 ==> divides(s1[i][i] as int, #[trigger] s1[a][i] as int)
}

/// Whether backward step `i` divides without remainder: the diagonal entry of
/// `s` divides every entry of row `i` of `r`.
pub open spec fn exact_backward(s: Grid<i32>, r: Grid<i32>, i: int) -> bool {
    forall|k: int| 0 <= k < 4 ==> divides(s[i][i] as int, #[trigger] r[i][k] as int)
}

/// Whether the backward steps for the rows `n - 1` down to 0 divide without remainder.
pub open spec fn exact_backward_from(s: Grid<i32>, r: Grid<i32>, n: int) -> bool
    decreases n,
{
    if n <= 0 || backward_stuck(s, n - 1) {
        true
    } else {
        &&& exact_backward(s, r, n - 1)
        &&& exact_backward_from(backward_s(s, n - 1), backward_r(s, r, n - 1), n - 1)
    }
}

/// Whether the forward steps for the columns `i .. 3`, and the backward steps
/// after them, divide without remainder.
pub open spec fn exact_forward_from(s: Grid<i32>, r: Grid<i32>, i: int) -> bool
    decreases 3 - i,
{
    if i >= 3 {
        exact_backward_from(s, r, 4)
    } else if forward_stuck(s, i) {
        true
    } else {
        &&& exact_forward(s, i)
        &&& exact_forward_from(forward_s(s, i), forward_r(s, r, i), i + 1)
    }
}

/// Whether the elimination on `m` divides without remainder throughout.
pub open spec fn exact_elimination(m: Grid<i32>) -> bool {
    exact_forward_from(m, identity_grid(), 0)
}

/// Whether the columns before `i` hold zeros below the diagonal.
pub open spec fn cleared_before(s: Grid<i32>, i: int) -> bool {
    forall|a: int, c: int| 0 <= c < i && c < a < 4 ==> #[trigger] s[a][c] == 0
}

/// Whether the columns from `n` on are those of the identity above the
/// diagonal and on it.
pub open spec fn settled_from(s: Grid<i32>, n: int) -> bool {
    forall|a: int, c: int|
        n <= c < 4 && 0 <= a <= c ==> #[trigger] s[a][c] == (if a == c {
            1i32
        } else {
            0i32
        })
}

/// A factor of a number is no larger in magnitude than the number.
proof fn lemma_factor_bound(q: int, f: int, x: int)
    requires
        q * f == x,
        f != 0,
    ensures
        x >= 0 ==> -x <= q <= x,
        x < 0 ==> x <= q <= -x,
{
    if f > 0 {
        if q >= 0 {
            assert(q * f >= q) by (nonlinear_arith)
                requires
                    q >= 0,
                    f >= 1,
            ;
        } else {
            assert(q * f <= q) by (nonlinear_arith)
                requires
                    q < 0,
                    f >= 1,
            ;
        }
    } else {
        if q >= 0 {
            assert(q * f <= -q) by (nonlinear_arith)
                requires
                    q >= 0,
                    f <= -1,
            ;
        } else {
            assert(q * f >= -q) by (nonlinear_arith)
                requires
                    q < 0,
                    f <= -1,
            ;
        }
    }
}

/// Where `f` divides `x` without remainder and the machine can divide the
/// two, the machine's quotient times `f` is `x`.
proof fn lemma_exact_over(x: i32, f: i32)
    requires
        x.can_div(f),
        divides(f as int, x as int),
    ensures
        x.over(f) * f == x,
{
    let q = truncated_quotient(x as int, f as int);
    lemma_factor_bound(q, f as int, x as int);
    if q == 0x8000_0000 {
        assert(x == i32::MIN);
        assert(f == -1) by (nonlinear_arith)
            requires
                q * f == x,
                q == 0x8000_0000,
                x == -0x8000_0000,
        ;
    }
}

/// The product of a lessened row with `m` is the product of the row less the
/// multiple of the product of the other row.
#[verifier::rlimit(30)]
proof fn lemma_lessened_row_times(row: Seq<i32>, f: i32, other: Seq<i32>, m: Grid<i32>, k: int)
    requires
        row.len() == 4,
        other.len() == 4,
        can_lessen_row(row, f, other),
    ensures
        row_times(lessened_row(row, f, other), m, k) == row_times(row, m, k) - f * row_times(
            other,
            m,
            k,
        ),
{
    let l = lessened_row(row, f, other);
    assert forall|c: int| 0 <= c < 4 implies (#[trigger] l[c]) * m[c][k] == row[c] * m[c][k] - f * (
    other[c] * m[c][k]) by {
        assert(f.can_mul(other[c]));
        assert(l[c] == row[c] - f * other[c]);
        lemma_term_lessened(row[c] as int, f as int, other[c] as int, m[c][k] as int);
    }
    assert(l[0] * m[0][k] == row[0] * m[0][k] - f * (other[0] * m[0][k]));
    assert(l[1] * m[1][k] == row[1] * m[1][k] - f * (other[1] * m[1][k]));
    assert(l[2] * m[2][k] == row[2] * m[2][k] - f * (other[2] * m[2][k]));
    assert(l[3] * m[3][k] == row[3] * m[3][k] - f * (other[3] * m[3][k]));
    lemma_four_terms_times(
        other[0] * m[0][k],
        other[1] * m[1][k],
        other[2] * m[2][k],
        other[3] * m[3][k],
        f as int,
    );
}

/// `(a - g * b) * x = a * x - g * (b * x)`.
proof fn lemma_term_lessened(a: int, g: int, b: int, x: int)
    ensures
        (a - g * b) * x == a * x - g * (b * x),
{
    assert((a - g * b) * x == a * x - g * (b * x)) by (nonlinear_arith);
}

/// A factor may be drawn out of a sum of four terms.
proof fn lemma_four_terms_times(t0: int, t1: int, t2: int, t3: int, g: int)
    ensures
        g * (t0 + t1 + t2 + t3) == g * t0 + g * t1 + g * t2 + g * t3,
        (t0 + t1 + t2 + t3) * g == t0 * g + t1 * g + t2 * g + t3 * g,
{
    assert(g * (t0 + t1 + t2 + t3) == g * t0 + g * t1 + g * t2 + g * t3) by (nonlinear_arith);
    assert((t0 + t1 + t2 + t3) * g == t0 * g + t1 * g + t2 * g + t3 * g) by (nonlinear_arith);
}

/// `(q * x) * g = (q * g) * x`.
proof fn lemma_term_scaled(q: int, x: int, g: int)
    ensures
        (q * x) * g == (q * g) * x,
{
    assert((q * x) * g == (q * g) * x) by (nonlinear_arith);
}

/// The product of a row divided without remainder with `m`, times the
/// divisor, is the product of the row.
#[verifier::rlimit(30)]
proof fn lemma_divided_row_times(row: Seq<i32>, f: i32, m: Grid<i32>, k: int)
    requires
        row.len() == 4,
        can_divide_row(row, f),
        forall|c: int| 0 <= c < 4 ==> divides(f as int, #[trigger] row[c] as int),
    ensures
        row_times(divided_row(row, f), m, k) * f == row_times(row, m, k),
{
    let d = divided_row(row, f);
    assert forall|c: int| 0 <= c < 4 implies ((#[trigger] d[c]) * m[c][k]) * f == row[c] * m[c][k] by {
        assert(row[c].can_div(f));
        assert(divides(f as int, row[c] as int));
        lemma_exact_over(row[c], f);
        lemma_term_scaled(d[c] as int, m[c][k] as int, f as int);
    }
    assert((d[0] * m[0][k]) * f == row[0] * m[0][k]);
    assert((d[1] * m[1][k]) * f == row[1] * m[1][k]);
    assert((d[2] * m[2][k]) * f == row[2] * m[2][k]);
    assert((d[3] * m[3][k]) * f == row[3] * m[3][k]);
    lemma_four_terms_times(d[0] * m[0][k], d[1] * m[1][k], d[2] * m[2][k], d[3] * m[3][k], f as int);
}

/// Exchanging two rows in both grids keeps `r · m = s`.
proof fn lemma_swap_carries(r: Grid<i32>, m: Grid<i32>, s: Grid<i32>, a: int, b: int)
    requires
        carries(r, m, s),
        0 <= a < 4,
        0 <= b < 4,
    ensures
        carries(swap_rows(r, a, b), m, swap_rows(s, a, b)),
{
    let r1 = swap_rows(r, a, b);
    let s1 = swap_rows(s, a, b);
    assert forall|j: int, k: int| 0 <= j < 4 && 0 <= k < 4 implies #[trigger] row_times(
        r1[j],
        m,
        k,
    ) == s1[j][k] by {
        let from = if j == a {
            b
        } else if j == b {
            a
        } else {
            j
        };
        assert(r1[j] == r[from]);
        assert(s1[j] == s[from]);
        assert(row_times(r[from], m, k) == s[from][k]);
    }
}

/// Taking multiples of row `i` from other rows, with the same factors in
/// both grids, keeps `r · m = s`.
#[verifier::rlimit(30)]
proof fn lemma_reduce_carries(
    r: Grid<i32>,
    m: Grid<i32>,
    s: Grid<i32>,
    factors: Seq<i32>,
    i: int,
    lo: int,
    hi: int,
)
    requires
        carries(r, m, s),
        is_grid(r),
        is_grid(s),
        0 <= i < 4,
        !(lo <= i < hi),
        can_reduce_rows(r, factors, i, lo, hi),
        can_reduce_rows(s, factors, i, lo, hi),
    ensures
        carries(reduce_rows(r, factors, i, lo, hi), m, reduce_rows(s, factors, i, lo, hi)),
{
    let r2 = reduce_rows(r, factors, i, lo, hi);
    let s2 = reduce_rows(s, factors, i, lo, hi);
    assert forall|j: int, k: int| 0 <= j < 4 && 0 <= k < 4 implies #[trigger] row_times(
        r2[j],
        m,
        k,
    ) == s2[j][k] by {
        assert(row_times(r[j], m, k) == s[j][k]);
        assert(row_times(r[i], m, k) == s[i][k]);
        if lo <= j < hi {
            let f = factors[j];
            assert(can_lessen_row(r[j], f, r[i]));
            assert(can_lessen_row(s[j], f, s[i]));
            lemma_lessened_row_times(r[j], f, r[i], m, k);
            assert(f.can_mul(s[i][k]));
            assert(s2[j][k] == s[j][k] - f * s[i][k]);
        }
    }
}

/// The magnitude of an `i32` other than the least is zero only for zero.
proof fn lemma_magnitude_zero(x: i32)
    requires
        x.can_abs(),
    ensures
        x.magnitude().same(0i32) <==> x == 0,
{
}

/// A forward step that divides without remainder keeps `r · m = s`, and clears
/// one more column of `s` below the diagonal.
#[verifier::rlimit(30)]
proof fn lemma_forward_step(s: Grid<i32>, r: Grid<i32>, m: Grid<i32>, i: int)
    requires
        carries(r, m, s),
        is_grid(s),
        is_grid(r),
        0 <= i < 3,
        cleared_before(s, i),
        can_forward(s, r, i),
        !forward_stuck(s, i),
        exact_forward(s, i),
    ensures
        carries(forward_r(s, r, i), m, forward_s(s, i)),
        is_grid(forward_s(s, i)),
        is_grid(forward_r(s, r, i)),
        cleared_before(forward_s(s, i), i + 1),
{
    let p = pivot_row(s, i);
    lemma_pivot_is_largest(s, i);
    let s1 = swap_rows(s, i, p);
    let r1 = swap_rows(r, i, p);
    let q = quotients(s1, i);
    let s2 = reduce_rows(s1, q, i, i + 1, 4);
    lemma_swap_carries(r, m, s, i, p);
    lemma_reduce_carries(r1, m, s1, q, i, i + 1, 4);
    assert(s[p][i].can_abs());
    lemma_magnitude_zero(s[p][i]);
    assert(s1[i] == s[p]);
    assert(s1[i][i] != 0);
    assert forall|a: int, c: int| 0 <= c < i && c < a < 4 implies #[trigger] s1[a][c] == 0 by {
        let from = if a == i {
            p
        } else if a == p {
            i
        } else {
            a
        };
        assert(s1[a] == s[from]);
        assert(s[from][c] == 0);
    }
    assert forall|a: int, c: int| 0 <= c < i + 1 && c < a < 4 implies #[trigger] s2[a][c] == 0 by {
        if a > i {
            assert(can_lessen_row(s1[a], q[a], s1[i]));
            assert(q[a].can_mul(s1[i][c]));
            assert(s2[a][c] == s1[a][c] - q[a] * s1[i][c]);
            if c < i {
                assert(s1[a][c] == 0);
                assert(s1[i][c] == 0);
                assert(q[a] * s1[i][c] == 0) by (nonlinear_arith)
                    requires
                        s1[i][c] == 0,
                ;
            } else {
                assert(s1[a][i].can_div(s1[i][i]));
                assert(divides(s1[i][i] as int, s1[a][i] as int));
                lemma_exact_over(s1[a][i], s1[i][i]);
            }
        } else {
            assert(s2[a] == s1[a]);
            assert(s1[a][c] == 0);
        }
    }
}

/// A number that is not zero divides itself and zero: once and not at all.
proof fn lemma_quotients_of_self_and_zero(f: i32)
    requires
        f != 0,
    ensures
        f.can_div(f),
        0i32.can_div(f),
        f.over(f) == 1,
        0i32.over(f) == 0,
        divides(f as int, f as int),
        divides(f as int, 0),
{
    let g = f as int;
    assert(g / g == 1 && 0int / g == 0 && (-g) / g == -1) by (nonlinear_arith)
        requires
            g != 0,
    ;
}

/// Two numbers with the same multiple of a number other than zero are the same.
proof fn lemma_cancel(a: int, b: int, f: int)
    requires
        a * f == b * f,
        f != 0,
    ensures
        a == b,
{
    assert((a - b) * f == 0) by (nonlinear_arith)
        requires
            a * f == b * f,
    ;
    assert(a - b == 0) by (nonlinear_arith)
        requires
            (a - b) * f == 0,
            f != 0,
    ;
}

/// A backward step that divides without remainder keeps `r · m = s`, and
/// turns one more column of `s` into that of the identity.
#[verifier::rlimit(30)]
proof fn lemma_backward_step(s: Grid<i32>, r: Grid<i32>, m: Grid<i32>, i: int)
    requires
        carries(r, m, s),
        is_grid(s),
        is_grid(r),
        0 <= i < 4,
        cleared_before(s, 3),
        settled_from(s, i + 1),
        can_backward(s, r, i),
        !backward_stuck(s, i),
        exact_backward(s, r, i),
    ensures
        carries(backward_r(s, r, i), m, backward_s(s, i)),
        is_grid(backward_s(s, i)),
        is_grid(backward_r(s, r, i)),
        cleared_before(backward_s(s, i), 3),
        settled_from(backward_s(s, i), i),
{
    let f = s[i][i];
    lemma_quotients_of_self_and_zero(f);
    // Row `i` of `s` holds the diagonal entry and zeros.
    assert forall|c: int| 0 <= c < 4 implies #[trigger] s[i][c] == (if c == i {
        f
    } else {
        0i32
    }) by {}
    let unit_row = divided_row(s[i], f);
    assert forall|c: int| 0 <= c < 4 implies #[trigger] unit_row[c] == (if c == i {
        1i32
    } else {
        0i32
    }) by {
        assert(unit_row[c] == s[i][c].over(f));
    }
    let s1 = s.update(i, unit_row);
    let r1 = r.update(i, divided_row(r[i], f));
    // Dividing row `i` keeps `r · m = s`.
    assert forall|j: int, k: int| 0 <= j < 4 && 0 <= k < 4 implies #[trigger] row_times(
        r1[j],
        m,
        k,
    ) == s1[j][k] by {
        assert(row_times(r[j], m, k) == s[j][k]);
        if j == i {
            lemma_divided_row_times(r[i], f, m, k);
            if k == i {
                assert(unit_row[k] * f == s[i][k]) by (nonlinear_arith)
                    requires
                        unit_row[k] == 1,
                        s[i][k] == f,
                ;
            } else {
                assert(unit_row[k] * f == s[i][k]) by (nonlinear_arith)
                    requires
                        unit_row[k] == 0,
                        s[i][k] == 0,
                ;
            }
            lemma_cancel(row_times(r1[i], m, k), s1[i][k] as int, f as int);
        }
    }
    let c = column(s1, i);
    lemma_reduce_carries(r1, m, s1, c, i, 0, i);
    let s2 = reduce_rows(s1, c, i, 0, i);
    assert forall|a: int, k: int| 0 <= a < 4 && 0 <= k < 4 implies #[trigger] s2[a][k] == (if a < i
        && k == i {
        0i32
    } else {
        s1[a][k]
    }) by {
        if a < i {
            assert(can_lessen_row(s1[a], c[a], s1[i]));
            assert(c[a].can_mul(s1[i][k]));
            assert(s2[a][k] == s1[a][k] - c[a] * s1[i][k]);
            assert(s1[i][k] == unit_row[k]);
            if k == i {
                assert(c[a] * s1[i][k] == c[a]) by (nonlinear_arith)
                    requires
                        s1[i][k] == 1,
                ;
            } else {
                assert(c[a] * s1[i][k] == 0) by (nonlinear_arith)
                    requires
                        s1[i][k] == 0,
                ;
            }
        }
    }
    assert forall|a: int, k: int| 0 <= a < 4 && 0 <= k < 4 implies #[trigger] s1[a][k] == (if a
        == i {
        unit_row[k]
    } else {
        s[a][k]
    }) by {}
    assert forall|a: int, k: int| 0 <= k < 3 && k < a < 4 implies #[trigger] s2[a][k] == 0 by {
        assert(s[a][k] == 0);
    }
    assert forall|a: int, k: int| i <= k < 4 && 0 <= a <= k implies #[trigger] s2[a][k] == (if a
        == k {
        1i32
    } else {
        0i32
    }) by {
        if k > i {
            assert(s[a][k] == (if a == k {
                1i32
            } else {
                0i32
            }));
        }
    }
}

/// With `s` cleared below the diagonal and `r · m = s`, backward steps that
/// divide without remainder end with a left inverse of `m`.
proof fn lemma_backward_chain(s: Grid<i32>, r: Grid<i32>, m: Grid<i32>, n: int)
    requires
        carries(r, m, s),
        is_grid(s),
        is_grid(r),
        0 <= n <= 4,
        cleared_before(s, 3),
        settled_from(s, n),
        can_backward_from(s, r, n),
        exact_backward_from(s, r, n),
        backward_from(s, r, n) is Some,
    ensures
        is_grid(backward_from(s, r, n).unwrap()),
        is_left_inverse(backward_from(s, r, n).unwrap(), m),
    decreases n,
{
    if n == 0 {
        assert forall|j: int, k: int| 0 <= j < 4 && 0 <= k < 4 implies #[trigger] row_times(
            r[j],
            m,
            k,
        ) == (if j == k {
            1int
        } else {
            0int
        }) by {
            assert(s[j][k] == (if j == k {
                1i32
            } else {
                0i32
            }));
        }
    } else {
        lemma_backward_step(s, r, m, n - 1);
        lemma_backward_chain(backward_s(s, n - 1), backward_r(s, r, n - 1), m, n - 1);
    }
}

/// With the columns before `i` of `s` cleared below the diagonal and
/// `r · m = s`, steps that divide without remainder end with a left inverse
/// of `m`.
proof fn lemma_forward_chain(s: Grid<i32>, r: Grid<i32>, m: Grid<i32>, i: int)
    requires
        carries(r, m, s),
        is_grid(s),
        is_grid(r),
        0 <= i <= 3,
        cleared_before(s, i),
        can_forward_from(s, r, i),
        exact_forward_from(s, r, i),
        forward_from(s, r, i) is Some,
    ensures
        is_grid(forward_from(s, r, i).unwrap()),
        is_left_inverse(forward_from(s, r, i).unwrap(), m),
    decreases 3 - i,
{
    if i >= 3 {
        lemma_backward_chain(s, r, m, 4);
    } else {
        lemma_forward_step(s, r, m, i);
        lemma_forward_chain(forward_s(s, i), forward_r(s, r, i), m, i + 1);
    }
}

/// Where the elimination on `m` stays in range, divides without remainder
/// and finds a result, the result times `m` is the identity.
pub proof fn lemma_exact_elimination_inverts(m: Grid<i32>)
    requires
        is_grid(m),
        can_invert(m),
        exact_elimination(m),
        inverted(m) is Some,
    ensures
        is_grid(inverted(m).unwrap()),
        is_left_inverse(inverted(m).unwrap(), m),
{
    let e = identity_grid::<i32>();
    lemma_identity_entries::<i32>();
    assert forall|j: int, k: int| 0 <= j < 4 && 0 <= k < 4 implies #[trigger] row_times(e[j], m, k)
        == m[j][k] by {
        assert(e[j][0] == (if j == 0 { 1i32 } else { 0i32 }));
        assert(e[j][1] == (if j == 1 { 1i32 } else { 0i32 }));
        assert(e[j][2] == (if j == 2 { 1i32 } else { 0i32 }));
        assert(e[j][3] == (if j == 3 { 1i32 } else { 0i32 }));
    }
    lemma_forward_chain(m, e, m, 0);
}

/// `x * (y * z) = (x * y) * z`.
proof fn lemma_three_factors(x: int, y: int, z: int)
    ensures
        x * (y * z) == (x * y) * z,
{
    assert(x * (y * z) == (x * y) * z) by (nonlinear_arith);
}

/// A number times one or zero.
proof fn lemma_times_unit(x: int, u: int)
    requires
        u == 0 || u == 1,
    ensures
        x * u == (if u == 1 { x } else { 0 }),
        u * x == (if u == 1 { x } else { 0 }),
{
    assert(x * u == (if u == 1 { x } else { 0 }) && u * x == (if u == 1 { x } else { 0 }))
        by (nonlinear_arith)
        requires
            u == 0 || u == 1,
    ;
}

/// `x · (y · z)` and `(x · y) · z` in one entry: the row `x` times the column
/// `k` of `y · z` is the row `x · y` times the column `k` of `z`.
#[verifier::rlimit(30)]
proof fn lemma_row_associates(x: Seq<i32>, y: Grid<i32>, z: Grid<i32>, k: int)
    requires
        x.len() == 4,
        is_grid(y),
        is_grid(z),
        0 <= k < 4,
    ensures
        x[0] * row_times(y[0], z, k) + x[1] * row_times(y[1], z, k) + x[2] * row_times(y[2], z, k)
            + x[3] * row_times(y[3], z, k) == row_times(x, y, 0) * z[0][k] + row_times(x, y, 1)
            * z[1][k] + row_times(x, y, 2) * z[2][k] + row_times(x, y, 3) * z[3][k],
{
    assert forall|a: int| 0 <= a < 4 implies (#[trigger] x[a]) * row_times(y[a], z, k) == x[a] * (
    y[a][0] * z[0][k]) + x[a] * (y[a][1] * z[1][k]) + x[a] * (y[a][2] * z[2][k]) + x[a] * (y[a][3]
        * z[3][k]) by {
        lemma_four_terms_times(
            y[a][0] * z[0][k],
            y[a][1] * z[1][k],
            y[a][2] * z[2][k],
            y[a][3] * z[3][k],
            x[a] as int,
        );
    }
    assert forall|b: int| 0 <= b < 4 implies row_times(x, y, b) * (#[trigger] z[b])[k] == (x[0]
        * y[0][b]) * z[b][k] + (x[1] * y[1][b]) * z[b][k] + (x[2] * y[2][b]) * z[b][k] + (x[3]
        * y[3][b]) * z[b][k] by {
        lemma_four_terms_times(
            x[0] * y[0][b],
            x[1] * y[1][b],
            x[2] * y[2][b],
            x[3] * y[3][b],
            z[b][k] as int,
        );
    }
    assert forall|a: int, b: int| 0 <= a < 4 && 0 <= b < 4 implies (#[trigger] x[a]) * ((
    #[trigger] y[a][b]) * z[b][k]) == (x[a] * y[a][b]) * z[b][k] by {
        lemma_three_factors(x[a] as int, y[a][b] as int, z[b][k] as int);
    }
    assert(x[0] * row_times(y[0], z, k) == x[0] * (y[0][0] * z[0][k]) + x[0] * (y[0][1] * z[1][k])
        + x[0] * (y[0][2] * z[2][k]) + x[0] * (y[0][3] * z[3][k]));
    assert(x[1] * row_times(y[1], z, k) == x[1] * (y[1][0] * z[0][k]) + x[1] * (y[1][1] * z[1][k])
        + x[1] * (y[1][2] * z[2][k]) + x[1] * (y[1][3] * z[3][k]));
    assert(x[2] * row_times(y[2], z, k) == x[2] * (y[2][0] * z[0][k]) + x[2] * (y[2][1] * z[1][k])
        + x[2] * (y[2][2] * z[2][k]) + x[2] * (y[2][3] * z[3][k]));
    assert(x[3] * row_times(y[3], z, k) == x[3] * (y[3][0] * z[0][k]) + x[3] * (y[3][1] * z[1][k])
        + x[3] * (y[3][2] * z[2][k]) + x[3] * (y[3][3] * z[3][k]));
    assert(row_times(x, y, 0) * z[0][k] == (x[0] * y[0][0]) * z[0][k] + (x[1] * y[1][0]) * z[0][k]
        + (x[2] * y[2][0]) * z[0][k] + (x[3] * y[3][0]) * z[0][k]);
    assert(row_times(x, y, 1) * z[1][k] == (x[0] * y[0][1]) * z[1][k] + (x[1] * y[1][1]) * z[1][k]
        + (x[2] * y[2][1]) * z[1][k] + (x[3] * y[3][1]) * z[1][k]);
    assert(row_times(x, y, 2) * z[2][k] == (x[0] * y[0][2]) * z[2][k] + (x[1] * y[1][2]) * z[2][k]
        + (x[2] * y[2][2]) * z[2][k] + (x[3] * y[3][2]) * z[2][k]);
    assert(row_times(x, y, 3) * z[3][k] == (x[0] * y[0][3]) * z[3][k] + (x[1] * y[1][3]) * z[3][k]
        + (x[2] * y[2][3]) * z[3][k] + (x[3] * y[3][3]) * z[3][k]);
}

/// A left inverse of a left inverse of `m` is `m`.
#[verifier::rlimit(30)]
pub proof fn lemma_left_inverse_twice(twice: Grid<i32>, once: Grid<i32>, m: Grid<i32>)
    requires
        is_grid(twice),
        is_grid(once),
        is_grid(m),
        is_left_inverse(once, m),
        is_left_inverse(twice, once),
    ensures
        twice == m,
{
    assert forall|j: int, k: int| 0 <= j < 4 && 0 <= k < 4 implies #[trigger] twice[j][k]
        == m[j][k] by {
        let x = twice[j];
        lemma_row_associates(x, once, m, k);
        assert forall|a: int| 0 <= a < 4 implies (#[trigger] x[a]) * row_times(once[a], m, k) == (
        if a == k {
            x[a] as int
        } else {
            0int
        }) by {
            lemma_times_unit(x[a] as int, row_times(once[a], m, k));
        }
        assert forall|b: int| 0 <= b < 4 implies row_times(x, once, b) * (#[trigger] m[b])[k] == (
        if j == b {
            m[b][k] as int
        } else {
            0int
        }) by {
            lemma_times_unit(m[b][k] as int, row_times(twice[j], once, b));
        }
        assert(x[0] * row_times(once[0], m, k) == (if 0 == k { x[0] as int } else { 0int }));
        assert(x[1] * row_times(once[1], m, k) == (if 1 == k { x[1] as int } else { 0int }));
        assert(x[2] * row_times(once[2], m, k) == (if 2 == k { x[2] as int } else { 0int }));
        assert(x[3] * row_times(once[3], m, k) == (if 3 == k { x[3] as int } else { 0int }));
        assert(row_times(x, once, 0) * m[0][k] == (if j == 0 { m[0][k] as int } else { 0int }));
        assert(row_times(x, once, 1) * m[1][k] == (if j == 1 { m[1][k] as int } else { 0int }));
        assert(row_times(x, once, 2) * m[2][k] == (if j == 2 { m[2][k] as int } else { 0int }));
        assert(row_times(x, once, 3) * m[3][k] == (if j == 3 { m[3][k] as int } else { 0int }));
    }
    assert(twice =~~= m);
}

/// Inverting twice gives the matrix back, where both eliminations stay in
/// range, divide without remainder and find a result.
pub proof fn lemma_exact_inverted_twice(m: Grid<i32>)
    requires
        is_grid(m),
        can_invert(m),
        exact_elimination(m),
        inverted(m) is Some,
        can_invert(inverted(m).unwrap()),
        exact_elimination(inverted(m).unwrap()),
        inverted(inverted(m).unwrap()) is Some,
    ensures
        inverted(inverted(m).unwrap()) == Some(m),
{
    let once = inverted(m).unwrap();
    lemma_exact_elimination_inverts(m);
    lemma_exact_elimination_inverts(once);
    lemma_left_inverse_twice(inverted(once).unwrap(), once, m);
}

} // verus!
