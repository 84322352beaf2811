//! The mathematical model of a 4×4 matrix: four rows of four scalars, and the
//! operations on it that the matrix type's contracts are stated with.
use vstd::prelude::*;
use crate::value::Value;

verus! {

/// Rows of scalars. A matrix is a grid of four rows of four.
pub type Grid<T> = Seq<Seq<T>>;

/// Whether `g` has four rows of four entries.
pub open spec fn is_grid<T>(g: Grid<T>) -> bool {
    g.len() == 4 && forall|i: int| 0 <= i < 4 ==> (#[trigger] g[i]).len() == 4
}

/// The grid whose entry in row `i` and column `j` is `f(i, j)`.
pub open spec fn grid_of<T>(f: spec_fn(int, int) -> T) -> Grid<T> {
    Seq::new(4, |i: int| Seq::new(4, |j: int| f(i, j)))
}

pub open spec fn zero_grid<T: Value>() -> Grid<T> {
    grid_of(|i: int, j: int| T::nil())
}

pub open spec fn identity_grid<T: Value>() -> Grid<T> {
    grid_of(
        |i: int, j: int|
            if i == j {
                T::unit()
            } else {
                T::nil()
            },
    )
}

/// The entries of the identity: one on the diagonal, zero elsewhere.
pub proof fn lemma_identity_entries<T: Value>()
    ensures
        is_grid(identity_grid::<T>()),
        forall|i: int, j: int|
            0 <= i < 4 && 0 <= j < 4 ==> #[trigger] identity_grid::<T>()[i][j] == (if i == j {
                T::unit()
            } else {
                T::nil()
            }),
{
}

/// Transposing twice gives the grid back.
pub proof fn lemma_transposed_twice<T>(g: Grid<T>)
    requires
        is_grid(g),
    ensures
        transposed(transposed(g)) == g,
{
    assert(transposed(transposed(g)) =~~= g);
}

/// Rows and columns exchanged.
pub open spec fn transposed<T>(g: Grid<T>) -> Grid<T> {
    grid_of(|i: int, j: int| g[j][i])
}

/// Entry `(i, j)` of the product `a · b`: the sum over `k` of `a[i][k] · b[k][j]`,
/// added from left to right.
pub open spec fn product_entry<T: Value>(a: Grid<T>, b: Grid<T>, i: int, j: int) -> T {
    a[i][0].times(b[0][j]).plus(a[i][1].times(b[1][j])).plus(a[i][2].times(b[2][j])).plus(
        a[i][3].times(b[3][j]),
    )
}

/// Whether every product and sum of `product_entry(a, b, i, j)` is defined.
pub open spec fn can_product_entry<T: Value>(a: Grid<T>, b: Grid<T>, i: int, j: int) -> bool {
    let p0 = a[i][0].times(b[0][j]);
    let p1 = a[i][1].times(b[1][j]);
    let p2 = a[i][2].times(b[2][j]);
    let p3 = a[i][3].times(b[3][j]);
    &&& a[i][0].can_mul(b[0][j])
    &&& a[i][1].can_mul(b[1][j])
    &&& a[i][2].can_mul(b[2][j])
    &&& a[i][3].can_mul(b[3][j])
    &&& p0.can_add(p1)
    &&& p0.plus(p1).can_add(p2)
    &&& p0.plus(p1).plus(p2).can_add(p3)
}

/// The matrix product `a · b`.
pub open spec fn product<T: Value>(a: Grid<T>, b: Grid<T>) -> Grid<T> {
    grid_of(|i: int, j: int| product_entry(a, b, i, j))
}

pub open spec fn can_multiply<T: Value>(a: Grid<T>, b: Grid<T>) -> bool {
    forall|i: int, j: int| 0 <= i < 4 && 0 <= j < 4 ==> #[trigger] can_product_entry(a, b, i, j)
}

/// The entries of the product are the `product_entry`s.
pub proof fn lemma_product_entries<T: Value>(a: Grid<T>, b: Grid<T>)
    ensures
        is_grid(product(a, b)),
        forall|i: int, j: int|
            0 <= i < 4 && 0 <= j < 4 ==> #[trigger] product(a, b)[i][j] == product_entry(
                a,
                b,
                i,
                j,
            ),
{
}

/// Rows `a` and `b` exchanged.
pub open spec fn swap_rows<T>(g: Grid<T>, a: int, b: int) -> Grid<T> {
    Seq::new(
        4,
        |j: int|
            if j == a {
                g[b]
            } else if j == b {
                g[a]
            } else {
                g[j]
            },
    )
}

/// `row` less `f` times `other`, entry by entry.
pub open spec fn lessened_row<T: Value>(row: Seq<T>, f: T, other: Seq<T>) -> Seq<T> {
    Seq::new(4, |k: int| row[k].minus(f.times(other[k])))
}

pub open spec fn can_lessen_row<T: Value>(row: Seq<T>, f: T, other: Seq<T>) -> bool {
    forall|k: int|
        0 <= k < 4 ==> f.can_mul(#[trigger] other[k]) && row[k].can_sub(f.times(other[k]))
}

/// `row` with every entry divided by `f`.
pub open spec fn divided_row<T: Value>(row: Seq<T>, f: T) -> Seq<T> {
    Seq::new(4, |k: int| row[k].over(f))
}

pub open spec fn can_divide_row<T: Value>(row: Seq<T>, f: T) -> bool {
    forall|k: int| 0 <= k < 4 ==> (#[trigger] row[k]).can_div(f)
}

/// Each row `a` with `lo <= a < hi` less `factors[a]` times row `i`; the other
/// rows as they are.
pub open spec fn reduce_rows<T: Value>(
    g: Grid<T>,
    factors: Seq<T>,
    i: int,
    lo: int,
    hi: int,
) -> Grid<T> {
    Seq::new(
        4,
        |a: int|
            if lo <= a < hi {
                lessened_row(g[a], factors[a], g[i])
            } else {
                g[a]
            },
    )
}

pub open spec fn can_reduce_rows<T: Value>(
    g: Grid<T>,
    factors: Seq<T>,
    i: int,
    lo: int,
    hi: int,
) -> bool {
    forall|a: int| lo <= a < hi && 0 <= a < 4 ==> can_lessen_row(#[trigger] g[a], factors[a], g[i])
}

/// Column `i`, read from top to bottom.
pub open spec fn column<T>(g: Grid<T>, i: int) -> Seq<T> {
    Seq::new(4, |a: int| g[a][i])
}

/// Column `i` with each entry divided by the diagonal entry `g[i][i]`.
pub open spec fn quotients<T: Value>(g: Grid<T>, i: int) -> Seq<T> {
    Seq::new(4, |a: int| g[a][i].over(g[i][i]))
}

} // verus!
