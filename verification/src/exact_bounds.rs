//! A box of integers carried through an affine transform holds every point of
//! the box carried through the same transform.
use vstd::prelude::*;
use crate::bounds3::Bounds3;
use crate::grid::Grid;
use crate::point3::Point3;
use crate::transform::Transform;
use crate::transformable::Transformable;
use crate::value::Value;

verus! {

/// Whether the last row of `g` is `(0, 0, 0, 1)`, as it is for every rigid
/// transform: such a matrix carries a point without dividing.
pub open spec fn is_affine(g: Grid<i32>) -> bool {
    g[3][0] == 0 && g[3][1] == 0 && g[3][2] == 0 && g[3][3] == 1
}

/// `a * x + b * y + c * z + d` over the integers.
pub open spec fn affine(a: int, b: int, c: int, d: int, x: int, y: int, z: int) -> int {
    a * x + b * y + c * z + d
}

/// On a box an affine function is least in the corner that takes, along each
/// axis, the lower end where the coefficient is not negative and the upper end
/// where it is, and greatest in the opposite corner.
proof fn lemma_affine_extremes(
    a: int,
    b: int,
    c: int,
    d: int,
    lx: int,
    hx: int,
    ly: int,
    hy: int,
    lz: int,
    hz: int,
    x: int,
    y: int,
    z: int,
)
    requires
        lx <= x <= hx,
        ly <= y <= hy,
        lz <= z <= hz,
    ensures
        affine(
            a,
            b,
            c,
            d,
            if a >= 0 { lx } else { hx },
            if b >= 0 { ly } else { hy },
            if c >= 0 { lz } else { hz },
        ) <= affine(a, b, c, d, x, y, z),
        affine(a, b, c, d, x, y, z) <= affine(
            a,
            b,
            c,
            d,
            if a >= 0 { hx } else { lx },
            if b >= 0 { hy } else { ly },
            if c >= 0 { hz } else { lz },
        ),
{
    assert(a * (if a >= 0 { lx } else { hx }) <= a * x <= a * (if a >= 0 { hx } else { lx }))
        by (nonlinear_arith)
        requires
            lx <= x <= hx,
    ;
    assert(b * (if b >= 0 { ly } else { hy }) <= b * y <= b * (if b >= 0 { hy } else { ly }))
        by (nonlinear_arith)
        requires
            ly <= y <= hy,
    ;
    assert(c * (if c >= 0 { lz } else { hz }) <= c * z <= c * (if c >= 0 { hz } else { lz }))
        by (nonlinear_arith)
        requires
            lz <= z <= hz,
    ;
}

/// An affine function that stays between two bounds in the eight corners of a
/// box stays between them in the whole box.
proof fn lemma_affine_in_range(
    a: int,
    b: int,
    c: int,
    d: int,
    lx: int,
    hx: int,
    ly: int,
    hy: int,
    lz: int,
    hz: int,
    x: int,
    y: int,
    z: int,
    least: int,
    most: int,
)
    requires
        lx <= x <= hx,
        ly <= y <= hy,
        lz <= z <= hz,
        least <= affine(a, b, c, d, lx, ly, lz) <= most,
        least <= affine(a, b, c, d, hx, ly, lz) <= most,
        least <= affine(a, b, c, d, lx, hy, lz) <= most,
        least <= affine(a, b, c, d, lx, ly, hz) <= most,
        least <= affine(a, b, c, d, lx, hy, hz) <= most,
        least <= affine(a, b, c, d, hx, hy, lz) <= most,
        least <= affine(a, b, c, d, hx, ly, hz) <= most,
        least <= affine(a, b, c, d, hx, hy, hz) <= most,
    ensures
        least <= affine(a, b, c, d, x, y, z) <= most,
{
    lemma_affine_extremes(a, b, c, d, lx, hx, ly, hy, lz, hz, x, y, z);
}

/// Where each row of a matrix can be applied to the eight corners of a box,
/// it can be applied to every point of the box.
#[verifier::rlimit(40)]
proof fn lemma_row_applies_in_box(b: Bounds3<i32>, g: Grid<i32>, p: Point3<i32>, i: int)
    requires
        b.inside_spec(p),
        forall|k: int| 0 <= k < 8 ==> (#[trigger] b.vertex(k)).row_applied_req(g, i),
    ensures
        p.row_applied_req(g, i),
{
    let a0 = g[i][0] as int;
    let a1 = g[i][1] as int;
    let a2 = g[i][2] as int;
    let a3 = g[i][3] as int;
    let lx = b.p_min.x as int;
    let hx = b.p_max.x as int;
    let ly = b.p_min.y as int;
    let hy = b.p_max.y as int;
    let lz = b.p_min.z as int;
    let hz = b.p_max.z as int;
    let least = i32::MIN as int;
    let most = i32::MAX as int;
    assert(b.vertex(0).row_applied_req(g, i));
    assert(b.vertex(1).row_applied_req(g, i));
    assert(b.vertex(2).row_applied_req(g, i));
    assert(b.vertex(3).row_applied_req(g, i));
    assert(b.vertex(4).row_applied_req(g, i));
    assert(b.vertex(5).row_applied_req(g, i));
    assert(b.vertex(6).row_applied_req(g, i));
    assert(b.vertex(7).row_applied_req(g, i));
    lemma_affine_in_range(a0, 0, 0, 0, lx, hx, ly, hy, lz, hz, p.x as int, p.y as int, p.z as int, least, most);
    lemma_affine_in_range(0, a1, 0, 0, lx, hx, ly, hy, lz, hz, p.x as int, p.y as int, p.z as int, least, most);
    lemma_affine_in_range(0, 0, a2, 0, lx, hx, ly, hy, lz, hz, p.x as int, p.y as int, p.z as int, least, most);
    lemma_affine_in_range(a0, a1, 0, 0, lx, hx, ly, hy, lz, hz, p.x as int, p.y as int, p.z as int, least, most);
    lemma_affine_in_range(a0, a1, a2, 0, lx, hx, ly, hy, lz, hz, p.x as int, p.y as int, p.z as int, least, most);
    lemma_affine_in_range(a0, a1, a2, a3, lx, hx, ly, hy, lz, hz, p.x as int, p.y as int, p.z as int, least, most);
}

/// Where row `i` of `g` can be applied to `q`, the result is the affine
/// function of the row at `q`, over the integers.
proof fn lemma_row_applied_exact(q: Point3<i32>, g: Grid<i32>, i: int)
    requires
        q.row_applied_req(g, i),
    ensures
        q.row_applied(g, i) == affine(
            g[i][0] as int,
            g[i][1] as int,
            g[i][2] as int,
            g[i][3] as int,
            q.x as int,
            q.y as int,
            q.z as int,
        ),
{
}

/// An affine matrix carries a point to the point of its first three rows
/// applied to it.
proof fn lemma_carried_affine(q: Point3<i32>, g: Grid<i32>)
    requires
        is_affine(g),
        q.carried_req(g),
    ensures
        q.carried(g) == (Point3 {
            x: q.row_applied(g, 0),
            y: q.row_applied(g, 1),
            z: q.row_applied(g, 2),
        }),
{
    lemma_row_applied_exact(q, g, 3);
}

/// The box spanned by eight points, built as `transform` builds it, holds each
/// of the eight.
#[verifier::rlimit(40)]
proof fn lemma_span_holds(c: Seq<Point3<i32>>)
    requires
        c.len() == 8,
    ensures
        forall|k: int| 0 <= k < 8 ==> span(c).inside_spec(#[trigger] c[k]),
{
    let h1 = Bounds3::spanning(c[0], c[0]).union_spec(c[1]);
    let h2 = h1.union_spec(c[2]);
    let h3 = h2.union_spec(c[3]);
    let h4 = h3.union_spec(c[4]);
    let h5 = h4.union_spec(c[5]);
    let h6 = h5.union_spec(c[6]);
    assert(h1.inside_spec(c[0]) && h1.inside_spec(c[1]));
    lemma_union_grows(h1, c[2], c[0]);
    lemma_union_grows(h1, c[2], c[1]);
    assert forall|k: int| 0 <= k < 3 implies h2.inside_spec(#[trigger] c[k]) by {}
    assert forall|k: int| 0 <= k < 4 implies h3.inside_spec(#[trigger] c[k]) by {
        if k < 3 {
            lemma_union_grows(h2, c[3], c[k]);
        }
    }
    assert forall|k: int| 0 <= k < 5 implies h4.inside_spec(#[trigger] c[k]) by {
        if k < 4 {
            lemma_union_grows(h3, c[4], c[k]);
        }
    }
    assert forall|k: int| 0 <= k < 6 implies h5.inside_spec(#[trigger] c[k]) by {
        if k < 5 {
            lemma_union_grows(h4, c[5], c[k]);
        }
    }
    assert forall|k: int| 0 <= k < 7 implies h6.inside_spec(#[trigger] c[k]) by {
        if k < 6 {
            lemma_union_grows(h5, c[6], c[k]);
        }
    }
    assert forall|k: int| 0 <= k < 8 implies span(c).inside_spec(#[trigger] c[k]) by {
        if k < 7 {
            lemma_union_grows(h6, c[7], c[k]);
        }
    }
}

/// The box spanned by the first point of `c` and grown to hold the next seven
/// in turn.
pub open spec fn span(c: Seq<Point3<i32>>) -> Bounds3<i32> {
    Bounds3::spanning(c[0], c[0]).union_spec(c[1]).union_spec(c[2]).union_spec(c[3]).union_spec(
        c[4],
    ).union_spec(c[5]).union_spec(c[6]).union_spec(c[7])
}

/// The union of a box with a point holds the point, and every point that the
/// box held.
proof fn lemma_union_grows(h: Bounds3<i32>, p: Point3<i32>, q: Point3<i32>)
    ensures
        h.union_spec(p).inside_spec(p),
        h.inside_spec(q) ==> h.union_spec(p).inside_spec(q),
{
}

/// A box carried through an affine transform holds every point of the box
/// carried through the same transform.
#[verifier::rlimit(40)]
pub proof fn lemma_transformed_box_holds_transformed_points(
    b: Bounds3<i32>,
    t: Transform<i32>,
    p: Point3<i32>,
)
    requires
        is_affine(t.m@),
        b.inside_spec(p),
        b.transform_req(t),
    ensures
        p.transform_req(t),
        b.transform_spec(t).inside_spec(p.transform_spec(t)),
{
    let g = t.m@;
    assert forall|i: int| 0 <= i < 4 implies p.row_applied_req(g, i) by {
        assert forall|k: int| 0 <= k < 8 implies (#[trigger] b.vertex(k)).row_applied_req(g, i) by {
            assert(b.vertex(k).carried_req(g));
        }
        lemma_row_applies_in_box(b, g, p, i);
    }
    lemma_row_applied_exact(p, g, 3);
    assert(p.carried_req(g));
    let c = Seq::new(8, |k: int| b.vertex(k).carried(g));
    lemma_span_holds(c);
    assert(b.transform_spec(t) == span(c));
    let tb = span(c);
    assert forall|k: int| 0 <= k < 8 implies {
        let v = #[trigger] b.vertex(k);
        &&& v.row_applied_req(g, 0)
        &&& v.row_applied_req(g, 1)
        &&& v.row_applied_req(g, 2)
        &&& tb.p_min.x <= v.row_applied(g, 0) <= tb.p_max.x
        &&& tb.p_min.y <= v.row_applied(g, 1) <= tb.p_max.y
        &&& tb.p_min.z <= v.row_applied(g, 2) <= tb.p_max.z
    } by {
        let v = b.vertex(k);
        assert(v.carried_req(g));
        lemma_carried_affine(v, g);
        assert(tb.inside_spec(c[k]));
    }
    lemma_carried_affine(p, g);
    lemma_row_between(b, g, p, 0);
    lemma_row_between(b, g, p, 1);
    lemma_row_between(b, g, p, 2);
}

/// Row `i` applied to a point of the box lies between row `i` applied to two
/// of the corners.
#[verifier::rlimit(40)]
proof fn lemma_row_between(b: Bounds3<i32>, g: Grid<i32>, p: Point3<i32>, i: int)
    requires
        b.inside_spec(p),
        p.row_applied_req(g, i),
        forall|k: int| 0 <= k < 8 ==> (#[trigger] b.vertex(k)).row_applied_req(g, i),
    ensures
        exists|k: int| 0 <= k < 8 && (#[trigger] b.vertex(k)).row_applied(g, i) <= p.row_applied(g, i),
        exists|k: int| 0 <= k < 8 && (#[trigger] b.vertex(k)).row_applied(g, i) >= p.row_applied(g, i),
{
    let a0 = g[i][0] as int;
    let a1 = g[i][1] as int;
    let a2 = g[i][2] as int;
    let a3 = g[i][3] as int;
    lemma_affine_extremes(
        a0,
        a1,
        a2,
        a3,
        b.p_min.x as int,
        b.p_max.x as int,
        b.p_min.y as int,
        b.p_max.y as int,
        b.p_min.z as int,
        b.p_max.z as int,
        p.x as int,
        p.y as int,
        p.z as int,
    );
    lemma_row_applied_exact(p, g, i);
    assert forall|k: int| 0 <= k < 8 implies (#[trigger] b.vertex(k)).row_applied(g, i) == affine(
        a0,
        a1,
        a2,
        a3,
        b.vertex(k).x as int,
        b.vertex(k).y as int,
        b.vertex(k).z as int,
    ) by {
        lemma_row_applied_exact(b.vertex(k), g, i);
    }
    let lo_k: int = if a0 >= 0 {
        if a1 >= 0 {
            if a2 >= 0 { 0 } else { 3 }
        } else {
            if a2 >= 0 { 2 } else { 4 }
        }
    } else {
        if a1 >= 0 {
            if a2 >= 0 { 1 } else { 6 }
        } else {
            if a2 >= 0 { 5 } else { 7 }
        }
    };
    let hi_k: int = if a0 >= 0 {
        if a1 >= 0 {
            if a2 >= 0 { 7 } else { 5 }
        } else {
            if a2 >= 0 { 6 } else { 1 }
        }
    } else {
        if a1 >= 0 {
            if a2 >= 0 { 4 } else { 2 }
        } else {
            if a2 >= 0 { 3 } else { 0 }
        }
    };
    assert(b.vertex(lo_k).row_applied(g, i) <= p.row_applied(g, i));
    assert(b.vertex(hi_k).row_applied(g, i) >= p.row_applied(g, i));
}

} // verus!
