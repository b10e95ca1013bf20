use vstd::prelude::*;

use vstd::arithmetic::div_mod::lemma_div_is_ordered;
use vstd::arithmetic::mul::lemma_mul_inequality;
use vstd::math::{max, min};

use crate::bounds::{
    half_width, lemma_path_points_push, path_points, point_span, points_span, span_contains, span_union,
    stroked_span, x_expansion, y_expansion,
};
use crate::geometry::{spec_identity, Matrix, Point, StrokeState};
use crate::path::{current_point_of, rect_elements, wf, Element};
use crate::transform::{elem_fits, transform_elem, transform_seq};

verus! {

/// An empty path has its current point at the origin, and walking it
/// delivers no events: any walker trace t is extended by nothing.
pub proof fn lemma_empty_path(t: Seq<Element>)
    ensures
        current_point_of(Seq::<Element>::empty()) == (Point { x: 0, y: 0 }),
        t + Seq::<Element>::empty() == t,
{
    assert(t + Seq::<Element>::empty() =~= t);
}

/// In a well-formed segment sequence every segment that is not a MoveTo
/// follows a prior MoveTo: one stands at the front.
pub proof fn lemma_wf_segments_follow_move(s: Seq<Element>)
    requires
        wf(s),
    ensures
        forall|i: int| #![trigger s[i]]
            0 <= i < s.len() && !(s[i] is MoveTo) ==> 0 < i && s[0] is MoveTo,
{
}

/// Under the identity transform every segment fits and maps to itself.
proof fn lemma_elem_identity(e: Element)
    ensures
        elem_fits(spec_identity(), e),
        transform_elem(spec_identity(), e) == e,
{
}

/// Applying the identity matrix via transform succeeds on every path and
/// leaves the stored sequence unchanged, so walk output and bounds are
/// unchanged too.
pub proof fn lemma_transform_identity(s: Seq<Element>)
    ensures
        forall|i: int| 0 <= i < s.len() ==> #[trigger] elem_fits(spec_identity(), s[i]),
        transform_seq(spec_identity(), s) == s,
{
    assert forall|i: int| 0 <= i < s.len() implies #[trigger] elem_fits(spec_identity(), s[i]) by {
        lemma_elem_identity(s[i]);
    }
    assert forall|i: int|
        0 <= i < s.len() implies #[trigger] transform_seq(spec_identity(), s)[i] == s[i] by {
        lemma_elem_identity(s[i]);
    }
    assert(transform_seq(spec_identity(), s) =~= s);
}

/// Bounds monotonicity: widening the stroke, with the geometry and the
/// transform held fixed, never shrinks the computed bounds.
pub proof fn lemma_bounds_stroke_monotone(
    s: Seq<Element>,
    narrow: StrokeState,
    wide: StrokeState,
    m: Matrix,
)
    requires
        narrow.line_width <= wide.line_width,
    ensures
        span_contains(stroked_span(s, wide, m), stroked_span(s, narrow, m)),
{
    if path_points(s).len() > 0 {
        lemma_div_is_ordered(narrow.line_width as int + 1, wide.line_width as int + 1, 2);
        lemma_mul_inequality(half_width(narrow), half_width(wide), x_expansion(m));
        lemma_mul_inequality(half_width(narrow), half_width(wide), y_expansion(m));
    }
}

/// A rectangle's segments contribute exactly its four corner points.
proof fn lemma_rect_points(x1: i32, y1: i32, x2: i32, y2: i32)
    ensures
        path_points(rect_elements(x1, y1, x2, y2)) == seq![
            (x1 as int, y1 as int),
            (x2 as int, y1 as int),
            (x2 as int, y2 as int),
            (x1 as int, y2 as int),
        ],
{
    let e1 = Element::MoveTo { x: x1, y: y1 };
    let e2 = Element::LineTo { x: x2, y: y1 };
    let e3 = Element::LineTo { x: x2, y: y2 };
    let e4 = Element::LineTo { x: x1, y: y2 };
    let e5 = Element::Close;
    let s0 = Seq::<Element>::empty();
    let s1 = s0.push(e1);
    let s2 = s1.push(e2);
    let s3 = s2.push(e3);
    let s4 = s3.push(e4);
    let s5 = s4.push(e5);
    lemma_path_points_push(s0, e1);
    lemma_path_points_push(s1, e2);
    lemma_path_points_push(s2, e3);
    lemma_path_points_push(s3, e4);
    lemma_path_points_push(s4, e5);
    assert(s5 =~= rect_elements(x1, y1, x2, y2));
    assert(path_points(rect_elements(x1, y1, x2, y2)) =~= seq![
        (x1 as int, y1 as int),
        (x2 as int, y1 as int),
        (x2 as int, y2 as int),
        (x1 as int, y2 as int),
    ]);
}

/// Round trip via rect: the segments appended for the corners (x1, y1) and
/// (x2, y2), bounded with a zero-width stroke under the identity transform,
/// give back exactly the rectangle the two corners span.
pub proof fn lemma_rect_round_trip(x1: i32, y1: i32, x2: i32, y2: i32)
    ensures
        ({
            let b = stroked_span(
                rect_elements(x1, y1, x2, y2),
                (StrokeState { line_width: 0 }),
                spec_identity(),
            );
            b.x0 == min(x1 as int, x2 as int) && b.y0 == min(y1 as int, y2 as int) && b.x1 == max(
                x1 as int,
                x2 as int,
            ) && b.y1 == max(y1 as int, y2 as int)
        }),
{
    lemma_rect_points(x1, y1, x2, y2);
    let id = spec_identity();
    let p1 = (x1 as int, y1 as int);
    let p2 = (x2 as int, y1 as int);
    let p3 = (x2 as int, y2 as int);
    let p4 = (x1 as int, y2 as int);
    let q4 = seq![p1, p2, p3, p4];
    let q3 = seq![p1, p2, p3];
    let q2 = seq![p1, p2];
    let q1 = seq![p1];
    assert(q4.drop_last() =~= q3);
    assert(q3.drop_last() =~= q2);
    assert(q2.drop_last() =~= q1);
    assert(q4.last() == p4);
    assert(q3.last() == p3);
    assert(q2.last() == p2);
    assert(points_span(id, q1) == point_span(id, p1));
    assert(points_span(id, q2) == span_union(points_span(id, q1), point_span(id, p2)));
    assert(points_span(id, q3) == span_union(points_span(id, q2), point_span(id, p3)));
    assert(points_span(id, q4) == span_union(points_span(id, q3), point_span(id, p4)));
}

} // verus!
