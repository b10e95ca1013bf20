use vstd::prelude::*;

use vstd::math::{abs, max, min};

use crate::error::EngineError;
use crate::geometry::{tx_x, tx_y, Matrix, Rect, StrokeState};
use crate::path::{Element, Path};
use crate::transform::{lemma_coord_mul_bound, tx_wide};

verus! {

/// The exact, unclipped bounding values of a rectangle: the corners
/// (x0, y0) and (x1, y1) as unbounded integers.
pub struct Span {
    pub x0: int,
    pub y0: int,
    pub x1: int,
    pub y1: int,
}

impl View for Rect {
    type V = Span;

    open spec fn view(&self) -> Span {
        Span { x0: self.x0 as int, y0: self.y0 as int, x1: self.x1 as int, y1: self.y1 as int }
    }
}

/// Whether every bounding value of b fits the fields of Rect.
pub open spec fn span_fits(b: Span) -> bool {
    &&& i64::MIN as int <= b.x0 <= i64::MAX as int
    &&& i64::MIN as int <= b.y0 <= i64::MAX as int
    &&& i64::MIN as int <= b.x1 <= i64::MAX as int
    &&& i64::MIN as int <= b.y1 <= i64::MAX as int
}

/// Whether outer contains inner.
pub open spec fn span_contains(outer: Span, inner: Span) -> bool {
    outer.x0 <= inner.x0 && outer.y0 <= inner.y0 && inner.x1 <= outer.x1 && inner.y1 <= outer.y1
}

/// The points a segment contributes to the bounding box: its target, or for
/// a curve its two control points and its end point. A Close contributes
/// nothing.
pub open spec fn elem_points(e: Element) -> Seq<(int, int)> {
    match e {
        Element::MoveTo { x, y } => seq![(x as int, y as int)],
        Element::LineTo { x, y } => seq![(x as int, y as int)],
        Element::CurveTo { cx1, cy1, cx2, cy2, ex, ey } => seq![
            (cx1 as int, cy1 as int),
            (cx2 as int, cy2 as int),
            (ex as int, ey as int),
        ],
        Element::Close => Seq::empty(),
    }
}

/// Every bounding point of the segment sequence, in order.
pub open spec fn path_points(s: Seq<Element>) -> Seq<(int, int)>
    decreases s.len(),
{
    if s.len() == 0 {
        Seq::empty()
    } else {
        path_points(s.drop_last()) + elem_points(s.last())
    }
}

/// The degenerate bounding values of the single point p under m.
pub open spec fn point_span(m: Matrix, p: (int, int)) -> Span {
    Span {
        x0: tx_x(m, p.0, p.1),
        y0: tx_y(m, p.0, p.1),
        x1: tx_x(m, p.0, p.1),
        y1: tx_y(m, p.0, p.1),
    }
}

/// The smallest span containing both a and b.
pub open spec fn span_union(a: Span, b: Span) -> Span {
    Span {
        x0: min(a.x0, b.x0),
        y0: min(a.y0, b.y0),
        x1: max(a.x1, b.x1),
        y1: max(a.y1, b.y1),
    }
}

/// The bounding values of the points of pts under m; the zero span when
/// there are none.
pub open spec fn points_span(m: Matrix, pts: Seq<(int, int)>) -> Span
    decreases pts.len(),
{
    if pts.len() == 0 {
        Span { x0: 0, y0: 0, x1: 0, y1: 0 }
    } else if pts.len() == 1 {
        point_span(m, pts.last())
    } else {
        span_union(points_span(m, pts.drop_last()), point_span(m, pts.last()))
    }
}

/// Half the stroke width, rounded up: how far the stroked outline can stand
/// from the raw geometry on each side, before the transform.
pub open spec fn half_width(st: StrokeState) -> int {
    ((st.line_width as int) + 1) / 2
}

/// How much m can stretch a horizontal distance.
pub open spec fn x_expansion(m: Matrix) -> int {
    abs(m.a as int) as int + abs(m.c as int) as int
}

/// How much m can stretch a vertical distance.
pub open spec fn y_expansion(m: Matrix) -> int {
    abs(m.b as int) as int + abs(m.d as int) as int
}

/// The bounding values of the path's geometry as it would be stroked with
/// st, after applying m: the bounds of every stored point under m, expanded
/// on each side by the transformed half width. A path without points has
/// the zero span.
pub open spec fn stroked_span(s: Seq<Element>, st: StrokeState, m: Matrix) -> Span {
    if path_points(s).len() == 0 {
        Span { x0: 0, y0: 0, x1: 0, y1: 0 }
    } else {
        let raw = points_span(m, path_points(s));
        let px = half_width(st) * x_expansion(m);
        let py = half_width(st) * y_expansion(m);
        Span { x0: raw.x0 - px, y0: raw.y0 - py, x1: raw.x1 + px, y1: raw.y1 + py }
    }
}

/// Appending a segment appends its bounding points.
pub(crate) proof fn lemma_path_points_push(s: Seq<Element>, e: Element)
    ensures
        path_points(s.push(e)) == path_points(s) + elem_points(e),
{
    assert(s.push(e).drop_last() =~= s);
}

/// The product of a half width and an expansion stays within two to the
/// 63rd.
proof fn lemma_pad_mul_bound(a: int, b: int) by (nonlinear_arith)
    requires
        0 <= a <= 0x8000_0000,
        0 <= b <= 0x1_0000_0000,
    ensures
        0 <= a * b <= 0x8000_0000_0000_0000,
{
}

/// A running bounding-box accumulator over transformed points.
struct BoundsAcc {
    found: bool,
    x0: i128,
    y0: i128,
    x1: i128,
    y1: i128,
}

impl BoundsAcc {
    /// The accumulator holds exactly the bounding values of pts under m,
    /// within the range a transformed coordinate can reach.
    spec fn tracks(self, m: Matrix, pts: Seq<(int, int)>) -> bool {
        &&& (self.found <==> pts.len() > 0)
        &&& (self.found ==> (Span {
            x0: self.x0 as int,
            y0: self.y0 as int,
            x1: self.x1 as int,
            y1: self.y1 as int,
        }) == points_span(m, pts))
        &&& (self.found ==> -0x8000_0000_8000_0000 <= self.x0 as int <= 0x8000_0000_8000_0000
            && -0x8000_0000_8000_0000 <= self.y0 as int <= 0x8000_0000_8000_0000
            && -0x8000_0000_8000_0000 <= self.x1 as int <= 0x8000_0000_8000_0000
            && -0x8000_0000_8000_0000 <= self.y1 as int <= 0x8000_0000_8000_0000)
    }

    /// Extends the accumulator with the point (x, y) under m.
    fn add(&mut self, m: &Matrix, x: i32, y: i32, pts: Ghost<Seq<(int, int)>>)
        requires
            old(self).tracks(*m, pts@),
        ensures
            final(self).tracks(*m, pts@.push((x as int, y as int))),
    {
        proof {
            lemma_coord_mul_bound(m.a as int, x as int);
            lemma_coord_mul_bound(m.c as int, y as int);
            lemma_coord_mul_bound(m.b as int, x as int);
            lemma_coord_mul_bound(m.d as int, y as int);
        }
        let (wx, wy) = tx_wide(m, x, y);
        if !self.found {
            self.found = true;
            self.x0 = wx;
            self.y0 = wy;
            self.x1 = wx;
            self.y1 = wy;
        } else {
            if wx < self.x0 {
                self.x0 = wx;
            }
            if wy < self.y0 {
                self.y0 = wy;
            }
            if wx > self.x1 {
                self.x1 = wx;
            }
            if wy > self.y1 {
                self.y1 = wy;
            }
        }
        proof {
            let q = (x as int, y as int);
            let grown = pts@.push(q);
            assert(grown.last() == q);
            if pts@.len() > 0 {
                assert(grown.drop_last() =~= pts@);
                assert(points_span(*m, grown) == span_union(points_span(*m, pts@), point_span(*m, q)));
            }
        }
    }
}

impl Path {
    /// The axis-aligned bounding rectangle of the path's geometry as it
    /// would be stroked with the given stroke description, after applying
    /// the transform ctm: the bounds of every stored point under ctm,
    /// expanded on each side by the transformed half stroke width. Fails
    /// exactly when a bounding value does not fit the result type.
    pub fn bounds(&self, stroke: &StrokeState, ctm: &Matrix) -> (r: Result<Rect, EngineError>)
        ensures
            r is Ok <==> span_fits(stroked_span(self@, *stroke, *ctm)),
            r matches Ok(rect) ==> rect@ == stroked_span(self@, *stroke, *ctm),
            r is Err ==> r == Err::<Rect, EngineError>(EngineError::NumericOverflow),
    {
        let n = self.len();
        let mut acc = BoundsAcc { found: false, x0: 0, y0: 0, x1: 0, y1: 0 };
        let ghost mut pts: Seq<(int, int)> = Seq::empty();
        let mut i: usize = 0;
        while i < n
            invariant
                i <= n,
                n == self@.len(),
                pts == path_points(self@.subrange(0, i as int)),
                acc.tracks(*ctm, pts),
            decreases n - i,
        {
            let e = self.element_at(i);
            proof {
                lemma_path_points_push(self@.subrange(0, i as int), e);
                assert(self@.subrange(0, (i + 1) as int) =~= self@.subrange(0, i as int).push(e));
            }
            match e {
                Element::MoveTo { x, y } => {
                    acc.add(ctm, x, y, Ghost(pts));
                    proof {
                        assert(pts.push((x as int, y as int)) =~= pts + elem_points(e));
                        pts = pts.push((x as int, y as int));
                    }
                },
                Element::LineTo { x, y } => {
                    acc.add(ctm, x, y, Ghost(pts));
                    proof {
                        assert(pts.push((x as int, y as int)) =~= pts + elem_points(e));
                        pts = pts.push((x as int, y as int));
                    }
                },
                Element::CurveTo { cx1, cy1, cx2, cy2, ex, ey } => {
                    acc.add(ctm, cx1, cy1, Ghost(pts));
                    proof {
                        pts = pts.push((cx1 as int, cy1 as int));
                    }
                    acc.add(ctm, cx2, cy2, Ghost(pts));
                    proof {
                        pts = pts.push((cx2 as int, cy2 as int));
                    }
                    acc.add(ctm, ex, ey, Ghost(pts));
                    proof {
                        pts = pts.push((ex as int, ey as int));
                        assert(pts =~= path_points(self@.subrange(0, i as int)) + elem_points(e));
                    }
                },
                Element::Close => {
                    proof {
                        assert(pts =~= pts + elem_points(e));
                    }
                },
            }
            i += 1;
        }
        proof {
            assert(self@.subrange(0, n as int) =~= self@);
        }
        if !acc.found {
            return Ok(Rect { x0: 0, y0: 0, x1: 0, y1: 0 });
        }
        // The expansion: half the stroke width, stretched by the transform.
        let half: u64 = (stroke.line_width as u64 + 1) / 2;
        let sx: i128 = if ctm.a < 0 {
            -(ctm.a as i128)
        } else {
            ctm.a as i128
        } + if ctm.c < 0 {
            -(ctm.c as i128)
        } else {
            ctm.c as i128
        };
        let sy: i128 = if ctm.b < 0 {
            -(ctm.b as i128)
        } else {
            ctm.b as i128
        } + if ctm.d < 0 {
            -(ctm.d as i128)
        } else {
            ctm.d as i128
        };
        proof {
            lemma_pad_mul_bound(half as int, sx as int);
            lemma_pad_mul_bound(half as int, sy as int);
        }
        let px: i128 = (half as i128) * sx;
        let py: i128 = (half as i128) * sy;
        let bx0: i128 = acc.x0 - px;
        let by0: i128 = acc.y0 - py;
        let bx1: i128 = acc.x1 + px;
        let by1: i128 = acc.y1 + py;
        if bx0 < i64::MIN as i128 || bx0 > i64::MAX as i128 || by0 < i64::MIN as i128 || by0
            > i64::MAX as i128 || bx1 < i64::MIN as i128 || bx1 > i64::MAX as i128 || by1
            < i64::MIN as i128 || by1 > i64::MAX as i128 {
            return Err(EngineError::NumericOverflow);
        }
        Ok(Rect { x0: bx0 as i64, y0: by0 as i64, x1: bx1 as i64, y1: by1 as i64 })
    }
}

} // verus!
