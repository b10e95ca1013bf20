use vstd::prelude::*;

use crate::error::EngineError;
use crate::geometry::Point;

verus! {

/// One stored path segment. A path is a sequence of these, replayed in
/// order by traversal.
#[derive(Clone, Copy, PartialEq, Eq, Structural, Debug)]
pub enum Element {
    /// Begin a new subpath at (x, y).
    MoveTo { x: i32, y: i32 },
    /// A straight segment from the current point to (x, y).
    LineTo { x: i32, y: i32 },
    /// A cubic Bezier segment from the current point through the control
    /// points (cx1, cy1) and (cx2, cy2) to the end point (ex, ey).
    CurveTo { cx1: i32, cy1: i32, cx2: i32, cy2: i32, ex: i32, ey: i32 },
    /// Close the open subpath, connecting back to its starting point.
    Close,
}

/// Structural invariant of a stored segment sequence: every segment that
/// extends a subpath follows some prior MoveTo. Since appends that need a
/// current point are refused on an empty path, this is equivalent to the
/// first stored segment (if any) being a MoveTo.
pub open spec fn wf(s: Seq<Element>) -> bool {
    s.len() > 0 ==> s[0] is MoveTo
}

/// The starting point of the subpath that is open at the end of s: the
/// target of the last MoveTo, or the origin when there is none.
pub open spec fn start_point_of(s: Seq<Element>) -> Point
    decreases s.len(),
{
    if s.len() == 0 {
        Point { x: 0, y: 0 }
    } else {
        match s.last() {
            Element::MoveTo { x, y } => Point { x, y },
            _ => start_point_of(s.drop_last()),
        }
    }
}

/// The current point after the segments of s: the last appended coordinate,
/// the subpath start after a Close, and the origin on an empty path.
pub open spec fn current_point_of(s: Seq<Element>) -> Point
    decreases s.len(),
{
    if s.len() == 0 {
        Point { x: 0, y: 0 }
    } else {
        match s.last() {
            Element::MoveTo { x, y } => Point { x, y },
            Element::LineTo { x, y } => Point { x, y },
            Element::CurveTo { ex, ey, .. } => Point { x: ex, y: ey },
            Element::Close => start_point_of(s.drop_last()),
        }
    }
}

/// The segments a rectangle appends: a closed subpath over the two opposite
/// corners (x1, y1) and (x2, y2), in the engine's winding order.
pub open spec fn rect_elements(x1: i32, y1: i32, x2: i32, y2: i32) -> Seq<Element> {
    seq![
        Element::MoveTo { x: x1, y: y1 },
        Element::LineTo { x: x2, y: y1 },
        Element::LineTo { x: x2, y: y2 },
        Element::LineTo { x: x1, y: y2 },
        Element::Close,
    ]
}

/// A possibly-empty sequence of geometric segments forming one or more
/// subpaths, owned by this value alone. Its view is the stored segment
/// sequence in append order.
#[derive(Debug)]
pub struct Path {
    elements: Vec<Element>,
}

impl View for Path {
    type V = Seq<Element>;

    closed spec fn view(&self) -> Seq<Element> {
        self.elements@
    }
}

impl Path {
    /// Creates an empty path.
    pub fn new() -> (r: Result<Path, EngineError>)
        ensures
            r matches Ok(p) && p@ == Seq::<Element>::empty(),
    {
        Ok(Path { elements: Vec::new() })
    }

    /// Creates a deep, independent copy: the copy holds the same segments,
    /// and no storage is shared with the original.
    pub fn try_clone(&self) -> (r: Result<Path, EngineError>)
        ensures
            r matches Ok(p) && p@ == self@,
    {
        let n = self.elements.len();
        let mut elems: Vec<Element> = Vec::new();
        let mut i: usize = 0;
        while i < n
            invariant
                i <= n,
                n == self.elements.len(),
                elems@ == self.elements@.subrange(0, i as int),
            decreases n - i,
        {
            elems.push(self.elements[i]);
            proof {
                assert(self.elements@.subrange(0, i as int).push(self.elements@[i as int])
                    =~= self.elements@.subrange(0, (i + 1) as int));
            }
            i += 1;
        }
        proof {
            assert(elems@ =~= self@);
        }
        Ok(Path { elements: elems })
    }

    /// The number of stored segments.
    pub(crate) fn len(&self) -> (n: usize)
        ensures
            n == self@.len(),
    {
        self.elements.len()
    }

    /// The stored segment at index i.
    pub(crate) fn element_at(&self, i: usize) -> (e: Element)
        requires
            i < self@.len(),
        ensures
            e == self@[i as int],
    {
        self.elements[i]
    }

    /// Replaces the stored segments wholesale.
    pub(crate) fn set_elements(&mut self, elems: Vec<Element>)
        ensures
            final(self)@ == elems@,
    {
        self.elements = elems;
    }

    /// The path's current point: the origin for an empty path.
    pub fn current_point(&self) -> (r: Point)
        ensures
            r == current_point_of(self@),
    {
        let n = self.elements.len();
        proof {
            assert(self.elements@.subrange(0, n as int) =~= self@);
        }
        Self::current_point_at(&self.elements, n)
    }

    /// The start point of the subpath open after the first n segments.
    fn start_point_at(v: &Vec<Element>, n: usize) -> (r: Point)
        requires
            n <= v.len(),
        ensures
            r == start_point_of(v@.subrange(0, n as int)),
        decreases n,
    {
        if n == 0 {
            Point { x: 0, y: 0 }
        } else {
            proof {
                let s = v@.subrange(0, n as int);
                assert(s.last() == v@[(n - 1) as int]);
                assert(s.drop_last() =~= v@.subrange(0, (n - 1) as int));
            }
            match v[n - 1] {
                Element::MoveTo { x, y } => Point { x, y },
                _ => Self::start_point_at(v, n - 1),
            }
        }
    }

    /// The current point after the first n segments.
    fn current_point_at(v: &Vec<Element>, n: usize) -> (r: Point)
        requires
            n <= v.len(),
        ensures
            r == current_point_of(v@.subrange(0, n as int)),
    {
        if n == 0 {
            Point { x: 0, y: 0 }
        } else {
            proof {
                let s = v@.subrange(0, n as int);
                assert(s.last() == v@[(n - 1) as int]);
                assert(s.drop_last() =~= v@.subrange(0, (n - 1) as int));
            }
            match v[n - 1] {
                Element::MoveTo { x, y } => Point { x, y },
                Element::LineTo { x, y } => Point { x, y },
                Element::CurveTo { ex, ey, .. } => Point { x: ex, y: ey },
                Element::Close => Self::start_point_at(v, n - 1),
            }
        }
    }

    /// Appends a MoveTo segment, beginning a new subpath at (x, y). The
    /// current point becomes (x, y).
    pub fn move_to(&mut self, x: i32, y: i32) -> (r: Result<(), EngineError>)
        ensures
            r == Ok::<(), EngineError>(()),
            final(self)@ == old(self)@.push(Element::MoveTo { x, y }),
            current_point_of(final(self)@) == (Point { x, y }),
            wf(old(self)@) ==> wf(final(self)@),
    {
        self.elements.push(Element::MoveTo { x, y });
        Ok(())
    }

    /// Appends a LineTo segment. The current point becomes (x, y). Fails,
    /// leaving the path unchanged, exactly when the path has no current
    /// point yet (no segment was ever appended).
    pub fn line_to(&mut self, x: i32, y: i32) -> (r: Result<(), EngineError>)
        ensures
            old(self)@.len() == 0 ==> r == Err::<(), EngineError>(EngineError::NoCurrentPoint)
                && final(self)@ == old(self)@,
            old(self)@.len() > 0 ==> r == Ok::<(), EngineError>(())
                && final(self)@ == old(self)@.push(Element::LineTo { x, y })
                && current_point_of(final(self)@) == (Point { x, y }),
            wf(old(self)@) ==> wf(final(self)@),
    {
        if self.elements.len() == 0 {
            return Err(EngineError::NoCurrentPoint);
        }
        self.elements.push(Element::LineTo { x, y });
        Ok(())
    }

    /// Appends a cubic Bezier segment through the control points
    /// (cx1, cy1) and (cx2, cy2) to the end point (ex, ey). The current
    /// point becomes (ex, ey). Fails, leaving the path unchanged, exactly
    /// when the path has no current point yet.
    pub fn curve_to(
        &mut self,
        cx1: i32,
        cy1: i32,
        cx2: i32,
        cy2: i32,
        ex: i32,
        ey: i32,
    ) -> (r: Result<(), EngineError>)
        ensures
            old(self)@.len() == 0 ==> r == Err::<(), EngineError>(EngineError::NoCurrentPoint)
                && final(self)@ == old(self)@,
            old(self)@.len() > 0 ==> r == Ok::<(), EngineError>(())
                && final(self)@ == old(self)@.push(Element::CurveTo { cx1, cy1, cx2, cy2, ex, ey })
                && current_point_of(final(self)@) == (Point { x: ex, y: ey }),
            wf(old(self)@) ==> wf(final(self)@),
    {
        if self.elements.len() == 0 {
            return Err(EngineError::NoCurrentPoint);
        }
        self.elements.push(Element::CurveTo { cx1, cy1, cx2, cy2, ex, ey });
        Ok(())
    }

    /// Appends a cubic Bezier segment whose first control point coincides
    /// with the current point; only the second control point (cx, cy) and
    /// the end point (ex, ey) are given. Fails, leaving the path unchanged,
    /// exactly when the path has no current point yet.
    pub fn curve_to_v(&mut self, cx: i32, cy: i32, ex: i32, ey: i32) -> (r: Result<
        (),
        EngineError,
    >)
        ensures
            old(self)@.len() == 0 ==> r == Err::<(), EngineError>(EngineError::NoCurrentPoint)
                && final(self)@ == old(self)@,
            old(self)@.len() > 0 ==> r == Ok::<(), EngineError>(())
                && final(self)@ == old(self)@.push(Element::CurveTo {
                    cx1: current_point_of(old(self)@).x,
                    cy1: current_point_of(old(self)@).y,
                    cx2: cx,
                    cy2: cy,
                    ex,
                    ey,
                })
                && current_point_of(final(self)@) == (Point { x: ex, y: ey }),
            wf(old(self)@) ==> wf(final(self)@),
    {
        if self.elements.len() == 0 {
            return Err(EngineError::NoCurrentPoint);
        }
        let p = self.current_point();
        self.elements.push(Element::CurveTo { cx1: p.x, cy1: p.y, cx2: cx, cy2: cy, ex, ey });
        Ok(())
    }

    /// Appends a cubic Bezier segment whose second control point coincides
    /// with the end point (ex, ey); only the first control point (cx, cy)
    /// and the end point are given. Fails, leaving the path unchanged,
    /// exactly when the path has no current point yet.
    pub fn curve_to_y(&mut self, cx: i32, cy: i32, ex: i32, ey: i32) -> (r: Result<
        (),
        EngineError,
    >)
        ensures
            old(self)@.len() == 0 ==> r == Err::<(), EngineError>(EngineError::NoCurrentPoint)
                && final(self)@ == old(self)@,
            old(self)@.len() > 0 ==> r == Ok::<(), EngineError>(())
                && final(self)@ == old(self)@.push(Element::CurveTo {
                    cx1: cx,
                    cy1: cy,
                    cx2: ex,
                    cy2: ey,
                    ex,
                    ey,
                })
                && current_point_of(final(self)@) == (Point { x: ex, y: ey }),
            wf(old(self)@) ==> wf(final(self)@),
    {
        if self.elements.len() == 0 {
            return Err(EngineError::NoCurrentPoint);
        }
        self.elements.push(Element::CurveTo { cx1: cx, cy1: cy, cx2: ex, cy2: ey, ex, ey });
        Ok(())
    }

    /// Appends a closed rectangular subpath over the opposite corners
    /// (x1, y1) and (x2, y2): a MoveTo, three LineTo segments and a Close,
    /// in the engine's winding order. The current point becomes (x1, y1).
    pub fn rect(&mut self, x1: i32, y1: i32, x2: i32, y2: i32) -> (r: Result<(), EngineError>)
        ensures
            r == Ok::<(), EngineError>(()),
            final(self)@ == old(self)@ + rect_elements(x1, y1, x2, y2),
            current_point_of(final(self)@) == (Point { x: x1, y: y1 }),
            wf(old(self)@) ==> wf(final(self)@),
    {
        self.elements.push(Element::MoveTo { x: x1, y: y1 });
        self.elements.push(Element::LineTo { x: x2, y: y1 });
        self.elements.push(Element::LineTo { x: x2, y: y2 });
        self.elements.push(Element::LineTo { x: x1, y: y2 });
        self.elements.push(Element::Close);
        proof {
            let s0 = old(self)@;
            let u1 = s0.push(Element::MoveTo { x: x1, y: y1 });
            let u2 = u1.push(Element::LineTo { x: x2, y: y1 });
            let u3 = u2.push(Element::LineTo { x: x2, y: y2 });
            let u4 = u3.push(Element::LineTo { x: x1, y: y2 });
            let u5 = u4.push(Element::Close);
            assert(self.elements@ == u5);
            assert(u5 =~= s0 + rect_elements(x1, y1, x2, y2));
            // The current point after the Close is the start of the subpath:
            // peel the Close and the three LineTo segments back to the MoveTo.
            assert(u5.drop_last() =~= u4);
            assert(u4.drop_last() =~= u3);
            assert(u3.drop_last() =~= u2);
            assert(u2.drop_last() =~= u1);
            assert(current_point_of(u5) == start_point_of(u4));
            assert(start_point_of(u4) == start_point_of(u3));
            assert(start_point_of(u3) == start_point_of(u2));
            assert(start_point_of(u2) == start_point_of(u1));
            assert(start_point_of(u1) == (Point { x: x1, y: y1 }));
            if s0.len() > 0 {
                assert(u5[0] == s0[0]);
            }
        }
        Ok(())
    }

    /// Appends a Close segment, connecting the open subpath back to its
    /// starting point, which becomes the current point. Fails, leaving the
    /// path unchanged, exactly when the path has no current point yet.
    pub fn close(&mut self) -> (r: Result<(), EngineError>)
        ensures
            old(self)@.len() == 0 ==> r == Err::<(), EngineError>(EngineError::NoCurrentPoint)
                && final(self)@ == old(self)@,
            old(self)@.len() > 0 ==> r == Ok::<(), EngineError>(())
                && final(self)@ == old(self)@.push(Element::Close)
                && current_point_of(final(self)@) == start_point_of(old(self)@),
            wf(old(self)@) ==> wf(final(self)@),
    {
        if self.elements.len() == 0 {
            return Err(EngineError::NoCurrentPoint);
        }
        self.elements.push(Element::Close);
        proof {
            assert(self.elements@.drop_last() =~= old(self)@);
        }
        Ok(())
    }

    /// Compacts internal storage. The stored segments, their order and the
    /// current point are untouched, and the operation cannot fail.
    pub fn trim(&mut self) -> (r: Result<(), EngineError>)
        ensures
            r == Ok::<(), EngineError>(()),
            final(self)@ == old(self)@,
    {
        shrink_vec(&mut self.elements);
        Ok(())
    }
}

impl Clone for Path {
    /// A panic-free value-semantics copy: the fallible `try_clone` is the
    /// primary operation, and it cannot fail here.
    fn clone(&self) -> (r: Self)
        ensures
            r@ == self@,
    {
        match self.try_clone() {
            Ok(p) => p,
            Err(_) => vstd::pervasive::unreached(),
        }
    }
}

/// Relies on Vec::shrink_to_fit: it drops excess capacity and leaves the
/// contents unchanged.
#[verifier::external_body]
fn shrink_vec(v: &mut Vec<Element>)
    ensures
        final(v)@ == old(v)@,
{
    v.shrink_to_fit()
}

} // verus!
