use vstd::prelude::*;

use crate::error::EngineError;
use crate::geometry::{tx_x, tx_y, Matrix};
use crate::path::{wf, Element, Path};

verus! {

/// Whether v fits the coordinate type.
pub open spec fn coord_fits(v: int) -> bool {
    i32::MIN as int <= v <= i32::MAX as int
}

/// Whether both coordinates of the point (x, y) under m fit the coordinate
/// type.
pub open spec fn point_fits(m: Matrix, x: int, y: int) -> bool {
    coord_fits(tx_x(m, x, y)) && coord_fits(tx_y(m, x, y))
}

/// Whether every coordinate of e under m fits the coordinate type.
pub open spec fn elem_fits(m: Matrix, e: Element) -> bool {
    match e {
        Element::MoveTo { x, y } => point_fits(m, x as int, y as int),
        Element::LineTo { x, y } => point_fits(m, x as int, y as int),
        Element::CurveTo { cx1, cy1, cx2, cy2, ex, ey } => point_fits(m, cx1 as int, cy1 as int)
            && point_fits(m, cx2 as int, cy2 as int) && point_fits(m, ex as int, ey as int),
        Element::Close => true,
    }
}

/// The segment e with every coordinate mapped by m. Meaningful where
/// elem_fits holds, so that no coordinate is clipped.
pub open spec fn transform_elem(m: Matrix, e: Element) -> Element {
    match e {
        Element::MoveTo { x, y } => Element::MoveTo {
            x: tx_x(m, x as int, y as int) as i32,
            y: tx_y(m, x as int, y as int) as i32,
        },
        Element::LineTo { x, y } => Element::LineTo {
            x: tx_x(m, x as int, y as int) as i32,
            y: tx_y(m, x as int, y as int) as i32,
        },
        Element::CurveTo { cx1, cy1, cx2, cy2, ex, ey } => Element::CurveTo {
            cx1: tx_x(m, cx1 as int, cy1 as int) as i32,
            cy1: tx_y(m, cx1 as int, cy1 as int) as i32,
            cx2: tx_x(m, cx2 as int, cy2 as int) as i32,
            cy2: tx_y(m, cx2 as int, cy2 as int) as i32,
            ex: tx_x(m, ex as int, ey as int) as i32,
            ey: tx_y(m, ex as int, ey as int) as i32,
        },
        Element::Close => Element::Close,
    }
}

/// The whole segment sequence with every coordinate mapped by m.
pub open spec fn transform_seq(m: Matrix, s: Seq<Element>) -> Seq<Element> {
    s.map_values(|e: Element| transform_elem(m, e))
}

/// The product of two coordinate-sized values stays within two to the 62nd.
pub(crate) proof fn lemma_coord_mul_bound(a: int, b: int) by (nonlinear_arith)
    requires
        -0x8000_0000 <= a <= 0x7fff_ffff,
        -0x8000_0000 <= b <= 0x7fff_ffff,
    ensures
        -0x4000_0000_0000_0000 <= a * b <= 0x4000_0000_0000_0000,
{
}

/// Both transformed coordinates of (x, y) under m, exactly and without
/// clipping.
pub(crate) fn tx_wide(m: &Matrix, x: i32, y: i32) -> (r: (i128, i128))
    ensures
        r.0 as int == tx_x(*m, x as int, y as int),
        r.1 as int == tx_y(*m, x as int, y as int),
{
    proof {
        lemma_coord_mul_bound(m.a as int, x as int);
        lemma_coord_mul_bound(m.c as int, y as int);
        lemma_coord_mul_bound(m.b as int, x as int);
        lemma_coord_mul_bound(m.d as int, y as int);
    }
    let rx: i128 = (m.a as i128) * (x as i128) + (m.c as i128) * (y as i128) + (m.e as i128);
    let ry: i128 = (m.b as i128) * (x as i128) + (m.d as i128) * (y as i128) + (m.f as i128);
    (rx, ry)
}

/// The transformed point as coordinates, or None when one of them does not
/// fit the coordinate type.
fn tx_checked(m: &Matrix, x: i32, y: i32) -> (r: Option<(i32, i32)>)
    ensures
        r is Some <==> point_fits(*m, x as int, y as int),
        r matches Some(q) ==> q.0 as int == tx_x(*m, x as int, y as int) && q.1 as int == tx_y(
            *m,
            x as int,
            y as int,
        ),
{
    let (rx, ry) = tx_wide(m, x, y);
    if rx < i32::MIN as i128 || rx > i32::MAX as i128 || ry < i32::MIN as i128 || ry
        > i32::MAX as i128 {
        None
    } else {
        Some((rx as i32, ry as i32))
    }
}

/// The segment with every coordinate mapped by m, or None when a mapped
/// coordinate does not fit the coordinate type.
fn transform_element_checked(m: &Matrix, e: Element) -> (r: Option<Element>)
    ensures
        r is Some <==> elem_fits(*m, e),
        r matches Some(te) ==> te == transform_elem(*m, e),
{
    match e {
        Element::MoveTo { x, y } => {
            match tx_checked(m, x, y) {
                Some(q) => Some(Element::MoveTo { x: q.0, y: q.1 }),
                None => None,
            }
        },
        Element::LineTo { x, y } => {
            match tx_checked(m, x, y) {
                Some(q) => Some(Element::LineTo { x: q.0, y: q.1 }),
                None => None,
            }
        },
        Element::CurveTo { cx1, cy1, cx2, cy2, ex, ey } => {
            match (tx_checked(m, cx1, cy1), tx_checked(m, cx2, cy2), tx_checked(m, ex, ey)) {
                (Some(q1), Some(q2), Some(q3)) => Some(
                    Element::CurveTo {
                        cx1: q1.0,
                        cy1: q1.1,
                        cx2: q2.0,
                        cy2: q2.1,
                        ex: q3.0,
                        ey: q3.1,
                    },
                ),
                _ => None,
            }
        },
        Element::Close => Some(Element::Close),
    }
}

impl Path {
    /// Applies the affine transform m to every coordinate of every stored
    /// segment, in place. Fails, leaving the path unchanged, exactly when
    /// some mapped coordinate does not fit the coordinate type; on success
    /// every segment is mapped and the order is kept.
    pub fn transform(&mut self, m: &Matrix) -> (r: Result<(), EngineError>)
        ensures
            r == Ok::<(), EngineError>(()) <==> (forall|i: int|
                0 <= i < old(self)@.len() ==> #[trigger] elem_fits(*m, old(self)@[i])),
            r == Ok::<(), EngineError>(()) ==> final(self)@ == transform_seq(*m, old(self)@),
            r != Ok::<(), EngineError>(()) ==> final(self)@ == old(self)@ && r == Err::<
                (),
                EngineError,
            >(EngineError::NumericOverflow),
            wf(old(self)@) ==> wf(final(self)@),
    {
        let n = self.len();
        let mut mapped: Vec<Element> = Vec::new();
        let mut i: usize = 0;
        while i < n
            invariant
                i <= n,
                n == self@.len(),
                mapped@ == transform_seq(*m, self@.subrange(0, i as int)),
                forall|j: int| 0 <= j < i ==> #[trigger] elem_fits(*m, self@[j]),
            decreases n - i,
        {
            let e = self.element_at(i);
            match transform_element_checked(m, e) {
                Some(te) => {
                    mapped.push(te);
                    proof {
                        assert(self@.subrange(0, (i + 1) as int) =~= self@.subrange(
                            0,
                            i as int,
                        ).push(e));
                        assert(mapped@ =~= transform_seq(*m, self@.subrange(0, (i + 1) as int)));
                    }
                },
                None => {
                    return Err(EngineError::NumericOverflow);
                },
            }
            i += 1;
        }
        proof {
            assert(self@.subrange(0, n as int) =~= self@);
            if old(self)@.len() > 0 && old(self)@[0] is MoveTo {
                assert(transform_seq(*m, old(self)@)[0] == transform_elem(*m, old(self)@[0]));
            }
        }
        self.set_elements(mapped);
        Ok(())
    }
}

} // verus!
