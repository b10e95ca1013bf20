use vstd::prelude::*;

use crate::error::EngineError;
use crate::path::{Element, Path};

verus! {

/// A consumer of path traversal. The traversal protocol invokes one of the
/// four operations per stored segment, in path order. The trace is the
/// sequence of events the walker has received so far; each operation must
/// extend it by exactly the event it was invoked with.
pub trait PathWalker {
    /// The events received so far, in order. The default stands for walkers
    /// that keep no record; a walker whose contracts matter overrides it.
    open spec fn trace(&self) -> Seq<Element> {
        Seq::empty()
    }

    fn move_to(&mut self, x: i32, y: i32)
        ensures
            final(self).trace() == old(self).trace().push(Element::MoveTo { x, y }),
    ;

    fn line_to(&mut self, x: i32, y: i32)
        ensures
            final(self).trace() == old(self).trace().push(Element::LineTo { x, y }),
    ;

    fn curve_to(&mut self, cx1: i32, cy1: i32, cx2: i32, cy2: i32, ex: i32, ey: i32)
        ensures
            final(self).trace() == old(self).trace().push(
                Element::CurveTo { cx1, cy1, cx2, cy2, ex, ey },
            ),
    ;

    fn close(&mut self)
        ensures
            final(self).trace() == old(self).trace().push(Element::Close),
    ;
}

/// A walker that records every event it receives, in order.
pub struct RecordingWalker {
    pub events: Vec<Element>,
}

impl RecordingWalker {
    /// Creates a recorder with an empty trace.
    pub fn new() -> (w: RecordingWalker)
        ensures
            w.trace() == Seq::<Element>::empty(),
    {
        RecordingWalker { events: Vec::new() }
    }
}

impl PathWalker for RecordingWalker {
    open spec fn trace(&self) -> Seq<Element> {
        self.events@
    }

    fn move_to(&mut self, x: i32, y: i32) {
        self.events.push(Element::MoveTo { x, y });
    }

    fn line_to(&mut self, x: i32, y: i32) {
        self.events.push(Element::LineTo { x, y });
    }

    fn curve_to(&mut self, cx1: i32, cy1: i32, cx2: i32, cy2: i32, ex: i32, ey: i32) {
        self.events.push(Element::CurveTo { cx1, cy1, cx2, cy2, ex, ey });
    }

    fn close(&mut self) {
        self.events.push(Element::Close);
    }
}

/// One traversal step extends the delivered trace by the next segment.
proof fn lemma_trace_step(t0: Seq<Element>, s: Seq<Element>, i: int)
    requires
        0 <= i < s.len(),
    ensures
        (t0 + s.subrange(0, i)).push(s[i]) == t0 + s.subrange(0, i + 1),
{
    assert((t0 + s.subrange(0, i)).push(s[i]) =~= t0 + s.subrange(0, i + 1));
}

impl Path {
    /// Replays every stored segment to the walker, in original append
    /// order, exactly once per segment, synchronously and to completion:
    /// the walker's trace is extended by exactly the stored sequence.
    pub fn walk<W: PathWalker>(&self, walker: &mut W) -> (r: Result<(), EngineError>)
        ensures
            r == Ok::<(), EngineError>(()),
            final(walker).trace() == old(walker).trace() + self@,
    {
        let ghost t0 = walker.trace();
        let n = self.len();
        let mut i: usize = 0;
        while i < n
            invariant
                i <= n,
                n == self@.len(),
                walker.trace() == t0 + self@.subrange(0, i as int),
            decreases n - i,
        {
            proof {
                lemma_trace_step(t0, self@, i as int);
            }
            match self.element_at(i) {
                Element::MoveTo { x, y } => walker.move_to(x, y),
                Element::LineTo { x, y } => walker.line_to(x, y),
                Element::CurveTo { cx1, cy1, cx2, cy2, ex, ey } => {
                    walker.curve_to(cx1, cy1, cx2, cy2, ex, ey)
                },
                Element::Close => walker.close(),
            }
            i += 1;
        }
        proof {
            assert(self@.subrange(0, n as int) =~= self@);
        }
        Ok(())
    }
}

} // verus!
