//! The committed strokes of a canvas and the drawing plan built from them.
use vstd::prelude::*;
use crate::capture::{handle_event, InternalState, Outcome, PointerEvent};

verus! {

/// One step of the path that draws the committed strokes.
#[derive(Clone, Copy, Debug, PartialEq)]
pub enum PathOp<P> {
    /// Start a new sub-path at a stroke's first point.
    MoveTo(P),
    /// Continue the sub-path with a segment to the point.
    LineTo(P),
    /// Stamp a small rounded marker centred on the point, to fill the joint.
    Marker(P),
}

/// The path of one stroke: a move to its first point, then a segment and a
/// marker for each later point.
pub open spec fn stroke_ops<P>(line: Seq<P>) -> Seq<PathOp<P>>
    decreases line.len(),
{
    if line.len() == 0 {
        seq![]
    } else if line.len() == 1 {
        seq![PathOp::MoveTo(line[0])]
    } else {
        stroke_ops(line.drop_last()) + seq![PathOp::LineTo(line.last()), PathOp::Marker(line.last())]
    }
}

/// The path of all strokes, one sub-path each, in drawing order.
pub open spec fn plan_ops<P>(lines: Seq<Seq<P>>) -> Seq<PathOp<P>>
    decreases lines.len(),
{
    if lines.len() == 0 {
        seq![]
    } else {
        plan_ops(lines.drop_last()) + stroke_ops(lines.last())
    }
}

/// How many sub-paths a path starts.
pub open spec fn move_count<P>(ops: Seq<PathOp<P>>) -> nat
    decreases ops.len(),
{
    if ops.len() == 0 {
        0
    } else {
        move_count(ops.drop_last()) + if ops.last() is MoveTo {
            1nat
        } else {
            0nat
        }
    }
}

/// Every stroke has a first point.
pub open spec fn all_drawable<P>(lines: Seq<Seq<P>>) -> bool {
    forall|i: int| 0 <= i < lines.len() ==> #[trigger] lines[i].len() >= 1
}

/// The committed strokes of a canvas, in the order they were completed.
#[derive(Clone, Debug)]
pub struct Number<P> {
    lines: Vec<Vec<P>>,
}

impl<P> View for Number<P> {
    type V = Seq<Seq<P>>;

    closed spec fn view(&self) -> Seq<Seq<P>> {
        self.lines@.map_values(|l: Vec<P>| l@)
    }
}

impl<P: Copy> Default for Number<P> {
    /// A canvas with no strokes.
    fn default() -> (r: Self)
        ensures
            r@ == Seq::<Seq<P>>::empty(),
    {
        Number { lines: Vec::new() }
    }
}

impl<P: Copy> Number<P> {
    /// Every committed stroke can be drawn.
    pub open spec fn wf(&self) -> bool {
        all_drawable(self@)
    }

    /// A canvas with no strokes.
    pub fn new() -> (r: Self)
        ensures
            r@ == Seq::<Seq<P>>::empty(),
            r.wf(),
    {
        Number { lines: Vec::new() }
    }

    /// Replaces the strokes.
    pub fn with_lines(self, lines: Vec<Vec<P>>) -> (r: Self)
        requires
            all_drawable(lines@.map_values(|l: Vec<P>| l@)),
        ensures
            r@ == lines@.map_values(|l: Vec<P>| l@),
            r.wf(),
    {
        Number { lines }
    }

    /// Appends a completed stroke.
    pub fn add_line(&mut self, line: Vec<P>)
        requires
            old(self).wf(),
            line@.len() >= 1,
        ensures
            final(self)@ == old(self)@.push(line@),
            final(self).wf(),
    {
        self.lines.push(line);
        assert(self@ =~= old(self)@.push(line@));
    }

    /// Removes every stroke.
    pub fn clear(&mut self)
        ensures
            final(self)@ == Seq::<Seq<P>>::empty(),
            final(self).wf(),
    {
        self.lines = Vec::new();
        assert(self@ =~= Seq::<Seq<P>>::empty());
    }

    /// The committed strokes.
    pub fn lines(&self) -> (r: &Vec<Vec<P>>)
        ensures
            r@.map_values(|l: Vec<P>| l@) == self@,
    {
        &self.lines
    }

    /// How many strokes are committed.
    pub fn len(&self) -> (r: usize)
        ensures
            r == self@.len(),
    {
        self.lines.len()
    }

    /// Handles one pointer event for this canvas; see `handle_event`.
    pub fn update(
        &self,
        state: &mut Option<InternalState<P>>,
        event: PointerEvent<P>,
        in_bounds: bool,
        bounds: P,
    ) -> (r: Outcome<P>)
        ensures
            crate::capture::line_of(*final(state)) == crate::capture::next_line(
                crate::capture::line_of(*old(state)),
                event,
                in_bounds,
            ),
            !in_bounds || event is Other ==> *final(state) == *old(state),
            *old(state) is None && !(event is Pressed) ==> *final(state) == *old(state),
            (r is Captured) <==> (in_bounds && event is Pressed),
            match crate::capture::emitted_line(
                crate::capture::line_of(*old(state)),
                event,
                in_bounds,
                bounds,
            ) {
                Some(l) => r matches Outcome::Published(
                    crate::capture::CanvasMessage::LineComplete(v),
                ) && v@ == l,
                None => !(r matches Outcome::Published(
                    crate::capture::CanvasMessage::LineComplete(_),
                )),
            },
            (r matches Outcome::Published(crate::capture::CanvasMessage::RedrawRequested))
                <==> crate::capture::emits_redraw(crate::capture::line_of(*old(state)), event, in_bounds),
    {
        handle_event(state, event, in_bounds, bounds)
    }

    /// Commits the payload of a completed line: its last element is the bounds
    /// point, which is returned, and the points before it are the stroke.
    /// A payload without a stroke point is refused and changes nothing.
    pub fn commit_line(&mut self, message: Vec<P>) -> (r: Option<P>)
        requires
            old(self).wf(),
        ensures
            final(self).wf(),
            message@.len() >= 2 ==> r == Some(message@.last()) && final(self)@ == old(self)@.push(
                message@.drop_last(),
            ),
            message@.len() < 2 ==> r is None && final(self)@ == old(self)@,
    {
        let mut stroke = message;
        if stroke.len() < 2 {
            return None;
        }
        let bounds = stroke.pop();
        assert(stroke@ =~= message@.drop_last());
        self.add_line(stroke);
        bounds
    }

    /// An independent copy of the strokes, for a renderer of its own.
    pub fn snapshot(&self) -> (r: Self)
        requires
            self.wf(),
        ensures
            r@ == self@,
            r.wf(),
    {
        let mut lines: Vec<Vec<P>> = Vec::new();
        let mut i: usize = 0;
        while i < self.lines.len()
            invariant
                i <= self.lines@.len(),
                lines@.len() == i,
                forall|k: int| 0 <= k < i ==> #[trigger] lines@[k]@ == self@[k],
            decreases self.lines@.len() - i,
        {
            let src = &self.lines[i];
            let mut line: Vec<P> = Vec::new();
            let mut j: usize = 0;
            while j < src.len()
                invariant
                    j <= src@.len(),
                    line@ =~= src@.take(j as int),
                decreases src@.len() - j,
            {
                line.push(src[j]);
                j += 1;
            }
            assert(src@.take(j as int) =~= src@);
            assert(self@[i as int] == line@);
            lines.push(line);
            i += 1;
        }
        assert(lines@.map_values(|l: Vec<P>| l@) =~= self@);
        Number { lines }
    }

    /// The path that draws every committed stroke.
    pub fn path_ops(&self) -> (r: Vec<PathOp<P>>)
        requires
            self.wf(),
        ensures
            r@ == plan_ops(self@),
    {
        let mut ops: Vec<PathOp<P>> = Vec::new();
        let mut i: usize = 0;
        while i < self.lines.len()
            invariant
                i <= self.lines@.len(),
                self.wf(),
                ops@ == plan_ops(self@.take(i as int)),
            decreases self.lines@.len() - i,
        {
            let line = &self.lines[i];
            assert(self@[i as int] == line@);
            assert(line@.len() >= 1);
            let ghost before = ops@;
            ops.push(PathOp::MoveTo(line[0]));
            assert(line@.take(1) =~= seq![line@[0]]);
            let mut j: usize = 1;
            while j < line.len()
                invariant
                    1 <= j <= line@.len(),
                    ops@ == before + stroke_ops(line@.take(j as int)),
                decreases line@.len() - j,
            {
                let p = line[j];
                ops.push(PathOp::LineTo(p));
                ops.push(PathOp::Marker(p));
                assert(line@.take(j + 1).drop_last() =~= line@.take(j as int));
                assert(ops@ =~= before + stroke_ops(line@.take(j + 1)));
                j += 1;
            }
            assert(line@.take(j as int) =~= line@);
            assert(self@.take(i + 1).drop_last() =~= self@.take(i as int));
            i += 1;
        }
        assert(self@.take(i as int) =~= self@);
        ops
    }
}

proof fn lemma_move_count_concat<P>(a: Seq<PathOp<P>>, b: Seq<PathOp<P>>)
    ensures
        move_count(a + b) == move_count(a) + move_count(b),
    decreases b.len(),
{
    if b.len() == 0 {
        assert(a + b =~= a);
    } else {
        lemma_move_count_concat(a, b.drop_last());
        assert((a + b).drop_last() =~= a + b.drop_last());
    }
}

proof fn lemma_stroke_starts_one_path<P>(line: Seq<P>)
    requires
        line.len() >= 1,
    ensures
        move_count(stroke_ops(line)) == 1,
    decreases line.len(),
{
    if line.len() == 1 {
        let ops = stroke_ops(line);
        assert(ops.drop_last() =~= Seq::<PathOp<P>>::empty());
        assert(move_count(ops.drop_last()) == 0);
        assert(ops.last() is MoveTo);
    } else {
        lemma_stroke_starts_one_path(line.drop_last());
        let tail = seq![PathOp::LineTo(line.last()), PathOp::Marker(line.last())];
        lemma_move_count_concat(stroke_ops(line.drop_last()), tail);
        assert(tail.drop_last().drop_last() =~= Seq::<PathOp<P>>::empty());
        assert(tail.drop_last() =~= seq![PathOp::LineTo(line.last())]);
        assert(move_count(tail.drop_last().drop_last()) == 0);
        assert(move_count(tail.drop_last()) == 0);
        assert(move_count(tail) == 0);
    }
}

/// Drawing the committed strokes starts exactly one sub-path per stroke: after
/// any run of adds since the last clear, the path rasterises that many strokes.
pub proof fn lemma_plan_has_one_path_per_stroke<P>(lines: Seq<Seq<P>>)
    requires
        all_drawable(lines),
    ensures
        move_count(plan_ops(lines)) == lines.len(),
    decreases lines.len(),
{
    if lines.len() > 0 {
        let rest = lines.drop_last();
        assert forall|i: int| 0 <= i < rest.len() implies #[trigger] rest[i].len() >= 1 by {
            assert(rest[i] == lines[i]);
        }
        lemma_plan_has_one_path_per_stroke(rest);
        assert(lines[lines.len() - 1].len() >= 1);
        lemma_stroke_starts_one_path(lines.last());
        lemma_move_count_concat(plan_ops(rest), stroke_ops(lines.last()));
    }
}

/// The strokes held after adding each of `adds`, in order, to a store holding `start`.
pub open spec fn after_adds<P>(start: Seq<Seq<P>>, adds: Seq<Seq<P>>) -> Seq<Seq<P>>
    decreases adds.len(),
{
    if adds.len() == 0 {
        start
    } else {
        after_adds(start.push(adds[0]), adds.drop_first())
    }
}

proof fn lemma_after_adds_appends<P>(start: Seq<Seq<P>>, adds: Seq<Seq<P>>)
    ensures
        after_adds(start, adds) == start + adds,
    decreases adds.len(),
{
    if adds.len() == 0 {
        assert(start + adds =~= start);
    } else {
        lemma_after_adds_appends(start.push(adds[0]), adds.drop_first());
        assert(start.push(adds[0]) + adds.drop_first() =~= start + adds);
    }
}

/// Clearing a store and adding its strokes again, in the same order, gives the
/// same strokes and so draws the same path as before.
pub proof fn lemma_replay_after_clear_draws_same_path<P>(strokes: Seq<Seq<P>>)
    ensures
        after_adds(Seq::<Seq<P>>::empty(), strokes) == strokes,
        plan_ops(after_adds(Seq::<Seq<P>>::empty(), strokes)) == plan_ops(strokes),
{
    lemma_after_adds_appends(Seq::<Seq<P>>::empty(), strokes);
    assert(Seq::<Seq<P>>::empty() + strokes =~= strokes);
}

} // verus!
