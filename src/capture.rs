//! The stroke capture state machine: pointer events in, completed lines out.
use vstd::prelude::*;

verus! {

/// A pointer event as seen by the canvas, with the position it carries.
#[derive(Clone, Copy, Debug, PartialEq)]
pub enum PointerEvent<P> {
    Pressed(P),
    Released(P),
    Moved(P),
    Other,
}

/// What the canvas hands to the application.
#[derive(Clone, Debug, PartialEq)]
pub enum CanvasMessage<P> {
    /// The finished stroke, followed by one point that holds the canvas bounds.
    LineComplete(Vec<P>),
    RedrawRequested,
}

/// How an event was handled.
#[derive(Clone, Debug, PartialEq)]
pub enum Outcome<P> {
    /// Nothing happened.
    Ignored,
    /// The event was taken by the canvas and no one else should act on it.
    Captured,
    /// The canvas has a message for the application.
    Published(CanvasMessage<P>),
}

/// The stroke being drawn while the pointer is held down.
#[derive(Clone, Debug)]
pub struct InternalState<P> {
    pub incomplete_line: Vec<P>,
}

/// The in-progress stroke, if any, as a sequence of points.
pub open spec fn line_of<P>(state: Option<InternalState<P>>) -> Option<Seq<P>> {
    match state {
        Some(s) => Some(s.incomplete_line@),
        None => None,
    }
}

/// The stroke that a release commits: a lone point is doubled by the release position.
pub open spec fn promoted<P>(line: Seq<P>, release: P) -> Seq<P> {
    if line.len() == 1 {
        line.push(release)
    } else {
        line
    }
}

/// The in-progress stroke after one event.
pub open spec fn next_line<P>(line: Option<Seq<P>>, event: PointerEvent<P>, in_bounds: bool) -> Option<Seq<P>> {
    if !in_bounds {
        line
    } else {
        match event {
            PointerEvent::Pressed(p) => Some(seq![p]),
            PointerEvent::Released(_) => None,
            PointerEvent::Moved(p) => match line {
                Some(l) => Some(l.push(p)),
                None => None,
            },
            PointerEvent::Other => line,
        }
    }
}

/// The completed-line payload that one event emits, if it emits one.
pub open spec fn emitted_line<P>(
    line: Option<Seq<P>>,
    event: PointerEvent<P>,
    in_bounds: bool,
    bounds: P,
) -> Option<Seq<P>> {
    if !in_bounds {
        None
    } else {
        match (event, line) {
            (PointerEvent::Released(p), Some(l)) => Some(promoted(l, p).push(bounds)),
            _ => None,
        }
    }
}

/// Whether one event asks for a redraw while a stroke is being drawn.
pub open spec fn emits_redraw<P>(line: Option<Seq<P>>, event: PointerEvent<P>, in_bounds: bool) -> bool {
    in_bounds && event is Moved && line is Some
}

/// Handles one pointer event. `in_bounds` tells whether the cursor is over the
/// canvas; `bounds` is the point that carries the canvas width and height.
pub fn handle_event<P: Copy>(
    state: &mut Option<InternalState<P>>,
    event: PointerEvent<P>,
    in_bounds: bool,
    bounds: P,
) -> (r: Outcome<P>)
    ensures
        line_of(*final(state)) == next_line(line_of(*old(state)), event, in_bounds),
        !in_bounds || event is Other ==> *final(state) == *old(state),
        *old(state) is None && !(event is Pressed) ==> *final(state) == *old(state),
        (r is Captured) <==> (in_bounds && event is Pressed),
        match emitted_line(line_of(*old(state)), event, in_bounds, bounds) {
            Some(l) => r matches Outcome::Published(CanvasMessage::LineComplete(v)) && v@ == l,
            None => !(r matches Outcome::Published(CanvasMessage::LineComplete(_))),
        },
        (r matches Outcome::Published(CanvasMessage::RedrawRequested)) <==> emits_redraw(
            line_of(*old(state)),
            event,
            in_bounds,
        ),
{
    if !in_bounds {
        return Outcome::Ignored;
    }
    match event {
        PointerEvent::Pressed(p) => {
            *state = Some(InternalState { incomplete_line: vec![p] });
            Outcome::Captured
        },
        PointerEvent::Released(p) => {
            match state.take() {
                Some(s) => {
                    let mut line = s.incomplete_line;
                    if line.len() == 1 {
                        line.push(p);
                    }
                    line.push(bounds);
                    Outcome::Published(CanvasMessage::LineComplete(line))
                },
                None => Outcome::Ignored,
            }
        },
        PointerEvent::Moved(p) => {
            match state {
                Some(s) => {
                    s.incomplete_line.push(p);
                    Outcome::Published(CanvasMessage::RedrawRequested)
                },
                None => Outcome::Ignored,
            }
        },
        PointerEvent::Other => Outcome::Ignored,
    }
}

/// The completed-line payloads that a run of in-bounds events emits, in order.
pub open spec fn emitted_lines<P>(line: Option<Seq<P>>, events: Seq<PointerEvent<P>>, bounds: P) -> Seq<Seq<P>>
    decreases events.len(),
{
    if events.len() == 0 {
        seq![]
    } else {
        let rest = emitted_lines(next_line(line, events[0], true), events.drop_first(), bounds);
        match emitted_line(line, events[0], true, bounds) {
            Some(l) => seq![l] + rest,
            None => rest,
        }
    }
}

/// The in-progress stroke after a run of in-bounds events.
pub open spec fn line_after<P>(line: Option<Seq<P>>, events: Seq<PointerEvent<P>>) -> Option<Seq<P>>
    decreases events.len(),
{
    if events.len() == 0 {
        line
    } else {
        line_after(next_line(line, events[0], true), events.drop_first())
    }
}

/// Feeds a run of events that all fall on the canvas to `handle_event`, one
/// call each, and collects the completed-line payloads it publishes, in order.
pub fn replay<P: Copy>(
    state: &mut Option<InternalState<P>>,
    events: &Vec<PointerEvent<P>>,
    bounds: P,
) -> (r: Vec<Vec<P>>)
    ensures
        r@.map_values(|v: Vec<P>| v@) == emitted_lines(line_of(*old(state)), events@, bounds),
        line_of(*final(state)) == line_after(line_of(*old(state)), events@),
{
    let ghost start = line_of(*state);
    let mut out: Vec<Vec<P>> = Vec::new();
    let mut i: usize = 0;
    assert(events@.subrange(0, events@.len() as int) =~= events@);
    while i < events.len()
        invariant
            i <= events@.len(),
            emitted_lines(start, events@, bounds) == out@.map_values(|v: Vec<P>| v@) + emitted_lines(
                line_of(*state),
                events@.subrange(i as int, events@.len() as int),
                bounds,
            ),
            line_after(start, events@) == line_after(
                line_of(*state),
                events@.subrange(i as int, events@.len() as int),
            ),
        decreases events@.len() - i,
    {
        let ghost rest = events@.subrange(i as int, events@.len() as int);
        let ghost before = line_of(*state);
        let ghost seen = out@.map_values(|v: Vec<P>| v@);
        assert(rest[0] == events@[i as int]);
        assert(rest.drop_first() =~= events@.subrange(i + 1, events@.len() as int));
        match handle_event(state, events[i], true, bounds) {
            Outcome::Published(CanvasMessage::LineComplete(v)) => {
                out.push(v);
                assert(out@.map_values(|v: Vec<P>| v@) =~= seen.push(v@));
                assert(seen.push(v@) + emitted_lines(line_of(*state), rest.drop_first(), bounds) =~= seen
                    + (seq![v@] + emitted_lines(line_of(*state), rest.drop_first(), bounds)));
            },
            _ => {},
        }
        i += 1;
    }
    assert(events@.subrange(i as int, events@.len() as int) =~= Seq::<PointerEvent<P>>::empty());
    assert(out@.map_values(|v: Vec<P>| v@) + Seq::<Seq<P>>::empty() =~= out@.map_values(
        |v: Vec<P>| v@,
    ));
    out
}

/// One gesture: a press, any number of moves, then a release.
pub open spec fn gesture<P>(press: P, moves: Seq<P>, release: P) -> Seq<PointerEvent<P>> {
    seq![PointerEvent::Pressed(press)] + moves.map_values(|p: P| PointerEvent::Moved(p))
        + seq![PointerEvent::Released(release)]
}

proof fn lemma_drag_then_release<P>(l: Seq<P>, moves: Seq<P>, release: P, bounds: P)
    requires
        l.len() >= 1,
    ensures
        emitted_lines(
            Some(l),
            moves.map_values(|p: P| PointerEvent::Moved(p)) + seq![PointerEvent::Released(release)],
            bounds,
        ) == seq![promoted(l + moves, release).push(bounds)],
        line_after(
            Some(l),
            moves.map_values(|p: P| PointerEvent::Moved(p)) + seq![PointerEvent::Released(release)],
        ) == None::<Seq<P>>,
    decreases moves.len(),
{
    let evs = moves.map_values(|p: P| PointerEvent::Moved(p)) + seq![PointerEvent::Released(release)];
    if moves.len() == 0 {
        assert(l + moves =~= l);
        assert(evs[0] == PointerEvent::Released(release));
        assert(evs.drop_first() =~= Seq::<PointerEvent<P>>::empty());
        assert(emitted_lines(None, evs.drop_first(), bounds) == Seq::<Seq<P>>::empty());
        assert(line_after(None::<Seq<P>>, evs.drop_first()) == None::<Seq<P>>);
        assert(seq![promoted(l, release).push(bounds)] + Seq::<Seq<P>>::empty() =~= seq![
            promoted(l, release).push(bounds),
        ]);
    } else {
        let rest = moves.drop_first();
        assert(evs[0] == PointerEvent::Moved(moves[0]));
        assert(evs.drop_first() =~= rest.map_values(|p: P| PointerEvent::Moved(p)) + seq![
            PointerEvent::Released(release),
        ]);
        lemma_drag_then_release(l.push(moves[0]), rest, release, bounds);
        assert(l.push(moves[0]) + rest =~= l + moves);
        assert(emitted_lines(Some(l), evs, bounds) == emitted_lines(
            Some(l.push(moves[0])),
            evs.drop_first(),
            bounds,
        ));
        assert(line_after(Some(l), evs) == line_after(Some(l.push(moves[0])), evs.drop_first()));
    }
}

/// A press, any run of moves and a release, all over the canvas, emit exactly
/// one completed line whatever came before (`replay` ties this to calls of
/// `handle_event`): its stroke has at least two points,
/// and its last element is the bounds point. The machine is idle afterwards.
pub proof fn lemma_gesture_emits_one_line<P>(
    start: Option<Seq<P>>,
    press: P,
    moves: Seq<P>,
    release: P,
    bounds: P,
)
    ensures
        emitted_lines(start, gesture(press, moves, release), bounds).len() == 1,
        emitted_lines(start, gesture(press, moves, release), bounds)[0].len() >= 3,
        emitted_lines(start, gesture(press, moves, release), bounds)[0].last() == bounds,
        emitted_lines(start, gesture(press, moves, release), bounds)[0].drop_last() == promoted(
            seq![press] + moves,
            release,
        ),
        line_after(start, gesture(press, moves, release)) == None::<Seq<P>>,
{
    let evs = gesture(press, moves, release);
    let tail = moves.map_values(|p: P| PointerEvent::Moved(p)) + seq![PointerEvent::Released(release)];
    assert(evs[0] == PointerEvent::Pressed(press));
    assert(evs.drop_first() =~= tail);
    lemma_drag_then_release(seq![press], moves, release, bounds);
    let m = promoted(seq![press] + moves, release);
    assert(m.push(bounds).drop_last() =~= m);
}

} // verus!
