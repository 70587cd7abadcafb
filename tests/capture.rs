use digit_canvas::capture::{handle_event, replay, CanvasMessage, InternalState, Outcome, PointerEvent};
use digit_canvas::strokes::Number;

type Pt = (f32, f32);

const BOUNDS: Pt = (500.0, 500.0);

#[test]
fn press_move_release_yields_line_with_bounds() {
    let canvas: Number<Pt> = Number::new();
    let mut state: Option<InternalState<Pt>> = None;
    let r = canvas.update(&mut state, PointerEvent::Pressed((10.0, 10.0)), true, BOUNDS);
    assert_eq!(r, Outcome::Captured);
    let r = canvas.update(&mut state, PointerEvent::Moved((490.0, 490.0)), true, BOUNDS);
    assert_eq!(r, Outcome::Published(CanvasMessage::RedrawRequested));
    let r = canvas.update(&mut state, PointerEvent::Released((490.0, 490.0)), true, BOUNDS);
    assert_eq!(
        r,
        Outcome::Published(CanvasMessage::LineComplete(vec![(10.0, 10.0), (490.0, 490.0), (500.0, 500.0)]))
    );
    assert!(state.is_none());
}

#[test]
fn quick_click_becomes_two_point_stroke() {
    let mut state: Option<InternalState<Pt>> = None;
    handle_event(&mut state, PointerEvent::Pressed((3.0, 4.0)), true, BOUNDS);
    let r = handle_event(&mut state, PointerEvent::Released((3.0, 4.0)), true, BOUNDS);
    assert_eq!(
        r,
        Outcome::Published(CanvasMessage::LineComplete(vec![(3.0, 4.0), (3.0, 4.0), (500.0, 500.0)]))
    );
}

#[test]
fn release_position_joins_a_lone_press() {
    let mut state: Option<InternalState<Pt>> = None;
    handle_event(&mut state, PointerEvent::Pressed((1.0, 1.0)), true, (300.0, 200.0));
    let r = handle_event(&mut state, PointerEvent::Released((9.0, 7.0)), true, (300.0, 200.0));
    assert_eq!(
        r,
        Outcome::Published(CanvasMessage::LineComplete(vec![(1.0, 1.0), (9.0, 7.0), (300.0, 200.0)]))
    );
}

#[test]
fn idle_move_and_release_do_nothing() {
    let mut state: Option<InternalState<Pt>> = None;
    assert_eq!(handle_event(&mut state, PointerEvent::Moved((5.0, 5.0)), true, BOUNDS), Outcome::Ignored);
    assert!(state.is_none());
    assert_eq!(handle_event(&mut state, PointerEvent::Released((5.0, 5.0)), true, BOUNDS), Outcome::Ignored);
    assert!(state.is_none());
    assert_eq!(handle_event(&mut state, PointerEvent::Other, true, BOUNDS), Outcome::Ignored);
    assert!(state.is_none());
}

#[test]
fn events_outside_the_canvas_are_ignored() {
    let mut state: Option<InternalState<Pt>> = None;
    assert_eq!(handle_event(&mut state, PointerEvent::Pressed((600.0, 5.0)), false, BOUNDS), Outcome::Ignored);
    assert!(state.is_none());
    handle_event(&mut state, PointerEvent::Pressed((5.0, 5.0)), true, BOUNDS);
    assert_eq!(handle_event(&mut state, PointerEvent::Moved((700.0, 5.0)), false, BOUNDS), Outcome::Ignored);
    assert_eq!(handle_event(&mut state, PointerEvent::Released((700.0, 5.0)), false, BOUNDS), Outcome::Ignored);
    assert_eq!(state.as_ref().unwrap().incomplete_line, vec![(5.0, 5.0)]);
}

#[test]
fn each_gesture_emits_exactly_one_line() {
    let mut state: Option<InternalState<Pt>> = None;
    let mut lines: Vec<Vec<Pt>> = Vec::new();
    for g in 0..3 {
        let base = g as f32 * 10.0;
        let mut events = vec![PointerEvent::Pressed((base, base))];
        for k in 0..g {
            events.push(PointerEvent::Moved((base + k as f32 + 1.0, base)));
        }
        events.push(PointerEvent::Released((base + 50.0, base)));
        for e in events {
            if let Outcome::Published(CanvasMessage::LineComplete(v)) = handle_event(&mut state, e, true, BOUNDS) {
                lines.push(v);
            }
        }
        assert!(state.is_none());
    }
    assert_eq!(lines.len(), 3);
    for v in &lines {
        assert!(v.len() >= 3);
        assert_eq!(*v.last().unwrap(), BOUNDS);
    }
    assert_eq!(lines[2], vec![(20.0, 20.0), (21.0, 20.0), (22.0, 20.0), (500.0, 500.0)]);
}

#[test]
fn press_while_drawing_restarts_the_stroke() {
    let mut state: Option<InternalState<Pt>> = None;
    handle_event(&mut state, PointerEvent::Pressed((1.0, 1.0)), true, BOUNDS);
    handle_event(&mut state, PointerEvent::Moved((2.0, 2.0)), true, BOUNDS);
    assert_eq!(handle_event(&mut state, PointerEvent::Pressed((8.0, 8.0)), true, BOUNDS), Outcome::Captured);
    assert_eq!(state.as_ref().unwrap().incomplete_line, vec![(8.0, 8.0)]);
}

#[test]
fn replay_collects_one_line_per_gesture() {
    let mut state: Option<InternalState<Pt>> = None;
    let events = vec![
        PointerEvent::Moved((1.0, 1.0)),
        PointerEvent::Pressed((10.0, 10.0)),
        PointerEvent::Moved((20.0, 20.0)),
        PointerEvent::Moved((30.0, 30.0)),
        PointerEvent::Released((30.0, 30.0)),
        PointerEvent::Released((31.0, 31.0)),
        PointerEvent::Pressed((5.0, 6.0)),
        PointerEvent::Released((7.0, 8.0)),
    ];
    let lines = replay(&mut state, &events, BOUNDS);
    assert_eq!(
        lines,
        vec![
            vec![(10.0, 10.0), (20.0, 20.0), (30.0, 30.0), (500.0, 500.0)],
            vec![(5.0, 6.0), (7.0, 8.0), (500.0, 500.0)],
        ]
    );
    assert!(state.is_none());
}
