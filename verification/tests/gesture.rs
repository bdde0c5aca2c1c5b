use ai_shot_core::geometry::{
    is_valid_selection, normalize_selection, Point, Rect, MIN_SELECTION_DISTANCE, STEPS_PER_UNIT,
};
use ai_shot_core::ui::selection::{
    get_interaction_position, process_drag_event, DragInput, SelectionEvent,
};

/// A point given in whole logical units.
fn p(x: i32, y: i32) -> Point {
    Point { x: x * 64, y: y * 64 }
}

/// A point given in steps.
fn steps(x: i32, y: i32) -> Point {
    Point { x, y }
}

fn input(started: bool, dragged: bool, stopped: bool, pointer: Option<Point>) -> DragInput {
    DragInput { drag_started: started, dragged, drag_stopped: stopped, pointer }
}

#[test]
fn distance_threshold_is_exclusive() {
    assert!(!is_valid_selection(p(0, 0), p(10, 0)));
    assert!(!is_valid_selection(p(0, 0), p(6, 8)));
    assert!(is_valid_selection(p(0, 0), p(11, 0)));
    assert!(is_valid_selection(p(0, 0), p(8, 7)));
    assert!(!is_valid_selection(p(0, 0), p(7, 7)));
    assert!(!is_valid_selection(p(5, 5), p(5, 5)));
}

#[test]
fn distance_is_symmetric_and_handles_extremes() {
    assert!(is_valid_selection(steps(i32::MIN, i32::MIN), steps(i32::MAX, i32::MAX)));
    assert!(is_valid_selection(steps(i32::MAX, 0), steps(i32::MIN, 0)));
    assert!(is_valid_selection(p(-6, -6), p(6, 6)));
    assert!(!is_valid_selection(p(3, 4), p(0, 0)));
}

#[test]
fn drag_of_five_units_is_cancelled() {
    let mut start = None;
    let mut current = None;
    let e = process_drag_event(&input(true, false, false, Some(p(100, 100))), &mut start, &mut current, false);
    assert_eq!(e, SelectionEvent::Started);
    assert_eq!((start, current), (Some(p(100, 100)), Some(p(100, 100))));
    let e = process_drag_event(&input(false, true, false, Some(p(103, 104))), &mut start, &mut current, false);
    assert_eq!(e, SelectionEvent::Dragging);
    assert_eq!((start, current), (Some(p(100, 100)), Some(p(103, 104))));
    let e = process_drag_event(&input(false, false, true, Some(p(103, 104))), &mut start, &mut current, false);
    assert_eq!(e, SelectionEvent::Cancelled);
    assert_eq!((start, current), (None, None));
}

#[test]
fn drag_of_fifteen_units_is_completed() {
    let mut start = None;
    let mut current = None;
    process_drag_event(&input(true, false, false, Some(p(100, 100))), &mut start, &mut current, false);
    process_drag_event(&input(false, true, false, Some(p(109, 112))), &mut start, &mut current, false);
    let e = process_drag_event(&input(false, false, true, None), &mut start, &mut current, false);
    assert_eq!(e, SelectionEvent::Completed);
    assert_eq!((start, current), (Some(p(100, 100)), Some(p(109, 112))));
}

#[test]
fn drag_end_is_ignored_once_finalized_or_without_a_drag() {
    let mut start = Some(p(0, 0));
    let mut current = Some(p(1, 1));
    let e = process_drag_event(&input(false, false, true, None), &mut start, &mut current, true);
    assert_eq!(e, SelectionEvent::NoEvent);
    assert_eq!((start, current), (Some(p(0, 0)), Some(p(1, 1))));
    let e = process_drag_event(&input(false, true, false, Some(p(80, 80))), &mut start, &mut current, true);
    assert_eq!(e, SelectionEvent::NoEvent);
    assert_eq!((start, current), (Some(p(0, 0)), Some(p(1, 1))));
    let mut start = None;
    let mut current = None;
    let e = process_drag_event(&input(false, false, true, None), &mut start, &mut current, false);
    assert_eq!(e, SelectionEvent::NoEvent);
    let e = process_drag_event(&input(false, false, false, Some(p(3, 3))), &mut start, &mut current, false);
    assert_eq!(e, SelectionEvent::NoEvent);
    let e = process_drag_event(&input(false, true, false, Some(p(3, 3))), &mut start, &mut current, false);
    assert_eq!(e, SelectionEvent::NoEvent);
    assert_eq!((start, current), (None, None));
}

#[test]
fn drag_start_takes_precedence() {
    let mut start = Some(p(0, 0));
    let mut current = Some(p(50, 50));
    let e = process_drag_event(&input(true, true, true, Some(p(7, 8))), &mut start, &mut current, true);
    assert_eq!(e, SelectionEvent::Started);
    assert_eq!((start, current), (Some(p(7, 8)), Some(p(7, 8))));
}

#[test]
fn normalize_orders_the_corners() {
    let expected = Rect { min: p(10, 20), max: p(30, 40) };
    assert_eq!(normalize_selection(p(10, 20), p(30, 40)), expected);
    assert_eq!(normalize_selection(p(30, 40), p(10, 20)), expected);
    assert_eq!(normalize_selection(p(30, 20), p(10, 40)), expected);
    assert_eq!(normalize_selection(p(10, 40), p(30, 20)), expected);
    assert_eq!(expected.width(), 20 * 64);
    assert_eq!(expected.height(), 20 * 64);
}

#[test]
fn interaction_position_follows_the_pointer_until_finalized() {
    assert_eq!(get_interaction_position(Some(p(0, 0)), Some(p(1, 1)), false, Some(p(9, 9))), Some(p(9, 9)));
    assert_eq!(get_interaction_position(Some(p(0, 0)), Some(p(1, 1)), false, None), Some(p(1, 1)));
    assert_eq!(get_interaction_position(None, Some(p(1, 1)), true, Some(p(9, 9))), Some(p(1, 1)));
    assert_eq!(get_interaction_position(None, None, true, Some(p(9, 9))), None);
}

#[test]
fn drag_that_loses_the_pointer_cannot_end() {
    let mut start = None;
    let mut current = None;
    process_drag_event(&input(true, false, false, Some(p(0, 0))), &mut start, &mut current, false);
    let e = process_drag_event(&input(false, true, false, None), &mut start, &mut current, false);
    assert_eq!(e, SelectionEvent::Dragging);
    assert_eq!((start, current), (Some(p(0, 0)), None));
    let e = process_drag_event(&input(false, false, true, None), &mut start, &mut current, false);
    assert_eq!(e, SelectionEvent::NoEvent);
    assert_eq!((start, current), (Some(p(0, 0)), None));
}

#[test]
fn threshold_is_ten_units_counted_in_steps() {
    assert_eq!((MIN_SELECTION_DISTANCE, STEPS_PER_UNIT), (10, 64));
    assert!(!is_valid_selection(steps(0, 0), steps(640, 0)));
    assert!(is_valid_selection(steps(0, 0), steps(641, 0)));
    assert!(is_valid_selection(steps(0, 0), steps(0, -641)));
    // 10.4 units along one axis
    assert!(is_valid_selection(steps(32, 0), steps(698, 0)));
    // 7.5 units on each axis: about 10.6 units apart
    assert!(is_valid_selection(steps(0, 0), steps(480, 480)));
    // 7 units on each axis: about 9.9 units apart
    assert!(!is_valid_selection(steps(0, 0), steps(448, 448)));
    assert!(!is_valid_selection(steps(10, 10), steps(20, 20)));
}

#[test]
fn drag_between_units_is_measured_in_steps() {
    let mut start = None;
    let mut current = None;
    process_drag_event(&input(true, false, false, Some(steps(6400, 6400))), &mut start, &mut current, false);
    process_drag_event(&input(false, true, false, Some(steps(7066, 6400))), &mut start, &mut current, false);
    let e = process_drag_event(&input(false, false, true, None), &mut start, &mut current, false);
    assert_eq!(e, SelectionEvent::Completed);
    assert_eq!((start, current), (Some(steps(6400, 6400)), Some(steps(7066, 6400))));
}
