//! The drag gesture by which the user draws a selection.

use vstd::prelude::*;
use crate::geometry::{exceeds_threshold, is_valid_selection, Point};

verus! {

/// What the pointer did during one frame.
#[derive(Clone, Copy, Debug, PartialEq, Eq, Structural)]
pub struct DragInput {
    /// A drag began in this frame.
    pub drag_started: bool,
    /// A drag is in progress.
    pub dragged: bool,
    /// A drag ended in this frame.
    pub drag_stopped: bool,
    /// Where the pointer is, if it is over the overlay.
    pub pointer: Option<Point>,
}

/// What a frame's pointer input meant for the selection.
#[derive(Clone, Copy, Debug, PartialEq, Eq, Structural)]
pub enum SelectionEvent {
    /// A new drag began.
    Started,
    /// The drag moved on.
    Dragging,
    /// The drag ended far enough from its start to count as a selection.
    Completed,
    /// The drag ended too close to its start, and the selection is gone.
    Cancelled,
    /// Nothing that concerns the selection.
    NoEvent,
}

/// The outcome of one frame's input: the event, and the start and the current
/// end of the selection after it.
///
/// The start of a drag places both ends at the pointer. While a drag is
/// under way, that is once it has a start and until it is finalized, moving
/// on moves the current end, and the end of the drag, where the current end
/// is known, completes the selection if the ends are farther apart than the
/// threshold, and otherwise discards both ends. Nothing else changes
/// anything: a finalized selection stays as it is until a new drag starts.
pub open spec fn drag_outcome(
    input: DragInput,
    start: Option<Point>,
    current: Option<Point>,
    is_finalized: bool,
) -> (SelectionEvent, Option<Point>, Option<Point>) {
    if input.drag_started {
        (SelectionEvent::Started, input.pointer, input.pointer)
    } else if is_finalized || start is None {
        (SelectionEvent::NoEvent, start, current)
    } else if input.dragged {
        (SelectionEvent::Dragging, start, input.pointer)
    } else if input.drag_stopped && current is Some {
        if exceeds_threshold(start->0, current->0) {
            (SelectionEvent::Completed, start, current)
        } else {
            (SelectionEvent::Cancelled, None, None)
        }
    } else {
        (SelectionEvent::NoEvent, start, current)
    }
}

/// Applies one frame's pointer input to the two ends of the selection and
/// says what happened.
pub fn process_drag_event(
    input: &DragInput,
    start: &mut Option<Point>,
    current: &mut Option<Point>,
    is_finalized: bool,
) -> (event: SelectionEvent)
    ensures
        (event, *final(start), *final(current)) == drag_outcome(
            *input,
            *old(start),
            *old(current),
            is_finalized,
        ),
{
    if input.drag_started {
        *start = input.pointer;
        *current = input.pointer;
        return SelectionEvent::Started;
    }
    let begun = match *start {
        Some(s) => s,
        None => {
            return SelectionEvent::NoEvent;
        },
    };
    if is_finalized {
        return SelectionEvent::NoEvent;
    }
    if input.dragged {
        *current = input.pointer;
        return SelectionEvent::Dragging;
    }
    if input.drag_stopped {
        match *current {
            Some(e) => {
                if is_valid_selection(begun, e) {
                    return SelectionEvent::Completed;
                } else {
                    *start = None;
                    *current = None;
                    return SelectionEvent::Cancelled;
                }
            },
            None => {},
        }
    }
    SelectionEvent::NoEvent
}

/// The end of the selection to draw: the frozen end once the selection is
/// finalized, else the live pointer, or the last known end where the pointer
/// is away.
pub fn get_interaction_position(
    _selection_start: Option<Point>,
    current_pos: Option<Point>,
    is_finalized: bool,
    pointer: Option<Point>,
) -> (p: Option<Point>)
    ensures
        p == if is_finalized || pointer is None {
            current_pos
        } else {
            pointer
        },
{
    if is_finalized {
        current_pos
    } else {
        match pointer {
            Some(p) => Some(p),
            None => current_pos,
        }
    }
}

} // verus!
