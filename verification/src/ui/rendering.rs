//! Where things are drawn: the dimmed regions around a selection and the
//! place of the interaction panel. Positions and lengths are in steps; the
//! constants are in logical units.

use vstd::prelude::*;
use crate::geometry::{steps, Point, Rect, STEPS_PER_UNIT};

verus! {

/// The width of the narrowest interaction panel, in logical units.
pub const MIN_POPUP_WIDTH: u32 = 400;

/// The width of the widest interaction panel, in logical units.
pub const MAX_POPUP_WIDTH: u32 = 800;

/// The distance that the panel keeps from the left and right edges, in
/// logical units.
pub const POPUP_MARGIN: u32 = 10;

/// The four regions around a selection that are dimmed, so that the
/// selection itself stays clear.
#[derive(Clone, Copy, Debug, PartialEq, Eq, Structural)]
pub struct OverlayRegions {
    /// Everything above the selection, over the full width.
    pub top: Rect,
    /// Everything below the selection, over the full width.
    pub bottom: Rect,
    /// What is left of the selection, between top and bottom.
    pub left: Rect,
    /// What is right of the selection, between top and bottom.
    pub right: Rect,
}

/// On which side of the selection the panel goes.
#[derive(Clone, Copy, Debug, PartialEq, Eq, Structural)]
pub enum PopupSide {
    /// Below the selection; the position is the panel's top-left corner.
    Below,
    /// Above the selection; the position is the panel's bottom-left corner.
    Above,
}

/// Where the interaction panel goes.
#[derive(Clone, Copy, Debug, PartialEq, Eq, Structural)]
pub struct PopupPosition {
    pub x: i64,
    pub y: i64,
    pub side: PopupSide,
}

/// The regions to dim around a selection.
pub open spec fn regions_around(screen: Rect, selection: Rect) -> OverlayRegions {
    OverlayRegions {
        top: Rect { min: screen.min, max: Point { x: screen.max.x, y: selection.min.y } },
        bottom: Rect { min: Point { x: screen.min.x, y: selection.max.y }, max: screen.max },
        left: Rect {
            min: Point { x: screen.min.x, y: selection.min.y },
            max: Point { x: selection.min.x, y: selection.max.y },
        },
        right: Rect {
            min: Point { x: selection.max.x, y: selection.min.y },
            max: Point { x: screen.max.x, y: selection.max.y },
        },
    }
}

/// The width of the panel on a screen of the given width: three tenths of
/// the screen, but neither narrower nor wider than the limits.
pub open spec fn popup_width_for(screen_width: int) -> int {
    let wanted = screen_width * 3 / 10;
    if wanted < steps(MIN_POPUP_WIDTH as int) {
        steps(MIN_POPUP_WIDTH as int)
    } else if wanted > steps(MAX_POPUP_WIDTH as int) {
        steps(MAX_POPUP_WIDTH as int)
    } else {
        wanted
    }
}

/// The place of a panel of the given width.
///
/// Horizontally the panel is centred on the selection and then kept within
/// the screen, a margin away from either edge. Vertically it goes below the
/// selection, `spacing` away, unless less than `min_space_needed` is left
/// there and more room lies above the selection than below: then it goes
/// above.
pub open spec fn popup_position_for(
    selection: Rect,
    screen: Rect,
    window_width: int,
    spacing: int,
    min_space_needed: int,
) -> PopupPosition {
    let centred = (selection.min.x + selection.max.x - window_width) / 2;
    let margin = steps(POPUP_MARGIN as int);
    let rightmost = screen.spec_width() - window_width - margin;
    let x = if centred < margin {
        margin
    } else if centred > rightmost {
        rightmost
    } else {
        centred
    };
    let below = selection.max.y + spacing;
    let space_below = screen.max.y - below;
    if space_below < min_space_needed && selection.min.y > space_below {
        PopupPosition { x: x as i64, y: (selection.min.y - spacing) as i64, side: PopupSide::Above }
    } else {
        PopupPosition { x: x as i64, y: below as i64, side: PopupSide::Below }
    }
}

/// The regions to dim around a selection.
pub fn overlay_regions(screen: Rect, selection: Rect) -> (regions: OverlayRegions)
    ensures
        regions == regions_around(screen, selection),
{
    OverlayRegions {
        top: Rect { min: screen.min, max: Point { x: screen.max.x, y: selection.min.y } },
        bottom: Rect { min: Point { x: screen.min.x, y: selection.max.y }, max: screen.max },
        left: Rect {
            min: Point { x: screen.min.x, y: selection.min.y },
            max: Point { x: selection.min.x, y: selection.max.y },
        },
        right: Rect {
            min: Point { x: selection.max.x, y: selection.min.y },
            max: Point { x: screen.max.x, y: selection.max.y },
        },
    }
}

/// The width of the panel on a screen of the given width.
pub fn popup_width(screen_width: u32) -> (w: u32)
    ensures
        w == popup_width_for(screen_width as int),
        steps(MIN_POPUP_WIDTH as int) <= w <= steps(MAX_POPUP_WIDTH as int),
{
    let narrowest: u32 = MIN_POPUP_WIDTH * STEPS_PER_UNIT;
    let widest: u32 = MAX_POPUP_WIDTH * STEPS_PER_UNIT;
    let wanted: u64 = (screen_width as u64) * 3 / 10;
    if wanted < narrowest as u64 {
        narrowest
    } else if wanted > widest as u64 {
        widest
    } else {
        wanted as u32
    }
}

/// The place of the interaction panel. The panel must fit on the screen
/// between the two margins.
pub fn calculate_popup_position(
    selection: Rect,
    screen: Rect,
    window_width: u32,
    spacing: u32,
    min_space_needed: u32,
) -> (position: PopupPosition)
    requires
        window_width + 2 * steps(POPUP_MARGIN as int) <= screen.spec_width(),
    ensures
        position == popup_position_for(
            selection,
            screen,
            window_width as int,
            spacing as int,
            min_space_needed as int,
        ),
        steps(POPUP_MARGIN as int) <= position.x <= screen.spec_width() - window_width - steps(
            POPUP_MARGIN as int,
        ),
{
    let doubled: i64 = selection.min.x as i64 + selection.max.x as i64 - window_width as i64;
    let centred: i64 = if doubled >= 0 {
        doubled / 2
    } else {
        -((1 - doubled) / 2)
    };
    assert(centred == doubled as int / 2);
    let margin: i64 = (POPUP_MARGIN * STEPS_PER_UNIT) as i64;
    let rightmost: i64 = screen.width() - window_width as i64 - margin;
    let x: i64 = if centred < margin {
        margin
    } else if centred > rightmost {
        rightmost
    } else {
        centred
    };
    let below: i64 = selection.max.y as i64 + spacing as i64;
    let space_below: i64 = screen.max.y as i64 - below;
    if space_below < min_space_needed as i64 && (selection.min.y as i64) > space_below {
        PopupPosition { x, y: selection.min.y as i64 - spacing as i64, side: PopupSide::Above }
    } else {
        PopupPosition { x, y: below, side: PopupSide::Below }
    }
}

/// What goes with an answer on the panel.
#[derive(Clone, Copy, Debug, PartialEq, Eq, Structural)]
pub struct ResponseLayout {
    /// Whether a spinner shows that nothing has arrived yet.
    pub spinner: bool,
    /// Whether the reasoning has a section of its own.
    pub show_thoughts: bool,
}

/// What goes with an answer: a spinner as long as neither text nor
/// reasoning has arrived, and a section for the reasoning once there is any.
pub fn response_layout(text: &str, thoughts: &str) -> (layout: ResponseLayout)
    ensures
        layout.spinner == (text@.len() == 0 && thoughts@.len() == 0),
        layout.show_thoughts == (thoughts@.len() > 0),
{
    ResponseLayout {
        spinner: text.is_empty() && thoughts.is_empty(),
        show_thoughts: !thoughts.is_empty(),
    }
}

} // verus!
