//! The parameter block that the overlay shader reads each frame.
use vstd::prelude::*;
use crate::geometry::Point;
use crate::selection::UserSelection;

verus! {

/// Shader parameters of one frame. Positions are in fixed-point device pixels
/// (see `SUBPIXELS`); the time is the animation time in microseconds.
#[derive(Clone, Copy, Debug, PartialEq, Eq, Structural)]
pub struct FrameUniforms {
    pub screen_width: u32,
    pub screen_height: u32,
    pub drag_start: Point,
    pub drag_end: Point,
    pub selection_start: Point,
    pub selection_end: Point,
    pub time_micros: u64,
    pub mode_flag: u32,
}

/// 0 when nothing is dragged or selected, 1 while dragging, 2 with a
/// selection, 3 with both.
pub open spec fn spec_mode_flag(dragging: bool, selected: bool) -> u32 {
    if dragging && selected {
        3
    } else if dragging {
        1
    } else if selected {
        2
    } else {
        0
    }
}

/// The shader's state flag for the given combination.
pub fn mode_flag(dragging: bool, selected: bool) -> (r: u32)
    ensures
        r == spec_mode_flag(dragging, selected),
{
    match (dragging, selected) {
        (true, true) => 3,
        (true, false) => 1,
        (false, true) => 2,
        (false, false) => 0,
    }
}

/// The parameter block for a frame showing `state` on a screen of
/// `width` × `height` pixels at animation time `time_micros`. Absent points
/// are sent as the origin.
pub fn frame_uniforms(state: &UserSelection, width: u32, height: u32, time_micros: u64) -> (r: FrameUniforms)
    ensures
        r.screen_width == width,
        r.screen_height == height,
        r.time_micros == time_micros,
        r.mode_flag == spec_mode_flag(state.drag is Some, state.selection is Some),
        match state.drag {
            Some(d) => r.drag_start == d.start && r.drag_end == match d.end {
                Some(e) => e,
                None => Point { x: 0, y: 0 },
            },
            None => r.drag_start == Point { x: 0, y: 0 } && r.drag_end == Point { x: 0, y: 0 },
        },
        match state.selection {
            Some(s) => r.selection_start == s.start && r.selection_end == s.end,
            None => r.selection_start == Point { x: 0, y: 0 } && r.selection_end == Point { x: 0, y: 0 },
        },
{
    let (drag_start, drag_end) = match state.drag {
        Some(d) => (d.start, match d.end {
            Some(e) => e,
            None => Point::origin(),
        }),
        None => (Point::origin(), Point::origin()),
    };
    let (selection_start, selection_end) = match state.selection {
        Some(s) => (s.start, s.end),
        None => (Point::origin(), Point::origin()),
    };
    FrameUniforms {
        screen_width: width,
        screen_height: height,
        drag_start,
        drag_end,
        selection_start,
        selection_end,
        time_micros,
        mode_flag: mode_flag(state.drag.is_some(), state.selection.is_some()),
    }
}

} // verus!
