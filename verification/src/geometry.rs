//! Placement of a window in the middle of the display under the pointer.

use vstd::prelude::*;

verus! {

/// Bounds of a display in physical pixels.
#[derive(Clone, Copy, Debug, PartialEq, Eq)]
pub struct Display {
    pub x: i32,
    pub y: i32,
    pub width: u32,
    pub height: u32,
}

/// Outer size of a window in physical pixels.
#[derive(Clone, Copy, Debug, PartialEq, Eq)]
pub struct Extent {
    pub width: u32,
    pub height: u32,
}

/// Top-left corner of a window in physical pixels.
#[derive(Clone, Copy, Debug, PartialEq, Eq)]
pub struct Origin {
    pub x: i32,
    pub y: i32,
}

/// What the windowing toolkit answered when asked for the display under the pointer.
#[derive(Clone, Copy, Debug, PartialEq, Eq)]
pub enum PointerDisplay {
    /// The pointer position could not be read.
    PointerUnknown,
    /// The pointer position is known, but no display was resolved for it.
    Unresolved,
    /// The pointer lies on this display.
    On(Display),
}

/// What to do with the window.
#[derive(Clone, Copy, Debug, PartialEq, Eq)]
pub enum Placement {
    /// Set the window's top-left corner to this position.
    MoveTo(Origin),
    /// Center the window on the display that currently hosts it.
    CenterOnCurrent,
    /// Leave the window where it is.
    Leave,
}

/// Half of `d`, rounded toward zero.
pub open spec fn half_toward_zero(d: int) -> int {
    if d >= 0 {
        d / 2
    } else {
        -((-d) / 2)
    }
}

/// The coordinate at which a span of length `inner` sits in the middle of a
/// span of length `outer` that begins at `start`. A window larger than the
/// display hangs over on both sides.
pub open spec fn centered_coordinate(start: int, outer: int, inner: int) -> int {
    start + half_toward_zero(outer - inner)
}

/// Whether `v` can be a window coordinate.
pub open spec fn is_coordinate(v: int) -> bool {
    i32::MIN <= v <= i32::MAX
}

/// The top-left corner that centers `window` on `display`, if both of its
/// coordinates are representable.
pub open spec fn centered_origin_spec(display: Display, window: Extent) -> Option<Origin> {
    let x = centered_coordinate(display.x as int, display.width as int, window.width as int);
    let y = centered_coordinate(display.y as int, display.height as int, window.height as int);
    if is_coordinate(x) && is_coordinate(y) {
        Some(Origin { x: x as i32, y: y as i32 })
    } else {
        None
    }
}

/// The placement decision for every combination of toolkit answers.
pub open spec fn center_window_spec(pointer: PointerDisplay, window: Option<Extent>) -> Placement {
    match pointer {
        PointerDisplay::PointerUnknown => Placement::Leave,
        PointerDisplay::Unresolved => Placement::CenterOnCurrent,
        PointerDisplay::On(display) => match window {
            None => Placement::Leave,
            Some(extent) => match centered_origin_spec(display, extent) {
                Some(origin) => Placement::MoveTo(origin),
                None => Placement::Leave,
            },
        },
    }
}

fn centered_axis(start: i32, outer: u32, inner: u32) -> (at: Option<i32>)
    ensures
        at == (if is_coordinate(centered_coordinate(start as int, outer as int, inner as int)) {
            Some(centered_coordinate(start as int, outer as int, inner as int) as i32)
        } else {
            None
        }),
{
    let half: i64 = if outer >= inner {
        ((outer - inner) / 2) as i64
    } else {
        -(((inner - outer) / 2) as i64)
    };
    let at: i64 = start as i64 + half;
    if at < i32::MIN as i64 || at > i32::MAX as i64 {
        None
    } else {
        Some(at as i32)
    }
}

/// Computes the top-left corner that centers a window of size `window` within
/// the bounds of `display`.
///
/// Returns `None` exactly when a centered coordinate does not fit a window
/// coordinate.
pub fn centered_origin(display: Display, window: Extent) -> (origin: Option<Origin>)
    ensures
        origin == centered_origin_spec(display, window),
{
    let x = centered_axis(display.x, display.width, window.width);
    let y = centered_axis(display.y, display.height, window.height);
    match (x, y) {
        (Some(x), Some(y)) => Some(Origin { x, y }),
        _ => None,
    }
}

/// Decides where a window goes.
///
/// `pointer` is the display under the pointer as far as the toolkit could
/// tell, `window` the window's outer size if it could be read. With the
/// pointer on a display and a known size, the window is centered there.
/// With a pointer that lies on no display, the window is centered on the
/// display that hosts it. In every other case it stays where it is.
pub fn center_window(pointer: PointerDisplay, window: Option<Extent>) -> (placement: Placement)
    ensures
        placement == center_window_spec(pointer, window),
{
    match pointer {
        PointerDisplay::PointerUnknown => Placement::Leave,
        PointerDisplay::Unresolved => Placement::CenterOnCurrent,
        PointerDisplay::On(display) => match window {
            None => Placement::Leave,
            Some(extent) => match centered_origin(display, extent) {
                Some(origin) => Placement::MoveTo(origin),
                None => Placement::Leave,
            },
        },
    }
}

} // verus!
