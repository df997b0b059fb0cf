//! Numeric conversions behind the opacity controls.
//!
//! Opacity is stored as an alpha value in `0..=255`; the UI shows it as a
//! percentage and lets the user change it through preset buttons and a
//! horizontal slider track. All conversions round to the nearest value,
//! halves rounding up.

use vstd::prelude::*;

verus! {

/// The percentage shown for an alpha value: `round(opacity * 100 / 255)`.
pub open spec fn percent_of_opacity(opacity: int) -> int {
    (opacity * 200 + 255) / 510
}

/// The alpha value a percentage preset stands for:
/// `round(percent * 255 / 100)`, capped at 255 for percentages over 100.
pub open spec fn preset_alpha(percent: int) -> int {
    let r = (percent * 255 + 50) / 100;
    if r > 255 {
        255
    } else {
        r
    }
}

/// The slider offset that counts: the mouse position relative to the track
/// origin, clamped to the track width.
pub open spec fn clamped_offset(mouse_x: int, origin_x: int, width: int) -> int {
    let rel = mouse_x - origin_x;
    if rel < 0 {
        0
    } else if rel > width {
        width
    } else {
        rel
    }
}

/// The alpha value a clamped slider offset stands for on a track of the
/// given width: `round(offset * 255 / width)`.
pub open spec fn slider_alpha(mouse_x: int, origin_x: int, width: int) -> int
    recommends
        width > 0,
{
    (clamped_offset(mouse_x, origin_x, width) * 510 + width) / (2 * width)
}

/// Convert an alpha value to the percentage shown in the UI.
pub fn opacity_to_percent(opacity: u8) -> (percent: u8)
    ensures
        percent == percent_of_opacity(opacity as int),
        percent <= 100,
{
    let p: u32 = (opacity as u32 * 200 + 255) / 510;
    p as u8
}

/// The alpha value targeted by a percentage preset button.
pub fn preset_target(percent: u8) -> (alpha: u8)
    ensures
        alpha == preset_alpha(percent as int),
{
    let v: u32 = (percent as u32 * 255 + 50) / 100;
    if v > 255 {
        255u8
    } else {
        v as u8
    }
}

/// Whether a preset button is drawn as the current one: the current alpha
/// lies within 3 of the preset's target.
pub fn preset_is_current(percent: u8, current: u8) -> (is_current: bool)
    ensures
        is_current == (-4 < current - preset_alpha(percent as int) < 4),
{
    let target = preset_target(percent);
    let diff: i32 = current as i32 - target as i32;
    -4 < diff && diff < 4
}

/// Convert a mouse X position (in window coordinates) to an alpha value on
/// a slider track with the given origin and width.
///
/// Returns `None` for a track with no extent, where no position can be read
/// off.
pub fn opacity_from_position(mouse_x: i32, origin_x: i32, width: i32) -> (alpha: Option<u8>)
    ensures
        alpha is Some <==> width > 0,
        width > 0 ==> (alpha matches Some(a) && a == slider_alpha(
            mouse_x as int,
            origin_x as int,
            width as int,
        )),
{
    if width <= 0 {
        return None;
    }
    let rel: i64 = mouse_x as i64 - origin_x as i64;
    let clamped: u64 = if rel < 0 {
        0u64
    } else if rel > width as i64 {
        width as u64
    } else {
        rel as u64
    };
    assert(clamped == clamped_offset(mouse_x as int, origin_x as int, width as int));
    let num: u64 = clamped * 510 + width as u64;
    let den: u64 = 2 * width as u64;
    let v: u64 = num / den;
    assert(v <= 255) by {
        assert((clamped * 510 + width) / (2 * width as int) <= 255) by (nonlinear_arith)
            requires
                0 <= clamped <= width,
                0 < width,
        ;
    };
    Some(v as u8)
}

} // verus!
