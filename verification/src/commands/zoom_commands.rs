use vstd::prelude::*;

verus! {

/// The smallest zoom level, in percent.
pub const MIN_ZOOM: u32 = 50;

/// The largest zoom level, in percent.
pub const MAX_ZOOM: u32 = 200;

/// One step of zooming in or out, in percent.
pub const ZOOM_STEP: u32 = 10;

/// `zoom` rounded to the nearest multiple of ten, halves upward.
pub open spec fn rounded_to_10(zoom: int) -> int {
    ((zoom + 5) / 10) * 10
}

/// `zoom` rounded to the nearest multiple of ten and held between
/// `MIN_ZOOM` and `MAX_ZOOM`.
pub open spec fn normalized_zoom(zoom: int) -> int {
    if rounded_to_10(zoom) < MIN_ZOOM {
        MIN_ZOOM as int
    } else if rounded_to_10(zoom) > MAX_ZOOM {
        MAX_ZOOM as int
    } else {
        rounded_to_10(zoom)
    }
}

/// `zoom` rounded to the nearest multiple of ten, halves upward.
pub fn round_to_10(zoom: u32) -> (r: u32)
    requires
        zoom + 5 <= u32::MAX,
    ensures
        r == rounded_to_10(zoom as int),
{
    ((zoom + 5) / 10) * 10
}

/// The zoom level that is set when `zoom` is asked for.
pub fn normalize_zoom(zoom: u32) -> (r: u32)
    ensures
        r == normalized_zoom(zoom as int),
        MIN_ZOOM <= r <= MAX_ZOOM,
        r % 10 == 0,
{
    if zoom > MAX_ZOOM {
        MAX_ZOOM
    } else {
        let rounded = round_to_10(zoom);
        if rounded < MIN_ZOOM {
            MIN_ZOOM
        } else if rounded > MAX_ZOOM {
            MAX_ZOOM
        } else {
            rounded
        }
    }
}

/// The zoom level one step above `level`, `MAX_ZOOM` at most.
pub fn zoom_in(level: u32) -> (r: u32)
    ensures
        r == if level + ZOOM_STEP > MAX_ZOOM {
            MAX_ZOOM as int
        } else {
            level + ZOOM_STEP
        },
{
    if level > MAX_ZOOM - ZOOM_STEP {
        MAX_ZOOM
    } else {
        level + ZOOM_STEP
    }
}

/// The zoom level one step below `level`, `MIN_ZOOM` at least.
pub fn zoom_out(level: u32) -> (r: u32)
    ensures
        r == if level - ZOOM_STEP < MIN_ZOOM {
            MIN_ZOOM as int
        } else {
            level - ZOOM_STEP
        },
{
    if level < MIN_ZOOM + ZOOM_STEP {
        MIN_ZOOM
    } else {
        level - ZOOM_STEP
    }
}

/// The zoom level that a reset sets.
pub fn zoom_reset() -> (r: u32)
    ensures
        r == 100,
{
    100
}

} // verus!
