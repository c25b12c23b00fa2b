//! From a clip rectangle to the scissor rectangle that the device is given.

use vstd::prelude::*;

verus! {

/// A clip rectangle in physical pixels: the logical rectangle, scaled by the
/// ratio of physical to logical pixels and rounded to whole pixels. It may
/// reach outside the screen, and it may be empty.
#[derive(Clone, Copy, Debug, PartialEq, Eq, Structural)]
pub struct ClipRect {
    pub min_x: i64,
    pub min_y: i64,
    pub max_x: i64,
    pub max_y: i64,
}

/// `value`, or the bound that it lies beyond.
pub open spec fn clamp(value: int, low: int, high: int) -> int {
    if value < low {
        low
    } else if value > high {
        high
    } else {
        value
    }
}

/// How far a clamped span reaches on one axis of a screen that is `screen`
/// pixels long: where it starts, and how many pixels it covers. The start is
/// `min` clamped to the screen; the end is `max` clamped to what lies between
/// the start and the far edge. Where the end does not lie beyond the start,
/// the span covers nothing.
pub open spec fn clamped_span(min: int, max: int, screen: int) -> (int, int) {
    let start = clamp(min, 0, screen);
    let end = clamp(max, start, screen);
    (start, end - start)
}

/// Whether the span from `min` to `max` has a pixel on a screen that is
/// `screen` pixels long: the span and the screen are not empty, and the span
/// starts before the far edge and ends beyond the near one.
pub open spec fn span_shows(min: int, max: int, screen: int) -> bool {
    min < max && 0 < screen && min < screen && 0 < max
}

/// The scissor rectangle `[x, y, width, height]` of a clip rectangle on a
/// screen of the given physical size, or `None` if its width or its height
/// on the screen is zero.
pub open spec fn spec_scissor_rect(clip: ClipRect, screen: [u32; 2]) -> Option<[u32; 4]> {
    let (x, width) = clamped_span(clip.min_x as int, clip.max_x as int, screen[0] as int);
    let (y, height) = clamped_span(clip.min_y as int, clip.max_y as int, screen[1] as int);
    if width == 0 || height == 0 {
        None
    } else {
        Some([x as u32, y as u32, width as u32, height as u32])
    }
}

/// A scissor rectangle lies within the screen on both axes and covers at
/// least one pixel each way; there is one exactly where the clip rectangle
/// has a pixel on the screen on both axes.
pub proof fn lemma_scissor_lies_within(clip: ClipRect, screen: [u32; 2])
    ensures
        spec_scissor_rect(clip, screen).is_some() <==> span_shows(
            clip.min_x as int,
            clip.max_x as int,
            screen[0] as int,
        ) && span_shows(clip.min_y as int, clip.max_y as int, screen[1] as int),
        match spec_scissor_rect(clip, screen) {
            Some(rect) => {
                &&& rect[0] + rect[2] <= screen[0]
                &&& rect[1] + rect[3] <= screen[1]
                &&& rect[2] >= 1
                &&& rect[3] >= 1
            },
            None => true,
        },
{
}

/// Start and length of a clamped span on one axis.
fn span(min: i64, max: i64, screen: u32) -> (span: (u32, u32))
    ensures
        (span.0 as int, span.1 as int) == clamped_span(min as int, max as int, screen as int),
        span.0 + span.1 <= screen,
        span.1 > 0 <==> span_shows(min as int, max as int, screen as int),
{
    let start: u32 = if min < 0 {
        0
    } else if min > screen as i64 {
        screen
    } else {
        min as u32
    };
    let end: u32 = if max < start as i64 {
        start
    } else if max > screen as i64 {
        screen
    } else {
        max as u32
    };
    (start, end - start)
}

/// The scissor rectangle `[x, y, width, height]` of a clip rectangle on a
/// screen of the given physical size: the clip rectangle with its corners
/// clamped to the screen. It lies within the screen on both axes and covers
/// at least one pixel each way. Where the width or the height that is left
/// on the screen is zero there is no such rectangle, and the result is
/// `None`.
pub fn scissor_rect(clip: &ClipRect, screen_size_physical: [u32; 2]) -> (scissor: Option<[u32; 4]>)
    ensures
        scissor == spec_scissor_rect(*clip, screen_size_physical),
        scissor.is_some() <==> span_shows(
            clip.min_x as int,
            clip.max_x as int,
            screen_size_physical[0] as int,
        ) && span_shows(clip.min_y as int, clip.max_y as int, screen_size_physical[1] as int),
        match scissor {
            Some(rect) => {
                &&& rect[0] + rect[2] <= screen_size_physical[0]
                &&& rect[1] + rect[3] <= screen_size_physical[1]
                &&& rect[2] >= 1
                &&& rect[3] >= 1
            },
            None => true,
        },
{
    let (x, width) = span(clip.min_x, clip.max_x, screen_size_physical[0]);
    let (y, height) = span(clip.min_y, clip.max_y, screen_size_physical[1]);
    if width == 0 || height == 0 {
        None
    } else {
        Some([x, y, width, height])
    }
}

} // verus!
