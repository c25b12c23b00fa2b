//! The offscreen render target: the sub-rectangle of the screen that the draw
//! stream is redirected to, carved out by four margins given in percent.

use vstd::prelude::*;

verus! {

/// A whole number of percent of a screen axis.
#[derive(Clone, Copy, Debug, PartialEq, Eq, Structural)]
pub struct Percent(pub u32);

/// The margins that the render target keeps free on each side of the screen.
#[derive(Clone, Copy, Debug, PartialEq, Eq, Structural)]
pub struct RenderTargetFullscreenRect {
    pub margin_top: Percent,
    pub margin_bottom: Percent,
    pub margin_left: Percent,
    pub margin_right: Percent,
}

/// Pixel size of the texture that backs the render target.
#[derive(Clone, Copy, Debug, PartialEq, Eq, Structural)]
pub struct RenderTargetSize {
    pub width: u32,
    pub height: u32,
}

/// Where the render target lies on the screen, in physical pixels, together
/// with the screen size it was derived from.
#[derive(Clone, Copy, Debug, PartialEq, Eq, Structural)]
pub struct RenderTargetRect {
    pub x: u32,
    pub y: u32,
    pub width: u32,
    pub height: u32,
    pub screen_width: u32,
    pub screen_height: u32,
}

/// Margin above the render target, in percent of the screen height.
pub const MARGIN_TOP: u32 = 2;

/// Margin below the render target, in percent of the screen height.
pub const MARGIN_BOTTOM: u32 = 5;

/// Margin left of the render target, in percent of the screen width.
pub const MARGIN_LEFT: u32 = 7;

/// Margin right of the render target, in percent of the screen width.
pub const MARGIN_RIGHT: u32 = 44;

/// `percent` hundredths of `length`, rounded down.
pub open spec fn percent_of(length: int, percent: int) -> int {
    length * percent / 100
}

impl RenderTargetFullscreenRect {
    /// The margins on each axis leave a non-negative share for the target.
    pub open spec fn wf(self) -> bool {
        &&& self.margin_left.0 + self.margin_right.0 <= 100
        &&& self.margin_top.0 + self.margin_bottom.0 <= 100
    }

    /// The rectangle that these margins leave on a screen of the given size.
    pub open spec fn spec_rect(self, screen_width: u32, screen_height: u32) -> RenderTargetRect {
        RenderTargetRect {
            x: percent_of(screen_width as int, self.margin_left.0 as int) as u32,
            y: percent_of(screen_height as int, self.margin_top.0 as int) as u32,
            width: percent_of(
                screen_width as int,
                100 - self.margin_left.0 - self.margin_right.0,
            ) as u32,
            height: percent_of(
                screen_height as int,
                100 - self.margin_top.0 - self.margin_bottom.0,
            ) as u32,
            screen_width,
            screen_height,
        }
    }

    /// Carves the render target out of a screen of the given size.
    pub fn rect(&self, screen_width: u32, screen_height: u32) -> (rect: RenderTargetRect)
        requires
            self.wf(),
        ensures
            rect == self.spec_rect(screen_width, screen_height),
            rect.x + rect.width <= screen_width,
            rect.y + rect.height <= screen_height,
    {
        let left: u32 = self.margin_left.0;
        let right: u32 = self.margin_right.0;
        let top: u32 = self.margin_top.0;
        let bottom: u32 = self.margin_bottom.0;
        proof {
            lemma_shares_fit(screen_width as int, left as int, 100 - left - right);
            lemma_shares_fit(screen_height as int, top as int, 100 - top - bottom);
        }
        RenderTargetRect {
            x: share(screen_width, left),
            y: share(screen_height, top),
            width: share(screen_width, 100 - left - right),
            height: share(screen_height, 100 - top - bottom),
            screen_width,
            screen_height,
        }
    }
}

/// `percent` hundredths of `length`, rounded down.
fn share(length: u32, percent: u32) -> (part: u32)
    requires
        percent <= 100,
    ensures
        part == percent_of(length as int, percent as int),
        part <= length,
{
    proof {
        lemma_share_bounded(length as int, percent as int);
    }
    let product: u64 = length as u64 * percent as u64;
    (product / 100) as u32
}

/// A share of at most a hundred percent is at most the whole.
proof fn lemma_share_bounded(length: int, percent: int)
    requires
        0 <= length,
        0 <= percent <= 100,
    ensures
        0 <= length * percent <= length * 100,
        0 <= percent_of(length, percent) <= length,
{
    assert(0 <= length * percent <= length * 100) by (nonlinear_arith)
        requires
            0 <= length,
            0 <= percent <= 100,
    ;
}

/// Two shares that together make at most a hundred percent fit side by side.
proof fn lemma_shares_fit(length: int, first: int, second: int)
    requires
        0 <= length,
        0 <= first,
        0 <= second,
        first + second <= 100,
    ensures
        percent_of(length, first) + percent_of(length, second) <= length,
{
    assert(length * first + length * second == length * (first + second)) by (nonlinear_arith);
    assert(length * (first + second) <= length * 100) by (nonlinear_arith)
        requires
            0 <= length,
            first + second <= 100,
    ;
    assert(0 <= length * first) by (nonlinear_arith)
        requires
            0 <= length,
            0 <= first,
    ;
    assert(0 <= length * second) by (nonlinear_arith)
        requires
            0 <= length,
            0 <= second,
    ;
}

/// The margins of the render target.
pub open spec fn spec_render_target_margins() -> RenderTargetFullscreenRect {
    RenderTargetFullscreenRect {
        margin_top: Percent(MARGIN_TOP),
        margin_bottom: Percent(MARGIN_BOTTOM),
        margin_left: Percent(MARGIN_LEFT),
        margin_right: Percent(MARGIN_RIGHT),
    }
}

/// The render target on a screen of the given size.
pub open spec fn spec_render_target_rect(screen_width: u32, screen_height: u32) -> RenderTargetRect {
    spec_render_target_margins().spec_rect(screen_width, screen_height)
}

/// The margins of the render target.
#[verifier::when_used_as_spec(spec_render_target_margins)]
pub fn render_target_margins() -> (margins: RenderTargetFullscreenRect)
    ensures
        margins.wf(),
        margins == spec_render_target_margins(),
{
    RenderTargetFullscreenRect {
        margin_top: Percent(MARGIN_TOP),
        margin_bottom: Percent(MARGIN_BOTTOM),
        margin_left: Percent(MARGIN_LEFT),
        margin_right: Percent(MARGIN_RIGHT),
    }
}

/// The render target on a screen of the given size: it starts 7% of the width
/// from the left and 2% of the height from the top, and takes 49% of the width
/// and 93% of the height, each rounded down to whole pixels.
#[allow(non_snake_case)]
pub fn createRenderTargetRectFromScreenSize(screen_width: u32, screen_height: u32) -> (rect:
    RenderTargetRect)
    ensures
        rect == spec_render_target_rect(screen_width, screen_height),
        rect.x == screen_width * 7 / 100,
        rect.y == screen_height * 2 / 100,
        rect.width == screen_width * 49 / 100,
        rect.height == screen_height * 93 / 100,
        rect.screen_width == screen_width,
        rect.screen_height == screen_height,
        rect.x + rect.width <= screen_width,
        rect.y + rect.height <= screen_height,
{
    render_target_margins().rect(screen_width, screen_height)
}

} // verus!
