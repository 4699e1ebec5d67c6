//! Where the overlay's window goes and how it is styled.

use vstd::prelude::*;
use crate::error::FatalError;
use crate::geometry::{Position, Size};
use crate::platform::Platform;

verus! {

/// Width of the overlay's window in physical pixels.
pub const WINDOW_WIDTH: u32 = 1024;

/// Height of the overlay's window in physical pixels.
pub const WINDOW_HEIGHT: u32 = 128;

/// Distance of the window from the top edge of the display in physical pixels.
pub const TOP_MARGIN: i32 = 8;

/// Everything the window is created with.
#[derive(Clone, Copy, Debug, PartialEq, Eq, Structural)]
pub struct WindowPlan {
    pub size: Size,
    pub position: Position,
    /// The window's background lets the desktop show through.
    pub transparent: bool,
    /// The window has no title bar and no frame.
    pub borderless: bool,
    /// The window stays above ordinary windows.
    pub always_on_top: bool,
    /// The window is announced to the window manager as a tool window. Only
    /// Linux hosts know this hint.
    pub tool_window: bool,
}

/// The horizontal position that centres a window on a display at least as wide.
pub open spec fn centered(display_width: u32, window_width: u32) -> int
    recommends
        display_width >= window_width,
{
    (display_width - window_width) / 2
}

/// The overlay's window on a display of the given width.
pub open spec fn overlay_window(platform: Platform, display_width: u32) -> WindowPlan
    recommends
        display_width >= WINDOW_WIDTH,
{
    WindowPlan {
        size: Size { width: WINDOW_WIDTH, height: WINDOW_HEIGHT },
        position: Position { x: centered(display_width, WINDOW_WIDTH) as i32, y: TOP_MARGIN },
        transparent: true,
        borderless: true,
        always_on_top: true,
        tool_window: platform == Platform::Linux,
    }
}

/// A centred position is never negative and always fits the position's type.
pub proof fn law_centered_in_range(display_width: u32, window_width: u32)
    requires
        display_width >= window_width,
    ensures
        0 <= centered(display_width, window_width) <= i32::MAX,
        2 * centered(display_width, window_width) <= display_width - window_width,
        display_width - window_width <= 2 * centered(display_width, window_width) + 1,
{
}

/// Centres a window of width `window_width` on a display of width
/// `display_width`, rounding down. A display narrower than the window is
/// refused: no position is made up for it.
pub fn centered_x(display_width: u32, window_width: u32) -> (x: Result<i32, FatalError>)
    ensures
        match x {
            Ok(x) => display_width >= window_width && x == centered(display_width, window_width),
            Err(e) => display_width < window_width && e == FatalError::PlacementOutOfRange,
        },
{
    if display_width < window_width {
        Err(FatalError::PlacementOutOfRange)
    } else {
        let half: u32 = (display_width - window_width) / 2;
        Ok(half as i32)
    }
}

/// What planning the window comes to for each report of the primary display.
pub open spec fn planned(platform: Platform, primary_display: Option<Size>) -> Result<
    WindowPlan,
    FatalError,
> {
    match primary_display {
        None => Err(FatalError::NoPrimaryMonitor),
        Some(display) => if display.width < WINDOW_WIDTH {
            Err(FatalError::PlacementOutOfRange)
        } else {
            Ok(overlay_window(platform, display.width))
        },
    }
}

/// Plans the overlay's window from what the platform reports of the primary
/// display. The window is centred at the top of that display, so without a
/// primary display, or on one narrower than the window, there is no plan.
pub fn plan_window(platform: Platform, primary_display: Option<Size>) -> (plan: Result<
    WindowPlan,
    FatalError,
>)
    ensures
        plan == planned(platform, primary_display),
{
    match primary_display {
        None => Err(FatalError::NoPrimaryMonitor),
        Some(display) => {
            match centered_x(display.width, WINDOW_WIDTH) {
                Err(e) => Err(e),
                Ok(x) => Ok(
                    WindowPlan {
                        size: Size { width: WINDOW_WIDTH, height: WINDOW_HEIGHT },
                        position: Position { x, y: TOP_MARGIN },
                        transparent: true,
                        borderless: true,
                        always_on_top: true,
                        tool_window: match platform {
                            Platform::Linux => true,
                            _ => false,
                        },
                    },
                ),
            }
        },
    }
}

} // verus!
