//! What a strip asks of the display: the window that shows it and the
//! colours of its graphics context, as plain values for the host to request.
use vstd::prelude::*;
use crate::color::ColorScheme;

verus! {

/// The window of a strip and the graphics context that goes with it.
#[derive(Clone, Copy, Debug, PartialEq, Eq, Structural)]
pub struct StripSetup {
    pub x: i16,
    pub y: i16,
    pub width: u16,
    pub height: u16,
    pub border_width: u16,
    /// The background of the window and of the graphics context.
    pub background: u32,
    /// The foreground of the graphics context.
    pub foreground: u32,
    /// The window reports when it has to be painted again.
    pub reports_exposure: bool,
    /// The window reports presses of pointer buttons.
    pub reports_button_press: bool,
    /// The window is placed as asked, past the window manager.
    pub override_redirect: bool,
}

/// The setup of a strip at this place and of this size, in the colours of
/// its normal scheme: without border, reporting exposure and button
/// presses, and not managed by the window manager.
pub open spec fn strip_setup(x: i16, y: i16, width: u16, height: u16, normal: ColorScheme) -> StripSetup {
    StripSetup {
        x,
        y,
        width,
        height,
        border_width: 0,
        background: normal.background,
        foreground: normal.foreground,
        reports_exposure: true,
        reports_button_press: true,
        override_redirect: true,
    }
}

impl StripSetup {
    pub fn new(x: i16, y: i16, width: u16, height: u16, normal: ColorScheme) -> (setup: StripSetup)
        ensures
            setup == strip_setup(x, y, width, height, normal),
    {
        StripSetup {
            x,
            y,
            width,
            height,
            border_width: 0,
            background: normal.background,
            foreground: normal.foreground,
            reports_exposure: true,
            reports_button_press: true,
            override_redirect: true,
        }
    }
}

} // verus!
