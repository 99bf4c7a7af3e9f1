//! The status bar: an inert region with a flat background.

use vstd::prelude::*;
use crate::canvas::{paint_rect, painted, pixmap_data, pixmap_width, Color};
use crate::geometry::Rect;
use crate::input::{ElementState, InputState, Key};
use crate::interactive::Interactive;

verus! {

/// The background of the status bar: mid gray.
pub open spec fn status_bar_color() -> Color {
    Color { red: 64, green: 64, blue: 64, alpha: 255 }
}

/// The status bar.
#[derive(Clone, Copy, Debug)]
pub struct StatusBar;

impl Interactive for StatusBar {
    open spec fn wf(&self) -> bool {
        true
    }

    /// The status bar takes no pointer input.
    fn handle_mouse_event(&mut self, input_state: &InputState, new_state: ElementState) -> (redraw:
        bool)
        ensures
            !redraw,
    {
        false
    }

    /// The status bar takes no keys.
    fn handle_keyboard_event(&mut self, input_state: &InputState, key: Key) -> (redraw: bool)
        ensures
            !redraw,
    {
        false
    }

    /// Fills the bar's rectangle with its background.
    fn render(&mut self, pixmap: &mut tiny_skia::PixmapMut, scale_factor: u32, rect: Rect)
        ensures
            pixmap_data(*final(pixmap)) == painted(
                pixmap_data(*old(pixmap)),
                pixmap_width(*old(pixmap)),
                rect.x as int,
                rect.y as int,
                rect.width as int,
                rect.height as int,
                status_bar_color(),
            ),
    {
        paint_rect(pixmap, rect, Color::rgba(64, 64, 64, 255));
    }
}

} // verus!
