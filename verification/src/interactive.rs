//! What every region of the window can do.

use vstd::prelude::*;
use crate::canvas::same_shape;
use crate::geometry::Rect;
use crate::input::{ElementState, InputState, Key};

verus! {

/// A part of the window that takes pointer and keyboard input and paints
/// itself. The two handlers say whether the window has to be painted anew.
pub trait Interactive {
    /// What holds of the region between calls.
    spec fn wf(&self) -> bool;

    /// Takes a press or release of the pointer at the position in
    /// `input_state`.
    fn handle_mouse_event(&mut self, input_state: &InputState, new_state: ElementState) -> (redraw:
        bool)
        requires
            old(self).wf(),
        ensures
            final(self).wf(),
    ;

    /// Takes a key that went down.
    fn handle_keyboard_event(&mut self, input_state: &InputState, key: Key) -> (redraw: bool)
        requires
            old(self).wf(),
        ensures
            final(self).wf(),
    ;

    /// Paints the region into `rect` of the pixmap, at a scale factor given
    /// in hundredths.
    fn render(&mut self, pixmap: &mut tiny_skia::PixmapMut, scale_factor: u32, rect: Rect)
        requires
            old(self).wf(),
        ensures
            final(self).wf(),
            same_shape(*old(pixmap), *final(pixmap)),
    ;
}

} // verus!
