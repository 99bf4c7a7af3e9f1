//! The window as a whole: the layout, the three regions and the focus.
//!
//! Pointer input goes to the region under the pointer, and a press moves
//! the focus there. Keys go to the focused region and to no other. Painting
//! lays the regions out anew and paints them in a fixed order.

use vstd::prelude::*;
use crate::canvas::{paint, paint_rect, painted, pixmap_data, pixmap_width, same_shape, Color};
use crate::diagnostics::{render_text, text_with_boxes};
use crate::editor::{editor_background, Editor};
use crate::geometry::Rect;
use crate::input::{ElementState, InputState, Key};
use crate::interactive::Interactive;
use crate::layout::{clamped, layout_of, Layout, Section, NAV_BAR_WIDTH, STATUS_BAR_HEIGHT};
use crate::nav_bar::{nav_bar_color, NavBar};
use crate::shaping::{Glyph, ShapeRequest, ShapedText};
use crate::status_bar::{status_bar_color, StatusBar};
use crate::text_buffer::{at_end, GREETING};

verus! {

/// The focus after the pointer was pressed or released at `(px, py)`: the
/// region under the pointer where a press finds one, else the focus as it
/// was.
pub open spec fn focus_after(
    focus: Section,
    layout: Layout,
    px: int,
    py: int,
    state: ElementState,
) -> Section {
    match layout.region_at(px, py) {
        Some(section) => if state == ElementState::Pressed {
            section
        } else {
            focus
        },
        None => focus,
    }
}

/// The focus moves only when the pointer is pressed over a region, and then
/// to that region. A press over the editor gives the editor the focus,
/// whichever region had it.
pub proof fn lemma_focus_moves_only_on_press(
    focus: Section,
    layout: Layout,
    px: int,
    py: int,
    state: ElementState,
)
    ensures
        focus_after(focus, layout, px, py, state) != focus ==> state == ElementState::Pressed
            && layout.region_at(px, py) == Some(focus_after(focus, layout, px, py, state))
            && layout.rect_of(focus_after(focus, layout, px, py, state)).holds(px, py),
        state == ElementState::Released ==> focus_after(focus, layout, px, py, state) == focus,
        layout.region_at(px, py) is None ==> focus_after(focus, layout, px, py, state) == focus,
        state == ElementState::Pressed && layout.editor.holds(px, py) ==> focus_after(
            focus,
            layout,
            px,
            py,
            state,
        ) == Section::Editor,
{
}

/// The colour under the regions of a window painted without state: black.
pub open spec fn backdrop() -> Color {
    Color { red: 0, green: 0, blue: 0, alpha: 255 }
}

/// The colour of the text of a window painted without state: white.
pub open spec fn plain_text_color() -> Color {
    Color { red: 255, green: 255, blue: 255, alpha: 255 }
}

/// The bytes of a pixmap after a window of the given size has been painted
/// without state: the viewport in black, the navigation bar, the editor's
/// background, the glyphs with their boxes at the editor's corner, and the
/// status bar.
pub open spec fn plainly_rendered(
    data: Seq<u8>,
    pixmap_width: u32,
    width: u32,
    height: u32,
    glyphs: Seq<Glyph>,
) -> Seq<u8> {
    let layout = layout_of(width, height);
    let cleared = painted(
        data,
        pixmap_width,
        0,
        0,
        clamped(width) as int,
        clamped(height) as int,
        backdrop(),
    );
    let with_nav_bar = painted(
        cleared,
        pixmap_width,
        layout.nav_bar.x as int,
        layout.nav_bar.y as int,
        layout.nav_bar.width as int,
        layout.nav_bar.height as int,
        nav_bar_color(),
    );
    let with_editor = painted(
        with_nav_bar,
        pixmap_width,
        layout.editor.x as int,
        layout.editor.y as int,
        layout.editor.width as int,
        layout.editor.height as int,
        editor_background(),
    );
    let with_text = text_with_boxes(
        with_editor,
        pixmap_width,
        layout.editor.x as int,
        layout.editor.y as int,
        glyphs,
        plain_text_color(),
    );
    painted(
        with_text,
        pixmap_width,
        layout.status_bar.x as int,
        layout.status_bar.y as int,
        layout.status_bar.width as int,
        layout.status_bar.height as int,
        status_bar_color(),
    )
}

/// Paints a window of the given size that holds no state: the regions in
/// their flat colours over black, and in the editor the given glyphs, in
/// white, each with its box.
pub fn render(pixmap: &mut tiny_skia::PixmapMut, width: u32, height: u32, glyphs: &Vec<Glyph>)
    ensures
        same_shape(*old(pixmap), *final(pixmap)),
        pixmap_data(*final(pixmap)) == plainly_rendered(
            pixmap_data(*old(pixmap)),
            pixmap_width(*old(pixmap)),
            width,
            height,
            glyphs@,
        ),
{
    let layout = Layout::resolve(width, height);
    let viewport_width: u32 = if width == 0 { 1 } else { width };
    let viewport_height: u32 = if height == 0 { 1 } else { height };
    paint(pixmap, 0, 0, viewport_width, viewport_height, Color::rgba(0, 0, 0, 255));
    paint_rect(pixmap, layout.nav_bar, Color::rgba(48, 48, 48, 255));
    paint_rect(pixmap, layout.editor, Color::rgba(24, 24, 24, 255));
    render_text(pixmap, layout.editor.x, layout.editor.y, glyphs, Color::rgba(255, 255, 255, 255));
    paint_rect(pixmap, layout.status_bar, Color::rgba(64, 64, 64, 255));
}

/// The window: its layout, its regions and the region that has the focus.
pub struct LayoutEngine {
    width: u32,
    height: u32,
    layout: Layout,
    nav_bar: NavBar,
    editor: Editor,
    status_bar: StatusBar,
    focused: Section,
}

impl LayoutEngine {
    /// The region that keys go to.
    pub closed spec fn focus_of(&self) -> Section {
        self.focused
    }

    /// The rectangles of the regions.
    pub closed spec fn rects_of(&self) -> Layout {
        self.layout
    }

    /// The size of the viewport that the regions were last laid out for.
    pub closed spec fn viewport_size(&self) -> (u32, u32) {
        (self.width, self.height)
    }

    /// The text editor.
    pub closed spec fn editor_of(&self) -> Editor {
        self.editor
    }

    /// The bytes of a pixmap after the window has been painted for a
    /// viewport: the navigation bar, then the editor, then the status bar,
    /// each into its rectangle of the layout of that viewport.
    pub open spec fn rendered(
        &self,
        data: Seq<u8>,
        width: u32,
        scale_factor: u32,
        viewport: Rect,
    ) -> Seq<u8> {
        let layout = layout_of(viewport.width, viewport.height);
        let with_nav_bar = painted(
            data,
            width,
            layout.nav_bar.x as int,
            layout.nav_bar.y as int,
            layout.nav_bar.width as int,
            layout.nav_bar.height as int,
            nav_bar_color(),
        );
        let with_editor = self.editor_of().rendered(
            with_nav_bar,
            width,
            scale_factor,
            layout.editor,
        );
        painted(
            with_editor,
            width,
            layout.status_bar.x as int,
            layout.status_bar.y as int,
            layout.status_bar.width as int,
            layout.status_bar.height as int,
            status_bar_color(),
        )
    }

    /// What a key does to the window: `after` is the window that `self`
    /// becomes, and `redraw` is whether it asks to be painted anew. Focus and
    /// layout stay. With the editor focused and a key that has text, the
    /// text is added at the end of the editor's text, the editor lets go of
    /// its shaping, and the window is to be painted. In every other case
    /// nothing changes and nothing is to be painted.
    pub open spec fn key_handled(self, after: LayoutEngine, key: Key, redraw: bool) -> bool {
        &&& after.focus_of() == self.focus_of()
        &&& after.rects_of() == self.rects_of()
        &&& after.viewport_size() == self.viewport_size()
        &&& after.editor_of().metrics_of() == self.editor_of().metrics_of()
        &&& after.editor_of().shaped_for() == self.editor_of().shaped_for()
        &&& after.editor_of().shows_boxes() == self.editor_of().shows_boxes()
        &&& at_end(after.editor_of().cursor_of(), after.editor_of()@)
        &&& if self.focus_of() == Section::Editor && key.text_of() is Some {
            &&& redraw
            &&& after.editor_of()@ == self.editor_of()@ + key.text_of().unwrap()
            &&& after.editor_of().shaping() is None
        } else {
            &&& !redraw
            &&& after.editor_of() == self.editor_of()
        }
    }

    /// What a press or release of the pointer at `(px, py)` does to the
    /// window: a press over a region gives that region the focus, and
    /// nothing else changes.
    pub open spec fn pointer_handled(
        self,
        after: LayoutEngine,
        px: int,
        py: int,
        state: ElementState,
    ) -> bool {
        &&& after.focus_of() == focus_after(self.focus_of(), self.rects_of(), px, py, state)
        &&& after.rects_of() == self.rects_of()
        &&& after.viewport_size() == self.viewport_size()
        &&& after.editor_of() == self.editor_of()
    }

    /// In every state of the window the rectangles are the layout of the
    /// viewport that it was last laid out for, whatever came before: no two
    /// regions share a point, and where that viewport is at least as large
    /// as the fixed tracks, the region under a position is found exactly
    /// for the positions inside the viewport.
    pub proof fn lemma_layout_is_resolved(&self)
        requires
            self.wf(),
        ensures
            self.rects_of() == layout_of(self.viewport_size().0, self.viewport_size().1),
            self.editor_of().wf(),
            !self.rects_of().nav_bar.overlaps(self.rects_of().editor),
            !self.rects_of().nav_bar.overlaps(self.rects_of().status_bar),
            !self.rects_of().editor.overlaps(self.rects_of().status_bar),
            self.viewport_size().0 >= NAV_BAR_WIDTH && self.viewport_size().1 >= STATUS_BAR_HEIGHT
                ==> forall|px: int, py: int|
                #![trigger self.rects_of().region_at(px, py)]
                self.rects_of().region_at(px, py).is_some() <==> (0 <= px < self.viewport_size().0
                    && 0 <= py < self.viewport_size().1),
    {
        crate::layout::lemma_layout_degrades(self.width, self.height);
    }

    /// Keys never reach a region that does not have the focus: while the
    /// focus is not on the editor, a key leaves the editor as it was, and
    /// nothing is to be painted.
    pub proof fn lemma_keys_reach_only_the_focus(
        self,
        after: LayoutEngine,
        key: Key,
        redraw: bool,
    )
        requires
            self.key_handled(after, key, redraw),
            self.focus_of() != Section::Editor,
        ensures
            after.editor_of() == self.editor_of(),
            after.editor_of()@ == self.editor_of()@,
            after.focus_of() == self.focus_of(),
            !redraw,
    {
    }

    /// A window whose editor holds the greeting and has the focus, laid out
    /// for an empty viewport. `scale_factor` is in hundredths.
    pub fn new(scale_factor: u32) -> (engine: LayoutEngine)
        ensures
            engine.wf(),
            engine.focus_of() == Section::Editor,
            engine.viewport_size() == (0u32, 0u32),
            engine.editor_of()@ == GREETING@,
            engine.editor_of().shaping() is None,
            !engine.editor_of().shows_boxes(),
            engine.rects_of() == layout_of(0, 0),
            at_end(engine.editor_of().cursor_of(), engine.editor_of()@),
    {
        LayoutEngine {
            width: 0,
            height: 0,
            layout: Layout::resolve(0, 0),
            nav_bar: NavBar,
            editor: Editor::new(scale_factor),
            status_bar: StatusBar,
            focused: Section::Editor,
        }
    }

    /// Lays the regions out for a viewport of the given size. Nothing else
    /// changes.
    pub fn compute_layout(&mut self, width: u32, height: u32)
        requires
            old(self).wf(),
        ensures
            final(self).wf(),
            final(self).rects_of() == layout_of(width, height),
            final(self).viewport_size() == (width, height),
            final(self).focus_of() == old(self).focus_of(),
            final(self).editor_of() == old(self).editor_of(),
    {
        self.width = width;
        self.height = height;
        self.layout = Layout::resolve(width, height);
    }

    /// Lays the regions out for a viewport of the given size and hands the
    /// rectangles back.
    pub fn get_layout(&mut self, width: u32, height: u32) -> (layout: Layout)
        requires
            old(self).wf(),
        ensures
            final(self).wf(),
            layout == layout_of(width, height),
            final(self).rects_of() == layout,
            final(self).viewport_size() == (width, height),
            final(self).focus_of() == old(self).focus_of(),
            final(self).editor_of() == old(self).editor_of(),
    {
        self.compute_layout(width, height);
        self.layout
    }

    /// The rectangles of the regions, as last laid out.
    pub fn layout(&self) -> (layout: Layout)
        ensures
            layout == self.rects_of(),
    {
        self.layout
    }

    /// The region that has the focus.
    pub fn focused(&self) -> (section: Section)
        ensures
            section == self.focus_of(),
    {
        self.focused
    }

    /// The text editor.
    pub fn editor(&self) -> (editor: &Editor)
        requires
            self.wf(),
        ensures
            *editor == self.editor_of(),
            editor.wf(),
    {
        &self.editor
    }

    /// Turns the boxes around the editor's glyphs on or off. Nothing else
    /// changes.
    pub fn set_debug_boxes(&mut self, on: bool)
        requires
            old(self).wf(),
        ensures
            final(self).wf(),
            final(self).rects_of() == old(self).rects_of(),
            final(self).viewport_size() == old(self).viewport_size(),
            final(self).focus_of() == old(self).focus_of(),
            final(self).editor_of().shows_boxes() == on,
            final(self).editor_of()@ == old(self).editor_of()@,
            final(self).editor_of().cursor_of() == old(self).editor_of().cursor_of(),
            final(self).editor_of().metrics_of() == old(self).editor_of().metrics_of(),
            final(self).editor_of().shaping() == old(self).editor_of().shaping(),
            final(self).editor_of().shaped_for() == old(self).editor_of().shaped_for(),
    {
        self.editor.set_debug_boxes(on);
    }

    /// What the editor's text has to be shaped for before the window is
    /// painted at `scale_factor`; none where the editor holds such a
    /// shaping already.
    pub fn shape_request(&self, scale_factor: u32) -> (request: Option<ShapeRequest>)
        requires
            self.wf(),
        ensures
            request == if self.editor_of().fresh_shaping(scale_factor, self.rects_of().editor)
                is Some {
                None
            } else {
                Some(self.editor_of().request_for(scale_factor, self.rects_of().editor))
            },
    {
        self.editor.shape_request(scale_factor, self.layout.editor)
    }

    /// Hands the editor a shaping of its text, made for `request`. The
    /// editor keeps it if it is well formed, and holds no shaping otherwise.
    /// A shaping that was asked for before the text, the size or the scale
    /// changed is kept too, but never painted.
    pub fn set_shaped(&mut self, request: ShapeRequest, shaped: ShapedText) -> (kept: bool)
        requires
            old(self).wf(),
        ensures
            final(self).wf(),
            final(self).rects_of() == old(self).rects_of(),
            final(self).viewport_size() == old(self).viewport_size(),
            final(self).focus_of() == old(self).focus_of(),
            final(self).editor_of()@ == old(self).editor_of()@,
            final(self).editor_of().metrics_of() == old(self).editor_of().metrics_of(),
            final(self).editor_of().shows_boxes() == old(self).editor_of().shows_boxes(),
            kept == shaped.wf(),
            final(self).editor_of().shaping() == if shaped.wf() {
                Some(shaped)
            } else {
                None
            },
            shaped.wf() ==> final(self).editor_of().shaped_for() == request,
    {
        self.editor.set_shaped(request, shaped)
    }
}

impl Interactive for LayoutEngine {
    /// The rectangles are the layout of the viewport, and the editor is
    /// well formed.
    closed spec fn wf(&self) -> bool {
        &&& self.layout == layout_of(self.width, self.height)
        &&& self.editor.wf()
        &&& self.nav_bar.wf()
        &&& self.status_bar.wf()
    }

    /// Finds the region under the pointer, the editor first, then the
    /// navigation bar, then the status bar. Where there is one, a press
    /// gives it the focus, and the region is handed the event. Where there
    /// is none, nothing happens. No region asks to be painted anew for
    /// pointer input, and none changes.
    fn handle_mouse_event(&mut self, input_state: &InputState, new_state: ElementState) -> (redraw:
        bool)
        ensures
            old(self).pointer_handled(
                *final(self),
                input_state.mouse_pos_x as int,
                input_state.mouse_pos_y as int,
                new_state,
            ),
            !redraw,
    {
        match self.layout.hit_test(input_state.mouse_pos_x, input_state.mouse_pos_y) {
            Some(section) => {
                if new_state.is_pressed() {
                    self.focused = section;
                }
                match section {
                    Section::Editor => self.editor.handle_mouse_event(input_state, new_state),
                    Section::NavBar => self.nav_bar.handle_mouse_event(input_state, new_state),
                    Section::StatusBar => self.status_bar.handle_mouse_event(
                        input_state,
                        new_state,
                    ),
                }
            },
            None => false,
        }
    }

    /// Hands the key to the focused region, and to no other. Only the
    /// editor does anything with a key: with the focus elsewhere nothing
    /// changes and nothing is to be painted.
    fn handle_keyboard_event(&mut self, input_state: &InputState, key: Key) -> (redraw: bool)
        ensures
            old(self).key_handled(*final(self), key, redraw),
    {
        proof {
            self.editor.lemma_cursor_is_valid();
        }
        match self.focused {
            Section::NavBar => self.nav_bar.handle_keyboard_event(input_state, key),
            Section::Editor => self.editor.handle_keyboard_event(input_state, key),
            Section::StatusBar => self.status_bar.handle_keyboard_event(input_state, key),
        }
    }

    /// Lays the regions out for the size of `rect`, then paints the
    /// navigation bar, the editor and the status bar, in this order, each
    /// into its rectangle. `rect` is the viewport; its corner is taken to
    /// be the corner of the pixmap.
    fn render(&mut self, pixmap: &mut tiny_skia::PixmapMut, scale_factor: u32, rect: Rect)
        ensures
            final(self).rects_of() == layout_of(rect.width, rect.height),
            final(self).viewport_size() == (rect.width, rect.height),
            final(self).focus_of() == old(self).focus_of(),
            pixmap_data(*final(pixmap)) == old(self).rendered(
                pixmap_data(*old(pixmap)),
                pixmap_width(*old(pixmap)),
                scale_factor,
                rect,
            ),
            final(self).editor_of()@ == old(self).editor_of()@,
            final(self).editor_of().cursor_of() == old(self).editor_of().cursor_of(),
            final(self).editor_of().metrics_of() == old(self).editor_of().metrics_of(),
            final(self).editor_of().shaping() == old(self).editor_of().fresh_shaping(
                scale_factor,
                layout_of(rect.width, rect.height).editor,
            ),
            final(self).editor_of().shaped_for() == old(self).editor_of().shaped_for(),
            final(self).editor_of().shows_boxes() == old(self).editor_of().shows_boxes(),
    {
        self.compute_layout(rect.width, rect.height);
        let layout = self.layout;
        self.nav_bar.render(pixmap, scale_factor, layout.nav_bar);
        self.editor.render(pixmap, scale_factor, layout.editor);
        self.status_bar.render(pixmap, scale_factor, layout.status_bar);
    }
}

} // verus!
