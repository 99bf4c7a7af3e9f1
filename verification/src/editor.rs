//! The text editor: the region that owns the text.
//!
//! Keys add text at the end of the buffer. The editor paints its background,
//! the glyphs of the latest shaping, if that was made for the current size
//! and scale, and a scroll indicator on its right edge. On request it draws
//! a box around every glyph as well.

use vstd::prelude::*;
use crate::canvas::{paint, paint_rect, painted, pixmap_data, pixmap_width, same_shape, Color};
use crate::diagnostics::{render_text, text_with_boxes};
use crate::geometry::Rect;
use crate::input::{ElementState, InputState, Key};
use crate::interactive::Interactive;
use crate::scroll::{indicator_of, scroll_indicator};
use crate::shaping::{
    glyphs_painted,
    paint_glyphs,
    scale,
    scaled,
    Metrics,
    ShapeRequest,
    ShapedText,
};
use crate::text_buffer::{at_end, Cursor, TextBuffer, GREETING};

verus! {

/// Size of the type at a scale factor of one, in pixels.
pub const FONT_SIZE: u32 = 32;

/// Height of a line at a scale factor of one, in pixels.
pub const LINE_HEIGHT: u32 = 48;

/// Width of the scroll indicator at a scale factor of one, in pixels.
pub const SCROLLBAR_WIDTH: u32 = 12;

/// The background of the editor: near black.
pub open spec fn editor_background() -> Color {
    Color { red: 24, green: 24, blue: 24, alpha: 255 }
}

/// The colour of the text: light gray.
pub open spec fn text_color() -> Color {
    Color { red: 200, green: 200, blue: 200, alpha: 255 }
}

/// The colour of the scroll indicator: white, a quarter opaque.
pub open spec fn scrollbar_color() -> Color {
    Color { red: 255, green: 255, blue: 255, alpha: 64 }
}

/// The family of the font that the text is set in.
#[derive(Clone, Copy, Debug, PartialEq, Eq, Structural)]
pub enum Family {
    Monospace,
    SansSerif,
    Serif,
}

/// The style of the text, the same for all of it.
#[derive(Clone, Copy, Debug, PartialEq, Eq, Structural)]
pub struct Attrs {
    pub family: Family,
    pub color: Color,
}

/// The bytes of a pixmap after the scroll indicator of a shaping has been
/// painted: a bar of the scaled indicator width, flush with the right edge
/// of `rect`, over the rows that stand for the lines on screen; nothing
/// where those rows are an empty span.
pub open spec fn indicator_painted(
    data: Seq<u8>,
    width: u32,
    rect: Rect,
    scale_factor: u32,
    shaped: ShapedText,
) -> Seq<u8> {
    match indicator_of(
        shaped.first_visible() as int,
        shaped.last_visible() as int,
        shaped.total_lines as int,
        rect.height as int,
    ) {
        Some(bar) => painted(
            data,
            width,
            rect.x + rect.width - scaled(SCROLLBAR_WIDTH, scale_factor),
            rect.y + bar.start_y,
            scaled(SCROLLBAR_WIDTH, scale_factor) as int,
            bar.length(),
            scrollbar_color(),
        ),
        None => data,
    }
}

/// The bytes of a pixmap after the glyphs of a shaping have been painted,
/// with their boxes where `boxes` is set.
pub open spec fn glyph_layer(
    data: Seq<u8>,
    width: u32,
    rect: Rect,
    shaped: ShapedText,
    boxes: bool,
) -> Seq<u8> {
    if boxes {
        text_with_boxes(data, width, rect.x as int, rect.y as int, shaped.glyphs@, text_color())
    } else {
        glyphs_painted(
            data,
            width,
            rect.x as int,
            rect.y as int,
            shaped.glyphs@,
            text_color(),
            shaped.glyphs@.len(),
        )
    }
}

/// The bytes of a pixmap after a shaping has been painted into `rect`: its
/// glyphs in order, then the scroll indicator. A shaping without glyphs
/// leaves the bytes as they are.
pub open spec fn text_painted(
    data: Seq<u8>,
    width: u32,
    rect: Rect,
    scale_factor: u32,
    shaped: ShapedText,
    boxes: bool,
) -> Seq<u8> {
    if shaped.glyphs@.len() == 0 {
        data
    } else {
        indicator_painted(
            glyph_layer(data, width, rect, shaped, boxes),
            width,
            rect,
            scale_factor,
            shaped,
        )
    }
}

/// The text that a sequence of keys types: the texts of the keys that have
/// one, in order.
pub open spec fn typed_text(keys: Seq<Key>) -> Seq<char>
    decreases keys.len(),
{
    if keys.len() == 0 {
        Seq::<char>::empty()
    } else {
        match keys.last().text_of() {
            Some(text) => typed_text(keys.drop_last()) + text,
            None => typed_text(keys.drop_last()),
        }
    }
}

/// The text of an editor that held `text` and was then handed `keys`, one
/// after the other.
pub open spec fn text_after(text: Seq<char>, keys: Seq<Key>) -> Seq<char>
    decreases keys.len(),
{
    if keys.len() == 0 {
        text
    } else {
        match keys.last().text_of() {
            Some(typed) => text_after(text, keys.drop_last()) + typed,
            None => text_after(text, keys.drop_last()),
        }
    }
}

/// Keys only ever add to the end of the text: after any keys the text is
/// what it was, followed by what the keys type.
pub proof fn lemma_typing_appends(text: Seq<char>, keys: Seq<Key>)
    ensures
        text_after(text, keys) == text + typed_text(keys),
        text_after(text, keys).len() == text.len() + typed_text(keys).len(),
        text == text_after(text, keys).take(text.len() as int),
    decreases keys.len(),
{
    if keys.len() == 0 {
        assert(text + typed_text(keys) =~= text);
    } else {
        lemma_typing_appends(text, keys.drop_last());
        let before = typed_text(keys.drop_last());
        match keys.last().text_of() {
            Some(typed) => {
                assert((text + before) + typed =~= text + (before + typed));
            },
            None => {},
        }
    }
    assert(text =~= (text + typed_text(keys)).take(text.len() as int));
}

/// Typing the same keys twice adds their text twice: from `text`, the keys
/// `keys` typed two times over leave `text`, then the text of `keys`, then
/// the text of `keys` again.
pub proof fn lemma_typing_twice(text: Seq<char>, keys: Seq<Key>)
    ensures
        text_after(text_after(text, keys), keys) == text + typed_text(keys) + typed_text(keys),
        text_after(text, keys + keys) == text_after(text_after(text, keys), keys),
{
    lemma_typing_appends(text, keys);
    lemma_typing_appends(text_after(text, keys), keys);
    lemma_typing_in_turn(text, keys, keys);
}

/// Typing one sequence of keys and then another is typing the two in a
/// row.
pub proof fn lemma_typing_in_turn(text: Seq<char>, first: Seq<Key>, second: Seq<Key>)
    ensures
        text_after(text, first + second) == text_after(text_after(text, first), second),
    decreases second.len(),
{
    if second.len() == 0 {
        assert(first + second =~= first);
    } else {
        lemma_typing_in_turn(text, first, second.drop_last());
        assert((first + second).drop_last() =~= first + second.drop_last());
        assert((first + second).last() == second.last());
    }
}

/// The text editor.
pub struct Editor {
    buffer: TextBuffer,
    metrics: Metrics,
    attrs: Attrs,
    shaped: Option<ShapedText>,
    shaped_for: ShapeRequest,
    debug_boxes: bool,
}

impl View for Editor {
    type V = Seq<char>;

    /// The text in the buffer.
    closed spec fn view(&self) -> Seq<char> {
        self.buffer@
    }
}

impl Editor {
    /// Where the cursor stands.
    pub closed spec fn cursor_of(&self) -> Cursor {
        self.buffer.cursor_of()
    }

    /// The metrics at a scale factor of one.
    pub closed spec fn metrics_of(&self) -> Metrics {
        self.metrics
    }

    /// The shaping that the editor holds, if any.
    pub closed spec fn shaping(&self) -> Option<ShapedText> {
        self.shaped
    }

    /// What the shaping that the editor holds was made for.
    pub closed spec fn shaped_for(&self) -> ShapeRequest {
        self.shaped_for
    }

    /// Whether the editor draws a box around every glyph.
    pub closed spec fn shows_boxes(&self) -> bool {
        self.debug_boxes
    }

    /// What a shaping has to be made for to be painted into `rect` at
    /// `scale_factor`: for the text as it is now, at that size and scale.
    pub open spec fn request_for(&self, scale_factor: u32, rect: Rect) -> ShapeRequest {
        ShapeRequest {
            metrics: self.metrics_of().scaled_by(scale_factor),
            width: rect.width,
            height: rect.height,
            text_len: self@.len() as usize,
        }
    }

    /// The shaping that the editor holds, if it was made for the text as it
    /// is now and for `rect` at `scale_factor`.
    pub open spec fn fresh_shaping(&self, scale_factor: u32, rect: Rect) -> Option<ShapedText> {
        if self.shaping() is Some && self.shaped_for() == self.request_for(scale_factor, rect) {
            self.shaping()
        } else {
            None
        }
    }

    /// The bytes of a pixmap after the editor has painted itself into
    /// `rect`: the background, and over it the text where the editor holds
    /// a shaping made for this text, size and scale.
    pub open spec fn rendered(
        &self,
        data: Seq<u8>,
        width: u32,
        scale_factor: u32,
        rect: Rect,
    ) -> Seq<u8> {
        let background = painted(
            data,
            width,
            rect.x as int,
            rect.y as int,
            rect.width as int,
            rect.height as int,
            editor_background(),
        );
        match self.fresh_shaping(scale_factor, rect) {
            Some(shaped) => text_painted(
                background,
                width,
                rect,
                scale_factor,
                shaped,
                self.shows_boxes(),
            ),
            None => background,
        }
    }

    /// The cursor points into the text: it names the last line and the
    /// length of that line.
    pub proof fn lemma_cursor_is_valid(&self)
        requires
            self.wf(),
        ensures
            at_end(self.cursor_of(), self@),
    {
        self.buffer.lemma_cursor_is_valid();
    }

    /// An editor that holds the greeting and no shaping. `scale_factor` is
    /// in hundredths.
    pub fn new(scale_factor: u32) -> (editor: Editor)
        ensures
            editor.wf(),
            editor@ == GREETING@,
            editor.metrics_of() == (Metrics { font_size: FONT_SIZE, line_height: LINE_HEIGHT }),
            editor.shaping() is None,
            editor.shaped_for() == (ShapeRequest {
                metrics: editor.metrics_of().scaled_by(scale_factor),
                width: 0,
                height: 0,
                text_len: 0,
            }),
            !editor.shows_boxes(),
            at_end(editor.cursor_of(), editor@),
    {
        let metrics = Metrics::new(FONT_SIZE, LINE_HEIGHT);
        let buffer = TextBuffer::new();
        proof {
            buffer.lemma_cursor_is_valid();
        }
        Editor {
            buffer,
            metrics,
            attrs: Attrs { family: Family::Monospace, color: Color::rgba(200, 200, 200, 255) },
            shaped: None,
            shaped_for: ShapeRequest {
                metrics: metrics.scale(scale_factor),
                width: 0,
                height: 0,
                text_len: 0,
            },
            debug_boxes: false,
        }
    }

    /// Turns the boxes around the glyphs on or off. Nothing else changes.
    pub fn set_debug_boxes(&mut self, on: bool)
        requires
            old(self).wf(),
        ensures
            final(self).wf(),
            final(self).shows_boxes() == on,
            final(self)@ == old(self)@,
            final(self).cursor_of() == old(self).cursor_of(),
            final(self).metrics_of() == old(self).metrics_of(),
            final(self).shaping() == old(self).shaping(),
            final(self).shaped_for() == old(self).shaped_for(),
    {
        self.debug_boxes = on;
    }

    /// The text and its cursor.
    pub fn buffer(&self) -> (buffer: &TextBuffer)
        requires
            self.wf(),
        ensures
            buffer.wf(),
            buffer@ == self@,
            buffer.cursor_of() == self.cursor_of(),
    {
        &self.buffer
    }

    /// The style of the text: monospace, in the text colour.
    pub fn attrs(&self) -> (attrs: Attrs)
        requires
            self.wf(),
        ensures
            attrs == (Attrs { family: Family::Monospace, color: text_color() }),
    {
        self.attrs
    }

    /// The metrics at a scale factor of one.
    pub fn metrics(&self) -> (metrics: Metrics)
        ensures
            metrics == self.metrics_of(),
    {
        self.metrics
    }

    /// What the text has to be shaped for before it can be painted into
    /// `rect` at `scale_factor`; none where the editor holds such a shaping
    /// already. The text to shape is that of [`Editor::buffer`].
    pub fn shape_request(&self, scale_factor: u32, rect: Rect) -> (request: Option<ShapeRequest>)
        requires
            self.wf(),
        ensures
            request == if self.fresh_shaping(scale_factor, rect) is Some {
                None
            } else {
                Some(self.request_for(scale_factor, rect))
            },
    {
        let request = ShapeRequest {
            metrics: self.metrics.scale(scale_factor),
            width: rect.width,
            height: rect.height,
            text_len: self.buffer.len(),
        };
        if self.shaped.is_some() && self.shaped_for == request {
            None
        } else {
            Some(request)
        }
    }

    /// Hands the editor a shaping of its text, made for `request`. The
    /// editor keeps it if it is well formed, and holds no shaping otherwise.
    /// A shaping that was asked for before the text, the size or the scale
    /// changed is kept too, but never painted.
    pub fn set_shaped(&mut self, request: ShapeRequest, shaped: ShapedText) -> (kept: bool)
        requires
            old(self).wf(),
        ensures
            final(self).wf(),
            final(self)@ == old(self)@,
            final(self).cursor_of() == old(self).cursor_of(),
            final(self).metrics_of() == old(self).metrics_of(),
            final(self).shows_boxes() == old(self).shows_boxes(),
            kept == shaped.wf(),
            final(self).shaping() == if shaped.wf() {
                Some(shaped)
            } else {
                None
            },
            shaped.wf() ==> final(self).shaped_for() == request,
    {
        if shaped.is_wf() {
            self.shaped = Some(shaped);
            self.shaped_for = request;
            true
        } else {
            self.shaped = None;
            false
        }
    }

    fn paint_indicator(
        pixmap: &mut tiny_skia::PixmapMut,
        rect: Rect,
        scale_factor: u32,
        shaped: &ShapedText,
    )
        requires
            shaped.wf(),
        ensures
            same_shape(*old(pixmap), *final(pixmap)),
            pixmap_data(*final(pixmap)) == indicator_painted(
                pixmap_data(*old(pixmap)),
                pixmap_width(*old(pixmap)),
                rect,
                scale_factor,
                *shaped,
            ),
    {
        let first = shaped.first_visible_line();
        let last = shaped.last_visible_line();
        match scroll_indicator(first, last, shaped.total_lines, rect.height) {
            Some(bar) => {
                let bar_width = scale(SCROLLBAR_WIDTH, scale_factor);
                let x: i64 = rect.x as i64 + rect.width as i64 - bar_width as i64;
                let y: i64 = rect.y as i64 + bar.start_y as i64;
                paint(pixmap, x, y, bar_width, bar.height(), Color::rgba(255, 255, 255, 64));
            },
            None => {},
        }
    }
}

impl Interactive for Editor {
    /// The cursor stands at the end of the text, and a shaping that the
    /// editor holds is well formed.
    closed spec fn wf(&self) -> bool {
        &&& self.buffer.wf()
        &&& self.attrs == (Attrs { family: Family::Monospace, color: text_color() })
        &&& self.shaped matches Some(shaped) ==> shaped.wf()
    }

    /// The editor takes no pointer input yet: nothing changes.
    fn handle_mouse_event(&mut self, input_state: &InputState, new_state: ElementState) -> (redraw:
        bool)
        ensures
            !redraw,
            *final(self) == *old(self),
    {
        false
    }

    /// Adds the text of the key at the end of the buffer. A key without
    /// text changes nothing. The editor asks to be painted anew exactly
    /// when the key had text, and then holds no shaping any more.
    fn handle_keyboard_event(&mut self, input_state: &InputState, key: Key) -> (redraw: bool)
        ensures
            redraw == key.text_of().is_some(),
            key.text_of() matches Some(text) ==> final(self)@ == old(self)@ + text,
            key.text_of() is Some ==> final(self).shaping() is None,
            key.text_of() is None ==> *final(self) == *old(self),
            at_end(final(self).cursor_of(), final(self)@),
            final(self).metrics_of() == old(self).metrics_of(),
            final(self).shaped_for() == old(self).shaped_for(),
            final(self).shows_boxes() == old(self).shows_boxes(),
    {
        proof {
            self.buffer.lemma_cursor_is_valid();
        }
        match key.to_text() {
            Some(text) => {
                self.buffer.insert_string(text);
                self.shaped = None;
                proof {
                    self.buffer.lemma_cursor_is_valid();
                }
                true
            },
            None => false,
        }
    }

    /// Paints the background into `rect`, and over it the glyphs and the
    /// scroll indicator of the shaping that the editor holds, if that was
    /// made for this text, size and scale. A shaping made for another text,
    /// size or scale is dropped.
    fn render(&mut self, pixmap: &mut tiny_skia::PixmapMut, scale_factor: u32, rect: Rect)
        ensures
            pixmap_data(*final(pixmap)) == old(self).rendered(
                pixmap_data(*old(pixmap)),
                pixmap_width(*old(pixmap)),
                scale_factor,
                rect,
            ),
            final(self).shaping() == old(self).fresh_shaping(scale_factor, rect),
            final(self)@ == old(self)@,
            final(self).cursor_of() == old(self).cursor_of(),
            final(self).metrics_of() == old(self).metrics_of(),
            final(self).shaped_for() == old(self).shaped_for(),
            final(self).shows_boxes() == old(self).shows_boxes(),
    {
        paint_rect(pixmap, rect, Color::rgba(24, 24, 24, 255));
        let request = ShapeRequest {
            metrics: self.metrics.scale(scale_factor),
            width: rect.width,
            height: rect.height,
            text_len: self.buffer.len(),
        };
        if !(self.shaped_for == request) {
            self.shaped = None;
        }
        match &self.shaped {
            Some(shaped) => {
                if shaped.glyphs.len() > 0 {
                    let color = Color::rgba(200, 200, 200, 255);
                    if self.debug_boxes {
                        render_text(pixmap, rect.x, rect.y, &shaped.glyphs, color);
                    } else {
                        paint_glyphs(pixmap, rect.x, rect.y, &shaped.glyphs, color);
                    }
                    Editor::paint_indicator(pixmap, rect, scale_factor, shaped);
                }
            },
            None => {},
        }
    }
}

} // verus!
