//! Boxes drawn around shaped glyphs, to check a shaping by eye.
//!
//! One box goes around each glyph that covers any pixels, a pixel outside
//! the glyph's own box, and one around all of them together.

use vstd::prelude::*;
use crate::canvas::{outline, outlined, pixmap_data, pixmap_width, same_shape, Color};
use crate::shaping::{glyphs_painted, paint_glyphs, Glyph};

verus! {

/// The colour of the boxes: a gray lighter than the text.
pub open spec fn box_color() -> Color {
    Color { red: 220, green: 220, blue: 220, alpha: 255 }
}

/// A box of pixels, from `(left, top)` up to but not including
/// `(right, bottom)`.
#[derive(Clone, Copy, Debug, PartialEq, Eq, Structural)]
pub struct PixelBox {
    pub left: i64,
    pub top: i64,
    pub right: i64,
    pub bottom: i64,
}

/// Spec-level boxes have unbounded corners.
pub struct Bounds {
    pub left: int,
    pub top: int,
    pub right: int,
    pub bottom: int,
}

impl PixelBox {
    pub open spec fn bounds(self) -> Bounds {
        Bounds {
            left: self.left as int,
            top: self.top as int,
            right: self.right as int,
            bottom: self.bottom as int,
        }
    }
}

impl Bounds {
    /// The smallest box that holds both boxes.
    pub open spec fn join(self, other: Bounds) -> Bounds {
        Bounds {
            left: if self.left <= other.left {
                self.left
            } else {
                other.left
            },
            top: if self.top <= other.top {
                self.top
            } else {
                other.top
            },
            right: if self.right >= other.right {
                self.right
            } else {
                other.right
            },
            bottom: if self.bottom >= other.bottom {
                self.bottom
            } else {
                other.bottom
            },
        }
    }

    /// The box grown by one pixel on every side.
    pub open spec fn grown(self) -> Bounds {
        Bounds {
            left: self.left - 1,
            top: self.top - 1,
            right: self.right + 1,
            bottom: self.bottom + 1,
        }
    }

    /// Whether the corners lie within what any glyph box can reach.
    pub open spec fn in_reach(self) -> bool {
        &&& i32::MIN <= self.left <= self.right <= u32::MAX + i32::MAX + u32::MAX
        &&& i32::MIN <= self.top <= self.bottom <= u32::MAX + i32::MAX + u32::MAX
    }
}

/// Whether a glyph covers any pixels.
pub open spec fn has_box(glyph: Glyph) -> bool {
    glyph.width > 0 && glyph.height > 0
}

/// The box of a glyph on the pixmap, where `(origin_x, origin_y)` is the
/// corner that the glyph's own box is relative to.
pub open spec fn glyph_bounds(origin_x: int, origin_y: int, glyph: Glyph) -> Bounds {
    Bounds {
        left: origin_x + glyph.x,
        top: origin_y + glyph.y,
        right: origin_x + glyph.x + glyph.width,
        bottom: origin_y + glyph.y + glyph.height,
    }
}

/// The smallest box that holds the boxes of the first `count` glyphs, not
/// counting glyphs that cover no pixels; none where there is no such glyph.
pub open spec fn run_bounds(origin_x: int, origin_y: int, glyphs: Seq<Glyph>, count: nat) -> Option<
    Bounds,
>
    decreases count,
{
    if count == 0 {
        None
    } else {
        let before = run_bounds(origin_x, origin_y, glyphs, (count - 1) as nat);
        let glyph = glyphs[count - 1];
        if !has_box(glyph) {
            before
        } else {
            match before {
                Some(bounds) => Some(bounds.join(glyph_bounds(origin_x, origin_y, glyph))),
                None => Some(glyph_bounds(origin_x, origin_y, glyph)),
            }
        }
    }
}

/// The bytes of a pixmap after the box of each of the first `count` glyphs
/// has been drawn, in order, each a pixel outside the glyph's own box;
/// glyphs that cover no pixels get none.
pub open spec fn glyph_boxes_drawn(
    data: Seq<u8>,
    width: u32,
    origin_x: int,
    origin_y: int,
    glyphs: Seq<Glyph>,
    count: nat,
) -> Seq<u8>
    decreases count,
{
    if count == 0 {
        data
    } else {
        let before = glyph_boxes_drawn(data, width, origin_x, origin_y, glyphs, (count - 1) as nat);
        let glyph = glyphs[count - 1];
        if !has_box(glyph) {
            before
        } else {
            let bounds = glyph_bounds(origin_x, origin_y, glyph).grown();
            outlined(
                before,
                width,
                bounds.left,
                bounds.top,
                bounds.right,
                bounds.bottom,
                box_color(),
            )
        }
    }
}

/// The bytes of a pixmap after the box around all glyphs has been drawn, a
/// pixel outside the smallest box that holds them; unchanged where no glyph
/// covers any pixels.
pub open spec fn run_box_drawn(
    data: Seq<u8>,
    width: u32,
    origin_x: int,
    origin_y: int,
    glyphs: Seq<Glyph>,
) -> Seq<u8> {
    match run_bounds(origin_x, origin_y, glyphs, glyphs.len()) {
        Some(bounds) => outlined(
            data,
            width,
            bounds.grown().left,
            bounds.grown().top,
            bounds.grown().right,
            bounds.grown().bottom,
            box_color(),
        ),
        None => data,
    }
}

/// The bytes of a pixmap after a run of glyphs has been drawn with its
/// boxes: first the box around the run, then the box of each glyph, then
/// the glyphs themselves in `color`.
pub open spec fn text_with_boxes(
    data: Seq<u8>,
    width: u32,
    origin_x: int,
    origin_y: int,
    glyphs: Seq<Glyph>,
    color: Color,
) -> Seq<u8> {
    glyphs_painted(
        glyph_boxes_drawn(
            run_box_drawn(data, width, origin_x, origin_y, glyphs),
            width,
            origin_x,
            origin_y,
            glyphs,
            glyphs.len(),
        ),
        width,
        origin_x,
        origin_y,
        glyphs,
        color,
        glyphs.len(),
    )
}

/// The box of a glyph lies within what any glyph box can reach, and so does
/// the join of two such boxes.
proof fn lemma_bounds_in_reach(origin_x: u32, origin_y: u32, glyph: Glyph)
    ensures
        glyph_bounds(origin_x as int, origin_y as int, glyph).in_reach(),
        forall|a: Bounds, b: Bounds| a.in_reach() && b.in_reach() ==> (#[trigger] a.join(b)).in_reach(),
{
}

/// Finds the smallest box that holds all glyphs that cover any pixels.
pub fn bounds_of_run(origin_x: u32, origin_y: u32, glyphs: &Vec<Glyph>) -> (found: Option<
    PixelBox,
>)
    ensures
        found.is_some() == run_bounds(origin_x as int, origin_y as int, glyphs@, glyphs@.len())
            .is_some(),
        found matches Some(b) ==> Some(b.bounds()) == run_bounds(
            origin_x as int,
            origin_y as int,
            glyphs@,
            glyphs@.len(),
        ),
{
    let mut found: Option<PixelBox> = None;
    let mut i: usize = 0;
    while i < glyphs.len()
        invariant
            i <= glyphs@.len(),
            found.is_some() == run_bounds(origin_x as int, origin_y as int, glyphs@, i as nat)
                .is_some(),
            found matches Some(b) ==> Some(b.bounds()) == run_bounds(
                origin_x as int,
                origin_y as int,
                glyphs@,
                i as nat,
            ) && b.bounds().in_reach(),
        decreases glyphs@.len() - i,
    {
        let glyph = &glyphs[i];
        proof {
            lemma_bounds_in_reach(origin_x, origin_y, *glyph);
        }
        if glyph.width > 0 && glyph.height > 0 {
            let left: i64 = origin_x as i64 + glyph.x as i64;
            let top: i64 = origin_y as i64 + glyph.y as i64;
            let own = PixelBox {
                left,
                top,
                right: left + glyph.width as i64,
                bottom: top + glyph.height as i64,
            };
            found =
            match found {
                Some(b) => Some(
                    PixelBox {
                        left: if b.left <= own.left { b.left } else { own.left },
                        top: if b.top <= own.top { b.top } else { own.top },
                        right: if b.right >= own.right { b.right } else { own.right },
                        bottom: if b.bottom >= own.bottom { b.bottom } else { own.bottom },
                    },
                ),
                None => Some(own),
            };
        }
        i += 1;
    }
    found
}

/// Draws the box of each glyph that covers any pixels.
pub fn draw_glyph_boxes(
    pixmap: &mut tiny_skia::PixmapMut,
    origin_x: u32,
    origin_y: u32,
    glyphs: &Vec<Glyph>,
)
    ensures
        same_shape(*old(pixmap), *final(pixmap)),
        pixmap_data(*final(pixmap)) == glyph_boxes_drawn(
            pixmap_data(*old(pixmap)),
            pixmap_width(*old(pixmap)),
            origin_x as int,
            origin_y as int,
            glyphs@,
            glyphs@.len(),
        ),
{
    let mut i: usize = 0;
    while i < glyphs.len()
        invariant
            i <= glyphs@.len(),
            same_shape(*old(pixmap), *pixmap),
            pixmap_data(*pixmap) == glyph_boxes_drawn(
                pixmap_data(*old(pixmap)),
                pixmap_width(*old(pixmap)),
                origin_x as int,
                origin_y as int,
                glyphs@,
                i as nat,
            ),
        decreases glyphs@.len() - i,
    {
        let glyph = &glyphs[i];
        if glyph.width > 0 && glyph.height > 0 {
            let left: i64 = origin_x as i64 + glyph.x as i64;
            let top: i64 = origin_y as i64 + glyph.y as i64;
            outline(
                pixmap,
                left - 1,
                top - 1,
                left + glyph.width as i64 + 1,
                top + glyph.height as i64 + 1,
                Color::rgba(220, 220, 220, 255),
            );
        }
        i += 1;
    }
}

/// Draws a run of glyphs with its boxes: the box around the run, the box
/// of each glyph, and over them the glyphs in `color`.
pub fn render_text(
    pixmap: &mut tiny_skia::PixmapMut,
    origin_x: u32,
    origin_y: u32,
    glyphs: &Vec<Glyph>,
    color: Color,
)
    ensures
        same_shape(*old(pixmap), *final(pixmap)),
        pixmap_data(*final(pixmap)) == text_with_boxes(
            pixmap_data(*old(pixmap)),
            pixmap_width(*old(pixmap)),
            origin_x as int,
            origin_y as int,
            glyphs@,
            color,
        ),
{
    match bounds_of_run(origin_x, origin_y, glyphs) {
        Some(b) => {
            proof {
                lemma_run_in_reach(origin_x, origin_y, glyphs@, glyphs@.len());
            }
            outline(
                pixmap,
                b.left - 1,
                b.top - 1,
                b.right + 1,
                b.bottom + 1,
                Color::rgba(220, 220, 220, 255),
            );
        },
        None => {},
    }
    draw_glyph_boxes(pixmap, origin_x, origin_y, glyphs);
    paint_glyphs(pixmap, origin_x, origin_y, glyphs, color);
}

/// The box around a run lies within what any glyph box can reach.
proof fn lemma_run_in_reach(origin_x: u32, origin_y: u32, glyphs: Seq<Glyph>, count: nat)
    ensures
        run_bounds(origin_x as int, origin_y as int, glyphs, count) matches Some(b)
            ==> b.in_reach(),
    decreases count,
{
    if count > 0 {
        lemma_run_in_reach(origin_x, origin_y, glyphs, (count - 1) as nat);
        lemma_bounds_in_reach(origin_x, origin_y, glyphs[count - 1]);
    }
}

} // verus!
