//! What a font shaper hands back for the editor's text, and how it is put
//! on the pixmap.
//!
//! Shaping itself needs fonts and is done outside this library. Its result
//! comes in as plain values: the glyphs with their boxes and coverage, the
//! lines that are on screen, and the number of lines in all.

use vstd::prelude::*;
use crate::canvas::{paint, painted, pixmap_data, pixmap_width, same_shape, Color};

verus! {

/// The scale factor that stands for one physical pixel per logical pixel.
/// Scale factors are given in hundredths.
pub const SCALE_UNIT: u32 = 100;

/// `value` scaled by a factor in hundredths, rounded down, and held to what
/// a `u32` can take.
pub open spec fn scaled(value: u32, scale_factor: u32) -> u32 {
    if value * scale_factor / 100 > u32::MAX {
        u32::MAX
    } else {
        (value * scale_factor / 100) as u32
    }
}

pub fn scale(value: u32, scale_factor: u32) -> (r: u32)
    ensures
        r == scaled(value, scale_factor),
{
    assert(value * scale_factor <= u32::MAX * u32::MAX) by (nonlinear_arith)
        requires
            0 <= value <= u32::MAX,
            0 <= scale_factor <= u32::MAX,
    ;
    let exact: u64 = (value as u64) * (scale_factor as u64) / 100;
    if exact > u32::MAX as u64 {
        u32::MAX
    } else {
        exact as u32
    }
}

/// The size of the type, in pixels.
#[derive(Clone, Copy, Debug, PartialEq, Eq, Structural)]
pub struct Metrics {
    pub font_size: u32,
    pub line_height: u32,
}

impl Metrics {
    pub open spec fn scaled_by(self, scale_factor: u32) -> Metrics {
        Metrics {
            font_size: scaled(self.font_size, scale_factor),
            line_height: scaled(self.line_height, scale_factor),
        }
    }

    pub fn new(font_size: u32, line_height: u32) -> (m: Metrics)
        ensures
            m == (Metrics { font_size, line_height }),
    {
        Metrics { font_size, line_height }
    }

    /// The metrics at a scale factor given in hundredths.
    pub fn scale(self, scale_factor: u32) -> (m: Metrics)
        ensures
            m == self.scaled_by(scale_factor),
    {
        Metrics {
            font_size: scale(self.font_size, scale_factor),
            line_height: scale(self.line_height, scale_factor),
        }
    }
}

/// What a shaping was made for: the scaled metrics, the size of the
/// editor's rectangle, and the number of characters that the text had.
/// Text is only ever added, so the number of characters tells one state of
/// the text from every other.
#[derive(Clone, Copy, Debug, PartialEq, Eq, Structural)]
pub struct ShapeRequest {
    pub metrics: Metrics,
    pub width: u32,
    pub height: u32,
    pub text_len: usize,
}

/// One shaped glyph: its box, relative to the top left corner of the
/// editor, and the coverage of each pixel of the box, row after row.
#[derive(Clone, Debug)]
pub struct Glyph {
    pub id: u16,
    pub x: i32,
    pub y: i32,
    pub width: u32,
    pub height: u32,
    pub coverage: Vec<u8>,
}

impl Glyph {
    /// The coverage holds one value for each pixel of the box.
    pub open spec fn wf(self) -> bool {
        self.coverage@.len() == self.width * self.height
    }

    pub fn is_wf(&self) -> (ok: bool)
        ensures
            ok == self.wf(),
    {
        assert(self.width * self.height <= u32::MAX * u32::MAX) by (nonlinear_arith)
            requires
                0 <= self.width <= u32::MAX,
                0 <= self.height <= u32::MAX,
        ;
        (self.width as u64) * (self.height as u64) == self.coverage.len() as u64
    }
}

/// One laid-out line on screen: the line of the text that it shows a part
/// of, and the row of its baseline.
#[derive(Clone, Copy, Debug, PartialEq, Eq, Structural)]
pub struct LineRun {
    pub line_i: usize,
    pub baseline_y: i32,
}

/// The result of shaping the editor's text.
#[derive(Clone, Debug)]
pub struct ShapedText {
    pub glyphs: Vec<Glyph>,
    pub runs: Vec<LineRun>,
    pub total_lines: usize,
}

impl ShapedText {
    /// There is at least one line, every run names a line that exists, and
    /// every glyph is well formed.
    pub open spec fn wf(self) -> bool {
        &&& self.total_lines > 0
        &&& forall|i: int| 0 <= i < self.glyphs@.len() ==> (#[trigger] self.glyphs@[i]).wf()
        &&& forall|i: int|
            0 <= i < self.runs@.len() ==> (#[trigger] self.runs@[i]).line_i < self.total_lines
    }

    /// The first line on screen; line zero where nothing is on screen.
    pub open spec fn first_visible(self) -> usize {
        if self.runs@.len() == 0 {
            0
        } else {
            self.runs@[0].line_i
        }
    }

    /// The last line on screen; line zero where nothing is on screen.
    pub open spec fn last_visible(self) -> usize {
        if self.runs@.len() == 0 {
            0
        } else {
            self.runs@.last().line_i
        }
    }

    pub fn is_wf(&self) -> (ok: bool)
        ensures
            ok == self.wf(),
    {
        if self.total_lines == 0 {
            return false;
        }
        let mut i: usize = 0;
        while i < self.glyphs.len()
            invariant
                i <= self.glyphs@.len(),
                forall|k: int| 0 <= k < i ==> (#[trigger] self.glyphs@[k]).wf(),
            decreases self.glyphs@.len() - i,
        {
            if !self.glyphs[i].is_wf() {
                return false;
            }
            i += 1;
        }
        let mut j: usize = 0;
        while j < self.runs.len()
            invariant
                j <= self.runs@.len(),
                forall|k: int| 0 <= k < j ==> (#[trigger] self.runs@[k]).line_i < self.total_lines,
            decreases self.runs@.len() - j,
        {
            if self.runs[j].line_i >= self.total_lines {
                return false;
            }
            j += 1;
        }
        true
    }

    pub fn first_visible_line(&self) -> (line: usize)
        ensures
            line == self.first_visible(),
    {
        if self.runs.len() == 0 {
            0
        } else {
            self.runs[0].line_i
        }
    }

    pub fn last_visible_line(&self) -> (line: usize)
        ensures
            line == self.last_visible(),
    {
        let n = self.runs.len();
        if n == 0 {
            0
        } else {
            self.runs[n - 1].line_i
        }
    }
}

/// The colour of one pixel of a glyph: the text colour with the pixel's
/// coverage for its alpha.
pub open spec fn covered(color: Color, coverage: u8) -> Color {
    Color { red: color.red, green: color.green, blue: color.blue, alpha: coverage }
}

/// The bytes of a pixmap after pixel `i` of a glyph has been put on it:
/// unchanged where the pixel is not covered, else painted with the text
/// colour at the pixel's coverage. `(origin_x, origin_y)` is the corner that
/// the glyph's box is relative to.
pub open spec fn pixel_painted(
    data: Seq<u8>,
    width: u32,
    origin_x: int,
    origin_y: int,
    glyph: Glyph,
    color: Color,
    i: int,
) -> Seq<u8> {
    if glyph.coverage@[i] == 0 {
        data
    } else {
        painted(
            data,
            width,
            origin_x + glyph.x + i % (glyph.width as int),
            origin_y + glyph.y + i / (glyph.width as int),
            1,
            1,
            covered(color, glyph.coverage@[i]),
        )
    }
}

/// The bytes of a pixmap after the first `count` pixels of a glyph have
/// been put on it, in order.
pub open spec fn glyph_painted(
    data: Seq<u8>,
    width: u32,
    origin_x: int,
    origin_y: int,
    glyph: Glyph,
    color: Color,
    count: nat,
) -> Seq<u8>
    decreases count,
{
    if count == 0 {
        data
    } else {
        pixel_painted(
            glyph_painted(data, width, origin_x, origin_y, glyph, color, (count - 1) as nat),
            width,
            origin_x,
            origin_y,
            glyph,
            color,
            count - 1,
        )
    }
}

/// The bytes of a pixmap after a glyph has been put on it with all its
/// pixels. A glyph whose coverage does not fit its box is left out.
pub open spec fn glyph_drawn(
    data: Seq<u8>,
    width: u32,
    origin_x: int,
    origin_y: int,
    glyph: Glyph,
    color: Color,
) -> Seq<u8> {
    if glyph.wf() {
        glyph_painted(data, width, origin_x, origin_y, glyph, color, glyph.coverage@.len())
    } else {
        data
    }
}

/// The bytes of a pixmap after the first `count` glyphs have been put on
/// it, in order.
pub open spec fn glyphs_painted(
    data: Seq<u8>,
    width: u32,
    origin_x: int,
    origin_y: int,
    glyphs: Seq<Glyph>,
    color: Color,
    count: nat,
) -> Seq<u8>
    decreases count,
{
    if count == 0 {
        data
    } else {
        glyph_drawn(
            glyphs_painted(data, width, origin_x, origin_y, glyphs, color, (count - 1) as nat),
            width,
            origin_x,
            origin_y,
            glyphs[count - 1],
            color,
        )
    }
}

/// Puts one glyph on the pixmap: each covered pixel of its box in `color`
/// at the pixel's coverage. A glyph whose coverage does not fit its box is
/// left out.
pub fn paint_glyph(
    pixmap: &mut tiny_skia::PixmapMut,
    origin_x: u32,
    origin_y: u32,
    glyph: &Glyph,
    color: Color,
)
    ensures
        same_shape(*old(pixmap), *final(pixmap)),
        pixmap_data(*final(pixmap)) == glyph_drawn(
            pixmap_data(*old(pixmap)),
            pixmap_width(*old(pixmap)),
            origin_x as int,
            origin_y as int,
            *glyph,
            color,
        ),
{
    if !glyph.is_wf() {
        return ;
    }
    let count = glyph.coverage.len();
    let mut i: usize = 0;
    while i < count
        invariant
            glyph.wf(),
            count == glyph.coverage@.len(),
            i <= count,
            same_shape(*old(pixmap), *pixmap),
            pixmap_data(*pixmap) == glyph_painted(
                pixmap_data(*old(pixmap)),
                pixmap_width(*old(pixmap)),
                origin_x as int,
                origin_y as int,
                *glyph,
                color,
                i as nat,
            ),
        decreases count - i,
    {
        let coverage = glyph.coverage[i];
        if coverage != 0 {
            proof {
                let w = glyph.width as int;
                let h = glyph.height as int;
                let k = i as int;
                assert(w > 0 && k / w < h && 0 <= k % w < w && 0 <= k / w) by (nonlinear_arith)
                    requires
                        0 <= k < w * h,
                        0 <= w,
                        0 <= h,
                ;
            }
            let column: usize = i % (glyph.width as usize);
            let row: usize = i / (glyph.width as usize);
            let x: i64 = origin_x as i64 + glyph.x as i64 + column as i64;
            let y: i64 = origin_y as i64 + glyph.y as i64 + row as i64;
            paint(
                pixmap,
                x,
                y,
                1,
                1,
                Color { red: color.red, green: color.green, blue: color.blue, alpha: coverage },
            );
        }
        i += 1;
    }
}

/// Puts all glyphs on the pixmap, in order.
pub fn paint_glyphs(
    pixmap: &mut tiny_skia::PixmapMut,
    origin_x: u32,
    origin_y: u32,
    glyphs: &Vec<Glyph>,
    color: Color,
)
    ensures
        same_shape(*old(pixmap), *final(pixmap)),
        pixmap_data(*final(pixmap)) == glyphs_painted(
            pixmap_data(*old(pixmap)),
            pixmap_width(*old(pixmap)),
            origin_x as int,
            origin_y as int,
            glyphs@,
            color,
            glyphs@.len(),
        ),
{
    let mut i: usize = 0;
    while i < glyphs.len()
        invariant
            i <= glyphs@.len(),
            same_shape(*old(pixmap), *pixmap),
            pixmap_data(*pixmap) == glyphs_painted(
                pixmap_data(*old(pixmap)),
                pixmap_width(*old(pixmap)),
                origin_x as int,
                origin_y as int,
                glyphs@,
                color,
                i as nat,
            ),
        decreases glyphs@.len() - i,
    {
        paint_glyph(pixmap, origin_x, origin_y, &glyphs[i], color);
        i += 1;
    }
}

} // verus!
