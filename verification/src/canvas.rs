//! Painting onto a pixmap of premultiplied RGBA pixels.
//!
//! The pixmap and the rasteriser are tiny-skia's. This module declares the
//! pixmap type, names what it holds, and wraps the two drawing calls that
//! the regions use. What the calls do to the pixels is not spelled out here:
//! it is named by [`fill_rect_bytes`] and [`stroke_rect_bytes`], and every
//! painting contract of the crate is stated over those names.

use vstd::prelude::*;
use crate::geometry::Rect;

verus! {

/// `tiny_skia::PixmapMut`: a borrowed buffer of premultiplied RGBA pixels
/// with a width and a height. Nothing is known of a value of it but what
/// [`pixmap_data`] and [`pixmap_width`] name.
#[verifier::external_type_specification]
#[verifier::external_body]
pub struct ExPixmapMut<'a>(tiny_skia::PixmapMut<'a>);

/// A colour with straight (not premultiplied) alpha.
#[derive(Clone, Copy, Debug, PartialEq, Eq, Structural)]
pub struct Color {
    pub red: u8,
    pub green: u8,
    pub blue: u8,
    pub alpha: u8,
}

impl Color {
    pub fn rgba(red: u8, green: u8, blue: u8, alpha: u8) -> (color: Color)
        ensures
            color == (Color { red, green, blue, alpha }),
    {
        Color { red, green, blue, alpha }
    }
}

/// The bytes of a pixmap: four for each pixel, row after row.
pub uninterp spec fn pixmap_data(pixmap: tiny_skia::PixmapMut) -> Seq<u8>;

/// The number of pixels in one row of a pixmap.
pub uninterp spec fn pixmap_width(pixmap: tiny_skia::PixmapMut) -> u32;

/// The bytes of a pixmap of the given row width after
/// `tiny_skia::PixmapMut::fill_rect` has filled the rectangle at `(x, y)` of
/// size `w` by `h` with a plain colour, without anti-aliasing, transform or
/// mask, blending source over destination.
pub uninterp spec fn fill_rect_bytes(
    data: Seq<u8>,
    width: u32,
    x: i32,
    y: i32,
    w: u32,
    h: u32,
    red: u8,
    green: u8,
    blue: u8,
    alpha: u8,
) -> Seq<u8>;

/// Calls `tiny_skia::PixmapMut::fill_rect` with the rectangle that
/// `tiny_skia::IntRect::from_xywh` makes of the arguments, a paint of the
/// given colour with anti-aliasing off, the identity transform and no mask.
///
/// Trusted: the pixmap keeps its row width and its number of bytes, and its
/// bytes afterwards are a function of its bytes and row width before and of
/// the arguments.
#[verifier::external_body]
fn fill_rect(
    pixmap: &mut tiny_skia::PixmapMut,
    x: i32,
    y: i32,
    w: u32,
    h: u32,
    red: u8,
    green: u8,
    blue: u8,
    alpha: u8,
)
    requires
        x >= 0,
        y >= 0,
        w > 0,
        h > 0,
        x + w <= i32::MAX,
        y + h <= i32::MAX,
    ensures
        pixmap_width(*final(pixmap)) == pixmap_width(*old(pixmap)),
        pixmap_data(*final(pixmap)).len() == pixmap_data(*old(pixmap)).len(),
        pixmap_data(*final(pixmap)) == fill_rect_bytes(
            pixmap_data(*old(pixmap)),
            pixmap_width(*old(pixmap)),
            x,
            y,
            w,
            h,
            red,
            green,
            blue,
            alpha,
        ),
{
    if let Some(rect) = tiny_skia::IntRect::from_xywh(x, y, w, h) {
        let mut paint = tiny_skia::Paint::default();
        paint.set_color_rgba8(red, green, blue, alpha);
        paint.anti_alias = false;
        pixmap.fill_rect(rect.to_rect(), &paint, tiny_skia::Transform::identity(), None);
    }
}

/// The bytes of a pixmap of the given row width after
/// `tiny_skia::PixmapMut::stroke_path` has stroked the outline of the
/// rectangle at `(x, y)` of size `w` by `h` with a plain colour and the
/// default stroke, one pixel wide, without transform or mask, blending
/// source over destination.
pub uninterp spec fn stroke_rect_bytes(
    data: Seq<u8>,
    width: u32,
    x: i32,
    y: i32,
    w: u32,
    h: u32,
    red: u8,
    green: u8,
    blue: u8,
    alpha: u8,
) -> Seq<u8>;

/// Calls `tiny_skia::PixmapMut::stroke_path` with the closed path that
/// `tiny_skia::PathBuilder::from_rect` makes of the rectangle, a paint of
/// the given colour, the default stroke, the identity transform and no mask.
///
/// Trusted: the pixmap keeps its row width and its number of bytes, and its
/// bytes afterwards are a function of its bytes and row width before and of
/// the arguments.
#[verifier::external_body]
fn stroke_rect(
    pixmap: &mut tiny_skia::PixmapMut,
    x: i32,
    y: i32,
    w: u32,
    h: u32,
    red: u8,
    green: u8,
    blue: u8,
    alpha: u8,
)
    requires
        0 < w <= i32::MAX,
        0 < h <= i32::MAX,
        x + w <= i32::MAX,
        y + h <= i32::MAX,
    ensures
        pixmap_width(*final(pixmap)) == pixmap_width(*old(pixmap)),
        pixmap_data(*final(pixmap)).len() == pixmap_data(*old(pixmap)).len(),
        pixmap_data(*final(pixmap)) == stroke_rect_bytes(
            pixmap_data(*old(pixmap)),
            pixmap_width(*old(pixmap)),
            x,
            y,
            w,
            h,
            red,
            green,
            blue,
            alpha,
        ),
{
    if let Some(rect) = tiny_skia::IntRect::from_xywh(x, y, w, h) {
        let mut paint = tiny_skia::Paint::default();
        paint.set_color_rgba8(red, green, blue, alpha);
        let path = tiny_skia::PathBuilder::from_rect(rect.to_rect());
        let stroke = tiny_skia::Stroke::default();
        pixmap.stroke_path(&path, &paint, &stroke, tiny_skia::Transform::identity(), None);
    }
}

/// The first coordinate of the part of a span from `start` on that can lie
/// on a pixmap: pixels have no coordinates below zero.
pub open spec fn clip_start(start: int) -> int {
    if start < 0 {
        0
    } else {
        start
    }
}

/// The length of the part of the span that starts at `start` and is
/// `length` long which can lie on a pixmap: what is left of it between zero
/// and the largest coordinate that the rasteriser takes. It is zero or less
/// where nothing is left.
pub open spec fn clip_length(start: int, length: int) -> int {
    if start + length > i32::MAX {
        i32::MAX - clip_start(start)
    } else {
        start + length - clip_start(start)
    }
}

/// The bytes of a pixmap after a rectangle has been painted onto it.
///
/// The rectangle is first cut down to the coordinates that a pixmap can
/// have and the rasteriser takes. Where nothing of it is left the bytes stay
/// as they are; else they are what the rasteriser makes of them.
pub open spec fn painted(
    data: Seq<u8>,
    width: u32,
    x: int,
    y: int,
    w: int,
    h: int,
    color: Color,
) -> Seq<u8> {
    if clip_length(x, w) > 0 && clip_length(y, h) > 0 {
        fill_rect_bytes(
            data,
            width,
            clip_start(x) as i32,
            clip_start(y) as i32,
            clip_length(x, w) as u32,
            clip_length(y, h) as u32,
            color.red,
            color.green,
            color.blue,
            color.alpha,
        )
    } else {
        data
    }
}

/// Whether two pixmaps have the same row width and the same number of
/// bytes, as a pixmap has before and after it is painted on.
pub open spec fn same_shape(before: tiny_skia::PixmapMut, after: tiny_skia::PixmapMut) -> bool {
    pixmap_width(after) == pixmap_width(before) && pixmap_data(after).len() == pixmap_data(
        before,
    ).len()
}

fn clip(start: i64, length: u32) -> (span: Option<(i32, u32)>)
    ensures
        span.is_some() == (clip_length(start as int, length as int) > 0),
        span matches Some((s, l)) ==> s == clip_start(start as int) && l == clip_length(
            start as int,
            length as int,
        ),
{
    let high: i64 = i32::MAX as i64;
    if start > high {
        return None;
    }
    if start < -(length as i64) {
        return None;
    }
    let first: i64 = if start < 0 { 0 } else { start };
    let end: i64 = if start + length as i64 > high { high } else { start + length as i64 };
    if end <= first {
        None
    } else {
        Some((first as i32, (end - first) as u32))
    }
}

/// Paints the rectangle at `(x, y)` of size `w` by `h` in `color`.
pub fn paint(pixmap: &mut tiny_skia::PixmapMut, x: i64, y: i64, w: u32, h: u32, color: Color)
    ensures
        same_shape(*old(pixmap), *final(pixmap)),
        pixmap_data(*final(pixmap)) == painted(
            pixmap_data(*old(pixmap)),
            pixmap_width(*old(pixmap)),
            x as int,
            y as int,
            w as int,
            h as int,
            color,
        ),
{
    let columns = clip(x, w);
    let rows = clip(y, h);
    match (columns, rows) {
        (Some((left, width)), Some((top, height))) => {
            fill_rect(
                pixmap,
                left,
                top,
                width,
                height,
                color.red,
                color.green,
                color.blue,
                color.alpha,
            );
        },
        _ => {},
    }
}

/// Whether the rasteriser can take the box from `(left, top)` to
/// `(right, bottom)` as it stands: it holds a pixel, and its corners and
/// its size are numbers that the rasteriser takes.
pub open spec fn drawable(left: int, top: int, right: int, bottom: int) -> bool {
    &&& i32::MIN <= left < right <= i32::MAX
    &&& i32::MIN <= top < bottom <= i32::MAX
    &&& right - left <= i32::MAX
    &&& bottom - top <= i32::MAX
}

/// The bytes of a pixmap after the outline of the box from `(left, top)` to
/// `(right, bottom)` has been drawn onto it: what the rasteriser makes of
/// them where it can take the box, else the bytes as they are.
pub open spec fn outlined(
    data: Seq<u8>,
    width: u32,
    left: int,
    top: int,
    right: int,
    bottom: int,
    color: Color,
) -> Seq<u8> {
    if drawable(left, top, right, bottom) {
        stroke_rect_bytes(
            data,
            width,
            left as i32,
            top as i32,
            (right - left) as u32,
            (bottom - top) as u32,
            color.red,
            color.green,
            color.blue,
            color.alpha,
        )
    } else {
        data
    }
}

/// Draws the outline of the box from `(left, top)` to `(right, bottom)`,
/// one pixel wide, in `color`.
pub fn outline(
    pixmap: &mut tiny_skia::PixmapMut,
    left: i64,
    top: i64,
    right: i64,
    bottom: i64,
    color: Color,
)
    ensures
        same_shape(*old(pixmap), *final(pixmap)),
        pixmap_data(*final(pixmap)) == outlined(
            pixmap_data(*old(pixmap)),
            pixmap_width(*old(pixmap)),
            left as int,
            top as int,
            right as int,
            bottom as int,
            color,
        ),
{
    let low: i64 = i32::MIN as i64;
    let high: i64 = i32::MAX as i64;
    if low <= left && left < right && right <= high && low <= top && top < bottom && bottom
        <= high && right - left <= high && bottom - top <= high {
        stroke_rect(
            pixmap,
            left as i32,
            top as i32,
            (right - left) as u32,
            (bottom - top) as u32,
            color.red,
            color.green,
            color.blue,
            color.alpha,
        );
    }
}

/// Paints a rectangle of the layout in `color`.
pub fn paint_rect(pixmap: &mut tiny_skia::PixmapMut, rect: Rect, color: Color)
    ensures
        same_shape(*old(pixmap), *final(pixmap)),
        pixmap_data(*final(pixmap)) == painted(
            pixmap_data(*old(pixmap)),
            pixmap_width(*old(pixmap)),
            rect.x as int,
            rect.y as int,
            rect.width as int,
            rect.height as int,
            color,
        ),
{
    paint(pixmap, rect.x as i64, rect.y as i64, rect.width, rect.height, color);
}

} // verus!
