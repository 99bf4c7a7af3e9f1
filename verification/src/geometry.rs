//! Pixel rectangles and the points they hold.

use vstd::prelude::*;

verus! {

/// An axis-aligned rectangle of pixels.
///
/// The rectangle holds the points `(px, py)` with `x <= px < x + width` and
/// `y <= py < y + height`: its left and top edges belong to it, its right and
/// bottom edges do not.
#[derive(Clone, Copy, Debug, PartialEq, Eq, Structural)]
pub struct Rect {
    pub x: u32,
    pub y: u32,
    pub width: u32,
    pub height: u32,
}

impl Rect {
    /// The first column to the right of the rectangle.
    pub open spec fn right(self) -> int {
        self.x + self.width
    }

    /// The first row below the rectangle.
    pub open spec fn bottom(self) -> int {
        self.y + self.height
    }

    /// Whether the point `(px, py)` lies in the rectangle.
    pub open spec fn holds(self, px: int, py: int) -> bool {
        self.x <= px < self.right() && self.y <= py < self.bottom()
    }

    /// Whether the rectangle holds no point at all.
    pub open spec fn is_empty(self) -> bool {
        self.width == 0 || self.height == 0
    }

    /// Whether some point lies in both rectangles.
    pub open spec fn overlaps(self, other: Rect) -> bool {
        exists|px: int, py: int| #[trigger] self.holds(px, py) && other.holds(px, py)
    }

    /// The number of points in the rectangle.
    pub open spec fn area(self) -> int {
        self.width * self.height
    }

    pub fn new(x: u32, y: u32, width: u32, height: u32) -> (r: Rect)
        ensures
            r == (Rect { x, y, width, height }),
    {
        Rect { x, y, width, height }
    }

    /// The rectangle of a whole surface of the given size.
    pub fn of_size(width: u32, height: u32) -> (r: Rect)
        ensures
            r == (Rect { x: 0, y: 0, width, height }),
    {
        Rect { x: 0, y: 0, width, height }
    }

    /// Tests a point against the rectangle.
    pub fn contains(&self, px: i32, py: i32) -> (inside: bool)
        ensures
            inside == self.holds(px as int, py as int),
    {
        let px: i64 = px as i64;
        let py: i64 = py as i64;
        let left: i64 = self.x as i64;
        let top: i64 = self.y as i64;
        let right: i64 = left + self.width as i64;
        let bottom: i64 = top + self.height as i64;
        left <= px && px < right && top <= py && py < bottom
    }

    pub fn empty(&self) -> (e: bool)
        ensures
            e == self.is_empty(),
    {
        self.width == 0 || self.height == 0
    }

    /// Tests whether two rectangles share a point.
    pub fn intersects(&self, other: &Rect) -> (shared: bool)
        ensures
            shared == self.overlaps(*other),
    {
        proof {
            lemma_overlap_by_edges(*self, *other);
        }
        !self.empty() && !other.empty() && (self.x as u64) < other.x as u64 + other.width as u64
            && (other.x as u64) < self.x as u64 + self.width as u64 && (self.y as u64)
            < other.y as u64 + other.height as u64 && (other.y as u64) < self.y as u64
            + self.height as u64
    }
}

/// Two rectangles overlap exactly when both hold a point and each begins
/// before the other ends, on both axes.
pub proof fn lemma_overlap_by_edges(a: Rect, b: Rect)
    ensures
        a.overlaps(b) <==> (!a.is_empty() && !b.is_empty() && a.x < b.right() && b.x < a.right()
            && a.y < b.bottom() && b.y < a.bottom()),
{
    if !a.is_empty() && !b.is_empty() && a.x < b.right() && b.x < a.right() && a.y < b.bottom()
        && b.y < a.bottom() {
        let px: int = if a.x >= b.x { a.x as int } else { b.x as int };
        let py: int = if a.y >= b.y { a.y as int } else { b.y as int };
        assert(a.holds(px, py) && b.holds(px, py));
    }
}

} // verus!
