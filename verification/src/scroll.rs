//! The scroll indicator: which part of the editor's height stands for the
//! lines that are on screen.

use vstd::prelude::*;

verus! {

/// A vertical span of the indicator bar, in pixels from the top of the
/// editor: it begins at `start_y` and ends before `end_y`.
#[derive(Clone, Copy, Debug, PartialEq, Eq, Structural)]
pub struct ScrollBar {
    pub start_y: u32,
    pub end_y: u32,
}

impl ScrollBar {
    pub open spec fn length(self) -> int {
        self.end_y - self.start_y
    }

    pub fn height(&self) -> (h: u32)
        requires
            self.start_y <= self.end_y,
        ensures
            h == self.length(),
    {
        self.end_y - self.start_y
    }
}

/// The row of an editor `height` pixels high that stands for `line` out of
/// `total` lines.
pub open spec fn indicator_edge(line: int, height: int, total: int) -> int {
    line * height / total
}

/// The indicator for lines `first_visible` to `last_visible` of `total`:
/// it spans from the row of the first to the row of the last, and there is
/// none where that span is empty.
pub open spec fn indicator_of(
    first_visible: int,
    last_visible: int,
    total: int,
    height: int,
) -> Option<ScrollBar> {
    let start = indicator_edge(first_visible, height, total);
    let end = indicator_edge(last_visible, height, total);
    if end > start {
        Some(ScrollBar { start_y: start as u32, end_y: end as u32 })
    } else {
        None
    }
}

/// The row of a line lies within the editor's height.
pub proof fn lemma_edge_within_height(line: int, height: int, total: int)
    requires
        0 <= line < total,
        0 <= height,
    ensures
        0 <= indicator_edge(line, height, total) <= height,
        line * height >= 0,
        height > 0 ==> indicator_edge(line, height, total) < height,
{
    assert(0 <= line * height / total <= height && line * height >= 0 && (height > 0 ==> line
        * height / total < height)) by (nonlinear_arith)
        requires
            0 <= line < total,
            0 <= height,
    ;
}

/// Computes the scroll indicator of an editor `height` pixels high that
/// shows lines `first_visible` to `last_visible` of `total_lines`.
pub fn scroll_indicator(
    first_visible: usize,
    last_visible: usize,
    total_lines: usize,
    height: u32,
) -> (bar: Option<ScrollBar>)
    requires
        first_visible < total_lines,
        last_visible < total_lines,
    ensures
        bar == indicator_of(
            first_visible as int,
            last_visible as int,
            total_lines as int,
            height as int,
        ),
        bar matches Some(b) ==> b.start_y < b.end_y < height,
{
    proof {
        lemma_edge_within_height(first_visible as int, height as int, total_lines as int);
        lemma_edge_within_height(last_visible as int, height as int, total_lines as int);
        assert(first_visible * height <= usize::MAX * u32::MAX) by (nonlinear_arith)
            requires
                0 <= first_visible <= usize::MAX,
                0 <= height <= u32::MAX,
        ;
        assert(last_visible * height <= usize::MAX * u32::MAX) by (nonlinear_arith)
            requires
                0 <= last_visible <= usize::MAX,
                0 <= height <= u32::MAX,
        ;
    }
    let start: u128 = (first_visible as u128) * (height as u128) / (total_lines as u128);
    let end: u128 = (last_visible as u128) * (height as u128) / (total_lines as u128);
    if end > start {
        Some(ScrollBar { start_y: start as u32, end_y: end as u32 })
    } else {
        None
    }
}

/// Where every line is on screen, from line zero to the last, there is no
/// indicator exactly when the last line's row is still row zero, that is
/// when `(total - 1) * height < total`; in a higher editor the indicator
/// spans from the top to the row of the last line. One line alone never
/// has an indicator.
pub proof fn lemma_indicator_when_all_visible(total: int, height: int)
    requires
        total >= 1,
        0 <= height <= u32::MAX,
    ensures
        indicator_of(0, total - 1, total, height) is None <==> (total - 1) * height < total,
        indicator_of(0, total - 1, total, height) matches Some(bar) ==> bar.start_y == 0
            && bar.end_y == indicator_edge(total - 1, height, total),
        total == 1 ==> indicator_of(0, total - 1, total, height) is None,
{
    lemma_edge_within_height(total - 1, height, total);
    let top = (total - 1) * height;
    assert(0 * height / total == 0) by (nonlinear_arith)
        requires
            total >= 1,
    ;
    assert(top / total == 0 <==> top < total) by (nonlinear_arith)
        requires
            total >= 1,
            top >= 0,
    ;
    assert(total == 1 ==> top == 0) by (nonlinear_arith)
        requires
            top == (total - 1) * height,
    ;
}

/// The rows between the first and the last line on screen are the share
/// `(last - first) / total` of the height, to within one pixel. There is an
/// indicator exactly when those rows are not an empty span, and then it is
/// as long as they are; this is so whenever the share of the height is a
/// pixel or more.
pub proof fn lemma_indicator_is_proportional(first: int, last: int, total: int, height: int)
    requires
        0 <= first <= last < total,
        0 <= height <= u32::MAX,
    ensures
        (last - first) * height / total <= indicator_edge(last, height, total) - indicator_edge(
            first,
            height,
            total,
        ) <= (last - first) * height / total + 1,
        indicator_of(first, last, total, height) is Some <==> indicator_edge(last, height, total)
            > indicator_edge(first, height, total),
        indicator_of(first, last, total, height) matches Some(bar) ==> bar.length()
            == indicator_edge(last, height, total) - indicator_edge(first, height, total)
            && bar.length() >= 1,
        (last - first) * height >= total ==> indicator_of(first, last, total, height) is Some,
{
    lemma_edge_within_height(first, height, total);
    lemma_edge_within_height(last, height, total);
    let a = last * height;
    let b = first * height;
    let d = (last - first) * height;
    assert(d == a - b && b <= a) by (nonlinear_arith)
        requires
            a == last * height,
            b == first * height,
            d == (last - first) * height,
            first <= last,
            height >= 0,
    ;
    lemma_floor_difference(a, b, total);
    if d >= total {
        assert(d / total >= 1) by (nonlinear_arith)
            requires
                d >= total,
                total > 0,
        ;
    }
}

/// The difference of two floors is the floor of the difference, or one more.
proof fn lemma_floor_difference(a: int, b: int, n: int)
    requires
        0 <= b <= a,
        n > 0,
    ensures
        (a - b) / n <= a / n - b / n <= (a - b) / n + 1,
{
    vstd::arithmetic::div_mod::lemma_fundamental_div_mod(a, n);
    vstd::arithmetic::div_mod::lemma_fundamental_div_mod(b, n);
    vstd::arithmetic::div_mod::lemma_fundamental_div_mod(a - b, n);
    let qa = a / n;
    let qb = b / n;
    let qd = (a - b) / n;
    let ra = a % n;
    let rb = b % n;
    let rd = (a - b) % n;
    assert(0 <= ra < n && 0 <= rb < n && 0 <= rd < n) by (nonlinear_arith)
        requires
            n > 0,
            ra == a % n,
            rb == b % n,
            rd == (a - b) % n,
    ;
    assert(qd <= qa - qb <= qd + 1) by (nonlinear_arith)
        requires
            a == n * qa + ra,
            b == n * qb + rb,
            a - b == n * qd + rd,
            0 <= ra < n,
            0 <= rb < n,
            0 <= rd < n,
            n > 0,
    ;
}

} // verus!
