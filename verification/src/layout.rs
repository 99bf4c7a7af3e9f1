//! The fixed grid of the window: a navigation column, the editor beside it
//! and a status row below both.

use vstd::prelude::*;
use crate::geometry::Rect;

verus! {

/// Width of the navigation column, the only fixed column of the grid.
pub const NAV_BAR_WIDTH: u32 = 200;

/// Height of the status row, the only fixed row of the grid.
pub const STATUS_BAR_HEIGHT: u32 = 36;

/// The three regions of the window.
#[derive(Clone, Copy, Debug, PartialEq, Eq, Structural)]
pub enum Section {
    NavBar,
    Editor,
    StatusBar,
}

/// The rectangles of the three regions, resolved for one viewport.
#[derive(Clone, Copy, Debug, PartialEq, Eq, Structural)]
pub struct Layout {
    pub nav_bar: Rect,
    pub editor: Rect,
    pub status_bar: Rect,
}

/// A viewport dimension as the grid uses it: zero counts as one.
pub open spec fn clamped(dimension: u32) -> u32 {
    if dimension == 0 {
        1
    } else {
        dimension
    }
}

/// What is left of `available` once a fixed track of size `fixed` is taken.
pub open spec fn remaining(available: u32, fixed: u32) -> u32 {
    if available >= fixed {
        (available - fixed) as u32
    } else {
        0
    }
}

/// The layout of a viewport.
///
/// The navigation column and the status row keep their fixed sizes; the
/// editor column and the upper row take what is left, which is nothing when
/// the viewport is smaller than the fixed tracks. The status row spans both
/// columns.
pub open spec fn layout_of(width: u32, height: u32) -> Layout {
    let columns = remaining(clamped(width), NAV_BAR_WIDTH);
    let rows = remaining(clamped(height), STATUS_BAR_HEIGHT);
    Layout {
        nav_bar: Rect { x: 0, y: 0, width: NAV_BAR_WIDTH, height: rows },
        editor: Rect { x: NAV_BAR_WIDTH, y: 0, width: columns, height: rows },
        status_bar: Rect {
            x: 0,
            y: rows,
            width: (NAV_BAR_WIDTH + columns) as u32,
            height: STATUS_BAR_HEIGHT,
        },
    }
}

/// The rectangle of the viewport itself.
pub open spec fn viewport_of(width: u32, height: u32) -> Rect {
    Rect { x: 0, y: 0, width: clamped(width), height: clamped(height) }
}

impl Layout {
    /// The rectangle of one region.
    pub open spec fn rect_of(self, section: Section) -> Rect {
        match section {
            Section::NavBar => self.nav_bar,
            Section::Editor => self.editor,
            Section::StatusBar => self.status_bar,
        }
    }

    /// The region that a pointer at `(px, py)` is over: the editor if its
    /// rectangle holds the point, else the navigation bar, else the status
    /// bar, else none.
    pub open spec fn region_at(self, px: int, py: int) -> Option<Section> {
        if self.editor.holds(px, py) {
            Some(Section::Editor)
        } else if self.nav_bar.holds(px, py) {
            Some(Section::NavBar)
        } else if self.status_bar.holds(px, py) {
            Some(Section::StatusBar)
        } else {
            None
        }
    }

    /// Resolves the grid for a viewport of the given size.
    pub fn resolve(width: u32, height: u32) -> (layout: Layout)
        ensures
            layout == layout_of(width, height),
    {
        let width: u32 = if width == 0 { 1 } else { width };
        let height: u32 = if height == 0 { 1 } else { height };
        let columns: u32 = if width >= NAV_BAR_WIDTH { width - NAV_BAR_WIDTH } else { 0 };
        let rows: u32 = if height >= STATUS_BAR_HEIGHT { height - STATUS_BAR_HEIGHT } else { 0 };
        Layout {
            nav_bar: Rect { x: 0, y: 0, width: NAV_BAR_WIDTH, height: rows },
            editor: Rect { x: NAV_BAR_WIDTH, y: 0, width: columns, height: rows },
            status_bar: Rect {
                x: 0,
                y: rows,
                width: NAV_BAR_WIDTH + columns,
                height: STATUS_BAR_HEIGHT,
            },
        }
    }

    /// The rectangle of one region.
    pub fn rect(&self, section: Section) -> (r: Rect)
        ensures
            r == self.rect_of(section),
    {
        match section {
            Section::NavBar => self.nav_bar,
            Section::Editor => self.editor,
            Section::StatusBar => self.status_bar,
        }
    }

    /// Finds the region under a pointer position.
    pub fn hit_test(&self, px: i32, py: i32) -> (hit: Option<Section>)
        ensures
            hit == self.region_at(px as int, py as int),
    {
        if self.editor.contains(px, py) {
            Some(Section::Editor)
        } else if self.nav_bar.contains(px, py) {
            Some(Section::NavBar)
        } else if self.status_bar.contains(px, py) {
            Some(Section::StatusBar)
        } else {
            None
        }
    }
}

/// In a viewport at least as large as the fixed tracks, no two regions share
/// a point and the regions together hold exactly the points of the viewport.
pub proof fn lemma_layout_tiles_viewport(width: u32, height: u32)
    requires
        width >= NAV_BAR_WIDTH,
        height >= STATUS_BAR_HEIGHT,
    ensures
        !layout_of(width, height).nav_bar.overlaps(layout_of(width, height).editor),
        !layout_of(width, height).nav_bar.overlaps(layout_of(width, height).status_bar),
        !layout_of(width, height).editor.overlaps(layout_of(width, height).status_bar),
        forall|px: int, py: int|
            #![trigger viewport_of(width, height).holds(px, py)]
            viewport_of(width, height).holds(px, py) <==> (layout_of(width, height).nav_bar.holds(
                px,
                py,
            ) || layout_of(width, height).editor.holds(px, py) || layout_of(
                width,
                height,
            ).status_bar.holds(px, py)),
        layout_of(width, height).nav_bar.area() + layout_of(width, height).editor.area()
            + layout_of(width, height).status_bar.area() == viewport_of(width, height).area(),
{
    let l = layout_of(width, height);
    let rows = remaining(clamped(height), STATUS_BAR_HEIGHT) as int;
    let columns = remaining(clamped(width), NAV_BAR_WIDTH) as int;
    assert(l.nav_bar.area() + l.editor.area() + l.status_bar.area() == viewport_of(
        width,
        height,
    ).area()) by (nonlinear_arith)
        requires
            l.nav_bar.area() == 200 * rows,
            l.editor.area() == columns * rows,
            l.status_bar.area() == (200 + columns) * 36,
            viewport_of(width, height).area() == (200 + columns) * (rows + 36),
    ;
}

/// In every viewport, however small, the regions stay apart, they cover the
/// viewport, and no region reaches past the larger of the viewport and the
/// fixed tracks.
pub proof fn lemma_layout_degrades(width: u32, height: u32)
    ensures
        !layout_of(width, height).nav_bar.overlaps(layout_of(width, height).editor),
        !layout_of(width, height).nav_bar.overlaps(layout_of(width, height).status_bar),
        !layout_of(width, height).editor.overlaps(layout_of(width, height).status_bar),
        forall|px: int, py: int|
            #![trigger viewport_of(width, height).holds(px, py)]
            viewport_of(width, height).holds(px, py) ==> layout_of(width, height).region_at(
                px,
                py,
            ).is_some(),
        forall|section: Section|
            #![trigger layout_of(width, height).rect_of(section)]
            layout_of(width, height).rect_of(section).right() <= vstd::math::max(
                width as int,
                NAV_BAR_WIDTH as int,
            ) && layout_of(width, height).rect_of(section).bottom() <= vstd::math::max(
                height as int,
                STATUS_BAR_HEIGHT as int,
            ),
        width < NAV_BAR_WIDTH ==> layout_of(width, height).editor.is_empty(),
        height < STATUS_BAR_HEIGHT ==> layout_of(width, height).editor.is_empty() && layout_of(
            width,
            height,
        ).nav_bar.is_empty(),
{
}

/// Every pointer position belongs to at most one region, and `region_at`
/// names the region that holds it; inside a viewport at least as large as the
/// fixed tracks it belongs to exactly one. A position on an edge shared by
/// two regions belongs to the region that begins there.
pub proof fn lemma_hit_is_unique(width: u32, height: u32, px: int, py: int)
    ensures
        forall|section: Section|
            #![trigger layout_of(width, height).rect_of(section)]
            layout_of(width, height).rect_of(section).holds(px, py) <==> layout_of(
                width,
                height,
            ).region_at(px, py) == Some(section),
        width >= NAV_BAR_WIDTH && height >= STATUS_BAR_HEIGHT ==> (layout_of(
            width,
            height,
        ).region_at(px, py).is_some() <==> viewport_of(width, height).holds(px, py)),
{
}

} // verus!
