use exalted::geometry::Rect;
use exalted::layout::Layout;
use taffy::prelude::{length, percent, Display, Size, Style, TaffyTree};
use taffy::style_helpers::{TaffyGridLine, TaffyGridSpan};
use taffy::{GridPlacement, Line};

fn at(index: i16) -> Line<GridPlacement> {
    Line::from_line_index(index)
}

fn across(tracks: u16) -> Line<GridPlacement> {
    Line::from_span(tracks)
}

/// The same grid, resolved by a general grid solver: two rows, the first
/// sized to what is left and the second 36 high; two columns, the first 200
/// wide and the second sized to what is left; the third child spans both
/// columns of the second row.
fn solved(width: u32, height: u32) -> Layout {
    let mut tree: TaffyTree<()> = TaffyTree::new();
    let nav_bar = tree
        .new_leaf(Style { grid_row: at(1), grid_column: at(1), ..Default::default() })
        .unwrap();
    let editor = tree
        .new_leaf(Style { grid_row: at(1), grid_column: at(2), ..Default::default() })
        .unwrap();
    let status_bar = tree
        .new_leaf(Style { grid_row: at(2), grid_column: across(2), ..Default::default() })
        .unwrap();
    let root = tree
        .new_with_children(
            Style {
                display: Display::Grid,
                size: Size { width: percent(100.0), height: percent(100.0) },
                grid_template_rows: vec![taffy::prelude::auto(), length(36.0)],
                grid_template_columns: vec![length(200.0), taffy::prelude::auto()],
                ..Default::default()
            },
            &[nav_bar, editor, status_bar],
        )
        .unwrap();
    tree.compute_layout(
        root,
        Size { width: length(width as f32 / 100.0), height: length(height as f32 / 100.0) },
    )
    .unwrap();
    let rect = |node| {
        let layout = tree.layout(node).unwrap();
        Rect::new(
            layout.location.x as u32,
            layout.location.y as u32,
            layout.size.width as u32,
            layout.size.height as u32,
        )
    };
    Layout { nav_bar: rect(nav_bar), editor: rect(editor), status_bar: rect(status_bar) }
}

#[test]
fn layout_agrees_with_a_grid_solver() {
    for &(width, height) in
        &[(800u32, 600u32), (400, 300), (200, 36), (201, 37), (1920, 1080), (1000, 36), (200, 900)]
    {
        assert_eq!(Layout::resolve(width, height), solved(width, height), "{} by {}", width, height);
    }
}

#[test]
fn layout_agrees_with_a_grid_solver_below_the_fixed_tracks() {
    for &(width, height) in &[(100u32, 20u32), (150, 100), (300, 20), (1, 1), (199, 35)] {
        assert_eq!(Layout::resolve(width, height), solved(width, height), "{} by {}", width, height);
    }
}

#[test]
fn layout_agrees_with_a_grid_solver_over_many_sizes() {
    let mut width = 1;
    while width <= 460 {
        let mut height = 1;
        while height <= 130 {
            assert_eq!(Layout::resolve(width, height), solved(width, height), "{} by {}", width, height);
            height += 7;
        }
        width += 13;
    }
}
