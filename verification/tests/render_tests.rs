use exalted::canvas::{outline, paint, paint_rect, Color};
use exalted::diagnostics::{bounds_of_run, draw_glyph_boxes, render_text, PixelBox};
use exalted::editor::Editor;
use exalted::engine::LayoutEngine;
use exalted::geometry::Rect;
use exalted::input::{InputState, Key};
use exalted::interactive::Interactive;
use exalted::nav_bar::NavBar;
use exalted::shaping::{paint_glyph, paint_glyphs, Glyph, LineRun, Metrics, ShapeRequest, ShapedText};
use exalted::status_bar::StatusBar;
use tiny_skia::Pixmap;

fn rgba(pixmap: &Pixmap, x: u32, y: u32) -> (u8, u8, u8, u8) {
    let p = pixmap.pixel(x, y).unwrap();
    (p.red(), p.green(), p.blue(), p.alpha())
}

fn block(x: i32, y: i32, width: u32, height: u32, coverage: u8) -> Glyph {
    Glyph { id: 1, x, y, width, height, coverage: vec![coverage; (width * height) as usize] }
}

fn runs(lines: &[usize]) -> Vec<LineRun> {
    lines.iter().map(|&line_i| LineRun { line_i, baseline_y: 0 }).collect()
}

const NAV: (u8, u8, u8, u8) = (48, 48, 48, 255);
const EDITOR: (u8, u8, u8, u8) = (24, 24, 24, 255);
const STATUS: (u8, u8, u8, u8) = (64, 64, 64, 255);
const TEXT: (u8, u8, u8, u8) = (200, 200, 200, 255);
const CLEAR: (u8, u8, u8, u8) = (0, 0, 0, 0);

#[test]
fn paint_fills_exactly_the_rectangle() {
    let mut pixmap = Pixmap::new(8, 6).unwrap();
    paint(&mut pixmap.as_mut(), 2, 1, 3, 2, Color::rgba(10, 20, 30, 255));
    for y in 0..6 {
        for x in 0..8 {
            let inside = (2..5).contains(&x) && (1..3).contains(&y);
            assert_eq!(rgba(&pixmap, x, y), if inside { (10, 20, 30, 255) } else { CLEAR });
        }
    }
}

#[test]
fn paint_clips_to_the_pixmap() {
    let mut pixmap = Pixmap::new(4, 4).unwrap();
    paint(&mut pixmap.as_mut(), -2, -2, 4, 4, Color::rgba(1, 2, 3, 255));
    paint(&mut pixmap.as_mut(), 3, 3, u32::MAX, u32::MAX, Color::rgba(4, 5, 6, 255));
    assert_eq!(rgba(&pixmap, 0, 0), (1, 2, 3, 255));
    assert_eq!(rgba(&pixmap, 1, 1), (1, 2, 3, 255));
    assert_eq!(rgba(&pixmap, 2, 2), CLEAR);
    assert_eq!(rgba(&pixmap, 3, 3), (4, 5, 6, 255));
    assert_eq!(rgba(&pixmap, 2, 3), CLEAR);
}

#[test]
fn paint_takes_the_farthest_coordinates() {
    let mut pixmap = Pixmap::new(3, 3).unwrap();
    let color = Color::rgba(9, 9, 9, 255);
    paint(&mut pixmap.as_mut(), i64::MIN, i64::MIN, u32::MAX, u32::MAX, color);
    paint(&mut pixmap.as_mut(), i64::MAX, i64::MAX, u32::MAX, u32::MAX, color);
    paint(&mut pixmap.as_mut(), i32::MAX as i64, 0, 5, 5, color);
    paint(&mut pixmap.as_mut(), 0, 0, 0, 5, color);
    paint(&mut pixmap.as_mut(), 0, 0, 5, 0, color);
    for y in 0..3 {
        for x in 0..3 {
            assert_eq!(rgba(&pixmap, x, y), CLEAR);
        }
    }
    paint(&mut pixmap.as_mut(), -(u32::MAX as i64), 0, u32::MAX, 1, color);
    assert_eq!(rgba(&pixmap, 0, 0), CLEAR);
    paint(&mut pixmap.as_mut(), -(u32::MAX as i64) + 2, 0, u32::MAX, 1, color);
    assert_eq!(rgba(&pixmap, 0, 0), (9, 9, 9, 255));
    assert_eq!(rgba(&pixmap, 1, 0), (9, 9, 9, 255));
    assert_eq!(rgba(&pixmap, 2, 0), CLEAR);
    assert_eq!(rgba(&pixmap, 0, 1), CLEAR);
    paint(&mut pixmap.as_mut(), -5, 1, u32::MAX, 1, color);
    assert_eq!(rgba(&pixmap, 0, 1), (9, 9, 9, 255));
    assert_eq!(rgba(&pixmap, 2, 1), (9, 9, 9, 255));
    assert_eq!(rgba(&pixmap, 0, 2), CLEAR);
}

#[test]
fn paint_premultiplies_the_colour() {
    let mut pixmap = Pixmap::new(2, 1).unwrap();
    paint(&mut pixmap.as_mut(), 0, 0, 1, 1, Color::rgba(200, 200, 200, 128));
    assert_eq!(rgba(&pixmap, 0, 0), (100, 100, 100, 128));
    assert_eq!(rgba(&pixmap, 1, 0), CLEAR);
}

#[test]
fn paint_rect_fills_a_layout_rectangle() {
    let mut pixmap = Pixmap::new(5, 5).unwrap();
    paint_rect(&mut pixmap.as_mut(), Rect::new(1, 2, 3, 1), Color::rgba(7, 8, 9, 255));
    assert_eq!(rgba(&pixmap, 1, 2), (7, 8, 9, 255));
    assert_eq!(rgba(&pixmap, 3, 2), (7, 8, 9, 255));
    assert_eq!(rgba(&pixmap, 4, 2), CLEAR);
    assert_eq!(rgba(&pixmap, 1, 1), CLEAR);
    assert_eq!(rgba(&pixmap, 1, 3), CLEAR);
}

#[test]
fn outline_draws_the_edges_and_leaves_the_middle() {
    let mut pixmap = Pixmap::new(20, 20).unwrap();
    outline(&mut pixmap.as_mut(), 4, 4, 14, 14, Color::rgba(220, 220, 220, 255));
    assert_ne!(rgba(&pixmap, 4, 9), CLEAR);
    assert_ne!(rgba(&pixmap, 9, 4), CLEAR);
    assert_ne!(rgba(&pixmap, 9, 13), CLEAR);
    assert_ne!(rgba(&pixmap, 13, 9), CLEAR);
    assert_eq!(rgba(&pixmap, 9, 9), CLEAR);
    assert_eq!(rgba(&pixmap, 1, 1), CLEAR);
    assert_eq!(rgba(&pixmap, 17, 17), CLEAR);
}

#[test]
fn outline_of_an_empty_or_far_box_draws_nothing() {
    let mut pixmap = Pixmap::new(6, 6).unwrap();
    let color = Color::rgba(220, 220, 220, 255);
    outline(&mut pixmap.as_mut(), 3, 3, 3, 5, color);
    outline(&mut pixmap.as_mut(), 3, 3, 5, 3, color);
    outline(&mut pixmap.as_mut(), 5, 5, 3, 3, color);
    outline(&mut pixmap.as_mut(), i64::MIN, 0, 3, 3, color);
    outline(&mut pixmap.as_mut(), 0, 0, i64::MAX, 3, color);
    for y in 0..6 {
        for x in 0..6 {
            assert_eq!(rgba(&pixmap, x, y), CLEAR);
        }
    }
}

#[test]
fn nav_bar_is_dark_gray() {
    let mut pixmap = Pixmap::new(10, 10).unwrap();
    NavBar.render(&mut pixmap.as_mut(), 100, Rect::new(0, 0, 4, 10));
    assert_eq!(rgba(&pixmap, 0, 0), NAV);
    assert_eq!(rgba(&pixmap, 3, 9), NAV);
    assert_eq!(rgba(&pixmap, 4, 0), CLEAR);
}

#[test]
fn status_bar_is_mid_gray() {
    let mut pixmap = Pixmap::new(10, 10).unwrap();
    StatusBar.render(&mut pixmap.as_mut(), 100, Rect::new(0, 8, 10, 2));
    assert_eq!(rgba(&pixmap, 0, 8), STATUS);
    assert_eq!(rgba(&pixmap, 9, 9), STATUS);
    assert_eq!(rgba(&pixmap, 0, 7), CLEAR);
}

#[test]
fn bars_take_no_input() {
    let input = InputState::default();
    let mut nav = NavBar;
    let mut status = StatusBar;
    assert!(!nav.handle_keyboard_event(&input, Key::Character("a".to_string())));
    assert!(!status.handle_keyboard_event(&input, Key::Character("a".to_string())));
    assert!(!nav.handle_mouse_event(&input, exalted::input::ElementState::Pressed));
    assert!(!status.handle_mouse_event(&input, exalted::input::ElementState::Released));
}

#[test]
fn glyph_pixels_take_their_coverage() {
    let mut pixmap = Pixmap::new(6, 4).unwrap();
    let glyph = Glyph { id: 7, x: 1, y: 1, width: 3, height: 2, coverage: vec![255, 0, 128, 0, 255, 0] };
    assert!(glyph.is_wf());
    paint_glyph(&mut pixmap.as_mut(), 1, 0, &glyph, Color::rgba(200, 200, 200, 255));
    assert_eq!(rgba(&pixmap, 2, 1), TEXT);
    assert_eq!(rgba(&pixmap, 3, 1), CLEAR);
    assert_eq!(rgba(&pixmap, 4, 1), (100, 100, 100, 128));
    assert_eq!(rgba(&pixmap, 2, 2), CLEAR);
    assert_eq!(rgba(&pixmap, 3, 2), TEXT);
    assert_eq!(rgba(&pixmap, 4, 2), CLEAR);
    assert_eq!(rgba(&pixmap, 1, 1), CLEAR);
    assert_eq!(rgba(&pixmap, 5, 1), CLEAR);
}

#[test]
fn glyphs_may_start_left_of_the_origin() {
    let mut pixmap = Pixmap::new(4, 4).unwrap();
    let glyphs = vec![block(-1, -1, 2, 2, 255), block(1, 1, 1, 1, 255)];
    paint_glyphs(&mut pixmap.as_mut(), 2, 2, &glyphs, Color::rgba(200, 200, 200, 255));
    assert_eq!(rgba(&pixmap, 1, 1), TEXT);
    assert_eq!(rgba(&pixmap, 2, 2), TEXT);
    assert_eq!(rgba(&pixmap, 3, 3), TEXT);
    assert_eq!(rgba(&pixmap, 0, 0), CLEAR);
    assert_eq!(rgba(&pixmap, 3, 2), CLEAR);
}

#[test]
fn glyph_with_wrong_coverage_length_is_not_well_formed() {
    let glyph = Glyph { id: 0, x: 0, y: 0, width: 2, height: 2, coverage: vec![1, 2, 3] };
    assert!(!glyph.is_wf());
    let empty = Glyph { id: 0, x: 0, y: 0, width: 0, height: 9, coverage: vec![] };
    assert!(empty.is_wf());
    let huge = Glyph { id: 0, x: 0, y: 0, width: u32::MAX, height: u32::MAX, coverage: vec![] };
    assert!(!huge.is_wf());
}

#[test]
fn shaped_text_is_checked() {
    let good = ShapedText { glyphs: vec![block(0, 0, 1, 1, 9)], runs: runs(&[0, 1]), total_lines: 2 };
    assert!(good.is_wf());
    assert_eq!(good.first_visible_line(), 0);
    assert_eq!(good.last_visible_line(), 1);
    let no_lines = ShapedText { glyphs: vec![], runs: vec![], total_lines: 0 };
    assert!(!no_lines.is_wf());
    let bad_run = ShapedText { glyphs: vec![], runs: runs(&[0, 2]), total_lines: 2 };
    assert!(!bad_run.is_wf());
    let bad_glyph = ShapedText {
        glyphs: vec![Glyph { id: 0, x: 0, y: 0, width: 1, height: 1, coverage: vec![] }],
        runs: vec![],
        total_lines: 1,
    };
    assert!(!bad_glyph.is_wf());
    let no_runs = ShapedText { glyphs: vec![], runs: vec![], total_lines: 3 };
    assert!(no_runs.is_wf());
    assert_eq!(no_runs.first_visible_line(), 0);
    assert_eq!(no_runs.last_visible_line(), 0);
}

#[test]
fn metrics_scale_in_hundredths() {
    let base = Metrics::new(32, 48);
    assert_eq!(base.scale(100), Metrics { font_size: 32, line_height: 48 });
    assert_eq!(base.scale(150), Metrics { font_size: 48, line_height: 72 });
    assert_eq!(base.scale(125), Metrics { font_size: 40, line_height: 60 });
    assert_eq!(base.scale(110), Metrics { font_size: 35, line_height: 52 });
    assert_eq!(base.scale(0), Metrics { font_size: 0, line_height: 0 });
    assert_eq!(base.scale(u32::MAX), Metrics { font_size: 1374389534, line_height: 2061584301 });
    assert_eq!(exalted::shaping::scale(u32::MAX, u32::MAX), u32::MAX);
    assert_eq!(exalted::shaping::scale(12, 200), 24);
    assert_eq!(exalted::shaping::SCALE_UNIT, 100);
}

#[test]
fn editor_without_shaping_paints_its_background() {
    let mut pixmap = Pixmap::new(10, 10).unwrap();
    let mut editor = Editor::new(100);
    editor.render(&mut pixmap.as_mut(), 100, Rect::new(2, 2, 6, 6));
    assert_eq!(rgba(&pixmap, 2, 2), EDITOR);
    assert_eq!(rgba(&pixmap, 7, 7), EDITOR);
    assert_eq!(rgba(&pixmap, 1, 2), CLEAR);
    assert_eq!(rgba(&pixmap, 8, 7), CLEAR);
}

#[test]
fn editor_asks_for_a_shaping_and_paints_it() {
    let mut pixmap = Pixmap::new(40, 40).unwrap();
    let rect = Rect::new(10, 5, 30, 30);
    let mut editor = Editor::new(100);
    let request = editor.shape_request(100, rect).unwrap();
    assert_eq!(
        request,
        ShapeRequest { metrics: Metrics { font_size: 32, line_height: 48 }, width: 30, height: 30, text_len: 14 }
    );
    let shaped = ShapedText { glyphs: vec![block(2, 3, 2, 2, 255)], runs: runs(&[0]), total_lines: 1 };
    assert!(editor.set_shaped(request, shaped));
    assert_eq!(editor.shape_request(100, rect), None);
    editor.render(&mut pixmap.as_mut(), 100, rect);
    assert_eq!(rgba(&pixmap, 12, 8), TEXT);
    assert_eq!(rgba(&pixmap, 13, 9), TEXT);
    assert_eq!(rgba(&pixmap, 14, 8), EDITOR);
    assert_eq!(rgba(&pixmap, 11, 8), EDITOR);
    assert_eq!(rgba(&pixmap, 39, 20), EDITOR);
    assert_eq!(editor.shape_request(100, rect), None);
}

#[test]
fn shaping_for_another_size_or_scale_is_dropped() {
    let rect = Rect::new(0, 0, 30, 30);
    let shaped = ShapedText { glyphs: vec![block(0, 0, 2, 2, 255)], runs: runs(&[0]), total_lines: 1 };

    let mut editor = Editor::new(100);
    let request = editor.shape_request(100, rect).unwrap();
    assert!(editor.set_shaped(request, shaped.clone()));
    let mut pixmap = Pixmap::new(40, 40).unwrap();
    editor.render(&mut pixmap.as_mut(), 100, Rect::new(0, 0, 31, 30));
    assert_eq!(rgba(&pixmap, 0, 0), EDITOR);
    assert_eq!(editor.shape_request(100, rect), Some(request));

    let mut editor = Editor::new(100);
    assert!(editor.set_shaped(request, shaped));
    assert_eq!(
        editor.shape_request(200, rect),
        Some(ShapeRequest { metrics: Metrics { font_size: 64, line_height: 96 }, width: 30, height: 30, text_len: 14 })
    );
    let mut pixmap = Pixmap::new(40, 40).unwrap();
    editor.render(&mut pixmap.as_mut(), 200, rect);
    assert_eq!(rgba(&pixmap, 0, 0), EDITOR);
}

#[test]
fn malformed_shaping_is_refused() {
    let rect = Rect::new(0, 0, 30, 30);
    let mut editor = Editor::new(100);
    let request = editor.shape_request(100, rect).unwrap();
    let good = ShapedText { glyphs: vec![block(0, 0, 2, 2, 255)], runs: runs(&[0]), total_lines: 1 };
    assert!(editor.set_shaped(request, good));
    let bad = ShapedText { glyphs: vec![block(0, 0, 2, 2, 255)], runs: runs(&[5]), total_lines: 1 };
    assert!(!editor.set_shaped(request, bad));
    assert_eq!(editor.shape_request(100, rect), Some(request));
    let mut pixmap = Pixmap::new(30, 30).unwrap();
    editor.render(&mut pixmap.as_mut(), 100, rect);
    assert_eq!(rgba(&pixmap, 0, 0), EDITOR);
}

#[test]
fn typing_drops_the_shaping() {
    let rect = Rect::new(0, 0, 30, 30);
    let mut editor = Editor::new(100);
    let request = editor.shape_request(100, rect).unwrap();
    let shaped = ShapedText { glyphs: vec![block(0, 0, 2, 2, 255)], runs: runs(&[0]), total_lines: 1 };
    assert!(editor.set_shaped(request, shaped));
    assert!(!editor.handle_keyboard_event(&InputState::default(), Key::Unidentified));
    assert_eq!(editor.shape_request(100, rect), None);
    assert!(editor.handle_keyboard_event(&InputState::default(), Key::Character("x".to_string())));
    assert_eq!(editor.shape_request(100, rect), Some(ShapeRequest { text_len: 15, ..request }));
}

#[test]
fn shaping_without_glyphs_paints_only_the_background() {
    let rect = Rect::new(0, 0, 30, 30);
    let mut editor = Editor::new(100);
    let request = editor.shape_request(100, rect).unwrap();
    let shaped = ShapedText { glyphs: vec![], runs: runs(&[0, 5]), total_lines: 10 };
    assert!(editor.set_shaped(request, shaped));
    let mut pixmap = Pixmap::new(30, 30).unwrap();
    editor.render(&mut pixmap.as_mut(), 100, rect);
    for y in 0..30 {
        for x in 0..30 {
            assert_eq!(rgba(&pixmap, x, y), EDITOR);
        }
    }
}

#[test]
fn scroll_indicator_is_painted_on_the_right_edge() {
    let rect = Rect::new(10, 20, 100, 200);
    let mut editor = Editor::new(100);
    let request = editor.shape_request(100, rect).unwrap();
    let shaped = ShapedText {
        glyphs: vec![block(0, 0, 1, 1, 255)],
        runs: runs(&[2, 3, 4, 5]),
        total_lines: 10,
    };
    assert!(editor.set_shaped(request, shaped));
    let mut pixmap = Pixmap::new(120, 230).unwrap();
    editor.render(&mut pixmap.as_mut(), 100, rect);
    let bar = rgba(&pixmap, 109, 60);
    assert_eq!(bar.3, 255);
    assert!(bar.0 > 24 && bar.0 < 255 && bar.0 == bar.1 && bar.1 == bar.2);
    for y in 20..220 {
        for x in 10..110 {
            if (x, y) == (10, 20) {
                continue;
            }
            let inside = x >= 98 && (60..120).contains(&y);
            assert_eq!(rgba(&pixmap, x, y), if inside { bar } else { EDITOR }, "at {} {}", x, y);
        }
    }
    assert_eq!(rgba(&pixmap, 110, 60), CLEAR);
}

#[test]
fn scroll_indicator_scales_with_the_window() {
    let rect = Rect::new(0, 0, 100, 100);
    let mut editor = Editor::new(200);
    let request = editor.shape_request(200, rect).unwrap();
    let shaped = ShapedText { glyphs: vec![block(0, 0, 1, 1, 255)], runs: runs(&[0, 1]), total_lines: 2 };
    assert!(editor.set_shaped(request, shaped));
    let mut pixmap = Pixmap::new(100, 100).unwrap();
    editor.render(&mut pixmap.as_mut(), 200, rect);
    assert_ne!(rgba(&pixmap, 76, 10), EDITOR);
    assert_eq!(rgba(&pixmap, 75, 10), EDITOR);
    assert_ne!(rgba(&pixmap, 99, 49), EDITOR);
    assert_eq!(rgba(&pixmap, 99, 50), EDITOR);
}

#[test]
fn one_line_has_no_scroll_indicator() {
    let rect = Rect::new(0, 0, 50, 50);
    let mut editor = Editor::new(100);
    let request = editor.shape_request(100, rect).unwrap();
    let shaped = ShapedText { glyphs: vec![block(0, 0, 1, 1, 255)], runs: runs(&[0]), total_lines: 1 };
    assert!(editor.set_shaped(request, shaped));
    let mut pixmap = Pixmap::new(50, 50).unwrap();
    editor.render(&mut pixmap.as_mut(), 100, rect);
    for y in 0..50 {
        for x in 1..50 {
            assert_eq!(rgba(&pixmap, x, y), EDITOR);
        }
    }
    assert_eq!(rgba(&pixmap, 0, 0), TEXT);
}

#[test]
fn run_bounds_skip_glyphs_without_pixels() {
    let glyphs = vec![block(5, 6, 0, 3, 0), block(10, 20, 4, 5, 255), block(-3, 22, 2, 8, 255)];
    assert_eq!(
        bounds_of_run(100, 200, &glyphs),
        Some(PixelBox { left: 97, top: 220, right: 114, bottom: 230 })
    );
    assert_eq!(bounds_of_run(0, 0, &vec![block(1, 1, 0, 0, 0)]), None);
    assert_eq!(bounds_of_run(0, 0, &vec![]), None);
    assert_eq!(
        bounds_of_run(u32::MAX, u32::MAX, &vec![block(i32::MAX, i32::MIN, u32::MAX, 1, 0)]),
        Some(PixelBox {
            left: u32::MAX as i64 + i32::MAX as i64,
            top: u32::MAX as i64 + i32::MIN as i64,
            right: u32::MAX as i64 + i32::MAX as i64 + u32::MAX as i64,
            bottom: u32::MAX as i64 + i32::MIN as i64 + 1,
        })
    );
}

#[test]
fn glyph_boxes_go_around_the_glyphs() {
    let mut pixmap = Pixmap::new(40, 40).unwrap();
    let glyphs = vec![block(10, 10, 6, 6, 255), block(20, 10, 0, 0, 0)];
    draw_glyph_boxes(&mut pixmap.as_mut(), 0, 0, &glyphs);
    assert_ne!(rgba(&pixmap, 9, 12), CLEAR);
    assert_ne!(rgba(&pixmap, 12, 9), CLEAR);
    assert_ne!(rgba(&pixmap, 16, 12), CLEAR);
    assert_ne!(rgba(&pixmap, 12, 16), CLEAR);
    assert_eq!(rgba(&pixmap, 12, 12), CLEAR);
    assert_eq!(rgba(&pixmap, 20, 10), CLEAR);
    assert_eq!(rgba(&pixmap, 30, 30), CLEAR);
}

#[test]
fn render_text_draws_boxes_under_the_glyphs() {
    let mut pixmap = Pixmap::new(60, 40).unwrap();
    let glyphs = vec![block(10, 10, 6, 6, 255), block(30, 12, 4, 8, 255)];
    render_text(&mut pixmap.as_mut(), 2, 3, &glyphs, Color::rgba(200, 200, 200, 255));
    assert_eq!(rgba(&pixmap, 12, 13), TEXT);
    assert_eq!(rgba(&pixmap, 17, 18), TEXT);
    assert_eq!(rgba(&pixmap, 32, 15), TEXT);
    assert_ne!(rgba(&pixmap, 11, 15), CLEAR);
    assert_ne!(rgba(&pixmap, 36, 18), CLEAR);
    assert_ne!(rgba(&pixmap, 25, 12), CLEAR);
    assert_ne!(rgba(&pixmap, 25, 23), CLEAR);
    assert_eq!(rgba(&pixmap, 25, 17), CLEAR);
    assert_eq!(rgba(&pixmap, 5, 5), CLEAR);
}

#[test]
fn editor_draws_boxes_on_request() {
    let rect = Rect::new(0, 0, 60, 40);
    let shaped = ShapedText { glyphs: vec![block(10, 10, 6, 6, 255)], runs: runs(&[0]), total_lines: 1 };
    let mut plain = Editor::new(100);
    let request = plain.shape_request(100, rect).unwrap();
    assert!(plain.set_shaped(request, shaped.clone()));
    let mut boxed = Editor::new(100);
    boxed.set_debug_boxes(true);
    assert!(boxed.set_shaped(request, shaped));
    let mut first = Pixmap::new(60, 40).unwrap();
    let mut second = Pixmap::new(60, 40).unwrap();
    plain.render(&mut first.as_mut(), 100, rect);
    boxed.render(&mut second.as_mut(), 100, rect);
    assert_eq!(rgba(&first, 12, 12), TEXT);
    assert_eq!(rgba(&second, 12, 12), TEXT);
    assert_eq!(rgba(&first, 9, 12), EDITOR);
    assert_ne!(rgba(&second, 9, 12), EDITOR);
    boxed.set_debug_boxes(false);
    let mut third = Pixmap::new(60, 40).unwrap();
    boxed.render(&mut third.as_mut(), 100, rect);
    assert_eq!(first.data(), third.data());
}

#[test]
fn window_paints_every_pixel_of_its_region_colour() {
    let mut pixmap = Pixmap::new(320, 100).unwrap();
    let mut engine = LayoutEngine::new(100);
    engine.render(&mut pixmap.as_mut(), 100, Rect::of_size(320, 100));
    for y in 0..100 {
        for x in 0..320 {
            let expected = if y >= 64 {
                STATUS
            } else if x < 200 {
                NAV
            } else {
                EDITOR
            };
            assert_eq!(rgba(&pixmap, x, y), expected);
        }
    }
}

#[test]
fn window_paints_the_editor_text_at_the_editor_corner() {
    let mut pixmap = Pixmap::new(320, 100).unwrap();
    let mut engine = LayoutEngine::new(100);
    engine.compute_layout(320, 100);
    let request = engine.shape_request(100).unwrap();
    assert_eq!(
        request,
        ShapeRequest { metrics: Metrics { font_size: 32, line_height: 48 }, width: 120, height: 64, text_len: 14 }
    );
    let shaped = ShapedText { glyphs: vec![block(5, 5, 2, 2, 255)], runs: runs(&[0]), total_lines: 1 };
    assert!(engine.set_shaped(request, shaped));
    assert_eq!(engine.shape_request(100), None);
    engine.render(&mut pixmap.as_mut(), 100, Rect::of_size(320, 100));
    assert_eq!(rgba(&pixmap, 205, 5), TEXT);
    assert_eq!(rgba(&pixmap, 206, 6), TEXT);
    assert_eq!(rgba(&pixmap, 204, 5), EDITOR);
    assert_eq!(rgba(&pixmap, 5, 5), NAV);
}

#[test]
fn resize_then_render_tiles_anew() {
    let mut engine = LayoutEngine::new(100);
    let mut large = Pixmap::new(800, 600).unwrap();
    engine.render(&mut large.as_mut(), 100, Rect::of_size(800, 600));
    assert_eq!(engine.layout().editor, Rect::new(200, 0, 600, 564));
    assert_eq!(rgba(&large, 799, 563), EDITOR);
    assert_eq!(rgba(&large, 799, 564), STATUS);
    let mut small = Pixmap::new(400, 300).unwrap();
    engine.render(&mut small.as_mut(), 100, Rect::of_size(400, 300));
    assert_eq!(engine.layout().nav_bar, Rect::new(0, 0, 200, 264));
    assert_eq!(engine.layout().editor, Rect::new(200, 0, 200, 264));
    assert_eq!(engine.layout().status_bar, Rect::new(0, 264, 400, 36));
    assert_eq!(rgba(&small, 199, 263), NAV);
    assert_eq!(rgba(&small, 200, 263), EDITOR);
    assert_eq!(rgba(&small, 399, 263), EDITOR);
    assert_eq!(rgba(&small, 0, 264), STATUS);
    assert_eq!(rgba(&small, 399, 299), STATUS);
}

#[test]
fn small_window_is_painted_by_the_fixed_tracks() {
    let mut pixmap = Pixmap::new(50, 20).unwrap();
    let mut engine = LayoutEngine::new(100);
    engine.render(&mut pixmap.as_mut(), 100, Rect::of_size(50, 20));
    for y in 0..20 {
        for x in 0..50 {
            assert_eq!(rgba(&pixmap, x, y), STATUS);
        }
    }
}

#[test]
fn later_regions_paint_over_earlier_ones() {
    let mut pixmap = Pixmap::new(300, 20).unwrap();
    let mut engine = LayoutEngine::new(100);
    engine.render(&mut pixmap.as_mut(), 100, Rect::of_size(300, 20));
    assert_eq!(engine.layout().nav_bar, Rect::new(0, 0, 200, 0));
    assert_eq!(engine.layout().status_bar, Rect::new(0, 0, 300, 36));
    for y in 0..20 {
        for x in 0..300 {
            assert_eq!(rgba(&pixmap, x, y), STATUS);
        }
    }
}

#[test]
fn stateless_window_paints_regions_and_boxed_text() {
    let mut pixmap = Pixmap::new(320, 100).unwrap();
    let glyphs = vec![block(10, 10, 6, 6, 255)];
    exalted::engine::render(&mut pixmap.as_mut(), 320, 100, &glyphs);
    assert_eq!(rgba(&pixmap, 0, 0), NAV);
    assert_eq!(rgba(&pixmap, 199, 63), NAV);
    assert_eq!(rgba(&pixmap, 200, 0), EDITOR);
    assert_eq!(rgba(&pixmap, 319, 63), EDITOR);
    assert_eq!(rgba(&pixmap, 0, 64), STATUS);
    assert_eq!(rgba(&pixmap, 319, 99), STATUS);
    assert_eq!(rgba(&pixmap, 212, 12), (255, 255, 255, 255));
    assert_ne!(rgba(&pixmap, 209, 12), EDITOR);
    assert_eq!(rgba(&pixmap, 230, 30), EDITOR);
}

#[test]
fn stateless_window_clears_a_larger_pixmap_only_in_the_viewport() {
    let mut pixmap = Pixmap::new(10, 10).unwrap();
    exalted::engine::render(&mut pixmap.as_mut(), 4, 50, &vec![]);
    assert_eq!(rgba(&pixmap, 0, 0), NAV);
    assert_eq!(rgba(&pixmap, 9, 9), NAV);
    let mut pixmap = Pixmap::new(300, 50).unwrap();
    exalted::engine::render(&mut pixmap.as_mut(), 0, 0, &vec![]);
    assert_eq!(rgba(&pixmap, 0, 0), STATUS);
    assert_eq!(rgba(&pixmap, 199, 35), STATUS);
    assert_eq!(rgba(&pixmap, 200, 0), CLEAR);
    assert_eq!(rgba(&pixmap, 0, 36), CLEAR);
}

#[test]
fn glyph_with_wrong_coverage_length_is_left_out() {
    let mut pixmap = Pixmap::new(6, 6).unwrap();
    let broken = Glyph { id: 0, x: 0, y: 0, width: 2, height: 2, coverage: vec![255, 255, 255] };
    let no_width = Glyph { id: 0, x: 0, y: 0, width: 0, height: 2, coverage: vec![255, 255] };
    let glyphs = vec![broken, no_width, block(3, 3, 1, 1, 255)];
    paint_glyphs(&mut pixmap.as_mut(), 0, 0, &glyphs, Color::rgba(200, 200, 200, 255));
    for y in 0..6 {
        for x in 0..6 {
            assert_eq!(rgba(&pixmap, x, y), if (x, y) == (3, 3) { TEXT } else { CLEAR });
        }
    }
    let mut boxed = Pixmap::new(6, 6).unwrap();
    render_text(&mut boxed.as_mut(), 0, 0, &glyphs, Color::rgba(200, 200, 200, 255));
    assert_eq!(rgba(&boxed, 3, 3), TEXT);
}

#[test]
fn shaping_of_an_older_text_is_not_painted() {
    let rect = Rect::new(0, 0, 30, 30);
    let mut editor = Editor::new(100);
    let request = editor.shape_request(100, rect).unwrap();
    assert_eq!(request.text_len, 14);
    assert!(editor.handle_keyboard_event(&InputState::default(), Key::Character("x".to_string())));
    let shaped = ShapedText { glyphs: vec![block(0, 0, 2, 2, 255)], runs: runs(&[0]), total_lines: 1 };
    assert!(editor.set_shaped(request, shaped.clone()));
    let newer = editor.shape_request(100, rect).unwrap();
    assert_eq!(newer, ShapeRequest { text_len: 15, ..request });
    let mut pixmap = Pixmap::new(30, 30).unwrap();
    editor.render(&mut pixmap.as_mut(), 100, rect);
    assert_eq!(rgba(&pixmap, 0, 0), EDITOR);
    assert!(editor.set_shaped(newer, shaped));
    editor.render(&mut pixmap.as_mut(), 100, rect);
    assert_eq!(rgba(&pixmap, 0, 0), TEXT);
}

#[test]
fn window_draws_glyph_boxes_on_request() {
    let shaped = ShapedText { glyphs: vec![block(10, 10, 6, 6, 255)], runs: runs(&[0]), total_lines: 1 };
    let mut engine = LayoutEngine::new(100);
    engine.set_debug_boxes(true);
    engine.compute_layout(320, 100);
    let request = engine.shape_request(100).unwrap();
    assert!(engine.set_shaped(request, shaped));
    let mut pixmap = Pixmap::new(320, 100).unwrap();
    engine.render(&mut pixmap.as_mut(), 100, Rect::of_size(320, 100));
    assert_eq!(rgba(&pixmap, 212, 12), TEXT);
    assert_ne!(rgba(&pixmap, 209, 12), EDITOR);
    engine.set_debug_boxes(false);
    engine.render(&mut pixmap.as_mut(), 100, Rect::of_size(320, 100));
    assert_eq!(rgba(&pixmap, 212, 12), TEXT);
    assert_eq!(rgba(&pixmap, 209, 12), EDITOR);
}
