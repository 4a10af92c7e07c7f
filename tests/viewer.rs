use imgview::color::{color_distance, Rgb};
use imgview::image_view::{EventResult, Frame, ImageView, Input, Mode};
use imgview::raster::Raster;
use imgview::render::{merge_row, padding, zoom_percent, Span};
use imgview::viewport::{min_dimension, Axis, Viewport, SCALE};

fn rgb(r: u8, g: u8, b: u8) -> Rgb {
    Rgb { r, g, b }
}

/// A raster whose pixel at column `x` has red channel `x`.
fn column_ramp(width: u32, height: u32) -> Raster {
    let mut data = Vec::new();
    for _ in 0..height {
        for x in 0..width {
            data.push(x as u8);
            data.push(0);
            data.push(0);
        }
    }
    Raster::new(width, height, data).unwrap()
}

fn laid_out(width: u32, height: u32, cols: usize, rows: usize) -> ImageView {
    let mut v = ImageView::new(column_ramp(width, height));
    v.layout(cols, rows);
    v
}

#[test]
fn distance_is_channel_sum() {
    assert_eq!(color_distance(&rgb(0, 0, 0), &rgb(1, 1, 1)), 3);
    assert_eq!(color_distance(&rgb(10, 20, 30), &rgb(13, 18, 30)), 5);
}

#[test]
fn distance_saturates() {
    assert_eq!(color_distance(&rgb(0, 0, 0), &rgb(200, 100, 0)), 255);
    assert_eq!(color_distance(&rgb(255, 255, 255), &rgb(0, 0, 0)), 255);
    assert_eq!(color_distance(&rgb(0, 0, 0), &rgb(100, 100, 55)), 255);
}

#[test]
fn raster_new_checks_length() {
    assert!(Raster::new(2, 2, vec![0; 12]).is_some());
    assert!(Raster::new(2, 2, vec![0; 11]).is_none());
    assert!(Raster::new(0, 5, vec![]).is_some());
}

#[test]
fn run_merging_two_runs() {
    let g = Raster::new(3, 1, vec![0, 0, 0, 1, 1, 1, 200, 0, 0]).unwrap();
    let spans = merge_row(&g, 0);
    assert_eq!(
        spans,
        vec![
            Span { start: 0, len: 2, color: rgb(0, 0, 0) },
            Span { start: 2, len: 1, color: rgb(200, 0, 0) },
        ]
    );
}

#[test]
fn run_merging_compares_with_anchor() {
    // each step is 2 from the previous, but the third is 4 from the anchor
    let g = Raster::new(3, 1, vec![0, 0, 0, 2, 0, 0, 4, 0, 0]).unwrap();
    let spans = merge_row(&g, 0);
    assert_eq!(
        spans,
        vec![
            Span { start: 0, len: 2, color: rgb(0, 0, 0) },
            Span { start: 2, len: 1, color: rgb(4, 0, 0) },
        ]
    );
}

#[test]
fn run_merging_second_row() {
    let g = Raster::new(2, 2, vec![9, 9, 9, 9, 9, 9, 0, 0, 0, 50, 50, 50]).unwrap();
    assert_eq!(merge_row(&g, 0), vec![Span { start: 0, len: 2, color: rgb(9, 9, 9) }]);
    assert_eq!(
        merge_row(&g, 1),
        vec![
            Span { start: 0, len: 1, color: rgb(0, 0, 0) },
            Span { start: 1, len: 1, color: rgb(50, 50, 50) },
        ]
    );
}

#[test]
fn aspect_fit_wide_source() {
    let v = laid_out(100, 50, 40, 10);
    let g = v.scaled.as_ref().unwrap();
    assert_eq!((g.width, g.height), (40, 8));
    assert_eq!(g.data.len(), 3 * 40 * 8);
}

#[test]
fn aspect_fit_tall_source() {
    // 50 x 100 on 40 x 10 cells: round(2.5 * 0.5 * 10) = 13 wide, 10 high
    let v = laid_out(50, 100, 40, 10);
    let g = v.scaled.as_ref().unwrap();
    assert_eq!((g.width, g.height), (13, 10));
}

#[test]
fn layout_fails_on_empty_area() {
    let mut v = laid_out(10, 10, 0, 10);
    assert!(v.scaled.is_none());
    assert!(!v.needs_relayout());
    match v.draw(0, 10) {
        Frame::Placeholder { x, y, .. } => assert_eq!((x, y), (0, 5)),
        _ => panic!("expected the placeholder"),
    }
}

#[test]
fn layout_fails_on_empty_source() {
    let v = laid_out(0, 0, 40, 10);
    assert!(v.scaled.is_none());
}

#[test]
fn resize_resamples_columns() {
    let v = laid_out(10, 10, 5, 100);
    let g = v.scaled.as_ref().unwrap();
    assert_eq!(g.width, 5);
    let reds: Vec<u8> = (0..5).map(|x| g.get_pixel(x, 0).r).collect();
    assert_eq!(reds, vec![1, 3, 5, 7, 9]);
}

#[test]
fn layout_crops_to_viewport() {
    let mut v = ImageView::new(column_ramp(10, 10));
    v.zoom(500);
    assert_eq!(v.viewport, Viewport { x0: 250_000, x1: 750_000, y0: 250_000, y1: 750_000 });
    v.layout(5, 100);
    let g = v.scaled.as_ref().unwrap();
    assert_eq!(g.width, 5);
    let reds: Vec<u8> = (0..5).map(|x| g.get_pixel(x, 0).r).collect();
    assert_eq!(reds, vec![3, 4, 5, 6, 7]);
}

#[test]
fn new_view_needs_layout() {
    let v = ImageView::new(column_ramp(4, 4));
    assert!(v.needs_relayout());
    assert_eq!(v.mode, Mode::Move);
    assert_eq!(v.viewport, Viewport::full());
    assert_eq!(v.view_size(), (SCALE, SCALE));
}

#[test]
fn min_dimension_is_one_pixel() {
    assert_eq!(min_dimension(100, 50), 20_000);
    assert_eq!(min_dimension(3, 7), 333_334);
    assert_eq!(min_dimension(0, 7), SCALE);
}

#[test]
fn redraw_with_same_viewport_draws_nothing() {
    let mut v = laid_out(100, 50, 40, 10);
    match v.draw(40, 10) {
        Frame::Picture { left, top, rows, cursor, status } => {
            assert_eq!((left, top), (0, 1));
            assert_eq!(rows.len(), 8);
            assert!(cursor.is_none());
            assert_eq!(status.zoom_percent, 100);
        }
        _ => panic!("expected a picture"),
    }
    assert!(matches!(v.draw(40, 10), Frame::Unchanged));
    assert!(matches!(v.draw(80, 20), Frame::Unchanged));
}

#[test]
fn redraw_after_zoom_draws_again() {
    let mut v = laid_out(100, 50, 40, 10);
    v.draw(40, 10);
    assert_eq!(v.on_event(Input::WheelUp), EventResult::Consumed);
    assert!(v.needs_relayout());
    v.layout(40, 10);
    match v.draw(40, 10) {
        Frame::Picture { status, .. } => assert_eq!(status.zoom_percent, 111),
        _ => panic!("expected a picture"),
    }
}

#[test]
fn reset_is_idempotent() {
    let mut v = laid_out(100, 100, 40, 10);
    v.on_event(Input::WheelUp);
    v.on_event(Input::Backspace);
    assert_eq!(v.viewport, Viewport::full());
    v.layout(40, 10);
    assert_eq!(v.on_event(Input::Backspace), EventResult::Consumed);
    assert_eq!(v.viewport, Viewport::full());
    assert!(!v.needs_relayout());
    let mut w = Viewport { x0: 10, x1: 20, y0: 30, y1: 40 };
    w.reset();
    w.reset();
    assert_eq!(w, Viewport::full());
}

#[test]
fn zoom_keeps_center() {
    let mut v = Viewport { x0: 100_000, x1: 500_000, y0: 300_001, y1: 700_001 };
    v.zoom(100, 1_000);
    // side 400000 * 0.9 = 360000 around centers 300000 and 500001
    assert_eq!(v, Viewport { x0: 120_000, x1: 480_000, y0: 320_001, y1: 680_001 });
    assert_eq!(v.x0 + v.x1, 600_000);
    assert_eq!(v.y0 + v.y1, 1_000_002);
}

#[test]
fn zoom_clamps_to_min_dimension() {
    let mut v = Viewport::full();
    v.zoom(999, 100_000);
    assert_eq!(v.x1 - v.x0, 100_000);
    assert_eq!(v.y1 - v.y0, 100_000);
}

#[test]
fn pan_then_zoom_stays_inside() {
    let mut v = Viewport { x0: 0, x1: 200_000, y0: 0, y1: 200_000 };
    v.pan(Axis::Horizontal, -1);
    assert_eq!(v.x0, 0);
    v.pan(Axis::Vertical, 800_000);
    assert_eq!((v.y0, v.y1), (800_000, 1_000_000));
    v.zoom(-500, 1);
    assert!(v.x1 <= SCALE && v.y1 <= SCALE);
    assert!(v.x1 > v.x0 && v.y1 > v.y0);
    assert_eq!(v.x1 - v.x0, v.y1 - v.y0);
    assert!(v.x1 - v.x0 >= 200_000);
}

#[test]
fn pan_rejected_at_edge() {
    let mut v = Viewport { x0: 100, x1: 500_100, y0: 0, y1: 500_000 };
    v.pan(Axis::Horizontal, -200);
    assert_eq!(v, Viewport { x0: 100, x1: 500_100, y0: 0, y1: 500_000 });
    v.pan(Axis::Horizontal, 499_900);
    assert_eq!(v, Viewport { x0: 500_000, x1: 1_000_000, y0: 0, y1: 500_000 });
}

#[test]
fn move_mode_arrow_pans() {
    let mut v = laid_out(100, 100, 40, 10);
    v.zoom(500);
    v.layout(40, 10);
    assert_eq!(v.on_event(Input::Down), EventResult::Consumed);
    assert_eq!((v.viewport.y0, v.viewport.y1), (255_000, 755_000));
    assert!(v.needs_relayout());
    v.layout(40, 10);
    assert_eq!(v.on_event(Input::Left), EventResult::Consumed);
    assert_eq!((v.viewport.x0, v.viewport.x1), (240_000, 740_000));
}

#[test]
fn move_mode_pan_at_edge_needs_no_layout() {
    let mut v = laid_out(100, 100, 40, 10);
    assert_eq!(v.on_event(Input::Up), EventResult::Consumed);
    assert_eq!(v.viewport, Viewport::full());
    assert!(!v.needs_relayout());
}

#[test]
fn zoom_mode_keys() {
    let mut v = laid_out(100, 100, 40, 10);
    assert_eq!(v.on_event(Input::Char('z')), EventResult::Consumed);
    assert_eq!(v.mode, Mode::Zoom);
    v.on_event(Input::Up);
    assert_eq!(v.view_size(), (900_000, 900_000));
    v.on_event(Input::Down);
    assert_eq!(v.view_size(), (990_000, 990_000));
    v.on_event(Input::Left);
    assert_eq!(v.mode, Mode::Move);
}

#[test]
fn cursor_starts_at_grid_center() {
    let mut v = ImageView::new(column_ramp(100, 50));
    assert_eq!(v.on_event(Input::Char('c')), EventResult::Ignored);
    assert_eq!(v.mode, Mode::Move);
    v.layout(40, 10);
    assert_eq!(v.on_event(Input::Char('c')), EventResult::Consumed);
    assert_eq!(v.mode, Mode::Cursor { x: 20, y: 4 });
}

#[test]
fn cursor_rejects_moves_off_grid() {
    let mut v = laid_out(100, 50, 4, 10);
    let g = v.scaled.as_ref().unwrap();
    assert_eq!((g.width, g.height), (4, 1));
    v.on_event(Input::Char('c'));
    assert_eq!(v.mode, Mode::Cursor { x: 2, y: 0 });
    v.on_event(Input::Up);
    assert_eq!(v.mode, Mode::Cursor { x: 2, y: 0 });
    v.on_event(Input::Down);
    assert_eq!(v.mode, Mode::Cursor { x: 2, y: 0 });
    v.on_event(Input::Right);
    assert_eq!(v.mode, Mode::Cursor { x: 3, y: 0 });
    v.on_event(Input::Right);
    assert_eq!(v.mode, Mode::Cursor { x: 3, y: 0 });
    for _ in 0..5 {
        v.on_event(Input::Left);
    }
    assert_eq!(v.mode, Mode::Cursor { x: 0, y: 0 });
    assert_eq!(v.viewport, Viewport::full());
}

#[test]
fn cursor_overlay_reports_color() {
    let mut v = laid_out(10, 10, 5, 100);
    v.on_event(Input::Char('c'));
    assert_eq!(v.mode, Mode::Cursor { x: 2, y: 1 });
    match v.draw(5, 100) {
        Frame::Picture { cursor, .. } => {
            let c = cursor.unwrap();
            assert_eq!((c.x, c.y, c.color), (2, 1, rgb(5, 0, 0)));
        }
        _ => panic!("expected a picture"),
    }
}

#[test]
fn layout_keeps_cursor_inside_smaller_grid() {
    let mut v = laid_out(100, 50, 40, 10);
    v.on_event(Input::Char('c'));
    v.layout(10, 10);
    assert_eq!(v.mode, Mode::Cursor { x: 9, y: 1 });
    v.layout(0, 0);
    assert!(v.scaled.is_none());
    assert_eq!(v.mode, Mode::Cursor { x: 9, y: 1 });
}

#[test]
fn failed_layout_keeps_mode_and_viewport() {
    let mut v = laid_out(100, 100, 40, 10);
    v.on_event(Input::WheelUp);
    v.on_event(Input::Char('z'));
    let before = v.viewport;
    v.layout(0, 10);
    assert!(v.scaled.is_none());
    assert_eq!(v.mode, Mode::Zoom);
    assert_eq!(v.viewport, before);
    assert!(!v.needs_relayout());
}

#[test]
fn cursor_stays_put_without_grid() {
    let mut v = laid_out(100, 50, 40, 10);
    v.on_event(Input::Char('c'));
    v.layout(0, 0);
    for e in [Input::Up, Input::Down, Input::Left, Input::Right] {
        assert_eq!(v.on_event(e), EventResult::Consumed);
        assert_eq!(v.mode, Mode::Cursor { x: 20, y: 4 });
    }
    assert!(v.cursor_mark().is_none());
    assert!(matches!(v.draw(40, 10), Frame::Placeholder { .. }));
}

#[test]
fn status_and_cursor_follow_state_on_cached_draw() {
    let mut v = laid_out(10, 10, 5, 100);
    v.draw(5, 100);
    v.on_event(Input::Char('c'));
    assert!(matches!(v.draw(5, 100), Frame::Unchanged));
    let status = v.status();
    assert_eq!(status.mode, Mode::Cursor { x: 2, y: 1 });
    assert_eq!(status.zoom_percent, 100);
    v.on_event(Input::Right);
    let mark = v.cursor_mark().unwrap();
    assert_eq!((mark.x, mark.y, mark.color), (3, 1, rgb(7, 0, 0)));
}

#[test]
fn repeated_resets_change_nothing_more() {
    let mut v = laid_out(100, 100, 40, 10);
    v.on_event(Input::WheelUp);
    v.on_event(Input::Backspace);
    assert!(v.needs_relayout());
    v.layout(40, 10);
    for _ in 0..3 {
        assert_eq!(v.on_event(Input::Backspace), EventResult::Consumed);
        assert_eq!(v.viewport, Viewport::full());
        assert_eq!(v.mode, Mode::Move);
        assert!(!v.needs_relayout());
    }
}

#[test]
fn unknown_input_is_ignored() {
    let mut v = laid_out(10, 10, 5, 5);
    assert_eq!(v.on_event(Input::Char('q')), EventResult::Ignored);
    assert_eq!(v.on_event(Input::Other), EventResult::Ignored);
    assert_eq!(v.on_event(Input::Char('m')), EventResult::Consumed);
}

#[test]
fn padding_centers_grid() {
    assert_eq!(padding(40, 13), 13);
    assert_eq!(padding(10, 10), 0);
    assert_eq!(padding(5, 9), 0);
}

#[test]
fn zoom_percent_rounds() {
    assert_eq!(zoom_percent(&Viewport::full()), 100);
    assert_eq!(zoom_percent(&Viewport { x0: 0, x1: 300_000, y0: 0, y1: 300_000 }), 333);
    assert_eq!(zoom_percent(&Viewport { x0: 0, x1: 600_000, y0: 0, y1: 600_000 }), 167);
}

#[test]
fn wide_strip_rounds_to_no_rows() {
    let mut v = laid_out(1000, 1, 80, 10);
    let g = v.scaled.as_ref().unwrap();
    assert_eq!((g.width, g.height), (80, 0));
    assert!(g.data.is_empty());
    assert_eq!(v.on_event(Input::Char('c')), EventResult::Ignored);
    assert_eq!(v.mode, Mode::Move);
    match v.draw(80, 10) {
        Frame::Picture { rows, left, top, .. } => {
            assert!(rows.is_empty());
            assert_eq!((left, top), (0, 5));
        }
        _ => panic!("expected a picture"),
    }
}

#[test]
fn tall_strip_rounds_to_no_columns() {
    let mut v = laid_out(1, 1000, 80, 10);
    let g = v.scaled.as_ref().unwrap();
    assert_eq!((g.width, g.height), (0, 10));
    assert_eq!(v.on_event(Input::Char('c')), EventResult::Ignored);
    match v.draw(80, 10) {
        Frame::Picture { rows, left, .. } => {
            assert_eq!(rows.len(), 10);
            assert!(rows.iter().all(|r| r.is_empty()));
            assert_eq!(left, 40);
        }
        _ => panic!("expected a picture"),
    }
}

#[test]
fn cursor_kept_over_empty_grid() {
    let mut v = laid_out(100, 50, 40, 10);
    v.on_event(Input::Char('c'));
    // 100 x 50 on 1 x 10 cells: one column, round(0.4) = 0 rows
    v.layout(1, 10);
    let g = v.scaled.as_ref().unwrap();
    assert_eq!((g.width, g.height), (1, 0));
    assert_eq!(v.mode, Mode::Cursor { x: 20, y: 4 });
    v.on_event(Input::Left);
    assert_eq!(v.mode, Mode::Cursor { x: 20, y: 4 });
    assert!(v.cursor_mark().is_none());
    v.layout(40, 10);
    assert_eq!(v.mode, Mode::Cursor { x: 20, y: 4 });
}
