use pixel_grid_snap::fit::{
    fit_canvas, fit_scale, integer_scale, CanvasSize, OuterProjection, ResizeEvent, RES_HEIGHT,
    RES_WIDTH,
};

fn low() -> CanvasSize {
    CanvasSize::low_res()
}

fn resized(width: u32, height: u32) -> OuterProjection {
    let mut p = OuterProjection::new();
    fit_canvas(&mut p, low(), &vec![ResizeEvent { width, height }]);
    p
}

#[test]
fn canvas_size_is_fixed() {
    assert_eq!(RES_WIDTH, 512);
    assert_eq!(RES_HEIGHT, 256);
    assert_eq!(low(), CanvasSize { width: 512, height: 256 });
}

#[test]
fn other_canvas_sizes() {
    let c = CanvasSize { width: 320, height: 180 };
    assert_eq!(integer_scale(c, 1920, 1080), 6);
    assert_eq!(integer_scale(c, 1920, 1079), 5);
    assert_eq!(fit_scale(c, 319, 1080), 1);
}

#[test]
fn double_size_window_gives_half_zoom() {
    assert_eq!(integer_scale(low(), 1024, 512), 2);
    assert_eq!(fit_scale(low(), 1024, 512), 2);
    let p = resized(1024, 512);
    assert_eq!(p.zoom(), (1, 2));
    let (n, d) = p.zoom();
    assert_eq!(n as f32 / d as f32, 0.5);
}

#[test]
fn smaller_axis_bounds_the_scale() {
    assert_eq!(integer_scale(low(), 1536, 512), 2);
    assert_eq!(integer_scale(low(), 1536, 768), 3);
    assert_eq!(integer_scale(low(), 1536, 1024), 3);
    assert_eq!(resized(1536, 768).zoom(), (1, 3));
}

#[test]
fn scale_rounds_down() {
    assert_eq!(integer_scale(low(), 600, 300), 1);
    assert_eq!(fit_scale(low(), 600, 300), 1);
    assert_eq!(resized(600, 300).zoom(), (1, 1));
    assert_eq!(integer_scale(low(), 1023, 10_000), 1);
    assert_eq!(integer_scale(low(), 1535, 767), 2);
}

#[test]
fn window_smaller_than_canvas_clamps_to_one() {
    assert_eq!(integer_scale(low(), 511, 256), 0);
    assert_eq!(fit_scale(low(), 511, 256), 1);
    assert_eq!(resized(511, 256).zoom(), (1, 1));
    assert_eq!(integer_scale(low(), 512, 255), 0);
    assert_eq!(fit_scale(low(), 0, 0), 1);
}

#[test]
fn largest_window_does_not_overflow() {
    assert_eq!(integer_scale(low(), u32::MAX, u32::MAX), u32::MAX / 512);
    assert_eq!(fit_scale(low(), u32::MAX, 256), 1);
}

#[test]
fn same_event_twice_equals_once() {
    let e = ResizeEvent { width: 1600, height: 900 };
    let mut once = OuterProjection::new();
    fit_canvas(&mut once, low(), &vec![e]);
    let mut twice = OuterProjection::new();
    fit_canvas(&mut twice, low(), &vec![e, e]);
    assert_eq!(once, twice);
    assert_eq!(twice.zoom(), (1, 3));
}

#[test]
fn last_event_of_batch_wins() {
    let mut p = OuterProjection::new();
    fit_canvas(
        &mut p,
        low(),
        &vec![
            ResizeEvent { width: 2048, height: 1024 },
            ResizeEvent { width: 1024, height: 512 },
        ],
    );
    assert_eq!(p.zoom(), (1, 2));
    fit_canvas(
        &mut p,
        low(),
        &vec![
            ResizeEvent { width: 1024, height: 512 },
            ResizeEvent { width: 2048, height: 1024 },
        ],
    );
    assert_eq!(p.zoom(), (1, 4));
}

#[test]
fn empty_batch_keeps_zoom() {
    let mut p = resized(1536, 768);
    fit_canvas(&mut p, low(), &vec![]);
    assert_eq!(p.divisor, 3);
}

#[test]
fn apply_resize_sets_divisor() {
    let mut p = OuterProjection::new();
    assert_eq!(p.divisor, 1);
    p.apply_resize(low(), ResizeEvent { width: 2560, height: 1440 });
    assert_eq!(p.divisor, 5);
}
