use pixel_grid_snap::compose::{camera_draws, setup_camera, Clear, RenderLayer, Target};
use pixel_grid_snap::scene::{
    bin, bin_percent, fill_width, number_label, setup_bins, setup_numbers, Element, Look, Paint,
};
use pixel_grid_snap::text::{decimal_string, percent_string, two_digit_string};

fn caption(e: &Element) -> (String, u32) {
    match &e.look {
        Look::Caption { text, font_size } => (text.clone(), *font_size),
        Look::Block { .. } => panic!("expected a caption"),
    }
}

fn block(e: &Element) -> (u32, u32, Paint) {
    match &e.look {
        Look::Block { width, height, paint } => (*width, *height, *paint),
        Look::Caption { .. } => panic!("expected a block"),
    }
}

#[test]
fn decimal_captions() {
    assert_eq!(decimal_string(0), "0");
    assert_eq!(decimal_string(7), "7");
    assert_eq!(decimal_string(90), "90");
    assert_eq!(decimal_string(4_294_967_295), "4294967295");
    assert_eq!(two_digit_string(3), "03");
    assert_eq!(two_digit_string(42), "42");
    assert_eq!(percent_string(75), "75%");
    assert_eq!(percent_string(100), "100%");
}

#[test]
fn number_grid_has_2500_labels() {
    let numbers = setup_numbers();
    assert_eq!(numbers.len(), 2500);
    assert!(numbers.iter().all(|n| n.label.layer == RenderLayer::PixelPerfect));
}

#[test]
fn number_grid_positions_and_digits() {
    let numbers = setup_numbers();
    let first = &numbers[0];
    assert_eq!(first.column, 0);
    assert_eq!((first.label.at.x, first.label.at.y, first.label.at.depth_tenths), (-256, -128, 0));
    assert_eq!(caption(&first.label), ("0".to_string(), 12));
    let n = &numbers[50 * 3 + 17];
    assert_eq!(n.column, 17);
    assert_eq!((n.label.at.x, n.label.at.y), (-256 + 17 * 20, -128 + 3 * 20));
    assert_eq!(caption(&n.label).0, "7");
    let last = &numbers[2499];
    assert_eq!((last.label.at.x, last.label.at.y), (724, 852));
    assert_eq!(caption(&last.label).0, "9");
    assert_eq!(caption(&number_label(5, 23).label).0, "3");
}

#[test]
fn chart_has_five_bins_of_four_parts() {
    let bins = setup_bins();
    assert_eq!(bins.len(), 5);
    assert!(bins.iter().all(|b| b.parts.len() == 4));
    assert_eq!(bins.iter().map(|b| b.parts.len()).sum::<usize>(), 20);
    for (i, b) in bins.iter().enumerate() {
        assert_eq!(b.index as usize, i);
        assert_eq!(b.body.layer, RenderLayer::PixelPerfect);
        assert!(b.parts.iter().all(|e| e.layer == RenderLayer::PixelPerfect));
    }
}

#[test]
fn third_bin_fill_is_72_units() {
    assert_eq!(bin_percent(2), 90);
    assert_eq!(fill_width(2), 72);
    let bins = setup_bins();
    assert_eq!(block(&bins[2].parts[2]), (72, 20, Paint::BarFill));
}

#[test]
fn fill_widths_follow_percentages() {
    let widths: Vec<u32> = (0..5).map(fill_width).collect();
    assert_eq!(widths, vec![60, 36, 72, 24, 48]);
}

#[test]
fn bin_layout() {
    let b = bin(1);
    assert_eq!(block(&b.body), (80, 40, Paint::BinBody));
    assert_eq!((b.body.at.x, b.body.at.y, b.body.at.depth_tenths), (-106, -68, 10));
    assert_eq!(caption(&b.parts[0]), ("02".to_string(), 14));
    assert_eq!(b.parts[0].at.depth_tenths, 13);
    assert_eq!(block(&b.parts[1]), (80, 20, Paint::BarBackground));
    assert_eq!((b.parts[1].at.x, b.parts[1].at.y), (-106, -103));
    assert_eq!(block(&b.parts[2]), (36, 20, Paint::BarFill));
    assert_eq!((b.parts[2].at.x, b.parts[2].at.y, b.parts[2].at.depth_tenths), (-128, -103, 11));
    assert_eq!(caption(&b.parts[3]), ("45%".to_string(), 10));
    assert_eq!(b.parts[3].at.depth_tenths, 12);
}

#[test]
fn bar_fills_start_at_the_left_edge() {
    for b in setup_bins() {
        let (w, _, _) = block(&b.parts[2]);
        assert_eq!(2 * b.parts[2].at.x - w as i32, 2 * b.parts[1].at.x - 80);
    }
}

#[test]
fn cameras_draw_disjoint_layers_in_order() {
    let c = setup_camera();
    assert_eq!((c.canvas.width, c.canvas.height), (512, 256));
    assert!(c.in_game.order < c.outer.order);
    assert_eq!(c.in_game.target, Target::Canvas);
    assert_eq!(c.outer.target, Target::Window);
    assert_eq!(c.in_game.clear, Clear::Gray);
    for layer in [RenderLayer::PixelPerfect, RenderLayer::HighRes] {
        assert_ne!(camera_draws(&c.in_game, layer), camera_draws(&c.outer, layer));
    }
    assert!(camera_draws(&c.outer, c.canvas_sprite_layer));
    assert!(!camera_draws(&c.in_game, c.canvas_sprite_layer));
}
