use rasterizer::color::Rgba;
use rasterizer::compositor::{
    classify_fragments, sort_by_depth, xy_to_1d, Compositor, FARTHEST_RAW,
};
use rasterizer::fixed::Fixed;
use rasterizer::rasterizer::ToDraw;

fn fx(v: f64) -> Fixed {
    Fixed::from_raw((v * 100_000_000.0).round() as i64)
}

#[test]
fn test_xy_to_1d() {
    let height = 500;
    let width = 500;
    assert_eq!(xy_to_1d(0, 0, width, height), Some(0));
    assert_eq!(xy_to_1d(0, 1, width, height), Some(500));
    assert_eq!(xy_to_1d(499, 499, width, height), Some(249999));
    assert_eq!(xy_to_1d(500, 499, width, height), None);
}

#[test]
fn test_xy_to_1d_rejects_negative() {
    assert_eq!(xy_to_1d(-1, 0, 10, 10), None);
    assert_eq!(xy_to_1d(0, -1, 10, 10), None);
    assert_eq!(xy_to_1d(0, 10, 10, 10), None);
}

#[test]
fn test_classify_splits_by_alpha() {
    let opaque_frag = ToDraw::new(0, 0, Rgba::color(fx(1.0), fx(0.0), fx(0.0)), fx(0.0));
    let clear_frag = ToDraw::new(
        1,
        0,
        Rgba::color_a(fx(0.0), fx(1.0), fx(0.0), fx(0.5)),
        fx(0.0),
    );
    let (opaque, transparent) = classify_fragments(&vec![clear_frag, opaque_frag, clear_frag]);
    assert_eq!(opaque, vec![opaque_frag]);
    assert_eq!(transparent, vec![clear_frag, clear_frag]);
}

#[test]
fn test_sort_by_depth_farthest_first() {
    let c = Rgba::color(fx(1.0), fx(1.0), fx(1.0));
    let f3 = ToDraw::new(0, 0, c, fx(3.0));
    let f1 = ToDraw::new(1, 0, c, fx(1.0));
    let f2 = ToDraw::new(2, 0, c, fx(2.0));
    let sorted = sort_by_depth(&vec![f3, f1, f2]);
    assert_eq!(sorted, vec![f1, f2, f3]);
}

#[test]
fn test_opaque_depth_resolution_is_order_independent() {
    // Two opaque fragments at one pixel: the nearer (greater-depth) one
    // wins whichever is submitted first.
    let red = Rgba::color(fx(1.0), fx(0.0), fx(0.0));
    let blue = Rgba::color(fx(0.0), fx(0.0), fx(1.0));
    let farther = ToDraw::new(0, 0, red, fx(1.0));
    let nearer = ToDraw::new(0, 0, blue, fx(2.0));

    let mut comp = Compositor::new(2, 2);
    let packed = comp.composite(&vec![farther, nearer]);
    assert_eq!(packed[0], 0x0000FF);

    let mut comp2 = Compositor::new(2, 2);
    let packed2 = comp2.composite(&vec![nearer, farther]);
    assert_eq!(packed2[0], 0x0000FF);
}

#[test]
fn test_transparent_fragments_blend_back_to_front() {
    // An opaque white floor, then two transparent layers; submission order
    // of the transparent pair must not matter.
    let white = Rgba::color(fx(1.0), fx(1.0), fx(1.0));
    let red_glass = Rgba::color_a(fx(1.0), fx(0.0), fx(0.0), fx(0.5));
    let blue_glass = Rgba::color_a(fx(0.0), fx(0.0), fx(1.0), fx(0.5));
    let floor = ToDraw::new(0, 0, white, fx(0.0));
    let mid = ToDraw::new(0, 0, red_glass, fx(1.0));
    let top = ToDraw::new(0, 0, blue_glass, fx(2.0));

    // white, then red over it (r 1.0, g 0.5, b 0.5), then blue over that
    // (r 0.5, g 0.25, b 0.75) -> bytes (127, 63, 191).
    let expected = 127 * 0x1_0000 + 63 * 0x100 + 191;

    let mut comp = Compositor::new(1, 1);
    let packed = comp.composite(&vec![floor, mid, top]);
    assert_eq!(packed[0], expected);

    let mut comp2 = Compositor::new(1, 1);
    let packed2 = comp2.composite(&vec![floor, top, mid]);
    assert_eq!(packed2[0], expected);
}

#[test]
fn test_fragments_outside_the_buffer_are_ignored() {
    let red = Rgba::color(fx(1.0), fx(0.0), fx(0.0));
    let outside = ToDraw::new(5, 5, red, fx(1.0));
    let mut comp = Compositor::new(2, 2);
    let packed = comp.composite(&vec![outside]);
    assert!(packed.iter().all(|p| *p == 0));
}

#[test]
fn test_reset_clears_colors_and_depths() {
    let red = Rgba::color(fx(1.0), fx(0.0), fx(0.0));
    let frag = ToDraw::new(0, 0, red, fx(1.0));
    let mut comp = Compositor::new(2, 2);
    let _ = comp.composite(&vec![frag]);
    comp.reset();
    assert!(comp.depth_buffer.iter().all(|d| d.raw == FARTHEST_RAW));
    assert!(comp.packed_buffer().iter().all(|p| *p == 0));
}
