use rasterizer::color::{Color, Rgba};
use rasterizer::fixed::Fixed;

fn fx(v: f64) -> Fixed {
    Fixed::from_raw((v * 100_000_000.0).round() as i64)
}

#[test]
fn test_into_u32() {
    let black_rgba = Rgba::color(fx(1.0), fx(1.0), fx(1.0)).to_u32();
    let black_u32 = u32::MAX >> 8;
    assert_eq!(black_rgba, black_u32);

    let white_rgba = Rgba::color(fx(0.0), fx(0.0), fx(0.0)).to_u32();
    let white_u32 = 0;
    assert_eq!(white_rgba, white_u32);

    let green_rgba = Rgba::color(fx(0.0), fx(1.0), fx(0.0)).to_u32();
    let green_u32 = (u16::MAX as u32) ^ (u8::MAX as u32);
    assert_eq!(green_rgba, green_u32);
}

#[test]
fn test_color_eq() {
    assert_eq!(Rgba::from_color(&Color::Blue), Rgba::from_color(&Color::Blue));
    assert_ne!(Rgba::from_color(&Color::Blue), Rgba::from_color(&Color::Red));
}

#[test]
fn test_color_add() {
    let blue: Rgba = Rgba::from_color(&Color::Blue);
    let red: Rgba = Rgba::from_color(&Color::Red);
    assert_eq!(blue.add(&red), Rgba::color_a(fx(1.0), fx(0.0), fx(1.0), fx(2.0)));
}

#[test]
fn test_color_mul() {
    let orig = Rgba::color_a(fx(1.0), fx(1.0), fx(1.0), fx(1.0));
    let left_mul = orig.scaled(fx(2.0));
    let right_mul = orig.scaled(fx(0.2));
    assert_eq!(left_mul, Rgba::color_a(fx(2.0), fx(2.0), fx(2.0), fx(2.0)));
    assert_eq!(right_mul, Rgba::color_a(fx(0.2), fx(0.2), fx(0.2), fx(0.2)));
}

#[test]
fn test_over_blend_formula() {
    // src * a + dst * (1 - a) per channel, alpha channels add.
    let mut under = Rgba::color(fx(0.2), fx(0.4), fx(0.6));
    let over = Rgba::color_a(fx(1.0), fx(0.5), fx(0.0), fx(0.5));
    under.over_blend(over);
    assert_eq!(under.r, fx(0.6));
    assert_eq!(under.g, fx(0.45));
    assert_eq!(under.b, fx(0.3));
    assert_eq!(under.a, fx(1.5));
}

#[test]
fn test_over_blend_opaque_replaces() {
    let mut under = Rgba::color(fx(0.2), fx(0.4), fx(0.6));
    let over = Rgba::color_a(fx(0.9), fx(0.8), fx(0.7), fx(1.0));
    under.over_blend(over);
    assert_eq!(under.r, fx(0.9));
    assert_eq!(under.g, fx(0.8));
    assert_eq!(under.b, fx(0.7));
}

#[test]
fn test_over_blend_transparent_keeps() {
    let mut under = Rgba::color(fx(0.2), fx(0.4), fx(0.6));
    let over = Rgba::color_a(fx(0.9), fx(0.8), fx(0.7), fx(0.0));
    under.over_blend(over);
    assert_eq!(under.r, fx(0.2));
    assert_eq!(under.g, fx(0.4));
    assert_eq!(under.b, fx(0.6));
}

#[test]
fn test_pack_clamps_out_of_range_channels() {
    // Channels above 1 clamp to 255; below 0 clamp to 0.
    let hot = Rgba::color(fx(2.0), fx(-1.0), fx(0.5));
    assert_eq!(hot.to_u32(), 0xFF_00_7F);
}
