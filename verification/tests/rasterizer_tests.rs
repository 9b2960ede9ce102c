use rasterizer::color::{Color, Rgba};
use rasterizer::fixed::Fixed;
use rasterizer::geometry::{point, triangle, GeoError};
use rasterizer::rasterizer::{draw_line, rasterize_geometry, rasterize_triangle, ToDraw};
use std::collections::BTreeSet;

fn fx(v: f64) -> Fixed {
    Fixed::from_raw((v * 100_000_000.0).round() as i64)
}

#[test]
fn test_point() {
    let x = 1;
    let y = 1;
    let c = Rgba::color(fx(1.0), fx(0.0), fx(0.0));
    let target = vec![ToDraw::new(x, y, c, fx(0.0))];
    let mut calculated = vec![];
    let vertex = point(fx(x as f64), fx(y as f64), fx(0.0));
    draw_line(&vertex, &vertex, &c, &c, &mut calculated);
    assert_eq!(calculated, target);
}

#[test]
fn test_line() {
    let x = 1;
    let y = 1;
    let c = Rgba::color(fx(1.0), fx(0.0), fx(0.0));
    let origin = ToDraw::new(x, y, c, fx(0.0));
    let vertex1 = point(fx(x as f64), fx(y as f64), fx(0.0));
    for dx in -1..=1 {
        for dy in -1..=1 {
            if dx == 0 && dy == 0 {
                continue;
            }
            let vertex2 = point(fx((x + dx) as f64), fx((y + dy) as f64), fx(0.0));
            let mut line = vec![];
            draw_line(&vertex1, &vertex2, &c, &c, &mut line);
            let target_point = ToDraw::new(x + dx, y + dy, c, fx(0.0));
            let mut target_line = BTreeSet::new();
            assert!(target_line.insert(&origin));
            assert!(target_line.insert(&target_point));
            let computed_line = BTreeSet::from_iter(line.iter());
            assert_eq!(target_line, computed_line);
            // Endpoint-order symmetry: the reversed line covers the same set.
            let mut reversed = vec![];
            draw_line(&vertex2, &vertex1, &c, &c, &mut reversed);
            let reversed_set = BTreeSet::from_iter(reversed.iter());
            assert_eq!(target_line, reversed_set);
        }
    }
}

#[test]
fn test_fp_line() {
    let x0: f64 = 0.8;
    let y0: f64 = 1.1;
    let x1: f64 = 2.4;
    let y1: f64 = 2.3;
    let c = Rgba::from_color(&Color::Red);
    let target_line = vec![
        ToDraw::new(x0.round() as i32, y0.round() as i32, c, fx(0.0)),
        ToDraw::new(x1.round() as i32, y1.round() as i32, c, fx(0.0)),
    ];
    let mut computed_line = vec![];
    draw_line(
        &point(fx(x0), fx(y0), fx(0.0)),
        &point(fx(x1), fx(y1), fx(0.0)),
        &c,
        &c,
        &mut computed_line,
    );
    assert_eq!(
        BTreeSet::from_iter(target_line.into_iter()),
        BTreeSet::from_iter(computed_line.into_iter()),
    );
}

#[test]
fn test_triangle() {
    let color = Rgba::from_color(&Color::Red);
    let v1 = point(fx(0.0), fx(0.0), fx(0.0));
    let v2 = point(fx(2.0), fx(0.0), fx(0.0));
    let v3 = point(fx(1.0), fx(1.0), fx(0.0));
    let mut computed_triangle = vec![];
    rasterize_triangle(&v1, &v2, &v3, &color, &color, &color, &mut computed_triangle);
    let target_triangle = vec![
        ToDraw::new(0, 0, color, fx(0.0)),
        ToDraw::new(2, 0, color, fx(0.0)),
        ToDraw::new(1, 1, color, fx(0.0)),
        ToDraw::new(1, 0, color, fx(0.0)),
    ];
    assert_eq!(
        BTreeSet::from_iter(target_triangle.into_iter()),
        BTreeSet::from_iter(computed_triangle.into_iter())
    );
}

#[test]
fn test_triangle_fp() {
    let color = Rgba::from_color(&Color::Red);
    let v1 = point(fx(0.1), fx(0.2), fx(0.0));
    let v2 = point(fx(1.8), fx(0.3), fx(0.0));
    let v3 = point(fx(1.1), fx(0.9), fx(0.0));
    let mut computed_triangle = vec![];
    rasterize_triangle(&v1, &v2, &v3, &color, &color, &color, &mut computed_triangle);
    let target_triangle = vec![
        ToDraw::new(0, 0, color, fx(0.0)),
        ToDraw::new(2, 0, color, fx(0.0)),
        ToDraw::new(1, 1, color, fx(0.0)),
        ToDraw::new(1, 0, color, fx(0.0)),
    ];
    assert_eq!(
        BTreeSet::from_iter(target_triangle.into_iter()),
        BTreeSet::from_iter(computed_triangle.into_iter())
    );
}

#[test]
fn test_zero_area_triangle_is_skipped() {
    let color = Rgba::from_color(&Color::Red);
    let v1 = point(fx(0.0), fx(0.0), fx(0.0));
    let v2 = point(fx(1.0), fx(1.0), fx(0.0));
    let v3 = point(fx(2.0), fx(2.0), fx(0.0));
    let mut computed = vec![];
    rasterize_triangle(&v1, &v2, &v3, &color, &color, &color, &mut computed);
    assert!(computed.is_empty());
}

#[test]
fn test_line_interpolates_color_and_depth() {
    // A four-pixel horizontal line from red to blue, depth 0 to 3.
    let c1 = Rgba::color(fx(1.0), fx(0.0), fx(0.0));
    let c2 = Rgba::color(fx(0.0), fx(0.0), fx(1.0));
    let v1 = point(fx(0.0), fx(0.0), fx(0.0));
    let v2 = point(fx(3.0), fx(0.0), fx(3.0));
    let mut frags = vec![];
    draw_line(&v1, &v2, &c1, &c2, &mut frags);
    assert_eq!(frags.len(), 4);
    assert_eq!(frags[0], ToDraw::new(0, 0, c1, fx(0.0)));
    // One third of the way: r = 1 - 1/3, b = 1/3, depth = 1 (truncated).
    assert_eq!(frags[1].x, 1);
    assert_eq!(frags[1].color.r, Fixed::from_raw(66_666_667));
    assert_eq!(frags[1].color.b, Fixed::from_raw(33_333_333));
    assert_eq!(frags[1].depth, Fixed::from_raw(99_999_999));
    assert_eq!(frags[3], ToDraw::new(3, 0, c2, fx(3.0)));
}

#[test]
fn test_rasterize_geometry_not_div_3() {
    let mut geo = triangle();
    geo.set_name(Some("lopsided".to_string()));
    geo.vertices.push(rasterizer::geometry::Vertex { index: 0, color: Color::Red });
    let mut buffer = vec![];
    let result = rasterize_geometry(&geo, &mut buffer);
    assert_eq!(result, Err(GeoError::NotDiv3(Some("lopsided".to_string()))));
    assert!(buffer.is_empty());
}

#[test]
fn test_rasterize_geometry_line_covers_endpoints() {
    let geo = rasterizer::geometry::line();
    let mut buffer = vec![];
    let result = rasterize_geometry(&geo, &mut buffer);
    assert!(result.is_ok());
    // line() runs from the origin to (1, 0, 1): two pixels.
    assert_eq!(buffer.len(), 2);
    assert_eq!((buffer[0].x, buffer[0].y), (0, 0));
    assert_eq!((buffer[1].x, buffer[1].y), (1, 0));
}
