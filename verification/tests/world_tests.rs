use rasterizer::fixed::Fixed;
use rasterizer::geometry::{cube, direction, square, triangle, Animation, GeometryType};
use rasterizer::math::Vec3;
use rasterizer::math::identity_matrix;
use rasterizer::world::{Camera, World};

fn fx(v: f64) -> Fixed {
    Fixed::from_raw((v * 100_000_000.0).round() as i64)
}

#[test]
fn test_factories_are_well_formed() {
    for geo in [rasterizer::geometry::line(), triangle(), square(), cube()] {
        assert!(geo.indices_valid());
    }
    assert_eq!(rasterizer::geometry::line().geo_type, GeometryType::Line);
    assert_eq!(rasterizer::geometry::line().vertices.len(), 2);
    assert_eq!(triangle().vertices.len(), 3);
    assert_eq!(square().vertices.len(), 6);
    assert_eq!(square().vertex_locations.len(), 4);
    assert_eq!(cube().vertices.len(), 36);
    assert_eq!(cube().vertex_locations.len(), 8);
}

#[test]
fn test_local_to_world_leaves_the_original_untouched() {
    let mut geo = triangle();
    geo.translate(direction(fx(5.0), fx(0.0), fx(0.0)));
    let local_before = geo.vertex_locations.clone();
    let moved = geo.local_to_world(fx(0.0), identity_matrix(), fx(0.0));
    assert_eq!(geo.vertex_locations, local_before);
    assert_eq!(moved.vertex_locations[0].x, fx(4.0));
}

#[test]
fn test_near_plane_drops_fully_near_triangles() {
    // All three vertices on the near side (z > 0): the triangle is culled.
    let mut near_side = triangle();
    near_side.translate(direction(fx(0.0), fx(0.0), fx(5.0)));
    let culled = near_side.local_to_world(fx(0.0), identity_matrix(), fx(0.0));
    assert_eq!(culled.vertices.len(), 0);

    // One vertex at or beyond the plane keeps the whole triangle.
    let kept = triangle().local_to_world(fx(0.0), identity_matrix(), fx(0.0));
    assert_eq!(kept.vertices.len(), 3);
}

#[test]
fn test_world_object_outside_viewport_is_excluded() {
    let mut world = World::default();
    let mut far_away = rasterizer::geometry::line();
    far_away.translate(direction(fx(200.0), fx(200.0), fx(0.0)));
    world.insert(far_away);
    let camera = Camera::new(fx(100.0), fx(100.0), fx(0.0));
    let seen = camera.world_view(&world, fx(100.0), fx(100.0), fx(0.0));
    assert_eq!(seen.len(), 0);
}

#[test]
fn test_world_object_with_vertex_inside_is_included() {
    let mut world = World::default();
    let mut nearby = rasterizer::geometry::line();
    nearby.translate(direction(fx(50.0), fx(50.0), fx(0.0)));
    world.insert(nearby);
    let camera = Camera::new(fx(100.0), fx(100.0), fx(0.0));
    let seen = camera.world_view(&world, fx(100.0), fx(100.0), fx(0.0));
    assert_eq!(seen.len(), 1);
}

#[test]
fn test_world_object_spanning_viewport_is_included() {
    // A long horizontal line crossing the whole viewport with both
    // endpoints outside it: kept by the edge-crossing test.
    let mut world = World::default();
    let mut spanning = rasterizer::geometry::line();
    spanning.scale(Vec3 { x: fx(1000.0), y: fx(1.0), z: fx(1.0) });
    spanning.translate(direction(fx(-400.0), fx(50.0), fx(0.0)));
    world.insert(spanning);
    let camera = Camera::new(fx(100.0), fx(100.0), fx(0.0));
    let seen = camera.world_view(&world, fx(100.0), fx(100.0), fx(0.0));
    assert_eq!(seen.len(), 1);
}

#[test]
fn test_camera_to_screen_rescales_anisotropically() {
    let mut world = World::default();
    let mut nearby = rasterizer::geometry::line();
    nearby.translate(direction(fx(50.0), fx(25.0), fx(0.0)));
    world.insert(nearby);
    let camera = Camera::new(fx(100.0), fx(100.0), fx(0.0));
    let seen = camera.world_view(&world, fx(200.0), fx(400.0), fx(0.0));
    assert_eq!(seen.len(), 1);
    // The zero-angle rotation is exact to within the comparison epsilon.
    assert!((seen[0].vertex_locations[0].x.raw - fx(100.0).raw).abs() < 1_000);
    assert!((seen[0].vertex_locations[0].y.raw - fx(100.0).raw).abs() < 1_000);
}

#[test]
fn test_camera_reposition_and_translate() {
    let mut camera = Camera::new(fx(100.0), fx(100.0), fx(0.0));
    camera.reposition(fx(10.0), fx(20.0));
    assert_eq!(camera.x, fx(10.0));
    assert_eq!(camera.y, fx(20.0));
    // With a zero angle the rotation is nearly exact; moving by (5, -5)
    // lands within the comparison epsilon of (15, 15).
    camera.translate(fx(5.0), fx(-5.0));
    assert!((camera.x.raw - fx(15.0).raw).abs() < 2_000);
    assert!((camera.y.raw - fx(15.0).raw).abs() < 2_000);
}

#[test]
fn test_animation_rotates_over_time() {
    let mut geo = triangle();
    let before = geo.rotation;
    geo.set_animation(Animation::Rotate { x_rate: fx(0.0), y_rate: fx(0.0), z_rate: fx(1.0) });
    geo.animate(fx(1.5));
    assert_ne!(geo.rotation, before);
}

#[test]
fn test_set_color_recolors_every_vertex() {
    let mut geo = square();
    geo.set_color(rasterizer::color::Color::Cyan);
    for v in &geo.vertices {
        assert_eq!(v.color, rasterizer::color::Color::Cyan);
    }
}

#[test]
fn test_transform_proj_divides_by_w_and_keeps_z() {
    let mut geo = rasterizer::geometry::line();
    geo.vertex_locations[0] = rasterizer::math::Vec4 {
        x: fx(2.0),
        y: fx(4.0),
        z: fx(6.0),
        w: fx(2.0),
    };
    geo.transform_proj(identity_matrix());
    let p = geo.vertex_locations[0];
    assert_eq!(p.x, fx(1.0));
    assert_eq!(p.y, fx(2.0));
    assert_eq!(p.z, fx(6.0));
    assert_eq!(p.w, fx(1.0));
    // A zero w skips the divide.
    let q = geo.vertex_locations[1];
    assert_eq!(q.w, fx(1.0));
}
