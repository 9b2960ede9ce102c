//! The world of objects, and the camera that maps it to the screen.
//!
//! `world_view` is the per-frame query: each object is carried to screen
//! space on a copy, kept only if it intersects the camera's axis-aligned
//! viewport (a vertex inside, or an edge whose boundary-axis intercept
//! falls inside the viewport's orthogonal extent), then re-centered on the
//! camera's rotation pivot, rotated, translated so the camera maps to the
//! origin, and rescaled anisotropically to the target resolution.

use crate::fixed::{f_add, f_div, f_mul, f_neg, f_sub, Fixed, SCALE};
use crate::geometry::{
    spec_camera_to_screen, spec_direction, spec_local_to_world, spec_point, spec_transform_model,
    wf_geometry, GeoModel, Geometry, GeometryType,
};
use crate::math::{
    identity_matrix, mat_mul, mat_vec_mul, spec_identity_matrix, spec_mat_mul, spec_mat_vec_mul,
    spec_translation_matrix, spec_z_rotation_matrix, translation_matrix, z_rotation_matrix, Mat4,
    Vec3, Vec4,
};
use vstd::prelude::*;

verus! {

/// An unordered bag of geometry; insertion order matters only for
/// deterministic iteration.
#[derive(Debug, Default)]
pub struct World {
    pub objects: Vec<Geometry>,
}

/// A viewport rectangle in world units (origin, width, height) and a
/// rotation angle about its center.
#[derive(Debug, Clone, Copy, PartialEq, Eq, Structural)]
pub struct Camera {
    pub x: Fixed,
    pub y: Fixed,
    pub height: Fixed,
    pub width: Fixed,
    pub angle: Fixed,
}

impl World {
    pub fn insert(&mut self, obj: Geometry)
        ensures
            final(self).objects@ == old(self).objects@.push(obj),
    {
        self.objects.push(obj);
    }
}

/// Is the point inside the half-open viewport rectangle?
pub open spec fn spec_point_in_bounds(cam: Camera, p: Vec4) -> bool {
    &&& cam.x.raw <= p.x.raw < f_add(cam.x, cam.width).raw
    &&& cam.y.raw <= p.y.raw < f_add(cam.y, cam.height).raw
}

/// Does any vertex location lie inside the viewport?
pub open spec fn spec_vertex_in_bounds(cam: Camera, g: GeoModel) -> bool {
    exists|i: int| 0 <= i < g.locations.len() && spec_point_in_bounds(cam, #[trigger] g.locations[i])
}

/// Does the infinite line `x = (y - y_int) / slope` meet the boundary line
/// at height `y` inside `[bound_min, bound_max)`? A zero slope (exact, or
/// underflowed to zero in fixed point) reports no crossing.
pub open spec fn spec_intercept(slope: Fixed, y_int: Fixed, y: Fixed, bound_min: Fixed, bound_max: Fixed) -> bool {
    if slope.raw == 0 {
        false
    } else {
        let x_input = f_div(f_sub(y, y_int), slope);
        bound_min.raw <= x_input.raw < bound_max.raw
    }
}

/// Does the edge from `p1` to `p2`, treated as an infinite line, cross one
/// of the four viewport boundary lines within the viewport's extent?
/// Horizontal and vertical lines are special-cased; a degenerate edge (both
/// differences zero) or a slope that truncates to zero crosses nothing.
pub open spec fn spec_edge_crossing(cam: Camera, p1: Vec4, p2: Vec4) -> bool {
    let dx = f_sub(p2.x, p1.x);
    let dy = f_sub(p2.y, p1.y);
    if dy.raw == 0 && dx.raw != 0 {
        cam.y.raw <= p1.y.raw <= f_add(cam.y, cam.height).raw
    } else if dx.raw == 0 && dy.raw != 0 {
        cam.x.raw <= p1.x.raw <= f_add(cam.x, cam.width).raw
    } else if dx.raw == 0 && dy.raw == 0 {
        false
    } else {
        let slope = f_div(dy, dx);
        if slope.raw == 0 {
            false
        } else {
            let y_int = f_sub(p1.y, f_mul(slope, p1.x));
            let slope_flipped = f_div(Fixed { raw: SCALE }, slope);
            let y_int_flipped = f_sub(p1.x, f_mul(slope_flipped, p1.y));
            ||| spec_intercept(slope, y_int, cam.y, cam.x, f_add(cam.x, cam.width))
            ||| spec_intercept(slope, y_int, f_add(cam.y, cam.height), cam.x, f_add(cam.x, cam.width))
            ||| spec_intercept(slope_flipped, y_int_flipped, cam.x, cam.y, f_add(cam.y, cam.height))
            ||| spec_intercept(
                slope_flipped,
                y_int_flipped,
                f_add(cam.x, cam.width),
                cam.y,
                f_add(cam.y, cam.height),
            )
        }
    }
}

/// The number of edges walked by the visibility test: consecutive pairs,
/// wrapping around for closed primitives but not for open lines.
pub open spec fn spec_edge_count(g: GeoModel) -> int {
    if g.geo_type == GeometryType::Line {
        if g.locations.len() == 0 {
            0
        } else {
            g.locations.len() - 1
        }
    } else {
        g.locations.len() as int
    }
}

/// The index following `i`, wrapping at the end of the location list.
pub open spec fn spec_next_location(g: GeoModel, i: int) -> int {
    if i == g.locations.len() - 1 {
        0
    } else {
        i + 1
    }
}

pub open spec fn spec_any_edge_crossing(cam: Camera, g: GeoModel) -> bool {
    exists|i: int|
        0 <= i < spec_edge_count(g) && spec_edge_crossing(
            cam,
            #[trigger] g.locations[i],
            g.locations[spec_next_location(g, i)],
        )
}

/// The visibility test: an object survives if any vertex lies inside the
/// viewport, or any edge crosses a viewport boundary.
pub open spec fn spec_obj_view(cam: Camera, g: GeoModel) -> bool {
    spec_vertex_in_bounds(cam, g) || spec_any_edge_crossing(cam, g)
}

/// The composed post-filter transform: re-center on the rotation pivot
/// (the viewport center), rotate, undo the re-centering, then translate the
/// camera position to the origin.
pub open spec fn spec_final_transform(cam: Camera) -> Mat4 {
    let two = crate::fixed::f_from_int(2);
    let cx = f_neg(f_add(cam.x, f_div(cam.width, two)));
    let cy = f_neg(f_add(cam.y, f_div(cam.height, two)));
    let to_center = spec_translation_matrix(Vec3 { x: cx, y: cy, z: Fixed { raw: 0 } });
    let undo = spec_translation_matrix(
        Vec3 { x: f_neg(cx), y: f_neg(cy), z: f_neg(Fixed { raw: 0 }) },
    );
    let rotation = spec_z_rotation_matrix(cam.angle);
    let to_origin = spec_translation_matrix(
        Vec3 { x: f_neg(cam.x), y: f_neg(cam.y), z: Fixed { raw: 0 } },
    );
    spec_mat_mul(spec_mat_mul(spec_mat_mul(to_origin, undo), rotation), to_center)
}

/// What one world object contributes to the frame: its screen-space copy if
/// it is visible, nothing otherwise.
pub open spec fn spec_world_view_item(
    cam: Camera,
    o: GeoModel,
    target_width: Fixed,
    target_height: Fixed,
    time: Fixed,
) -> Seq<GeoModel> {
    let s = spec_local_to_world(o, time, spec_identity_matrix(), Fixed { raw: 0 });
    if spec_obj_view(cam, s) {
        seq![
            spec_camera_to_screen(
                spec_transform_model(s, spec_final_transform(cam)),
                cam.width,
                cam.height,
                target_width,
                target_height,
            ),
        ]
    } else {
        Seq::empty()
    }
}

/// The frame contributions of the first `k` objects, in order.
pub open spec fn spec_world_view_models(
    cam: Camera,
    objs: Seq<GeoModel>,
    k: int,
    target_width: Fixed,
    target_height: Fixed,
    time: Fixed,
) -> Seq<GeoModel>
    decreases k,
{
    if k <= 0 {
        Seq::empty()
    } else {
        spec_world_view_models(cam, objs, k - 1, target_width, target_height, time)
            + spec_world_view_item(cam, objs[k - 1], target_width, target_height, time)
    }
}

/// A world object whose screen-space copy has no vertex inside the
/// viewport and no edge crossing any viewport boundary contributes nothing
/// to the frame.
pub proof fn lemma_outside_object_excluded(
    cam: Camera,
    o: GeoModel,
    target_width: Fixed,
    target_height: Fixed,
    time: Fixed,
)
    requires
        ({
            let s = spec_local_to_world(o, time, spec_identity_matrix(), Fixed { raw: 0 });
            &&& !spec_vertex_in_bounds(cam, s)
            &&& !spec_any_edge_crossing(cam, s)
        }),
    ensures
        spec_world_view_item(cam, o, target_width, target_height, time) == Seq::<GeoModel>::empty(),
{
}

/// A world object whose screen-space copy has a vertex inside the viewport
/// is included in the frame: it contributes exactly its screen-space copy.
pub proof fn lemma_vertex_inside_included(
    cam: Camera,
    o: GeoModel,
    target_width: Fixed,
    target_height: Fixed,
    time: Fixed,
    i: int,
)
    requires
        ({
            let s = spec_local_to_world(o, time, spec_identity_matrix(), Fixed { raw: 0 });
            &&& 0 <= i < s.locations.len()
            &&& spec_point_in_bounds(cam, s.locations[i])
        }),
    ensures
        ({
            let s = spec_local_to_world(o, time, spec_identity_matrix(), Fixed { raw: 0 });
            spec_world_view_item(cam, o, target_width, target_height, time) == seq![
                spec_camera_to_screen(
                    spec_transform_model(s, spec_final_transform(cam)),
                    cam.width,
                    cam.height,
                    target_width,
                    target_height,
                ),
            ]
        }),
{
    let s = spec_local_to_world(o, time, spec_identity_matrix(), Fixed { raw: 0 });
    assert(spec_point_in_bounds(cam, s.locations[i]));
    assert(spec_vertex_in_bounds(cam, s));
}

impl Camera {
    /// A camera at the origin with the given viewport extent and rotation.
    pub fn new(width: Fixed, height: Fixed, angle: Fixed) -> (c: Camera)
        ensures
            c == (Camera { x: Fixed { raw: 0 }, y: Fixed { raw: 0 }, height, width, angle }),
    {
        Camera { x: Fixed { raw: 0 }, y: Fixed { raw: 0 }, height, width, angle }
    }

    /// The camera's position as a homogeneous point.
    pub fn position(&self) -> (p: Vec4)
        ensures
            p == spec_point(self.x, self.y, Fixed { raw: 0 }),
    {
        crate::geometry::point(self.x, self.y, Fixed { raw: 0 })
    }

    pub fn reposition(&mut self, x: Fixed, y: Fixed)
        ensures
            *final(self) == (Camera { x, y, ..*old(self) }),
    {
        self.x = x;
        self.y = y;
    }

    /// Move in camera-relative coordinates: the displacement is rotated by
    /// the camera's angle before being added to the position.
    pub fn translate(&mut self, x: Fixed, y: Fixed)
        ensures
            ({
                let change = spec_mat_vec_mul(
                    spec_z_rotation_matrix(old(self).angle),
                    spec_direction(x, y, Fixed { raw: 0 }),
                );
                *final(self) == (Camera {
                    x: f_add(old(self).x, change.x),
                    y: f_add(old(self).y, change.y),
                    ..*old(self)
                })
            }),
    {
        let rotation_matrix = z_rotation_matrix(self.angle);
        let d = crate::geometry::direction(x, y, Fixed { raw: 0 });
        let change = mat_vec_mul(&rotation_matrix, &d);
        self.x = self.x.add(change.x);
        self.y = self.y.add(change.y);
    }

    /// Advance the rotation angle.
    pub fn add_rotation(&mut self, delta: Fixed)
        ensures
            *final(self) == (Camera { angle: f_add(old(self).angle, delta), ..*old(self) }),
    {
        self.angle = self.angle.add(delta);
    }

    /// The screen-space copies of every visible world object, in world
    /// order: transformed, filtered against the viewport, rotated about the
    /// viewport center and mapped to the target resolution.
    #[verifier::rlimit(100)]
    pub fn world_view(
        &self,
        world: &World,
        target_width: Fixed,
        target_height: Fixed,
        time: Fixed,
    ) -> (r: Vec<Geometry>)
        requires
            forall|i: int|
                0 <= i < world.objects@.len() ==> wf_geometry(#[trigger] world.objects@[i]@),
        ensures
            r@.map_values(|g: Geometry| g@) == spec_world_view_models(
                *self,
                world.objects@.map_values(|g: Geometry| g@),
                world.objects@.len() as int,
                target_width,
                target_height,
                time,
            ),
    {
        let ghost objs = world.objects@.map_values(|g: Geometry| g@);
        let identity = identity_matrix();
        let two = Fixed { raw: 2 * SCALE };
        proof {
            reveal(crate::fixed::sat64);
            assert(two == crate::fixed::f_from_int(2));
        }
        let cx = self.x.add(self.width.div(two)).neg();
        let cy = self.y.add(self.height.div(two)).neg();
        let to_center = translation_matrix(Vec3 { x: cx, y: cy, z: Fixed { raw: 0 } });
        let undo = translation_matrix(
            Vec3 { x: cx.neg(), y: cy.neg(), z: Fixed { raw: 0 }.neg() },
        );
        let rotation = z_rotation_matrix(self.angle);
        let to_origin = translation_matrix(
            Vec3 { x: self.x.neg(), y: self.y.neg(), z: Fixed { raw: 0 } },
        );
        let final_transform = mat_mul(&mat_mul(&mat_mul(&to_origin, &undo), &rotation), &to_center);
        proof {
            assert(final_transform == spec_final_transform(*self));
        }
        let mut in_view: Vec<Geometry> = Vec::new();
        let mut k: usize = 0;
        while k < world.objects.len()
            invariant
                0 <= k <= world.objects@.len(),
                objs == world.objects@.map_values(|g: Geometry| g@),
                objs.len() == world.objects@.len(),
                forall|i: int|
                    0 <= i < world.objects@.len() ==> wf_geometry(#[trigger] world.objects@[i]@),
                final_transform == spec_final_transform(*self),
                two.raw == 2 * SCALE,
                identity == spec_identity_matrix(),
                in_view@.map_values(|g: Geometry| g@) == spec_world_view_models(
                    *self,
                    objs,
                    k as int,
                    target_width,
                    target_height,
                    time,
                ),
            decreases world.objects@.len() - k,
        {
            let obj = &world.objects[k];
            let s = obj.local_to_world(time, identity, Fixed { raw: 0 });
            if self.obj_view(&s) {
                let mut t = s;
                t.transform(final_transform);
                t.camera_to_screen(self.width, self.height, target_width, target_height);
                in_view.push(t);
                proof {
                    assert(in_view@.map_values(|g: Geometry| g@) =~= spec_world_view_models(
                        *self,
                        objs,
                        k + 1 as int,
                        target_width,
                        target_height,
                        time,
                    ));
                }
            } else {
                proof {
                    assert(in_view@.map_values(|g: Geometry| g@) =~= spec_world_view_models(
                        *self,
                        objs,
                        k + 1 as int,
                        target_width,
                        target_height,
                        time,
                    ));
                }
            }
            k = k + 1;
        }
        in_view
    }

    /// The visibility test for one screen-space object.
    pub fn obj_view(&self, obj: &Geometry) -> (b: bool)
        ensures
            b == spec_obj_view(*self, obj@),
    {
        if self.vertex_in_bounds(obj) {
            return true;
        }
        let n = obj.vertex_locations.len();
        let edge_count: usize = if matches!(obj.geo_type, GeometryType::Line) {
            if n == 0 {
                0
            } else {
                n - 1
            }
        } else {
            n
        };
        let mut i: usize = 0;
        while i < edge_count
            invariant
                0 <= i <= edge_count,
                n == obj@.locations.len(),
                edge_count == spec_edge_count(obj@),
                edge_count <= n,
                forall|j: int|
                    0 <= j < i ==> !spec_edge_crossing(
                        *self,
                        #[trigger] obj@.locations[j],
                        obj@.locations[spec_next_location(obj@, j)],
                    ),
            decreases edge_count - i,
        {
            let j = if i == n - 1 {
                0
            } else {
                i + 1
            };
            let p1 = obj.vertex_locations[i];
            let p2 = obj.vertex_locations[j];
            if self.edge_crossing(p1, p2) {
                return true;
            }
            i = i + 1;
        }
        false
    }

    /// Does any vertex location of the object lie inside the viewport?
    fn vertex_in_bounds(&self, obj: &Geometry) -> (b: bool)
        ensures
            b == spec_vertex_in_bounds(*self, obj@),
    {
        let x_end = self.x.add(self.width);
        let y_end = self.y.add(self.height);
        let mut i: usize = 0;
        while i < obj.vertex_locations.len()
            invariant
                0 <= i <= obj@.locations.len(),
                x_end.raw == f_add(self.x, self.width).raw,
                y_end.raw == f_add(self.y, self.height).raw,
                forall|j: int|
                    0 <= j < i ==> !spec_point_in_bounds(*self, #[trigger] obj@.locations[j]),
            decreases obj@.locations.len() - i,
        {
            let p = obj.vertex_locations[i];
            if self.x.raw <= p.x.raw && p.x.raw < x_end.raw && self.y.raw <= p.y.raw && p.y.raw
                < y_end.raw {
                return true;
            }
            i = i + 1;
        }
        false
    }

    /// Does the edge, extended to an infinite line, cross a viewport
    /// boundary within the viewport's extent?
    fn edge_crossing(&self, p1: Vec4, p2: Vec4) -> (b: bool)
        ensures
            b == spec_edge_crossing(*self, p1, p2),
    {
        let dx = p2.x.sub(p1.x);
        let dy = p2.y.sub(p1.y);
        if dy.raw == 0 && dx.raw != 0 {
            let y_end = self.y.add(self.height);
            self.y.raw <= p1.y.raw && p1.y.raw <= y_end.raw
        } else if dx.raw == 0 && dy.raw != 0 {
            let x_end = self.x.add(self.width);
            self.x.raw <= p1.x.raw && p1.x.raw <= x_end.raw
        } else if dx.raw == 0 && dy.raw == 0 {
            false
        } else {
            let slope = dy.div(dx);
            if slope.raw == 0 {
                false
            } else {
                let y_int = p1.y.sub(slope.mul(p1.x));
                let slope_flipped = Fixed { raw: SCALE }.div(slope);
                let y_int_flipped = p1.x.sub(slope_flipped.mul(p1.y));
                let x_end = self.x.add(self.width);
                let y_end = self.y.add(self.height);
                intercept(slope, y_int, self.y, self.x, x_end) || intercept(
                    slope,
                    y_int,
                    y_end,
                    self.x,
                    x_end,
                ) || intercept(slope_flipped, y_int_flipped, self.x, self.y, y_end) || intercept(
                    slope_flipped,
                    y_int_flipped,
                    x_end,
                    self.y,
                    y_end,
                )
            }
        }
    }
}

/// Camera speed in world units per second.
pub const MOVE_SPEED: i64 = 500;

/// The square root of two, to fixed-point precision: the diagonal
/// normalization factor.
pub const SQRT2_RAW: i64 = 141_421_356;

/// Rotation speed in radians per second: pi / 15.
pub const ROTATE_SPEED_RAW: i64 = 20_943_951;

pub open spec fn spec_move_camera(up: bool, left: bool, down: bool, right: bool) -> (Fixed, Fixed) {
    let xi: int = (if left {
        -MOVE_SPEED as int
    } else {
        0
    }) + (if right {
        MOVE_SPEED as int
    } else {
        0
    });
    let yi: int = (if up {
        -MOVE_SPEED as int
    } else {
        0
    }) + (if down {
        MOVE_SPEED as int
    } else {
        0
    });
    let xv = Fixed { raw: (xi * (SCALE as int)) as i64 };
    let yv = Fixed { raw: (yi * (SCALE as int)) as i64 };
    if xi != 0 && yi != 0 {
        (f_div(xv, Fixed { raw: SQRT2_RAW }), f_div(yv, Fixed { raw: SQRT2_RAW }))
    } else {
        (xv, yv)
    }
}

/// The camera velocity for the held movement keys: each held direction
/// contributes the camera speed along its axis, and a diagonal is
/// normalized by the square root of two.
pub fn move_camera(up: bool, left: bool, down: bool, right: bool) -> (v: (Fixed, Fixed))
    ensures
        v == spec_move_camera(up, left, down, right),
{
    let mut x_vel: i64 = 0;
    let mut y_vel: i64 = 0;
    if up {
        y_vel = y_vel - MOVE_SPEED;
    }
    if left {
        x_vel = x_vel - MOVE_SPEED;
    }
    if down {
        y_vel = y_vel + MOVE_SPEED;
    }
    if right {
        x_vel = x_vel + MOVE_SPEED;
    }
    let xv = Fixed { raw: x_vel * SCALE };
    let yv = Fixed { raw: y_vel * SCALE };
    if x_vel != 0 && y_vel != 0 {
        (xv.div(Fixed { raw: SQRT2_RAW }), yv.div(Fixed { raw: SQRT2_RAW }))
    } else {
        (xv, yv)
    }
}

pub open spec fn spec_rotate_camera(counter: bool, clockwise: bool) -> Fixed {
    if counter && !clockwise {
        Fixed { raw: (-ROTATE_SPEED_RAW) as i64 }
    } else if !counter && clockwise {
        Fixed { raw: ROTATE_SPEED_RAW }
    } else {
        Fixed { raw: 0 }
    }
}

/// The camera's angular velocity for the held rotation keys: pi / 15
/// radians per second in either direction, or zero when both or neither
/// key is held.
pub fn rotate_camera(counter: bool, clockwise: bool) -> (w: Fixed)
    ensures
        w == spec_rotate_camera(counter, clockwise),
{
    if counter && !clockwise {
        Fixed { raw: -ROTATE_SPEED_RAW }
    } else if !counter && clockwise {
        Fixed { raw: ROTATE_SPEED_RAW }
    } else {
        Fixed { raw: 0 }
    }
}

/// One boundary-line test of the edge-crossing check.
fn intercept(slope: Fixed, y_int: Fixed, y: Fixed, bound_min: Fixed, bound_max: Fixed) -> (b: bool)
    ensures
        b == spec_intercept(slope, y_int, y, bound_min, bound_max),
{
    if slope.raw == 0 {
        false
    } else {
        let x_input = y.sub(y_int).div(slope);
        bound_min.raw <= x_input.raw && x_input.raw < bound_max.raw
    }
}

} // verus!
