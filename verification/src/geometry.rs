//! Primitives: vertex positions in local space, vertex lists grouping them
//! into lines or triangles, per-object transforms and the per-frame
//! animation hook.
//!
//! A `Geometry` stores translation, rotation and scale as three separate
//! matrices, composed only at render time, so each can be updated
//! independently. `local_to_world` operates on a copy: world-space state
//! never leaks back into the stored local-space data.

use crate::color::Color;
use crate::fixed::{f_div, f_from_int, Fixed, SCALE};
use crate::math::{
    f_one, identity_matrix, mat_mul, mat_vec_mul, spec_identity_matrix, spec_mat_mul,
    spec_mat_vec_mul, spec_scale_matrix, spec_translation_matrix, spec_x_rotation_matrix,
    spec_y_rotation_matrix, spec_z_rotation_matrix, scale_matrix, translation_matrix,
    x_rotation_matrix, y_rotation_matrix, z_rotation_matrix, Mat4, Vec3, Vec4,
};
use vstd::prelude::*;

verus! {

/// A structural failure of a geometry, reported with the offending
/// geometry's name.
#[derive(Debug, Clone, PartialEq, Eq)]
pub enum GeoError {
    /// A triangle-typed geometry whose vertex count is not a multiple of 3.
    NotDiv3(Option<String>),
}

/// A position in homogeneous coordinates (`w == 1`).
pub type Point = Vec4;

/// A displacement in homogeneous coordinates (`w == 0`).
pub type Direction = Vec4;

/// A 4x4 transform.
pub type Transform = Mat4;

/// A per-frame mutation of a geometry's transforms as a function of the
/// elapsed time: a closed set of strategies with typed parameters.
#[derive(Debug, Clone, Copy, PartialEq, Eq, Structural)]
pub enum Animation {
    /// Replace the rotation by axis angles growing linearly in time.
    Rotate { x_rate: Fixed, y_rate: Fixed, z_rate: Fixed },
}

/// How the vertex list is grouped into primitives: stride 2 for lines,
/// stride 3 for triangles.
#[derive(Debug, Clone, Copy, PartialEq, Eq, Structural)]
pub enum GeometryType {
    Triangle,
    Line,
}

/// An index into the vertex locations, paired with a color.
#[derive(Debug, Clone, Copy, PartialEq, Eq, Structural)]
pub struct Vertex {
    pub index: usize,
    pub color: Color,
}

/// A primitive: vertex positions in local space (center conventionally at
/// the origin), a vertex list grouping them, three transforms and an
/// optional animation.
#[derive(Debug, Clone)]
pub struct Geometry {
    pub vertices: Vec<Vertex>,
    pub vertex_locations: Vec<Vec4>,
    pub geo_type: GeometryType,
    pub translation: Mat4,
    pub rotation: Mat4,
    pub scale: Mat4,
    pub animation: Option<Animation>,
    pub name: Option<String>,
}

/// The mathematical value of a [`Geometry`].
#[verifier::ext_equal]
pub struct GeoModel {
    pub vertices: Seq<Vertex>,
    pub locations: Seq<Vec4>,
    pub geo_type: GeometryType,
    pub translation: Mat4,
    pub rotation: Mat4,
    pub scale: Mat4,
    pub animation: Option<Animation>,
    pub name: Option<Seq<char>>,
}

impl View for Geometry {
    type V = GeoModel;

    open spec fn view(&self) -> GeoModel {
        GeoModel {
            vertices: self.vertices@,
            locations: self.vertex_locations@,
            geo_type: self.geo_type,
            translation: self.translation,
            rotation: self.rotation,
            scale: self.scale,
            animation: self.animation,
            name: match self.name {
                Some(s) => Some(s@),
                None => None,
            },
        }
    }
}

/// Every vertex indexes an existing location.
pub open spec fn wf_geometry(g: GeoModel) -> bool {
    forall|i: int| 0 <= i < g.vertices.len() ==> #[trigger] g.vertices[i].index < g.locations.len()
}

pub open spec fn spec_point(x: Fixed, y: Fixed, z: Fixed) -> Vec4 {
    Vec4 { x, y, z, w: f_one() }
}

pub open spec fn spec_direction(x: Fixed, y: Fixed, z: Fixed) -> Vec4 {
    Vec4 { x, y, z, w: Fixed { raw: 0 } }
}

/// An empty geometry with identity transforms.
pub open spec fn spec_empty_model(geo_type: GeometryType) -> GeoModel {
    GeoModel {
        vertices: Seq::empty(),
        locations: Seq::empty(),
        geo_type,
        translation: spec_identity_matrix(),
        rotation: spec_identity_matrix(),
        scale: spec_identity_matrix(),
        animation: None,
        name: None,
    }
}

/// Apply a matrix to every location.
pub open spec fn spec_transform_model(g: GeoModel, m: Mat4) -> GeoModel {
    GeoModel { locations: g.locations.map_values(|p: Vec4| spec_mat_vec_mul(m, p)), ..g }
}

/// One point of the perspective divide: apply the matrix, then divide x, y,
/// z and w by the transformed homogeneous component, keeping the original z.
/// A zero `w` skips the divide (the point stays unprojected; callers treat
/// this as degenerate).
pub open spec fn spec_proj_point(m: Mat4, p: Vec4) -> Vec4 {
    let q = spec_mat_vec_mul(m, p);
    if q.w.raw == 0 {
        Vec4 { x: q.x, y: q.y, z: p.z, w: q.w }
    } else {
        Vec4 { x: f_div(q.x, q.w), y: f_div(q.y, q.w), z: p.z, w: f_div(q.w, q.w) }
    }
}

pub open spec fn spec_transform_proj_model(g: GeoModel, m: Mat4) -> GeoModel {
    GeoModel { locations: g.locations.map_values(|p: Vec4| spec_proj_point(m, p)), ..g }
}

/// The rotation matrix composed from axis rotations in x, y, z order.
pub open spec fn spec_rotation_combo(x: Fixed, y: Fixed, z: Fixed) -> Mat4 {
    spec_mat_mul(spec_mat_mul(spec_x_rotation_matrix(x), spec_y_rotation_matrix(y)), spec_z_rotation_matrix(z))
}

/// The animation hook applied at `time`.
pub open spec fn spec_animate_model(g: GeoModel, time: Fixed) -> GeoModel {
    match g.animation {
        None => g,
        Some(Animation::Rotate { x_rate, y_rate, z_rate }) => GeoModel {
            rotation: spec_rotation_combo(
                crate::fixed::f_mul(x_rate, time),
                crate::fixed::f_mul(y_rate, time),
                crate::fixed::f_mul(z_rate, time),
            ),
            ..g
        },
    }
}

/// Is some vertex of the triple starting at `i` at or beyond the near
/// plane (depth at most `-dis`)?
pub open spec fn spec_triple_kept(g: GeoModel, i: int, dis: Fixed) -> bool {
    let near = crate::fixed::f_neg(dis);
    ||| g.locations[g.vertices[i].index as int].z.raw <= near.raw
    ||| g.locations[g.vertices[i + 1].index as int].z.raw <= near.raw
    ||| g.locations[g.vertices[i + 2].index as int].z.raw <= near.raw
}

/// The vertex list with every fully near-side triangle dropped: a triple is
/// kept exactly when at least one of its vertices lies at or beyond the
/// near plane. Only whole triples survive.
pub open spec fn spec_near_filter(g: GeoModel, dis: Fixed, n: int) -> Seq<Vertex>
    decreases n,
{
    if n < 3 {
        Seq::empty()
    } else {
        let prev = spec_near_filter(g, dis, n - 3);
        if spec_triple_kept(g, n - 3, dis) {
            prev + seq![g.vertices[n - 3], g.vertices[n - 2], g.vertices[n - 1]]
        } else {
            prev
        }
    }
}

/// The number of leading vertices forming whole triples.
pub open spec fn spec_triple_len(len: int) -> int {
    len - (len % 3)
}

/// The screen-space copy of a geometry: animate the copy, transform every
/// location by `cam_rotation * translation * rotation * scale`, and for
/// triangle geometries drop the triangles that lie entirely on the near
/// side of the distance cutoff.
pub open spec fn spec_local_to_world(g: GeoModel, time: Fixed, cam_rotation: Mat4, dis: Fixed) -> GeoModel {
    let animated = spec_animate_model(g, time);
    let m = spec_mat_mul(
        spec_mat_mul(spec_mat_mul(cam_rotation, animated.translation), animated.rotation),
        animated.scale,
    );
    let moved = spec_transform_model(animated, m);
    if moved.geo_type == GeometryType::Triangle {
        GeoModel {
            vertices: spec_near_filter(moved, dis, spec_triple_len(moved.vertices.len() as int)),
            ..moved
        }
    } else {
        moved
    }
}

/// One point of the anisotropic screen mapping: x and y are rescaled
/// independently by `screen / camera`; a zero camera extent leaves the
/// coordinate unchanged.
pub open spec fn spec_screen_point(p: Vec4, cw: Fixed, ch: Fixed, sw: Fixed, sh: Fixed) -> Vec4 {
    let x = if cw.raw == 0 {
        p.x
    } else {
        crate::fixed::f_mul(f_div(p.x, cw), sw)
    };
    let y = if ch.raw == 0 {
        p.y
    } else {
        crate::fixed::f_mul(f_div(p.y, ch), sh)
    };
    Vec4 { x, y, z: p.z, w: p.w }
}

pub open spec fn spec_camera_to_screen(g: GeoModel, cw: Fixed, ch: Fixed, sw: Fixed, sh: Fixed) -> GeoModel {
    GeoModel {
        locations: g.locations.map_values(|p: Vec4| spec_screen_point(p, cw, ch, sw, sh)),
        ..g
    }
}

/// Copy a vector of plain values element by element.
fn copy_vec<T: Copy>(v: &Vec<T>) -> (r: Vec<T>)
    ensures
        r@ == v@,
{
    let mut r: Vec<T> = Vec::new();
    let mut i: usize = 0;
    while i < v.len()
        invariant
            0 <= i <= v.len(),
            r@ == v@.subrange(0, i as int),
        decreases v.len() - i,
    {
        r.push(v[i]);
        proof {
            assert(r@ =~= v@.subrange(0, i + 1 as int));
        }
        i = i + 1;
    }
    proof {
        assert(r@ =~= v@);
    }
    r
}

impl Geometry {
    fn new(geo_type: GeometryType) -> (g: Geometry)
        ensures
            g@ == spec_empty_model(geo_type),
    {
        Geometry {
            vertices: Vec::new(),
            vertex_locations: Vec::new(),
            geo_type,
            translation: identity_matrix(),
            rotation: identity_matrix(),
            scale: identity_matrix(),
            animation: None,
            name: None,
        }
    }

    /// An identical, independently owned copy.
    pub fn duplicate(&self) -> (g: Geometry)
        ensures
            g@ == self@,
    {
        Geometry {
            vertices: copy_vec(&self.vertices),
            vertex_locations: copy_vec(&self.vertex_locations),
            geo_type: self.geo_type,
            translation: self.translation,
            rotation: self.rotation,
            scale: self.scale,
            animation: self.animation,
            name: match &self.name {
                Some(s) => Some(s.clone()),
                None => None,
            },
        }
    }

    /// Whether every vertex indexes an existing location, as
    /// [`wf_geometry`] demands.
    pub fn indices_valid(&self) -> (b: bool)
        ensures
            b == wf_geometry(self@),
    {
        let mut i: usize = 0;
        while i < self.vertices.len()
            invariant
                0 <= i <= self.vertices.len(),
                forall|j: int|
                    0 <= j < i ==> #[trigger] self.vertices@[j].index
                        < self.vertex_locations@.len(),
            decreases self.vertices.len() - i,
        {
            if self.vertices[i].index >= self.vertex_locations.len() {
                return false;
            }
            i = i + 1;
        }
        true
    }

    pub fn set_name(&mut self, name: Option<String>)
        ensures
            final(self)@ == (GeoModel {
                name: match name {
                    Some(s) => Some(s@),
                    None => None,
                },
                ..old(self)@
            }),
    {
        self.name = name;
    }

    /// Apply `matrix` to every vertex location.
    pub fn transform(&mut self, matrix: Mat4)
        ensures
            final(self)@ == spec_transform_model(old(self)@, matrix),
    {
        let ghost orig = self.vertex_locations@;
        let mut i: usize = 0;
        while i < self.vertex_locations.len()
            invariant
                0 <= i <= self.vertex_locations.len(),
                self.vertex_locations@.len() == orig.len(),
                forall|j: int|
                    0 <= j < i ==> self.vertex_locations@[j] == spec_mat_vec_mul(
                        matrix,
                        #[trigger] orig[j],
                    ),
                forall|j: int| i <= j < orig.len() ==> #[trigger] self.vertex_locations@[j] == orig[j],
                self.vertices@ == old(self).vertices@,
                self.geo_type == old(self).geo_type,
                self.translation == old(self).translation,
                self.rotation == old(self).rotation,
                self.scale == old(self).scale,
                self.animation == old(self).animation,
                self.name == old(self).name,
            decreases self.vertex_locations.len() - i,
        {
            let moved = mat_vec_mul(&matrix, &self.vertex_locations[i]);
            self.vertex_locations.set(i, moved);
            i = i + 1;
        }
        proof {
            assert(self.vertex_locations@ =~= orig.map_values(
                |p: Vec4| spec_mat_vec_mul(matrix, p),
            ));
        }
    }

    /// Apply `matrix`, then perform a perspective divide per point,
    /// preserving each point's original z and skipping the divide where the
    /// transformed homogeneous component is zero.
    pub fn transform_proj(&mut self, matrix: Mat4)
        ensures
            final(self)@ == spec_transform_proj_model(old(self)@, matrix),
    {
        let ghost orig = self.vertex_locations@;
        let mut i: usize = 0;
        while i < self.vertex_locations.len()
            invariant
                0 <= i <= self.vertex_locations.len(),
                self.vertex_locations@.len() == orig.len(),
                forall|j: int|
                    0 <= j < i ==> self.vertex_locations@[j] == spec_proj_point(
                        matrix,
                        #[trigger] orig[j],
                    ),
                forall|j: int| i <= j < orig.len() ==> #[trigger] self.vertex_locations@[j] == orig[j],
                self.vertices@ == old(self).vertices@,
                self.geo_type == old(self).geo_type,
                self.translation == old(self).translation,
                self.rotation == old(self).rotation,
                self.scale == old(self).scale,
                self.animation == old(self).animation,
                self.name == old(self).name,
            decreases self.vertex_locations.len() - i,
        {
            let p = self.vertex_locations[i];
            let q = mat_vec_mul(&matrix, &p);
            let projected = if q.w.raw == 0 {
                Vec4 { x: q.x, y: q.y, z: p.z, w: q.w }
            } else {
                Vec4 { x: q.x.div(q.w), y: q.y.div(q.w), z: p.z, w: q.w.div(q.w) }
            };
            self.vertex_locations.set(i, projected);
            i = i + 1;
        }
        proof {
            assert(self.vertex_locations@ =~= orig.map_values(
                |p: Vec4| spec_proj_point(matrix, p),
            ));
        }
    }

    pub fn set_animation(&mut self, animation: Animation)
        ensures
            final(self)@ == (GeoModel { animation: Some(animation), ..old(self)@ }),
    {
        self.animation = Some(animation);
    }

    /// Apply the animation hook, if any, for the given elapsed time.
    pub fn animate(&mut self, time: Fixed)
        ensures
            final(self)@ == spec_animate_model(old(self)@, time),
    {
        match self.animation {
            None => {},
            Some(Animation::Rotate { x_rate, y_rate, z_rate }) => {
                self.rotation(x_rate.mul(time), y_rate.mul(time), z_rate.mul(time));
            },
        }
    }

    /// Replace the translation so the geometry sits at `point`.
    pub fn set_position(&mut self, point: Vec4)
        ensures
            final(self)@ == (GeoModel {
                translation: spec_translation_matrix(Vec3 { x: point.x, y: point.y, z: point.z }),
                ..old(self)@
            }),
    {
        self.translation = translation_matrix(Vec3 { x: point.x, y: point.y, z: point.z });
    }

    /// Compose a further translation by `dir`.
    pub fn translate(&mut self, dir: Vec4)
        ensures
            final(self)@ == (GeoModel {
                translation: spec_mat_mul(
                    old(self)@.translation,
                    spec_translation_matrix(Vec3 { x: dir.x, y: dir.y, z: dir.z }),
                ),
                ..old(self)@
            }),
    {
        let m = translation_matrix(Vec3 { x: dir.x, y: dir.y, z: dir.z });
        self.translation = mat_mul(&self.translation, &m);
    }

    /// Replace the rotation by axis rotations composed in x, y, z order.
    pub fn rotation(&mut self, x_rotation: Fixed, y_rotation: Fixed, z_rotation: Fixed)
        ensures
            final(self)@ == (GeoModel {
                rotation: spec_rotation_combo(x_rotation, y_rotation, z_rotation),
                ..old(self)@
            }),
    {
        let rx = x_rotation_matrix(x_rotation);
        let ry = y_rotation_matrix(y_rotation);
        let rz = z_rotation_matrix(z_rotation);
        self.rotation = mat_mul(&mat_mul(&rx, &ry), &rz);
    }

    /// Replace the scale.
    pub fn scale(&mut self, scale: Vec3)
        ensures
            final(self)@ == (GeoModel { scale: spec_scale_matrix(scale), ..old(self)@ }),
    {
        self.scale = scale_matrix(scale);
    }

    /// The screen-space copy: animate a clone, apply
    /// `cam_rotation * translation * rotation * scale` to every location,
    /// and for triangles drop every triple with no vertex beyond the near
    /// distance `dis`. The stored geometry is untouched.
    #[verifier::rlimit(100)]
    pub fn local_to_world(&self, time: Fixed, cam_rotation: Mat4, dis: Fixed) -> (g: Geometry)
        requires
            wf_geometry(self@),
        ensures
            g@ == spec_local_to_world(self@, time, cam_rotation, dis),
    {
        let mut copy = self.duplicate();
        copy.animate(time);
        let m = mat_mul(&mat_mul(&mat_mul(&cam_rotation, &copy.translation), &copy.rotation), &copy.scale);
        copy.transform(m);
        if matches!(copy.geo_type, GeometryType::Triangle) {
            let ghost moved = copy@;
            proof {
                assert(wf_geometry(moved));
            }
            let kept_len = copy.vertices.len() - copy.vertices.len() % 3;
            let mut kept: Vec<Vertex> = Vec::new();
            let mut i: usize = 0;
            while i < kept_len
                invariant
                    0 <= i <= kept_len,
                    i % 3 == 0,
                    kept_len == spec_triple_len(copy.vertices.len() as int),
                    kept_len <= copy.vertices@.len(),
                    copy@ == moved,
                    wf_geometry(moved),
                    kept@ == spec_near_filter(moved, dis, i as int),
                decreases kept_len - i,
            {
                let keep = triple_kept(&copy, i, dis);
                if keep {
                    let v0 = copy.vertices[i];
                    let v1 = copy.vertices[i + 1];
                    let v2 = copy.vertices[i + 2];
                    kept.push(v0);
                    kept.push(v1);
                    kept.push(v2);
                    proof {
                        assert(kept@ =~= spec_near_filter(moved, dis, i + 3 as int));
                    }
                } else {
                    proof {
                        assert(kept@ =~= spec_near_filter(moved, dis, i + 3 as int));
                    }
                }
                i = i + 3;
            }
            copy.vertices = kept;
            copy
        } else {
            copy
        }
    }

    /// Rescale x and y independently from camera extents to screen extents.
    /// A zero camera extent leaves that axis unchanged.
    pub fn camera_to_screen(
        &mut self,
        camera_width: Fixed,
        camera_height: Fixed,
        screen_width: Fixed,
        screen_height: Fixed,
    )
        ensures
            final(self)@ == spec_camera_to_screen(
                old(self)@,
                camera_width,
                camera_height,
                screen_width,
                screen_height,
            ),
    {
        let ghost orig = self.vertex_locations@;
        let mut i: usize = 0;
        while i < self.vertex_locations.len()
            invariant
                0 <= i <= self.vertex_locations.len(),
                self.vertex_locations@.len() == orig.len(),
                forall|j: int|
                    0 <= j < i ==> self.vertex_locations@[j] == spec_screen_point(
                        #[trigger] orig[j],
                        camera_width,
                        camera_height,
                        screen_width,
                        screen_height,
                    ),
                forall|j: int| i <= j < orig.len() ==> #[trigger] self.vertex_locations@[j] == orig[j],
                self.vertices@ == old(self).vertices@,
                self.geo_type == old(self).geo_type,
                self.translation == old(self).translation,
                self.rotation == old(self).rotation,
                self.scale == old(self).scale,
                self.animation == old(self).animation,
                self.name == old(self).name,
            decreases self.vertex_locations.len() - i,
        {
            let p = self.vertex_locations[i];
            let x = if camera_width.raw == 0 {
                p.x
            } else {
                p.x.div(camera_width).mul(screen_width)
            };
            let y = if camera_height.raw == 0 {
                p.y
            } else {
                p.y.div(camera_height).mul(screen_height)
            };
            self.vertex_locations.set(i, Vec4 { x, y, z: p.z, w: p.w });
            i = i + 1;
        }
        proof {
            assert(self.vertex_locations@ =~= orig.map_values(
                |p: Vec4| spec_screen_point(
                    p,
                    camera_width,
                    camera_height,
                    screen_width,
                    screen_height,
                ),
            ));
        }
    }

    /// Give every vertex the same color.
    pub fn set_color(&mut self, color: Color)
        ensures
            final(self)@ == (GeoModel {
                vertices: old(self)@.vertices.map_values(
                    |v: Vertex| Vertex { index: v.index, color },
                ),
                ..old(self)@
            }),
    {
        let ghost orig = self.vertices@;
        let mut i: usize = 0;
        while i < self.vertices.len()
            invariant
                0 <= i <= self.vertices.len(),
                self.vertices@.len() == orig.len(),
                forall|j: int|
                    0 <= j < i ==> self.vertices@[j] == (Vertex {
                        index: #[trigger] orig[j].index,
                        color,
                    }),
                forall|j: int| i <= j < orig.len() ==> #[trigger] self.vertices@[j] == orig[j],
                self.vertex_locations@ == old(self).vertex_locations@,
                self.geo_type == old(self).geo_type,
                self.translation == old(self).translation,
                self.rotation == old(self).rotation,
                self.scale == old(self).scale,
                self.animation == old(self).animation,
                self.name == old(self).name,
            decreases self.vertices.len() - i,
        {
            let v = self.vertices[i];
            self.vertices.set(i, Vertex { index: v.index, color });
            i = i + 1;
        }
        proof {
            assert(self.vertices@ =~= orig.map_values(|v: Vertex| Vertex { index: v.index, color }));
        }
    }
}

/// Is some vertex of the triple at `i` at or beyond the near plane?
fn triple_kept(g: &Geometry, i: usize, dis: Fixed) -> (b: bool)
    requires
        i + 2 < g.vertices@.len(),
        wf_geometry(g@),
    ensures
        b == spec_triple_kept(g@, i as int, dis),
{
    // Binding the length brings its machine bound into scope for the
    // index arithmetic below.
    let _n = g.vertices.len();
    let neg_dis = dis.neg();
    let z0 = g.vertex_locations[g.vertices[i].index].z;
    let z1 = g.vertex_locations[g.vertices[i + 1].index].z;
    let z2 = g.vertex_locations[g.vertices[i + 2].index].z;
    z0.raw <= neg_dis.raw || z1.raw <= neg_dis.raw || z2.raw <= neg_dis.raw
}

/// The point `(x, y, z)` in homogeneous coordinates.
pub fn point(x: Fixed, y: Fixed, z: Fixed) -> (p: Vec4)
    ensures
        p == spec_point(x, y, z),
{
    Vec4 { x, y, z, w: Fixed { raw: SCALE } }
}

/// The direction `(x, y, z)` in homogeneous coordinates.
pub fn direction(x: Fixed, y: Fixed, z: Fixed) -> (p: Vec4)
    ensures
        p == spec_direction(x, y, z),
{
    Vec4 { x, y, z, w: Fixed { raw: 0 } }
}

/// A red-to-blue unit line from the origin to `(1, 0, 1)`.
pub open spec fn spec_line_model() -> GeoModel {
    GeoModel {
        locations: seq![
            spec_point(f_from_int(0), f_from_int(0), f_from_int(0)),
            spec_point(f_from_int(1), f_from_int(0), f_from_int(1)),
        ],
        vertices: seq![
            Vertex { index: 0, color: Color::Red },
            Vertex { index: 1, color: Color::Blue },
        ],
        ..spec_empty_model(GeometryType::Line)
    }
}

pub fn line() -> (g: Geometry)
    ensures
        g@ == spec_line_model(),
        wf_geometry(g@),
{
    let mut g = Geometry::new(GeometryType::Line);
    g.vertex_locations.push(point(Fixed::from_int(0), Fixed::from_int(0), Fixed::from_int(0)));
    g.vertex_locations.push(point(Fixed::from_int(1), Fixed::from_int(0), Fixed::from_int(1)));
    g.vertices.push(Vertex { index: 0, color: Color::Red });
    g.vertices.push(Vertex { index: 1, color: Color::Blue });
    proof {
        assert(g@ =~= spec_line_model());
    }
    g
}

/// An isoceles triangle spanning `(-1, -1)`, `(0, 1)`, `(1, -1)` in the
/// z = 0 plane.
pub open spec fn spec_triangle_model() -> GeoModel {
    GeoModel {
        locations: seq![
            spec_point(f_from_int(-1), f_from_int(-1), f_from_int(0)),
            spec_point(f_from_int(0), f_from_int(1), f_from_int(0)),
            spec_point(f_from_int(1), f_from_int(-1), f_from_int(0)),
        ],
        vertices: seq![
            Vertex { index: 0, color: Color::Red },
            Vertex { index: 1, color: Color::Blue },
            Vertex { index: 2, color: Color::Green },
        ],
        ..spec_empty_model(GeometryType::Triangle)
    }
}

pub fn triangle() -> (g: Geometry)
    ensures
        g@ == spec_triangle_model(),
        wf_geometry(g@),
{
    let mut g = Geometry::new(GeometryType::Triangle);
    g.vertex_locations.push(point(Fixed::from_int(-1), Fixed::from_int(-1), Fixed::from_int(0)));
    g.vertex_locations.push(point(Fixed::from_int(0), Fixed::from_int(1), Fixed::from_int(0)));
    g.vertex_locations.push(point(Fixed::from_int(1), Fixed::from_int(-1), Fixed::from_int(0)));
    g.vertices.push(Vertex { index: 0, color: Color::Red });
    g.vertices.push(Vertex { index: 1, color: Color::Blue });
    g.vertices.push(Vertex { index: 2, color: Color::Green });
    proof {
        assert(g@ =~= spec_triangle_model());
    }
    g
}

/// A right triangle with the right angle at `(0, 1)`.
pub open spec fn spec_right_triangle_model() -> GeoModel {
    GeoModel {
        locations: seq![
            spec_point(f_from_int(0), f_from_int(-1), f_from_int(0)),
            spec_point(f_from_int(0), f_from_int(1), f_from_int(0)),
            spec_point(f_from_int(1), f_from_int(1), f_from_int(0)),
        ],
        vertices: seq![
            Vertex { index: 0, color: Color::Red },
            Vertex { index: 1, color: Color::Blue },
            Vertex { index: 2, color: Color::Green },
        ],
        ..spec_empty_model(GeometryType::Triangle)
    }
}

pub fn right_triangle() -> (g: Geometry)
    ensures
        g@ == spec_right_triangle_model(),
        wf_geometry(g@),
{
    let mut g = Geometry::new(GeometryType::Triangle);
    g.vertex_locations.push(point(Fixed::from_int(0), Fixed::from_int(-1), Fixed::from_int(0)));
    g.vertex_locations.push(point(Fixed::from_int(0), Fixed::from_int(1), Fixed::from_int(0)));
    g.vertex_locations.push(point(Fixed::from_int(1), Fixed::from_int(1), Fixed::from_int(0)));
    g.vertices.push(Vertex { index: 0, color: Color::Red });
    g.vertices.push(Vertex { index: 1, color: Color::Blue });
    g.vertices.push(Vertex { index: 2, color: Color::Green });
    proof {
        assert(g@ =~= spec_right_triangle_model());
    }
    g
}

/// A unit square of two triangles sharing the diagonal from `(-1, 1)` to
/// `(1, 1)`.
pub open spec fn spec_square_model() -> GeoModel {
    GeoModel {
        locations: seq![
            spec_point(f_from_int(-1), f_from_int(-1), f_from_int(0)),
            spec_point(f_from_int(-1), f_from_int(1), f_from_int(0)),
            spec_point(f_from_int(1), f_from_int(1), f_from_int(0)),
            spec_point(f_from_int(1), f_from_int(-1), f_from_int(0)),
        ],
        vertices: seq![
            Vertex { index: 0, color: Color::Blue },
            Vertex { index: 1, color: Color::White },
            Vertex { index: 2, color: Color::Red },
            Vertex { index: 1, color: Color::White },
            Vertex { index: 3, color: Color::Green },
            Vertex { index: 2, color: Color::Red },
        ],
        ..spec_empty_model(GeometryType::Triangle)
    }
}

pub fn square() -> (g: Geometry)
    ensures
        g@ == spec_square_model(),
        wf_geometry(g@),
{
    let mut g = Geometry::new(GeometryType::Triangle);
    g.vertex_locations.push(point(Fixed::from_int(-1), Fixed::from_int(-1), Fixed::from_int(0)));
    g.vertex_locations.push(point(Fixed::from_int(-1), Fixed::from_int(1), Fixed::from_int(0)));
    g.vertex_locations.push(point(Fixed::from_int(1), Fixed::from_int(1), Fixed::from_int(0)));
    g.vertex_locations.push(point(Fixed::from_int(1), Fixed::from_int(-1), Fixed::from_int(0)));
    g.vertices.push(Vertex { index: 0, color: Color::Blue });
    g.vertices.push(Vertex { index: 1, color: Color::White });
    g.vertices.push(Vertex { index: 2, color: Color::Red });
    g.vertices.push(Vertex { index: 1, color: Color::White });
    g.vertices.push(Vertex { index: 3, color: Color::Green });
    g.vertices.push(Vertex { index: 2, color: Color::Red });
    proof {
        assert(g@ =~= spec_square_model());
    }
    g
}

/// The six-face coloring of the cube's triangle list.
pub open spec fn spec_cube_vertices() -> Seq<Vertex> {
    seq![
        Vertex { index: 0, color: Color::Blue },
        Vertex { index: 3, color: Color::Blue },
        Vertex { index: 6, color: Color::Blue },
        Vertex { index: 6, color: Color::Blue },
        Vertex { index: 7, color: Color::Blue },
        Vertex { index: 0, color: Color::Blue },
        Vertex { index: 0, color: Color::Yellow },
        Vertex { index: 3, color: Color::Yellow },
        Vertex { index: 2, color: Color::Yellow },
        Vertex { index: 2, color: Color::Yellow },
        Vertex { index: 1, color: Color::Yellow },
        Vertex { index: 0, color: Color::Yellow },
        Vertex { index: 6, color: Color::Red },
        Vertex { index: 7, color: Color::Red },
        Vertex { index: 4, color: Color::Red },
        Vertex { index: 4, color: Color::Red },
        Vertex { index: 5, color: Color::Red },
        Vertex { index: 6, color: Color::Red },
        Vertex { index: 5, color: Color::Cyan },
        Vertex { index: 4, color: Color::Cyan },
        Vertex { index: 1, color: Color::Cyan },
        Vertex { index: 1, color: Color::Cyan },
        Vertex { index: 2, color: Color::Cyan },
        Vertex { index: 5, color: Color::Cyan },
        Vertex { index: 0, color: Color::Magenta },
        Vertex { index: 1, color: Color::Magenta },
        Vertex { index: 4, color: Color::Magenta },
        Vertex { index: 4, color: Color::Magenta },
        Vertex { index: 7, color: Color::Magenta },
        Vertex { index: 0, color: Color::Magenta },
        Vertex { index: 2, color: Color::Green },
        Vertex { index: 3, color: Color::Green },
        Vertex { index: 6, color: Color::Green },
        Vertex { index: 6, color: Color::Green },
        Vertex { index: 5, color: Color::Green },
        Vertex { index: 2, color: Color::Green },
    ]
}

/// A unit cube of twelve triangles, one color per face.
pub open spec fn spec_cube_model() -> GeoModel {
    GeoModel {
        locations: seq![
            spec_point(f_from_int(-1), f_from_int(-1), f_from_int(1)),
            spec_point(f_from_int(-1), f_from_int(-1), f_from_int(-1)),
            spec_point(f_from_int(-1), f_from_int(1), f_from_int(-1)),
            spec_point(f_from_int(-1), f_from_int(1), f_from_int(1)),
            spec_point(f_from_int(1), f_from_int(-1), f_from_int(-1)),
            spec_point(f_from_int(1), f_from_int(1), f_from_int(-1)),
            spec_point(f_from_int(1), f_from_int(1), f_from_int(1)),
            spec_point(f_from_int(1), f_from_int(-1), f_from_int(1)),
        ],
        vertices: spec_cube_vertices(),
        ..spec_empty_model(GeometryType::Triangle)
    }
}

#[verifier::rlimit(100)]
pub fn cube() -> (g: Geometry)
    ensures
        g@ == spec_cube_model(),
        wf_geometry(g@),
{
    let mut g = Geometry::new(GeometryType::Triangle);
    g.vertex_locations.push(point(Fixed::from_int(-1), Fixed::from_int(-1), Fixed::from_int(1)));
    g.vertex_locations.push(point(Fixed::from_int(-1), Fixed::from_int(-1), Fixed::from_int(-1)));
    g.vertex_locations.push(point(Fixed::from_int(-1), Fixed::from_int(1), Fixed::from_int(-1)));
    g.vertex_locations.push(point(Fixed::from_int(-1), Fixed::from_int(1), Fixed::from_int(1)));
    g.vertex_locations.push(point(Fixed::from_int(1), Fixed::from_int(-1), Fixed::from_int(-1)));
    g.vertex_locations.push(point(Fixed::from_int(1), Fixed::from_int(1), Fixed::from_int(-1)));
    g.vertex_locations.push(point(Fixed::from_int(1), Fixed::from_int(1), Fixed::from_int(1)));
    g.vertex_locations.push(point(Fixed::from_int(1), Fixed::from_int(-1), Fixed::from_int(1)));
    g.vertices.push(Vertex { index: 0, color: Color::Blue });
    g.vertices.push(Vertex { index: 3, color: Color::Blue });
    g.vertices.push(Vertex { index: 6, color: Color::Blue });
    g.vertices.push(Vertex { index: 6, color: Color::Blue });
    g.vertices.push(Vertex { index: 7, color: Color::Blue });
    g.vertices.push(Vertex { index: 0, color: Color::Blue });
    g.vertices.push(Vertex { index: 0, color: Color::Yellow });
    g.vertices.push(Vertex { index: 3, color: Color::Yellow });
    g.vertices.push(Vertex { index: 2, color: Color::Yellow });
    g.vertices.push(Vertex { index: 2, color: Color::Yellow });
    g.vertices.push(Vertex { index: 1, color: Color::Yellow });
    g.vertices.push(Vertex { index: 0, color: Color::Yellow });
    g.vertices.push(Vertex { index: 6, color: Color::Red });
    g.vertices.push(Vertex { index: 7, color: Color::Red });
    g.vertices.push(Vertex { index: 4, color: Color::Red });
    g.vertices.push(Vertex { index: 4, color: Color::Red });
    g.vertices.push(Vertex { index: 5, color: Color::Red });
    g.vertices.push(Vertex { index: 6, color: Color::Red });
    g.vertices.push(Vertex { index: 5, color: Color::Cyan });
    g.vertices.push(Vertex { index: 4, color: Color::Cyan });
    g.vertices.push(Vertex { index: 1, color: Color::Cyan });
    g.vertices.push(Vertex { index: 1, color: Color::Cyan });
    g.vertices.push(Vertex { index: 2, color: Color::Cyan });
    g.vertices.push(Vertex { index: 5, color: Color::Cyan });
    g.vertices.push(Vertex { index: 0, color: Color::Magenta });
    g.vertices.push(Vertex { index: 1, color: Color::Magenta });
    g.vertices.push(Vertex { index: 4, color: Color::Magenta });
    g.vertices.push(Vertex { index: 4, color: Color::Magenta });
    g.vertices.push(Vertex { index: 7, color: Color::Magenta });
    g.vertices.push(Vertex { index: 0, color: Color::Magenta });
    g.vertices.push(Vertex { index: 2, color: Color::Green });
    g.vertices.push(Vertex { index: 3, color: Color::Green });
    g.vertices.push(Vertex { index: 6, color: Color::Green });
    g.vertices.push(Vertex { index: 6, color: Color::Green });
    g.vertices.push(Vertex { index: 5, color: Color::Green });
    g.vertices.push(Vertex { index: 2, color: Color::Green });
    proof {
        assert(g.vertices@ =~= spec_cube_vertices());
        assert(g@ =~= spec_cube_model());
    }
    g
}

} // verus!
