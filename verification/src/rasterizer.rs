//! Rasterization: converting primitives into colored, depth-tagged pixel
//! fragments.
//!
//! Lines walk Bresenham's integer error term, generalized to every octant
//! by swapping axes and endpoints so the walk always proceeds along the
//! major axis in increasing direction; colors and depths are interpolated
//! linearly in the walk parameter. Triangles scan the integer bounding box
//! of the rounded vertices and test barycentric weights for membership.
//! Both are specified exactly, fragment by fragment.

use crate::color::{spec_from_color, spec_rgba_add, spec_rgba_scale, spec_rgba_sub, Rgba};
use crate::fixed::{
    f_abs, f_add, f_div, f_from_int, f_mul, f_neg, f_sub, fx_round, fx_trunc, sat32, sat64, tdiv,
    Fixed, SCALE,
};
use crate::geometry::{wf_geometry, GeoError, GeoModel, Geometry, GeometryType};
use crate::math::Vec4;
use vstd::prelude::*;

verus! {

/// A fragment: one candidate pixel write with interpolated color and depth.
#[derive(Clone, Copy, Debug, PartialEq, Eq, Structural, PartialOrd, Ord)]
pub struct ToDraw {
    pub x: i32,
    pub y: i32,
    pub color: Rgba,
    pub depth: Fixed,
}

impl ToDraw {
    pub fn new(x: i32, y: i32, color: Rgba, depth: Fixed) -> (t: ToDraw)
        ensures
            t == (ToDraw { x, y, color, depth }),
    {
        ToDraw { x, y, color, depth }
    }
}

/// The normalized state of one Bresenham walk: endpoints already swapped so
/// the walk runs along the major axis in increasing direction.
pub struct LineWalk {
    /// Start coordinate along the walk axis, before rounding.
    pub x0: Fixed,
    /// Extent along the walk axis, after normalization.
    pub x_diff: Fixed,
    pub base_color: Rgba,
    pub color_diff: Rgba,
    pub z0: Fixed,
    pub depth_diff: Fixed,
    pub y_incr: int,
    pub d_incr_ge: int,
    pub d_incr_lt: int,
    pub flipped: bool,
}

/// The interpolation parameter at walk position `x`.
pub open spec fn spec_line_t(w: LineWalk, x: int) -> Fixed {
    f_div(f_sub(f_from_int(x), w.x0), w.x_diff)
}

pub open spec fn spec_line_color(w: LineWalk, x: int) -> Rgba {
    let t = spec_line_t(w, x);
    Rgba {
        r: f_add(w.base_color.r, f_mul(w.color_diff.r, t)),
        g: f_add(w.base_color.g, f_mul(w.color_diff.g, t)),
        b: f_add(w.base_color.b, f_mul(w.color_diff.b, t)),
        a: f_add(w.base_color.a, f_mul(w.color_diff.a, t)),
    }
}

pub open spec fn spec_line_depth(w: LineWalk, x: int) -> Fixed {
    f_add(w.z0, f_mul(w.depth_diff, spec_line_t(w, x)))
}

pub open spec fn spec_line_frag(w: LineWalk, x: int, y: int) -> ToDraw {
    if w.flipped {
        ToDraw {
            x: sat32(y) as i32,
            y: sat32(x) as i32,
            color: spec_line_color(w, x),
            depth: spec_line_depth(w, x),
        }
    } else {
        ToDraw {
            x: sat32(x) as i32,
            y: sat32(y) as i32,
            color: spec_line_color(w, x),
            depth: spec_line_depth(w, x),
        }
    }
}

/// The fragments emitted after the start pixel: at each step the error term
/// decides whether the minor coordinate advances, then a fragment is
/// emitted at the updated position.
pub open spec fn spec_bres_rest(w: LineWalk, x: int, x_end: int, y: int, d: int) -> Seq<ToDraw>
    decreases x_end + 1 - x,
{
    if x > x_end {
        Seq::empty()
    } else {
        let d2 = if d >= 0 {
            d + w.d_incr_ge
        } else {
            d + w.d_incr_lt
        };
        let y2 = if d >= 0 {
            y
        } else {
            y + w.y_incr
        };
        seq![spec_line_frag(w, x, y2)] + spec_bres_rest(w, x + 1, x_end, y2, d2)
    }
}

/// Every fragment of the line from `v1` to `v2`: the start pixel at the
/// rounded start point, then the Bresenham walk up to the rounded end.
pub open spec fn spec_line_fragments(v1: Vec4, v2: Vec4, c1: Rgba, c2: Rgba) -> Seq<ToDraw> {
    let y_diff0 = f_sub(v2.y, v1.y);
    let x_diff0 = f_sub(v2.x, v1.x);
    let flipped = f_abs(y_diff0).raw > f_abs(x_diff0).raw;
    let ax0 = if flipped {
        v1.y
    } else {
        v1.x
    };
    let ay0 = if flipped {
        v1.x
    } else {
        v1.y
    };
    let ax1 = if flipped {
        v2.y
    } else {
        v2.x
    };
    let ay1 = if flipped {
        v2.x
    } else {
        v2.y
    };
    let axd = if flipped {
        y_diff0
    } else {
        x_diff0
    };
    let ayd = if flipped {
        x_diff0
    } else {
        y_diff0
    };
    let swapped = ax0.raw > ax1.raw;
    let x0 = if swapped {
        ax1
    } else {
        ax0
    };
    let y0 = if swapped {
        ay1
    } else {
        ay0
    };
    let x1 = if swapped {
        ax0
    } else {
        ax1
    };
    let ca = if swapped {
        c2
    } else {
        c1
    };
    let cb = if swapped {
        c1
    } else {
        c2
    };
    let z0 = if swapped {
        v2.z
    } else {
        v1.z
    };
    let z1 = if swapped {
        v1.z
    } else {
        v2.z
    };
    let x_diff = if swapped {
        f_neg(axd)
    } else {
        axd
    };
    let y_diff = if swapped {
        f_neg(ayd)
    } else {
        ayd
    };
    let y_diff_i = sat32(fx_trunc(y_diff.raw as int));
    let x_diff_i = sat32(fx_trunc(x_diff.raw as int));
    let y_init = sat32(fx_trunc(y0.raw as int));
    let y_incr: int = if y_diff_i > 0 {
        1
    } else {
        -1
    };
    let y_abs: int = if y_diff_i > 0 {
        y_diff_i
    } else {
        -y_diff_i
    };
    let d0 = x_diff_i - 2 * y_abs;
    let x0r = sat32(fx_round(x0.raw as int));
    let y0r = sat32(fx_round(y0.raw as int));
    let x1r = sat32(fx_round(x1.raw as int));
    let w = LineWalk {
        x0,
        x_diff,
        base_color: ca,
        color_diff: spec_rgba_sub(cb, ca),
        z0,
        depth_diff: f_sub(z1, z0),
        y_incr,
        d_incr_ge: -2 * y_abs,
        d_incr_lt: 2 * (x_diff_i - y_abs),
        flipped,
    };
    let first = if flipped {
        ToDraw { x: y0r as i32, y: x0r as i32, color: ca, depth: z0 }
    } else {
        ToDraw { x: x0r as i32, y: y0r as i32, color: ca, depth: z0 }
    };
    seq![first] + spec_bres_rest(w, x0r + 1, x1r, y_init, d0)
}

/// Append the fragments of the line from `v1` to `v2` to `draw_buffer`,
/// colors and depths interpolated between the endpoints.
#[verifier::rlimit(100)]
pub fn draw_line(v1: &Vec4, v2: &Vec4, v1c: &Rgba, v2c: &Rgba, draw_buffer: &mut Vec<ToDraw>)
    ensures
        final(draw_buffer)@ == old(draw_buffer)@ + spec_line_fragments(*v1, *v2, *v1c, *v2c),
{
    let ghost frags = spec_line_fragments(*v1, *v2, *v1c, *v2c);
    let y_diff0 = v2.y.sub(v1.y);
    let x_diff0 = v2.x.sub(v1.x);
    let flipped = y_diff0.abs().raw > x_diff0.abs().raw;
    let ax0 = if flipped {
        v1.y
    } else {
        v1.x
    };
    let ay0 = if flipped {
        v1.x
    } else {
        v1.y
    };
    let ax1 = if flipped {
        v2.y
    } else {
        v2.x
    };
    let ay1 = if flipped {
        v2.x
    } else {
        v2.y
    };
    let axd = if flipped {
        y_diff0
    } else {
        x_diff0
    };
    let ayd = if flipped {
        x_diff0
    } else {
        y_diff0
    };
    let swapped = ax0.raw > ax1.raw;
    let x0 = if swapped {
        ax1
    } else {
        ax0
    };
    let y0 = if swapped {
        ay1
    } else {
        ay0
    };
    let x1 = if swapped {
        ax0
    } else {
        ax1
    };
    let ca = if swapped {
        *v2c
    } else {
        *v1c
    };
    let cb = if swapped {
        *v1c
    } else {
        *v2c
    };
    let z0 = if swapped {
        v2.z
    } else {
        v1.z
    };
    let z1 = if swapped {
        v1.z
    } else {
        v2.z
    };
    let x_diff = if swapped {
        axd.neg()
    } else {
        axd
    };
    let y_diff = if swapped {
        ayd.neg()
    } else {
        ayd
    };
    let color_diff = cb.sub(&ca);
    let depth_diff = z1.sub(z0);
    let y_diff_i: i64 = y_diff.trunc_i32() as i64;
    let x_diff_i: i64 = x_diff.trunc_i32() as i64;
    let y_init: i64 = y0.trunc_i32() as i64;
    let y_incr: i64 = if y_diff_i > 0 {
        1
    } else {
        -1
    };
    let y_abs: i64 = if y_diff_i > 0 {
        y_diff_i
    } else {
        -y_diff_i
    };
    let d_incr_ge: i128 = -2 * (y_abs as i128);
    let d_incr_lt: i128 = 2 * ((x_diff_i as i128) - (y_abs as i128));
    let x0r: i32 = x0.round_i32();
    let y0r: i32 = y0.round_i32();
    let x1r: i32 = x1.round_i32();
    let ghost w = LineWalk {
        x0,
        x_diff,
        base_color: ca,
        color_diff,
        z0,
        depth_diff,
        y_incr: y_incr as int,
        d_incr_ge: d_incr_ge as int,
        d_incr_lt: d_incr_lt as int,
        flipped,
    };
    let first = if flipped {
        ToDraw { x: y0r, y: x0r, color: ca, depth: z0 }
    } else {
        ToDraw { x: x0r, y: y0r, color: ca, depth: z0 }
    };
    draw_buffer.push(first);
    let x_end: i64 = x1r as i64;
    let mut x: i64 = (x0r as i64) + 1;
    let mut y: i64 = y_init;
    let mut d: i128 = (x_diff_i as i128) - 2 * (y_abs as i128);
    proof {
        reveal(crate::fixed::fx_sub);
        reveal(crate::fixed::fx_neg);
        reveal(crate::fixed::sat64);
        assert(x0.raw <= x1.raw);
        assert(x_diff.raw >= 0);
        assert(x0.raw < x1.raw ==> x_diff.raw >= 1);
        assert(frags == seq![first] + spec_bres_rest(w, x as int, x_end as int, y as int, d as int));
        assert(draw_buffer@ + spec_bres_rest(w, x as int, x_end as int, y as int, d as int)
            =~= old(draw_buffer)@ + frags);
    }
    while x <= x_end
        invariant
            x0r as int + 1 <= x,
            x0.raw <= x1.raw,
            x0r as int == sat32(fx_round(x0.raw as int)),
            x1r as int == sat32(fx_round(x1.raw as int)),
            x_end == x1r as int,
            w == (LineWalk {
                x0,
                x_diff,
                base_color: ca,
                color_diff,
                z0,
                depth_diff,
                y_incr: y_incr as int,
                d_incr_ge: d_incr_ge as int,
                d_incr_lt: d_incr_lt as int,
                flipped,
            }),
            x_diff.raw >= 0,
            x0.raw < x1.raw ==> x_diff.raw >= 1,
            y_incr == 1 || y_incr == -1,
            -0x1_0000_0000 <= d_incr_ge <= 0,
            -0x4_0000_0000 <= d_incr_lt <= 0x4_0000_0000,
            -0x1_0000_0000_0000 - (x - x0r as int) * 0x8_0000_0000 <= d
                <= 0x1_0000_0000_0000 + (x - x0r as int) * 0x8_0000_0000,
            x - x0r as int <= 0x1_0000_0000_0000,
            -0x8000_0000 - (x - x0r as int) <= y <= 0x8000_0000 + (x - x0r as int),
            draw_buffer@ + spec_bres_rest(w, x as int, x_end as int, y as int, d as int)
                == old(draw_buffer)@ + frags,
        decreases x_end + 1 - x,
    {
        proof {
            if x0.raw == x1.raw {
                assert(x0r == x1r);
                assert(false);
            }
            assert(x_diff.raw != 0);
        }
        let xi: i32 = x as i32;
        let t = Fixed::from_int(xi).sub(x0).div(x_diff);
        let color = Rgba {
            r: ca.r.add(color_diff.r.mul(t)),
            g: ca.g.add(color_diff.g.mul(t)),
            b: ca.b.add(color_diff.b.mul(t)),
            a: ca.a.add(color_diff.a.mul(t)),
        };
        let depth = z0.add(depth_diff.mul(t));
        let ghost d_old = d as int;
        let ghost y_old = y as int;
        if d >= 0 {
            d = d + d_incr_ge;
        } else {
            y = y + y_incr;
            d = d + d_incr_lt;
        }
        let yi: i32 = if y > i32::MAX as i64 {
            i32::MAX
        } else if y < i32::MIN as i64 {
            i32::MIN
        } else {
            y as i32
        };
        let frag = if flipped {
            ToDraw { x: yi, y: xi, color, depth }
        } else {
            ToDraw { x: xi, y: yi, color, depth }
        };
        proof {
            reveal(crate::fixed::sat32);
            assert(t == spec_line_t(w, x as int));
            assert(frag == spec_line_frag(w, x as int, y as int));
            assert(spec_bres_rest(w, x as int, x_end as int, y_old, d_old) == seq![
                spec_line_frag(w, x as int, y as int),
            ] + spec_bres_rest(w, x as int + 1, x_end as int, y as int, d as int));
        }
        draw_buffer.push(frag);
        proof {
            assert(draw_buffer@ + spec_bres_rest(w, x as int + 1, x_end as int, y as int, d as int)
                =~= old(draw_buffer)@ + frags);
        }
        x = x + 1;
    }
    proof {
        assert(spec_bres_rest(w, x as int, x_end as int, y as int, d as int) =~= Seq::<
            ToDraw,
        >::empty());
        assert(draw_buffer@ =~= old(draw_buffer)@ + frags);
    }
}

/// A degenerate line, both endpoints equal, yields exactly one fragment:
/// at the rounded vertex position, with the vertex's own color and depth.
pub proof fn lemma_degenerate_line_single_fragment(v: Vec4, c: Rgba)
    ensures
        spec_line_fragments(v, v, c, c).len() == 1,
        spec_line_fragments(v, v, c, c)[0] == (ToDraw {
            x: sat32(fx_round(v.x.raw as int)) as i32,
            y: sat32(fx_round(v.y.raw as int)) as i32,
            color: c,
            depth: v.z,
        }),
{
    reveal(crate::fixed::fx_sub);
    reveal(crate::fixed::sat64);
    reveal_with_fuel(spec_bres_rest, 2);
    let frags = spec_line_fragments(v, v, c, c);
    let first = ToDraw {
        x: sat32(fx_round(v.x.raw as int)) as i32,
        y: sat32(fx_round(v.y.raw as int)) as i32,
        color: c,
        depth: v.z,
    };
    assert(f_sub(v.y, v.y).raw == 0);
    assert(f_sub(v.x, v.x).raw == 0);
    assert(frags =~= seq![first]);
}

/// The rounded vertices of one triangle, its three edge-function
/// denominators, and the vertex attributes to interpolate.
pub struct TriCtx {
    pub x0: int,
    pub y0: int,
    pub x1: int,
    pub y1: int,
    pub x2: int,
    pub y2: int,
    pub ad: int,
    pub bd: int,
    pub ld: int,
    pub c1: Rgba,
    pub c2: Rgba,
    pub c3: Rgba,
    pub z1: Fixed,
    pub z2: Fixed,
    pub z3: Fixed,
}

/// The edge function of the directed edge from `(ax, ay)` to `(bx, by)`,
/// evaluated at `(x, y)`.
pub open spec fn edge_f(ax: int, ay: int, bx: int, by: int, x: int, y: int) -> int {
    (ay - by) * x + (bx - ax) * y + ax * by - bx * ay
}

pub open spec fn tri_f12(t: TriCtx, x: int, y: int) -> int {
    edge_f(t.x1, t.y1, t.x2, t.y2, x, y)
}

pub open spec fn tri_f20(t: TriCtx, x: int, y: int) -> int {
    edge_f(t.x2, t.y2, t.x0, t.y0, x, y)
}

pub open spec fn tri_f01(t: TriCtx, x: int, y: int) -> int {
    edge_f(t.x0, t.y0, t.x1, t.y1, x, y)
}

/// The barycentric weight `n / d` as a fixed-point value.
pub open spec fn f_ratio(n: int, d: int) -> Fixed {
    Fixed { raw: sat64(tdiv(n * (SCALE as int), d)) as i64 }
}

/// Does the exact rational `n / d` lie in `[0, 1]`?
pub open spec fn ratio_in_unit(n: int, d: int) -> bool {
    if d > 0 {
        0 <= n <= d
    } else {
        d <= n <= 0
    }
}

/// A pixel belongs to the triangle exactly when all three barycentric
/// weights lie in `[0, 1]`.
pub open spec fn spec_tri_covered(t: TriCtx, x: int, y: int) -> bool {
    &&& ratio_in_unit(tri_f12(t, x, y), t.ad)
    &&& ratio_in_unit(tri_f20(t, x, y), t.bd)
    &&& ratio_in_unit(tri_f01(t, x, y), t.ld)
}

/// The fragment at a covered pixel: color and depth are the
/// barycentric-weighted sums of the vertex attributes.
pub open spec fn spec_tri_frag(t: TriCtx, x: int, y: int) -> ToDraw {
    let a = f_ratio(tri_f12(t, x, y), t.ad);
    let b = f_ratio(tri_f20(t, x, y), t.bd);
    let l = f_ratio(tri_f01(t, x, y), t.ld);
    ToDraw {
        x: sat32(x) as i32,
        y: sat32(y) as i32,
        color: spec_rgba_add(
            spec_rgba_add(spec_rgba_scale(t.c1, a), spec_rgba_scale(t.c2, b)),
            spec_rgba_scale(t.c3, l),
        ),
        depth: f_add(f_add(f_mul(a, t.z1), f_mul(b, t.z2)), f_mul(l, t.z3)),
    }
}

pub open spec fn spec_tri_row(t: TriCtx, y: int, x: int, x_max: int) -> Seq<ToDraw>
    decreases x_max + 1 - x,
{
    if x > x_max {
        Seq::empty()
    } else {
        (if spec_tri_covered(t, x, y) {
            seq![spec_tri_frag(t, x, y)]
        } else {
            Seq::empty()
        }) + spec_tri_row(t, y, x + 1, x_max)
    }
}

pub open spec fn spec_tri_rows(t: TriCtx, y: int, y_max: int, x_min: int, x_max: int) -> Seq<
    ToDraw,
>
    decreases y_max + 1 - y,
{
    if y > y_max {
        Seq::empty()
    } else {
        spec_tri_row(t, y, x_min, x_max) + spec_tri_rows(t, y + 1, y_max, x_min, x_max)
    }
}

pub open spec fn spec_clamp0(v: int) -> int {
    if v < 0 {
        0
    } else {
        v
    }
}

pub open spec fn spec_imin(a: int, b: int) -> int {
    if a < b {
        a
    } else {
        b
    }
}

pub open spec fn spec_imax(a: int, b: int) -> int {
    if a > b {
        a
    } else {
        b
    }
}

pub open spec fn spec_triangle_ctx(
    v1: Vec4,
    v2: Vec4,
    v3: Vec4,
    c1: Rgba,
    c2: Rgba,
    c3: Rgba,
) -> TriCtx {
    let x0 = sat32(fx_round(v1.x.raw as int));
    let y0 = sat32(fx_round(v1.y.raw as int));
    let x1 = sat32(fx_round(v2.x.raw as int));
    let y1 = sat32(fx_round(v2.y.raw as int));
    let x2 = sat32(fx_round(v3.x.raw as int));
    let y2 = sat32(fx_round(v3.y.raw as int));
    TriCtx {
        x0,
        y0,
        x1,
        y1,
        x2,
        y2,
        ad: edge_f(x1, y1, x2, y2, x0, y0),
        bd: edge_f(x2, y2, x0, y0, x1, y1),
        ld: edge_f(x0, y0, x1, y1, x2, y2),
        c1,
        c2,
        c3,
        z1: v1.z,
        z2: v2.z,
        z3: v3.z,
    }
}

/// Every fragment of the triangle `v1 v2 v3`: the integer bounding box of
/// the rounded vertices (clamped below at zero, as a cast to an unsigned
/// pixel index does), scanned row by row. A zero-area triangle (any zero
/// edge-function denominator) is skipped entirely rather than dividing by
/// zero.
pub open spec fn spec_triangle_fragments(
    v1: Vec4,
    v2: Vec4,
    v3: Vec4,
    c1: Rgba,
    c2: Rgba,
    c3: Rgba,
) -> Seq<ToDraw> {
    let t = spec_triangle_ctx(v1, v2, v3, c1, c2, c3);
    if t.ad == 0 || t.bd == 0 || t.ld == 0 {
        Seq::empty()
    } else {
        let x_min = spec_clamp0(spec_imin(spec_imin(t.x0, t.x1), t.x2));
        let x_max = spec_clamp0(spec_imax(spec_imax(t.x0, t.x1), t.x2));
        let y_min = spec_clamp0(spec_imin(spec_imin(t.y0, t.y1), t.y2));
        let y_max = spec_clamp0(spec_imax(spec_imax(t.y0, t.y1), t.y2));
        spec_tri_rows(t, y_min, y_max, x_min, x_max)
    }
}

/// The edge function over machine integers, with a bound on its magnitude.
fn edge_val(ax: i64, ay: i64, bx: i64, by: i64, x: i64, y: i64) -> (r: i128)
    requires
        i32::MIN <= ax <= i32::MAX,
        i32::MIN <= ay <= i32::MAX,
        i32::MIN <= bx <= i32::MAX,
        i32::MIN <= by <= i32::MAX,
        i32::MIN <= x <= i32::MAX,
        i32::MIN <= y <= i32::MAX,
    ensures
        r as int == edge_f(ax as int, ay as int, bx as int, by as int, x as int, y as int),
        -0x4_0000_0000_0000_0000 <= r <= 0x4_0000_0000_0000_0000,
{
    proof {
        assert((ay - by) * x <= 0x1_0000_0000_0000_0000 && (ay - by) * x
            >= -0x1_0000_0000_0000_0000) by (nonlinear_arith)
            requires
                -0x1_0000_0000 <= ay - by <= 0x1_0000_0000,
                -0x8000_0000 <= x <= 0x8000_0000,
        ;
        assert((bx - ax) * y <= 0x1_0000_0000_0000_0000 && (bx - ax) * y
            >= -0x1_0000_0000_0000_0000) by (nonlinear_arith)
            requires
                -0x1_0000_0000 <= bx - ax <= 0x1_0000_0000,
                -0x8000_0000 <= y <= 0x8000_0000,
        ;
        assert(ax * by <= 0x4000_0000_0000_0000 && ax * by >= -0x4000_0000_0000_0000)
            by (nonlinear_arith)
            requires
                -0x8000_0000 <= ax <= 0x8000_0000,
                -0x8000_0000 <= by <= 0x8000_0000,
        ;
        assert(bx * ay <= 0x4000_0000_0000_0000 && bx * ay >= -0x4000_0000_0000_0000)
            by (nonlinear_arith)
            requires
                -0x8000_0000 <= bx <= 0x8000_0000,
                -0x8000_0000 <= ay <= 0x8000_0000,
        ;
    }
    ((ay - by) as i128) * (x as i128) + ((bx - ax) as i128) * (y as i128) + (ax as i128) * (
    by as i128) - (bx as i128) * (ay as i128)
}

/// The barycentric weight `n / d` in fixed point.
fn ratio(n: i128, d: i128) -> (r: Fixed)
    requires
        d != 0,
        -0x10_0000_0000_0000_0000 <= n <= 0x10_0000_0000_0000_0000,
        -0x10_0000_0000_0000_0000 <= d <= 0x10_0000_0000_0000_0000,
    ensures
        r == f_ratio(n as int, d as int),
{
    let p: i128 = n * (SCALE as i128);
    proof {
        assert(n as int * (SCALE as int) >= -0x10_0000_0000_0000_0000 * 0x8000_0000)
            by (nonlinear_arith)
            requires
                n as int >= -0x10_0000_0000_0000_0000,
                0 < SCALE as int <= 0x8000_0000,
        ;
        assert(p > i128::MIN && d > i128::MIN);
    }
    Fixed { raw: crate::fixed::sat_narrow(crate::fixed::tdiv_wide(p, d)) }
}

/// Is the exact rational `n / d` within `[0, 1]`?
fn in_unit(n: i128, d: i128) -> (b: bool)
    requires
        d != 0,
    ensures
        b == ratio_in_unit(n as int, d as int),
{
    if d > 0 {
        0 <= n && n <= d
    } else {
        d <= n && n <= 0
    }
}

/// Append the fragments of the triangle `v1 v2 v3` to `draw_buffer`, colors
/// and depths interpolated barycentrically. Zero-area triangles emit
/// nothing.
#[verifier::rlimit(100)]
pub fn rasterize_triangle(
    v1: &Vec4,
    v2: &Vec4,
    v3: &Vec4,
    v1c: &Rgba,
    v2c: &Rgba,
    v3c: &Rgba,
    draw_buffer: &mut Vec<ToDraw>,
)
    ensures
        final(draw_buffer)@ == old(draw_buffer)@ + spec_triangle_fragments(
            *v1,
            *v2,
            *v3,
            *v1c,
            *v2c,
            *v3c,
        ),
{
    let ghost frags = spec_triangle_fragments(*v1, *v2, *v3, *v1c, *v2c, *v3c);
    let x0: i64 = v1.x.round_i32() as i64;
    let y0: i64 = v1.y.round_i32() as i64;
    let x1: i64 = v2.x.round_i32() as i64;
    let y1: i64 = v2.y.round_i32() as i64;
    let x2: i64 = v3.x.round_i32() as i64;
    let y2: i64 = v3.y.round_i32() as i64;
    let ad = edge_val(x1, y1, x2, y2, x0, y0);
    let bd = edge_val(x2, y2, x0, y0, x1, y1);
    let ld = edge_val(x0, y0, x1, y1, x2, y2);
    let ghost t = spec_triangle_ctx(*v1, *v2, *v3, *v1c, *v2c, *v3c);
    if ad == 0 || bd == 0 || ld == 0 {
        proof {
            assert(draw_buffer@ =~= old(draw_buffer)@ + frags);
        }
        return ;
    }
    let x_min: i64 = {
        let m = if x0 < x1 {
            x0
        } else {
            x1
        };
        let m = if m < x2 {
            m
        } else {
            x2
        };
        if m < 0 {
            0
        } else {
            m
        }
    };
    let x_max: i64 = {
        let m = if x0 > x1 {
            x0
        } else {
            x1
        };
        let m = if m > x2 {
            m
        } else {
            x2
        };
        if m < 0 {
            0
        } else {
            m
        }
    };
    let y_min: i64 = {
        let m = if y0 < y1 {
            y0
        } else {
            y1
        };
        let m = if m < y2 {
            m
        } else {
            y2
        };
        if m < 0 {
            0
        } else {
            m
        }
    };
    let y_max: i64 = {
        let m = if y0 > y1 {
            y0
        } else {
            y1
        };
        let m = if m > y2 {
            m
        } else {
            y2
        };
        if m < 0 {
            0
        } else {
            m
        }
    };
    let mut y: i64 = y_min;
    proof {
        assert(frags == spec_tri_rows(t, y_min as int, y_max as int, x_min as int, x_max as int));
        assert(draw_buffer@ + spec_tri_rows(t, y as int, y_max as int, x_min as int, x_max as int)
            =~= old(draw_buffer)@ + frags);
    }
    while y <= y_max
        invariant
            y_min <= y,
            0 <= x_min <= x_max <= i32::MAX,
            0 <= y_min <= y_max <= i32::MAX,
            t == spec_triangle_ctx(*v1, *v2, *v3, *v1c, *v2c, *v3c),
            t.ad == ad && t.bd == bd && t.ld == ld,
            ad != 0 && bd != 0 && ld != 0,
            i32::MIN <= t.x0 <= i32::MAX && i32::MIN <= t.y0 <= i32::MAX,
            i32::MIN <= t.x1 <= i32::MAX && i32::MIN <= t.y1 <= i32::MAX,
            i32::MIN <= t.x2 <= i32::MAX && i32::MIN <= t.y2 <= i32::MAX,
            t.x0 == x0 && t.y0 == y0 && t.x1 == x1 && t.y1 == y1 && t.x2 == x2 && t.y2 == y2,
            -0x4_0000_0000_0000_0000 <= ad <= 0x4_0000_0000_0000_0000,
            -0x4_0000_0000_0000_0000 <= bd <= 0x4_0000_0000_0000_0000,
            -0x4_0000_0000_0000_0000 <= ld <= 0x4_0000_0000_0000_0000,
            draw_buffer@ + spec_tri_rows(t, y as int, y_max as int, x_min as int, x_max as int)
                == old(draw_buffer)@ + frags,
        decreases y_max + 1 - y,
    {
        let mut x: i64 = x_min;
        proof {
            assert(spec_tri_rows(t, y as int, y_max as int, x_min as int, x_max as int)
                == spec_tri_row(t, y as int, x_min as int, x_max as int) + spec_tri_rows(
                t,
                y as int + 1,
                y_max as int,
                x_min as int,
                x_max as int,
            ));
        }
        while x <= x_max
            invariant
                x_min <= x,
                0 <= x_min <= x_max <= i32::MAX,
                0 <= y_min <= y <= y_max <= i32::MAX,
                t == spec_triangle_ctx(*v1, *v2, *v3, *v1c, *v2c, *v3c),
                t.ad == ad && t.bd == bd && t.ld == ld,
                ad != 0 && bd != 0 && ld != 0,
                i32::MIN <= t.x0 <= i32::MAX && i32::MIN <= t.y0 <= i32::MAX,
                i32::MIN <= t.x1 <= i32::MAX && i32::MIN <= t.y1 <= i32::MAX,
                i32::MIN <= t.x2 <= i32::MAX && i32::MIN <= t.y2 <= i32::MAX,
                t.x0 == x0 && t.y0 == y0 && t.x1 == x1 && t.y1 == y1 && t.x2 == x2 && t.y2 == y2,
                -0x4_0000_0000_0000_0000 <= ad <= 0x4_0000_0000_0000_0000,
                -0x4_0000_0000_0000_0000 <= bd <= 0x4_0000_0000_0000_0000,
                -0x4_0000_0000_0000_0000 <= ld <= 0x4_0000_0000_0000_0000,
                draw_buffer@ + spec_tri_row(t, y as int, x as int, x_max as int) + spec_tri_rows(
                    t,
                    y as int + 1,
                    y_max as int,
                    x_min as int,
                    x_max as int,
                ) == old(draw_buffer)@ + frags,
            decreases x_max + 1 - x,
        {
            let na = edge_val(x1, y1, x2, y2, x, y);
            let nb = edge_val(x2, y2, x0, y0, x, y);
            let nl = edge_val(x0, y0, x1, y1, x, y);
            if in_unit(na, ad) && in_unit(nb, bd) && in_unit(nl, ld) {
                let a = ratio(na, ad);
                let b = ratio(nb, bd);
                let l = ratio(nl, ld);
                let color = v1c.scaled(a).add(&v2c.scaled(b)).add(&v3c.scaled(l));
                let depth = a.mul(v1.z).add(b.mul(v2.z)).add(l.mul(v3.z));
                let frag = ToDraw { x: x as i32, y: y as i32, color, depth };
                proof {
                    reveal(crate::fixed::sat32);
                    assert(frag == spec_tri_frag(t, x as int, y as int));
                    assert(spec_tri_covered(t, x as int, y as int));
                    assert(spec_tri_row(t, y as int, x as int, x_max as int) == seq![
                        spec_tri_frag(t, x as int, y as int),
                    ] + spec_tri_row(t, y as int, x as int + 1, x_max as int));
                }
                draw_buffer.push(frag);
                proof {
                    assert(draw_buffer@ + spec_tri_row(t, y as int, x as int + 1, x_max as int)
                        + spec_tri_rows(
                        t,
                        y as int + 1,
                        y_max as int,
                        x_min as int,
                        x_max as int,
                    ) =~= old(draw_buffer)@ + frags);
                }
            } else {
                proof {
                    assert(!spec_tri_covered(t, x as int, y as int));
                    assert(spec_tri_row(t, y as int, x as int, x_max as int) =~= spec_tri_row(
                        t,
                        y as int,
                        x as int + 1,
                        x_max as int,
                    ));
                }
            }
            x = x + 1;
        }
        proof {
            assert(spec_tri_row(t, y as int, x as int, x_max as int) =~= Seq::<ToDraw>::empty());
            assert(draw_buffer@ + spec_tri_rows(
                t,
                y as int + 1,
                y_max as int,
                x_min as int,
                x_max as int,
            ) =~= old(draw_buffer)@ + frags);
        }
        y = y + 1;
    }
    proof {
        assert(spec_tri_rows(t, y as int, y_max as int, x_min as int, x_max as int) =~= Seq::<
            ToDraw,
        >::empty());
        assert(draw_buffer@ =~= old(draw_buffer)@ + frags);
    }
}

/// The fragments of the `j`-th segment of a line geometry.
pub open spec fn spec_segment_frags(g: GeoModel, j: int) -> Seq<ToDraw> {
    spec_line_fragments(
        g.locations[g.vertices[j].index as int],
        g.locations[g.vertices[j + 1].index as int],
        spec_from_color(g.vertices[j].color),
        spec_from_color(g.vertices[j + 1].color),
    )
}

/// The fragments of the first `i` segments of a line geometry.
pub open spec fn spec_geo_line_frags(g: GeoModel, i: int) -> Seq<ToDraw>
    decreases i,
{
    if i <= 0 {
        Seq::empty()
    } else {
        spec_geo_line_frags(g, i - 1) + spec_segment_frags(g, i - 1)
    }
}

/// The fragments of the triangle whose vertices start at index `i`.
pub open spec fn spec_triple_frags(g: GeoModel, i: int) -> Seq<ToDraw> {
    spec_triangle_fragments(
        g.locations[g.vertices[i].index as int],
        g.locations[g.vertices[i + 1].index as int],
        g.locations[g.vertices[i + 2].index as int],
        spec_from_color(g.vertices[i].color),
        spec_from_color(g.vertices[i + 1].color),
        spec_from_color(g.vertices[i + 2].color),
    )
}

/// The fragments of the triangles among the first `n` vertices.
pub open spec fn spec_geo_tri_frags(g: GeoModel, n: int) -> Seq<ToDraw>
    decreases n,
{
    if n < 3 {
        Seq::empty()
    } else {
        spec_geo_tri_frags(g, n - 3) + spec_triple_frags(g, n - 3)
    }
}

/// A triangle list must have a vertex count divisible by its stride.
pub open spec fn spec_rasterize_ok(g: GeoModel) -> bool {
    g.geo_type == GeometryType::Triangle ==> g.vertices.len() % 3 == 0
}

/// Every fragment of a geometry: consecutive segments for a line,
/// consecutive vertex triples for a triangle list.
pub open spec fn spec_rasterize_fragments(g: GeoModel) -> Seq<ToDraw> {
    match g.geo_type {
        GeometryType::Line => spec_geo_line_frags(
            g,
            if g.vertices.len() == 0 {
                0
            } else {
                g.vertices.len() - 1
            },
        ),
        GeometryType::Triangle => spec_geo_tri_frags(g, g.vertices.len() as int),
    }
}

/// Append every fragment of `geometry` to `draw_buffer`. A triangle list
/// whose vertex count is not a multiple of 3 is rejected whole, naming the
/// geometry, and the buffer is untouched.
pub fn rasterize_geometry(geometry: &Geometry, draw_buffer: &mut Vec<ToDraw>) -> (res: Result<
    (),
    GeoError,
>)
    requires
        wf_geometry(geometry@),
    ensures
        match res {
            Ok(_) => spec_rasterize_ok(geometry@) && final(draw_buffer)@ == old(draw_buffer)@
                + spec_rasterize_fragments(geometry@),
            Err(e) => {
                &&& geometry@.geo_type == GeometryType::Triangle
                &&& geometry@.vertices.len() % 3 != 0
                &&& e == GeoError::NotDiv3(geometry.name)
                &&& final(draw_buffer)@ == old(draw_buffer)@
            },
        },
{
    let n = geometry.vertices.len();
    match geometry.geo_type {
        GeometryType::Line => {
            let ghost segs: int = if n == 0 {
                0
            } else {
                n - 1
            };
            let mut j: usize = 0;
            while j + 1 < n
                invariant
                    wf_geometry(geometry@),
                    n == geometry@.vertices.len(),
                    segs == if n == 0 {
                        0int
                    } else {
                        n - 1
                    },
                    0 <= j <= segs,
                    draw_buffer@ == old(draw_buffer)@ + spec_geo_line_frags(geometry@, j as int),
                decreases n - j,
            {
                let v1 = geometry.vertices[j];
                let v2 = geometry.vertices[j + 1];
                let c1 = Rgba::from_color(&v1.color);
                let c2 = Rgba::from_color(&v2.color);
                draw_line(
                    &geometry.vertex_locations[v1.index],
                    &geometry.vertex_locations[v2.index],
                    &c1,
                    &c2,
                    draw_buffer,
                );
                proof {
                    assert(spec_geo_line_frags(geometry@, j + 1 as int) == spec_geo_line_frags(
                        geometry@,
                        j as int,
                    ) + spec_segment_frags(geometry@, j as int));
                    assert(draw_buffer@ =~= old(draw_buffer)@ + spec_geo_line_frags(
                        geometry@,
                        j + 1 as int,
                    ));
                }
                j = j + 1;
            }
            proof {
                assert(j as int == segs);
            }
            Ok(())
        },
        GeometryType::Triangle => {
            if n % 3 != 0 {
                let name = match &geometry.name {
                    Some(s) => Some(s.clone()),
                    None => None,
                };
                return Err(GeoError::NotDiv3(name));
            }
            let mut i: usize = 0;
            while i < n
                invariant
                    wf_geometry(geometry@),
                    n == geometry@.vertices.len(),
                    n % 3 == 0,
                    i % 3 == 0,
                    0 <= i <= n,
                    draw_buffer@ == old(draw_buffer)@ + spec_geo_tri_frags(geometry@, i as int),
                decreases n - i,
            {
                let v1 = geometry.vertices[i];
                let v2 = geometry.vertices[i + 1];
                let v3 = geometry.vertices[i + 2];
                let c1 = Rgba::from_color(&v1.color);
                let c2 = Rgba::from_color(&v2.color);
                let c3 = Rgba::from_color(&v3.color);
                rasterize_triangle(
                    &geometry.vertex_locations[v1.index],
                    &geometry.vertex_locations[v2.index],
                    &geometry.vertex_locations[v3.index],
                    &c1,
                    &c2,
                    &c3,
                    draw_buffer,
                );
                proof {
                    assert(spec_geo_tri_frags(geometry@, i + 3 as int) == spec_geo_tri_frags(
                        geometry@,
                        i as int,
                    ) + spec_triple_frags(geometry@, i as int));
                    assert(draw_buffer@ =~= old(draw_buffer)@ + spec_geo_tri_frags(
                        geometry@,
                        i + 3 as int,
                    ));
                }
                i = i + 3;
            }
            Ok(())
        },
    }
}

/// Every integer coordinate rescaled into fixed point rounds and truncates
/// back to itself.
proof fn lemma_scaled_int(a: int)
    requires
        -2000000 <= a <= 2000000,
    ensures
        fx_round(a * (SCALE as int)) == a,
        fx_trunc(a * (SCALE as int)) == a,
        sat32(a) == a,
        sat64(a * (SCALE as int)) == a * (SCALE as int),
{
    reveal(crate::fixed::fx_round);
    reveal(crate::fixed::fx_trunc);
    reveal(crate::fixed::tdiv);
    reveal(crate::fixed::sat32);
    reveal(crate::fixed::sat64);
    let s = SCALE as int;
    let h = crate::fixed::HALF_SCALE as int;
    vstd::arithmetic::div_mod::lemma_div_multiples_vanish_fancy(a, h, s);
    vstd::arithmetic::div_mod::lemma_div_multiples_vanish_fancy(-a, h, s);
    vstd::arithmetic::div_mod::lemma_div_multiples_vanish(a, s);
    vstd::arithmetic::div_mod::lemma_div_multiples_vanish(-a, s);
    assert(s * a == a * s);
    assert(s * (-a) == -(a * s));
}

/// A two-element fragment sequence seen as a set.
proof fn lemma_pair_seq_set(s: Seq<ToDraw>, a: ToDraw, b: ToDraw)
    requires
        s == seq![a, b],
    ensures
        s.to_set() == set![a, b],
{
    assert(s[0] == a);
    assert(s[1] == b);
    assert(s.to_set() =~= set![a, b]) by {
        assert forall|f: ToDraw| s.to_set().contains(f) implies set![a, b].contains(f) by {
            let i = choose|i: int| 0 <= i < s.len() && s[i] == f;
            assert(i == 0 || i == 1);
        }
        assert forall|f: ToDraw| set![a, b].contains(f) implies s.to_set().contains(f) by {
            if f == a {
                assert(s[0] == f);
                assert(s.contains(f));
            } else {
                assert(s[1] == f);
                assert(s.contains(f));
            }
        }
    }
}

/// Endpoint-order symmetry on unit steps: a line from an integer point to
/// any of its eight neighbors yields exactly the fragment set containing
/// the two endpoints, with the shared color and depth, whichever endpoint
/// comes first.
#[verifier::rlimit(100)]
pub proof fn lemma_neighbor_line_endpoint_symmetry(
    px: int,
    py: int,
    dx: int,
    dy: int,
    v1: Vec4,
    v2: Vec4,
    c: Rgba,
    z: Fixed,
)
    requires
        -1000000 <= px <= 1000000,
        -1000000 <= py <= 1000000,
        dx == -1 || dx == 0 || dx == 1,
        dy == -1 || dy == 0 || dy == 1,
        !(dx == 0 && dy == 0),
        v1.x.raw == px * (SCALE as int),
        v1.y.raw == py * (SCALE as int),
        v1.z == z,
        v2.x.raw == (px + dx) * (SCALE as int),
        v2.y.raw == (py + dy) * (SCALE as int),
        v2.z == z,
    ensures
        spec_line_fragments(v1, v2, c, c) == spec_line_fragments(v2, v1, c, c),
        spec_line_fragments(v1, v2, c, c).to_set() == set![
            ToDraw { x: px as i32, y: py as i32, color: c, depth: z },
            ToDraw { x: (px + dx) as i32, y: (py + dy) as i32, color: c, depth: z },
        ],
{
    reveal(crate::fixed::fx_add);
    reveal(crate::fixed::fx_sub);
    reveal(crate::fixed::fx_neg);
    reveal(crate::fixed::fx_mul);
    reveal(crate::fixed::fx_div);
    reveal(crate::fixed::fx_trunc);
    reveal(crate::fixed::fx_round);
    reveal(crate::fixed::sat64);
    reveal(crate::fixed::sat32);
    reveal(crate::fixed::tdiv);
    reveal_with_fuel(spec_bres_rest, 3);
    let s = SCALE as int;
    lemma_scaled_int(px);
    lemma_scaled_int(py);
    lemma_scaled_int(px + dx);
    lemma_scaled_int(py + dy);
    vstd::arithmetic::div_mod::lemma_div_multiples_vanish(s, s);
    vstd::arithmetic::div_mod::lemma_div_of0(s);
    vstd::arithmetic::div_mod::lemma_div_by_self(s);
    let f_p = ToDraw { x: px as i32, y: py as i32, color: c, depth: z };
    let f_n = ToDraw { x: (px + dx) as i32, y: (py + dy) as i32, color: c, depth: z };
    let s12 = spec_line_fragments(v1, v2, c, c);
    let s21 = spec_line_fragments(v2, v1, c, c);
    if dx == 1 && dy == 0 {
        assert(s12 =~= seq![f_p, f_n]);
        assert(s21 =~= seq![f_p, f_n]);
    } else if dx == 1 && dy == 1 {
        assert(s12 =~= seq![f_p, f_n]);
        assert(s21 =~= seq![f_p, f_n]);
    } else if dx == 1 && dy == -1 {
        assert(s12 =~= seq![f_p, f_n]);
        assert(s21 =~= seq![f_p, f_n]);
    } else if dx == -1 && dy == 0 {
        assert(s12 =~= seq![f_n, f_p]);
        assert(s21 =~= seq![f_n, f_p]);
    } else if dx == -1 && dy == 1 {
        assert(s12 =~= seq![f_n, f_p]);
        assert(s21 =~= seq![f_n, f_p]);
    } else if dx == -1 && dy == -1 {
        assert(s12 =~= seq![f_n, f_p]);
        assert(s21 =~= seq![f_n, f_p]);
    } else if dy == 1 {
        assert(s12 =~= seq![f_p, f_n]);
        assert(s21 =~= seq![f_p, f_n]);
    } else {
        assert(s12 =~= seq![f_n, f_p]);
        assert(s21 =~= seq![f_n, f_p]);
    }
    if s12 == seq![f_p, f_n] {
        lemma_pair_seq_set(s12, f_p, f_n);
        assert(set![f_p, f_n] =~= set![f_p, f_n]);
    } else {
        assert(s12 == seq![f_n, f_p]);
        lemma_pair_seq_set(s12, f_n, f_p);
        assert(set![f_n, f_p] =~= set![f_p, f_n]);
    }
}

} // verus!
