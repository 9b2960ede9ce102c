//! RGBA colors with fixed-point channels, alpha blending and packing to a
//! 24-bit integer.
//!
//! Channels conventionally lie in `[0, 1]` but are not clamped by the
//! arithmetic; only packing clamps, so that out-of-range channels cannot
//! corrupt neighbouring bytes of the packed pixel.

use crate::fixed::{f_add, f_mul, f_sub, iabs, tdiv, Fixed, SCALE};
use vstd::prelude::*;

verus! {

/// A color name, or custom channels. Conversion to [`Rgba`] is exact.
#[derive(Debug, Clone, Copy, PartialEq, Eq, Structural)]
pub enum Color {
    Black,
    Red,
    Green,
    Blue,
    White,
    Yellow,
    Cyan,
    Magenta,
    Custom(Fixed, Fixed, Fixed, Fixed),
}

/// A color as four fixed-point channels.
#[derive(Clone, Copy, Debug, PartialEq, Eq, Structural, PartialOrd, Ord)]
pub struct Rgba {
    pub r: Fixed,
    pub g: Fixed,
    pub b: Fixed,
    pub a: Fixed,
}

pub open spec fn spec_from_color(color: Color) -> Rgba {
    let z = Fixed { raw: 0 };
    let o = Fixed { raw: SCALE };
    match color {
        Color::Black => Rgba { r: z, g: z, b: z, a: o },
        Color::Red => Rgba { r: o, g: z, b: z, a: o },
        Color::Green => Rgba { r: z, g: o, b: z, a: o },
        Color::Blue => Rgba { r: z, g: z, b: o, a: o },
        Color::White => Rgba { r: o, g: o, b: o, a: o },
        Color::Yellow => Rgba { r: o, g: o, b: z, a: o },
        Color::Cyan => Rgba { r: z, g: o, b: o, a: o },
        Color::Magenta => Rgba { r: o, g: z, b: o, a: o },
        Color::Custom(r, g, b, a) => Rgba { r, g, b, a },
    }
}

/// The "over" operator: each color channel becomes
/// `over * over.a + under * (1 - over.a)`; the alpha channels add.
pub open spec fn spec_over_blend(under: Rgba, over: Rgba) -> Rgba {
    let um = f_sub(Fixed { raw: SCALE }, over.a);
    Rgba {
        r: f_add(f_mul(under.r, um), f_mul(over.r, over.a)),
        g: f_add(f_mul(under.g, um), f_mul(over.g, over.a)),
        b: f_add(f_mul(under.b, um), f_mul(over.b, over.a)),
        a: f_add(under.a, over.a),
    }
}

pub open spec fn spec_rgba_add(lhs: Rgba, rhs: Rgba) -> Rgba {
    Rgba {
        r: f_add(lhs.r, rhs.r),
        g: f_add(lhs.g, rhs.g),
        b: f_add(lhs.b, rhs.b),
        a: f_add(lhs.a, rhs.a),
    }
}

pub open spec fn spec_rgba_sub(lhs: Rgba, rhs: Rgba) -> Rgba {
    Rgba {
        r: f_sub(lhs.r, rhs.r),
        g: f_sub(lhs.g, rhs.g),
        b: f_sub(lhs.b, rhs.b),
        a: f_sub(lhs.a, rhs.a),
    }
}

pub open spec fn spec_rgba_scale(lhs: Rgba, k: Fixed) -> Rgba {
    Rgba {
        r: f_mul(lhs.r, k),
        g: f_mul(lhs.g, k),
        b: f_mul(lhs.b, k),
        a: f_mul(lhs.a, k),
    }
}

/// One packed byte: the channel times 255, truncated, clamped to `[0, 255]`.
pub open spec fn spec_channel_byte(c: Fixed) -> int {
    let v = tdiv(c.raw * 255, SCALE as int);
    if v < 0 {
        0
    } else if v > 255 {
        255
    } else {
        v
    }
}

/// Pack as `0x00RRGGBB`: red in the third byte, green in the second, blue in
/// the first; the top byte stays zero.
pub open spec fn spec_pack(c: Rgba) -> u32 {
    (spec_channel_byte(c.r) * 0x1_0000 + spec_channel_byte(c.g) * 0x100 + spec_channel_byte(
        c.b,
    )) as u32
}

impl Rgba {
    /// A fully opaque color.
    pub fn color(r: Fixed, g: Fixed, b: Fixed) -> (c: Rgba)
        ensures
            c == (Rgba { r, g, b, a: Fixed { raw: SCALE } }),
    {
        Rgba { r, g, b, a: Fixed { raw: SCALE } }
    }

    /// A color with an explicit alpha channel.
    pub fn color_a(r: Fixed, g: Fixed, b: Fixed, a: Fixed) -> (c: Rgba)
        ensures
            c == (Rgba { r, g, b, a }),
    {
        Rgba { r, g, b, a }
    }

    /// The RGBA channels of a named color.
    pub fn from_color(color: &Color) -> (c: Rgba)
        ensures
            c == spec_from_color(*color),
    {
        let z = Fixed { raw: 0 };
        let o = Fixed { raw: SCALE };
        match color {
            Color::Black => Rgba { r: z, g: z, b: z, a: o },
            Color::Red => Rgba { r: o, g: z, b: z, a: o },
            Color::Green => Rgba { r: z, g: o, b: z, a: o },
            Color::Blue => Rgba { r: z, g: z, b: o, a: o },
            Color::White => Rgba { r: o, g: o, b: o, a: o },
            Color::Yellow => Rgba { r: o, g: o, b: z, a: o },
            Color::Cyan => Rgba { r: z, g: o, b: o, a: o },
            Color::Magenta => Rgba { r: o, g: z, b: o, a: o },
            Color::Custom(r, g, b, a) => Rgba { r: *r, g: *g, b: *b, a: *a },
        }
    }

    /// Blend `over` on top of `self` with the "over" operator.
    pub fn over_blend(&mut self, over: Rgba)
        ensures
            *final(self) == spec_over_blend(*old(self), over),
    {
        let um = Fixed { raw: SCALE }.sub(over.a);
        let blended = Rgba {
            r: self.r.mul(um).add(over.r.mul(over.a)),
            g: self.g.mul(um).add(over.g.mul(over.a)),
            b: self.b.mul(um).add(over.b.mul(over.a)),
            a: self.a.add(over.a),
        };
        *self = blended;
    }

    /// Channel-wise sum (the alpha channels add as well).
    pub fn add(&self, rhs: &Rgba) -> (c: Rgba)
        ensures
            c == spec_rgba_add(*self, *rhs),
    {
        Rgba {
            r: self.r.add(rhs.r),
            g: self.g.add(rhs.g),
            b: self.b.add(rhs.b),
            a: self.a.add(rhs.a),
        }
    }

    /// Channel-wise difference.
    pub fn sub(&self, rhs: &Rgba) -> (c: Rgba)
        ensures
            c == spec_rgba_sub(*self, *rhs),
    {
        Rgba {
            r: self.r.sub(rhs.r),
            g: self.g.sub(rhs.g),
            b: self.b.sub(rhs.b),
            a: self.a.sub(rhs.a),
        }
    }

    /// Every channel scaled by `k` (alpha included).
    pub fn scaled(&self, k: Fixed) -> (c: Rgba)
        ensures
            c == spec_rgba_scale(*self, k),
    {
        Rgba {
            r: self.r.mul(k),
            g: self.g.mul(k),
            b: self.b.mul(k),
            a: self.a.mul(k),
        }
    }

    /// Pack into a `0x00RRGGBB` integer, clamping each channel byte.
    pub fn to_u32(&self) -> (p: u32)
        ensures
            p == spec_pack(*self),
    {
        let rb = channel_byte(self.r);
        let gb = channel_byte(self.g);
        let bb = channel_byte(self.b);
        rb * 0x1_0000 + gb * 0x100 + bb
    }
}

fn channel_byte(c: Fixed) -> (v: u32)
    ensures
        v as int == spec_channel_byte(c),
        v <= 255,
{
    let scaled: i128 = (c.raw as i128) * 255;
    let v = crate::fixed::tdiv_wide(scaled, SCALE as i128);
    if v < 0 {
        0
    } else if v > 255 {
        255
    } else {
        v as u32
    }
}

/// Blending a fully opaque color replaces the stored color channels.
pub proof fn lemma_blend_opaque_replaces(under: Rgba, over: Rgba)
    requires
        over.a.raw == SCALE,
    ensures
        spec_over_blend(under, over).r == over.r,
        spec_over_blend(under, over).g == over.g,
        spec_over_blend(under, over).b == over.b,
{
    reveal(crate::fixed::fx_add);
    reveal(crate::fixed::fx_sub);
    reveal(crate::fixed::sat64);
    crate::fixed::lemma_mul_zero(under.r);
    crate::fixed::lemma_mul_zero(under.g);
    crate::fixed::lemma_mul_zero(under.b);
    crate::fixed::lemma_mul_one(over.r);
    crate::fixed::lemma_mul_one(over.g);
    crate::fixed::lemma_mul_one(over.b);
}

/// Blending a fully transparent color leaves the stored color channels
/// unchanged.
pub proof fn lemma_blend_transparent_keeps(under: Rgba, over: Rgba)
    requires
        over.a.raw == 0,
    ensures
        spec_over_blend(under, over).r == under.r,
        spec_over_blend(under, over).g == under.g,
        spec_over_blend(under, over).b == under.b,
{
    reveal(crate::fixed::fx_add);
    reveal(crate::fixed::fx_sub);
    reveal(crate::fixed::sat64);
    crate::fixed::lemma_mul_one(under.r);
    crate::fixed::lemma_mul_one(under.g);
    crate::fixed::lemma_mul_one(under.b);
    crate::fixed::lemma_mul_zero(over.r);
    crate::fixed::lemma_mul_zero(over.g);
    crate::fixed::lemma_mul_zero(over.b);
}

} // verus!
