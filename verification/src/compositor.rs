//! Compositing: fragments become pixels.
//!
//! A frame's fragments are split into opaque (alpha within the comparison
//! epsilon of 1) and transparent subsets, keeping encounter order. The
//! opaque pass overwrites a pixel when the fragment is strictly nearer than
//! the stored depth (nearer means a greater depth value; ties keep the
//! stored pixel). The transparent subset is then sorted farthest to
//! nearest and blended back-to-front with the "over" operator. Finally the
//! buffer is packed to `0x00RRGGBB` integers for display.

use crate::color::{spec_over_blend, spec_pack, Rgba};
use crate::fixed::{iabs, Fixed, SCALE};
use crate::math::EPSILON_RAW;
use crate::rasterizer::ToDraw;
use vstd::prelude::*;

verus! {

/// The depth value meaning "nothing drawn yet": farther than everything.
pub const FARTHEST_RAW: i64 = i64::MIN;

/// A fragment is opaque when its alpha is within the comparison epsilon of
/// one.
pub open spec fn spec_opaque_frag(f: ToDraw) -> bool {
    iabs(f.color.a.raw - SCALE) < EPSILON_RAW
}

pub open spec fn opaque_pred() -> spec_fn(ToDraw) -> bool {
    |f: ToDraw| spec_opaque_frag(f)
}

pub open spec fn transparent_pred() -> spec_fn(ToDraw) -> bool {
    |f: ToDraw| !spec_opaque_frag(f)
}

/// Is `a` strictly nearer than `b`? Nearer is numerically greater (the
/// camera looks down the negative z axis), and the comparison tolerates the
/// documented epsilon: a tie within the epsilon keeps the stored pixel.
pub open spec fn spec_nearer(a: Fixed, b: Fixed) -> bool {
    a.raw - b.raw >= EPSILON_RAW
}

/// The buffer index of the pixel `(x, y)`, row-major; `None` outside the
/// buffer.
pub open spec fn spec_xy_index(x: int, y: int, width: int, height: int) -> Option<int> {
    if x >= width || x < 0 || y < 0 || y >= height {
        None
    } else {
        Some(y * width + x)
    }
}

/// The color and depth planes of the frame.
pub struct FrameState {
    pub colors: Seq<Rgba>,
    pub depths: Seq<Fixed>,
}

/// One opaque fragment applied to the frame: overwrite color and depth when
/// strictly nearer.
pub open spec fn spec_apply_opaque_one(s: FrameState, f: ToDraw, width: int, height: int) -> FrameState {
    match spec_xy_index(f.x as int, f.y as int, width, height) {
        None => s,
        Some(i) => if spec_nearer(f.depth, s.depths[i]) {
            FrameState { colors: s.colors.update(i, f.color), depths: s.depths.update(i, f.depth) }
        } else {
            s
        },
    }
}

/// The opaque fragments applied in encounter order.
pub open spec fn spec_opaque_pass(s: FrameState, frags: Seq<ToDraw>, width: int, height: int) -> FrameState
    decreases frags.len(),
{
    if frags.len() == 0 {
        s
    } else {
        spec_apply_opaque_one(
            spec_opaque_pass(s, frags.drop_last(), width, height),
            frags.last(),
            width,
            height,
        )
    }
}

/// One transparent fragment applied to the frame: blend over the stored
/// color and refresh the depth when strictly nearer.
pub open spec fn spec_apply_transparent_one(s: FrameState, f: ToDraw, width: int, height: int) -> FrameState {
    match spec_xy_index(f.x as int, f.y as int, width, height) {
        None => s,
        Some(i) => if spec_nearer(f.depth, s.depths[i]) {
            FrameState {
                colors: s.colors.update(i, spec_over_blend(s.colors[i], f.color)),
                depths: s.depths.update(i, f.depth),
            }
        } else {
            s
        },
    }
}

/// The transparent fragments applied in the given (sorted) order.
pub open spec fn spec_transparent_pass(s: FrameState, frags: Seq<ToDraw>, width: int, height: int) -> FrameState
    decreases frags.len(),
{
    if frags.len() == 0 {
        s
    } else {
        spec_apply_transparent_one(
            spec_transparent_pass(s, frags.drop_last(), width, height),
            frags.last(),
            width,
            height,
        )
    }
}

/// Insert a fragment into a depth-ascending sequence, scanning from the
/// back; equal depths keep the earlier fragment first.
pub open spec fn spec_insert_by_depth(s: Seq<ToDraw>, x: ToDraw) -> Seq<ToDraw>
    decreases s.len(),
{
    if s.len() == 0 {
        seq![x]
    } else if x.depth.raw < s.last().depth.raw {
        spec_insert_by_depth(s.drop_last(), x).push(s.last())
    } else {
        s.push(x)
    }
}

/// Stable insertion sort by depth, farthest (smallest) first.
pub open spec fn spec_sort_by_depth(s: Seq<ToDraw>) -> Seq<ToDraw>
    decreases s.len(),
{
    if s.len() == 0 {
        Seq::empty()
    } else {
        spec_insert_by_depth(spec_sort_by_depth(s.drop_last()), s.last())
    }
}

pub open spec fn spec_packed(colors: Seq<Rgba>) -> Seq<u32> {
    colors.map_values(|c: Rgba| spec_pack(c))
}

/// The buffer index of the pixel `(x, y)` in a `width` by `height` buffer,
/// or `None` when the pixel lies outside it.
pub fn xy_to_1d(x: i32, y: i32, width: i32, height: i32) -> (r: Option<usize>)
    requires
        0 <= width,
        0 <= height,
        width * height <= usize::MAX,
    ensures
        match r {
            None => spec_xy_index(x as int, y as int, width as int, height as int) is None,
            Some(u) => spec_xy_index(x as int, y as int, width as int, height as int) == Some(
                u as int,
            ),
        },
{
    if x >= width || x < 0 || y < 0 || y >= height {
        None
    } else {
        proof {
            assert(y * width + x < width * height) by (nonlinear_arith)
                requires
                    0 <= x < width,
                    0 <= y < height,
            ;
            assert(0 <= y * width) by (nonlinear_arith)
                requires
                    0 <= y,
                    0 <= width,
            ;
            assert(y * width <= 0x4000_0000_0000_0000) by (nonlinear_arith)
                requires
                    0 <= y <= 0x8000_0000,
                    0 <= width <= 0x8000_0000,
            ;
        }
        Some(((y as i64) * (width as i64) + (x as i64)) as usize)
    }
}

/// Split a frame's fragments into the opaque and transparent subsets,
/// preserving encounter order within each.
pub fn classify_fragments(draw_buffer: &Vec<ToDraw>) -> (r: (Vec<ToDraw>, Vec<ToDraw>))
    ensures
        r.0@ == draw_buffer@.filter(opaque_pred()),
        r.1@ == draw_buffer@.filter(transparent_pred()),
{
    let mut opaque: Vec<ToDraw> = Vec::new();
    let mut transparent: Vec<ToDraw> = Vec::new();
    let mut k: usize = 0;
    proof {
        reveal(Seq::filter);
        assert(draw_buffer@.take(0) =~= Seq::<ToDraw>::empty());
    }
    while k < draw_buffer.len()
        invariant
            0 <= k <= draw_buffer@.len(),
            opaque@ == draw_buffer@.take(k as int).filter(opaque_pred()),
            transparent@ == draw_buffer@.take(k as int).filter(transparent_pred()),
        decreases draw_buffer@.len() - k,
    {
        let f = draw_buffer[k];
        let gap: i128 = (f.color.a.raw as i128) - (SCALE as i128);
        let is_opaque = -(EPSILON_RAW as i128) < gap && gap < EPSILON_RAW as i128;
        if is_opaque {
            opaque.push(f);
        } else {
            transparent.push(f);
        }
        proof {
            reveal(Seq::filter);
            assert(draw_buffer@.take(k + 1 as int).drop_last() =~= draw_buffer@.take(k as int));
            assert(draw_buffer@.take(k + 1 as int).last() == f);
            assert(opaque@ =~= draw_buffer@.take(k + 1 as int).filter(opaque_pred()));
            assert(transparent@ =~= draw_buffer@.take(k + 1 as int).filter(transparent_pred()));
        }
        k = k + 1;
    }
    proof {
        assert(draw_buffer@.take(draw_buffer@.len() as int) =~= draw_buffer@);
    }
    (opaque, transparent)
}

proof fn lemma_insert_at(s: Seq<ToDraw>, x: ToDraw, pos: int)
    requires
        0 <= pos <= s.len(),
        forall|j: int| pos <= j < s.len() ==> x.depth.raw < #[trigger] s[j].depth.raw,
        pos > 0 ==> !(x.depth.raw < s[pos - 1].depth.raw),
    ensures
        spec_insert_by_depth(s, x) == s.insert(pos, x),
    decreases s.len(),
{
    if s.len() == 0 {
        assert(spec_insert_by_depth(s, x) =~= s.insert(0, x));
    } else if x.depth.raw < s.last().depth.raw {
        assert(pos < s.len());
        lemma_insert_at(s.drop_last(), x, pos);
        assert(spec_insert_by_depth(s.drop_last(), x).push(s.last()) =~= s.insert(pos, x));
    } else {
        assert(pos == s.len()) by {
            if pos < s.len() {
                assert(x.depth.raw < s[s.len() - 1].depth.raw);
            }
        }
        assert(s.push(x) =~= s.insert(pos, x));
    }
}

/// Sort fragments by depth, farthest first, with a stable insertion sort.
pub fn sort_by_depth(frags: &Vec<ToDraw>) -> (r: Vec<ToDraw>)
    ensures
        r@ == spec_sort_by_depth(frags@),
{
    let mut r: Vec<ToDraw> = Vec::new();
    let mut k: usize = 0;
    proof {
        assert(frags@.take(0) =~= Seq::<ToDraw>::empty());
    }
    while k < frags.len()
        invariant
            0 <= k <= frags@.len(),
            r@ == spec_sort_by_depth(frags@.take(k as int)),
        decreases frags@.len() - k,
    {
        let x = frags[k];
        let mut pos: usize = r.len();
        while pos > 0 && x.depth.raw < r[pos - 1].depth.raw
            invariant
                0 <= pos <= r@.len(),
                forall|j: int| pos <= j < r@.len() ==> x.depth.raw < #[trigger] r@[j].depth.raw,
            decreases pos,
        {
            pos = pos - 1;
        }
        proof {
            lemma_insert_at(r@, x, pos as int);
        }
        r.insert(pos, x);
        proof {
            assert(frags@.take(k + 1 as int).drop_last() =~= frags@.take(k as int));
            assert(frags@.take(k + 1 as int).last() == x);
        }
        k = k + 1;
    }
    proof {
        assert(frags@.take(frags@.len() as int) =~= frags@);
    }
    r
}

/// The per-frame color and depth planes, with the pixel dimensions they
/// were allocated for.
#[derive(Debug)]
pub struct Compositor {
    pub width: i32,
    pub height: i32,
    pub rgba_buffer: Vec<Rgba>,
    pub depth_buffer: Vec<Fixed>,
}

/// Pixel black, fully opaque: the reset color of the frame.
pub open spec fn spec_black() -> Rgba {
    Rgba {
        r: Fixed { raw: 0 },
        g: Fixed { raw: 0 },
        b: Fixed { raw: 0 },
        a: Fixed { raw: SCALE },
    }
}

impl Compositor {
    /// Buffers sized and indexed consistently.
    pub open spec fn wf(self) -> bool {
        &&& 0 <= self.width
        &&& 0 <= self.height
        &&& self.width * self.height <= usize::MAX
        &&& self.rgba_buffer@.len() == self.width * self.height
        &&& self.depth_buffer@.len() == self.width * self.height
    }

    pub open spec fn state(self) -> FrameState {
        FrameState { colors: self.rgba_buffer@, depths: self.depth_buffer@ }
    }

    /// Is the whole frame reset: every pixel black, every depth farthest?
    pub open spec fn is_clear(self) -> bool {
        &&& forall|i: int|
            0 <= i < self.rgba_buffer@.len() ==> #[trigger] self.rgba_buffer@[i] == spec_black()
        &&& forall|i: int|
            0 <= i < self.depth_buffer@.len() ==> (#[trigger] self.depth_buffer@[i]).raw
                == FARTHEST_RAW
    }

    /// Fresh buffers for a `width` by `height` frame, cleared.
    pub fn new(width: i32, height: i32) -> (c: Compositor)
        requires
            0 <= width,
            0 <= height,
            width * height <= usize::MAX,
        ensures
            c.wf(),
            c.width == width,
            c.height == height,
            c.is_clear(),
    {
        proof {
            assert(0 <= width * height <= 0x4000_0000_0000_0000) by (nonlinear_arith)
                requires
                    0 <= width <= 0x8000_0000,
                    0 <= height <= 0x8000_0000,
            ;
        }
        let n: usize = ((width as i64) * (height as i64)) as usize;
        let mut rgba_buffer: Vec<Rgba> = Vec::new();
        let mut depth_buffer: Vec<Fixed> = Vec::new();
        let mut i: usize = 0;
        while i < n
            invariant
                0 <= i <= n,
                rgba_buffer@.len() == i,
                depth_buffer@.len() == i,
                forall|j: int| 0 <= j < i ==> #[trigger] rgba_buffer@[j] == spec_black(),
                forall|j: int| 0 <= j < i ==> (#[trigger] depth_buffer@[j]).raw == FARTHEST_RAW,
            decreases n - i,
        {
            rgba_buffer.push(
                Rgba {
                    r: Fixed { raw: 0 },
                    g: Fixed { raw: 0 },
                    b: Fixed { raw: 0 },
                    a: Fixed { raw: SCALE },
                },
            );
            depth_buffer.push(Fixed { raw: FARTHEST_RAW });
            i = i + 1;
        }
        Compositor { width, height, rgba_buffer, depth_buffer }
    }

    /// Apply opaque fragments in encounter order: strictly nearer fragments
    /// overwrite the stored color and depth; ties keep the stored pixel.
    pub fn apply_opaque(&mut self, frags: &Vec<ToDraw>)
        requires
            old(self).wf(),
        ensures
            final(self).wf(),
            final(self).width == old(self).width,
            final(self).height == old(self).height,
            final(self).state() == spec_opaque_pass(
                old(self).state(),
                frags@,
                old(self).width as int,
                old(self).height as int,
            ),
    {
        let ghost s0 = self.state();
        let mut k: usize = 0;
        proof {
            assert(frags@.take(0) =~= Seq::<ToDraw>::empty());
        }
        while k < frags.len()
            invariant
                0 <= k <= frags@.len(),
                self.wf(),
                self.width == old(self).width,
                self.height == old(self).height,
                self.state() == spec_opaque_pass(
                    s0,
                    frags@.take(k as int),
                    self.width as int,
                    self.height as int,
                ),
            decreases frags@.len() - k,
        {
            let f = frags[k];
            match xy_to_1d(f.x, f.y, self.width, self.height) {
                None => {},
                Some(idx) => {
                    proof {
                        assert(f.y * self.width + f.x < self.width * self.height)
                            by (nonlinear_arith)
                            requires
                                0 <= f.x < self.width,
                                0 <= f.y < self.height,
                        ;
                        assert(0 <= f.y * self.width) by (nonlinear_arith)
                            requires
                                0 <= f.y,
                                0 <= self.width,
                        ;
                    }
                    let stored = self.depth_buffer[idx];
                    if (f.depth.raw as i128) - (stored.raw as i128) >= EPSILON_RAW as i128 {
                        self.rgba_buffer.set(idx, f.color);
                        self.depth_buffer.set(idx, f.depth);
                    }
                },
            }
            proof {
                assert(frags@.take(k + 1 as int).drop_last() =~= frags@.take(k as int));
                assert(frags@.take(k + 1 as int).last() == f);
            }
            k = k + 1;
        }
        proof {
            assert(frags@.take(frags@.len() as int) =~= frags@);
        }
    }

    /// Apply transparent fragments in the given order (farthest first for a
    /// correct painter's blend): strictly nearer fragments blend over the
    /// stored color and refresh the stored depth.
    pub fn apply_transparent(&mut self, frags: &Vec<ToDraw>)
        requires
            old(self).wf(),
        ensures
            final(self).wf(),
            final(self).width == old(self).width,
            final(self).height == old(self).height,
            final(self).state() == spec_transparent_pass(
                old(self).state(),
                frags@,
                old(self).width as int,
                old(self).height as int,
            ),
    {
        let ghost s0 = self.state();
        let mut k: usize = 0;
        proof {
            assert(frags@.take(0) =~= Seq::<ToDraw>::empty());
        }
        while k < frags.len()
            invariant
                0 <= k <= frags@.len(),
                self.wf(),
                self.width == old(self).width,
                self.height == old(self).height,
                self.state() == spec_transparent_pass(
                    s0,
                    frags@.take(k as int),
                    self.width as int,
                    self.height as int,
                ),
            decreases frags@.len() - k,
        {
            let f = frags[k];
            match xy_to_1d(f.x, f.y, self.width, self.height) {
                None => {},
                Some(idx) => {
                    proof {
                        assert(f.y * self.width + f.x < self.width * self.height)
                            by (nonlinear_arith)
                            requires
                                0 <= f.x < self.width,
                                0 <= f.y < self.height,
                        ;
                        assert(0 <= f.y * self.width) by (nonlinear_arith)
                            requires
                                0 <= f.y,
                                0 <= self.width,
                        ;
                    }
                    let stored = self.depth_buffer[idx];
                    if (f.depth.raw as i128) - (stored.raw as i128) >= EPSILON_RAW as i128 {
                        let mut under = self.rgba_buffer[idx];
                        under.over_blend(f.color);
                        self.rgba_buffer.set(idx, under);
                        self.depth_buffer.set(idx, f.depth);
                    }
                },
            }
            proof {
                assert(frags@.take(k + 1 as int).drop_last() =~= frags@.take(k as int));
                assert(frags@.take(k + 1 as int).last() == f);
            }
            k = k + 1;
        }
        proof {
            assert(frags@.take(frags@.len() as int) =~= frags@);
        }
    }

    /// Pack every pixel to a `0x00RRGGBB` integer.
    pub fn packed_buffer(&self) -> (packed: Vec<u32>)
        ensures
            packed@ == spec_packed(self.rgba_buffer@),
    {
        let mut packed: Vec<u32> = Vec::new();
        let mut i: usize = 0;
        while i < self.rgba_buffer.len()
            invariant
                0 <= i <= self.rgba_buffer@.len(),
                packed@.len() == i,
                forall|j: int|
                    0 <= j < i ==> #[trigger] packed@[j] == spec_pack(self.rgba_buffer@[j]),
            decreases self.rgba_buffer@.len() - i,
        {
            packed.push(self.rgba_buffer[i].to_u32());
            i = i + 1;
        }
        proof {
            assert(packed@ =~= spec_packed(self.rgba_buffer@));
        }
        packed
    }

    /// One whole frame: classify, apply the opaque pass, sort the
    /// transparent subset farthest-to-nearest, blend it back-to-front, and
    /// return the packed pixels. The buffers keep the composited frame
    /// until [`Compositor::reset`].
    pub fn composite(&mut self, draw_buffer: &Vec<ToDraw>) -> (packed: Vec<u32>)
        requires
            old(self).wf(),
        ensures
            final(self).wf(),
            final(self).width == old(self).width,
            final(self).height == old(self).height,
            final(self).state() == spec_transparent_pass(
                spec_opaque_pass(
                    old(self).state(),
                    draw_buffer@.filter(opaque_pred()),
                    old(self).width as int,
                    old(self).height as int,
                ),
                spec_sort_by_depth(draw_buffer@.filter(transparent_pred())),
                old(self).width as int,
                old(self).height as int,
            ),
            packed@ == spec_packed(final(self).rgba_buffer@),
    {
        let (opaque, transparent) = classify_fragments(draw_buffer);
        self.apply_opaque(&opaque);
        let sorted = sort_by_depth(&transparent);
        self.apply_transparent(&sorted);
        self.packed_buffer()
    }

    /// Clear the frame: every pixel black, every depth farthest.
    pub fn reset(&mut self)
        requires
            old(self).wf(),
        ensures
            final(self).wf(),
            final(self).width == old(self).width,
            final(self).height == old(self).height,
            final(self).is_clear(),
    {
        let mut i: usize = 0;
        while i < self.rgba_buffer.len()
            invariant
                0 <= i <= self.rgba_buffer@.len(),
                self.wf(),
                self.width == old(self).width,
                self.height == old(self).height,
                self.rgba_buffer@.len() == old(self).rgba_buffer@.len(),
                self.depth_buffer@.len() == old(self).depth_buffer@.len(),
                forall|j: int| 0 <= j < i ==> #[trigger] self.rgba_buffer@[j] == spec_black(),
                forall|j: int| 0 <= j < i ==> (#[trigger] self.depth_buffer@[j]).raw == FARTHEST_RAW,
            decreases self.rgba_buffer@.len() - i,
        {
            self.rgba_buffer.set(
                i,
                Rgba {
                    r: Fixed { raw: 0 },
                    g: Fixed { raw: 0 },
                    b: Fixed { raw: 0 },
                    a: Fixed { raw: SCALE },
                },
            );
            self.depth_buffer.set(i, Fixed { raw: FARTHEST_RAW });
            i = i + 1;
        }
    }
}

/// Depth-ascending order: farthest first, so painting visits fragments
/// back to front.
pub open spec fn spec_sorted_by_depth(s: Seq<ToDraw>) -> bool {
    forall|i: int, j: int| 0 <= i < j < s.len() ==> s[i].depth.raw <= s[j].depth.raw
}

/// The largest depth after inserting `x` into `s`.
pub open spec fn spec_depth_ub(s: Seq<ToDraw>, x: ToDraw) -> int {
    if s.len() == 0 {
        x.depth.raw as int
    } else if x.depth.raw > s.last().depth.raw {
        x.depth.raw as int
    } else {
        s.last().depth.raw as int
    }
}

proof fn lemma_insert_by_depth_ensures(s: Seq<ToDraw>, x: ToDraw)
    requires
        spec_sorted_by_depth(s),
    ensures
        spec_sorted_by_depth(spec_insert_by_depth(s, x)),
        spec_insert_by_depth(s, x).to_multiset() == s.to_multiset().insert(x),
        spec_insert_by_depth(s, x).len() == s.len() + 1,
        forall|k: int|
            0 <= k < spec_insert_by_depth(s, x).len() ==> (#[trigger] spec_insert_by_depth(s, x)[k]).depth.raw
                <= spec_depth_ub(s, x),
    decreases s.len(),
{
    broadcast use vstd::seq_lib::group_to_multiset_ensures;

    let r = spec_insert_by_depth(s, x);
    if s.len() == 0 {
        assert(r =~= Seq::<ToDraw>::empty().push(x));
        assert(s =~= Seq::<ToDraw>::empty());
        assert(r.to_multiset() =~= s.to_multiset().insert(x));
    } else if x.depth.raw < s.last().depth.raw {
        let sdl = s.drop_last();
        lemma_insert_by_depth_ensures(sdl, x);
        let t = spec_insert_by_depth(sdl, x);
        assert(r == t.push(s.last()));
        assert(forall|k: int| 0 <= k < t.len() ==> (#[trigger] t[k]).depth.raw
            <= s.last().depth.raw) by {
            if sdl.len() > 0 {
                assert(sdl.last() == s[s.len() - 2]);
                assert(sdl.last().depth.raw <= s.last().depth.raw);
            }
        }
        assert(spec_sorted_by_depth(r)) by {
            assert(forall|k: int| 0 <= k < r.len() ==> (#[trigger] r[k]).depth.raw
                <= s.last().depth.raw);
        }
        assert(s =~= sdl.push(s.last()));
        assert(t.push(s.last()).to_multiset() =~= s.to_multiset().insert(x)) by {
            assert(t.push(s.last()).to_multiset() =~= t.to_multiset().insert(s.last()));
            assert(t.to_multiset() == sdl.to_multiset().insert(x));
            assert(sdl.push(s.last()).to_multiset() =~= sdl.to_multiset().insert(s.last()));
            assert(s.to_multiset() == sdl.to_multiset().insert(s.last()));
            assert(sdl.to_multiset().insert(x).insert(s.last()) =~= sdl.to_multiset().insert(
                s.last(),
            ).insert(x));
        }
    } else {
        assert(r == s.push(x));
        assert(forall|i: int| 0 <= i < s.len() ==> (#[trigger] s[i]).depth.raw
            <= s.last().depth.raw);
        assert(r.to_multiset() =~= s.to_multiset().insert(x));
    }
}

/// The transparent pass's sort yields a permutation of its input arranged
/// farthest to nearest: the painter's back-to-front order.
pub proof fn lemma_sort_by_depth_sorted(s: Seq<ToDraw>)
    ensures
        spec_sorted_by_depth(spec_sort_by_depth(s)),
        spec_sort_by_depth(s).to_multiset() == s.to_multiset(),
        spec_sort_by_depth(s).len() == s.len(),
    decreases s.len(),
{
    broadcast use vstd::seq_lib::group_to_multiset_ensures;

    if s.len() == 0 {
        assert(spec_sort_by_depth(s) =~= Seq::<ToDraw>::empty());
        assert(s =~= Seq::<ToDraw>::empty());
    } else {
        let sdl = s.drop_last();
        lemma_sort_by_depth_sorted(sdl);
        lemma_insert_by_depth_ensures(spec_sort_by_depth(sdl), s.last());
        assert(s =~= sdl.push(s.last()));
        assert(sdl.push(s.last()).to_multiset() =~= sdl.to_multiset().insert(s.last()));
        assert(spec_sort_by_depth(s).to_multiset() == s.to_multiset()) by {
            assert(spec_sort_by_depth(s) == spec_insert_by_depth(
                spec_sort_by_depth(sdl),
                s.last(),
            ));
            assert(spec_insert_by_depth(spec_sort_by_depth(sdl), s.last()).to_multiset()
                == spec_sort_by_depth(sdl).to_multiset().insert(s.last()));
        }
    }
}

/// Two opaque fragments at the same pixel resolve to the nearer fragment's
/// color, whichever order they are submitted in, provided both are nearer
/// than the stored depth and their depths differ by at least the
/// comparison epsilon.
pub proof fn lemma_opaque_depth_order_independent(
    s: FrameState,
    f1: ToDraw,
    f2: ToDraw,
    width: int,
    height: int,
    i: int,
)
    requires
        f1.x == f2.x,
        f1.y == f2.y,
        spec_xy_index(f1.x as int, f1.y as int, width, height) == Some(i),
        0 <= i < s.depths.len(),
        s.colors.len() == s.depths.len(),
        spec_nearer(f1.depth, s.depths[i]),
        spec_nearer(f2.depth, f1.depth),
    ensures
        spec_opaque_pass(s, seq![f1, f2], width, height).colors[i] == f2.color,
        spec_opaque_pass(s, seq![f2, f1], width, height).colors[i] == f2.color,
{
    reveal_with_fuel(spec_opaque_pass, 4);
    let a = seq![f1, f2];
    assert(a.drop_last() =~= seq![f1]);
    assert(a.last() == f2);
    assert(seq![f1].drop_last() =~= Seq::<ToDraw>::empty());
    assert(seq![f1].last() == f1);
    let b = seq![f2, f1];
    assert(b.drop_last() =~= seq![f2]);
    assert(b.last() == f1);
    assert(seq![f2].drop_last() =~= Seq::<ToDraw>::empty());
    assert(seq![f2].last() == f2);
    assert(spec_nearer(f2.depth, s.depths[i]));
    assert(!spec_nearer(f1.depth, f2.depth));
    let s1 = spec_opaque_pass(s, seq![f1], width, height);
    assert(s1.depths[i] == f1.depth);
    assert(s1.colors.len() == s.colors.len());
    let s2 = spec_opaque_pass(s, seq![f2], width, height);
    assert(s2.depths[i] == f2.depth);
    assert(s2.colors[i] == f2.color);
}

} // verus!
