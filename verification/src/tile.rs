//! Tiles: the raster is cut into fixed-side rectangles, each rendered as
//! one unit of work and composited into the framebuffer when it arrives.
//!
//! The partition is proved exact: every pixel lies in exactly one tile.
//! Rendering a tile and compositing it are both pinned to spec-level
//! functions, so the final image is independent of the order in which
//! tiles are composited, each owning a disjoint pixel region.

use crate::camera::Camera;
use crate::color;
use crate::fixed::Fx;
use crate::hit::{Hittable, HittableList};
use crate::samples::Samples;
use crate::trace::{spec_pixel_color, spec_quantize, pixel_color, quantize_channel};
use vstd::arithmetic::div_mod::{
    lemma_fundamental_div_mod, lemma_fundamental_div_mod_converse,
};
use vstd::prelude::*;

verus! {

/// A rectangular pixel region: `x` in `[min_x, max_x)`, `y` in
/// `[min_y, max_y)`.
#[derive(Clone, Copy, Debug, PartialEq, Eq, Structural)]
pub struct Tile {
    pub min_x: usize,
    pub min_y: usize,
    pub max_x: usize,
    pub max_y: usize,
}

impl Tile {
    /// The region is non-empty.
    pub open spec fn wf(self) -> bool {
        self.min_x < self.max_x && self.min_y < self.max_y
    }

    /// The pixel `(x, y)` lies inside the region.
    pub open spec fn contains(self, x: int, y: int) -> bool {
        self.min_x <= x < self.max_x && self.min_y <= y < self.max_y
    }
}

/// How many tiles a raster axis of `len` pixels needs with tiles of the
/// given side: the division rounded up.
pub open spec fn tile_count(len: int, side: int) -> int {
    len / side + if len % side != 0 {
        1int
    } else {
        0int
    }
}

/// The tile at index `k`, row-major over the tile grid.
pub open spec fn spec_tile(width: int, height: int, side: int, k: int) -> Tile {
    let cx = tile_count(width, side);
    let tx = k % cx;
    let ty = k / cx;
    Tile {
        min_x: (tx * side) as usize,
        min_y: (ty * side) as usize,
        max_x: (if tx * side + side <= width {
            tx * side + side
        } else {
            width
        }) as usize,
        max_y: (if ty * side + side <= height {
            ty * side + side
        } else {
            height
        }) as usize,
    }
}

/// A raster axis of at least one pixel needs between one tile and one
/// tile per pixel.
proof fn lemma_tile_count_bounds(len: int, side: int)
    requires
        1 <= side,
        1 <= len,
    ensures
        1 <= tile_count(len, side) <= len,
{
    lemma_fundamental_div_mod(len, side);
    let q = len / side;
    let r = len % side;
    assert(0 <= q) by {
        vstd::arithmetic::div_mod::lemma_div_is_ordered(0int, len, side);
        vstd::arithmetic::div_mod::lemma_basic_div(0int, side);
    }
    assert(q <= len) by (nonlinear_arith)
        requires
            len == side * q + r,
            side >= 1,
            q >= 0,
            r >= 0,
    ;
    if r == 0 {
        assert(q >= 1) by (nonlinear_arith)
            requires
                len == side * q,
                len >= 1,
                q >= 0,
        ;
    } else {
        assert(q + 1 <= len) by (nonlinear_arith)
            requires
                len == side * q + r,
                side >= 1,
                q >= 0,
                1 <= r < side,
        ;
    }
}

/// A multiple of the side that stays below the axis length stays at
/// least one side short of the end rounded up.
proof fn lemma_tile_axis(len: int, side: int, t: int)
    requires
        1 <= side,
        1 <= len,
        0 <= t < tile_count(len, side),
    ensures
        t * side < len,
        0 <= t * side,
    decreases t,
{
    lemma_fundamental_div_mod(len, side);
    if t == 0 {
    } else {
        lemma_tile_axis(len, side, t - 1);
        assert(t * side == (t - 1) * side + side) by (nonlinear_arith);
        assert(t <= len / side);
        if len % side == 0 {
            assert(t <= len / side - 1);
            assert(t * side <= (len / side - 1) * side) by (nonlinear_arith)
                requires
                    t <= len / side - 1,
                    side >= 1,
            ;
            assert((len / side - 1) * side == (len / side) * side - side) by (nonlinear_arith);
        } else {
            assert(t * side <= (len / side) * side) by (nonlinear_arith)
                requires
                    t <= len / side,
                    side >= 1,
            ;
        }
    }
}

/// Cuts a `width x height` raster into tiles of the given side, the last
/// tile on each axis cut short at the raster edge.
pub fn tiles(width: usize, height: usize, side: usize) -> (ts: Vec<Tile>)
    requires
        1 <= side <= 0x7fff,
        1 <= width <= 0x7fff,
        1 <= height <= 0x7fff,
    ensures
        ts.len() == tile_count(width as int, side as int) * tile_count(
            height as int,
            side as int,
        ),
        forall|k: int|
            0 <= k < ts.len() ==> ts[k] == spec_tile(width as int, height as int, side as int, k),
        forall|k: int| 0 <= k < ts.len() ==> (#[trigger] ts[k]).wf() && ts[k].max_x <= width
            && ts[k].max_y <= height,
{
    let cx: usize = width / side + if width % side != 0 {
        1
    } else {
        0
    };
    let cy: usize = height / side + if height % side != 0 {
        1
    } else {
        0
    };
    proof {
        lemma_tile_count_bounds(width as int, side as int);
        lemma_tile_count_bounds(height as int, side as int);
        assert(cx * cy <= 0x7fff * 0x7fff) by (nonlinear_arith)
            requires
                0 <= cx <= 0x7fff,
                0 <= cy <= 0x7fff,
        ;
    }
    let total: usize = cx * cy;
    let mut ts: Vec<Tile> = Vec::new();
    let mut k: usize = 0;
    while k < total
        invariant
            1 <= side <= 0x7fff,
            1 <= width <= 0x7fff,
            1 <= height <= 0x7fff,
            cx == tile_count(width as int, side as int),
            cy == tile_count(height as int, side as int),
            1 <= cx <= 0x7fff,
            1 <= cy <= 0x7fff,
            total == cx * cy,
            total <= 0x7fff * 0x7fff,
            k <= total,
            ts.len() == k,
            forall|j: int|
                0 <= j < k ==> ts[j] == spec_tile(width as int, height as int, side as int, j),
            forall|j: int| 0 <= j < k ==> (#[trigger] ts[j]).wf() && ts[j].max_x <= width
                && ts[j].max_y <= height,
        decreases total - k,
    {
        let tx: usize = k % cx;
        let ty: usize = k / cx;
        proof {
            lemma_fundamental_div_mod(k as int, cx as int);
            assert(ty < cy) by (nonlinear_arith)
                requires
                    k == (cx as int) * ((k as int) / (cx as int)) + (k as int) % (cx as int),
                    k < cx * cy,
                    0 <= (k as int) % (cx as int) < cx,
                    ty == (k as int) / (cx as int),
                    cx >= 1,
                    cy >= 1,
            ;
            lemma_tile_axis(width as int, side as int, tx as int);
            lemma_tile_axis(height as int, side as int, ty as int);
        }
        let min_x: usize = tx * side;
        let min_y: usize = ty * side;
        let max_x: usize = if min_x + side <= width {
            min_x + side
        } else {
            width
        };
        let max_y: usize = if min_y + side <= height {
            min_y + side
        } else {
            height
        };
        ts.push(Tile { min_x, min_y, max_x, max_y });
        k += 1;
    }
    ts
}

/// Every raster pixel lies in exactly one tile: the one at the index
/// formed from its coordinates' quotients by the side.
pub proof fn lemma_tile_partition(width: int, height: int, side: int, x: int, y: int)
    requires
        1 <= side <= 0x7fff,
        1 <= width <= 0x7fff,
        1 <= height <= 0x7fff,
        0 <= x < width,
        0 <= y < height,
    ensures
        ({
            let cx = tile_count(width, side);
            let k = (y / side) * cx + x / side;
            &&& 0 <= k < cx * tile_count(height, side)
            &&& spec_tile(width, height, side, k).contains(x, y)
            &&& forall|k2: int|
                0 <= k2 < cx * tile_count(height, side) && #[trigger] spec_tile(
                    width,
                    height,
                    side,
                    k2,
                ).contains(x, y) ==> k2 == k
        }),
{
    let cx = tile_count(width, side);
    let cy = tile_count(height, side);
    let tx = x / side;
    let ty = y / side;
    let k = ty * cx + tx;
    lemma_fundamental_div_mod(x, side);
    lemma_fundamental_div_mod(y, side);
    lemma_fundamental_div_mod(width, side);
    lemma_fundamental_div_mod(height, side);
    assert(0 <= tx && 0 <= ty) by {
        vstd::arithmetic::div_mod::lemma_div_is_ordered(0, x, side);
        vstd::arithmetic::div_mod::lemma_div_is_ordered(0, y, side);
        assert(0int / side == 0) by {
            vstd::arithmetic::div_mod::lemma_basic_div(0int, side);
        }
    }
    assert(tx < cx && ty < cy) by {
        vstd::arithmetic::div_mod::lemma_div_is_ordered(x, width - 1, side);
        vstd::arithmetic::div_mod::lemma_div_is_ordered(y, height - 1, side);
        lemma_fundamental_div_mod(width - 1, side);
        assert((width - 1) / side < cx) by (nonlinear_arith)
            requires
                width - 1 == side * ((width - 1) / side) + (width - 1) % side,
                width == side * (width / side) + width % side,
                0 <= (width - 1) % side < side,
                0 <= width % side < side,
                cx == width / side + if width % side != 0 {
                    1int
                } else {
                    0int
                },
                side >= 1,
        ;
        lemma_fundamental_div_mod(height - 1, side);
        assert((height - 1) / side < cy) by (nonlinear_arith)
            requires
                height - 1 == side * ((height - 1) / side) + (height - 1) % side,
                height == side * (height / side) + height % side,
                0 <= (height - 1) % side < side,
                0 <= height % side < side,
                cy == height / side + if height % side != 0 {
                    1int
                } else {
                    0int
                },
                side >= 1,
        ;
    }
    assert(0 <= k < cx * cy) by (nonlinear_arith)
        requires
            0 <= tx < cx,
            0 <= ty < cy,
            k == ty * cx + tx,
    ;
    assert(k % cx == tx && k / cx == ty) by {
        lemma_fundamental_div_mod_converse(k, cx, ty, tx);
    }
    assert(tx * side <= x < tx * side + side) by (nonlinear_arith)
        requires
            x == side * tx + x % side,
            0 <= x % side < side,
    ;
    assert(ty * side <= y < ty * side + side) by (nonlinear_arith)
        requires
            y == side * ty + y % side,
            0 <= y % side < side,
    ;
    lemma_tile_count_bounds(width, side);
    lemma_tile_count_bounds(height, side);
    lemma_tile_axis(width, side, tx);
    lemma_tile_axis(height, side, ty);
    assert(spec_tile(width, height, side, k).contains(x, y));
    assert forall|k2: int|
        0 <= k2 < cx * cy && #[trigger] spec_tile(width, height, side, k2).contains(x, y)
        implies k2 == k by {
        let tx2 = k2 % cx;
        let ty2 = k2 / cx;
        lemma_fundamental_div_mod(k2, cx);
        assert(0 <= tx2 < cx);
        assert(0 <= ty2 < cy) by (nonlinear_arith)
            requires
                k2 == cx * ty2 + tx2,
                0 <= k2 < cx * cy,
                0 <= tx2 < cx,
                cx >= 1,
                cy >= 1,
        ;
        lemma_tile_axis(width, side, tx2);
        lemma_tile_axis(height, side, ty2);
        assert(x < tx2 * side + side && tx2 * side <= x);
        assert(tx2 == tx) by {
            lemma_fundamental_div_mod_converse(x, side, tx2, x - tx2 * side);
        }
        assert(y < ty2 * side + side && ty2 * side <= y);
        assert(ty2 == ty) by {
            lemma_fundamental_div_mod_converse(y, side, ty2, y - ty2 * side);
        }
        assert(k2 == cx * ty2 + tx2 && k == ty * cx + tx);
        assert(k2 == k) by (nonlinear_arith)
            requires
                k2 == cx * ty2 + tx2,
                k == ty * cx + tx,
                tx2 == tx,
                ty2 == ty,
        ;
    }
}

/// Denotation of `render_tile`: the first `n` pixels of the tile, packed,
/// and the cursor after them; pixel `n` sits at tile coordinates
/// `(n % tw, n / tw)`.
pub open spec fn spec_tile_pixels(
    objs: Seq<crate::hit::Surface>,
    cam: Camera,
    tile: Tile,
    width: int,
    height: int,
    ns: nat,
    brightness: Fx,
    n: nat,
    vals: Seq<Fx>,
    pos: nat,
) -> (Seq<u32>, nat)
    decreases n,
{
    let tw = tile.max_x - tile.min_x;
    if n == 0 {
        (Seq::empty(), pos)
    } else {
        let (buf, pos1) = spec_tile_pixels(
            objs,
            cam,
            tile,
            width,
            height,
            ns,
            brightness,
            (n - 1) as nat,
            vals,
            pos,
        );
        let i = n - 1;
        let (c, pos2) = spec_pixel_color(
            objs,
            cam,
            tile.min_x + i % tw,
            tile.min_y + i / tw,
            width,
            height,
            ns,
            vals,
            pos1,
        );
        let px = ((spec_quantize(c.0, brightness) as u32) << 16u32 | (spec_quantize(
            c.1,
            brightness,
        ) as u32) << 8u32 | (spec_quantize(c.2, brightness) as u32));
        (buf.push(px), pos2)
    }
}

/// Renders every pixel of one tile into a fresh row-major buffer: each
/// pixel is the multi-sample color, scaled by the brightness, quantized
/// and packed.
#[verifier::rlimit(100)]
pub fn render_tile(
    world: &HittableList,
    cam: &Camera,
    tile: &Tile,
    width: usize,
    height: usize,
    ns: u32,
    brightness: Fx,
    samples: &mut Samples,
) -> (buf: Vec<u32>)
    requires
        world.shape_wf(),
        cam.wf(),
        brightness.wf(),
        old(samples).wf(),
        tile.wf(),
        tile.max_x <= width <= 0x7fff,
        tile.max_y <= height <= 0x7fff,
    ensures
        final(samples).wf(),
        final(samples).offsets() == old(samples).offsets(),
        buf.len() == (tile.max_x - tile.min_x) * (tile.max_y - tile.min_y),
        (buf@, final(samples).pos as nat) == spec_tile_pixels(
            world.0@,
            *cam,
            *tile,
            width as int,
            height as int,
            ns as nat,
            brightness,
            ((tile.max_x - tile.min_x) * (tile.max_y - tile.min_y)) as nat,
            old(samples).offsets(),
            old(samples).pos as nat,
        ),
{
    let tw: usize = tile.max_x - tile.min_x;
    let th: usize = tile.max_y - tile.min_y;
    proof {
        assert(tw * th <= 0x7fff * 0x7fff) by (nonlinear_arith)
            requires
                0 <= tw <= 0x7fff,
                0 <= th <= 0x7fff,
        ;
    }
    let area: usize = tw * th;
    let mut buf: Vec<u32> = Vec::new();
    let mut n: usize = 0;
    while n < area
        invariant
            world.shape_wf(),
            cam.wf(),
            brightness.wf(),
            samples.wf(),
            samples.offsets() == old(samples).offsets(),
            tile.wf(),
            tile.max_x <= width <= 0x7fff,
            tile.max_y <= height <= 0x7fff,
            tw == tile.max_x - tile.min_x,
            th == tile.max_y - tile.min_y,
            area == tw * th,
            area <= 0x7fff * 0x7fff,
            n <= area,
            buf.len() == n,
            (buf@, samples.pos as nat) == spec_tile_pixels(
                world.0@,
                *cam,
                *tile,
                width as int,
                height as int,
                ns as nat,
                brightness,
                n as nat,
                old(samples).offsets(),
                old(samples).pos as nat,
            ),
        decreases area - n,
    {
        let x: usize = n % tw;
        let y: usize = n / tw;
        proof {
            lemma_fundamental_div_mod(n as int, tw as int);
            assert(y < th) by (nonlinear_arith)
                requires
                    n as int == (tw as int) * (y as int) + (x as int),
                    n < tw * th,
                    0 <= x < tw,
                    y == (n as int) / (tw as int),
                    tw >= 1,
                    th >= 1,
            ;
        }
        let px: usize = tile.min_x + x;
        let py: usize = tile.min_y + y;
        let c = pixel_color(world, cam, px, py, width, height, ns, samples);
        let qr = quantize_channel(c.r(), brightness);
        let qg = quantize_channel(c.g(), brightness);
        let qb = quantize_channel(c.b(), brightness);
        let packed = color(qr, qg, qb);
        buf.push(packed);
        n += 1;
    }
    buf
}

/// Denotation of `composite_tile`: inside the tile's region the
/// framebuffer shows the tile buffer, outside it is unchanged.
pub open spec fn spec_composite(fb: Seq<u32>, tile: Tile, buf: Seq<u32>, width: int) -> Seq<u32> {
    Seq::new(
        fb.len(),
        |i: int|
            {
                let y = i / width;
                let x = i % width;
                if tile.contains(x, y) {
                    buf[(y - tile.min_y) * (tile.max_x - tile.min_x) + (x - tile.min_x)]
                } else {
                    fb[i]
                }
            },
    )
}

/// Copies a finished tile into the framebuffer at its offset; pixels
/// outside the tile's region keep their values, so tiles with disjoint
/// regions may land in any order.
#[verifier::rlimit(100)]
pub fn composite_tile(fb: &mut Vec<u32>, tile: &Tile, buf: &Vec<u32>, width: usize)
    requires
        tile.wf(),
        tile.max_x <= width,
        buf.len() == (tile.max_x - tile.min_x) * (tile.max_y - tile.min_y),
        tile.max_y * width <= old(fb).len(),
        width >= 1,
    ensures
        final(fb)@ == spec_composite(old(fb)@, *tile, buf@, width as int),
{
    let tw: usize = tile.max_x - tile.min_x;
    let ghost target = spec_composite(old(fb)@, *tile, buf@, width as int);
    let mut y: usize = tile.min_y;
    while y < tile.max_y
        invariant
            tile.wf(),
            tile.max_x <= width,
            width >= 1,
            buf.len() == tw * (tile.max_y - tile.min_y),
            tw == tile.max_x - tile.min_x,
            tile.max_y * width <= fb.len(),
            tile.min_y <= y <= tile.max_y,
            fb.len() == old(fb).len(),
            target == spec_composite(old(fb)@, *tile, buf@, width as int),
            forall|i: int|
                0 <= i < fb.len() ==> fb@[i] == (if i / (width as int) < y {
                    target[i]
                } else {
                    old(fb)@[i]
                }),
        decreases tile.max_y - y,
    {
        let mut x: usize = tile.min_x;
        while x < tile.max_x
            invariant
                tile.wf(),
                tile.max_x <= width,
                width >= 1,
                buf.len() == tw * (tile.max_y - tile.min_y),
                tw == tile.max_x - tile.min_x,
                tile.max_y * width <= fb.len(),
                tile.min_y <= y < tile.max_y,
                tile.min_x <= x <= tile.max_x,
                fb.len() == old(fb).len(),
                target == spec_composite(old(fb)@, *tile, buf@, width as int),
                forall|i: int|
                    0 <= i < fb.len() ==> fb@[i] == (if i / (width as int) < y || (i / (width as int)
                        == y && i % (width as int) < x) {
                        target[i]
                    } else {
                        old(fb)@[i]
                    }),
            decreases tile.max_x - x,
        {
            proof {
                assert(y * width + x < tile.max_y * width) by (nonlinear_arith)
                    requires
                        y < tile.max_y,
                        x < width,
                        width >= 1,
                        0 <= y,
                        0 <= x,
                ;
                lemma_fundamental_div_mod_converse(
                    (y * width + x) as int,
                    width as int,
                    y as int,
                    x as int,
                );
                assert((y - tile.min_y) * tw + (x - tile.min_x) < buf.len()) by (nonlinear_arith)
                    requires
                        tile.min_y <= y < tile.max_y,
                        tile.min_x <= x < tile.max_x,
                        tw == tile.max_x - tile.min_x,
                        buf.len() == tw * (tile.max_y - tile.min_y),
                ;
            }
            let src: usize = (y - tile.min_y) * tw + (x - tile.min_x);
            let dst: usize = y * width + x;
            let v: u32 = buf[src];
            let ghost fb_pre = fb@;
            fb.set(dst, v);
            x += 1;
            proof {
                let w = width as int;
                assert forall|i: int|
                    0 <= i < fb.len() implies fb@[i] == (if i / w < y || (i / w == y && i % w < x) {
                    target[i]
                } else {
                    old(fb)@[i]
                }) by {
                    lemma_fundamental_div_mod(i, w);
                    assert(fb@ == fb_pre.update(dst as int, v));
                    if i == dst {
                        assert(i / w == y && i % w == x - 1);
                        assert((*tile).contains(i % w, i / w));
                        assert(target[i] == buf@[(y - tile.min_y) * tw + (x - 1 - tile.min_x)]);
                        assert(fb@[i] == v);
                    } else {
                        assert(fb@[i] == fb_pre[i]);
                        if i / w == y && i % w == x - 1 {
                            lemma_fundamental_div_mod(dst as int, w);
                            assert(i == dst) by (nonlinear_arith)
                                requires
                                    i == w * (i / w) + i % w,
                                    dst as int == w * ((dst as int) / w) + (dst as int) % w,
                                    i / w == (dst as int) / w,
                                    i % w == (dst as int) % w,
                            ;
                            assert(false);
                        }
                    }
                }
            }
        }
        y += 1;
        proof {
            assert forall|i: int|
                0 <= i < fb.len() implies fb@[i] == (if i / (width as int) < y {
                target[i]
            } else {
                old(fb)@[i]
            }) by {
                lemma_fundamental_div_mod(i, width as int);
            }
        }
    }
    proof {
        assert(final(fb)@ =~= target) by {
            assert forall|i: int| 0 <= i < fb.len() implies fb@[i] == target[i] by {
                lemma_fundamental_div_mod(i, width as int);
                if i / (width as int) >= tile.max_y {
                    assert(!(*tile).contains(i % (width as int), i / (width as int)));
                    assert(i >= tile.max_y * width) by (nonlinear_arith)
                        requires
                            i == (width as int) * (i / (width as int)) + i % (width as int),
                            i / (width as int) >= tile.max_y,
                            0 <= i % (width as int),
                            width >= 1,
                            tile.max_y >= 0,
                    ;
                }
            }
        }
    }
}

/// Rendering is a pure function of the scene, the camera, the knobs and
/// the offset table: two tile renders given the same inputs and the same
/// cursor position produce identical buffers, bit for bit. Together with
/// `render_tile`'s contract this makes a repeated render reproducible.
pub proof fn lemma_render_deterministic(
    objs: Seq<crate::hit::Surface>,
    cam: Camera,
    tile: Tile,
    width: int,
    height: int,
    ns: nat,
    brightness: Fx,
    n: nat,
    vals: Seq<Fx>,
    pos: nat,
    first: (Seq<u32>, nat),
    second: (Seq<u32>, nat),
)
    requires
        first == spec_tile_pixels(objs, cam, tile, width, height, ns, brightness, n, vals, pos),
        second == spec_tile_pixels(objs, cam, tile, width, height, ns, brightness, n, vals, pos),
    ensures
        first == second,
{
}

/// The coordinator's completion counter: how many dispatched tiles have
/// not yet been composited. The render is persisted exactly when the
/// counter reaches zero.
pub struct RenderProgress {
    pub remaining: usize,
}

impl RenderProgress {
    /// Starts tracking `total` dispatched tiles.
    pub fn new(total: usize) -> (p: RenderProgress)
        ensures
            p.remaining == total,
    {
        RenderProgress { remaining: total }
    }

    /// Records one composited tile; returns true exactly when it was the
    /// last one, the moment to persist the image.
    pub fn tile_done(&mut self) -> (last: bool)
        requires
            old(self).remaining >= 1,
        ensures
            final(self).remaining == old(self).remaining - 1,
            last == (final(self).remaining == 0),
    {
        self.remaining = self.remaining - 1;
        self.remaining == 0
    }

    /// Whether every tile has been composited.
    pub fn done(&self) -> (d: bool)
        ensures
            d == (self.remaining == 0),
    {
        self.remaining == 0
    }
}

} // verus!
