//! The table of random offsets that drives every stochastic choice.
//!
//! A render draws nothing while it runs: all jitter, lens and scatter
//! samples come from a table of fixed-point values in `[-1, 1)` read
//! through a cyclically advancing cursor. Rendering is therefore a pure
//! function of the scene, the camera and this table, which is what makes
//! repeated renders with the same table provably identical. The table
//! itself is filled once, up front, from the `rand` crate.

use crate::fixed::{FX_SCALE, Fx, fx_add, fx_mul, fx_of};
use crate::vec3::{Vec3, vec_squared_length};
use vstd::prelude::*;

verus! {

/// How many rejection rounds a disk or sphere sample may use before it
/// falls back to the center point.
pub const DISK_SAMPLE_ATTEMPTS: u32 = 8;

pub assume_specification<T>[ rand::random::<T> ]() -> (r: T)
    where
        rand::distributions::Standard: rand::distributions::Distribution<T>,
;

/// A pool of offsets in `[-1, 1)` and a cursor that cycles through it.
pub struct Samples {
    pub vals: Vec<Fx>,
    pub pos: usize,
}

/// The cursor position after one draw: advance, wrapping at the end.
pub open spec fn next_pos(pos: nat, len: nat) -> nat {
    if pos + 1 >= len {
        0
    } else {
        pos + 1
    }
}

/// Denotation of `Samples::next_unit`: the offset rescaled from `[-1, 1)`
/// into `[0, 1)`.
pub open spec fn to_unit(s: Fx) -> Fx {
    fx_mul(fx_add(s, fx_of(FX_SCALE as int)), fx_of(32768))
}

/// Denotation of `Samples::point_in_sphere`: the sampled point and the
/// cursor position after the draws it took. Each round draws all three
/// coordinates in `[-1, 1)` and accepts a point strictly inside the
/// unit sphere.
pub open spec fn spec_point_in_sphere(vals: Seq<Fx>, pos: nat, attempts: nat) -> (Vec3, nat)
    decreases attempts,
{
    if attempts == 0 {
        (Vec3(fx_of(0), fx_of(0), fx_of(0)), pos)
    } else {
        let x = vals[pos as int];
        let pos1 = next_pos(pos, vals.len());
        let y = vals[pos1 as int];
        let pos2 = next_pos(pos1, vals.len());
        let z = vals[pos2 as int];
        let pos3 = next_pos(pos2, vals.len());
        let p = Vec3(x, y, z);
        if vec_squared_length(p).v() < FX_SCALE {
            (p, pos3)
        } else {
            spec_point_in_sphere(vals, pos3, (attempts - 1) as nat)
        }
    }
}

/// Denotation of `Samples::point_in_disk`: the sampled point and the
/// cursor position after the draws it took.
pub open spec fn spec_point_in_disk(vals: Seq<Fx>, pos: nat, attempts: nat) -> (Vec3, nat)
    decreases attempts,
{
    if attempts == 0 {
        (Vec3(fx_of(0), fx_of(0), fx_of(0)), pos)
    } else {
        let x = vals[pos as int];
        let pos1 = next_pos(pos, vals.len());
        let y = vals[pos1 as int];
        let pos2 = next_pos(pos1, vals.len());
        let p = Vec3(x, y, fx_of(0));
        if vec_squared_length(p).v() < FX_SCALE {
            (p, pos2)
        } else {
            spec_point_in_disk(vals, pos2, (attempts - 1) as nat)
        }
    }
}

impl Samples {
    /// Non-empty, cursor in range, every offset in `[-1, 1)`.
    pub open spec fn wf(self) -> bool {
        &&& self.vals.len() > 0
        &&& self.pos < self.vals.len()
        &&& forall|i: int|
            0 <= i < self.vals.len() ==> (#[trigger] self.vals[i]).wf()
                && -FX_SCALE <= self.vals[i].v() < FX_SCALE
    }

    /// The offsets as a sequence; the cursor walks over this, unchanged,
    /// for the whole life of the pool.
    pub open spec fn offsets(self) -> Seq<Fx> {
        self.vals@
    }

    /// Wraps a caller-supplied table of offsets.
    pub fn from_vals(vals: Vec<Fx>) -> (s: Samples)
        requires
            vals.len() > 0,
            forall|i: int|
                0 <= i < vals.len() ==> (#[trigger] vals[i]).wf() && -FX_SCALE <= vals[i].v()
                    < FX_SCALE,
        ensures
            s.wf(),
            s.offsets() == vals@,
            s.pos == 0,
    {
        Samples { vals, pos: 0 }
    }

    /// Fills a table of `n` offsets from the process-wide random number
    /// generator. Nothing is promised of the drawn values beyond their
    /// range; every function that consumes them states what holds of any
    /// table. The generator's first use can fail outside the program — it
    /// aborts if the operating system's entropy source is unavailable —
    /// so this, unlike the library's own logic, can panic on a broken
    /// machine.
    pub fn random_table(n: usize) -> (s: Samples)
        requires
            n > 0,
        ensures
            s.wf(),
            s.offsets().len() == n,
            s.pos == 0,
    {
        let mut vals: Vec<Fx> = Vec::new();
        let mut i: usize = 0;
        while i < n
            invariant
                i <= n,
                vals.len() == i,
                forall|j: int|
                    0 <= j < i ==> (#[trigger] vals[j]).wf() && -FX_SCALE <= vals[j].v()
                        < FX_SCALE,
            decreases n - i,
        {
            let u: u32 = rand::random::<u32>();
            let raw: i64 = (u % 131072) as i64 - FX_SCALE;
            vals.push(Fx { raw });
            i += 1;
        }
        Samples::from_vals(vals)
    }

    /// The offset under the cursor; advances the cursor cyclically.
    pub fn next(&mut self) -> (r: Fx)
        requires
            old(self).wf(),
        ensures
            final(self).wf(),
            final(self).offsets() == old(self).offsets(),
            r == old(self).offsets()[old(self).pos as int],
            final(self).pos == next_pos(old(self).pos as nat, old(self).offsets().len()),
            r.wf(),
            -FX_SCALE <= r.v() < FX_SCALE,
    {
        let r = self.vals[self.pos];
        if self.pos + 1 >= self.vals.len() {
            self.pos = 0;
        } else {
            self.pos = self.pos + 1;
        }
        r
    }

    /// Draws points with three coordinates in `[-1, 1)` until one falls
    /// strictly inside the unit sphere, giving up on the center point
    /// after `attempts` rounds.
    pub fn point_in_sphere(&mut self, attempts: u32) -> (p: Vec3)
        requires
            old(self).wf(),
        ensures
            final(self).wf(),
            final(self).offsets() == old(self).offsets(),
            (p, final(self).pos as nat) == spec_point_in_sphere(
                old(self).offsets(),
                old(self).pos as nat,
                attempts as nat,
            ),
            p.wf(),
            vec_squared_length(p).v() < FX_SCALE,
        decreases attempts,
    {
        if attempts == 0 {
            let p = Vec3::zero();
            proof {
                crate::fixed::lemma_fx_mul_zero(p.0, p.0);
                assert(vec_squared_length(p).v() == 0);
            }
            p
        } else {
            let x = self.next();
            let y = self.next();
            let z = self.next();
            let p = Vec3::new(x, y, z);
            if p.squared_length().lt(Fx::one()) {
                p
            } else {
                self.point_in_sphere(attempts - 1)
            }
        }
    }

    /// Draws points with two coordinates in `[-1, 1)` until one falls
    /// strictly inside the unit circle, giving up on the center point
    /// after `attempts` rounds.
    pub fn point_in_disk(&mut self, attempts: u32) -> (p: Vec3)
        requires
            old(self).wf(),
        ensures
            final(self).wf(),
            final(self).offsets() == old(self).offsets(),
            (p, final(self).pos as nat) == spec_point_in_disk(
                old(self).offsets(),
                old(self).pos as nat,
                attempts as nat,
            ),
            p.wf(),
            vec_squared_length(p).v() < FX_SCALE,
        decreases attempts,
    {
        if attempts == 0 {
            let p = Vec3::zero();
            proof {
                assert(vec_squared_length(p).v() == 0);
            }
            p
        } else {
            let x = self.next();
            let y = self.next();
            let p = Vec3::new(x, y, Fx::zero());
            if p.squared_length().lt(Fx::one()) {
                p
            } else {
                self.point_in_disk(attempts - 1)
            }
        }
    }

    /// One draw rescaled into `[0, 1)`.
    pub fn next_unit(&mut self) -> (r: Fx)
        requires
            old(self).wf(),
        ensures
            final(self).wf(),
            final(self).offsets() == old(self).offsets(),
            r == to_unit(old(self).offsets()[old(self).pos as int]),
            final(self).pos == next_pos(old(self).pos as nat, old(self).offsets().len()),
            r.wf(),
            0 <= r.v() < FX_SCALE,
    {
        let s = self.next();
        let r = s.add(Fx::one()).mul(Fx { raw: 32768 });
        proof {
            assert(0 <= r.v() < FX_SCALE);
        }
        r
    }
}

} // verus!
