//! The factor-blend scene and its deterministic Whitted-style integrator.
//!
//! A hit's local color is the base color times the summed, shadow-tested
//! light contributions; it is blended with a recursively traced
//! reflection and a recursively traced transmission, weighted by the
//! surface's factors, the local term keeping the remaining weight. The
//! transmitted ray restarts past the surface's exit distance, so solids
//! are passed through rather than immediately re-hit.

use crate::color::Color;
use crate::fixed::{Fx, fx_add, fx_of, fx_sub};
use crate::material::spec_reflect;
use crate::ray::{Ray, ray_at};
use crate::raytracer::geometry::{GeomHit, Geometry};
use crate::raytracer::light::{Light, PointLight, SHADOW_EPS_RAW};
use crate::vec3::{Vec3, vec_add, vec_mul, vec_scale};
use vstd::prelude::*;

verus! {

/// The color shown where no surface is met: a fixed sky blue.
pub open spec fn spec_sky() -> Color {
    Vec3(fx_of(32768), fx_of(45875), fx_of(65536))
}

/// The closed set of surfaces this variant's scenes hold.
#[derive(Clone, Copy, Debug, PartialEq, Eq, Structural)]
pub enum Shape {
    Cube(crate::raytracer::cube::Cube),
    Cylinder(crate::raytracer::cylinder::Cylinder),
}

impl Geometry for Shape {
    open spec fn spec_compute_hit(&self, ray: Ray) -> Option<GeomHit> {
        match self {
            Shape::Cube(c) => c.spec_compute_hit(ray),
            Shape::Cylinder(c) => c.spec_compute_hit(ray),
        }
    }

    open spec fn spec_color_at(&self, position: Vec3) -> Color {
        match self {
            Shape::Cube(c) => c.spec_color_at(position),
            Shape::Cylinder(c) => c.spec_color_at(position),
        }
    }

    open spec fn geom_wf(&self) -> bool {
        match self {
            Shape::Cube(c) => c.geom_wf(),
            Shape::Cylinder(c) => c.geom_wf(),
        }
    }

    open spec fn spec_reflection_factor(&self) -> Option<Fx> {
        match self {
            Shape::Cube(c) => c.spec_reflection_factor(),
            Shape::Cylinder(c) => c.spec_reflection_factor(),
        }
    }

    open spec fn spec_transparency_factor(&self) -> Option<Fx> {
        match self {
            Shape::Cube(c) => c.spec_transparency_factor(),
            Shape::Cylinder(c) => c.spec_transparency_factor(),
        }
    }

    fn compute_hit(&self, ray: &Ray) -> (res: Option<GeomHit>) {
        match self {
            Shape::Cube(c) => c.compute_hit(ray),
            Shape::Cylinder(c) => c.compute_hit(ray),
        }
    }

    fn get_color_at(&self, position: &Vec3) -> (c: Color) {
        match self {
            Shape::Cube(c) => c.get_color_at(position),
            Shape::Cylinder(c) => c.get_color_at(position),
        }
    }

    fn get_reflection_factor(&self) -> (f: Option<Fx>) {
        match self {
            Shape::Cube(c) => c.get_reflection_factor(),
            Shape::Cylinder(c) => c.get_reflection_factor(),
        }
    }

    fn get_transparency_factor(&self) -> (f: Option<Fx>) {
        match self {
            Shape::Cube(c) => c.get_transparency_factor(),
            Shape::Cylinder(c) => c.get_transparency_factor(),
        }
    }
}

/// The nearest-hit scan from index `i` on: the denotation of
/// `Scene::closest_hit`. A strictly smaller entry distance replaces the
/// best hit so far.
pub open spec fn scene_hit_from(
    objs: Seq<Shape>,
    i: int,
    ray: Ray,
    best: Option<(GeomHit, Shape)>,
) -> Option<(GeomHit, Shape)>
    decreases objs.len() - i,
{
    if i < 0 || i >= objs.len() {
        best
    } else {
        let next = match (best, objs[i].spec_compute_hit(ray)) {
            (None, Some(h)) => Some((h, objs[i])),
            (Some((bh, bs)), Some(h)) => if h.distance.v() < bh.distance.v() {
                Some((h, objs[i]))
            } else {
                Some((bh, bs))
            },
            (b, None) => b,
        };
        scene_hit_from(objs, i + 1, ray, next)
    }
}

/// The nearest hit over the whole scene, with the surface that produced
/// it.
pub open spec fn spec_scene_hit(objs: Seq<Shape>, ray: Ray) -> Option<(GeomHit, Shape)> {
    scene_hit_from(objs, 0, ray, None)
}

/// The summed contributions of the first `n` lights at a hit.
pub open spec fn spec_lights_sum(
    objs: Seq<Shape>,
    lights: Seq<PointLight>,
    n: int,
    info: crate::raytracer::geometry::HitInfo,
) -> Color
    decreases n,
{
    if n <= 0 {
        Vec3(fx_of(0), fx_of(0), fx_of(0))
    } else {
        vec_add(
            spec_lights_sum(objs, lights, n - 1, info),
            lights[n - 1].spec_contribution(objs, info),
        )
    }
}

/// Denotation of `Scene::trace`: sky at the depth bound or on a miss; on
/// a hit, the lit local color weighted by what reflection and
/// transparency leave over, plus the two weighted recursive samples.
pub open spec fn spec_trace_blend(
    objs: Seq<Shape>,
    lights: Seq<PointLight>,
    ray: Ray,
    depth: nat,
) -> Color
    decreases depth,
{
    if depth == 0 {
        spec_sky()
    } else {
        match spec_scene_hit(objs, ray) {
            None => spec_sky(),
            Some((h, shape)) => {
                let lit = spec_lights_sum(objs, lights, lights.len() as int, h.info);
                let local = vec_mul(shape.spec_color_at(h.info.position), lit);
                let refl = shape.spec_reflection_factor();
                let trans = shape.spec_transparency_factor();
                let refl_w = match refl {
                    Some(f) => f,
                    None => fx_of(0),
                };
                let trans_w = match trans {
                    Some(f) => f,
                    None => fx_of(0),
                };
                let local_w = fx_sub(fx_sub(fx_of(65536), refl_w), trans_w);
                let c0 = vec_scale(local, local_w);
                let c1 = match refl {
                    Some(f) => {
                        let reflected = Ray {
                            origin: vec_add(
                                h.info.position,
                                vec_scale(h.info.normal, fx_of(SHADOW_EPS_RAW as int)),
                            ),
                            direction: spec_reflect(ray.direction, h.info.normal),
                        };
                        vec_add(
                            c0,
                            vec_scale(
                                spec_trace_blend(objs, lights, reflected, (depth - 1) as nat),
                                f,
                            ),
                        )
                    },
                    None => c0,
                };
                match trans {
                    Some(f) => {
                        let transmitted = Ray {
                            origin: ray_at(
                                ray,
                                fx_add(h.exit_distance, fx_of(SHADOW_EPS_RAW as int)),
                            ),
                            direction: ray.direction,
                        };
                        vec_add(
                            c1,
                            vec_scale(
                                spec_trace_blend(objs, lights, transmitted, (depth - 1) as nat),
                                f,
                            ),
                        )
                    },
                    None => c1,
                }
            },
        }
    }
}

/// An ordered collection of surfaces and lights, read-only while a
/// render runs.
#[derive(Clone, Debug)]
pub struct Scene {
    pub objects: Vec<Shape>,
    pub lights: Vec<PointLight>,
}

impl Scene {
    /// Every surface and light is well-formed.
    pub open spec fn scene_wf(self) -> bool {
        &&& forall|i: int| 0 <= i < self.objects.len() ==> (#[trigger] self.objects[i]).geom_wf()
        &&& forall|i: int| 0 <= i < self.lights.len() ==> (#[trigger] self.lights[i]).wf()
    }

    /// An empty scene.
    pub fn new() -> (s: Scene)
        ensures
            s.objects@ == Seq::<Shape>::empty(),
            s.lights@ == Seq::<PointLight>::empty(),
            s.scene_wf(),
    {
        Scene { objects: Vec::new(), lights: Vec::new() }
    }

    /// Appends a surface.
    pub fn add_object(&mut self, shape: Shape)
        ensures
            final(self).objects@ == old(self).objects@.push(shape),
            final(self).lights == old(self).lights,
    {
        self.objects.push(shape);
    }

    /// Appends a light.
    pub fn add_light(&mut self, light: PointLight)
        ensures
            final(self).lights@ == old(self).lights@.push(light),
            final(self).objects == old(self).objects,
    {
        self.lights.push(light);
    }

    /// The nearest hit along `ray` over all surfaces, with the surface
    /// that produced it.
    pub fn closest_hit(&self, ray: &Ray) -> (res: Option<(GeomHit, Shape)>)
        requires
            self.scene_wf(),
            ray.wf(),
        ensures
            res == spec_scene_hit(self.objects@, *ray),
            res matches Some((h, s)) ==> h.wf() && s.geom_wf(),
    {
        let mut best: Option<(GeomHit, Shape)> = None;
        let mut i: usize = 0;
        while i < self.objects.len()
            invariant
                self.scene_wf(),
                ray.wf(),
                i <= self.objects.len(),
                best matches Some((h, s)) ==> h.wf() && s.geom_wf(),
                scene_hit_from(self.objects@, i as int, *ray, best) == spec_scene_hit(
                    self.objects@,
                    *ray,
                ),
            decreases self.objects.len() - i,
        {
            let obj = &self.objects[i];
            match obj.compute_hit(ray) {
                Some(h) => {
                    match best {
                        None => {
                            best = Some((h, *obj));
                        },
                        Some((bh, _)) => {
                            if h.distance.lt(bh.distance) {
                                best = Some((h, *obj));
                            }
                        },
                    }
                },
                None => {},
            }
            i += 1;
        }
        best
    }

    /// Estimates the color along `ray` with `depth` blend recursions
    /// left.
    #[verifier::rlimit(100)]
    pub fn trace(&self, ray: &Ray, depth: u32) -> (c: Color)
        requires
            self.scene_wf(),
            ray.wf(),
        ensures
            c == spec_trace_blend(self.objects@, self.lights@, *ray, depth as nat),
            c.wf(),
        decreases depth,
    {
        if depth == 0 {
            return Vec3::new(Fx { raw: 32768 }, Fx { raw: 45875 }, Fx { raw: 65536 });
        }
        match self.closest_hit(ray) {
            None => Vec3::new(Fx { raw: 32768 }, Fx { raw: 45875 }, Fx { raw: 65536 }),
            Some((h, shape)) => {
                let mut lit = Vec3::zero();
                let mut i: usize = 0;
                while i < self.lights.len()
                    invariant
                        self.scene_wf(),
                        ray.wf(),
                        h.wf(),
                        i <= self.lights.len(),
                        lit.wf(),
                        lit == spec_lights_sum(self.objects@, self.lights@, i as int, h.info),
                    decreases self.lights.len() - i,
                {
                    let light = self.lights[i];
                    light.compute_light(self, &h.info, &mut lit, ray);
                    i += 1;
                }
                let local = shape.get_color_at(&h.info.position).mul(lit);
                let refl = shape.get_reflection_factor();
                let trans = shape.get_transparency_factor();
                let refl_w = match refl {
                    Some(f) => f,
                    None => Fx::zero(),
                };
                let trans_w = match trans {
                    Some(f) => f,
                    None => Fx::zero(),
                };
                let local_w = Fx::one().sub(refl_w).sub(trans_w);
                let c0 = local.scale(local_w);
                let c1 = match refl {
                    Some(f) => {
                        let reflected = Ray::new(
                            h.info.position.add(h.info.normal.scale(Fx { raw: SHADOW_EPS_RAW })),
                            crate::material::reflect(&ray.direction, &h.info.normal),
                        );
                        c0.add(self.trace(&reflected, depth - 1).scale(f))
                    },
                    None => c0,
                };
                match trans {
                    Some(f) => {
                        let transmitted = Ray::new(
                            ray.at(h.exit_distance.add(Fx { raw: SHADOW_EPS_RAW })),
                            ray.direction,
                        );
                        c1.add(self.trace(&transmitted, depth - 1).scale(f))
                    },
                    None => c1,
                }
            },
        }
    }
}

} // verus!
