//! Lights for the factor-blend variant: each light adds its shadow-tested
//! contribution to a running pixel color.

use crate::color::Color;
use crate::fixed::{FX_SCALE, Fx, fx_mul, fx_of};
use crate::ray::Ray;
use crate::raytracer::geometry::HitInfo;
use crate::raytracer::scene::{Scene, spec_scene_hit};
use crate::vec3::{Vec3, vec_add, vec_dot, vec_scale, vec_squared_length, vec_sub, vec_unit};
use vstd::prelude::*;

verus! {

/// Raw offset along the normal that shadow rays start from, to avoid
/// hitting the surface they leave (about one thousandth).
pub const SHADOW_EPS_RAW: i64 = 66;

/// A light source: what it adds to a pixel at a lit point.
pub trait Light: Sized {
    /// The contribution as a mathematical function of the scene's
    /// geometry and the hit.
    spec fn spec_contribution(&self, objs: Seq<crate::raytracer::scene::Shape>, info: HitInfo) -> Color;

    /// The light's own scalars are well-formed.
    spec fn light_wf(&self) -> bool;

    /// Adds the light's shadow-tested contribution at `hit_info` to
    /// `pixel_color`.
    fn compute_light(&self, scene: &Scene, hit_info: &HitInfo, pixel_color: &mut Color, ray: &Ray)
        requires
            self.light_wf(),
            scene.scene_wf(),
            hit_info.wf(),
            old(pixel_color).wf(),
        ensures
            *final(pixel_color) == vec_add(
                *old(pixel_color),
                self.spec_contribution(scene.objects@, *hit_info),
            ),
            final(pixel_color).wf(),
    ;
}

/// A point light: position, color, a global intensity, and a range
/// beyond which it contributes nothing.
#[derive(Clone, Copy, Debug, PartialEq, Eq, Structural)]
pub struct PointLight {
    pub position: Vec3,
    pub color: Color,
    pub intensity: Fx,
    pub range: Fx,
}

/// The diffuse, shadow-tested contribution of a point light at a lit
/// point: zero beyond the light's range, zero for a face turned away,
/// zero when an occluder stands between the point and the light, else
/// the light color scaled by intensity times the diffuse cosine.
pub open spec fn spec_point_light(
    objs: Seq<crate::raytracer::scene::Shape>,
    light: PointLight,
    info: HitInfo,
) -> Color {
    let to_light = vec_sub(light.position, info.position);
    let dist2 = vec_squared_length(to_light);
    if dist2.v() > fx_mul(light.range, light.range).v() {
        Vec3(fx_of(0), fx_of(0), fx_of(0))
    } else {
        let diffuse = vec_dot(info.normal, vec_unit(to_light));
        if diffuse.v() <= 0 {
            Vec3(fx_of(0), fx_of(0), fx_of(0))
        } else {
            let shadow_ray = Ray {
                origin: vec_add(info.position, vec_scale(info.normal, fx_of(SHADOW_EPS_RAW as int))),
                direction: to_light,
            };
            match spec_scene_hit(objs, shadow_ray) {
                Some((sh, _)) => if 0 < sh.distance.v() < FX_SCALE {
                    Vec3(fx_of(0), fx_of(0), fx_of(0))
                } else {
                    vec_scale(light.color, fx_mul(light.intensity, diffuse))
                },
                None => vec_scale(light.color, fx_mul(light.intensity, diffuse)),
            }
        }
    }
}

impl PointLight {
    /// Every scalar the light carries is well-formed.
    pub open spec fn wf(self) -> bool {
        self.position.wf() && self.color.wf() && self.intensity.wf() && self.range.wf()
    }

    /// Builds a point light from its position, color channels, intensity
    /// and range.
    pub fn new(position: Vec3, color: (Fx, Fx, Fx), intensity: Fx, range: Fx) -> (l: PointLight)
        ensures
            l == (PointLight {
                position,
                color: Vec3(color.0, color.1, color.2),
                intensity,
                range,
            }),
    {
        PointLight { position, color: Vec3::new(color.0, color.1, color.2), intensity, range }
    }
}

impl Light for PointLight {
    open spec fn spec_contribution(
        &self,
        objs: Seq<crate::raytracer::scene::Shape>,
        info: HitInfo,
    ) -> Color {
        spec_point_light(objs, *self, info)
    }

    open spec fn light_wf(&self) -> bool {
        self.wf()
    }

    fn compute_light(
        &self,
        scene: &Scene,
        hit_info: &HitInfo,
        pixel_color: &mut Color,
        ray: &Ray,
    ) {
        let to_light = self.position.sub(hit_info.position);
        let dist2 = to_light.squared_length();
        if dist2.gt(self.range.mul(self.range)) {
            proof {
                crate::vec3::lemma_vec_add_zero(*pixel_color);
            }
            return ;
        }
        let diffuse = Vec3::dot(&hit_info.normal, &Vec3::unit_vector(&to_light));
        if diffuse.le(Fx::zero()) {
            proof {
                crate::vec3::lemma_vec_add_zero(*pixel_color);
            }
            return ;
        }
        let shadow_ray = Ray::new(
            hit_info.position.add(hit_info.normal.scale(Fx { raw: SHADOW_EPS_RAW })),
            to_light,
        );
        match scene.closest_hit(&shadow_ray) {
            Some((sh, _)) => {
                if sh.distance.gt(Fx::zero()) && sh.distance.lt(Fx::one()) {
                    proof {
                        crate::vec3::lemma_vec_add_zero(*pixel_color);
                    }
                    return ;
                }
            },
            None => {},
        }
        let add = self.color.scale(self.intensity.mul(diffuse));
        *pixel_color = pixel_color.add(add);
    }
}

} // verus!
