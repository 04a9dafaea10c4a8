use raytracer::cube::Cube;
use raytracer::cylinder::Cylinder;
use raytracer::fixed::{FX_RAW_BOUND, Fx};
use raytracer::hit::{HitRecord, Hittable, HittableList, Surface};
use raytracer::material::Material;
use raytracer::plane_surf::Plane;
use raytracer::ray::Ray;
use raytracer::sphere::Sphere;
use raytracer::vec3::Vec3;

fn fx(units: i64) -> Fx {
    Fx { raw: units * 65536 }
}

fn v(x: i64, y: i64, z: i64) -> Vec3 {
    Vec3(fx(x), fx(y), fx(z))
}

fn mat() -> Material {
    Material::Lambertian { albedo: v(1, 1, 1) }
}

#[test]
fn test_ray() {
    // 1.1 and friends are not on the Q16.16 grid; the nearest raw values
    // stand in for them and the constructor must store them unchanged.
    let p = Vec3(Fx { raw: 72090 }, Fx { raw: 78643 }, Fx { raw: 85197 });
    let q = Vec3(Fx { raw: 144179 }, Fx { raw: 150733 }, Fx { raw: 157286 });
    let r = Ray::new(p, q);
    assert_eq!(r.origin.x().raw, 72090);
    assert_eq!(r.origin.y().raw, 78643);
    assert_eq!(r.origin.z().raw, 85197);
    assert_eq!(r.direction.x().raw, 144179);
    assert_eq!(r.direction.y().raw, 150733);
    assert_eq!(r.direction.z().raw, 157286);
}

#[test]
fn test_ray_at() {
    let ray = Ray::new(v(0, 0, 0), v(1, 2, 3));
    let s = ray.at(Fx { raw: 32768 });
    assert_eq!(s.x().raw, 32768);
    assert_eq!(s.y().raw, 65536);
    assert_eq!(s.z().raw, 98304);
}

#[test]
fn test_hitrecord() {
    let hit_record = HitRecord {
        t: fx(1),
        point: v(1, 2, 3),
        normal: v(0, 0, 1),
        u: fx(1),
        v: fx(1),
        material: mat(),
    };
    assert_eq!(hit_record.point, v(1, 2, 3));
    assert_eq!(hit_record.t, fx(1));
    assert_eq!(hit_record.normal, v(0, 0, 1));
}

#[test]
fn test_set_face_normal_opposes_ray() {
    let mut rec = HitRecord {
        t: fx(1),
        point: v(0, 0, 0),
        normal: v(0, 0, 0),
        u: fx(0),
        v: fx(0),
        material: mat(),
    };
    // The ray already opposes the outward normal: keep it.
    let toward = Ray::new(v(0, 0, 2), v(0, 0, -1));
    rec.set_face_normal(&toward, &v(0, 0, 1));
    assert_eq!(rec.normal, v(0, 0, 1));
    // The ray runs with the outward normal: flip it to oppose the ray.
    let along = Ray::new(v(0, 0, 2), v(0, 0, 1));
    rec.set_face_normal(&along, &v(0, 0, 1));
    assert_eq!(rec.normal, v(0, 0, -1));
}

#[test]
fn sphere_hit_reports_nearer_root() {
    // Ray from (0,0,2) through the center of a unit sphere at the origin:
    // roots at t = 1 and t = 3, both in the window; t = 1 must win.
    let s = Sphere::new(v(0, 0, 0), fx(1), mat());
    let r = Ray::new(v(0, 0, 2), v(0, 0, -1));
    let h = s.hit(&r, Fx { raw: 66 }, fx(1000)).expect("hit");
    assert_eq!(h.t, fx(1));
    assert_eq!(h.point, v(0, 0, 1));
    assert_eq!(h.normal, v(0, 0, 1));
}

#[test]
fn sphere_hit_falls_back_to_far_root() {
    // Same geometry, but the window starts past the near root.
    let s = Sphere::new(v(0, 0, 0), fx(1), mat());
    let r = Ray::new(v(0, 0, 2), v(0, 0, -1));
    let h = s.hit(&r, fx(2), fx(1000)).expect("hit");
    assert_eq!(h.t, fx(3));
    assert_eq!(h.normal, v(0, 0, -1));
}

#[test]
fn sphere_miss_is_none() {
    let s = Sphere::new(v(0, 0, 0), fx(1), mat());
    let r = Ray::new(v(0, 5, 2), v(0, 0, -1));
    assert!(s.hit(&r, Fx { raw: 66 }, fx(1000)).is_none());
}

#[test]
fn cube_axis_rays_report_entry_faces() {
    let c = Cube::new(v(-1, -1, -1), v(1, 1, 1), mat());
    let from_left = Ray::new(v(-3, 0, 0), v(1, 0, 0));
    let h = c.hit(&from_left, Fx { raw: 66 }, fx(1000)).expect("hit");
    assert_eq!(h.t, fx(2));
    assert_eq!(h.normal, v(-1, 0, 0));
    let from_right = Ray::new(v(3, 0, 0), v(-1, 0, 0));
    let h = c.hit(&from_right, Fx { raw: 66 }, fx(1000)).expect("hit");
    assert_eq!(h.normal, v(1, 0, 0));
    let from_below = Ray::new(v(0, -3, 0), v(0, 1, 0));
    let h = c.hit(&from_below, Fx { raw: 66 }, fx(1000)).expect("hit");
    assert_eq!(h.normal, v(0, -1, 0));
    let from_above = Ray::new(v(0, 3, 0), v(0, -1, 0));
    let h = c.hit(&from_above, Fx { raw: 66 }, fx(1000)).expect("hit");
    assert_eq!(h.normal, v(0, 1, 0));
    let from_front = Ray::new(v(0, 0, 3), v(0, 0, -1));
    let h = c.hit(&from_front, Fx { raw: 66 }, fx(1000)).expect("hit");
    assert_eq!(h.normal, v(0, 0, 1));
    let from_back = Ray::new(v(0, 0, -3), v(0, 0, 1));
    let h = c.hit(&from_back, Fx { raw: 66 }, fx(1000)).expect("hit");
    assert_eq!(h.normal, v(0, 0, -1));
}

#[test]
fn cube_miss_is_none() {
    let c = Cube::new(v(-1, -1, -1), v(1, 1, 1), mat());
    let r = Ray::new(v(-3, 5, 0), v(1, 0, 0));
    assert!(c.hit(&r, Fx { raw: 66 }, fx(1000)).is_none());
}

#[test]
fn cylinder_lateral_hit() {
    // Base center at the origin, radius 1, height 2; a horizontal ray at
    // height 1 meets the lateral surface at t = 2.
    let c = Cylinder::new(v(0, 0, 0), fx(1), fx(2), mat());
    let r = Ray::new(v(-3, 1, 0), v(1, 0, 0));
    let h = c.hit(&r, Fx { raw: 66 }, fx(1000)).expect("hit");
    assert_eq!(h.t, fx(2));
    assert_eq!(h.point, v(-1, 1, 0));
    assert_eq!(h.normal, v(-1, 1, 0));
}

#[test]
fn cylinder_cap_hit() {
    // A vertical ray down the axis meets the top cap (height 2) first.
    let c = Cylinder::new(v(0, 0, 0), fx(1), fx(2), mat());
    let r = Ray::new(v(0, 5, 0), v(0, -1, 0));
    let h = c.hit(&r, Fx { raw: 66 }, fx(1000)).expect("hit");
    assert_eq!(h.t, fx(3));
    assert_eq!(h.point, v(0, 2, 0));
}

#[test]
fn cylinder_miss_above() {
    let c = Cylinder::new(v(0, 0, 0), fx(1), fx(2), mat());
    let r = Ray::new(v(-3, 5, 0), v(1, 0, 0));
    assert!(c.hit(&r, Fx { raw: 66 }, fx(1000)).is_none());
}

#[test]
fn plane_hit_and_bounds() {
    // The constructor stores the normal negated: passing (0,-1,0) makes
    // the stored normal (0,1,0), facing the upward ray below.
    let p = Plane::new(v(0, -1, 0), fx(-2), fx(6), fx(6), mat());
    let r = Ray::new(v(0, 0, 0), v(0, 1, 0));
    let h = p.hit(&r, Fx { raw: 66 }, fx(1000)).expect("hit");
    assert_eq!(h.t, fx(2));
    assert_eq!(h.point, v(0, 2, 0));
    assert_eq!(h.normal, v(0, 1, 0));
    // The same plane misses when the patch is too small for the point.
    let small = Plane::new(v(0, -1, 0), fx(-2), fx(3), fx(3), mat());
    assert!(small.hit(&r, Fx { raw: 66 }, fx(1000)).is_none());
}

#[test]
fn plane_hit_from_the_back_side() {
    // The patch is two-sided: a downward ray from above the plane hits
    // it too; only rays parallel to the plane are rejected.
    let p = Plane::new(v(0, -1, 0), fx(-2), fx(6), fx(6), mat());
    let from_above = Ray::new(v(0, 4, 0), v(0, -1, 0));
    let h = p.hit(&from_above, Fx { raw: 66 }, fx(1000)).expect("hit");
    assert_eq!(h.t, fx(2));
    assert_eq!(h.point, v(0, 2, 0));
    assert_eq!(h.normal, v(0, 1, 0));
    let parallel = Ray::new(v(0, 0, 0), v(1, 0, 0));
    assert!(p.hit(&parallel, Fx { raw: 66 }, fx(1000)).is_none());
}

#[test]
fn list_hit_returns_nearest_across_surfaces() {
    let far = Surface::Sphere(Sphere::new(v(0, 0, -10), fx(1), mat()));
    let near = Surface::Sphere(Sphere::new(v(0, 0, -4), fx(1), mat()));
    let world = HittableList::new(vec![far, near]);
    let r = Ray::new(v(0, 0, 0), v(0, 0, -1));
    let h = world.hit(&r, Fx { raw: 66 }, Fx { raw: FX_RAW_BOUND }).expect("hit");
    assert_eq!(h.t, fx(3));
}
